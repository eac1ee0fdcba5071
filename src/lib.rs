pub mod config;
pub mod error;
pub mod movitel;
pub mod poller;
pub mod vodacom;
