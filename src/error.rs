use vstd::prelude::*;

verus! {

/// Why a record set could not be transformed.
#[derive(Debug, Clone, Copy, PartialEq, Eq, Structural)]
pub enum RecordFormatError {
    /// The header line (index 2) is absent.
    MissingHeader,
    /// The header line holds no colon.
    MissingColon,
    /// Nothing is left once the banner block and the footer are removed.
    TooFewLines,
    /// The record line at this index of the input is too short for the layout.
    LineTooShort { line: usize },
}

/// Why one input file was left in place. Such a failure concerns that file
/// alone: the poll cycle goes on with the next one.
#[derive(Debug, Clone, Copy, PartialEq, Eq, Structural)]
pub enum FileError {
    /// Its records do not fit the partner's layout.
    Format(RecordFormatError),
    /// Reading it, writing its output, or removing it failed.
    Io,
}

/// Why the run configuration could not be loaded.
#[derive(Debug, Clone, Copy, PartialEq, Eq, Structural)]
pub enum ConfigurationError {
    /// The configuration file could not be read.
    Unreadable,
    /// The configuration file holds fewer than three lines.
    TooFewLines,
}

} // verus!
