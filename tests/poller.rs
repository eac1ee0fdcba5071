use std::collections::BTreeMap;

use record_relay::config::RunConfiguration;
use record_relay::error::{FileError, RecordFormatError};
use record_relay::poller::{classify, Partner, Phase, PollAction, PollEvent, Poller};

/// An input and an output directory held in memory.
struct Dirs {
    input: BTreeMap<String, Vec<String>>,
    output: BTreeMap<String, Vec<String>>,
    writes: usize,
    removals: usize,
    rejected: Vec<(String, FileError)>,
    skipped: Vec<String>,
}

fn config() -> RunConfiguration {
    RunConfiguration {
        input_dir: String::from("in/"),
        output_dir: String::from("out/"),
        date_code: String::from("20240131"),
    }
}

/// Runs one scan: from the tick to the wait that ends it.
fn run_cycle(p: &mut Poller, d: &mut Dirs) {
    let mut ev = PollEvent::Tick;
    loop {
        ev = match p.step(ev) {
            PollAction::List => PollEvent::Listed(d.input.keys().cloned().collect()),
            PollAction::Read(n) => match d.input.get(&n) {
                Some(l) => PollEvent::Read(l.clone()),
                None => PollEvent::ReadFailed,
            },
            PollAction::Write { target, lines } => {
                d.writes += 1;
                d.output.insert(target, lines);
                PollEvent::Written
            }
            PollAction::Remove(n) => {
                d.removals += 1;
                d.input.remove(&n);
                PollEvent::Removed
            }
            PollAction::Skip(n) => {
                d.skipped.push(n);
                PollEvent::Done
            }
            PollAction::Reject { name, error } => {
                d.rejected.push((name, error));
                PollEvent::Done
            }
            PollAction::Sleep => return,
            other => panic!("unexpected action {:?}", other),
        };
    }
}

fn dirs() -> Dirs {
    Dirs {
        input: BTreeMap::new(),
        output: BTreeMap::new(),
        writes: 0,
        removals: 0,
        rejected: Vec::new(),
        skipped: Vec::new(),
    }
}

fn movitel_file() -> Vec<String> {
    let mut v = vec![String::from("AB01234567890XYZ"); 40];
    v[2] = String::from("FaceValue:42");
    v
}

#[test]
fn classify_by_first_character() {
    assert_eq!(classify("V_sample.txt"), Partner::Vodacom);
    assert_eq!(classify("C_sample.txt"), Partner::Movitel);
    assert_eq!(classify("X_ignore.txt"), Partner::Unrecognized);
    assert_eq!(classify("v_lower.txt"), Partner::Unrecognized);
    assert_eq!(classify(""), Partner::Unrecognized);
}

#[test]
fn end_to_end_cycle() {
    let mut d = dirs();
    let v_line = format!("000000000AB{}", "0".repeat(30));
    d.input.insert(String::from("V_sample.txt"), vec![v_line]);
    d.input.insert(String::from("C_sample.txt"), movitel_file());
    d.input.insert(String::from("X_ignore.txt"), vec![String::from("keep")]);
    let mut p = Poller::new(config());
    run_cycle(&mut p, &mut d);
    assert_eq!(p.phase(), Phase::Waiting);
    assert_eq!(
        d.output.get("out/V_sample.txt"),
        Some(&vec![format!("00000000000AB{}", "0".repeat(30))])
    );
    assert_eq!(
        d.output.get("out/C_sample.txt"),
        Some(&vec![String::from("120240131Z01234567890YM0042"); 2])
    );
    assert_eq!(d.output.len(), 2);
    assert_eq!(d.input.len(), 1);
    assert_eq!(d.input.get("X_ignore.txt"), Some(&vec![String::from("keep")]));
    assert_eq!(d.skipped, vec![String::from("X_ignore.txt")]);
}

#[test]
fn empty_directory_cycle_writes_and_removes_nothing() {
    let mut d = dirs();
    let mut p = Poller::new(config());
    run_cycle(&mut p, &mut d);
    run_cycle(&mut p, &mut d);
    assert_eq!(d.writes, 0);
    assert_eq!(d.removals, 0);
    assert!(d.output.is_empty());
}

#[test]
fn malformed_file_is_left_in_place_and_cycle_goes_on() {
    let mut d = dirs();
    d.input.insert(String::from("C_bad.txt"), vec![String::from("x"); 10]);
    d.input.insert(String::from("V_good.txt"), vec![String::from("short")]);
    let mut p = Poller::new(config());
    run_cycle(&mut p, &mut d);
    assert_eq!(
        d.rejected,
        vec![(String::from("C_bad.txt"), FileError::Format(RecordFormatError::MissingColon))]
    );
    assert!(d.input.contains_key("C_bad.txt"));
    assert!(!d.input.contains_key("V_good.txt"));
    assert_eq!(d.output.get("out/V_good.txt"), Some(&vec![String::from("short")]));
}

#[test]
fn failed_write_keeps_source() {
    let mut p = Poller::new(config());
    assert!(matches!(p.step(PollEvent::Tick), PollAction::List));
    match p.step(PollEvent::Listed(vec![String::from("V_a.txt")])) {
        PollAction::Read(n) => assert_eq!(n, "V_a.txt"),
        other => panic!("unexpected action {:?}", other),
    }
    match p.step(PollEvent::Read(vec![String::from("line")])) {
        PollAction::Write { target, lines } => {
            assert_eq!(target, "out/V_a.txt");
            assert_eq!(lines, vec![String::from("line")]);
        }
        other => panic!("unexpected action {:?}", other),
    }
    match p.step(PollEvent::WriteFailed) {
        PollAction::Reject { name, error } => {
            assert_eq!(name, "V_a.txt");
            assert_eq!(error, FileError::Io);
        }
        other => panic!("unexpected action {:?}", other),
    }
    assert!(matches!(p.step(PollEvent::Done), PollAction::Sleep));
}

#[test]
fn listing_failure_stops_the_poller() {
    let mut p = Poller::new(config());
    assert!(matches!(p.step(PollEvent::Tick), PollAction::List));
    assert!(matches!(p.step(PollEvent::ListFailed), PollAction::Exit));
    assert_eq!(p.phase(), Phase::Stopped);
    assert!(matches!(p.step(PollEvent::Tick), PollAction::Nothing));
}

#[test]
fn unexpected_event_changes_nothing() {
    let mut p = Poller::new(config());
    assert!(matches!(p.step(PollEvent::Written), PollAction::Nothing));
    assert_eq!(p.phase(), Phase::Waiting);
}
