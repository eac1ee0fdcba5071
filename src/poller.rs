use vstd::prelude::*;

use crate::config::RunConfiguration;
use crate::error::{FileError, RecordFormatError};
use crate::movitel::{movitel_error, movitel_lines, transform_movitel};
use crate::vodacom::{transform_vodacom, vodacom_lines};

verus! {

/// Seconds to wait between two scans of the input directory.
pub const POLL_INTERVAL_SECS: u64 = 5;

/// The partner that an input file comes from.
#[derive(Debug, Clone, Copy, PartialEq, Eq, Structural)]
pub enum Partner {
    /// Names starting with `'V'`.
    Vodacom,
    /// Names starting with `'C'`.
    Movitel,
    /// Any other name; such files are left alone.
    Unrecognized,
}

/// The partner that a file name stands for, by its first character.
pub open spec fn partner_of(name: Seq<char>) -> Partner {
    if name.len() > 0 && name[0] == 'V' {
        Partner::Vodacom
    } else if name.len() > 0 && name[0] == 'C' {
        Partner::Movitel
    } else {
        Partner::Unrecognized
    }
}

/// Classifies a file name by its first character.
pub fn classify(name: &str) -> (r: Partner)
    ensures
        r == partner_of(name@),
{
    if name.unicode_len() == 0 {
        return Partner::Unrecognized;
    }
    let c = name.get_char(0);
    if c == 'V' {
        Partner::Vodacom
    } else if c == 'C' {
        Partner::Movitel
    } else {
        Partner::Unrecognized
    }
}

/// The transformed record set of a file of partner `p`, or why it has none.
pub open spec fn transformed(p: Partner, ls: Seq<Seq<char>>, date: Seq<char>) -> Result<
    Seq<Seq<char>>,
    RecordFormatError,
> {
    if p == Partner::Vodacom {
        Ok(vodacom_lines(ls))
    } else {
        match movitel_error(ls) {
            Some(e) => Err(e),
            None => Ok(movitel_lines(ls, date)),
        }
    }
}

/// Where the poller stands in its cycle, that is which event it waits for.
#[derive(Debug, Clone, Copy, PartialEq, Eq, Structural)]
pub enum Phase {
    /// Waits for the tick that starts a scan.
    Waiting,
    /// Waits for the listing of the input directory.
    Listing,
    /// Waits for the lines of the current file.
    Reading,
    /// Waits for the output of the current file to be written.
    Writing,
    /// Waits for the current file to be removed.
    Removing,
    /// Waits for a skipped or rejected file to be reported.
    Noting,
    /// The listing failed: the poller does nothing more.
    Stopped,
}

/// What the poller is told of the work that it asked for.
#[derive(Debug)]
pub enum PollEvent {
    /// The interval is over (or the run starts).
    Tick,
    /// The names of the entries of the input directory, in listing order.
    Listed(Vec<String>),
    /// The input directory could not be listed.
    ListFailed,
    /// The lines of the file asked for.
    Read(Vec<String>),
    ReadFailed,
    Written,
    WriteFailed,
    Removed,
    RemoveFailed,
    /// The skipped or rejected file was reported.
    Done,
}

/// What the poller asks to be done next.
#[derive(Debug)]
pub enum PollAction {
    /// List the input directory.
    List,
    /// Read the lines of this input file.
    Read(String),
    /// Write these lines, each ended by a newline, to the file at `target`.
    Write { target: String, lines: Vec<String> },
    /// Remove this input file.
    Remove(String),
    /// Report that this file has a name of no partner, and leave it.
    Skip(String),
    /// Report that this file failed, and leave it in place.
    Reject { name: String, error: FileError },
    /// Wait for the poll interval.
    Sleep,
    /// Stop the run: the input directory cannot be listed.
    Exit,
    /// The event did not answer the last action: nothing to do.
    Nothing,
}

/// An action, over the views of its values.
pub enum ActionView {
    List,
    Read(Seq<char>),
    Write(Seq<char>, Seq<Seq<char>>),
    Remove(Seq<char>),
    Skip(Seq<char>),
    Reject(Seq<char>, FileError),
    Sleep,
    Exit,
    Nothing,
}

impl View for PollAction {
    type V = ActionView;

    open spec fn view(&self) -> ActionView {
        match self {
            PollAction::List => ActionView::List,
            PollAction::Read(n) => ActionView::Read(n@),
            PollAction::Write { target, lines } => ActionView::Write(target@, lines.deep_view()),
            PollAction::Remove(n) => ActionView::Remove(n@),
            PollAction::Skip(n) => ActionView::Skip(n@),
            PollAction::Reject { name, error } => ActionView::Reject(name@, *error),
            PollAction::Sleep => ActionView::Sleep,
            PollAction::Exit => ActionView::Exit,
            PollAction::Nothing => ActionView::Nothing,
        }
    }
}

/// The poller's state: the names of the current scan, the index of the
/// current file, and the phase.
pub struct PollerView {
    pub output_dir: Seq<char>,
    pub date: Seq<char>,
    pub names: Seq<Seq<char>>,
    pub next: int,
    pub phase: Phase,
}

/// Drives the scan cycle: it decides, the caller performs the I/O.
pub struct Poller {
    config: RunConfiguration,
    names: Vec<String>,
    next: usize,
    phase: Phase,
}

/// Moves on to file `i` of the scan: asks for it to be read, skips it, or
/// ends the scan with the wait.
pub open spec fn dispatch(s: PollerView, i: int) -> (PollerView, ActionView) {
    if i >= s.names.len() {
        (PollerView { next: i, phase: Phase::Waiting, ..s }, ActionView::Sleep)
    } else if partner_of(s.names[i]) == Partner::Unrecognized {
        (PollerView { next: i + 1, phase: Phase::Noting, ..s }, ActionView::Skip(s.names[i]))
    } else {
        (PollerView { next: i, phase: Phase::Reading, ..s }, ActionView::Read(s.names[i]))
    }
}

/// Leaves the current file in place and reports why.
pub open spec fn reject(s: PollerView, e: FileError) -> (PollerView, ActionView) {
    (
        PollerView { next: s.next + 1, phase: Phase::Noting, ..s },
        ActionView::Reject(s.names[s.next], e),
    )
}

/// The poller's answer to an event: its next state and the action it asks.
pub open spec fn step_spec(s: PollerView, e: PollEvent) -> (PollerView, ActionView) {
    match (s.phase, e) {
        (Phase::Waiting, PollEvent::Tick) => (
            PollerView { phase: Phase::Listing, ..s },
            ActionView::List,
        ),
        (Phase::Listing, PollEvent::Listed(v)) => dispatch(
            PollerView { names: v.deep_view(), ..s },
            0,
        ),
        (Phase::Listing, PollEvent::ListFailed) => (
            PollerView { phase: Phase::Stopped, ..s },
            ActionView::Exit,
        ),
        (Phase::Reading, PollEvent::Read(v)) => {
            let name = s.names[s.next];
            match transformed(partner_of(name), v.deep_view(), s.date) {
                Ok(out) => (
                    PollerView { phase: Phase::Writing, ..s },
                    ActionView::Write(s.output_dir + name, out),
                ),
                Err(f) => reject(s, FileError::Format(f)),
            }
        },
        (Phase::Reading, PollEvent::ReadFailed) => reject(s, FileError::Io),
        (Phase::Writing, PollEvent::Written) => (
            PollerView { phase: Phase::Removing, ..s },
            ActionView::Remove(s.names[s.next]),
        ),
        (Phase::Writing, PollEvent::WriteFailed) => reject(s, FileError::Io),
        (Phase::Removing, PollEvent::Removed) => dispatch(s, s.next + 1),
        (Phase::Removing, PollEvent::RemoveFailed) => reject(s, FileError::Io),
        (Phase::Noting, PollEvent::Done) => dispatch(s, s.next),
        _ => (s, ActionView::Nothing),
    }
}

impl View for Poller {
    type V = PollerView;

    closed spec fn view(&self) -> PollerView {
        PollerView {
            output_dir: self.config.output_dir@,
            date: self.config.date_code@,
            names: self.names.deep_view(),
            next: self.next as int,
            phase: self.phase,
        }
    }
}

impl Poller {
    /// The current file is one of the scan while it is read, written or
    /// removed; the index never passes the end of the scan.
    pub closed spec fn wf(&self) -> bool {
        &&& self.next <= self.names@.len()
        &&& (self.phase == Phase::Reading || self.phase == Phase::Writing || self.phase
            == Phase::Removing) ==> self.next < self.names@.len()
    }

    /// A poller that waits for its first tick.
    pub fn new(config: RunConfiguration) -> (r: Poller)
        ensures
            r.wf(),
            r@.phase == Phase::Waiting,
            r@.names.len() == 0,
            r@.output_dir == config.output_dir@,
            r@.date == config.date_code@,
    {
        Poller { config, names: Vec::new(), next: 0, phase: Phase::Waiting }
    }

    /// The event that the poller waits for.
    pub fn phase(&self) -> (r: Phase)
        ensures
            r == self@.phase,
    {
        self.phase
    }

    fn dispatch(&mut self, i: usize) -> (r: PollAction)
        requires
            i <= old(self).names@.len(),
        ensures
            final(self).wf(),
            (final(self)@, r@) == dispatch(old(self)@, i as int),
            final(self).config == old(self).config,
    {
        if i >= self.names.len() {
            self.next = i;
            self.phase = Phase::Waiting;
            return PollAction::Sleep;
        }
        let name = self.names[i].clone();
        assert(name@ == self@.names[i as int]);
        match classify(name.as_str()) {
            Partner::Unrecognized => {
                self.next = i + 1;
                self.phase = Phase::Noting;
                PollAction::Skip(name)
            },
            _ => {
                self.next = i;
                self.phase = Phase::Reading;
                PollAction::Read(name)
            },
        }
    }

    fn reject(&mut self, e: FileError) -> (r: PollAction)
        requires
            old(self).next < old(self).names@.len(),
        ensures
            final(self).wf(),
            (final(self)@, r@) == reject(old(self)@, e),
            final(self).config == old(self).config,
    {
        let name = self.names[self.next].clone();
        assert(name@ == self@.names[self.next as int]);
        let count = self.names.len();
        assert(self.next < count);
        self.next = self.next + 1;
        self.phase = Phase::Noting;
        PollAction::Reject { name, error: e }
    }

    /// Takes the answer to the last action and returns the next one.
    pub fn step(&mut self, event: PollEvent) -> (r: PollAction)
        requires
            old(self).wf(),
        ensures
            final(self).wf(),
            (final(self)@, r@) == step_spec(old(self)@, event),
    {
        match (self.phase, event) {
            (Phase::Waiting, PollEvent::Tick) => {
                self.phase = Phase::Listing;
                PollAction::List
            },
            (Phase::Listing, PollEvent::Listed(v)) => {
                self.names = v;
                self.dispatch(0)
            },
            (Phase::Listing, PollEvent::ListFailed) => {
                self.phase = Phase::Stopped;
                PollAction::Exit
            },
            (Phase::Reading, PollEvent::Read(v)) => {
                let name = self.names[self.next].clone();
                assert(name@ == self@.names[self.next as int]);
                let p = classify(name.as_str());
                let res = if p == Partner::Vodacom {
                    Ok(transform_vodacom(&v))
                } else {
                    transform_movitel(&v, self.config.date_code.as_str())
                };
                match res {
                    Ok(out) => {
                        self.phase = Phase::Writing;
                        PollAction::Write { target: self.config.output_path(name.as_str()), lines: out }
                    },
                    Err(f) => self.reject(FileError::Format(f)),
                }
            },
            (Phase::Reading, PollEvent::ReadFailed) => self.reject(FileError::Io),
            (Phase::Writing, PollEvent::Written) => {
                let name = self.names[self.next].clone();
                self.phase = Phase::Removing;
                PollAction::Remove(name)
            },
            (Phase::Writing, PollEvent::WriteFailed) => self.reject(FileError::Io),
            (Phase::Removing, PollEvent::Removed) => {
                let count = self.names.len();
                assert(self.next < count);
                self.dispatch(self.next + 1)
            },
            (Phase::Removing, PollEvent::RemoveFailed) => self.reject(FileError::Io),
            (Phase::Noting, PollEvent::Done) => self.dispatch(self.next),
            _ => PollAction::Nothing,
        }
    }
}

/// A scan of an empty input directory asks for no write and no removal: the
/// listing is answered by the wait, and the next tick starts a new scan.
pub proof fn lemma_empty_scan(s: PollerView, v: Vec<String>)
    requires
        s.phase == Phase::Listing,
        v@.len() == 0,
    ensures
        step_spec(s, PollEvent::Listed(v)).1 == ActionView::Sleep,
        step_spec(s, PollEvent::Listed(v)).0.phase == Phase::Waiting,
        step_spec(step_spec(s, PollEvent::Listed(v)).0, PollEvent::Tick).1 == ActionView::List,
{
}

/// An input file is removed only once its output was written: the poller asks
/// for a removal exactly when told that the output of the current file was
/// written, and for that file.
pub proof fn lemma_remove_after_write(s: PollerView, e: PollEvent)
    ensures
        (step_spec(s, e).1 is Remove) <==> (s.phase == Phase::Writing && e is Written),
        step_spec(s, e).1 is Remove ==> step_spec(s, e).1 == ActionView::Remove(s.names[s.next]),
{
}

/// The poller asks for a write only with the transformed record set of a file
/// that it read, under the output directory and the file's own name.
pub proof fn lemma_write_after_read(s: PollerView, e: PollEvent)
    ensures
        step_spec(s, e).1 is Write ==> s.phase == Phase::Reading && e is Read
            && transformed(partner_of(s.names[s.next]), e->Read_0.deep_view(), s.date) == Ok::<
            Seq<Seq<char>>,
            RecordFormatError,
        >(step_spec(s, e).1->Write_1) && step_spec(s, e).1->Write_0 == s.output_dir + s.names[s.next],
{
}

} // verus!
