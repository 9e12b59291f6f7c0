//! The per-rule transfer engine.
//!
//! One rule's session lifecycle (connect, authenticate, list, filter, stage,
//! upload under a temporary name, verify, commit by rename, optionally delete
//! the source) is a state machine. Its driver performs each `Command` against
//! the two sessions and answers with an `Event`; the engine decides what comes
//! next. `next` states each transition; `Engine::step` follows it exactly.
use vstd::prelude::*;
use crate::pattern::{regex_finds, FilePattern};
use crate::staging::{choose_storage, stages_in_memory, StorageKind};

verus! {

/// Which of the rule's two sessions a command is for.
#[derive(Clone, Copy, Debug, PartialEq, Eq, Structural)]
pub enum Side {
    Source,
    Target,
}

/// Why an eligible-looking name was not transferred, without any transfer attempt.
#[derive(Clone, Copy, Debug, PartialEq, Eq, Structural)]
pub enum SkipReason {
    PatternMismatch,
    NoModifiedTime,
    PreEpoch,
    InFuture,
    TooYoung,
    NoSize,
}

/// Why a transfer attempt failed.
#[derive(Clone, Copy, Debug, PartialEq, Eq, Structural)]
pub enum FailReason {
    FetchFailed,
    UploadFailed,
    UploadSizeMismatch,
    RenameFailed,
    FinalSizeMismatch,
}

/// What became of one listed file.
#[derive(Clone, Copy, Debug, PartialEq, Eq, Structural)]
pub enum Outcome {
    Skipped(SkipReason),
    Failed(FailReason),
    Transferred,
}

/// What the driver must do next. File commands carry the file's position in
/// the source listing; the temporary name is `Engine::temp_name`.
#[derive(Clone, Copy, Debug, PartialEq, Eq, Structural)]
pub enum Command {
    /// Open, authenticate and enter the rule's directory on that side.
    Connect(Side),
    /// Switch that session to binary transfers.
    SetBinary(Side),
    /// List the source directory.
    List,
    /// Ask the source for the file's modification time.
    QueryMtime(usize),
    /// Ask the source for the file's size.
    QuerySize(usize),
    /// Download the file into a buffer of the given kind.
    Fetch(usize, StorageKind),
    /// Upload the staged buffer to the temporary name on the target.
    Upload(usize),
    /// Ask the target for the size of the temporary name.
    QueryTempSize(usize),
    /// Rename the temporary name to the file's name on the target.
    Rename(usize),
    /// Remove the file's name on the target (it is in the way of the rename).
    RemoveExisting(usize),
    /// Remove the temporary name on the target (cleanup after a failure).
    RemoveTemp(usize),
    /// Ask the target for the size of the file's name after the commit.
    QueryFinalSize(usize),
    /// Delete the file on the source.
    RemoveSource(usize),
    /// Log what became of the file.
    Report(usize, Outcome),
    /// Close the open sessions, target first when it is open.
    Close(bool),
    /// The rule is done; the number of files transferred.
    Finish(usize),
}

/// The driver's answer to the last command.
pub enum Event {
    /// The command succeeded and carries no value (also the first call).
    Succeeded,
    /// The command failed.
    Failed,
    /// The names in the source directory, in listing order.
    Listed(Vec<String>),
    /// A modification time and the clock at the moment it was read, both as
    /// seconds and nanoseconds since the Unix epoch.
    ModifiedAt { secs: i64, nanos: u32, now_secs: u64, now_nanos: u32 },
    /// A size in bytes.
    Size(u64),
    /// The number of bytes staged from the source.
    Fetched(u64),
    /// The number of bytes the upload reported as written.
    Uploaded(u64),
}

/// Where the engine stands.
#[derive(Clone, Copy, Debug, PartialEq, Eq, Structural)]
pub enum Phase {
    Start,
    ConnectingSource,
    ConnectingTarget,
    BinarySource,
    BinaryTarget,
    Listing,
    AwaitMtime,
    AwaitSize,
    AwaitFetch,
    AwaitUpload { staged: u64 },
    AwaitTempSize { staged: u64 },
    AwaitRename { staged: u64 },
    AwaitRemoveExisting { staged: u64 },
    AwaitRetryRename { staged: u64 },
    AwaitFinalSize { staged: u64 },
    AwaitSourceDelete,
    AwaitCleanup { reason: FailReason },
    Reporting { outcome: Outcome },
    Closing,
    Finished,
}

/// The counters and phase of one rule's run.
#[derive(Clone, Copy, Debug, PartialEq, Eq, Structural)]
pub struct Progress {
    pub phase: Phase,
    /// Position of the current file in the listing.
    pub index: usize,
    /// Number of names listed.
    pub listed: usize,
    /// Number of files transferred so far.
    pub successes: usize,
}

/// Result of the age filter.
#[derive(Clone, Copy, Debug, PartialEq, Eq, Structural)]
pub enum AgeVerdict {
    PreEpoch,
    InFuture,
    TooYoung(u64),
    Eligible(u64),
}

pub open spec fn total_nanos(secs: int, nanos: int) -> int {
    secs * 1_000_000_000 + nanos
}

/// Whole seconds elapsed from the modification time to now, capped at `u64::MAX`.
pub open spec fn age_seconds(secs: int, nanos: int, now_secs: int, now_nanos: int) -> int {
    let a = (total_nanos(now_secs, now_nanos) - total_nanos(secs, nanos)) / 1_000_000_000;
    if a > u64::MAX { u64::MAX as int } else { a }
}

/// A pre-epoch time and a time in the future are rejected before the age
/// is compared with the rule's minimum.
pub open spec fn age_verdict_spec(secs: i64, nanos: u32, now_secs: u64, now_nanos: u32, min_age: u64) -> AgeVerdict {
    if secs < 0 {
        AgeVerdict::PreEpoch
    } else if total_nanos(now_secs as int, now_nanos as int) < total_nanos(secs as int, nanos as int) {
        AgeVerdict::InFuture
    } else {
        let age = age_seconds(secs as int, nanos as int, now_secs as int, now_nanos as int);
        if age < min_age { AgeVerdict::TooYoung(age as u64) } else { AgeVerdict::Eligible(age as u64) }
    }
}

/// Classifies a file by its modification time against the clock and the
/// rule's minimum age.
pub fn age_verdict(secs: i64, nanos: u32, now_secs: u64, now_nanos: u32, min_age: u64) -> (r: AgeVerdict)
    ensures
        r == age_verdict_spec(secs, nanos, now_secs, now_nanos, min_age),
{
    if secs < 0 {
        return AgeVerdict::PreEpoch;
    }
    let m: u128 = (secs as u128) * 1_000_000_000 + (nanos as u128);
    let n: u128 = (now_secs as u128) * 1_000_000_000 + (now_nanos as u128);
    if n < m {
        return AgeVerdict::InFuture;
    }
    let whole: u128 = (n - m) / 1_000_000_000;
    let age: u64 = if whole > u64::MAX as u128 { u64::MAX } else { whole as u64 };
    if age < min_age { AgeVerdict::TooYoung(age) } else { AgeVerdict::Eligible(age) }
}

/// The fixed parameters of a run, as the transition function sees them.
pub struct Settings {
    pub delete: bool,
    pub threshold: u64,
    pub min_age: u64,
    pub pattern: Seq<char>,
}

/// The names of a listing.
pub open spec fn names_of(v: Seq<String>) -> Seq<Seq<char>> {
    v.map_values(|s: String| s@)
}

/// Moving on to file `i`: stop on shutdown or at the end of the listing,
/// report a name that the pattern does not match, else ask for its time.
pub open spec fn begin_file(s: Settings, names: Seq<Seq<char>>, i: usize, listed: usize, successes: usize, shutdown: bool) -> (Progress, Command) {
    if shutdown || i >= listed {
        (Progress { phase: Phase::Closing, index: i, listed, successes }, Command::Close(true))
    } else if !regex_finds(s.pattern, names[i as int]) {
        (Progress { phase: Phase::Reporting { outcome: Outcome::Skipped(SkipReason::PatternMismatch) }, index: i, listed, successes },
         Command::Report(i, Outcome::Skipped(SkipReason::PatternMismatch)))
    } else {
        (Progress { phase: Phase::AwaitMtime, index: i, listed, successes }, Command::QueryMtime(i))
    }
}

/// Reporting what became of the current file.
pub open spec fn report(p: Progress, o: Outcome) -> (Progress, Command) {
    (Progress { phase: Phase::Reporting { outcome: o }, ..p }, Command::Report(p.index, o))
}

/// Entering a phase with a command on the current file.
pub open spec fn go(p: Progress, ph: Phase, c: Command) -> (Progress, Command) {
    (Progress { phase: ph, ..p }, c)
}

/// One transition: from the progress, the listing so far, the driver's answer
/// to the last command and the shutdown flag, to the next progress and command.
pub open spec fn next(s: Settings, p: Progress, names: Seq<Seq<char>>, e: Event, shutdown: bool) -> (Progress, Command) {
    let i = p.index;
    match p.phase {
        Phase::Start => {
            if shutdown {
                go(p, Phase::Finished, Command::Finish(0))
            } else {
                go(p, Phase::ConnectingSource, Command::Connect(Side::Source))
            }
        },
        Phase::ConnectingSource => {
            if e is Succeeded {
                go(p, Phase::ConnectingTarget, Command::Connect(Side::Target))
            } else {
                go(p, Phase::Finished, Command::Finish(0))
            }
        },
        Phase::ConnectingTarget => {
            if e is Succeeded {
                go(p, Phase::BinarySource, Command::SetBinary(Side::Source))
            } else {
                go(p, Phase::Closing, Command::Close(false))
            }
        },
        Phase::BinarySource => {
            if e is Succeeded {
                go(p, Phase::BinaryTarget, Command::SetBinary(Side::Target))
            } else {
                go(p, Phase::Closing, Command::Close(true))
            }
        },
        Phase::BinaryTarget => {
            if e is Succeeded {
                go(p, Phase::Listing, Command::List)
            } else {
                go(p, Phase::Closing, Command::Close(true))
            }
        },
        Phase::Listing => {
            match e {
                Event::Listed(v) => begin_file(s, names_of(v@), 0, v@.len() as usize, p.successes, shutdown),
                _ => go(p, Phase::Closing, Command::Close(true)),
            }
        },
        Phase::AwaitMtime => {
            match e {
                Event::ModifiedAt { secs, nanos, now_secs, now_nanos } => {
                    match age_verdict_spec(secs, nanos, now_secs, now_nanos, s.min_age) {
                        AgeVerdict::PreEpoch => report(p, Outcome::Skipped(SkipReason::PreEpoch)),
                        AgeVerdict::InFuture => report(p, Outcome::Skipped(SkipReason::InFuture)),
                        AgeVerdict::TooYoung(_) => report(p, Outcome::Skipped(SkipReason::TooYoung)),
                        AgeVerdict::Eligible(_) => go(p, Phase::AwaitSize, Command::QuerySize(i)),
                    }
                },
                _ => report(p, Outcome::Skipped(SkipReason::NoModifiedTime)),
            }
        },
        Phase::AwaitSize => {
            match e {
                Event::Size(n) => go(p, Phase::AwaitFetch,
                    Command::Fetch(i, if stages_in_memory(n as int, s.threshold as int) { StorageKind::Memory } else { StorageKind::Disk })),
                _ => report(p, Outcome::Skipped(SkipReason::NoSize)),
            }
        },
        Phase::AwaitFetch => {
            match e {
                Event::Fetched(n) => go(p, Phase::AwaitUpload { staged: n }, Command::Upload(i)),
                _ => report(p, Outcome::Failed(FailReason::FetchFailed)),
            }
        },
        Phase::AwaitUpload { staged } => {
            match e {
                Event::Uploaded(_) => go(p, Phase::AwaitTempSize { staged }, Command::QueryTempSize(i)),
                _ => go(p, Phase::AwaitCleanup { reason: FailReason::UploadFailed }, Command::RemoveTemp(i)),
            }
        },
        Phase::AwaitTempSize { staged } => {
            if e == Event::Size(staged) {
                go(p, Phase::AwaitRename { staged }, Command::Rename(i))
            } else {
                go(p, Phase::AwaitCleanup { reason: FailReason::UploadSizeMismatch }, Command::RemoveTemp(i))
            }
        },
        Phase::AwaitRename { staged } => {
            if e is Succeeded {
                go(p, Phase::AwaitFinalSize { staged }, Command::QueryFinalSize(i))
            } else {
                go(p, Phase::AwaitRemoveExisting { staged }, Command::RemoveExisting(i))
            }
        },
        Phase::AwaitRemoveExisting { staged } => go(p, Phase::AwaitRetryRename { staged }, Command::Rename(i)),
        Phase::AwaitRetryRename { staged } => {
            if e is Succeeded {
                go(p, Phase::AwaitFinalSize { staged }, Command::QueryFinalSize(i))
            } else {
                go(p, Phase::AwaitCleanup { reason: FailReason::RenameFailed }, Command::RemoveTemp(i))
            }
        },
        Phase::AwaitFinalSize { staged } => {
            if e == Event::Size(staged) {
                if s.delete {
                    go(p, Phase::AwaitSourceDelete, Command::RemoveSource(i))
                } else {
                    report(p, Outcome::Transferred)
                }
            } else {
                report(p, Outcome::Failed(FailReason::FinalSizeMismatch))
            }
        },
        Phase::AwaitSourceDelete => report(p, Outcome::Transferred),
        Phase::AwaitCleanup { reason } => report(p, Outcome::Failed(reason)),
        Phase::Reporting { outcome } => {
            let successes = if outcome == Outcome::Transferred { (p.successes + 1) as usize } else { p.successes };
            begin_file(s, names, (i + 1) as usize, p.listed, successes, shutdown)
        },
        Phase::Closing => go(p, Phase::Finished, Command::Finish(p.successes)),
        Phase::Finished => go(p, Phase::Finished, Command::Finish(p.successes)),
    }
}

/// The listing after a transition: set once, by the answer to `List`.
pub open spec fn next_names(p: Progress, names: Seq<Seq<char>>, e: Event) -> Seq<Seq<char>> {
    match (p.phase, e) {
        (Phase::Listing, Event::Listed(v)) => names_of(v@),
        _ => names,
    }
}

/// Whether a phase works on the file at `index`.
pub open spec fn is_file_phase(ph: Phase) -> bool {
    match ph {
        Phase::AwaitMtime | Phase::AwaitSize | Phase::AwaitFetch | Phase::AwaitUpload { .. }
        | Phase::AwaitTempSize { .. } | Phase::AwaitRename { .. } | Phase::AwaitRemoveExisting { .. }
        | Phase::AwaitRetryRename { .. } | Phase::AwaitFinalSize { .. } | Phase::AwaitSourceDelete
        | Phase::AwaitCleanup { .. } | Phase::Reporting { .. } => true,
        _ => false,
    }
}

/// Whether a phase comes before the listing.
pub open spec fn is_setup_phase(ph: Phase) -> bool {
    match ph {
        Phase::Start | Phase::ConnectingSource | Phase::ConnectingTarget | Phase::BinarySource
        | Phase::BinaryTarget | Phase::Listing => true,
        _ => false,
    }
}

/// The counters' invariant: no more successes than files begun, no file
/// beyond the listing, and the listing's length is what was counted.
pub open spec fn progress_wf(p: Progress, names: Seq<Seq<char>>) -> bool {
    &&& p.successes <= p.index
    &&& p.index <= p.listed
    &&& p.listed == names.len()
    &&& is_file_phase(p.phase) ==> p.index < p.listed
    &&& is_setup_phase(p.phase) ==> p.listed == 0
}

/// The engine of one rule: its settings, the listing once it is known, and
/// the progress through it.
pub struct Engine {
    delete: bool,
    threshold: u64,
    min_age: u64,
    pid: u32,
    pattern: FilePattern,
    files: Vec<String>,
    progress: Progress,
}

impl Engine {
    pub closed spec fn settings(&self) -> Settings {
        Settings { delete: self.delete, threshold: self.threshold, min_age: self.min_age, pattern: self.pattern@ }
    }

    pub closed spec fn names(&self) -> Seq<Seq<char>> {
        names_of(self.files@)
    }

    pub closed spec fn state(&self) -> Progress {
        self.progress
    }

    pub closed spec fn pid_spec(&self) -> u32 {
        self.pid
    }

    pub open spec fn wf(&self) -> bool {
        progress_wf(self.state(), self.names())
    }

    /// An engine about to start a rule whose files match `pattern`, are at
    /// least `min_age` seconds old, are staged in memory up to `threshold`
    /// bytes, and are deleted from the source after a verified transfer when
    /// `delete` is set. `pid` goes into the temporary names.
    pub fn new(pattern: FilePattern, min_age: u64, delete: bool, threshold: u64, pid: u32) -> (r: Engine)
        ensures
            r.wf(),
            r.state() == (Progress { phase: Phase::Start, index: 0, listed: 0, successes: 0 }),
            r.names() == Seq::<Seq<char>>::empty(),
            r.settings() == (Settings { delete, threshold, min_age, pattern: pattern@ }),
            r.pid_spec() == pid,
    {
        let r = Engine {
            delete,
            threshold,
            min_age,
            pid,
            pattern,
            files: Vec::new(),
            progress: Progress { phase: Phase::Start, index: 0, listed: 0, successes: 0 },
        };
        assert(r.names() =~= Seq::<Seq<char>>::empty());
        r
    }

    /// The current phase and counters.
    pub fn progress(&self) -> (r: Progress)
        ensures
            r == self.state(),
    {
        self.progress
    }

    /// The number of files transferred so far.
    pub fn successes(&self) -> (r: usize)
        ensures
            r == self.state().successes,
    {
        self.progress.successes
    }

    /// The name of the listed file at position `i`.
    pub fn file_name(&self, i: usize) -> (r: &str)
        requires
            i < self.names().len(),
        ensures
            r@ == self.names()[i as int],
    {
        self.files[i].as_str()
    }

    /// The temporary destination name of the listed file at position `i`.
    pub fn temp_name(&self, i: usize) -> (r: String)
        requires
            i < self.names().len(),
        ensures
            r@ == crate::staging::temp_name_spec(self.names()[i as int], self.pid_spec()),
    {
        crate::staging::temp_file_name(self.files[i].as_str(), self.pid)
    }

    fn set(&mut self, phase: Phase) -> (r: ())
        ensures
            final(self).progress == (Progress { phase, ..old(self).progress }),
            final(self).files == old(self).files,
            final(self).settings() == old(self).settings(),
            final(self).pid == old(self).pid,
    {
        self.progress.phase = phase;
    }

    fn begin(&mut self, i: usize, successes: usize, shutdown: bool) -> (r: Command)
        requires
            i <= old(self).files.len(),
            successes <= i,
        ensures
            (final(self).progress, r) == begin_file(old(self).settings(), old(self).names(), i,
                old(self).files.len(), successes, shutdown),
            final(self).files == old(self).files,
            final(self).settings() == old(self).settings(),
            final(self).pid == old(self).pid,
    {
        let listed = self.files.len();
        if shutdown || i >= listed {
            self.progress = Progress { phase: Phase::Closing, index: i, listed, successes };
            return Command::Close(true);
        }
        let matched = self.pattern.is_match(self.files[i].as_str());
        if !matched {
            let o = Outcome::Skipped(SkipReason::PatternMismatch);
            self.progress = Progress { phase: Phase::Reporting { outcome: o }, index: i, listed, successes };
            Command::Report(i, o)
        } else {
            self.progress = Progress { phase: Phase::AwaitMtime, index: i, listed, successes };
            Command::QueryMtime(i)
        }
    }

    fn report(&mut self, o: Outcome) -> (r: Command)
        ensures
            (final(self).progress, r) == report(old(self).progress, o),
            final(self).files == old(self).files,
            final(self).settings() == old(self).settings(),
            final(self).pid == old(self).pid,
    {
        self.progress.phase = Phase::Reporting { outcome: o };
        Command::Report(self.progress.index, o)
    }

    /// Takes the driver's answer to the last command (anything, on the first
    /// call) and whether shutdown has been requested, and returns the next
    /// command, as `next` states.
    #[verifier::rlimit(50)]
    pub fn step(&mut self, e: Event, shutdown: bool) -> (r: Command)
        requires
            old(self).wf(),
        ensures
            final(self).wf(),
            (final(self).state(), r) == next(old(self).settings(), old(self).state(), old(self).names(), e, shutdown),
            final(self).names() == next_names(old(self).state(), old(self).names(), e),
            final(self).settings() == old(self).settings(),
            final(self).pid_spec() == old(self).pid_spec(),
    {
        let i = self.progress.index;
        match self.progress.phase {
            Phase::Start => {
                if shutdown {
                    self.set(Phase::Finished);
                    Command::Finish(0)
                } else {
                    self.set(Phase::ConnectingSource);
                    Command::Connect(Side::Source)
                }
            },
            Phase::ConnectingSource => {
                if let Event::Succeeded = e {
                    self.set(Phase::ConnectingTarget);
                    Command::Connect(Side::Target)
                } else {
                    self.set(Phase::Finished);
                    Command::Finish(0)
                }
            },
            Phase::ConnectingTarget => {
                if let Event::Succeeded = e {
                    self.set(Phase::BinarySource);
                    Command::SetBinary(Side::Source)
                } else {
                    self.set(Phase::Closing);
                    Command::Close(false)
                }
            },
            Phase::BinarySource => {
                if let Event::Succeeded = e {
                    self.set(Phase::BinaryTarget);
                    Command::SetBinary(Side::Target)
                } else {
                    self.set(Phase::Closing);
                    Command::Close(true)
                }
            },
            Phase::BinaryTarget => {
                if let Event::Succeeded = e {
                    self.set(Phase::Listing);
                    Command::List
                } else {
                    self.set(Phase::Closing);
                    Command::Close(true)
                }
            },
            Phase::Listing => {
                match e {
                    Event::Listed(v) => {
                        self.files = v;
                        let successes = self.progress.successes;
                        self.begin(0, successes, shutdown)
                    },
                    _ => {
                        self.set(Phase::Closing);
                        Command::Close(true)
                    },
                }
            },
            Phase::AwaitMtime => {
                match e {
                    Event::ModifiedAt { secs, nanos, now_secs, now_nanos } => {
                        match age_verdict(secs, nanos, now_secs, now_nanos, self.min_age) {
                            AgeVerdict::PreEpoch => self.report(Outcome::Skipped(SkipReason::PreEpoch)),
                            AgeVerdict::InFuture => self.report(Outcome::Skipped(SkipReason::InFuture)),
                            AgeVerdict::TooYoung(_) => self.report(Outcome::Skipped(SkipReason::TooYoung)),
                            AgeVerdict::Eligible(_) => {
                                self.set(Phase::AwaitSize);
                                Command::QuerySize(i)
                            },
                        }
                    },
                    _ => self.report(Outcome::Skipped(SkipReason::NoModifiedTime)),
                }
            },
            Phase::AwaitSize => {
                match e {
                    Event::Size(n) => {
                        let k = choose_storage(n, self.threshold);
                        self.set(Phase::AwaitFetch);
                        Command::Fetch(i, k)
                    },
                    _ => self.report(Outcome::Skipped(SkipReason::NoSize)),
                }
            },
            Phase::AwaitFetch => {
                match e {
                    Event::Fetched(n) => {
                        self.set(Phase::AwaitUpload { staged: n });
                        Command::Upload(i)
                    },
                    _ => self.report(Outcome::Failed(FailReason::FetchFailed)),
                }
            },
            Phase::AwaitUpload { staged } => {
                match e {
                    Event::Uploaded(_) => {
                        self.set(Phase::AwaitTempSize { staged });
                        Command::QueryTempSize(i)
                    },
                    _ => {
                        self.set(Phase::AwaitCleanup { reason: FailReason::UploadFailed });
                        Command::RemoveTemp(i)
                    },
                }
            },
            Phase::AwaitTempSize { staged } => {
                let ok = match e {
                    Event::Size(n) => n == staged,
                    _ => false,
                };
                if ok {
                    self.set(Phase::AwaitRename { staged });
                    Command::Rename(i)
                } else {
                    self.set(Phase::AwaitCleanup { reason: FailReason::UploadSizeMismatch });
                    Command::RemoveTemp(i)
                }
            },
            Phase::AwaitRename { staged } => {
                if let Event::Succeeded = e {
                    self.set(Phase::AwaitFinalSize { staged });
                    Command::QueryFinalSize(i)
                } else {
                    self.set(Phase::AwaitRemoveExisting { staged });
                    Command::RemoveExisting(i)
                }
            },
            Phase::AwaitRemoveExisting { staged } => {
                self.set(Phase::AwaitRetryRename { staged });
                Command::Rename(i)
            },
            Phase::AwaitRetryRename { staged } => {
                if let Event::Succeeded = e {
                    self.set(Phase::AwaitFinalSize { staged });
                    Command::QueryFinalSize(i)
                } else {
                    self.set(Phase::AwaitCleanup { reason: FailReason::RenameFailed });
                    Command::RemoveTemp(i)
                }
            },
            Phase::AwaitFinalSize { staged } => {
                let ok = match e {
                    Event::Size(n) => n == staged,
                    _ => false,
                };
                if ok {
                    if self.delete {
                        self.set(Phase::AwaitSourceDelete);
                        Command::RemoveSource(i)
                    } else {
                        self.report(Outcome::Transferred)
                    }
                } else {
                    self.report(Outcome::Failed(FailReason::FinalSizeMismatch))
                }
            },
            Phase::AwaitSourceDelete => self.report(Outcome::Transferred),
            Phase::AwaitCleanup { reason } => self.report(Outcome::Failed(reason)),
            Phase::Reporting { outcome } => {
                let successes = if outcome == Outcome::Transferred {
                    self.progress.successes + 1
                } else {
                    self.progress.successes
                };
                self.begin(i + 1, successes, shutdown)
            },
            Phase::Closing => {
                self.set(Phase::Finished);
                Command::Finish(self.progress.successes)
            },
            Phase::Finished => Command::Finish(self.progress.successes),
        }
    }
}


/// A listing's length fits in `usize`, as that of every `Vec` does.
pub open spec fn event_valid(e: Event) -> bool {
    e is Listed ==> e->Listed_0@.len() <= usize::MAX
}

/// Every transition keeps the counters' invariant, and the tally a run
/// finishes with never exceeds the number of files listed.
pub proof fn lemma_tally_bounded_by_listing(s: Settings, p: Progress, names: Seq<Seq<char>>, e: Event, shutdown: bool)
    requires
        progress_wf(p, names),
        event_valid(e),
    ensures
        progress_wf(next(s, p, names, e, shutdown).0, next_names(p, names, e)),
        next(s, p, names, e, shutdown).1 is Finish ==>
            next(s, p, names, e, shutdown).1->Finish_0 <= next(s, p, names, e, shutdown).0.listed,
        next(s, p, names, e, shutdown).0.successes <= next(s, p, names, e, shutdown).0.listed,
{
}

/// A file is reported as transferred only after its commit was verified:
/// the report answers either the final size query, with the size equal to
/// the staged byte count, or the source deletion that such a match asked for.
/// The final size query in turn is only asked after a rename of the temporary
/// name succeeded, and the staged count is the one fetched from the source,
/// carried unchanged through upload, upload check and rename.
pub proof fn lemma_transfer_needs_verified_commit(s: Settings, p: Progress, names: Seq<Seq<char>>, e: Event, shutdown: bool)
    requires
        progress_wf(p, names),
    ensures
        ({
            let (q, c) = next(s, p, names, e, shutdown);
            &&& c == Command::Report(p.index, Outcome::Transferred) ==> {
                ||| (p.phase is AwaitFinalSize && e == Event::Size(p.phase->AwaitFinalSize_staged) && !s.delete)
                ||| p.phase is AwaitSourceDelete
            }
            &&& c is Report && c->Report_1 == Outcome::Transferred ==> c->Report_0 == p.index
            &&& c is QueryFinalSize ==> {
                &&& c->QueryFinalSize_0 == p.index
                &&& e is Succeeded
                &&& q.phase is AwaitFinalSize
                &&& (p.phase == Phase::AwaitRename { staged: q.phase->AwaitFinalSize_staged }
                    || p.phase == Phase::AwaitRetryRename { staged: q.phase->AwaitFinalSize_staged })
            }
            &&& q.phase is AwaitUpload ==> p.phase is AwaitFetch && e == Event::Fetched(q.phase->AwaitUpload_staged)
            &&& q.phase is AwaitTempSize ==> p.phase == Phase::AwaitUpload { staged: q.phase->AwaitTempSize_staged }
            &&& q.phase is AwaitRename ==> p.phase == Phase::AwaitTempSize { staged: q.phase->AwaitRename_staged }
                && e == Event::Size(q.phase->AwaitRename_staged)
            &&& q.phase is AwaitRemoveExisting ==> p.phase == Phase::AwaitRename { staged: q.phase->AwaitRemoveExisting_staged }
            &&& q.phase is AwaitRetryRename ==> p.phase == Phase::AwaitRemoveExisting { staged: q.phase->AwaitRetryRename_staged }
            &&& q.phase is AwaitFinalSize ==> c is QueryFinalSize
        }),
{
}

/// The source of a file is deleted only in answer to a final size check that
/// matched the staged count, with deletion enabled; and a file whose source
/// deletion was asked for is then reported as transferred, never as failed.
/// So a file reported as failed or skipped keeps its source.
pub proof fn lemma_failed_file_keeps_source(s: Settings, p: Progress, names: Seq<Seq<char>>, e: Event, shutdown: bool)
    requires
        progress_wf(p, names),
    ensures
        ({
            let (q, c) = next(s, p, names, e, shutdown);
            &&& c is RemoveSource ==> {
                &&& s.delete
                &&& c->RemoveSource_0 == p.index
                &&& p.phase is AwaitFinalSize
                &&& e == Event::Size(p.phase->AwaitFinalSize_staged)
                &&& q.phase is AwaitSourceDelete
            }
            &&& p.phase is AwaitSourceDelete ==> c == Command::Report(p.index, Outcome::Transferred)
        }),
{
}

/// The kind of buffer a fetch asks for follows the staging policy on the
/// size the source reported.
pub proof fn lemma_fetch_follows_staging_policy(s: Settings, p: Progress, names: Seq<Seq<char>>, e: Event, shutdown: bool)
    requires
        progress_wf(p, names),
    ensures
        ({
            let (q, c) = next(s, p, names, e, shutdown);
            c is Fetch ==> {
                &&& p.phase is AwaitSize
                &&& e is Size
                &&& (c->Fetch_1 == StorageKind::Memory) == stages_in_memory(e->Size_0 as int, s.threshold as int)
            }
        }),
{
}


/// Transition `k` of a run: state `k + 1` and command `k` follow from
/// state `k` and event `k`, which answers command `k - 1`.
pub open spec fn step_holds(s: Settings, ps: Seq<Progress>, ns: Seq<Seq<Seq<char>>>, es: Seq<Event>, sds: Seq<bool>, cs: Seq<Command>, k: int) -> bool {
    &&& (ps[k + 1], cs[k]) == next(s, ps[k], ns[k], es[k], sds[k])
    &&& ns[k + 1] == next_names(ps[k], ns[k], es[k])
}

/// A run of the engine from its start: states, listings, events, shutdown
/// flags and commands, one transition per event.
pub open spec fn is_run(s: Settings, ps: Seq<Progress>, ns: Seq<Seq<Seq<char>>>, es: Seq<Event>, sds: Seq<bool>, cs: Seq<Command>) -> bool {
    &&& ps.len() == es.len() + 1
    &&& ns.len() == es.len() + 1
    &&& sds.len() == es.len()
    &&& cs.len() == es.len()
    &&& ps[0] == (Progress { phase: Phase::Start, index: 0, listed: 0, successes: 0 })
    &&& ns[0].len() == 0
    &&& forall|k: int| 0 <= k < es.len() ==> event_valid(#[trigger] es[k])
    &&& forall|k: int| 0 <= k < es.len() ==> #[trigger] step_holds(s, ps, ns, es, sds, cs, k)
}

/// The staged byte count a phase carries, if any.
pub open spec fn staged_of(ph: Phase) -> Option<u64> {
    match ph {
        Phase::AwaitUpload { staged } => Some(staged),
        Phase::AwaitTempSize { staged } => Some(staged),
        Phase::AwaitRename { staged } => Some(staged),
        Phase::AwaitRemoveExisting { staged } => Some(staged),
        Phase::AwaitRetryRename { staged } => Some(staged),
        Phase::AwaitFinalSize { staged } => Some(staged),
        _ => None,
    }
}

proof fn lemma_staged_was_fetched(s: Settings, ps: Seq<Progress>, ns: Seq<Seq<Seq<char>>>, es: Seq<Event>, sds: Seq<bool>, cs: Seq<Command>, k: int)
    requires
        is_run(s, ps, ns, es, sds, cs),
        0 <= k <= es.len(),
        staged_of(ps[k].phase) is Some,
    ensures
        exists|a: int| #![trigger cs[a]]
            0 <= a <= k - 2 && cs[a] == Command::Fetch(ps[k].index, cs[a]->Fetch_1)
                && es[a + 1] == Event::Fetched(staged_of(ps[k].phase)->0),
    decreases k,
{
    assert(k >= 1);
    assert(step_holds(s, ps, ns, es, sds, cs, k - 1));
    if ps[k].phase is AwaitUpload {
        assert(ps[k - 1].phase is AwaitFetch);
        assert(k - 1 >= 1);
        assert(step_holds(s, ps, ns, es, sds, cs, k - 2));
        let a = k - 2;
        assert(cs[a] == Command::Fetch(ps[k].index, cs[a]->Fetch_1));
    } else {
        lemma_staged_was_fetched(s, ps, ns, es, sds, cs, k - 1);
    }
}

/// Every file reported as transferred was fetched, its temporary name was
/// renamed to its own name with success, and the size of that name was then
/// read back equal to the byte count fetched from the source, in that order.
pub proof fn lemma_transferred_file_was_committed(s: Settings, ps: Seq<Progress>, ns: Seq<Seq<Seq<char>>>, es: Seq<Event>, sds: Seq<bool>, cs: Seq<Command>, k: int)
    requires
        is_run(s, ps, ns, es, sds, cs),
        0 <= k < es.len(),
        cs[k] is Report,
        cs[k]->Report_1 == Outcome::Transferred,
    ensures
        exists|a: int, b: int, c: int| #![trigger cs[a], cs[b], cs[c]]
            0 <= a < b < c < k
            && cs[a] == Command::Fetch(cs[k]->Report_0, cs[a]->Fetch_1) && es[a + 1] is Fetched
            && cs[b] == Command::Rename(cs[k]->Report_0) && es[b + 1] == Event::Succeeded
            && cs[c] == Command::QueryFinalSize(cs[k]->Report_0) && es[c + 1] == Event::Size(es[a + 1]->Fetched_0),
{
    assert(step_holds(s, ps, ns, es, sds, cs, k));
    let j: int = if ps[k].phase is AwaitSourceDelete { k - 1 } else { k };
    if ps[k].phase is AwaitSourceDelete {
        assert(k >= 1);
        assert(step_holds(s, ps, ns, es, sds, cs, k - 1));
    }
    assert(ps[j].phase is AwaitFinalSize);
    let st = ps[j].phase->AwaitFinalSize_staged;
    assert(es[j] == Event::Size(st));
    assert(j >= 1);
    assert(step_holds(s, ps, ns, es, sds, cs, j - 1));
    assert(ps[j - 1].phase == Phase::AwaitRename { staged: st } || ps[j - 1].phase == Phase::AwaitRetryRename { staged: st });
    assert(j - 1 >= 1);
    assert(step_holds(s, ps, ns, es, sds, cs, j - 2));
    lemma_staged_was_fetched(s, ps, ns, es, sds, cs, j - 1);
    let a = choose|a: int| #![trigger cs[a]]
        0 <= a <= j - 3 && cs[a] == Command::Fetch(ps[j - 1].index, cs[a]->Fetch_1)
            && es[a + 1] == Event::Fetched(staged_of(ps[j - 1].phase)->0);
    let b = j - 2;
    let c = j - 1;
    assert(cs[b] == Command::Rename(cs[k]->Report_0));
    assert(cs[c] == Command::QueryFinalSize(cs[k]->Report_0));
    assert(es[a + 1] == Event::Fetched(st));
}


proof fn lemma_setup_at_zero(s: Settings, ps: Seq<Progress>, ns: Seq<Seq<Seq<char>>>, es: Seq<Event>, sds: Seq<bool>, cs: Seq<Command>, k: int)
    requires
        is_run(s, ps, ns, es, sds, cs),
        0 <= k <= es.len(),
    ensures
        is_setup_phase(ps[k].phase) ==> ps[k].index == 0,
    decreases k,
{
    if k > 0 {
        assert(step_holds(s, ps, ns, es, sds, cs, k - 1));
        lemma_setup_at_zero(s, ps, ns, es, sds, cs, k - 1);
    }
}

proof fn lemma_run_wf(s: Settings, ps: Seq<Progress>, ns: Seq<Seq<Seq<char>>>, es: Seq<Event>, sds: Seq<bool>, cs: Seq<Command>, k: int)
    requires
        is_run(s, ps, ns, es, sds, cs),
        0 <= k <= es.len(),
    ensures
        progress_wf(ps[k], ns[k]),
    decreases k,
{
    if k > 0 {
        lemma_run_wf(s, ps, ns, es, sds, cs, k - 1);
        assert(step_holds(s, ps, ns, es, sds, cs, k - 1));
        assert(event_valid(es[k - 1]));
        lemma_tally_bounded_by_listing(s, ps[k - 1], ns[k - 1], es[k - 1], sds[k - 1]);
    }
}

proof fn lemma_index_step(s: Settings, ps: Seq<Progress>, ns: Seq<Seq<Seq<char>>>, es: Seq<Event>, sds: Seq<bool>, cs: Seq<Command>, m: int)
    requires
        is_run(s, ps, ns, es, sds, cs),
        0 <= m < es.len(),
    ensures
        ps[m].index <= ps[m + 1].index,
        ps[m].phase is Reporting ==> ps[m + 1].index == ps[m].index + 1,
{
    assert(step_holds(s, ps, ns, es, sds, cs, m));
    lemma_setup_at_zero(s, ps, ns, es, sds, cs, m);
    lemma_run_wf(s, ps, ns, es, sds, cs, m);
}

proof fn lemma_index_monotone(s: Settings, ps: Seq<Progress>, ns: Seq<Seq<Seq<char>>>, es: Seq<Event>, sds: Seq<bool>, cs: Seq<Command>, m1: int, m2: int)
    requires
        is_run(s, ps, ns, es, sds, cs),
        0 <= m1 <= m2 <= es.len(),
    ensures
        ps[m1].index <= ps[m2].index,
    decreases m2 - m1,
{
    if m1 < m2 {
        lemma_index_monotone(s, ps, ns, es, sds, cs, m1, m2 - 1);
        lemma_index_step(s, ps, ns, es, sds, cs, m2 - 1);
    }
}

/// A file reported as skipped or failed keeps its source: nowhere in the
/// run is its deletion from the source asked for.
pub proof fn lemma_failed_file_never_deleted(s: Settings, ps: Seq<Progress>, ns: Seq<Seq<Seq<char>>>, es: Seq<Event>, sds: Seq<bool>, cs: Seq<Command>, k: int, a: int)
    requires
        is_run(s, ps, ns, es, sds, cs),
        0 <= k < es.len(),
        0 <= a < es.len(),
        cs[k] is Report,
        cs[k]->Report_1 != Outcome::Transferred,
    ensures
        cs[a] != Command::RemoveSource(cs[k]->Report_0),
{
    let i = cs[k]->Report_0;
    assert(step_holds(s, ps, ns, es, sds, cs, k));
    assert(step_holds(s, ps, ns, es, sds, cs, a));
    if cs[a] == Command::RemoveSource(i) {
        assert(ps[a].index == i);
        assert(ps[a + 1].phase is AwaitSourceDelete);
        assert(ps[k + 1].index == i);
        assert(ps[k + 1].phase is Reporting);
        if a < k {
            assert(a + 1 < es.len());
            assert(step_holds(s, ps, ns, es, sds, cs, a + 1));
            assert(cs[a + 1] == Command::Report(i, Outcome::Transferred));
            assert(k != a + 1);
            assert(ps[a + 2].phase is Reporting);
            lemma_index_step(s, ps, ns, es, sds, cs, a + 2);
            lemma_index_monotone(s, ps, ns, es, sds, cs, a + 3, k + 1);
        } else {
            assert(a != k);
            assert(a != k + 1);
            lemma_index_step(s, ps, ns, es, sds, cs, k + 1);
            lemma_index_monotone(s, ps, ns, es, sds, cs, k + 2, a);
        }
    }
}


/// In every run, the tally a rule finishes with is at most the number of
/// files that were listed.
pub proof fn lemma_run_tally_bounded(s: Settings, ps: Seq<Progress>, ns: Seq<Seq<Seq<char>>>, es: Seq<Event>, sds: Seq<bool>, cs: Seq<Command>, k: int)
    requires
        is_run(s, ps, ns, es, sds, cs),
        0 <= k < es.len(),
        cs[k] is Finish,
    ensures
        cs[k]->Finish_0 <= ns[k + 1].len(),
{
    lemma_run_wf(s, ps, ns, es, sds, cs, k);
    assert(step_holds(s, ps, ns, es, sds, cs, k));
    assert(event_valid(es[k]));
    lemma_tally_bounded_by_listing(s, ps[k], ns[k], es[k], sds[k]);
}


/// Replacing a file that already exists on the target leaves it absent for
/// one command only: the removal of the existing name is asked for only
/// after a first rename of a verified upload was refused, and it is always
/// followed at once by the rename of the temporary name into place.
pub proof fn lemma_replace_window_is_one_rename(s: Settings, ps: Seq<Progress>, ns: Seq<Seq<Seq<char>>>, es: Seq<Event>, sds: Seq<bool>, cs: Seq<Command>, a: int)
    requires
        is_run(s, ps, ns, es, sds, cs),
        0 <= a < es.len(),
        cs[a] is RemoveExisting,
    ensures
        a >= 1 && cs[a - 1] == Command::Rename(cs[a]->RemoveExisting_0) && es[a] != Event::Succeeded,
        a + 1 < es.len() ==> cs[a + 1] == Command::Rename(cs[a]->RemoveExisting_0),
{
    assert(step_holds(s, ps, ns, es, sds, cs, a));
    assert(ps[a].phase is AwaitRename);
    assert(a >= 1);
    assert(step_holds(s, ps, ns, es, sds, cs, a - 1));
    if a + 1 < es.len() {
        assert(step_holds(s, ps, ns, es, sds, cs, a + 1));
    }
}


/// How a destination that behaves as the protocols document answers a
/// target command for file `n` with temporary name `t`: the sizes of its
/// names after the command, and the answer. A rename onto an existing name
/// is refused, as FTP servers do.
pub open spec fn target_answer(c: Command, dst: Map<Seq<char>, u64>, n: Seq<char>, t: Seq<char>) -> (Event, Map<Seq<char>, u64>) {
    match c {
        Command::QueryTempSize(_) => if dst.contains_key(t) { (Event::Size(dst[t]), dst) } else { (Event::Failed, dst) },
        Command::QueryFinalSize(_) => if dst.contains_key(n) { (Event::Size(dst[n]), dst) } else { (Event::Failed, dst) },
        Command::Rename(_) => {
            if dst.contains_key(t) && !dst.contains_key(n) {
                (Event::Succeeded, dst.remove(t).insert(n, dst[t]))
            } else {
                (Event::Failed, dst)
            }
        },
        Command::RemoveExisting(_) => if dst.contains_key(n) { (Event::Succeeded, dst.remove(n)) } else { (Event::Failed, dst) },
        Command::RemoveTemp(_) => if dst.contains_key(t) { (Event::Succeeded, dst.remove(t)) } else { (Event::Failed, dst) },
        _ => (Event::Succeeded, dst),
    }
}

/// Runs the engine against such a destination, from progress `p` and answer
/// `e`, until it reports the file or `fuel` steps are spent.
pub open spec fn drive_target(s: Settings, p: Progress, names: Seq<Seq<char>>, e: Event, dst: Map<Seq<char>, u64>, t: Seq<char>, fuel: nat)
    -> (Progress, Command, Map<Seq<char>, u64>)
    decreases fuel,
{
    let (q, c) = next(s, p, names, e, false);
    if fuel == 0 || c is Report {
        (q, c, dst)
    } else {
        let (e2, d2) = target_answer(c, dst, names[p.index as int], t);
        drive_target(s, q, names, e2, d2, t, (fuel - 1) as nat)
    }
}

/// Committing an uploaded file leaves the destination holding the file at
/// its own name with the staged size and no temporary name, whether or not
/// the name existed before: re-running a transfer over the result of an
/// earlier one gives the same destination. The file is reported transferred.
pub proof fn lemma_commit_same_destination(s: Settings, p: Progress, names: Seq<Seq<char>>, dst: Map<Seq<char>, u64>, pid: u32)
    requires
        progress_wf(p, names),
        p.phase is AwaitUpload,
        !s.delete,
        !dst.contains_key(crate::staging::temp_name_spec(names[p.index as int], pid)),
    ensures
        ({
            let n = names[p.index as int];
            let t = crate::staging::temp_name_spec(n, pid);
            let st = p.phase->AwaitUpload_staged;
            let (q, c, d) = drive_target(s, p, names, Event::Uploaded(st), dst.insert(t, st), t, 6);
            &&& c == Command::Report(p.index, Outcome::Transferred)
            &&& d == dst.insert(n, st).remove(t)
        }),
{
    let n = names[p.index as int];
    let t = crate::staging::temp_name_spec(n, pid);
    let st = p.phase->AwaitUpload_staged;
    assert(t.len() > n.len());
    assert(t != n);
    let d1 = dst.insert(t, st);
    reveal_with_fuel(drive_target, 7);
    if dst.contains_key(n) {
        let d2 = d1.remove(n);
        let d3 = d2.remove(t).insert(n, st);
        assert(d1.contains_key(n));
        assert(d2.contains_key(t) && !d2.contains_key(n));
        assert(d2[t] == st);
        assert(d3 =~= dst.insert(n, st).remove(t));
    } else {
        let d2 = d1.remove(t).insert(n, st);
        assert(d1.contains_key(t) && !d1.contains_key(n));
        assert(d2 =~= dst.insert(n, st).remove(t));
    }
}

/// Cancellation is cooperative and prompt at unit boundaries: with shutdown
/// requested, a rule that has not started finishes at once with nothing
/// transferred, and a rule between two files closes its sessions instead of
/// starting the next file, then finishes with its tally.
pub proof fn lemma_shutdown_stops_at_boundaries(s: Settings, p: Progress, names: Seq<Seq<char>>, e: Event)
    requires
        progress_wf(p, names),
    ensures
        p.phase == Phase::Start ==> next(s, p, names, e, true).1 == Command::Finish(0),
        (p.phase is Reporting || (p.phase == Phase::Listing && e is Listed)) ==> {
            &&& next(s, p, names, e, true).1 == Command::Close(true)
            &&& next(s, p, names, e, true).0.phase == Phase::Closing
        },
        p.phase == Phase::Closing ==> next(s, p, names, e, true).1 == Command::Finish(p.successes),
{
}

} // verus!
