//! The single-instance guard: the decisions of acquiring the instance lock
//! and of superseding an older running instance. The driver performs each
//! `GuardCommand` (lock file, control socket, signals, the half-second wait)
//! and answers with a `GuardEvent`.
use vstd::prelude::*;

verus! {

/// What the driver must do next.
#[derive(Clone, Copy, Debug, PartialEq, Eq, Structural)]
pub enum GuardCommand {
    /// Open the PID file and try the exclusive non-blocking lock.
    TryLock,
    /// Truncate the PID file, write our PID, remove a stale socket and bind
    /// the control socket.
    WritePidAndBind,
    /// Connect to the control socket of the lock holder.
    ConnectSocket,
    /// Read the holder's PID from the PID file.
    ReadPid,
    /// Ask the holder to terminate (SIGTERM or the `SHUTDOWN` bytes).
    SendTerminate(u32),
    /// Wait half a second, then probe whether the process still exists.
    WaitThenProbe(u32),
    /// Kill the process.
    ForceKill(u32),
    /// Remove the stale socket file.
    UnlinkSocket,
    /// This process holds the lock and its control socket: go on.
    Proceed,
    /// The lock could not be obtained: exit with an error.
    GiveUp,
}

/// The driver's answer to the last command.
#[derive(Clone, Copy, Debug, PartialEq, Eq, Structural)]
pub enum GuardEvent {
    /// The first call.
    Begin,
    /// The lock was acquired.
    Acquired,
    /// Another process holds the lock.
    Refused,
    /// The command succeeded.
    Succeeded,
    /// The command failed.
    Failed,
    /// The PID read from the PID file.
    Pid(u32),
    /// The probed process still exists.
    Alive,
    /// The probed process is gone.
    Exited,
}

/// Where the guard stands.
#[derive(Clone, Copy, Debug, PartialEq, Eq, Structural)]
pub enum GuardPhase {
    Start,
    Locking,
    Connecting,
    ReadingPid,
    Terminating { pid: u32 },
    /// `probes` probes have been asked for so far.
    Polling { pid: u32, probes: u64 },
    Killing,
    Unlinking,
    Relocking,
    Binding,
    Ready,
    Failed,
}

/// Number of half-second probes in a grace period of `grace_seconds`.
pub open spec fn probe_limit(grace_seconds: u64) -> u64 {
    if grace_seconds > u64::MAX / 2 { u64::MAX } else { (grace_seconds * 2) as u64 }
}

/// One transition of the guard.
pub open spec fn guard_next(grace_seconds: u64, ph: GuardPhase, e: GuardEvent) -> (GuardPhase, GuardCommand) {
    let limit = probe_limit(grace_seconds);
    match ph {
        GuardPhase::Start => (GuardPhase::Locking, GuardCommand::TryLock),
        GuardPhase::Locking => match e {
            GuardEvent::Acquired => (GuardPhase::Binding, GuardCommand::WritePidAndBind),
            GuardEvent::Refused => (GuardPhase::Connecting, GuardCommand::ConnectSocket),
            _ => (GuardPhase::Failed, GuardCommand::GiveUp),
        },
        GuardPhase::Connecting => match e {
            GuardEvent::Succeeded => (GuardPhase::ReadingPid, GuardCommand::ReadPid),
            _ => (GuardPhase::Unlinking, GuardCommand::UnlinkSocket),
        },
        GuardPhase::ReadingPid => match e {
            GuardEvent::Pid(pid) => (GuardPhase::Terminating { pid }, GuardCommand::SendTerminate(pid)),
            _ => (GuardPhase::Relocking, GuardCommand::TryLock),
        },
        GuardPhase::Terminating { pid } => match e {
            GuardEvent::Succeeded => {
                if limit == 0 {
                    (GuardPhase::Killing, GuardCommand::ForceKill(pid))
                } else {
                    (GuardPhase::Polling { pid, probes: 1 }, GuardCommand::WaitThenProbe(pid))
                }
            },
            _ => (GuardPhase::Relocking, GuardCommand::TryLock),
        },
        GuardPhase::Polling { pid, probes } => match e {
            GuardEvent::Alive => {
                if probes < limit {
                    (GuardPhase::Polling { pid, probes: (probes + 1) as u64 }, GuardCommand::WaitThenProbe(pid))
                } else {
                    (GuardPhase::Killing, GuardCommand::ForceKill(pid))
                }
            },
            _ => (GuardPhase::Relocking, GuardCommand::TryLock),
        },
        GuardPhase::Killing => (GuardPhase::Relocking, GuardCommand::TryLock),
        GuardPhase::Unlinking => (GuardPhase::Relocking, GuardCommand::TryLock),
        GuardPhase::Relocking => match e {
            GuardEvent::Acquired => (GuardPhase::Binding, GuardCommand::WritePidAndBind),
            _ => (GuardPhase::Failed, GuardCommand::GiveUp),
        },
        GuardPhase::Binding => match e {
            GuardEvent::Succeeded => (GuardPhase::Ready, GuardCommand::Proceed),
            _ => (GuardPhase::Failed, GuardCommand::GiveUp),
        },
        GuardPhase::Ready => (GuardPhase::Ready, GuardCommand::Proceed),
        GuardPhase::Failed => (GuardPhase::Failed, GuardCommand::GiveUp),
    }
}

pub open spec fn guard_wf(grace_seconds: u64, ph: GuardPhase) -> bool {
    match ph {
        GuardPhase::Polling { probes, .. } => 1 <= probes <= probe_limit(grace_seconds),
        _ => true,
    }
}

/// The guard of one process start.
pub struct InstanceGuard {
    grace_seconds: u64,
    phase: GuardPhase,
}

impl InstanceGuard {
    pub closed spec fn grace(&self) -> u64 {
        self.grace_seconds
    }

    pub closed spec fn state(&self) -> GuardPhase {
        self.phase
    }

    pub open spec fn wf(&self) -> bool {
        guard_wf(self.grace(), self.state())
    }

    /// A guard that grants an old instance `grace_seconds` to exit.
    pub fn new(grace_seconds: u64) -> (r: InstanceGuard)
        ensures
            r.wf(),
            r.grace() == grace_seconds,
            r.state() == GuardPhase::Start,
    {
        InstanceGuard { grace_seconds, phase: GuardPhase::Start }
    }

    /// The current phase.
    pub fn phase(&self) -> (r: GuardPhase)
        ensures
            r == self.state(),
    {
        self.phase
    }

    /// Takes the answer to the last command and returns the next one, as
    /// `guard_next` states.
    pub fn step(&mut self, e: GuardEvent) -> (r: GuardCommand)
        requires
            old(self).wf(),
        ensures
            final(self).wf(),
            final(self).grace() == old(self).grace(),
            (final(self).state(), r) == guard_next(old(self).grace(), old(self).state(), e),
    {
        let limit: u64 = if self.grace_seconds > u64::MAX / 2 { u64::MAX } else { self.grace_seconds * 2 };
        let (ph, c) = match self.phase {
            GuardPhase::Start => (GuardPhase::Locking, GuardCommand::TryLock),
            GuardPhase::Locking => match e {
                GuardEvent::Acquired => (GuardPhase::Binding, GuardCommand::WritePidAndBind),
                GuardEvent::Refused => (GuardPhase::Connecting, GuardCommand::ConnectSocket),
                _ => (GuardPhase::Failed, GuardCommand::GiveUp),
            },
            GuardPhase::Connecting => match e {
                GuardEvent::Succeeded => (GuardPhase::ReadingPid, GuardCommand::ReadPid),
                _ => (GuardPhase::Unlinking, GuardCommand::UnlinkSocket),
            },
            GuardPhase::ReadingPid => match e {
                GuardEvent::Pid(pid) => (GuardPhase::Terminating { pid }, GuardCommand::SendTerminate(pid)),
                _ => (GuardPhase::Relocking, GuardCommand::TryLock),
            },
            GuardPhase::Terminating { pid } => match e {
                GuardEvent::Succeeded => {
                    if limit == 0 {
                        (GuardPhase::Killing, GuardCommand::ForceKill(pid))
                    } else {
                        (GuardPhase::Polling { pid, probes: 1 }, GuardCommand::WaitThenProbe(pid))
                    }
                },
                _ => (GuardPhase::Relocking, GuardCommand::TryLock),
            },
            GuardPhase::Polling { pid, probes } => match e {
                GuardEvent::Alive => {
                    if probes < limit {
                        (GuardPhase::Polling { pid, probes: probes + 1 }, GuardCommand::WaitThenProbe(pid))
                    } else {
                        (GuardPhase::Killing, GuardCommand::ForceKill(pid))
                    }
                },
                _ => (GuardPhase::Relocking, GuardCommand::TryLock),
            },
            GuardPhase::Killing => (GuardPhase::Relocking, GuardCommand::TryLock),
            GuardPhase::Unlinking => (GuardPhase::Relocking, GuardCommand::TryLock),
            GuardPhase::Relocking => match e {
                GuardEvent::Acquired => (GuardPhase::Binding, GuardCommand::WritePidAndBind),
                _ => (GuardPhase::Failed, GuardCommand::GiveUp),
            },
            GuardPhase::Binding => match e {
                GuardEvent::Succeeded => (GuardPhase::Ready, GuardCommand::Proceed),
                _ => (GuardPhase::Failed, GuardCommand::GiveUp),
            },
            GuardPhase::Ready => (GuardPhase::Ready, GuardCommand::Proceed),
            GuardPhase::Failed => (GuardPhase::Failed, GuardCommand::GiveUp),
        };
        self.phase = ph;
        c
    }
}

/// Steps left before the guard settles, from a phase.
pub open spec fn guard_measure(grace_seconds: u64, ph: GuardPhase) -> int {
    let limit = probe_limit(grace_seconds) as int;
    match ph {
        GuardPhase::Ready | GuardPhase::Failed => 0,
        GuardPhase::Binding => 1,
        GuardPhase::Relocking => 2,
        GuardPhase::Killing | GuardPhase::Unlinking => 3,
        GuardPhase::Polling { probes, .. } => 4 + limit - probes,
        GuardPhase::Terminating { .. } => 5 + limit,
        GuardPhase::ReadingPid => 6 + limit,
        GuardPhase::Connecting => 7 + limit,
        GuardPhase::Locking => 8 + limit,
        GuardPhase::Start => 9 + limit,
    }
}

/// Every start settles: each transition out of an unsettled phase brings the
/// guard closer to holding the lock (`Ready`) or giving up (`Failed`), both
/// of which are final. So of two processes started together, each one either
/// takes the lock (superseding the other) or exits with an error.
pub proof fn lemma_guard_settles(grace_seconds: u64, ph: GuardPhase, e: GuardEvent)
    requires
        guard_wf(grace_seconds, ph),
    ensures
        guard_wf(grace_seconds, guard_next(grace_seconds, ph, e).0),
        guard_measure(grace_seconds, ph) >= 0,
        ph != GuardPhase::Ready && ph != GuardPhase::Failed ==>
            guard_measure(grace_seconds, guard_next(grace_seconds, ph, e).0) < guard_measure(grace_seconds, ph),
        ph == GuardPhase::Ready ==> guard_next(grace_seconds, ph, e) == (GuardPhase::Ready, GuardCommand::Proceed),
        ph == GuardPhase::Failed ==> guard_next(grace_seconds, ph, e) == (GuardPhase::Failed, GuardCommand::GiveUp),
{
}

/// The guard proceeds only once the lock was acquired and the control socket
/// bound; it kills the old instance only after the whole grace period of
/// probes found it alive; and after superseding it tries the lock once more,
/// giving up if it is still refused.
pub proof fn lemma_guard_exclusive(grace_seconds: u64, ph: GuardPhase, e: GuardEvent)
    requires
        guard_wf(grace_seconds, ph),
    ensures
        ({
            let (q, c) = guard_next(grace_seconds, ph, e);
            &&& q == GuardPhase::Binding ==> e == GuardEvent::Acquired
            &&& (q == GuardPhase::Ready && ph != GuardPhase::Ready) ==> ph == GuardPhase::Binding && e == GuardEvent::Succeeded
            &&& c is ForceKill ==> {
                ||| (ph is Polling && ph->Polling_probes == probe_limit(grace_seconds) && e == GuardEvent::Alive)
                ||| (ph is Terminating && probe_limit(grace_seconds) == 0)
            }
            &&& (ph == GuardPhase::Relocking && e != GuardEvent::Acquired) ==> c == GuardCommand::GiveUp
        }),
{
}


/// The PID file and control socket paths: under the user runtime directory
/// when it is set, else per user id under the temporary directory.
pub open spec fn instance_path_spec(runtime_dir: Option<Seq<char>>, tmp_dir: Seq<char>, program: Seq<char>, uid: u32, suffix: Seq<char>) -> Seq<char> {
    match runtime_dir {
        Some(d) => d + "/"@ + program + suffix,
        None => tmp_dir + "/"@ + program + "_"@ + crate::staging::decimal(uid as nat) + suffix,
    }
}

/// Composes the path of the PID file (`suffix` `.pid`) or of the control
/// socket (`.sock`).
pub fn instance_path(runtime_dir: Option<&str>, tmp_dir: &str, program: &str, uid: u32, suffix: &str) -> (r: String)
    ensures
        r@ == instance_path_spec(match runtime_dir { Some(d) => Some(d@), None => None }, tmp_dir@, program@, uid, suffix@),
{
    let mut s = String::new();
    match runtime_dir {
        Some(d) => {
            s.append(d);
            s.append("/");
            s.append(program);
        },
        None => {
            s.append(tmp_dir);
            s.append("/");
            s.append(program);
            s.append("_");
            let digits = crate::staging::decimal_text(uid as u64);
            s.append(digits.as_str());
        },
    }
    s.append(suffix);
    s
}

} // verus!
