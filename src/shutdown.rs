//! Process-wide cancellation state: a flag plus the kind of the last signal.
//!
//! The flag is set once and read many times; the signal handler of the
//! program only stores into atomics, and the value read back from them is
//! this state.
use vstd::prelude::*;

verus! {

/// Which signal asked for the shutdown.
#[derive(Clone, Copy, Debug, PartialEq, Eq, Structural)]
pub enum SignalKind {
    NoSignal,
    Interrupt,
    Terminate,
}

/// Shutdown flag plus the last signal tag.
#[derive(Clone, Copy, Debug, PartialEq, Eq, Structural)]
pub struct ShutdownState {
    pub requested: bool,
    pub kind: SignalKind,
}

impl ShutdownState {
    /// The state at process start: nothing requested.
    pub fn new() -> (r: ShutdownState)
        ensures
            !r.requested,
            r.kind == SignalKind::NoSignal,
    {
        ShutdownState { requested: false, kind: SignalKind::NoSignal }
    }

    /// The signal that was recorded, if any.
    pub fn kind(&self) -> (r: SignalKind)
        ensures
            r == self.kind,
    {
        self.kind
    }

    /// Requests shutdown and records the signal that caused it.
    pub fn request_with_kind(&mut self, k: SignalKind)
        ensures
            final(self).requested,
            final(self).kind == k,
    {
        self.requested = true;
        self.kind = k;
    }
}

/// Whether a graceful shutdown has been requested.
pub fn is_shutdown_requested(state: &ShutdownState) -> (r: bool)
    ensures
        r == state.requested,
{
    state.requested
}

/// Requests a graceful shutdown; the recorded signal kind is kept.
pub fn request_shutdown(state: &mut ShutdownState)
    ensures
        final(state).requested,
        final(state).kind == old(state).kind,
{
    state.requested = true;
}

/// The small integer under which a signal kind is stored in an atomic.
pub open spec fn signal_code_spec(k: SignalKind) -> u8 {
    match k {
        SignalKind::NoSignal => 0,
        SignalKind::Interrupt => 1,
        SignalKind::Terminate => 2,
    }
}

/// Encodes a signal kind as the small integer that the handler stores.
pub fn signal_code(k: SignalKind) -> (r: u8)
    ensures
        r == signal_code_spec(k),
{
    match k {
        SignalKind::NoSignal => 0,
        SignalKind::Interrupt => 1,
        SignalKind::Terminate => 2,
    }
}

/// Decodes a stored integer; unknown codes read as no signal.
pub fn signal_from_code(c: u8) -> (r: SignalKind)
    ensures
        c <= 2 ==> signal_code_spec(r) == c,
        c > 2 ==> r == SignalKind::NoSignal,
{
    if c == 1 {
        SignalKind::Interrupt
    } else if c == 2 {
        SignalKind::Terminate
    } else {
        SignalKind::NoSignal
    }
}

/// Decoding an encoded kind gives the kind back.
pub proof fn lemma_signal_code_round_trip(k: SignalKind)
    ensures
        signal_code_spec(k) <= 2,
        (signal_code_spec(k) == 1) == (k == SignalKind::Interrupt),
        (signal_code_spec(k) == 2) == (k == SignalKind::Terminate),
        (signal_code_spec(k) == 0) == (k == SignalKind::NoSignal),
{
}

/// The human-readable name of a signal, for the shutdown message.
pub fn signal_name(k: SignalKind) -> (r: &'static str)
    ensures
        k == SignalKind::Interrupt ==> r@ == "SIGINT"@,
        k == SignalKind::Terminate ==> r@ == "SIGTERM"@,
        k == SignalKind::NoSignal ==> r@ == "no signal"@,
{
    match k {
        SignalKind::NoSignal => "no signal",
        SignalKind::Interrupt => "SIGINT",
        SignalKind::Terminate => "SIGTERM",
    }
}


/// The exact bytes a new instance sends on the control socket.
pub open spec fn shutdown_bytes() -> Seq<u8> {
    seq![83u8, 72u8, 85u8, 84u8, 68u8, 79u8, 87u8, 78u8]
}

/// Whether a read of `n` bytes into `buf` is the shutdown request: exactly
/// the eight bytes `SHUTDOWN`; a shorter read is ignored.
pub fn is_shutdown_message(buf: &[u8], n: usize) -> (r: bool)
    ensures
        r == (n == 8 && buf@.len() >= 8 && buf@.subrange(0, 8) == shutdown_bytes()),
{
    if n != 8 || buf.len() < 8 {
        return false;
    }
    let ok = buf[0] == 83 && buf[1] == 72 && buf[2] == 85 && buf[3] == 84 && buf[4] == 68 && buf[5] == 79
        && buf[6] == 87 && buf[7] == 78;
    if ok {
        assert(buf@.subrange(0, 8) =~= shutdown_bytes());
    } else {
        assert(buf@.subrange(0, 8) != shutdown_bytes()) by {
            if buf@.subrange(0, 8) == shutdown_bytes() {
                assert(buf@.subrange(0, 8)[0] == buf@[0]);
                assert(buf@.subrange(0, 8)[1] == buf@[1]);
                assert(buf@.subrange(0, 8)[2] == buf@[2]);
                assert(buf@.subrange(0, 8)[3] == buf@[3]);
                assert(buf@.subrange(0, 8)[4] == buf@[4]);
                assert(buf@.subrange(0, 8)[5] == buf@[5]);
                assert(buf@.subrange(0, 8)[6] == buf@[6]);
                assert(buf@.subrange(0, 8)[7] == buf@[7]);
            }
        }
    }
    ok
}

} // verus!
