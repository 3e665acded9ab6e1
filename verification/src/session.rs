//! Per-session state: identity, liveness bookkeeping and the bounded
//! scrollback buffer.

use vstd::prelude::*;
use crate::strutil::session_key;

verus! {

/// Default bound on a session's scrollback buffer, in chunks.
pub const DEFAULT_BUFFER_BOUND: usize = 1000;

/// How many trailing chunks of a stopped session's scrollback survive a
/// restart of the same identity.
pub const RESTART_KEEP_CHUNKS: usize = 500;

/// Chunk placed at the head of a brand-new session's scrollback.
pub const SESSION_START_MARKER: &'static str = "\n==================================================\n[session start] output begins\n==================================================\n";

/// Chunk separating the preserved tail of a previous session's scrollback
/// from the restarted session's output.
pub const SESSION_RESTART_MARKER: &'static str = "\n==================================================\n[session restart] output of the new session begins\n==================================================\n";

/// State of one session: the binding of one component of one instance to a
/// spawned process.
///
/// The OS handles themselves (process handle, input channel, terminal
/// control) are owned by the caller that spawned the process; `live`
/// records whether they are held.  The supervisor's invariant is that the
/// three handles and the recorded pid are cleared together: a session is
/// either fully live or fully dead.
pub struct SessionState {
    /// Identity: the owning instance.
    pub instance_id: String,
    /// Identity: the component role within the instance.
    pub component: String,
    /// The joined identity, `"{instance_id}_{component}"`.
    pub session_id: String,
    /// OS process id; `None` once the process is known dead.
    pub pid: Option<u32>,
    /// Start timestamp in milliseconds.
    pub start_time_ms: u64,
    /// Scrollback buffer, oldest chunk first.
    pub output_buffer: Vec<String>,
    /// Bound on the scrollback length; eviction removes the oldest chunks.
    pub buffer_size: usize,
    /// Whether the process handle, input channel and terminal control
    /// handle are still held by the caller.
    pub live: bool,
    /// Terminal rows last applied to the session's PTY.
    pub pty_rows: u16,
    /// Terminal cols last applied to the session's PTY.
    pub pty_cols: u16,
}

impl SessionState {
    /// Well-formedness: the buffer respects its bound, the session id is
    /// the joined identity, and a dead session records no pid.
    pub open spec fn wf(self) -> bool {
        &&& self.buffer_size >= 1
        &&& self.output_buffer@.len() <= self.buffer_size
        &&& self.session_id@ == session_key(self.instance_id@, self.component@)
        &&& (!self.live ==> self.pid is None)
    }

    /// The scrollback as a sequence of character sequences.
    pub open spec fn buffer(self) -> Seq<Seq<char>> {
        self.output_buffer.deep_view()
    }
}

/// `s` with the pid and the liveness flag cleared — the shape of a
/// session after a stop or after a termination report.
pub open spec fn with_handles_cleared(s: SessionState) -> SessionState {
    SessionState { pid: None, live: false, ..s }
}

/// All fields of `s2` equal those of `s1` except possibly the scrollback
/// buffer.
pub open spec fn eq_except_buffer(s1: SessionState, s2: SessionState) -> bool {
    (SessionState { output_buffer: s1.output_buffer, ..s2 }) == s1
}

/// All fields of `s2` equal those of `s1` except possibly the pid and the
/// liveness flag — the fields a termination report clears together.
pub open spec fn eq_except_liveness(s1: SessionState, s2: SessionState) -> bool {
    (SessionState { pid: s1.pid, live: s1.live, ..s2 }) == s1
}

/// All fields of `s2` equal those of `s1` except possibly the PTY
/// geometry.
pub open spec fn eq_except_geometry(s1: SessionState, s2: SessionState) -> bool {
    (SessionState { pty_rows: s1.pty_rows, pty_cols: s1.pty_cols, ..s2 }) == s1
}

/// The last `bound` elements of `b`; all of `b` when it is no longer than
/// `bound`.  This one shape describes buffer eviction, history queries and
/// the restart carry-over.
pub open spec fn last_up_to(b: Seq<Seq<char>>, bound: int) -> Seq<Seq<char>> {
    if b.len() <= bound {
        b
    } else {
        b.skip(b.len() - bound)
    }
}

} // verus!
