//! The output bridge's decisions.
//!
//! Per session, a dedicated loop owned by the caller drains the PTY's
//! output stream.  The loop's I/O is the caller's; what to do with each
//! read — append and publish, stop quietly, or warn — is decided here,
//! as is the name of the notification channel a session's output is
//! published under.

use vstd::prelude::*;
use crate::strutil::{concat2, session_id_of, session_key};

verus! {

/// Fixed prefix of the per-session notification channel names.
pub const TERMINAL_EVENT_PREFIX: &'static str = "terminal-output-";

/// The channel name a session's output chunks are published under:
/// the fixed prefix followed by the session id.
pub fn terminal_event_name(instance_id: &str, component: &str) -> (r: String)
    ensures
        r@ == TERMINAL_EVENT_PREFIX@ + session_key(instance_id@, component@),
{
    let sid = session_id_of(instance_id, component);
    concat2(TERMINAL_EVENT_PREFIX, sid.as_str())
}

/// What one read attempt on a session's PTY stream produced.
#[derive(Debug)]
pub enum ReadEvent {
    /// End of stream: the process closed its output cleanly.
    Eof,
    /// A chunk of output text.
    Data(String),
    /// A read error; `broken_pipe` marks the expected symptom of the
    /// process and its PTY having been torn down.
    Failed { broken_pipe: bool },
}

/// What the bridge loop does with one read event.
#[derive(Debug)]
pub enum BridgeAction {
    /// Append the chunk to the session's scrollback, publish it on the
    /// session's channel, and keep reading.
    Publish(String),
    /// Stop silently.
    StopQuietly,
    /// Log a warning about the anomalous read error, then stop.  The
    /// error is never propagated further: output-stream anomalies are
    /// not fatal to the rest of the system.
    StopWithWarning,
}

/// Decides the bridge's reaction to one read event: data is appended and
/// published; end-of-stream stops the loop silently; a broken pipe — the
/// normal sign of termination — stops it silently too; any other read
/// error stops it with a logged warning.
pub fn bridge_step(event: ReadEvent) -> (r: BridgeAction)
    ensures
        (event is Eof) ==> (r is StopQuietly),
        (event matches ReadEvent::Data(t) ==> r == BridgeAction::Publish(t)),
        (event matches ReadEvent::Failed { broken_pipe } ==> if broken_pipe {
            r is StopQuietly
        } else {
            r is StopWithWarning
        }),
{
    match event {
        ReadEvent::Eof => BridgeAction::StopQuietly,
        ReadEvent::Data(t) => BridgeAction::Publish(t),
        ReadEvent::Failed { broken_pipe } => if broken_pipe {
            BridgeAction::StopQuietly
        } else {
            BridgeAction::StopWithWarning
        },
    }
}

} // verus!
