//! The process supervisor's session registry and its state machine.
//!
//! [`ProcessManager`] is the single source of truth for "what is running".
//! It owns the model of every session — identity, liveness, pid, scrollback
//! — while the caller owns the OS handles (process handle, PTY writer,
//! terminal control) and drives the registry: it asks before spawning,
//! registers a started process, reports a probe that found the process
//! dead, and performs the kills, writes and resizes that the registry's
//! decisions call for.

use vstd::prelude::*;
use crate::errors::AppError;
use crate::session::{
    SessionState, last_up_to, eq_except_buffer, eq_except_liveness, eq_except_geometry,
    with_handles_cleared, DEFAULT_BUFFER_BOUND, RESTART_KEEP_CHUNKS, SESSION_START_MARKER,
    SESSION_RESTART_MARKER,
};
use crate::strutil::{str_eq, session_id_of, session_key, concat2};

verus! {

/// What a stop request asks of the caller holding the OS handles.
pub enum StopAction {
    /// No entry for the identity; nothing to do.
    NoSession,
    /// The entry was already dead; nothing to kill.
    AlreadyStopped,
    /// The entry was live: the caller must kill the process handle and
    /// drop the session's handles, then wait out the grace interval.
    KillProcess,
}

/// Message of the error returned when an operation needs a session that
/// the registry does not hold.
pub open spec fn session_missing_msg(sid: Seq<char>) -> Seq<char> {
    "session not found: "@ + sid
}

/// Message of the error returned when input is written to a session whose
/// input channel is gone.
pub open spec fn no_input_channel_msg(sid: Seq<char>) -> Seq<char> {
    "session has no input channel: "@ + sid
}

/// Uptime in whole seconds between a start timestamp and a later clock
/// reading, zero when the clock reads earlier than the start.
pub open spec fn uptime_seconds(start_ms: u64, now_ms: u64) -> u64 {
    if now_ms >= start_ms {
        (((now_ms - start_ms) as u64) / 1000) as u64
    } else {
        0
    }
}

/// Default PTY height, in rows, when the caller supplies no override.
pub const DEFAULT_PTY_ROWS: u16 = 30;

/// Default PTY width, in columns, when the caller supplies no override.
pub const DEFAULT_PTY_COLS: u16 = 120;

/// True when session `s` belongs to the identity `(i, c)`.
pub open spec fn sess_matches(s: SessionState, i: Seq<char>, c: Seq<char>) -> bool {
    s.instance_id@ == i && s.component@ == c
}

/// The session registry: one entry per identity `(instance_id, component)`.
pub struct ProcessManager {
    /// Registered sessions, in registration order, at most one per identity.
    pub sessions: Vec<SessionState>,
    /// PTY rows given to newly started sessions.
    pub pty_rows: u16,
    /// PTY cols given to newly started sessions.
    pub pty_cols: u16,
}

impl ProcessManager {
    /// Well-formedness: every session is well-formed and no identity owns
    /// two entries.
    pub open spec fn wf(self) -> bool {
        &&& forall|k: int| 0 <= k < self.sessions@.len() ==> (#[trigger] self.sessions@[k]).wf()
        &&& forall|k1: int, k2: int|
            #![trigger self.sessions@[k1], self.sessions@[k2]]
            0 <= k1 < self.sessions@.len() && 0 <= k2 < self.sessions@.len() && k1 != k2
                ==> !(self.sessions@[k1].instance_id@ == self.sessions@[k2].instance_id@
                    && self.sessions@[k1].component@ == self.sessions@[k2].component@)
    }

    /// Whether the registry holds an entry for the identity.
    pub open spec fn has_session(self, i: Seq<char>, c: Seq<char>) -> bool {
        exists|k: int| 0 <= k < self.sessions@.len() && sess_matches(#[trigger] self.sessions@[k], i, c)
    }

    /// The index of the identity's entry (meaningful only when
    /// `has_session` holds; unique under `wf`).
    pub open spec fn sess_idx(self, i: Seq<char>, c: Seq<char>) -> int {
        choose|k: int| 0 <= k < self.sessions@.len() && sess_matches(#[trigger] self.sessions@[k], i, c)
    }

    /// The identity's entry (meaningful only when `has_session` holds).
    pub open spec fn sess(self, i: Seq<char>, c: Seq<char>) -> SessionState {
        self.sessions@[self.sess_idx(i, c)]
    }

    /// The identity's scrollback, empty for unknown identities.
    pub open spec fn buffer_of(self, i: Seq<char>, c: Seq<char>) -> Seq<Seq<char>> {
        if self.has_session(i, c) {
            self.sess(i, c).buffer()
        } else {
            Seq::empty()
        }
    }

    /// Whether the identity has a live session: an entry whose handles are
    /// still held.
    pub open spec fn live_of(self, i: Seq<char>, c: Seq<char>) -> bool {
        self.has_session(i, c) && self.sess(i, c).live
    }

    /// The identity's recorded OS process id, `None` for unknown or dead
    /// sessions.
    pub open spec fn pid_of(self, i: Seq<char>, c: Seq<char>) -> Option<u32> {
        if self.has_session(i, c) {
            self.sess(i, c).pid
        } else {
            None
        }
    }

    /// A start request creates a process exactly when no live session holds
    /// the identity.
    pub open spec fn can_start(self, i: Seq<char>, c: Seq<char>) -> bool {
        !self.live_of(i, c)
    }

    /// How many entries the registry holds for the identity; under `wf`
    /// this is zero or one.
    pub open spec fn entry_count(self, i: Seq<char>, c: Seq<char>) -> nat {
        Self::count_matching(self.sessions@, i, c)
    }

    /// Number of sessions in `ss` that belong to identity `(i, c)`.
    pub open spec fn count_matching(ss: Seq<SessionState>, i: Seq<char>, c: Seq<char>) -> nat
        decreases ss.len(),
    {
        if ss.len() == 0 {
            0
        } else {
            Self::count_matching(ss.drop_last(), i, c)
                + if sess_matches(ss.last(), i, c) { 1nat } else { 0nat }
        }
    }

    /// An entry that matches `(i, c)` sits at the index `sess_idx(i, c)`
    /// picks; with `wf` there is no second one.
    pub proof fn lemma_match_is_sess_idx(self, i: Seq<char>, c: Seq<char>, j: int)
        requires
            self.wf(),
            0 <= j < self.sessions@.len(),
            sess_matches(self.sessions@[j], i, c),
        ensures
            self.has_session(i, c),
            self.sess_idx(i, c) == j,
            self.sess(i, c) == self.sessions@[j],
    {
        assert(self.has_session(i, c));
        let k = self.sess_idx(i, c);
        assert(0 <= k < self.sessions@.len() && sess_matches(self.sessions@[k], i, c));
        if k != j {
            assert(self.sessions@[k].instance_id@ == self.sessions@[j].instance_id@
                && self.sessions@[k].component@ == self.sessions@[j].component@);
            assert(false);
        }
    }

    /// A fresh registry with the default PTY geometry and no sessions.
    pub fn new() -> (m: ProcessManager)
        ensures
            m.wf(),
            m.sessions@.len() == 0,
            m.pty_rows == DEFAULT_PTY_ROWS,
            m.pty_cols == DEFAULT_PTY_COLS,
    {
        ProcessManager { sessions: Vec::new(), pty_rows: DEFAULT_PTY_ROWS, pty_cols: DEFAULT_PTY_COLS }
    }

    /// A fresh registry with the given PTY geometry (the caller reads any
    /// environment overrides) and no sessions.
    pub fn with_pty_size(rows: u16, cols: u16) -> (m: ProcessManager)
        ensures
            m.wf(),
            m.sessions@.len() == 0,
            m.pty_rows == rows,
            m.pty_cols == cols,
    {
        ProcessManager { sessions: Vec::new(), pty_rows: rows, pty_cols: cols }
    }

    /// Index of the identity's entry, `None` when it has none.
    fn find_index(&self, instance_id: &str, component: &str) -> (r: Option<usize>)
        ensures
            match r {
                Some(k) => 0 <= k < self.sessions@.len()
                    && sess_matches(self.sessions@[k as int], instance_id@, component@),
                None => !self.has_session(instance_id@, component@),
            },
    {
        let n = self.sessions.len();
        let mut k: usize = 0;
        while k < n
            invariant
                n == self.sessions@.len(),
                k <= n,
                forall|j: int| 0 <= j < k
                    ==> !sess_matches(#[trigger] self.sessions@[j], instance_id@, component@),
            decreases n - k,
        {
            let s = &self.sessions[k];
            if str_eq(s.instance_id.as_str(), instance_id) && str_eq(s.component.as_str(), component) {
                return Some(k);
            }
            k += 1;
        }
        None
    }

    /// Registries `m1` and `m2` agree on every identity other than
    /// `(i, c)`: the same entries exist and are equal.
    pub open spec fn agrees_outside(m1: ProcessManager, m2: ProcessManager, i: Seq<char>, c: Seq<char>) -> bool {
        forall|i2: Seq<char>, c2: Seq<char>|
            #![trigger m1.has_session(i2, c2)]
            #![trigger m2.has_session(i2, c2)]
            !(i2 == i && c2 == c) ==> {
                &&& m1.has_session(i2, c2) == m2.has_session(i2, c2)
                &&& (m1.has_session(i2, c2) ==> m1.sess(i2, c2) == m2.sess(i2, c2))
            }
    }

    /// Replacing the single entry at index `j` — which belongs to identity
    /// `(i, c)` before and after — leaves every other identity untouched.
    pub proof fn lemma_single_update_agrees(m1: ProcessManager, m2: ProcessManager, i: Seq<char>, c: Seq<char>, j: int)
        requires
            m1.wf(),
            m2.wf(),
            0 <= j < m1.sessions@.len(),
            m2.sessions@.len() == m1.sessions@.len(),
            sess_matches(m1.sessions@[j], i, c),
            sess_matches(m2.sessions@[j], i, c),
            forall|k: int| 0 <= k < m1.sessions@.len() && k != j
                ==> m1.sessions@[k] == #[trigger] m2.sessions@[k],
        ensures
            Self::agrees_outside(m1, m2, i, c),
    {
        assert forall|i2: Seq<char>, c2: Seq<char>| !(i2 == i && c2 == c) implies {
            &&& m1.has_session(i2, c2) == m2.has_session(i2, c2)
            &&& (m1.has_session(i2, c2) ==> m1.sess(i2, c2) == m2.sess(i2, c2))
        } by {
            if m1.has_session(i2, c2) {
                let k = m1.sess_idx(i2, c2);
                assert(0 <= k < m1.sessions@.len() && sess_matches(m1.sessions@[k], i2, c2));
                assert(k != j);
                assert(sess_matches(m2.sessions@[k], i2, c2));
                m2.lemma_match_is_sess_idx(i2, c2, k);
                m1.lemma_match_is_sess_idx(i2, c2, k);
            }
            if m2.has_session(i2, c2) {
                let k = m2.sess_idx(i2, c2);
                assert(0 <= k < m2.sessions@.len() && sess_matches(m2.sessions@[k], i2, c2));
                assert(k != j);
                assert(sess_matches(m1.sessions@[k], i2, c2));
                m1.lemma_match_is_sess_idx(i2, c2, k);
            }
        }
    }

    /// Liveness of one component, as last synchronised with the caller's
    /// probes: true exactly for a registered session whose handles are
    /// held.
    pub fn is_component_running(&self, instance_id: &str, component: &str) -> (r: bool)
        requires
            self.wf(),
        ensures
            r == self.live_of(instance_id@, component@),
    {
        match self.find_index(instance_id, component) {
            Some(k) => {
                proof {
                    self.lemma_match_is_sess_idx(instance_id@, component@, k as int);
                }
                self.sessions[k].live
            }
            None => false,
        }
    }

    /// Whether any component of the instance is live.
    pub fn is_instance_running(&self, instance_id: &str) -> (r: bool)
        requires
            self.wf(),
        ensures
            r == exists|c: Seq<char>| #[trigger] self.live_of(instance_id@, c),
    {
        let n = self.sessions.len();
        let mut k: usize = 0;
        while k < n
            invariant
                self.wf(),
                n == self.sessions@.len(),
                k <= n,
                forall|j: int| 0 <= j < k
                    ==> !((#[trigger] self.sessions@[j]).instance_id@ == instance_id@
                        && self.sessions@[j].live),
            decreases n - k,
        {
            let s = &self.sessions[k];
            if s.live && str_eq(s.instance_id.as_str(), instance_id) {
                proof {
                    self.lemma_match_is_sess_idx(instance_id@, s.component@, k as int);
                    assert(self.live_of(instance_id@, s.component@));
                }
                return true;
            }
            k += 1;
        }
        proof {
            assert forall|c: Seq<char>| !(#[trigger] self.live_of(instance_id@, c)) by {
                if self.has_session(instance_id@, c) {
                    let j = self.sess_idx(instance_id@, c);
                    assert(!(self.sessions@[j].instance_id@ == instance_id@
                        && self.sessions@[j].live));
                }
            }
        }
        false
    }

    /// The recorded OS process id of a session, `None` for unknown or dead
    /// sessions.
    pub fn get_process_pid(&self, instance_id: &str, component: &str) -> (r: Option<u32>)
        requires
            self.wf(),
        ensures
            r == self.pid_of(instance_id@, component@),
    {
        match self.find_index(instance_id, component) {
            Some(k) => {
                proof {
                    self.lemma_match_is_sess_idx(instance_id@, component@, k as int);
                }
                self.sessions[k].pid
            }
            None => None,
        }
    }

    /// Records that a liveness probe found the identity's process dead:
    /// the pid and the liveness flag are cleared together, the scrollback
    /// and everything else stay.  Unknown identities are a no-op.
    pub fn note_exited(&mut self, instance_id: &str, component: &str)
        requires
            old(self).wf(),
        ensures
            final(self).wf(),
            final(self).pty_rows == old(self).pty_rows,
            final(self).pty_cols == old(self).pty_cols,
            final(self).sessions@.len() == old(self).sessions@.len(),
            !old(self).has_session(instance_id@, component@) ==> *final(self) == *old(self),
            old(self).has_session(instance_id@, component@) ==> {
                &&& final(self).has_session(instance_id@, component@)
                &&& !final(self).sess(instance_id@, component@).live
                &&& final(self).sess(instance_id@, component@).pid is None
                &&& eq_except_liveness(old(self).sess(instance_id@, component@),
                    final(self).sess(instance_id@, component@))
            },
            Self::agrees_outside(*old(self), *final(self), instance_id@, component@),
    {
        match self.find_index(instance_id, component) {
            Some(k) => {
                proof {
                    old(self).lemma_match_is_sess_idx(instance_id@, component@, k as int);
                }
                let s = &mut self.sessions[k];
                s.pid = None;
                s.live = false;
                proof {
                    assert(self.sessions@[k as int].wf());
                    assert(self.wf());
                    self.lemma_match_is_sess_idx(instance_id@, component@, k as int);
                    Self::lemma_single_update_agrees(*old(self), *self, instance_id@, component@, k as int);
                }
            }
            None => {}
        }
    }

    /// Appends one output chunk to the identity's scrollback and enforces
    /// the buffer bound by evicting the oldest chunks.  Unknown identities
    /// are a no-op (a few trailing chunks may arrive after a session was
    /// dropped).
    pub fn add_output(&mut self, instance_id: &str, component: &str, output: String)
        requires
            old(self).wf(),
        ensures
            final(self).wf(),
            final(self).pty_rows == old(self).pty_rows,
            final(self).pty_cols == old(self).pty_cols,
            final(self).sessions@.len() == old(self).sessions@.len(),
            !old(self).has_session(instance_id@, component@) ==> *final(self) == *old(self),
            old(self).has_session(instance_id@, component@) ==> {
                &&& final(self).has_session(instance_id@, component@)
                &&& final(self).buffer_of(instance_id@, component@) == last_up_to(
                    old(self).buffer_of(instance_id@, component@).push(output@),
                    old(self).sess(instance_id@, component@).buffer_size as int,
                )
                &&& eq_except_buffer(old(self).sess(instance_id@, component@),
                    final(self).sess(instance_id@, component@))
            },
            Self::agrees_outside(*old(self), *final(self), instance_id@, component@),
    {
        match self.find_index(instance_id, component) {
            Some(k) => {
                proof {
                    old(self).lemma_match_is_sess_idx(instance_id@, component@, k as int);
                }
                let ghost pre = old(self).sessions@[k as int];
                let s = &mut self.sessions[k];
                s.output_buffer.push(output);
                if s.output_buffer.len() > s.buffer_size {
                    s.output_buffer.remove(0);
                    proof {
                        assert(s.output_buffer.deep_view() =~= last_up_to(
                            pre.buffer().push(output@), pre.buffer_size as int));
                    }
                } else {
                    proof {
                        assert(s.output_buffer.deep_view() =~= last_up_to(
                            pre.buffer().push(output@), pre.buffer_size as int));
                    }
                }
                proof {
                    assert(self.sessions@[k as int].wf());
                    assert(self.wf());
                    self.lemma_match_is_sess_idx(instance_id@, component@, k as int);
                    Self::lemma_single_update_agrees(*old(self), *self, instance_id@, component@, k as int);
                }
            }
            None => {}
        }
    }

    /// The most recent `lines` chunks of the identity's scrollback, oldest
    /// first — the whole scrollback when `lines` is at least its length,
    /// nothing when `lines` is zero, and the empty sequence for unknown
    /// identities.
    pub fn get_output_history(&self, instance_id: &str, component: &str, lines: usize) -> (r: Vec<String>)
        requires
            self.wf(),
        ensures
            r.deep_view() == last_up_to(self.buffer_of(instance_id@, component@), lines as int),
            lines >= self.buffer_of(instance_id@, component@).len()
                ==> r.deep_view() == self.buffer_of(instance_id@, component@),
            lines == 0 ==> r.deep_view() == Seq::<Seq<char>>::empty(),
            !self.has_session(instance_id@, component@)
                ==> r.deep_view() == Seq::<Seq<char>>::empty(),
    {
        proof {
            assert(last_up_to(Seq::<Seq<char>>::empty(), lines as int)
                =~= Seq::<Seq<char>>::empty());
        }
        match self.find_index(instance_id, component) {
            Some(k) => {
                proof {
                    self.lemma_match_is_sess_idx(instance_id@, component@, k as int);
                }
                let buf = &self.sessions[k].output_buffer;
                let len = buf.len();
                let start = if lines >= len {
                    0
                } else {
                    len - lines
                };
                let r = Self::clone_tail(buf, start);
                proof {
                    assert(r.deep_view() =~= last_up_to(
                        self.buffer_of(instance_id@, component@), lines as int));
                    if lines == 0 {
                        assert(r.deep_view() =~= Seq::<Seq<char>>::empty());
                    }
                }
                r
            }
            None => {
                let r: Vec<String> = Vec::new();
                proof {
                    assert(r.deep_view() =~= Seq::<Seq<char>>::empty());
                }
                r
            }
        }
    }

    /// Stops the identity's session.  Stopping is idempotent and always
    /// succeeds: an absent session is trivially stopped, a dead one is left
    /// as it is, and a live one has its pid and liveness cleared together
    /// while the returned action tells the caller to kill the process
    /// handle.  The scrollback survives.
    pub fn stop_process(&mut self, instance_id: &str, component: &str, force: bool) -> (r: (bool, StopAction))
        requires
            old(self).wf(),
        ensures
            final(self).wf(),
            r.0 == true,
            !final(self).live_of(instance_id@, component@),
            final(self).sessions@.len() == old(self).sessions@.len(),
            final(self).pty_rows == old(self).pty_rows,
            final(self).pty_cols == old(self).pty_cols,
            final(self).has_session(instance_id@, component@)
                == old(self).has_session(instance_id@, component@),
            !old(self).has_session(instance_id@, component@)
                ==> *final(self) == *old(self) && (r.1 is NoSession),
            old(self).has_session(instance_id@, component@)
                && !old(self).sess(instance_id@, component@).live
                ==> *final(self) == *old(self) && (r.1 is AlreadyStopped),
            old(self).live_of(instance_id@, component@) ==> {
                &&& r.1 is KillProcess
                &&& eq_except_liveness(old(self).sess(instance_id@, component@),
                    final(self).sess(instance_id@, component@))
                &&& final(self).sess(instance_id@, component@).pid is None
            },
            Self::agrees_outside(*old(self), *final(self), instance_id@, component@),
    {
        match self.find_index(instance_id, component) {
            Some(k) => {
                proof {
                    old(self).lemma_match_is_sess_idx(instance_id@, component@, k as int);
                }
                if self.sessions[k].live {
                    let s = &mut self.sessions[k];
                    s.pid = None;
                    s.live = false;
                    proof {
                        assert(self.sessions@[k as int].wf());
                        assert(self.wf());
                        self.lemma_match_is_sess_idx(instance_id@, component@, k as int);
                        Self::lemma_single_update_agrees(
                            *old(self), *self, instance_id@, component@, k as int);
                    }
                    (true, StopAction::KillProcess)
                } else {
                    proof {
                        self.lemma_match_is_sess_idx(instance_id@, component@, k as int);
                    }
                    (true, StopAction::AlreadyStopped)
                }
            }
            None => (true, StopAction::NoSession),
        }
    }

    /// Decides a request to forward input bytes to the identity's session:
    /// the caller may write exactly when a live session holds the input
    /// channel.  An unknown identity is `NotFound`; a dead one has no
    /// input channel left.
    pub fn write_to_process(&self, instance_id: &str, component: &str) -> (r: Result<(), AppError>)
        requires
            self.wf(),
        ensures
            r is Ok <==> self.live_of(instance_id@, component@),
            !self.has_session(instance_id@, component@) ==> (r matches Err(AppError::NotFound(m))
                && m@ == session_missing_msg(session_key(instance_id@, component@))),
            self.has_session(instance_id@, component@)
                && !self.sess(instance_id@, component@).live
                ==> (r matches Err(AppError::Process(m))
                    && m@ == no_input_channel_msg(session_key(instance_id@, component@))),
    {
        match self.find_index(instance_id, component) {
            Some(k) => {
                proof {
                    self.lemma_match_is_sess_idx(instance_id@, component@, k as int);
                }
                if self.sessions[k].live {
                    Ok(())
                } else {
                    let sid = session_id_of(instance_id, component);
                    Err(AppError::Process(concat2("session has no input channel: ", sid.as_str())))
                }
            }
            None => {
                let sid = session_id_of(instance_id, component);
                Err(AppError::NotFound(concat2("session not found: ", sid.as_str())))
            }
        }
    }

    /// Applies a terminal resize to the identity's session.  Only a live
    /// session has a terminal control handle: for it the recorded geometry
    /// is updated and the caller is told (by `true`) to resize the PTY;
    /// for a dead or unknown session the request is a silent no-op.
    pub fn resize_pty(&mut self, instance_id: &str, component: &str, rows: u16, cols: u16) -> (r: bool)
        requires
            old(self).wf(),
        ensures
            final(self).wf(),
            r == old(self).live_of(instance_id@, component@),
            !r ==> *final(self) == *old(self),
            r ==> {
                &&& final(self).has_session(instance_id@, component@)
                &&& final(self).sess(instance_id@, component@).pty_rows == rows
                &&& final(self).sess(instance_id@, component@).pty_cols == cols
                &&& eq_except_geometry(old(self).sess(instance_id@, component@),
                    final(self).sess(instance_id@, component@))
            },
            final(self).sessions@.len() == old(self).sessions@.len(),
            final(self).pty_rows == old(self).pty_rows,
            final(self).pty_cols == old(self).pty_cols,
            Self::agrees_outside(*old(self), *final(self), instance_id@, component@),
    {
        match self.find_index(instance_id, component) {
            Some(k) => {
                proof {
                    old(self).lemma_match_is_sess_idx(instance_id@, component@, k as int);
                }
                if self.sessions[k].live {
                    let s = &mut self.sessions[k];
                    s.pty_rows = rows;
                    s.pty_cols = cols;
                    proof {
                        assert(self.sessions@[k as int].wf());
                        assert(self.wf());
                        self.lemma_match_is_sess_idx(instance_id@, component@, k as int);
                        Self::lemma_single_update_agrees(
                            *old(self), *self, instance_id@, component@, k as int);
                    }
                    true
                } else {
                    false
                }
            }
            None => false,
        }
    }

    /// The terminal geometry last applied to the identity's session.
    pub fn pty_size(&self, instance_id: &str, component: &str) -> (r: Option<(u16, u16)>)
        requires
            self.wf(),
        ensures
            self.has_session(instance_id@, component@) ==> r == Some((
                self.sess(instance_id@, component@).pty_rows,
                self.sess(instance_id@, component@).pty_cols,
            )),
            !self.has_session(instance_id@, component@) ==> r is None,
    {
        match self.find_index(instance_id, component) {
            Some(k) => {
                proof {
                    self.lemma_match_is_sess_idx(instance_id@, component@, k as int);
                }
                Some((self.sessions[k].pty_rows, self.sessions[k].pty_cols))
            }
            None => None,
        }
    }

    /// Uptime of the identity's session in whole seconds, against the
    /// given clock reading; `None` for unknown identities.
    pub fn uptime_seconds_at(&self, instance_id: &str, component: &str, now_ms: u64) -> (r: Option<u64>)
        requires
            self.wf(),
        ensures
            self.has_session(instance_id@, component@) ==> r == Some(uptime_seconds(
                self.sess(instance_id@, component@).start_time_ms, now_ms)),
            !self.has_session(instance_id@, component@) ==> r is None,
    {
        match self.find_index(instance_id, component) {
            Some(k) => {
                proof {
                    self.lemma_match_is_sess_idx(instance_id@, component@, k as int);
                }
                let start = self.sessions[k].start_time_ms;
                if now_ms >= start {
                    Some((now_ms - start) / 1000)
                } else {
                    Some(0)
                }
            }
            None => None,
        }
    }

    /// Among sessions with pairwise distinct identities, the number
    /// matching `(i, c)` is one when a match exists and zero otherwise.
    proof fn lemma_count_matching_unique(ss: Seq<SessionState>, i: Seq<char>, c: Seq<char>)
        requires
            forall|k1: int, k2: int|
                #![trigger ss[k1], ss[k2]]
                0 <= k1 < ss.len() && 0 <= k2 < ss.len() && k1 != k2
                    ==> !(ss[k1].instance_id@ == ss[k2].instance_id@
                        && ss[k1].component@ == ss[k2].component@),
        ensures
            Self::count_matching(ss, i, c) == if exists|k: int|
                0 <= k < ss.len() && sess_matches(#[trigger] ss[k], i, c) { 1nat } else { 0nat },
        decreases ss.len(),
    {
        if ss.len() > 0 {
            let sub = ss.drop_last();
            assert(forall|k: int| 0 <= k < sub.len() ==> sub[k] == ss[k]);
            Self::lemma_count_matching_unique(sub, i, c);
            if sess_matches(ss.last(), i, c) {
                assert(!exists|k: int| 0 <= k < sub.len() && sess_matches(#[trigger] sub[k], i, c)) by {
                    if exists|k: int| 0 <= k < sub.len() && sess_matches(#[trigger] sub[k], i, c) {
                        let k = choose|k: int| 0 <= k < sub.len() && sess_matches(#[trigger] sub[k], i, c);
                        assert(ss[k].instance_id@ == ss[ss.len() - 1].instance_id@
                            && ss[k].component@ == ss[ss.len() - 1].component@);
                        assert(false);
                    }
                }
                assert(sess_matches(ss[ss.len() - 1], i, c));
            } else {
                if exists|k: int| 0 <= k < ss.len() && sess_matches(#[trigger] ss[k], i, c) {
                    let k = choose|k: int| 0 <= k < ss.len() && sess_matches(#[trigger] ss[k], i, c);
                    assert(k < sub.len() && sess_matches(sub[k], i, c));
                }
            }
        }
    }

    /// Under `wf` the registry holds exactly one entry for a registered
    /// identity and none for any other.
    pub proof fn lemma_entry_count(self, i: Seq<char>, c: Seq<char>)
        requires
            self.wf(),
        ensures
            self.entry_count(i, c) == if self.has_session(i, c) { 1nat } else { 0nat },
    {
        Self::lemma_count_matching_unique(self.sessions@, i, c);
    }

    /// Clears every session: pid and liveness go together, scrollbacks and
    /// identities stay.  Used at supervisor shutdown; the caller kills
    /// every process handle it still holds.
    pub fn cleanup(&mut self)
        requires
            old(self).wf(),
        ensures
            final(self).wf(),
            final(self).sessions@.len() == old(self).sessions@.len(),
            final(self).pty_rows == old(self).pty_rows,
            final(self).pty_cols == old(self).pty_cols,
            forall|k: int| 0 <= k < old(self).sessions@.len()
                ==> #[trigger] final(self).sessions@[k]
                    == with_handles_cleared(old(self).sessions@[k]),
            forall|i: Seq<char>, c: Seq<char>| #![trigger final(self).has_session(i, c)]
                final(self).has_session(i, c) == old(self).has_session(i, c),
            forall|i: Seq<char>, c: Seq<char>| #![trigger final(self).live_of(i, c)]
                !final(self).live_of(i, c),
            forall|i: Seq<char>, c: Seq<char>| #![trigger final(self).sess(i, c)]
                old(self).has_session(i, c)
                    ==> final(self).sess(i, c) == with_handles_cleared(old(self).sess(i, c)),
    {
        let n = self.sessions.len();
        let mut k: usize = 0;
        while k < n
            invariant
                n == old(self).sessions@.len(),
                self.sessions@.len() == n,
                k <= n,
                self.pty_rows == old(self).pty_rows,
                self.pty_cols == old(self).pty_cols,
                forall|j: int| 0 <= j < k ==> #[trigger] self.sessions@[j]
                    == with_handles_cleared(old(self).sessions@[j]),
                forall|j: int| k <= j < n ==> #[trigger] self.sessions@[j]
                    == old(self).sessions@[j],
            decreases n - k,
        {
            let s = &mut self.sessions[k];
            s.pid = None;
            s.live = false;
            k += 1;
        }
        proof {
            self.lemma_all_cleared_post(*old(self));
        }
    }

    /// From the per-index fact that every session of `m_old` was cleared,
    /// derive well-formedness and the identity-level shape of `self`.
    proof fn lemma_all_cleared_post(self, m_old: ProcessManager)
        requires
            m_old.wf(),
            self.sessions@.len() == m_old.sessions@.len(),
            forall|k: int| 0 <= k < m_old.sessions@.len()
                ==> #[trigger] self.sessions@[k] == with_handles_cleared(m_old.sessions@[k]),
        ensures
            self.wf(),
            forall|i: Seq<char>, c: Seq<char>| #![trigger self.has_session(i, c)]
                self.has_session(i, c) == m_old.has_session(i, c),
            forall|i: Seq<char>, c: Seq<char>| #![trigger self.live_of(i, c)]
                !self.live_of(i, c),
            forall|i: Seq<char>, c: Seq<char>| #![trigger self.sess(i, c)]
                m_old.has_session(i, c)
                    ==> self.sess(i, c) == with_handles_cleared(m_old.sess(i, c)),
    {
        assert(self.wf());
        assert forall|i: Seq<char>, c: Seq<char>|
            self.has_session(i, c) == m_old.has_session(i, c) by {
            if m_old.has_session(i, c) {
                let j = m_old.sess_idx(i, c);
                assert(sess_matches(self.sessions@[j], i, c));
            }
            if self.has_session(i, c) {
                let j = self.sess_idx(i, c);
                assert(sess_matches(m_old.sessions@[j], i, c));
            }
        }
        assert forall|i: Seq<char>, c: Seq<char>| m_old.has_session(i, c)
            implies self.sess(i, c) == with_handles_cleared(m_old.sess(i, c))
                && !self.sess(i, c).live by {
            let j = m_old.sess_idx(i, c);
            assert(sess_matches(self.sessions@[j], i, c));
            self.lemma_match_is_sess_idx(i, c, j);
        }
    }

    /// The components of instance `i` among the sessions `ss`, in
    /// registration order.
    pub open spec fn components_of(ss: Seq<SessionState>, i: Seq<char>) -> Seq<Seq<char>>
        decreases ss.len(),
    {
        if ss.len() == 0 {
            Seq::empty()
        } else {
            Self::components_of(ss.drop_last(), i) + if ss.last().instance_id@ == i {
                seq![ss.last().component@]
            } else {
                Seq::empty()
            }
        }
    }

    /// Stops every session of the instance, leaving other instances
    /// untouched, and reports per component that the stop succeeded.  The
    /// snapshot of components is taken and each is stopped independently,
    /// so the result lists every component the instance had registered, in
    /// registration order.  The caller kills the corresponding handles.
    pub fn stop_all_instance_processes(&mut self, instance_id: &str) -> (r: Vec<(String, bool)>)
        requires
            old(self).wf(),
        ensures
            final(self).wf(),
            final(self).sessions@.len() == old(self).sessions@.len(),
            final(self).pty_rows == old(self).pty_rows,
            final(self).pty_cols == old(self).pty_cols,
            r@.len() == Self::components_of(old(self).sessions@, instance_id@).len(),
            forall|m: int| 0 <= m < r@.len() ==> (#[trigger] r@[m]).1 == true
                && r@[m].0@ == Self::components_of(old(self).sessions@, instance_id@)[m],
            forall|i: Seq<char>, c: Seq<char>| #![trigger final(self).has_session(i, c)]
                final(self).has_session(i, c) == old(self).has_session(i, c),
            forall|c: Seq<char>| #![trigger final(self).live_of(instance_id@, c)]
                !final(self).live_of(instance_id@, c),
            forall|i: Seq<char>, c: Seq<char>| #![trigger final(self).sess(i, c)]
                old(self).has_session(i, c) ==> final(self).sess(i, c) == (if i == instance_id@ {
                    with_handles_cleared(old(self).sess(i, c))
                } else {
                    old(self).sess(i, c)
                }),
    {
        let ghost pre = *old(self);
        let mut r: Vec<(String, bool)> = Vec::new();
        let n = self.sessions.len();
        let mut k: usize = 0;
        while k < n
            invariant
                n == pre.sessions@.len(),
                self.sessions@.len() == n,
                k <= n,
                self.pty_rows == pre.pty_rows,
                self.pty_cols == pre.pty_cols,
                forall|j: int| 0 <= j < k ==> #[trigger] self.sessions@[j]
                    == (if pre.sessions@[j].instance_id@ == instance_id@ {
                        with_handles_cleared(pre.sessions@[j])
                    } else {
                        pre.sessions@[j]
                    }),
                forall|j: int| k <= j < n ==> #[trigger] self.sessions@[j] == pre.sessions@[j],
                r@.len() == Self::components_of(pre.sessions@.take(k as int), instance_id@).len(),
                forall|m: int| 0 <= m < r@.len() ==> (#[trigger] r@[m]).1 == true
                    && r@[m].0@ == Self::components_of(pre.sessions@.take(k as int), instance_id@)[m],
            decreases n - k,
        {
            let ghost taken = pre.sessions@.take(k as int);
            let ghost taken1 = pre.sessions@.take(k + 1 as int);
            proof {
                assert(taken1.drop_last() =~= taken);
                assert(taken1.last() == pre.sessions@[k as int]);
            }
            let matched = str_eq(self.sessions[k].instance_id.as_str(), instance_id);
            if matched {
                let comp = self.sessions[k].component.clone();
                let s = &mut self.sessions[k];
                s.pid = None;
                s.live = false;
                r.push((comp, true));
                proof {
                    assert(Self::components_of(taken1, instance_id@)
                        =~= Self::components_of(taken, instance_id@)
                            + seq![pre.sessions@[k as int].component@]);
                }
            } else {
                proof {
                    assert(Self::components_of(taken1, instance_id@)
                        =~= Self::components_of(taken, instance_id@));
                }
            }
            k += 1;
        }
        proof {
            assert(pre.sessions@.take(n as int) =~= pre.sessions@);
            self.lemma_instance_cleared_post(pre, instance_id@);
        }
        r
    }

    /// From the per-index fact that exactly the instance's sessions were
    /// cleared, derive well-formedness and the identity-level shape.
    proof fn lemma_instance_cleared_post(self, m_old: ProcessManager, i0: Seq<char>)
        requires
            m_old.wf(),
            self.sessions@.len() == m_old.sessions@.len(),
            forall|k: int| 0 <= k < m_old.sessions@.len()
                ==> #[trigger] self.sessions@[k] == (if m_old.sessions@[k].instance_id@ == i0 {
                    with_handles_cleared(m_old.sessions@[k])
                } else {
                    m_old.sessions@[k]
                }),
        ensures
            self.wf(),
            forall|i: Seq<char>, c: Seq<char>| #![trigger self.has_session(i, c)]
                self.has_session(i, c) == m_old.has_session(i, c),
            forall|c: Seq<char>| #![trigger self.live_of(i0, c)] !self.live_of(i0, c),
            forall|i: Seq<char>, c: Seq<char>| #![trigger self.sess(i, c)]
                m_old.has_session(i, c) ==> self.sess(i, c) == (if i == i0 {
                    with_handles_cleared(m_old.sess(i, c))
                } else {
                    m_old.sess(i, c)
                }),
    {
        assert(self.wf());
        assert forall|i: Seq<char>, c: Seq<char>|
            self.has_session(i, c) == m_old.has_session(i, c) by {
            if m_old.has_session(i, c) {
                let j = m_old.sess_idx(i, c);
                assert(sess_matches(self.sessions@[j], i, c));
            }
            if self.has_session(i, c) {
                let j = self.sess_idx(i, c);
                assert(sess_matches(m_old.sessions@[j], i, c));
            }
        }
        assert forall|i: Seq<char>, c: Seq<char>| m_old.has_session(i, c)
            implies self.sess(i, c) == (if i == i0 {
                with_handles_cleared(m_old.sess(i, c))
            } else {
                m_old.sess(i, c)
            }) by {
            let j = m_old.sess_idx(i, c);
            assert(sess_matches(self.sessions@[j], i, c));
            self.lemma_match_is_sess_idx(i, c, j);
        }
        assert forall|c: Seq<char>| !self.live_of(i0, c) by {
            if self.has_session(i0, c) {
                let j = self.sess_idx(i0, c);
                assert(sess_matches(m_old.sessions@[j], i0, c));
            }
        }
    }

    /// Whether a start request for the identity would create a process:
    /// true unless a live session already holds it ("not newly started").
    pub fn start_allowed(&self, instance_id: &str, component: &str) -> (r: bool)
        requires
            self.wf(),
        ensures
            r == self.can_start(instance_id@, component@),
    {
        !self.is_component_running(instance_id, component)
    }

    /// A copy of `buf` from index `start` to its end.
    fn clone_tail(buf: &Vec<String>, start: usize) -> (r: Vec<String>)
        requires
            start <= buf@.len(),
        ensures
            r.deep_view() == buf.deep_view().subrange(start as int, buf@.len() as int),
    {
        let len = buf.len();
        let mut r: Vec<String> = Vec::new();
        let mut j = start;
        while j < len
            invariant
                start <= j <= len,
                len == buf@.len(),
                r.deep_view() =~= buf.deep_view().subrange(start as int, j as int),
            decreases len - j,
        {
            let ghost r_pre = r@;
            proof {
                assert(r.deep_view().len() == r@.len());
            }
            r.push(buf[j].clone());
            proof {
                assert(r@[j - start] == buf@[j as int]);
                assert forall|m: int| 0 <= m < r@.len()
                    implies r.deep_view()[m]
                        == buf.deep_view().subrange(start as int, j + 1 as int)[m] by {
                    assert(r.deep_view()[m] == r@[m].deep_view());
                    if m < j - start {
                        assert(r@[m] == r_pre[m]);
                    }
                }
                assert(r.deep_view() =~= buf.deep_view().subrange(start as int, j + 1 as int));
            }
            j += 1;
        }
        r
    }

    /// Registers a session the caller has just spawned for the identity,
    /// against the given clock reading.
    ///
    /// When the identity was registered before (a restart), at most the
    /// last [`RESTART_KEEP_CHUNKS`] chunks of the previous scrollback are
    /// carried over, followed by the restart marker; a brand-new session's
    /// scrollback opens with the start marker.  Either way the new entry
    /// is live, holds the given pid, the supervisor's PTY geometry and the
    /// default buffer bound, and is the identity's only entry.
    pub fn register_started_at(&mut self, instance_id: &str, component: &str, pid: Option<u32>, now_ms: u64)
        requires
            old(self).wf(),
            old(self).can_start(instance_id@, component@),
        ensures
            final(self).wf(),
            final(self).pty_rows == old(self).pty_rows,
            final(self).pty_cols == old(self).pty_cols,
            final(self).has_session(instance_id@, component@),
            final(self).entry_count(instance_id@, component@) == 1,
            ({
                let s = final(self).sess(instance_id@, component@);
                &&& s.live
                &&& s.pid == pid
                &&& s.start_time_ms == now_ms
                &&& s.buffer_size == DEFAULT_BUFFER_BOUND
                &&& s.pty_rows == old(self).pty_rows
                &&& s.pty_cols == old(self).pty_cols
                &&& s.instance_id@ == instance_id@
                &&& s.component@ == component@
                &&& s.session_id@ == session_key(instance_id@, component@)
            }),
            old(self).has_session(instance_id@, component@)
                ==> final(self).buffer_of(instance_id@, component@) == last_up_to(
                    old(self).buffer_of(instance_id@, component@),
                    RESTART_KEEP_CHUNKS as int,
                ).push(SESSION_RESTART_MARKER@),
            !old(self).has_session(instance_id@, component@)
                ==> final(self).buffer_of(instance_id@, component@)
                    == seq![SESSION_START_MARKER@],
            final(self).sessions@.len() == old(self).sessions@.len()
                + if old(self).has_session(instance_id@, component@) { 0int } else { 1int },
            Self::agrees_outside(*old(self), *final(self), instance_id@, component@),
    {
        match self.find_index(instance_id, component) {
            Some(j) => {
                proof {
                    old(self).lemma_match_is_sess_idx(instance_id@, component@, j as int);
                }
                let old_buf_len = self.sessions[j].output_buffer.len();
                let keep = if old_buf_len > RESTART_KEEP_CHUNKS {
                    RESTART_KEEP_CHUNKS
                } else {
                    old_buf_len
                };
                let mut buffer = Self::clone_tail(&self.sessions[j].output_buffer, old_buf_len - keep);
                let ghost carried = last_up_to(
                    old(self).buffer_of(instance_id@, component@), RESTART_KEEP_CHUNKS as int);
                proof {
                    assert(buffer.deep_view() =~= carried);
                    assert(buffer.deep_view().len() == buffer@.len());
                }
                let ghost b_pre = buffer@;
                buffer.push(SESSION_RESTART_MARKER.to_owned());
                proof {
                    assert forall|m: int| 0 <= m < buffer@.len()
                        implies buffer.deep_view()[m] == carried.push(SESSION_RESTART_MARKER@)[m] by {
                        assert(buffer.deep_view()[m] == buffer@[m].deep_view());
                        if m < b_pre.len() {
                            assert(buffer@[m] == b_pre[m]);
                        }
                    }
                    assert(buffer.deep_view() =~= carried.push(SESSION_RESTART_MARKER@));
                }
                let rows = self.pty_rows;
                let cols = self.pty_cols;
                let s = &mut self.sessions[j];
                s.pid = pid;
                s.start_time_ms = now_ms;
                s.output_buffer = buffer;
                s.buffer_size = DEFAULT_BUFFER_BOUND;
                s.live = true;
                s.pty_rows = rows;
                s.pty_cols = cols;
                proof {
                    assert(self.sessions@[j as int].output_buffer.deep_view().len()
                        <= RESTART_KEEP_CHUNKS + 1);
                    assert(self.sessions@[j as int].wf());
                    assert(self.wf());
                    self.lemma_match_is_sess_idx(instance_id@, component@, j as int);
                    self.lemma_entry_count(instance_id@, component@);
                    Self::lemma_single_update_agrees(
                        *old(self), *self, instance_id@, component@, j as int);
                }
            }
            None => {
                let mut buffer: Vec<String> = Vec::new();
                buffer.push(SESSION_START_MARKER.to_owned());
                proof {
                    assert(buffer.deep_view() =~= seq![SESSION_START_MARKER@]);
                }
                let entry = SessionState {
                    instance_id: instance_id.to_owned(),
                    component: component.to_owned(),
                    session_id: session_id_of(instance_id, component),
                    pid,
                    start_time_ms: now_ms,
                    output_buffer: buffer,
                    buffer_size: DEFAULT_BUFFER_BOUND,
                    live: true,
                    pty_rows: self.pty_rows,
                    pty_cols: self.pty_cols,
                };
                self.sessions.push(entry);
                proof {
                    let ghost n = old(self).sessions@.len();
                    assert(self.sessions@[n as int].wf());
                    assert forall|k: int| 0 <= k < n
                        implies #[trigger] self.sessions@[k] == old(self).sessions@[k] by {}
                    assert forall|k: int| 0 <= k < n
                        implies !(self.sessions@[k].instance_id@ == instance_id@
                            && self.sessions@[k].component@ == component@) by {
                        if self.sessions@[k].instance_id@ == instance_id@
                            && self.sessions@[k].component@ == component@ {
                            assert(sess_matches(old(self).sessions@[k], instance_id@, component@));
                            assert(old(self).has_session(instance_id@, component@));
                        }
                    }
                    assert(self.wf());
                    self.lemma_match_is_sess_idx(instance_id@, component@, n as int);
                    self.lemma_entry_count(instance_id@, component@);
                    assert forall|i2: Seq<char>, c2: Seq<char>|
                        !(i2 == instance_id@ && c2 == component@) implies {
                        &&& old(self).has_session(i2, c2) == self.has_session(i2, c2)
                        &&& (old(self).has_session(i2, c2)
                            ==> old(self).sess(i2, c2) == self.sess(i2, c2))
                    } by {
                        if old(self).has_session(i2, c2) {
                            let k = old(self).sess_idx(i2, c2);
                            assert(sess_matches(self.sessions@[k], i2, c2));
                            self.lemma_match_is_sess_idx(i2, c2, k);
                            old(self).lemma_match_is_sess_idx(i2, c2, k);
                        }
                        if self.has_session(i2, c2) {
                            let k = self.sess_idx(i2, c2);
                            assert(k != n);
                            assert(sess_matches(old(self).sessions@[k], i2, c2));
                            old(self).lemma_match_is_sess_idx(i2, c2, k);
                        }
                    }
                }
            }
        }
    }

    /// [`Self::register_started_at`] against the current wall clock.  The
    /// start timestamp is whatever the clock read; everything else is as
    /// exact as there.
    pub fn register_started(&mut self, instance_id: &str, component: &str, pid: Option<u32>)
        requires
            old(self).wf(),
            old(self).can_start(instance_id@, component@),
        ensures
            final(self).wf(),
            final(self).pty_rows == old(self).pty_rows,
            final(self).pty_cols == old(self).pty_cols,
            final(self).has_session(instance_id@, component@),
            final(self).entry_count(instance_id@, component@) == 1,
            ({
                let s = final(self).sess(instance_id@, component@);
                &&& s.live
                &&& s.pid == pid
                &&& s.buffer_size == DEFAULT_BUFFER_BOUND
                &&& s.pty_rows == old(self).pty_rows
                &&& s.pty_cols == old(self).pty_cols
                &&& s.instance_id@ == instance_id@
                &&& s.component@ == component@
                &&& s.session_id@ == session_key(instance_id@, component@)
            }),
            old(self).has_session(instance_id@, component@)
                ==> final(self).buffer_of(instance_id@, component@) == last_up_to(
                    old(self).buffer_of(instance_id@, component@),
                    RESTART_KEEP_CHUNKS as int,
                ).push(SESSION_RESTART_MARKER@),
            !old(self).has_session(instance_id@, component@)
                ==> final(self).buffer_of(instance_id@, component@)
                    == seq![SESSION_START_MARKER@],
            final(self).sessions@.len() == old(self).sessions@.len()
                + if old(self).has_session(instance_id@, component@) { 0int } else { 1int },
            Self::agrees_outside(*old(self), *final(self), instance_id@, component@),
    {
        let now = current_time_ms();
        self.register_started_at(instance_id, component, pid, now);
    }

    /// Uptime of the identity's session in whole seconds against the
    /// current wall clock; `Some` exactly for registered identities.
    pub fn get_process_uptime(&self, instance_id: &str, component: &str) -> (r: Option<u64>)
        requires
            self.wf(),
        ensures
            r is Some <==> self.has_session(instance_id@, component@),
    {
        let now = current_time_ms();
        self.uptime_seconds_at(instance_id, component, now)
    }

    /// Point sample of the identity's process: CPU share in whole percent
    /// and resident memory in whole mebibytes, as
    /// [`resources_from_sample`] reads the sample taken for the recorded
    /// pid.  With no recorded pid — unknown identity or dead session —
    /// the result is `(0, 0)` and no error.
    pub fn get_process_resources(&self, instance_id: &str, component: &str) -> (r: (u64, u64))
        requires
            self.wf(),
        ensures
            self.pid_of(instance_id@, component@) is None ==> r == (0u64, 0u64),
    {
        match self.get_process_pid(instance_id, component) {
            Some(pid) => resources_from_sample(sample_process_usage(pid)),
            None => (0, 0),
        }
    }
}

/// What one resource sample means to callers: the CPU share as sampled,
/// the resident memory scaled from bytes to whole mebibytes; a missing
/// sample — the OS no longer knows the pid — reads as `(0, 0)`.
pub fn resources_from_sample(sample: Option<(u64, u64)>) -> (r: (u64, u64))
    ensures
        (sample matches Some(s) ==> r == (s.0, s.1 / 1048576)),
        sample is None ==> r == (0u64, 0u64),
{
    match sample {
        Some((cpu_percent, memory_bytes)) => (cpu_percent, memory_bytes / 1048576),
        None => (0, 0),
    }
}

/// Reads the current wall clock, in milliseconds since the Unix epoch.
///
/// Relies on `chrono::Utc::now` followed by
/// `chrono::DateTime::timestamp_millis`; the two calls are inseparable
/// because the intermediate `DateTime` value never leaves the body.  The
/// result depends on the clock, so nothing is promised of it.
#[verifier::external_body]
fn current_time_ms() -> u64 {
    chrono::Utc::now().timestamp_millis() as u64
}

/// Samples the CPU share (whole percent) and resident memory (bytes) of
/// one OS process, `None` when the OS knows no such process.
///
/// Relies on `sysinfo::System::refresh_processes` followed by
/// `sysinfo::System::process` and `sysinfo::Process::{cpu_usage, memory}`;
/// the calls are inseparable because the `Process` is borrowed from the
/// `System` they refresh.  The sample depends on the machine's state at
/// call time, so nothing is promised of it.
#[verifier::external_body]
fn sample_process_usage(pid: u32) -> Option<(u64, u64)> {
    let mut sys = sysinfo::System::new();
    let spid = sysinfo::Pid::from_u32(pid);
    sys.refresh_processes(sysinfo::ProcessesToUpdate::Some(&[spid]), true);
    match sys.process(spid) {
        Some(p) => Some((p.cpu_usage() as u64, p.memory())),
        None => None,
    }
}

} // verus!
