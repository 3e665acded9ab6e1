//! Registry-wide laws: properties that relate several supervisor
//! operations, proved once and for all from their contracts.

use vstd::prelude::*;
use crate::manager::ProcessManager;
use crate::session::{last_up_to, RESTART_KEEP_CHUNKS, SESSION_RESTART_MARKER};

verus! {

/// The scrollback that results from appending `chunks` one at a time to
/// `b0`, each append enforcing the bound `bound` by evicting the oldest
/// chunks — the effect of a run of `add_output` calls.
pub open spec fn buffer_after_appends(b0: Seq<Seq<char>>, chunks: Seq<Seq<char>>, bound: int) -> Seq<Seq<char>>
    decreases chunks.len(),
{
    if chunks.len() == 0 {
        b0
    } else {
        last_up_to(buffer_after_appends(b0, chunks.drop_last(), bound).push(chunks.last()), bound)
    }
}

/// Evicting down to `bound`, appending once more and evicting again is
/// the same as appending first and evicting once.
proof fn lemma_last_up_to_push(x: Seq<Seq<char>>, e: Seq<char>, bound: int)
    requires
        bound >= 1,
    ensures
        last_up_to(last_up_to(x, bound).push(e), bound) =~= last_up_to(x.push(e), bound),
{
}

/// A session that appends chunk after chunk holds exactly the most recent
/// `bound` of everything ever appended, in original order: starting from
/// a scrollback within its bound, any run of bounded appends ends at the
/// last `bound` elements of the concatenation.  In particular, once the
/// appends outnumber the bound, the scrollback is exactly the last
/// `bound` chunks.
pub proof fn lemma_appends_keep_last_bound(b0: Seq<Seq<char>>, chunks: Seq<Seq<char>>, bound: int)
    requires
        bound >= 1,
        b0.len() <= bound,
    ensures
        buffer_after_appends(b0, chunks, bound) == last_up_to(b0 + chunks, bound),
    decreases chunks.len(),
{
    if chunks.len() == 0 {
        assert(b0 + chunks =~= b0);
        assert(last_up_to(b0, bound) =~= b0);
    } else {
        let sub = chunks.drop_last();
        lemma_appends_keep_last_bound(b0, sub, bound);
        lemma_last_up_to_push(b0 + sub, chunks.last(), bound);
        assert((b0 + sub).push(chunks.last()) =~= b0 + chunks);
    }
}

/// A start request for an identity whose session is live is refused —
/// "not newly started" — and the registry keeps exactly one entry for
/// that identity, so no duplicate can ever be created.
pub proof fn lemma_live_session_is_exclusive(m: ProcessManager, i: Seq<char>, c: Seq<char>)
    requires
        m.wf(),
        m.live_of(i, c),
    ensures
        !m.can_start(i, c),
        m.entry_count(i, c) == 1,
{
    m.lemma_entry_count(i, c);
}

/// Restarting a session preserves at most the last
/// [`RESTART_KEEP_CHUNKS`] chunks of the prior scrollback, followed by
/// the restart marker, and the new session's output then follows the
/// marker: as long as the whole fits the buffer bound, a run of appends
/// after the restart yields precisely carried tail, marker, new chunks.
pub proof fn lemma_restart_tail_then_new_output(prior: Seq<Seq<char>>, appended: Seq<Seq<char>>, bound: int)
    requires
        bound >= 1,
        last_up_to(prior, RESTART_KEEP_CHUNKS as int).push(SESSION_RESTART_MARKER@).len()
            + appended.len() <= bound,
    ensures
        buffer_after_appends(
            last_up_to(prior, RESTART_KEEP_CHUNKS as int).push(SESSION_RESTART_MARKER@),
            appended,
            bound,
        ) == last_up_to(prior, RESTART_KEEP_CHUNKS as int).push(SESSION_RESTART_MARKER@) + appended,
        last_up_to(prior, RESTART_KEEP_CHUNKS as int).len() <= RESTART_KEEP_CHUNKS as int,
{
    let carried = last_up_to(prior, RESTART_KEEP_CHUNKS as int).push(SESSION_RESTART_MARKER@);
    lemma_appends_keep_last_bound(carried, appended, bound);
    assert(last_up_to(carried + appended, bound) =~= carried + appended);
}

} // verus!
