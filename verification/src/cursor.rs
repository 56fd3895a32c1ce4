//! A mathematical model of stream cursors.
//!
//! The remote log is modeled as the sequence of its entry identifiers in
//! log order. A cursor is either one of the three reserved wire tokens or
//! a literal entry identifier, and resolves to a position in that
//! sequence. This module states what one consume step may do to the
//! cursor and proves that, across any sequence of steps whose reads obey
//! the service's delivery guarantee, the resolved position never
//! decreases, and that the live sentinel is never left once reached.

use vstd::prelude::*;

verus! {

/// Wire token for the beginning of the stream; in a group-scoped read it
/// addresses the member's pending entries instead.
pub open spec fn spec_beginning() -> Seq<char> {
    "0"@
}

/// Wire token for the current end of the stream: deliver only entries
/// appended from now on.
pub open spec fn spec_end() -> Seq<char> {
    "$"@
}

/// Group-mode wire token for live delivery: entries never delivered to
/// any member before.
pub open spec fn spec_live() -> Seq<char> {
    ">"@
}

/// Entry identifiers are literal: the log never holds a reserved token.
pub open spec fn log_ok(log: Seq<Seq<char>>) -> bool {
    forall|k: int|
        0 <= k < log.len() ==> {
            &&& #[trigger] log[k] != spec_beginning()
            &&& log[k] != spec_end()
            &&& log[k] != spec_live()
        }
}

/// A cursor is valid for a given log when it is a reserved token or the
/// identifier of an entry of the log.
pub open spec fn cursor_ok(log: Seq<Seq<char>>, c: Seq<char>) -> bool {
    ||| c == spec_beginning()
    ||| c == spec_end()
    ||| c == spec_live()
    ||| log.contains(c)
}

/// The log position a cursor resolves to: a read at the cursor delivers
/// entries strictly beyond this index. The beginning resolves to zero,
/// the two tail tokens to the length of the log, and a literal
/// identifier to the slot just past its entry.
pub open spec fn cursor_pos(log: Seq<Seq<char>>, c: Seq<char>) -> int {
    if c == spec_beginning() {
        0
    } else if c == spec_end() || c == spec_live() {
        log.len() as int
    } else {
        log.index_of(c) + 1
    }
}

/// What one consume step may do to the cursor, given the identifiers the
/// read delivered: leave it in place, advance it to a delivered
/// identifier, or — when an empty reply shows the pending backlog is
/// exhausted — switch to the live sentinel.
pub open spec fn cursor_step(pre: Seq<char>, post: Seq<char>, batch: Seq<Seq<char>>) -> bool {
    ||| post == pre
    ||| (batch.len() == 0 && post == spec_live())
    ||| batch.contains(post)
}

/// The service's delivery guarantee: a read at a cursor returns only
/// entries of the log that lie strictly beyond the cursor's resolved
/// position.
pub open spec fn batch_beyond(log: Seq<Seq<char>>, cursor: Seq<char>, batch: Seq<Seq<char>>) -> bool {
    forall|k: int|
        0 <= k < batch.len() ==> {
            &&& log.contains(#[trigger] batch[k])
            &&& cursor_pos(log, batch[k]) > cursor_pos(log, cursor)
        }
}

/// The three reserved tokens are pairwise distinct.
pub proof fn lemma_tokens_distinct()
    ensures
        spec_beginning() != spec_end(),
        spec_beginning() != spec_live(),
        spec_end() != spec_live(),
{
    reveal_strlit("0");
    reveal_strlit("$");
    reveal_strlit(">");
    assert(spec_beginning()[0] != spec_end()[0]);
    assert(spec_beginning()[0] != spec_live()[0]);
    assert(spec_end()[0] != spec_live()[0]);
}

/// A valid cursor resolves to a position within the log's bounds.
pub proof fn lemma_cursor_pos_in_range(log: Seq<Seq<char>>, c: Seq<char>)
    requires
        cursor_ok(log, c),
    ensures
        0 <= cursor_pos(log, c) <= log.len(),
{
    if c != spec_beginning() && c != spec_end() && c != spec_live() {
        assert(log.contains(c));
        let i = log.index_of(c);
        assert(0 <= i < log.len() && log[i] == c);
    }
}

/// One step never moves a valid cursor backward, and leaves it valid.
pub proof fn lemma_cursor_step_monotonic(
    log: Seq<Seq<char>>,
    pre: Seq<char>,
    post: Seq<char>,
    batch: Seq<Seq<char>>,
)
    requires
        cursor_ok(log, pre),
        batch_beyond(log, pre, batch),
        cursor_step(pre, post, batch),
    ensures
        cursor_pos(log, pre) <= cursor_pos(log, post),
        cursor_ok(log, post),
{
    lemma_tokens_distinct();
    if post == pre {
    } else if batch.len() == 0 && post == spec_live() {
        lemma_cursor_pos_in_range(log, pre);
    } else {
        assert(batch.contains(post));
        let k = choose|k: int| 0 <= k < batch.len() && batch[k] == post;
        assert(0 <= k < batch.len() && batch[k] == post);
        assert(cursor_pos(log, batch[k]) > cursor_pos(log, pre));
    }
}

/// Once the cursor is the live sentinel, no step obeying the delivery
/// guarantee moves it anywhere else: live delivery is irreversible.
pub proof fn lemma_live_is_absorbing(
    log: Seq<Seq<char>>,
    pre: Seq<char>,
    post: Seq<char>,
    batch: Seq<Seq<char>>,
)
    requires
        log_ok(log),
        batch_beyond(log, pre, batch),
        cursor_step(pre, post, batch),
        pre == spec_live(),
    ensures
        post == spec_live(),
{
    lemma_tokens_distinct();
    if post != pre && !(batch.len() == 0 && post == spec_live()) {
        assert(batch.contains(post));
        let k = choose|k: int| 0 <= k < batch.len() && batch[k] == post;
        assert(0 <= k < batch.len() && batch[k] == post);
        assert(log.contains(batch[k]));
        let i = log.index_of(batch[k]);
        assert(0 <= i < log.len() && log[i] == batch[k]);
        assert(cursor_pos(log, batch[k]) <= log.len());
        assert(cursor_pos(log, batch[k]) > cursor_pos(log, pre));
        assert(false);
    }
}

/// Every cursor along a trace of steps is valid for the log.
proof fn lemma_trace_cursor_ok(
    log: Seq<Seq<char>>,
    cursors: Seq<Seq<char>>,
    batches: Seq<Seq<Seq<char>>>,
    n: int,
)
    requires
        cursors.len() == batches.len() + 1,
        cursor_ok(log, cursors[0]),
        forall|i: int|
            0 <= i < batches.len() ==> batch_beyond(log, #[trigger] cursors[i], batches[i])
                && cursor_step(cursors[i], cursors[i + 1], batches[i]),
        0 <= n < cursors.len(),
    ensures
        cursor_ok(log, cursors[n]),
    decreases n,
{
    if n > 0 {
        lemma_trace_cursor_ok(log, cursors, batches, n - 1);
        lemma_cursor_step_monotonic(log, cursors[n - 1], cursors[n], batches[n - 1]);
    }
}

/// The resolved position at one trace index is no greater than at any
/// later index.
proof fn lemma_trace_pos_le(
    log: Seq<Seq<char>>,
    cursors: Seq<Seq<char>>,
    batches: Seq<Seq<Seq<char>>>,
    i: int,
    j: int,
)
    requires
        cursors.len() == batches.len() + 1,
        cursor_ok(log, cursors[0]),
        forall|i: int|
            0 <= i < batches.len() ==> batch_beyond(log, #[trigger] cursors[i], batches[i])
                && cursor_step(cursors[i], cursors[i + 1], batches[i]),
        0 <= i <= j < cursors.len(),
    ensures
        cursor_pos(log, cursors[i]) <= cursor_pos(log, cursors[j]),
    decreases j - i,
{
    if i < j {
        lemma_trace_pos_le(log, cursors, batches, i, j - 1);
        lemma_trace_cursor_ok(log, cursors, batches, j - 1);
        lemma_cursor_step_monotonic(log, cursors[j - 1], cursors[j], batches[j - 1]);
    }
}

/// Cursor monotonicity: across any sequence of consume steps that starts
/// at a valid cursor and whose reads obey the delivery guarantee, the
/// cursor's resolved log position is non-decreasing.
pub proof fn lemma_cursor_monotonic(
    log: Seq<Seq<char>>,
    cursors: Seq<Seq<char>>,
    batches: Seq<Seq<Seq<char>>>,
)
    requires
        cursors.len() == batches.len() + 1,
        cursor_ok(log, cursors[0]),
        forall|i: int|
            0 <= i < batches.len() ==> batch_beyond(log, #[trigger] cursors[i], batches[i])
                && cursor_step(cursors[i], cursors[i + 1], batches[i]),
    ensures
        forall|i: int, j: int|
            0 <= i <= j < cursors.len() ==> cursor_pos(log, #[trigger] cursors[i]) <= cursor_pos(
                log,
                #[trigger] cursors[j],
            ),
{
    assert forall|i: int, j: int| 0 <= i <= j < cursors.len() implies cursor_pos(
        log,
        #[trigger] cursors[i],
    ) <= cursor_pos(log, #[trigger] cursors[j]) by {
        lemma_trace_pos_le(log, cursors, batches, i, j);
    }
}

} // verus!
