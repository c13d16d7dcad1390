//! The publish/restore discipline, stated and proved over the scope's view.
//!
//! A scope's observable state is its view, an `Option<T>`. Each `Scope::scoped`
//! call publishes one value and, on return, restores the state it found; the
//! captured prior states of the nested calls that are still running form a
//! stack, carried here explicitly where the executable code leaves it on the
//! call stack. The lemmas below state the discipline's guarantees for every
//! state, every value and every finite nesting depth.

use vstd::prelude::*;

verus! {

/// One publication: the cell moves to the published value and the prior state
/// is captured on the stack of pending restorations.
pub open spec fn publish_step<T>(
    state: Option<T>,
    pending: Seq<Option<T>>,
    value: T,
) -> (Option<T>, Seq<Option<T>>) {
    (Some(value), pending.push(state))
}

/// One restoration: the cell moves back to the most recently captured state,
/// which leaves the stack of pending restorations.
pub open spec fn restore_step<T>(state: Option<T>, pending: Seq<Option<T>>) -> (
    Option<T>,
    Seq<Option<T>>,
)
    recommends
        pending.len() > 0,
{
    (pending.last(), pending.drop_last())
}

/// What a read observes in a given state: the published value, or absence.
pub open spec fn read_of<T>(state: Option<T>) -> Option<T> {
    state
}

/// The state reached by publishing each of the given values in order, as
/// nested `scoped` calls do.
pub open spec fn publish_all<T>(
    state: Option<T>,
    pending: Seq<Option<T>>,
    values: Seq<T>,
) -> (Option<T>, Seq<Option<T>>)
    decreases values.len(),
{
    if values.len() == 0 {
        (state, pending)
    } else {
        let (inner_state, inner_pending) = publish_step(state, pending, values.first());
        publish_all(inner_state, inner_pending, values.drop_first())
    }
}

/// The state reached by running the given number of restorations, as the
/// returns of nested `scoped` calls do, innermost first.
pub open spec fn restore_all<T>(state: Option<T>, pending: Seq<Option<T>>, count: nat) -> (
    Option<T>,
    Seq<Option<T>>,
)
    decreases count,
{
    if count == 0 {
        (state, pending)
    } else {
        let (outer_state, outer_pending) = restore_step(state, pending);
        restore_all(outer_state, outer_pending, (count - 1) as nat)
    }
}

/// A fresh scope holds nothing: before any publication, a read observes
/// absence.
pub proof fn law_fresh_scope_reads_absent<T>()
    ensures
        read_of::<T>(None) is None,
{
}

/// While a publication is active, a read observes exactly the published
/// value, whatever was active before.
pub proof fn law_publish_visible<T>(state: Option<T>, pending: Seq<Option<T>>, value: T)
    ensures
        read_of(publish_step(state, pending, value).0) == Some(value),
{
}

/// Restoring the record captured by a publication puts the cell back into
/// exactly the state the publication found, and leaves the pending
/// restorations as they were.
pub proof fn law_restore_returns_prior<T>(state: Option<T>, pending: Seq<Option<T>>, value: T)
    ensures
        ({
            let (published, captured) = publish_step(state, pending, value);
            restore_step(published, captured)
        }) == (state, pending),
{
    assert(pending.push(state).drop_last() =~= pending);
}

/// Restorations can be peeled off at either end: running `count` of them is
/// running `count - 1` and then one more.
proof fn lemma_restore_all_unfold_last<T>(state: Option<T>, pending: Seq<Option<T>>, count: nat)
    requires
        count >= 1,
    ensures
        restore_all(state, pending, count) == ({
            let (s, p) = restore_all(state, pending, (count - 1) as nat);
            restore_step(s, p)
        }),
    decreases count,
{
    let (s1, p1) = restore_step(state, pending);
    assert(restore_all(state, pending, count) == restore_all(s1, p1, (count - 1) as nat));
    if count > 1 {
        lemma_restore_all_unfold_last(s1, p1, (count - 1) as nat);
        assert(restore_all(state, pending, (count - 1) as nat) == restore_all(
            s1,
            p1,
            (count - 2) as nat,
        ));
    } else {
        assert(restore_all(s1, p1, 0) == (s1, p1));
        assert(restore_all(state, pending, 0) == (state, pending));
    }
}

/// Nesting is last-in, first-out: after publishing any sequence of values,
/// a read observes the innermost one, and running one restoration per
/// publication returns the cell to exactly the state before the outermost
/// publication — at any finite nesting depth.
pub proof fn law_nested_lifo<T>(state: Option<T>, pending: Seq<Option<T>>, values: Seq<T>)
    ensures
        values.len() > 0 ==> read_of(publish_all(state, pending, values).0) == Some(
            values.last(),
        ),
        ({
            let (innermost, captured) = publish_all(state, pending, values);
            restore_all(innermost, captured, values.len())
        }) == (state, pending),
    decreases values.len(),
{
    if values.len() > 0 {
        let (inner_state, inner_pending) = publish_step(state, pending, values.first());
        law_nested_lifo(inner_state, inner_pending, values.drop_first());
        if values.len() == 1 {
            assert(values.last() == values.first());
        } else {
            assert(values.drop_first().last() == values.last());
        }
        let (innermost, captured) = publish_all(state, pending, values);
        lemma_restore_all_unfold_last(innermost, captured, values.len());
        assert(restore_all(innermost, captured, (values.len() - 1) as nat) == (
            inner_state,
            inner_pending,
        ));
        assert(inner_pending.last() == state);
        assert(inner_pending.drop_last() =~= pending);
    }
}

} // verus!
