//! Laws of the token counter.
//!
//! The tasks that share a counter act on it in atomic steps, so all the steps on it stand in one
//! order, in which each meets the value that the one before it left.

use std::sync::atomic::AtomicUsize;
use vstd::prelude::*;
use crate::cell::UpdateView;
use crate::primitives::Caller;
use crate::refill::RefillTask;
use crate::serve::{AcquireTask, FastAcquireTask};
use crate::tokens::TokenOp;

verus! {

/// The value of `cell` after `steps`.
pub open spec fn count(cell: AtomicUsize, steps: Seq<UpdateView>) -> usize {
    if steps.len() == 0 {
        crate::cell::initial_count(cell)
    } else {
        steps.last().after()
    }
}

/// Whether `steps` are all the steps on `cell` so far, in their order.
pub open spec fn history(cell: AtomicUsize, steps: Seq<UpdateView>) -> bool {
    forall|i: int|
        0 <= i < steps.len() ==> {
            &&& (#[trigger] steps[i]).performs(cell, steps[i].op)
            &&& steps[i].before == count(cell, steps.take(i))
        }
}

/// Whether nothing was done but to take tokens and to refill as a limiter with these limits does.
pub open spec fn limited(steps: Seq<UpdateView>, capacity: usize, refill_amount: usize) -> bool {
    forall|i: int|
        0 <= i < steps.len() ==> (#[trigger] steps[i]).op is Take || steps[i].op == (
        TokenOp::Refill { capacity, refill_amount })
}

/// The number of tokens that `steps` took.
pub open spec fn total_taken(steps: Seq<UpdateView>) -> int
    decreases steps.len(),
{
    if steps.len() == 0 {
        0
    } else {
        total_taken(steps.drop_last()) + match steps.last().op {
            TokenOp::Take(n) => if steps.last().stored {
                n as int
            } else {
                0
            },
            TokenOp::Refill { .. } => 0,
        }
    }
}

/// The number of tokens that `steps` added.
pub open spec fn total_added(steps: Seq<UpdateView>) -> int
    decreases steps.len(),
{
    if steps.len() == 0 {
        0
    } else {
        total_added(steps.drop_last()) + match steps.last().op {
            TokenOp::Take(_) => 0,
            TokenOp::Refill { .. } => steps.last().after() - steps.last().before,
        }
    }
}

/// The number of refills among `steps`, also those that added nothing.
pub open spec fn refills(steps: Seq<UpdateView>) -> nat
    decreases steps.len(),
{
    if steps.len() == 0 {
        0
    } else {
        refills(steps.drop_last()) + match steps.last().op {
            TokenOp::Take(_) => 0nat,
            TokenOp::Refill { .. } => 1nat,
        }
    }
}

/// The tasks of a `Quota` do nothing to its counter but what its limits allow: steps that stand in
/// their logs are attempts to take tokens, and refills of the task that refills.
pub proof fn law_quota_is_limited(
    steps: Seq<UpdateView>,
    capacity: usize,
    refill_amount: usize,
    refill: RefillTask,
    acquire: AcquireTask,
)
    requires
        refill.wf(),
        refill.op() == (TokenOp::Refill { capacity, refill_amount }),
        acquire.wf(),
        forall|i: int|
            0 <= i < steps.len() ==> refill.steps().contains(#[trigger] steps[i])
                || acquire.steps().contains(steps[i]),
    ensures
        limited(steps, capacity, refill_amount),
{
}

/// The tasks and the callers of a `FastQuota` do nothing to its counter but what its limits allow:
/// steps that stand in their logs are attempts to take tokens, and refills of the task that
/// refills.
pub proof fn law_fast_quota_is_limited<'a>(
    steps: Seq<UpdateView>,
    capacity: usize,
    refill_amount: usize,
    refill: RefillTask,
    acquire: FastAcquireTask<'a>,
    callers: Seq<Caller>,
)
    requires
        refill.wf(),
        refill.op() == (TokenOp::Refill { capacity, refill_amount }),
        acquire.wf(),
        forall|k: int| 0 <= k < callers.len() ==> (#[trigger] callers[k]).wf(),
        forall|i: int|
            0 <= i < steps.len() ==> refill.steps().contains(#[trigger] steps[i])
                || acquire.steps().contains(steps[i]) || exists|k: int|
                0 <= k < callers.len() && (#[trigger] callers[k]).steps().contains(steps[i]),
    ensures
        limited(steps, capacity, refill_amount),
{
}

/// What is known of the steps but the last one.
proof fn lemma_drop_last(cell: AtomicUsize, steps: Seq<UpdateView>)
    requires
        steps.len() > 0,
        history(cell, steps),
    ensures
        history(cell, steps.drop_last()),
        steps.last().performs(cell, steps.last().op),
        steps.last().before == count(cell, steps.drop_last()),
{
    let rest = steps.drop_last();
    assert(steps.take(steps.len() - 1) == rest);
    assert forall|i: int| 0 <= i < rest.len() implies (#[trigger] rest[i]).performs(
        cell,
        rest[i].op,
    ) && rest[i].before == count(cell, rest.take(i)) by {
        assert(steps[i] == rest[i]);
        assert(steps.take(i) == rest.take(i));
    }
}

/// However the steps on a counter fall, it never holds more than the capacity.
pub proof fn law_never_past_capacity(
    cell: AtomicUsize,
    steps: Seq<UpdateView>,
    capacity: usize,
    refill_amount: usize,
)
    requires
        crate::cell::initial_count(cell) <= capacity,
        history(cell, steps),
        limited(steps, capacity, refill_amount),
    ensures
        count(cell, steps) <= capacity,
    decreases steps.len(),
{
    if steps.len() > 0 {
        lemma_drop_last(cell, steps);
        assert(limited(steps.drop_last(), capacity, refill_amount));
        law_never_past_capacity(cell, steps.drop_last(), capacity, refill_amount);
    }
}

/// Tokens are neither lost nor made: what a counter holds, and what was taken from it, is what it
/// started with and what was added to it.
pub proof fn law_tokens_are_conserved(cell: AtomicUsize, steps: Seq<UpdateView>)
    requires
        history(cell, steps),
    ensures
        count(cell, steps) + total_taken(steps) == crate::cell::initial_count(cell)
            + total_added(steps),
    decreases steps.len(),
{
    if steps.len() > 0 {
        lemma_drop_last(cell, steps);
        law_tokens_are_conserved(cell, steps.drop_last());
    }
}

/// The rate is bounded: between them, however many callers there are, they never take more than
/// what the counter started with and `refill_amount` for every refill.
pub proof fn law_rate_is_bounded(
    cell: AtomicUsize,
    steps: Seq<UpdateView>,
    capacity: usize,
    refill_amount: usize,
)
    requires
        history(cell, steps),
        limited(steps, capacity, refill_amount),
    ensures
        total_taken(steps) <= crate::cell::initial_count(cell) + refills(steps)
            * refill_amount,
{
    law_tokens_are_conserved(cell, steps);
    lemma_added_bounded(cell, steps, capacity, refill_amount);
}

/// No refill adds more than `refill_amount`.
proof fn lemma_added_bounded(
    cell: AtomicUsize,
    steps: Seq<UpdateView>,
    capacity: usize,
    refill_amount: usize,
)
    requires
        history(cell, steps),
        limited(steps, capacity, refill_amount),
    ensures
        total_added(steps) <= refills(steps) * refill_amount,
    decreases steps.len(),
{
    if steps.len() > 0 {
        lemma_drop_last(cell, steps);
        assert(limited(steps.drop_last(), capacity, refill_amount));
        lemma_added_bounded(cell, steps.drop_last(), capacity, refill_amount);
        let k = refills(steps.drop_last());
        assert((k + 1) * refill_amount == k * refill_amount + refill_amount) by (nonlinear_arith);
    } else {
        assert(refills(steps) * refill_amount == 0) by (nonlinear_arith)
            requires
                refills(steps) == 0,
        ;
    }
}

/// While nobody takes tokens, every refill adds `refill_amount` until the counter stands at the
/// capacity, and there it stays: whatever happened in the first `done` steps, where the others are
/// refills the counter then holds what it held and what they add, up to the capacity.
pub proof fn law_refills_fill_up(
    cell: AtomicUsize,
    steps: Seq<UpdateView>,
    capacity: usize,
    refill_amount: usize,
    done: int,
)
    requires
        crate::cell::initial_count(cell) <= capacity,
        history(cell, steps),
        limited(steps, capacity, refill_amount),
        0 <= done <= steps.len(),
        forall|i: int|
            done <= i < steps.len() ==> (#[trigger] steps[i]).op == (TokenOp::Refill {
                capacity,
                refill_amount,
            }),
    ensures
        count(cell, steps) == crate::laws::trace::filled(
            count(cell, steps.take(done)),
            capacity,
            refill_amount,
            steps.len() - done,
        ),
    decreases steps.len(),
{
    let rest = steps.drop_last();
    if done == steps.len() {
        assert(steps.take(done) == steps);
        law_never_past_capacity(cell, steps, capacity, refill_amount);
        crate::laws::trace::lemma_unfilled(count(cell, steps), capacity, refill_amount);
    } else {
        lemma_drop_last(cell, steps);
        assert(limited(rest, capacity, refill_amount));
        assert forall|i: int| done <= i < rest.len() implies (#[trigger] rest[i]).op == (
        TokenOp::Refill { capacity, refill_amount }) by {
            assert(steps[i] == rest[i]);
        }
        law_refills_fill_up(cell, rest, capacity, refill_amount, done);
        assert(rest.take(done) == steps.take(done));
        lemma_prefix(cell, steps, done);
        law_never_past_capacity(cell, steps.take(done), capacity, refill_amount);
        crate::laws::trace::lemma_filled(
            count(cell, steps.take(done)),
            capacity,
            refill_amount,
            rest.len() - done,
            count(cell, rest),
        );
    }
}

/// What is known of the first steps.
proof fn lemma_prefix(cell: AtomicUsize, steps: Seq<UpdateView>, done: int)
    requires
        0 <= done <= steps.len(),
        history(cell, steps),
    ensures
        history(cell, steps.take(done)),
{
    let first = steps.take(done);
    assert forall|i: int| 0 <= i < first.len() implies (#[trigger] first[i]).performs(
        cell,
        first[i].op,
    ) && first[i].before == count(cell, first.take(i)) by {
        assert(steps[i] == first[i]);
        assert(steps.take(i) == first.take(i));
    }
}

} // verus!
