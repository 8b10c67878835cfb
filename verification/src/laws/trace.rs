//! Sequences of events, for whatever they happen to.

use vstd::prelude::*;
use crate::tokens::TokenOp;

verus! {

/// What events happen to.
pub trait Machine: Sized {
    type Event;

    /// The machine after `event`.
    spec fn step(self, event: Self::Event) -> Self;

    /// Whether `event` is a tick of the timer of the refill task.
    spec fn is_tick(event: Self::Event) -> bool;
}

/// The machine after `events`, one after the other.
pub open spec fn run<M: Machine>(m: M, events: Seq<M::Event>) -> M
    decreases events.len(),
{
    if events.len() == 0 {
        m
    } else {
        run(m, events.drop_last()).step(events.last())
    }
}

/// The machine after `rounds`, one after the other.
pub open spec fn run_rounds<M: Machine>(m: M, rounds: Seq<Seq<M::Event>>) -> M
    decreases rounds.len(),
{
    if rounds.len() == 0 {
        m
    } else {
        run(run_rounds(m, rounds.drop_last()), rounds.last())
    }
}

/// The number of ticks among `events`.
pub open spec fn ticks<M: Machine>(events: Seq<M::Event>) -> nat
    decreases events.len(),
{
    if events.len() == 0 {
        0
    } else {
        ticks::<M>(events.drop_last()) + if M::is_tick(events.last()) {
            1nat
        } else {
            0nat
        }
    }
}

/// The number of whole intervals that have passed when the timer ticked as in `events`.
pub open spec fn intervals<M: Machine>(events: Seq<M::Event>) -> nat {
    if ticks::<M>(events) == 0 {
        0
    } else {
        (ticks::<M>(events) - 1) as nat
    }
}

/// What a bucket that held `tokens` holds after so many refills, if nobody takes from it.
pub open spec fn filled(
    tokens: usize,
    capacity: usize,
    refill_amount: usize,
    refills: int,
) -> int {
    if tokens + refills * refill_amount <= capacity {
        tokens + refills * refill_amount
    } else {
        capacity as int
    }
}

/// One event more.
pub(crate) proof fn lemma_next<M: Machine>(m: M, events: Seq<M::Event>, i: int)
    requires
        0 <= i < events.len(),
    ensures
        run(m, events.take(i + 1)) == run(m, events.take(i)).step(events[i]),
{
    assert(events.take(i + 1).drop_last() == events.take(i));
}

/// Events can be taken in two parts.
pub(crate) proof fn lemma_split<M: Machine>(m: M, events: Seq<M::Event>, i: int)
    requires
        0 <= i <= events.len(),
    ensures
        run(m, events) == run(run(m, events.take(i)), events.skip(i)),
    decreases events.len(),
{
    if i == events.len() {
        assert(events.take(i) == events);
        assert(events.skip(i).len() == 0);
    } else {
        lemma_split(m, events.drop_last(), i);
        assert(events.drop_last().take(i) == events.take(i));
        assert(events.drop_last().skip(i) == events.skip(i).drop_last());
        assert(events.skip(i).last() == events.last());
    }
}

/// The events from one place to another.
pub(crate) proof fn lemma_between<M: Machine>(m: M, events: Seq<M::Event>, from: int, to: int)
    requires
        0 <= from <= to <= events.len(),
    ensures
        run(m, events.take(to)) == run(run(m, events.take(from)), events.subrange(from, to)),
{
    lemma_split(m, events.take(to), from);
    assert(events.take(to).take(from) == events.take(from));
    assert(events.take(to).skip(from) == events.subrange(from, to));
}

/// What every step keeps, all events keep.
pub(crate) proof fn lemma_kept<M: Machine>(m: M, events: Seq<M::Event>, kept: spec_fn(M) -> bool)
    requires
        kept(m),
        forall|x: M, event: M::Event| kept(x) ==> kept(#[trigger] x.step(event)),
    ensures
        kept(run(m, events)),
    decreases events.len(),
{
    if events.len() > 0 {
        lemma_kept(m, events.drop_last(), kept);
    }
}

/// What every step keeps, all rounds keep.
pub(crate) proof fn lemma_rounds_kept<M: Machine>(
    m: M,
    rounds: Seq<Seq<M::Event>>,
    kept: spec_fn(M) -> bool,
)
    requires
        kept(m),
        forall|x: M, event: M::Event| kept(x) ==> kept(#[trigger] x.step(event)),
    ensures
        kept(run_rounds(m, rounds)),
    decreases rounds.len(),
{
    if rounds.len() > 0 {
        lemma_rounds_kept(m, rounds.drop_last(), kept);
        lemma_kept(run_rounds(m, rounds.drop_last()), rounds.last(), kept);
    }
}

/// One refill more.
pub(crate) proof fn lemma_filled(
    tokens: usize,
    capacity: usize,
    refill_amount: usize,
    refills: int,
    now: usize,
)
    requires
        tokens <= capacity,
        refills >= 0,
        now == filled(tokens, capacity, refill_amount, refills),
    ensures
        (TokenOp::Refill { capacity, refill_amount }).after(now) == filled(
            tokens,
            capacity,
            refill_amount,
            refills + 1,
        ),
{
    assert((refills + 1) * refill_amount == refills * refill_amount + refill_amount)
        by (nonlinear_arith);
    assert(refills * refill_amount >= 0) by (nonlinear_arith)
        requires
            refills >= 0,
    ;
    if refill_amount == 0 {
        assert(refills * refill_amount == 0) by (nonlinear_arith)
            requires
                refill_amount == 0,
        ;
    }
}

/// Without a refill nothing is added.
pub(crate) proof fn lemma_unfilled(tokens: usize, capacity: usize, refill_amount: usize)
    requires
        tokens <= capacity,
    ensures
        filled(tokens, capacity, refill_amount, 0) == tokens,
{
    assert(0int * refill_amount == 0) by (nonlinear_arith);
}

} // verus!
