//! The two limiters under one caller, who awaits every call before the next.

use vstd::prelude::*;
use crate::laws::fair::{FairEvent, FairState};
use crate::laws::fast::{FastEvent, FastState};
use crate::laws::ticket::Ticket;
use crate::laws::trace::Machine;
use crate::worker::Stage;

verus! {

/// What one caller and the timer do, and the retries of the worker.
pub enum SoloEvent {
    /// The caller asks for tokens. There is no such event while an earlier call is unanswered.
    Call(Ticket),
    /// The timer ticks.
    Tick,
    /// The worker ends its wait and attempts again.
    Retry,
}

impl FairState {
    /// The limiter after `event`: a call sends its request to the queue, where the worker receives
    /// and attempts it.
    pub open spec fn solo(self, event: SoloEvent) -> FairState {
        match event {
            SoloEvent::Call(ticket) => if self.granted.len() == self.submitted.len() {
                self.step(FairEvent::Submit(ticket)).step(FairEvent::Receive).step(
                    FairEvent::Attempt,
                )
            } else {
                self
            },
            SoloEvent::Tick => self.step(FairEvent::Tick),
            SoloEvent::Retry => self.step(FairEvent::Wake).step(FairEvent::Attempt),
        }
    }
}

impl FastState {
    /// The limiter after `event`: a call tries past the queue, and sends its request to the queue
    /// where that did not serve it.
    pub open spec fn solo(self, event: SoloEvent) -> FastState {
        match event {
            SoloEvent::Call(ticket) => if self.granted.len() == self.submitted.len() {
                let tried = self.step(FastEvent::Try { ticket, free: true });
                if tried.passed.len() > self.passed.len() {
                    tried
                } else {
                    tried.step(FastEvent::Submit(ticket)).step(FastEvent::Receive).step(
                        FastEvent::Lock,
                    ).step(FastEvent::Attempt).step(FastEvent::Look)
                }
            } else {
                self
            },
            SoloEvent::Tick => self.step(FastEvent::Tick),
            SoloEvent::Retry => self.step(FastEvent::Wake).step(FastEvent::Attempt).step(
                FastEvent::Look,
            ),
        }
    }
}

/// The two limiters side by side.
pub struct Pair {
    pub fair: FairState,
    pub fast: FastState,
}

impl Machine for Pair {
    type Event = SoloEvent;

    /// The same event happens to both.
    open spec fn step(self, event: SoloEvent) -> Pair {
        Pair { fair: self.fair.solo(event), fast: self.fast.solo(event) }
    }

    open spec fn is_tick(event: SoloEvent) -> bool {
        event is Tick
    }
}

impl Pair {
    /// Two new limiters after `events`.
    pub open spec fn reached(
        capacity: usize,
        refill_amount: usize,
        events: Seq<SoloEvent>,
    ) -> Pair {
        crate::laws::trace::run(
            Pair {
                fair: FairState::init(capacity, refill_amount),
                fast: FastState::init(capacity, refill_amount),
            },
            events,
        )
    }

    /// Whether the two stand alike: they hold the same, have served the same, and either both are
    /// idle or the same call waits at both.
    spec fn alike(self, capacity: usize, refill_amount: usize) -> bool {
        let fair = self.fair;
        let fast = self.fast;
        &&& fair.capacity == fast.capacity == capacity
        &&& fair.refill_amount == fast.refill_amount == refill_amount
        &&& fair.tokens == fast.tokens <= capacity
        &&& fair.started == fast.started
        &&& fair.refills == fast.refills
        &&& fair.granted == fast.served
        &&& fair.serving == fast.serving
        &&& fair.worker.stage == fast.worker.stage
        &&& fair.worker.stage == match fair.serving {
            Some(ticket) => Stage::Waiting(ticket.required),
            None => Stage::Idle,
        }
        &&& fast.worker.locked == (fast.serving is Some)
        &&& !fast.looking
        &&& fair.open && fast.open
        &&& fair.line.len() == 0 && fast.line.len() == 0
        &&& fair.submitted.len() == fair.granted.len() + fair.at_hand().len()
        &&& fast.submitted.len() == fast.granted.len() + fast.at_hand().len()
    }
}

/// Every event keeps the two alike.
proof fn lemma_alike(p: Pair, capacity: usize, refill_amount: usize, event: SoloEvent)
    requires
        p.alike(capacity, refill_amount),
    ensures
        p.step(event).alike(capacity, refill_amount),
        event matches SoloEvent::Call(ticket) ==> ticket.required > capacity ==> p.step(event)
            == p,
{
    if let SoloEvent::Call(ticket) = event {
        if p.fair.granted.len() == p.fair.submitted.len() && ticket.required <= capacity {
            assert(p.fair.line.push(ticket).first() == ticket);
            assert(p.fast.line.push(ticket).first() == ticket);
        }
    }
}

/// One caller at a time is granted by `FastQuota` just what `Quota` grants: with the same calls and
/// the same ticks, both have served the same requests, in the same order, with the same number of
/// refills, hold the same number of tokens, and keep the same call waiting, if any. A call that
/// asks for more than the capacity is refused by both, and changes nothing at either.
pub proof fn law_same_grants_to_one_caller(
    capacity: usize,
    refill_amount: usize,
    events: Seq<SoloEvent>,
    ticket: Ticket,
)
    ensures
        ({
            let p = Pair::reached(capacity, refill_amount, events);
            &&& p.fair.granted == p.fast.served
            &&& p.fair.refills == p.fast.refills
            &&& p.fair.tokens == p.fast.tokens
            &&& p.fair.serving == p.fast.serving
            &&& ticket.required > capacity ==> p.step(SoloEvent::Call(ticket)) == p
        }),
{
    let start = Pair {
        fair: FairState::init(capacity, refill_amount),
        fast: FastState::init(capacity, refill_amount),
    };
    let kept = |x: Pair| x.alike(capacity, refill_amount);
    assert forall|x: Pair, event: SoloEvent| kept(x) implies kept(#[trigger] x.step(event)) by {
        lemma_alike(x, capacity, refill_amount, event);
    }
    crate::laws::trace::lemma_kept(start, events, kept);
    lemma_alike(
        Pair::reached(capacity, refill_amount, events),
        capacity,
        refill_amount,
        SoloEvent::Call(ticket),
    );
}

} // verus!
