//! Laws of `FastQuota`, which serves a request past its queue where it can.

use vstd::prelude::*;
use crate::laws::ticket::Ticket;
use crate::laws::trace::Machine;
use crate::quota::QUEUE_LIMIT;
use crate::tokens::TokenOp;
use crate::worker::{GuardedNext, GuardedWorker, Stage};

verus! {

/// A step of the limiter or of its callers.
pub enum FastEvent {
    /// A caller tries to take tokens past the queue; `free` tells whether it can have read access
    /// to the lock, which it cannot while the worker has write access.
    Try { ticket: Ticket, free: bool },
    /// A caller sends a request to the queue.
    Submit(Ticket),
    /// The last of those who can send requests is gone.
    Close,
    /// The timer of the refill task ticks.
    Tick,
    /// The worker looks into the queue for its next request.
    Receive,
    /// The worker is given write access to the lock.
    Lock,
    /// The worker attempts to take the tokens for its request.
    Attempt,
    /// The worker looks at the queue after a grant, to let go of the lock if it is empty.
    Look,
    /// The worker's wait ends.
    Wake,
}

/// The limiter with what stands in its queue and what has become of the requests so far.
pub struct FastState {
    pub capacity: usize,
    pub refill_amount: usize,
    /// What the token counter holds.
    pub tokens: usize,
    /// Whether the first tick is past.
    pub started: bool,
    /// The number of refills so far, and of the tokens that they added.
    pub refills: nat,
    pub added: int,
    /// The queue, and whether there is anybody left to send requests to it.
    pub line: Seq<Ticket>,
    pub open: bool,
    pub worker: GuardedWorker,
    /// Whether the worker has granted a request and is yet to look at the queue.
    pub looking: bool,
    /// The request that the worker serves.
    pub serving: Option<Ticket>,
    /// The requests that were sent to the queue so far, and those of them that were granted, in
    /// order.
    pub submitted: Seq<Ticket>,
    pub granted: Seq<Ticket>,
    /// The requests that were served past the queue, and all that were served, in order.
    pub passed: Seq<Ticket>,
    pub served: Seq<Ticket>,
}

impl Machine for FastState {
    type Event = FastEvent;

    /// The limiter after `event`. An event that cannot happen in this state changes nothing: a
    /// request past the capacity is refused, one that finds the queue full is not in it yet, and
    /// the worker does only what is next for it. It waits at an empty queue, and stops where the
    /// queue is closed as well.
    open spec fn step(self, event: FastEvent) -> FastState {
        match event {
            FastEvent::Try { ticket, free } => {
                let op = TokenOp::Take(ticket.required);
                if ticket.required <= self.capacity && free && !self.worker.locked && op.next(
                    self.tokens,
                ) is Some {
                    FastState {
                        tokens: op.after(self.tokens),
                        passed: self.passed.push(ticket),
                        served: self.served.push(ticket),
                        ..self
                    }
                } else {
                    self
                }
            },
            FastEvent::Submit(ticket) => if ticket.required <= self.capacity && self.open
                && self.line.len() < QUEUE_LIMIT {
                FastState {
                    line: self.line.push(ticket),
                    submitted: self.submitted.push(ticket),
                    ..self
                }
            } else {
                self
            },
            FastEvent::Close => FastState { open: false, ..self },
            FastEvent::Tick => if self.started {
                FastState {
                    tokens: self.refill_op().after(self.tokens),
                    refills: self.refills + 1,
                    added: self.added + self.refill_op().after(self.tokens) - self.tokens,
                    ..self
                }
            } else {
                FastState { started: true, ..self }
            },
            FastEvent::Receive => if self.worker.next_spec() != GuardedNext::Receive
                || self.looking {
                self
            } else if self.line.len() > 0 {
                FastState {
                    line: self.line.drop_first(),
                    worker: GuardedWorker {
                        stage: Stage::after_receive(Some(self.line.first().required)),
                        ..self.worker
                    },
                    serving: Some(self.line.first()),
                    ..self
                }
            } else if !self.open {
                FastState {
                    worker: GuardedWorker { stage: Stage::after_receive(None), locked: false },
                    ..self
                }
            } else {
                self
            },
            FastEvent::Lock => if self.worker.next_spec() == GuardedNext::Lock {
                FastState { worker: GuardedWorker { locked: true, ..self.worker }, ..self }
            } else {
                self
            },
            FastEvent::Attempt => match self.serving {
                Some(ticket) => if self.worker.next_spec() == GuardedNext::Attempt {
                    let op = TokenOp::Take(ticket.required);
                    if op.next(self.tokens) is Some {
                        FastState {
                            tokens: op.after(self.tokens),
                            worker: GuardedWorker {
                                stage: self.worker.stage.after_attempt(true),
                                ..self.worker
                            },
                            looking: true,
                            serving: None,
                            granted: self.granted.push(ticket),
                            served: self.served.push(ticket),
                            ..self
                        }
                    } else {
                        FastState {
                            worker: GuardedWorker {
                                stage: self.worker.stage.after_attempt(false),
                                ..self.worker
                            },
                            ..self
                        }
                    }
                } else {
                    self
                },
                None => self,
            },
            FastEvent::Look => if self.looking {
                FastState {
                    worker: GuardedWorker {
                        locked: self.worker.locked_after_attempt(true, self.line.len() == 0),
                        ..self.worker
                    },
                    looking: false,
                    ..self
                }
            } else {
                self
            },
            FastEvent::Wake => FastState {
                worker: GuardedWorker { stage: self.worker.stage.after_wait(), ..self.worker },
                ..self
            },
        }
    }

    open spec fn is_tick(event: FastEvent) -> bool {
        event is Tick
    }
}

impl FastState {
    /// A new limiter.
    pub open spec fn init(capacity: usize, refill_amount: usize) -> FastState {
        FastState {
            capacity,
            refill_amount,
            tokens: capacity,
            started: false,
            refills: 0,
            added: 0,
            line: Seq::empty(),
            open: true,
            worker: GuardedWorker { stage: Stage::Idle, locked: false },
            looking: false,
            serving: None,
            submitted: Seq::empty(),
            granted: Seq::empty(),
            passed: Seq::empty(),
            served: Seq::empty(),
        }
    }

    /// The limiter after `events`, one after the other.
    pub open spec fn run(self, events: Seq<FastEvent>) -> FastState {
        crate::laws::trace::run(self, events)
    }

    /// The limiter after `rounds`, one after the other.
    pub open spec fn run_rounds(self, rounds: Seq<Seq<FastEvent>>) -> FastState {
        crate::laws::trace::run_rounds(self, rounds)
    }

    /// A new limiter after `events`.
    pub open spec fn reached(
        capacity: usize,
        refill_amount: usize,
        events: Seq<FastEvent>,
    ) -> FastState {
        FastState::init(capacity, refill_amount).run(events)
    }

    /// The operation of one refill.
    pub open spec fn refill_op(self) -> TokenOp {
        TokenOp::Refill { capacity: self.capacity, refill_amount: self.refill_amount }
    }

    /// What the bucket holds after so many refills, if nobody takes from it.
    pub open spec fn filled(self, refills: int) -> int {
        crate::laws::trace::filled(self.tokens, self.capacity, self.refill_amount, refills)
    }

    /// The request that the worker serves, as a sequence.
    pub open spec fn at_hand(self) -> Seq<Ticket> {
        match self.serving {
            Some(ticket) => seq![ticket],
            None => Seq::empty(),
        }
    }

    /// What every step keeps.
    pub open spec fn wf(self) -> bool {
        &&& self.tokens <= self.capacity
        &&& self.granted + self.at_hand() + self.line == self.submitted
        &&& self.line.len() <= QUEUE_LIMIT
        &&& self.worker.wf()
        &&& match self.serving {
            Some(ticket) => self.worker.stage.serving() == Some(ticket.required),
            None => self.worker.stage.serving() is None,
        }
        &&& self.worker.stage is Stopped ==> !self.open && self.line.len() == 0
        &&& self.looking ==> self.worker.locked && self.worker.stage is Idle
        &&& self.worker.locked ==> self.serving is Some || self.line.len() > 0 || self.looking
        &&& forall|i: int|
            0 <= i < self.submitted.len() ==> (#[trigger] self.submitted[i]).required
                <= self.capacity
        &&& self.tokens + Ticket::total(self.granted) + Ticket::total(self.passed) == self.capacity
            + self.added
        &&& Ticket::total(self.served) == Ticket::total(self.granted) + Ticket::total(self.passed)
        &&& 0 <= self.added <= self.refills * self.refill_amount
    }

    /// Whether this is a well-formed limiter that came from `before`: it has the same limits, and
    /// what was sent, granted or served past the queue has stayed so.
    spec fn follows(self, before: FastState) -> bool {
        &&& self.wf()
        &&& self.capacity == before.capacity
        &&& self.refill_amount == before.refill_amount
        &&& before.submitted.is_prefix_of(self.submitted)
        &&& before.granted.is_prefix_of(self.granted)
        &&& before.passed.is_prefix_of(self.passed)
    }
}

/// Every step keeps the limiter well formed.
proof fn lemma_step(s: FastState, event: FastEvent)
    requires
        s.wf(),
    ensures
        s.step(event).follows(s),
{
    let next = s.step(event);
    match event {
        FastEvent::Try { .. } => {
            if next.passed != s.passed {
                assert(next.passed.drop_last() == s.passed);
                assert(next.served.drop_last() == s.served);
            }
        },
        FastEvent::Submit(ticket) => {
            if next.line != s.line {
                assert(next.granted + next.at_hand() + next.line == (s.granted + s.at_hand()
                    + s.line).push(ticket));
            }
        },
        FastEvent::Tick => {
            assert((s.refills + 1) * s.refill_amount == s.refills * s.refill_amount
                + s.refill_amount) by (nonlinear_arith);
        },
        FastEvent::Receive => {
            assert(next.granted + next.at_hand() + next.line == s.granted + s.at_hand() + s.line);
        },
        FastEvent::Attempt => {
            if next.granted != s.granted {
                assert(next.granted + next.at_hand() + next.line == s.granted + s.at_hand()
                    + s.line);
                assert(next.granted.drop_last() == s.granted);
                assert(next.served.drop_last() == s.served);
            }
        },
        FastEvent::Close | FastEvent::Lock | FastEvent::Look | FastEvent::Wake => {},
    }
}

/// Whatever happens keeps the limiter well formed.
proof fn lemma_run(s: FastState, events: Seq<FastEvent>)
    requires
        s.wf(),
    ensures
        s.run(events).follows(s),
{
    let kept = |x: FastState| x.follows(s);
    assert forall|x: FastState, event: FastEvent| kept(x) implies kept(
        #[trigger] x.step(event),
    ) by {
        lemma_step(x, event);
    }
    crate::laws::trace::lemma_kept(s, events, kept);
}

/// Whatever happens keeps the limiter well formed, in rounds too.
proof fn lemma_run_rounds(s: FastState, rounds: Seq<Seq<FastEvent>>)
    requires
        s.wf(),
    ensures
        s.run_rounds(rounds).follows(s),
{
    let kept = |x: FastState| x.follows(s);
    assert forall|x: FastState, event: FastEvent| kept(x) implies kept(
        #[trigger] x.step(event),
    ) by {
        lemma_step(x, event);
    }
    crate::laws::trace::lemma_rounds_kept(s, rounds, kept);
}

/// A limiter is well formed at all times, and its limits never change.
pub proof fn law_limits_stay(capacity: usize, refill_amount: usize, events: Seq<FastEvent>)
    ensures
        FastState::reached(capacity, refill_amount, events).wf(),
        FastState::reached(capacity, refill_amount, events).capacity == capacity,
        FastState::reached(capacity, refill_amount, events).refill_amount == refill_amount,
{
    let s = FastState::init(capacity, refill_amount);
    assert(s.granted + s.at_hand() + s.line == s.submitted);
    assert(s.refills * s.refill_amount == 0) by (nonlinear_arith)
        requires
            s.refills == 0,
    ;
    lemma_run(s, events);
}

/// The request at hand is the first of those sent that is not granted, and it can be granted.
proof fn lemma_at_hand(s: FastState)
    requires
        s.wf(),
    ensures
        s.serving matches Some(ticket) ==> {
            &&& s.granted.len() < s.submitted.len()
            &&& s.submitted[s.granted.len() as int] == ticket
            &&& ticket.required <= s.capacity
        },
        s.granted == s.submitted.take(s.granted.len() as int),
        s.granted.len() + s.at_hand().len() + s.line.len() == s.submitted.len(),
{
    let all = s.granted + s.at_hand() + s.line;
    assert(all.len() == s.submitted.len());
    assert(s.granted == all.take(s.granted.len() as int));
    if s.serving is Some {
        assert(all[s.granted.len() as int] == s.serving->0);
    }
}

/// The requests that go through the queue are granted in exactly the order in which they were sent
/// to it, each once and none left out: those granted are the first of those sent, and the others
/// are the one at hand and the queue, in this order.
pub proof fn law_first_in_first_out(capacity: usize, refill_amount: usize, events: Seq<FastEvent>)
    ensures
        ({
            let s = FastState::reached(capacity, refill_amount, events);
            &&& s.granted + s.at_hand() + s.line == s.submitted
            &&& s.granted.len() <= s.submitted.len()
            &&& s.granted == s.submitted.take(s.granted.len() as int)
        }),
{
    law_limits_stay(capacity, refill_amount, events);
    lemma_at_hand(FastState::reached(capacity, refill_amount, events));
}

/// The bucket never holds more than its capacity.
pub proof fn law_never_past_capacity(capacity: usize, refill_amount: usize, events: Seq<FastEvent>)
    ensures
        FastState::reached(capacity, refill_amount, events).tokens <= capacity,
{
    law_limits_stay(capacity, refill_amount, events);
}

/// The tokens granted, past the queue and through it, and those left are the full bucket of the
/// start and those added since.
pub proof fn law_tokens_are_conserved(capacity: usize, refill_amount: usize, events: Seq<FastEvent>)
    ensures
        ({
            let s = FastState::reached(capacity, refill_amount, events);
            &&& s.tokens + Ticket::total(s.served) == capacity + s.added
            &&& Ticket::total(s.served) == Ticket::total(s.granted) + Ticket::total(s.passed)
        }),
{
    law_limits_stay(capacity, refill_amount, events);
}

/// There is one refill per interval, and the first one comes when the first interval is over: the
/// first tick of the timer adds nothing.
pub proof fn law_one_refill_per_interval(
    capacity: usize,
    refill_amount: usize,
    events: Seq<FastEvent>,
)
    ensures
        ({
            let s = FastState::reached(capacity, refill_amount, events);
            &&& s.started == (crate::laws::trace::ticks::<FastState>(events) > 0)
            &&& s.refills == crate::laws::trace::intervals::<FastState>(events)
        }),
    decreases events.len(),
{
    if events.len() > 0 {
        law_one_refill_per_interval(capacity, refill_amount, events.drop_last());
    }
}

/// The rate is bounded: after the full bucket of the start, no more tokens are granted, past the
/// queue and through it, than `refill_amount` for every interval that has passed.
pub proof fn law_rate_is_bounded(capacity: usize, refill_amount: usize, events: Seq<FastEvent>)
    ensures
        Ticket::total(FastState::reached(capacity, refill_amount, events).served) <= capacity
            + crate::laws::trace::intervals::<FastState>(events) * refill_amount,
{
    law_limits_stay(capacity, refill_amount, events);
    law_one_refill_per_interval(capacity, refill_amount, events);
}

/// When serving ends. A worker that has stopped has granted every request that was ever sent to the
/// queue, and does not hold the lock. A worker that looks into the queue for a request stops if and
/// only if nobody is left to send one and every one that was sent is granted; while somebody is
/// left and the queue is empty, it waits, does not hold the lock, and changes nothing.
pub proof fn law_stops_when_all_is_granted(
    capacity: usize,
    refill_amount: usize,
    events: Seq<FastEvent>,
)
    ensures
        ({
            let s = FastState::reached(capacity, refill_amount, events);
            let next = s.step(FastEvent::Receive);
            &&& s.worker.next_spec() == GuardedNext::Stop ==> {
                &&& !s.open
                &&& s.granted == s.submitted
                &&& !s.worker.locked
            }
            &&& s.worker.next_spec() == GuardedNext::Receive && !s.looking ==> {
                &&& next.worker.next_spec() == GuardedNext::Stop <==> !s.open && s.granted
                    == s.submitted
                &&& s.open && s.granted == s.submitted ==> next == s && !s.worker.locked
                &&& s.line.len() == 0 <==> s.granted == s.submitted
            }
        }),
{
    let s = FastState::reached(capacity, refill_amount, events);
    law_limits_stay(capacity, refill_amount, events);
    lemma_at_hand(s);
    if s.granted.len() == s.submitted.len() {
        assert(s.granted == s.submitted);
    }
}

/// Where no request is in the queue or at hand, and the worker has looked at the queue since the
/// last grant, the worker does not hold the lock: a caller that asks for no more than there is and
/// can have read access to the lock is served at once.
pub proof fn law_served_at_once_without_contention(
    capacity: usize,
    refill_amount: usize,
    events: Seq<FastEvent>,
    ticket: Ticket,
)
    requires
        ({
            let s = FastState::reached(capacity, refill_amount, events);
            &&& s.granted.len() == s.submitted.len()
            &&& !s.looking
            &&& ticket.required <= s.tokens
        }),
    ensures
        ({
            let s = FastState::reached(capacity, refill_amount, events);
            let after = s.step(FastEvent::Try { ticket, free: true });
            &&& !s.worker.locked
            &&& after.passed == s.passed.push(ticket)
            &&& after.tokens == s.tokens - ticket.required
        }),
{
    law_limits_stay(capacity, refill_amount, events);
    lemma_at_hand(FastState::reached(capacity, refill_amount, events));
}

/// Once the worker holds the lock, nobody passes the queue: until the request that was sent to it
/// as number `place` is granted, the worker keeps the lock and no request is served past the queue,
/// whatever happens. Only a request that is not at hand under the lock yet can be passed.
pub proof fn law_no_bypass_while_locked(
    capacity: usize,
    refill_amount: usize,
    events: Seq<FastEvent>,
    place: int,
    since: Seq<FastEvent>,
)
    requires
        ({
            let s = FastState::reached(capacity, refill_amount, events);
            &&& s.worker.locked
            &&& 0 <= place < s.submitted.len()
            &&& s.run(since).granted.len() <= place
        }),
    ensures
        ({
            let s = FastState::reached(capacity, refill_amount, events);
            &&& s.run(since).worker.locked
            &&& s.run(since).passed == s.passed
        }),
{
    law_limits_stay(capacity, refill_amount, events);
    lemma_no_bypass(FastState::reached(capacity, refill_amount, events), place, since);
}

/// Nobody passes the queue while the worker holds the lock.
proof fn lemma_no_bypass(s: FastState, place: int, since: Seq<FastEvent>)
    requires
        s.wf(),
        s.worker.locked,
        0 <= place < s.submitted.len(),
        s.run(since).granted.len() <= place,
    ensures
        s.run(since).worker.locked,
        s.run(since).passed == s.passed,
{
    let kept = |x: FastState|
        x.follows(s) && (x.granted.len() <= place ==> x.worker.locked && x.passed == s.passed);
    assert forall|x: FastState, event: FastEvent| kept(x) implies kept(
        #[trigger] x.step(event),
    ) by {
        lemma_step(x, event);
        lemma_at_hand(x);
    }
    crate::laws::trace::lemma_kept(s, since, kept);
}

/// While no request is served, every refill adds `refill_amount` until the bucket is full, and
/// there it stays: since `events`, the bucket holds what it held then and what the refills add, up
/// to the capacity.
pub proof fn law_refills_fill_up(
    capacity: usize,
    refill_amount: usize,
    events: Seq<FastEvent>,
    since: Seq<FastEvent>,
)
    requires
        ({
            let s = FastState::reached(capacity, refill_amount, events);
            &&& s.run(since).granted.len() == s.granted.len()
            &&& s.run(since).passed.len() == s.passed.len()
        }),
    ensures
        ({
            let s = FastState::reached(capacity, refill_amount, events);
            let now = s.run(since);
            &&& now.refills >= s.refills
            &&& now.tokens == s.filled(now.refills - s.refills)
        }),
{
    law_limits_stay(capacity, refill_amount, events);
    lemma_refilled(FastState::reached(capacity, refill_amount, events), since);
}

/// While no request is served, the bucket holds exactly what the refills add to it, up to the
/// capacity.
proof fn lemma_refilled(s: FastState, events: Seq<FastEvent>)
    requires
        s.wf(),
    ensures
        ({
            let after = s.run(events);
            after.granted.len() == s.granted.len() && after.passed.len() == s.passed.len() ==> {
                &&& after.refills >= s.refills
                &&& after.tokens == s.filled(after.refills - s.refills)
            }
        }),
    decreases events.len(),
{
    if events.len() > 0 {
        lemma_refilled(s, events.drop_last());
        lemma_run(s, events.drop_last());
        let before = s.run(events.drop_last());
        lemma_step(before, events.last());
        if before.granted.len() == s.granted.len() && before.passed.len() == s.passed.len() {
            crate::laws::trace::lemma_filled(
                s.tokens,
                s.capacity,
                s.refill_amount,
                before.refills - s.refills,
                before.tokens,
            );
        }
    } else {
        crate::laws::trace::lemma_unfilled(s.tokens, s.capacity, s.refill_amount);
    }
}

/// A request that is at hand under the lock waits no longer than it takes to refill the bucket for
/// it, and no shorter. Since `events` no request in the queue was granted; then the one that is
/// attempted next is granted if and only if the refills since `events` made up for what it asks
/// for.
pub proof fn law_granted_once_refilled(
    capacity: usize,
    refill_amount: usize,
    events: Seq<FastEvent>,
    since: Seq<FastEvent>,
)
    requires
        ({
            let s = FastState::reached(capacity, refill_amount, events);
            &&& s.serving is Some
            &&& s.worker.locked
            &&& s.run(since).granted.len() == s.granted.len()
            &&& s.run(since).worker.next_spec() == GuardedNext::Attempt
        }),
    ensures
        ({
            let s = FastState::reached(capacity, refill_amount, events);
            let now = s.run(since);
            let ticket = now.submitted[now.granted.len() as int];
            now.step(FastEvent::Attempt).granted == if ticket.required <= s.filled(
                now.refills - s.refills,
            ) {
                now.granted.push(ticket)
            } else {
                now.granted
            }
        }),
{
    let s = FastState::reached(capacity, refill_amount, events);
    law_limits_stay(capacity, refill_amount, events);
    lemma_at_hand(s);
    lemma_no_bypass(s, s.granted.len() as int, since);
    lemma_run(s, since);
    lemma_refilled(s, since);
    lemma_at_hand(s.run(since));
}

impl FastState {
    /// How near a grant is, while `granted` requests are granted and another one is not: the worker
    /// has looked at the queue since the last grant; it serves a request; it holds the lock; there
    /// are tokens enough for the request; it is about to be attempted.
    spec fn near(self, granted: nat, level: int) -> bool {
        &&& self.wf()
        &&& self.granted.len() == granted
        &&& self.submitted.len() > granted
        &&& !self.looking
        &&& level >= 2 ==> self.serving is Some
        &&& level >= 3 ==> self.worker.locked
        &&& level >= 4 ==> self.serving->0.required <= self.tokens
        &&& level >= 5 ==> self.worker.stage is Ready
    }
}

/// Without a grant, a grant comes no further away.
proof fn lemma_stays_near(s: FastState, granted: nat, level: int, events: Seq<FastEvent>)
    requires
        s.near(granted, level),
        s.run(events).granted.len() == granted,
    ensures
        s.run(events).near(granted, level),
{
    let kept = |x: FastState| x.wf() && (x.granted.len() > granted || x.near(granted, level));
    assert forall|x: FastState, event: FastEvent| kept(x) implies kept(
        #[trigger] x.step(event),
    ) by {
        lemma_step(x, event);
        lemma_at_hand(x);
    }
    crate::laws::trace::lemma_kept(s, events, kept);
}

/// While the worker holds the lock, and without a grant, enough ticks fill the bucket.
proof fn lemma_fills_up(s: FastState, events: Seq<FastEvent>)
    requires
        s.near(s.granted.len(), 3),
        s.refill_amount > 0,
    ensures
        ({
            let ticks = crate::laws::trace::ticks::<FastState>(events);
            let after = s.run(events);
            after.granted.len() == s.granted.len() ==> {
                &&& ticks > 0 ==> after.started
                &&& after.tokens == s.capacity || after.tokens + 1 >= ticks
            }
        }),
    decreases events.len(),
{
    if events.len() > 0 {
        let before = s.run(events.drop_last());
        lemma_fills_up(s, events.drop_last());
        lemma_run(s, events.drop_last());
        lemma_step(before, events.last());
        if before.granted.len() == s.granted.len() {
            lemma_stays_near(s, s.granted.len(), 3, events.drop_last());
        }
    }
}

/// Whether in `events`, among whatever else and in this order, the worker looks at the queue if it
/// has not since the last grant, looks into it for a request and is given the lock, the timer ticks
/// often enough to fill a bucket of this capacity, and the worker ends a wait and attempts.
pub open spec fn round(events: Seq<FastEvent>, capacity: usize) -> bool {
    exists|h: int, i: int, j: int, k: int, l: int|
        {
            &&& 0 <= h < i < j < k < l < events.len()
            &&& #[trigger] events[h] is Look
            &&& #[trigger] events[i] is Receive
            &&& #[trigger] events[j] is Lock
            &&& crate::laws::trace::ticks::<FastState>(events.subrange(j + 1, k)) > capacity
            &&& #[trigger] events[k] is Wake
            &&& #[trigger] events[l] is Attempt
        }
}

/// Where the full bucket of the start is enough for the requests granted, those that have passed
/// the queue and the one at hand, there are tokens enough for the latter.
proof fn lemma_enough(s: FastState, submitted: Seq<Ticket>, passed: Seq<Ticket>)
    requires
        s.wf(),
        s.serving is Some,
        submitted == s.submitted.take(s.granted.len() as int + 1),
        s.passed.is_prefix_of(passed),
        Ticket::total(submitted) + Ticket::total(passed) <= s.capacity,
    ensures
        s.serving->0.required <= s.tokens,
{
    lemma_at_hand(s);
    crate::laws::ticket::lemma_total_next(s.submitted, s.granted.len() as int);
    crate::laws::ticket::lemma_total_prefix(s.passed, passed);
}

/// A round grants a request, if there is one to grant and tokens are added or are enough for it.
proof fn lemma_round_grants(s: FastState, events: Seq<FastEvent>)
    requires
        s.wf(),
        s.submitted.len() > s.granted.len(),
        s.refill_amount > 0 || Ticket::total(s.submitted.take(s.granted.len() as int + 1))
            + Ticket::total(s.run(events).passed) <= s.capacity,
        round(events, s.capacity),
    ensures
        s.run(events).granted.len() > s.granted.len(),
{
    let (h, i, j, k, l) = choose|h: int, i: int, j: int, k: int, l: int|
        {
            &&& 0 <= h < i < j < k < l < events.len()
            &&& #[trigger] events[h] is Look
            &&& #[trigger] events[i] is Receive
            &&& #[trigger] events[j] is Lock
            &&& crate::laws::trace::ticks::<FastState>(events.subrange(j + 1, k)) > s.capacity
            &&& #[trigger] events[k] is Wake
            &&& #[trigger] events[l] is Attempt
        };
    let g = s.granted.len();
    lemma_run(s, events);
    if s.run(events).granted.len() == g {
        // No prefix grants anything either.
        assert forall|m: int| 0 <= m <= events.len() implies {
            &&& (#[trigger] s.run(events.take(m))).follows(s)
            &&& s.run(events.take(m)).granted.len() == g
            &&& s.run(events.take(m)).passed.is_prefix_of(s.run(events).passed)
        } by {
            crate::laws::trace::lemma_split(s, events, m);
            lemma_run(s, events.take(m));
            lemma_run(s.run(events.take(m)), events.skip(m));
        }
        crate::laws::trace::lemma_next(s, events, h);
        assert(s.run(events.take(h + 1)).near(g, 1)) by {
            assert(s.run(events.take(h)).granted.len() == g);
        }
        lemma_stays_until(s, events, g, 1, h + 1, i);
        lemma_at_hand(s.run(events.take(i)));
        crate::laws::trace::lemma_next(s, events, i);
        assert(s.run(events.take(i + 1)).near(g, 2));
        lemma_stays_until(s, events, g, 2, i + 1, j);
        crate::laws::trace::lemma_next(s, events, j);
        let s2 = s.run(events.take(j + 1));
        assert(s2.near(g, 3));
        lemma_stays_until(s, events, g, 3, j + 1, k);
        let s3 = s.run(events.take(k));
        if s.refill_amount > 0 {
            lemma_fills_up(s2, events.subrange(j + 1, k));
            lemma_at_hand(s3);
        } else {
            assert(s3.submitted.take(g as int + 1) == s.submitted.take(g as int + 1));
            lemma_enough(s3, s.submitted.take(g as int + 1), s.run(events).passed);
        }
        assert(s3.near(g, 4));
        crate::laws::trace::lemma_next(s, events, k);
        assert(s.run(events.take(k + 1)).near(g, 5));
        lemma_stays_until(s, events, g, 5, k + 1, l);
        crate::laws::trace::lemma_next(s, events, l);
        assert(s.run(events.take(l + 1)).granted.len() == g + 1);
    }
}

/// Without a grant, a grant comes no further away from one place in `events` to another.
proof fn lemma_stays_until(
    s: FastState,
    events: Seq<FastEvent>,
    granted: nat,
    level: int,
    from: int,
    to: int,
)
    requires
        0 <= from <= to <= events.len(),
        s.run(events.take(from)).near(granted, level),
        s.run(events.take(to)).granted.len() == granted,
    ensures
        s.run(events.take(to)) == s.run(events.take(from)).run(events.subrange(from, to)),
        s.run(events.take(to)).near(granted, level),
{
    crate::laws::trace::lemma_between(s, events, from, to);
    lemma_stays_near(s.run(events.take(from)), granted, level, events.subrange(from, to));
}

/// Every round grants a request, until the one that was sent to the queue as number `place` is
/// granted.
proof fn lemma_rounds_grant(s: FastState, place: int, rounds: Seq<Seq<FastEvent>>)
    requires
        s.wf(),
        0 <= place < s.submitted.len(),
        s.refill_amount > 0 || Ticket::total(s.submitted.take(place + 1)) + Ticket::total(
            s.run_rounds(rounds).passed,
        ) <= s.capacity,
        forall|i: int| 0 <= i < rounds.len() ==> #[trigger] round(rounds[i], s.capacity),
    ensures
        s.run_rounds(rounds).granted.len() > place || s.run_rounds(rounds).granted.len()
            >= s.granted.len() + rounds.len(),
    decreases rounds.len(),
{
    if rounds.len() > 0 {
        let rest = rounds.drop_last();
        assert forall|i: int| 0 <= i < rest.len() implies #[trigger] round(
            rest[i],
            s.capacity,
        ) by {
            assert(rest[i] == rounds[i]);
        }
        let before = s.run_rounds(rest);
        lemma_run_rounds(s, rest);
        lemma_run(before, rounds.last());
        crate::laws::ticket::lemma_total_prefix(before.passed, s.run_rounds(rounds).passed);
        lemma_rounds_grant(s, place, rest);
        assert(round(rounds[rounds.len() - 1], s.capacity));
        let g = before.granted.len() as int;
        if g <= place {
            crate::laws::ticket::lemma_total_prefix(
                before.submitted.take(g + 1),
                s.submitted.take(place + 1),
            );
            lemma_round_grants(before, rounds.last());
        }
    }
}

/// No request in the queue starves, whatever its size and however many are served past the queue
/// before the worker has the lock. The request that was sent to the queue as number `place` is
/// granted, in its place, once the limiter has gone through as many rounds as there are requests
/// not granted yet up to and with this one. Anything may happen in between. Where refills add
/// nothing this holds of the requests that the full bucket of the start is enough for, together
/// with those that were served past the queue by then.
pub proof fn law_no_starvation(
    capacity: usize,
    refill_amount: usize,
    events: Seq<FastEvent>,
    place: int,
    rounds: Seq<Seq<FastEvent>>,
)
    requires
        ({
            let s = FastState::reached(capacity, refill_amount, events);
            &&& 0 <= place < s.submitted.len()
            &&& refill_amount > 0 || Ticket::total(s.submitted.take(place + 1)) + Ticket::total(
                s.run_rounds(rounds).passed,
            ) <= capacity
            &&& rounds.len() > place - s.granted.len()
        }),
        forall|i: int| 0 <= i < rounds.len() ==> #[trigger] round(rounds[i], capacity),
    ensures
        ({
            let s = FastState::reached(capacity, refill_amount, events);
            let after = s.run_rounds(rounds);
            after.granted.len() > place && after.granted[place] == s.submitted[place]
        }),
{
    let s = FastState::reached(capacity, refill_amount, events);
    law_limits_stay(capacity, refill_amount, events);
    lemma_rounds_grant(s, place, rounds);
    lemma_run_rounds(s, rounds);
    let after = s.run_rounds(rounds);
    lemma_at_hand(after);
    assert(after.granted[place] == after.submitted.take(after.granted.len() as int)[place]);
}

} // verus!
