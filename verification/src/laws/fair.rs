//! Laws of `Quota`, which serves every request through its queue.

use vstd::prelude::*;
use crate::laws::ticket::Ticket;
use crate::laws::trace::Machine;
use crate::quota::QUEUE_LIMIT;
use crate::tokens::TokenOp;
use crate::worker::{FifoWorker, Next, Stage};

verus! {

/// A step of the limiter or of its callers.
pub enum FairEvent {
    /// A caller sends a request to the queue.
    Submit(Ticket),
    /// The last of those who can send requests is gone.
    Close,
    /// The timer of the refill task ticks.
    Tick,
    /// The worker looks into the queue for its next request.
    Receive,
    /// The worker attempts to take the tokens for its request.
    Attempt,
    /// The worker's wait ends.
    Wake,
}

/// The limiter with what stands in its queue and what has become of the requests so far.
pub struct FairState {
    pub capacity: usize,
    pub refill_amount: usize,
    /// What the token counter holds.
    pub tokens: usize,
    /// Whether the first tick is past.
    pub started: bool,
    /// The number of refills so far, and of the tokens that they added.
    pub refills: nat,
    pub added: int,
    /// The queue, and whether there is anybody left to send requests to it.
    pub line: Seq<Ticket>,
    pub open: bool,
    pub worker: FifoWorker,
    /// The request that the worker serves.
    pub serving: Option<Ticket>,
    /// The requests that were sent to the queue so far, and those that were granted, in order.
    pub submitted: Seq<Ticket>,
    pub granted: Seq<Ticket>,
}

impl Machine for FairState {
    type Event = FairEvent;

    /// The limiter after `event`. An event that cannot happen in this state changes nothing: a
    /// request past the capacity is refused, one that finds the queue full is not in it yet, and
    /// the worker does only what is next for it. It waits at an empty queue, and stops where the
    /// queue is closed as well.
    open spec fn step(self, event: FairEvent) -> FairState {
        match event {
            FairEvent::Submit(ticket) => if ticket.required <= self.capacity && self.open
                && self.line.len() < QUEUE_LIMIT {
                FairState {
                    line: self.line.push(ticket),
                    submitted: self.submitted.push(ticket),
                    ..self
                }
            } else {
                self
            },
            FairEvent::Close => FairState { open: false, ..self },
            FairEvent::Tick => if self.started {
                FairState {
                    tokens: self.refill_op().after(self.tokens),
                    refills: self.refills + 1,
                    added: self.added + self.refill_op().after(self.tokens) - self.tokens,
                    ..self
                }
            } else {
                FairState { started: true, ..self }
            },
            FairEvent::Receive => if self.worker.next_spec() != Next::Receive {
                self
            } else if self.line.len() > 0 {
                FairState {
                    line: self.line.drop_first(),
                    worker: FifoWorker {
                        stage: Stage::after_receive(Some(self.line.first().required)),
                    },
                    serving: Some(self.line.first()),
                    ..self
                }
            } else if !self.open {
                FairState { worker: FifoWorker { stage: Stage::after_receive(None) }, ..self }
            } else {
                self
            },
            FairEvent::Attempt => match self.serving {
                Some(ticket) => if self.worker.next_spec() == Next::Attempt {
                    let op = TokenOp::Take(ticket.required);
                    let took = op.next(self.tokens) is Some;
                    FairState {
                        tokens: op.after(self.tokens),
                        worker: FifoWorker { stage: self.worker.stage.after_attempt(took) },
                        serving: if took {
                            None
                        } else {
                            self.serving
                        },
                        granted: if took {
                            self.granted.push(ticket)
                        } else {
                            self.granted
                        },
                        ..self
                    }
                } else {
                    self
                },
                None => self,
            },
            FairEvent::Wake => FairState {
                worker: FifoWorker { stage: self.worker.stage.after_wait() },
                ..self
            },
        }
    }

    open spec fn is_tick(event: FairEvent) -> bool {
        event is Tick
    }
}

impl FairState {
    /// A new limiter.
    pub open spec fn init(capacity: usize, refill_amount: usize) -> FairState {
        FairState {
            capacity,
            refill_amount,
            tokens: capacity,
            started: false,
            refills: 0,
            added: 0,
            line: Seq::empty(),
            open: true,
            worker: FifoWorker { stage: Stage::Idle },
            serving: None,
            submitted: Seq::empty(),
            granted: Seq::empty(),
        }
    }

    /// The limiter after `events`, one after the other.
    pub open spec fn run(self, events: Seq<FairEvent>) -> FairState {
        crate::laws::trace::run(self, events)
    }

    /// The limiter after `rounds`, one after the other.
    pub open spec fn run_rounds(self, rounds: Seq<Seq<FairEvent>>) -> FairState {
        crate::laws::trace::run_rounds(self, rounds)
    }

    /// A new limiter after `events`.
    pub open spec fn reached(
        capacity: usize,
        refill_amount: usize,
        events: Seq<FairEvent>,
    ) -> FairState {
        FairState::init(capacity, refill_amount).run(events)
    }

    /// The operation of one refill.
    pub open spec fn refill_op(self) -> TokenOp {
        TokenOp::Refill { capacity: self.capacity, refill_amount: self.refill_amount }
    }

    /// What the bucket holds after so many refills, if nobody takes from it.
    pub open spec fn filled(self, refills: int) -> int {
        crate::laws::trace::filled(self.tokens, self.capacity, self.refill_amount, refills)
    }

    /// The request that the worker serves, as a sequence.
    pub open spec fn at_hand(self) -> Seq<Ticket> {
        match self.serving {
            Some(ticket) => seq![ticket],
            None => Seq::empty(),
        }
    }

    /// What every step keeps.
    pub open spec fn wf(self) -> bool {
        &&& self.tokens <= self.capacity
        &&& self.granted + self.at_hand() + self.line == self.submitted
        &&& self.line.len() <= QUEUE_LIMIT
        &&& match self.serving {
            Some(ticket) => self.worker.stage.serving() == Some(ticket.required),
            None => self.worker.stage.serving() is None,
        }
        &&& self.worker.stage is Stopped ==> !self.open && self.line.len() == 0
        &&& forall|i: int|
            0 <= i < self.submitted.len() ==> (#[trigger] self.submitted[i]).required
                <= self.capacity
        &&& self.tokens + Ticket::total(self.granted) == self.capacity + self.added
        &&& 0 <= self.added <= self.refills * self.refill_amount
    }

    /// Whether this is a well-formed limiter that came from `before`: it has the same limits, and
    /// what was sent or granted has stayed so.
    spec fn follows(self, before: FairState) -> bool {
        &&& self.wf()
        &&& self.capacity == before.capacity
        &&& self.refill_amount == before.refill_amount
        &&& before.submitted.is_prefix_of(self.submitted)
        &&& before.granted.is_prefix_of(self.granted)
    }
}

/// Every step keeps the limiter well formed.
proof fn lemma_step(s: FairState, event: FairEvent)
    requires
        s.wf(),
    ensures
        s.step(event).follows(s),
{
    let next = s.step(event);
    match event {
        FairEvent::Submit(ticket) => {
            if next.line != s.line {
                assert(next.granted + next.at_hand() + next.line == (s.granted + s.at_hand()
                    + s.line).push(ticket));
            }
        },
        FairEvent::Tick => {
            assert((s.refills + 1) * s.refill_amount == s.refills * s.refill_amount
                + s.refill_amount) by (nonlinear_arith);
        },
        FairEvent::Receive => {
            assert(next.granted + next.at_hand() + next.line == s.granted + s.at_hand() + s.line);
        },
        FairEvent::Attempt => {
            if next.granted != s.granted {
                assert(next.granted + next.at_hand() + next.line == s.granted + s.at_hand()
                    + s.line);
                assert(next.granted.drop_last() == s.granted);
            }
        },
        FairEvent::Close | FairEvent::Wake => {},
    }
}

/// Whatever happens keeps the limiter well formed.
proof fn lemma_run(s: FairState, events: Seq<FairEvent>)
    requires
        s.wf(),
    ensures
        s.run(events).follows(s),
{
    let kept = |x: FairState| x.follows(s);
    assert forall|x: FairState, event: FairEvent| kept(x) implies kept(
        #[trigger] x.step(event),
    ) by {
        lemma_step(x, event);
    }
    crate::laws::trace::lemma_kept(s, events, kept);
}

/// Whatever happens keeps the limiter well formed, in rounds too.
proof fn lemma_run_rounds(s: FairState, rounds: Seq<Seq<FairEvent>>)
    requires
        s.wf(),
    ensures
        s.run_rounds(rounds).follows(s),
{
    let kept = |x: FairState| x.follows(s);
    assert forall|x: FairState, event: FairEvent| kept(x) implies kept(
        #[trigger] x.step(event),
    ) by {
        lemma_step(x, event);
    }
    crate::laws::trace::lemma_rounds_kept(s, rounds, kept);
}

/// A limiter is well formed at all times, and its limits never change.
pub proof fn law_limits_stay(capacity: usize, refill_amount: usize, events: Seq<FairEvent>)
    ensures
        FairState::reached(capacity, refill_amount, events).wf(),
        FairState::reached(capacity, refill_amount, events).capacity == capacity,
        FairState::reached(capacity, refill_amount, events).refill_amount == refill_amount,
{
    let s = FairState::init(capacity, refill_amount);
    assert(s.granted + s.at_hand() + s.line == s.submitted);
    assert(s.refills * s.refill_amount == 0) by (nonlinear_arith)
        requires
            s.refills == 0,
    ;
    lemma_run(s, events);
}

/// The request at hand is the first of those sent that is not granted, and it can be granted.
proof fn lemma_at_hand(s: FairState)
    requires
        s.wf(),
    ensures
        s.serving matches Some(ticket) ==> {
            &&& s.granted.len() < s.submitted.len()
            &&& s.submitted[s.granted.len() as int] == ticket
            &&& ticket.required <= s.capacity
        },
        s.granted == s.submitted.take(s.granted.len() as int),
        s.granted.len() + s.at_hand().len() + s.line.len() == s.submitted.len(),
{
    let all = s.granted + s.at_hand() + s.line;
    assert(all.len() == s.submitted.len());
    assert(s.granted == all.take(s.granted.len() as int));
    if s.serving is Some {
        assert(all[s.granted.len() as int] == s.serving->0);
    }
}

/// Requests are granted in exactly the order in which they were sent to the queue, each once and
/// none left out: those granted are the first of those sent, and the others are the one at hand and
/// the queue, in this order.
pub proof fn law_first_in_first_out(capacity: usize, refill_amount: usize, events: Seq<FairEvent>)
    ensures
        ({
            let s = FairState::reached(capacity, refill_amount, events);
            &&& s.granted + s.at_hand() + s.line == s.submitted
            &&& s.granted.len() <= s.submitted.len()
            &&& s.granted == s.submitted.take(s.granted.len() as int)
        }),
{
    law_limits_stay(capacity, refill_amount, events);
    lemma_at_hand(FairState::reached(capacity, refill_amount, events));
}

/// The bucket never holds more than its capacity.
pub proof fn law_never_past_capacity(capacity: usize, refill_amount: usize, events: Seq<FairEvent>)
    ensures
        FairState::reached(capacity, refill_amount, events).tokens <= capacity,
{
    law_limits_stay(capacity, refill_amount, events);
}

/// The tokens granted and those left are the full bucket of the start and those added since.
pub proof fn law_tokens_are_conserved(capacity: usize, refill_amount: usize, events: Seq<FairEvent>)
    ensures
        ({
            let s = FairState::reached(capacity, refill_amount, events);
            s.tokens + Ticket::total(s.granted) == capacity + s.added
        }),
{
    law_limits_stay(capacity, refill_amount, events);
}

/// There is one refill per interval, and the first one comes when the first interval is over: the
/// first tick of the timer adds nothing.
pub proof fn law_one_refill_per_interval(
    capacity: usize,
    refill_amount: usize,
    events: Seq<FairEvent>,
)
    ensures
        ({
            let s = FairState::reached(capacity, refill_amount, events);
            &&& s.started == (crate::laws::trace::ticks::<FairState>(events) > 0)
            &&& s.refills == crate::laws::trace::intervals::<FairState>(events)
        }),
    decreases events.len(),
{
    if events.len() > 0 {
        law_one_refill_per_interval(capacity, refill_amount, events.drop_last());
    }
}

/// The rate is bounded: after the full bucket of the start, no more tokens are granted than
/// `refill_amount` for every interval that has passed.
pub proof fn law_rate_is_bounded(capacity: usize, refill_amount: usize, events: Seq<FairEvent>)
    ensures
        Ticket::total(FairState::reached(capacity, refill_amount, events).granted) <= capacity
            + crate::laws::trace::intervals::<FairState>(events) * refill_amount,
{
    law_limits_stay(capacity, refill_amount, events);
    law_one_refill_per_interval(capacity, refill_amount, events);
}

/// When serving ends. A worker that has stopped has granted every request that was ever sent. A
/// worker that looks into the queue stops if and only if nobody is left to send a request and every
/// request that was sent is granted; while somebody is left and the queue is empty, it waits and
/// changes nothing.
pub proof fn law_stops_when_all_is_granted(
    capacity: usize,
    refill_amount: usize,
    events: Seq<FairEvent>,
)
    ensures
        ({
            let s = FairState::reached(capacity, refill_amount, events);
            let next = s.step(FairEvent::Receive);
            &&& s.worker.next_spec() == Next::Stop ==> !s.open && s.granted == s.submitted
            &&& s.worker.next_spec() == Next::Receive ==> {
                &&& next.worker.next_spec() == Next::Stop <==> !s.open && s.granted == s.submitted
                &&& s.open && s.granted == s.submitted ==> next == s
                &&& s.line.len() == 0 <==> s.granted == s.submitted
            }
        }),
{
    let s = FairState::reached(capacity, refill_amount, events);
    law_limits_stay(capacity, refill_amount, events);
    lemma_at_hand(s);
    if s.granted.len() == s.submitted.len() {
        assert(s.granted == s.submitted);
    }
}

/// While no request is granted, every refill adds `refill_amount` until the bucket is full, and
/// there it stays: since `events`, the bucket holds what it held then and what the refills add, up
/// to the capacity.
pub proof fn law_refills_fill_up(
    capacity: usize,
    refill_amount: usize,
    events: Seq<FairEvent>,
    since: Seq<FairEvent>,
)
    requires
        ({
            let s = FairState::reached(capacity, refill_amount, events);
            s.run(since).granted.len() == s.granted.len()
        }),
    ensures
        ({
            let s = FairState::reached(capacity, refill_amount, events);
            let now = s.run(since);
            &&& now.refills >= s.refills
            &&& now.tokens == s.filled(now.refills - s.refills)
        }),
{
    law_limits_stay(capacity, refill_amount, events);
    lemma_refilled(FairState::reached(capacity, refill_amount, events), since);
}

/// Without a grant, the bucket holds exactly what the refills add to it, up to the capacity.
proof fn lemma_refilled(s: FairState, events: Seq<FairEvent>)
    requires
        s.wf(),
    ensures
        ({
            let after = s.run(events);
            after.granted.len() == s.granted.len() ==> {
                &&& after.refills >= s.refills
                &&& after.tokens == s.filled(after.refills - s.refills)
            }
        }),
    decreases events.len(),
{
    if events.len() > 0 {
        lemma_refilled(s, events.drop_last());
        lemma_run(s, events.drop_last());
        let before = s.run(events.drop_last());
        lemma_step(before, events.last());
        if before.granted.len() == s.granted.len() {
            crate::laws::trace::lemma_filled(
                s.tokens,
                s.capacity,
                s.refill_amount,
                before.refills - s.refills,
                before.tokens,
            );
        }
    } else {
        crate::laws::trace::lemma_unfilled(s.tokens, s.capacity, s.refill_amount);
    }
}

/// A request waits no longer than it takes to refill the bucket for it, and no shorter. Since
/// `events` no request was granted; then the one that is attempted next is granted if and only if
/// the refills since `events` made up for what it asks for.
pub proof fn law_granted_once_refilled(
    capacity: usize,
    refill_amount: usize,
    events: Seq<FairEvent>,
    since: Seq<FairEvent>,
)
    requires
        ({
            let s = FairState::reached(capacity, refill_amount, events);
            &&& s.run(since).granted.len() == s.granted.len()
            &&& s.run(since).worker.next_spec() == Next::Attempt
        }),
    ensures
        ({
            let s = FairState::reached(capacity, refill_amount, events);
            let now = s.run(since);
            let ticket = now.submitted[now.granted.len() as int];
            now.step(FairEvent::Attempt).granted == if ticket.required <= s.filled(
                now.refills - s.refills,
            ) {
                now.granted.push(ticket)
            } else {
                now.granted
            }
        }),
{
    let s = FairState::reached(capacity, refill_amount, events);
    law_limits_stay(capacity, refill_amount, events);
    lemma_run(s, since);
    lemma_refilled(s, since);
    lemma_at_hand(s.run(since));
}

impl FairState {
    /// How near a grant is, while `granted` requests are granted and another one is not: there are
    /// tokens enough for it; the worker serves it; it is about to be attempted.
    spec fn near(self, granted: nat, level: int) -> bool {
        &&& self.wf()
        &&& self.granted.len() == granted
        &&& self.submitted.len() > granted
        &&& self.submitted[granted as int].required <= self.tokens
        &&& level >= 2 ==> self.serving is Some
        &&& level >= 3 ==> self.worker.stage is Ready
    }
}

/// Without a grant, a grant comes no further away.
proof fn lemma_stays_near(s: FairState, granted: nat, level: int, events: Seq<FairEvent>)
    requires
        s.near(granted, level),
        s.run(events).granted.len() == granted,
    ensures
        s.run(events).near(granted, level),
{
    let kept = |x: FairState| x.wf() && (x.granted.len() > granted || x.near(granted, level));
    assert forall|x: FairState, event: FairEvent| kept(x) implies kept(
        #[trigger] x.step(event),
    ) by {
        lemma_step(x, event);
        lemma_at_hand(x);
    }
    crate::laws::trace::lemma_kept(s, events, kept);
}

/// Without a grant, enough ticks fill the bucket.
proof fn lemma_fills_up(s: FairState, events: Seq<FairEvent>)
    requires
        s.wf(),
        s.refill_amount > 0,
    ensures
        ({
            let ticks = crate::laws::trace::ticks::<FairState>(events);
            let after = s.run(events);
            after.granted.len() == s.granted.len() ==> {
                &&& ticks > 0 ==> after.started
                &&& after.tokens == s.capacity || after.tokens + 1 >= ticks
            }
        }),
    decreases events.len(),
{
    if events.len() > 0 {
        lemma_fills_up(s, events.drop_last());
        lemma_run(s, events.drop_last());
        lemma_step(s.run(events.drop_last()), events.last());
    }
}

/// Whether `events`, among whatever else, hold enough ticks to fill a bucket of this capacity, and
/// after them, in this order, the worker looks into the queue, ends a wait and attempts.
pub open spec fn round(events: Seq<FairEvent>, capacity: usize) -> bool {
    exists|i: int, j: int, k: int|
        {
            &&& 0 <= i < j < k < events.len()
            &&& crate::laws::trace::ticks::<FairState>(events.take(i)) > capacity
            &&& #[trigger] events[i] is Receive
            &&& #[trigger] events[j] is Wake
            &&& #[trigger] events[k] is Attempt
        }
}

/// A round grants a request, if there is one to grant and tokens are added or are enough for it.
proof fn lemma_round_grants(s: FairState, events: Seq<FairEvent>)
    requires
        s.wf(),
        s.submitted.len() > s.granted.len(),
        s.refill_amount > 0 || s.submitted[s.granted.len() as int].required <= s.tokens,
        round(events, s.capacity),
    ensures
        s.run(events).granted.len() > s.granted.len(),
{
    let (i, j, k) = choose|i: int, j: int, k: int|
        {
            &&& 0 <= i < j < k < events.len()
            &&& crate::laws::trace::ticks::<FairState>(events.take(i)) > s.capacity
            &&& #[trigger] events[i] is Receive
            &&& #[trigger] events[j] is Wake
            &&& #[trigger] events[k] is Attempt
        };
    let g = s.granted.len();
    lemma_run(s, events);
    if s.run(events).granted.len() == g {
        // No prefix grants anything either.
        assert forall|m: int| 0 <= m <= events.len() implies {
            &&& (#[trigger] s.run(events.take(m))).follows(s)
            &&& s.run(events.take(m)).granted.len() == g
        } by {
            crate::laws::trace::lemma_split(s, events, m);
            lemma_run(s, events.take(m));
            lemma_run(s.run(events.take(m)), events.skip(m));
        }
        let s1 = s.run(events.take(i));
        if s.refill_amount > 0 {
            lemma_fills_up(s, events.take(i));
            assert(s1.submitted[g as int].required <= s1.capacity);
        } else {
            lemma_stays_near(s, g, 1, events.take(i));
        }
        assert(s1.near(g, 1));
        lemma_at_hand(s1);
        crate::laws::trace::lemma_next(s, events, i);
        assert(s.run(events.take(i + 1)).near(g, 2));
        crate::laws::trace::lemma_between(s, events, i + 1, j);
        assert(s.run(events.take(j)).granted.len() == g);
        lemma_stays_near(s.run(events.take(i + 1)), g, 2, events.subrange(i + 1, j));
        crate::laws::trace::lemma_next(s, events, j);
        assert(s.run(events.take(j + 1)).near(g, 3));
        crate::laws::trace::lemma_between(s, events, j + 1, k);
        assert(s.run(events.take(k)).granted.len() == g);
        lemma_stays_near(s.run(events.take(j + 1)), g, 3, events.subrange(j + 1, k));
        lemma_at_hand(s.run(events.take(k)));
        crate::laws::trace::lemma_next(s, events, k);
        assert(s.run(events.take(k + 1)).granted.len() == g + 1);
    }
}

/// Every round grants a request, until the one that was sent as number `place` is granted.
proof fn lemma_rounds_grant(s: FairState, place: int, rounds: Seq<Seq<FairEvent>>)
    requires
        s.wf(),
        0 <= place < s.submitted.len(),
        s.refill_amount > 0 || Ticket::total(s.submitted.take(place + 1)) <= s.capacity,
        forall|i: int| 0 <= i < rounds.len() ==> #[trigger] round(rounds[i], s.capacity),
    ensures
        s.run_rounds(rounds).granted.len() > place || s.run_rounds(rounds).granted.len()
            >= s.granted.len() + rounds.len(),
    decreases rounds.len(),
{
    if rounds.len() > 0 {
        let rest = rounds.drop_last();
        assert forall|i: int| 0 <= i < rest.len() implies #[trigger] round(
            rest[i],
            s.capacity,
        ) by {
            assert(rest[i] == rounds[i]);
        }
        lemma_rounds_grant(s, place, rest);
        lemma_run_rounds(s, rest);
        let before = s.run_rounds(rest);
        lemma_run(before, rounds.last());
        assert(round(rounds[rounds.len() - 1], s.capacity));
        let g = before.granted.len() as int;
        if g <= place {
            lemma_at_hand(before);
            crate::laws::ticket::lemma_total_next(before.submitted, g);
            crate::laws::ticket::lemma_total_prefix(
                before.submitted.take(g + 1),
                s.submitted.take(place + 1),
            );
            lemma_round_grants(before, rounds.last());
        }
    }
}

/// No request starves, whatever its size. The request that was sent as number `place` is granted,
/// in its place, once the limiter has gone through as many rounds as there are requests not granted
/// yet up to and with this one. Anything may happen in between: other requests, ticks, waits and
/// attempts. Where refills add nothing this holds of the requests that the full bucket of the start
/// is enough for.
pub proof fn law_no_starvation(
    capacity: usize,
    refill_amount: usize,
    events: Seq<FairEvent>,
    place: int,
    rounds: Seq<Seq<FairEvent>>,
)
    requires
        ({
            let s = FairState::reached(capacity, refill_amount, events);
            &&& 0 <= place < s.submitted.len()
            &&& refill_amount > 0 || Ticket::total(s.submitted.take(place + 1)) <= capacity
            &&& rounds.len() > place - s.granted.len()
        }),
        forall|i: int| 0 <= i < rounds.len() ==> #[trigger] round(rounds[i], capacity),
    ensures
        ({
            let s = FairState::reached(capacity, refill_amount, events);
            let after = s.run_rounds(rounds);
            after.granted.len() > place && after.granted[place] == s.submitted[place]
        }),
{
    let s = FairState::reached(capacity, refill_amount, events);
    law_limits_stay(capacity, refill_amount, events);
    lemma_rounds_grant(s, place, rounds);
    lemma_run_rounds(s, rounds);
    let after = s.run_rounds(rounds);
    lemma_at_hand(after);
    assert(after.granted[place] == after.submitted.take(after.granted.len() as int)[place]);
}

} // verus!
