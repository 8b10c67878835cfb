//! The queue of `FastQuota` beside that of `Quota`, for any number of requests.

use vstd::prelude::*;
use crate::laws::fair::{FairEvent, FairState};
use crate::laws::fast::{FastEvent, FastState};
use crate::laws::trace::Machine;
use crate::worker::{FifoWorker, GuardedNext};

verus! {

impl FastState {
    /// What a `Quota` would be in this state: the limiter without its lock and its fast path.
    pub open spec fn as_fair(self) -> FairState {
        FairState {
            capacity: self.capacity,
            refill_amount: self.refill_amount,
            tokens: self.tokens,
            started: self.started,
            refills: self.refills,
            added: self.added,
            line: self.line,
            open: self.open,
            worker: FifoWorker { stage: self.worker.stage },
            serving: self.serving,
            submitted: self.submitted,
            granted: self.granted,
        }
    }

    /// What `event` is to a queue without a lock and a fast path: the event itself, or nothing
    /// where it is one of theirs or one that the worker is not ready for.
    pub open spec fn seen(self, event: FastEvent) -> Seq<FairEvent> {
        match event {
            FastEvent::Submit(ticket) => seq![FairEvent::Submit(ticket)],
            FastEvent::Close => seq![FairEvent::Close],
            FastEvent::Tick => seq![FairEvent::Tick],
            FastEvent::Wake => seq![FairEvent::Wake],
            FastEvent::Receive => if self.looking {
                Seq::empty()
            } else {
                seq![FairEvent::Receive]
            },
            FastEvent::Attempt => if self.worker.next_spec() == GuardedNext::Attempt {
                seq![FairEvent::Attempt]
            } else {
                Seq::empty()
            },
            FastEvent::Try { .. } | FastEvent::Lock | FastEvent::Look => Seq::empty(),
        }
    }

    /// What `events` are to a queue without a lock and a fast path, where they start here.
    pub open spec fn all_seen(self, events: Seq<FastEvent>) -> Seq<FairEvent>
        decreases events.len(),
    {
        if events.len() == 0 {
            Seq::empty()
        } else {
            self.all_seen(events.drop_last()) + self.run(events.drop_last()).seen(events.last())
        }
    }

    /// Whether the worker has done all that belongs to its last step: it has looked at the queue,
    /// and holds the lock where it serves a request.
    spec fn settled(self) -> bool {
        &&& !self.looking
        &&& self.worker.stage is Ready || self.worker.stage is Waiting ==> self.worker.locked
    }
}

/// `event` where the worker takes the lock as soon as it has a request, and looks at the queue as
/// soon as it has granted one.
pub open spec fn with_lock(event: FairEvent) -> Seq<FastEvent> {
    match event {
        FairEvent::Submit(ticket) => seq![FastEvent::Submit(ticket)],
        FairEvent::Close => seq![FastEvent::Close],
        FairEvent::Tick => seq![FastEvent::Tick],
        FairEvent::Wake => seq![FastEvent::Wake],
        FairEvent::Receive => seq![FastEvent::Receive, FastEvent::Lock],
        FairEvent::Attempt => seq![FastEvent::Attempt, FastEvent::Look],
    }
}

/// `events` where the worker takes the lock as soon as it has a request, and looks at the queue as
/// soon as it has granted one.
pub open spec fn all_with_lock(events: Seq<FairEvent>) -> Seq<FastEvent>
    decreases events.len(),
{
    if events.len() == 0 {
        Seq::empty()
    } else {
        all_with_lock(events.drop_last()) + with_lock(events.last())
    }
}

/// The limiter after at most one event more.
proof fn lemma_append(s: FairState, events: Seq<FairEvent>, more: Seq<FairEvent>)
    requires
        more.len() <= 1,
    ensures
        s.run(events + more) == if more.len() == 0 {
            s.run(events)
        } else {
            s.run(events).step(more[0])
        },
{
    if more.len() == 0 {
        assert(events + more == events);
    } else {
        assert((events + more).drop_last() == events);
    }
}

/// The fast limiter after one event or two more.
proof fn lemma_append_fast(s: FastState, events: Seq<FastEvent>, more: Seq<FastEvent>)
    requires
        1 <= more.len() <= 2,
    ensures
        s.run(events + more) == if more.len() == 1 {
            s.run(events).step(more[0])
        } else {
            s.run(events).step(more[0]).step(more[1])
        },
{
    let all = events + more;
    if more.len() == 1 {
        assert(all.drop_last() == events);
    } else {
        assert(all.drop_last().drop_last() == events);
        assert(s.run(all.drop_last()) == s.run(events).step(all.drop_last().last()));
    }
}

/// While nobody was served past its queue, `FastQuota` serves that queue as `Quota` does: whatever
/// the number of requests, and however the steps of all who take part fall, there is a `Quota` to
/// which the same requests, ticks, waits and attempts happened in the same order, and it has
/// granted the same requests in the same order, holds the same number of tokens, and keeps the same
/// requests waiting. Callers who tried to pass and could not have made no difference.
pub proof fn law_same_queue(capacity: usize, refill_amount: usize, events: Seq<FastEvent>)
    requires
        FastState::reached(capacity, refill_amount, events).passed.len() == 0,
    ensures
        ({
            let start = FastState::init(capacity, refill_amount);
            let fast = FastState::reached(capacity, refill_amount, events);
            let fair = FairState::reached(capacity, refill_amount, start.all_seen(events));
            &&& fast.as_fair() == fair
            &&& fast.granted == fair.granted
            &&& fast.served == fair.granted
            &&& fast.tokens == fair.tokens
            &&& fast.serving == fair.serving
            &&& fast.line == fair.line
        }),
    decreases events.len(),
{
    let start = FastState::init(capacity, refill_amount);
    if events.len() > 0 {
        let before = FastState::reached(capacity, refill_amount, events.drop_last());
        law_same_queue(capacity, refill_amount, events.drop_last());
        lemma_append(
            FairState::init(capacity, refill_amount),
            start.all_seen(events.drop_last()),
            before.seen(events.last()),
        );
    }
}

/// `FastQuota` can do all that `Quota` does: where nobody tries to pass its queue, and its worker
/// takes the lock as soon as it has a request and looks at the queue as soon as it has granted one,
/// it grants the same requests in the same order, holds the same number of tokens, and keeps the
/// same requests waiting after every event.
pub proof fn law_same_grants(capacity: usize, refill_amount: usize, events: Seq<FairEvent>)
    ensures
        ({
            let fast = FastState::reached(capacity, refill_amount, all_with_lock(events));
            let fair = FairState::reached(capacity, refill_amount, events);
            &&& fast.as_fair() == fair
            &&& fast.granted == fair.granted
            &&& fast.served == fair.granted
            &&& fast.tokens == fair.tokens
            &&& fast.serving == fair.serving
            &&& fast.line == fair.line
        }),
{
    lemma_same_grants(capacity, refill_amount, events);
}

/// The two limiters stand alike, and the worker of the fast one is settled.
proof fn lemma_same_grants(capacity: usize, refill_amount: usize, events: Seq<FairEvent>)
    ensures
        ({
            let fast = FastState::reached(capacity, refill_amount, all_with_lock(events));
            &&& fast.as_fair() == FairState::reached(capacity, refill_amount, events)
            &&& fast.served == fast.granted
            &&& fast.settled()
        }),
    decreases events.len(),
{
    if events.len() > 0 {
        lemma_same_grants(capacity, refill_amount, events.drop_last());
        lemma_append_fast(
            FastState::init(capacity, refill_amount),
            all_with_lock(events.drop_last()),
            with_lock(events.last()),
        );
    }
}

} // verus!
