//! What each operation does, in terms of what goes in and what comes out.

use std::sync::atomic::AtomicUsize;
use std::sync::Arc;
use std::time::Duration;
use tokio::sync::{RwLock, RwLockWriteGuard};
use vstd::prelude::*;
use crate::cell::{Update, UpdateView};
use crate::primitives::Caller;
use crate::quota::{FastPath, FastQuota, Quota};
use crate::refill::{Refill, RefillTask};
use crate::request::AcquireRequest;
use crate::serve::{AcquireTask, Attempt, FastAcquireTask, GuardedAttempt};
use crate::tokens::TokenOp;
use crate::worker::{FifoWorker, GuardedNext, GuardedWorker, Next, Stage};

verus! {

/// Tokens are taken all or none: they are taken where there are enough, and what is left then and
/// what was taken are together what was there.
pub proof fn law_take(current: usize, n: usize, next: Option<usize>)
    requires
        call_ensures(TokenOp::apply, (TokenOp::Take(n), current), next),
    ensures
        next is Some <==> current >= n,
        next matches Some(left) ==> left + n == current,
        (TokenOp::Take(n)).after(current) == if current >= n {
            current - n
        } else {
            current as int
        },
{
}

/// A refill adds `refill_amount`, or what there is room for where that is less, and writes nothing
/// where that is nothing.
pub proof fn law_refill(
    current: usize,
    capacity: usize,
    refill_amount: usize,
    next: Option<usize>,
)
    requires
        call_ensures(
            TokenOp::apply,
            (TokenOp::Refill { capacity, refill_amount }, current),
            next,
        ),
    ensures
        next is Some <==> current < capacity && refill_amount > 0,
        next matches Some(held) ==> held - current == if capacity - current < refill_amount {
            capacity - current
        } else {
            refill_amount as int
        },
        (TokenOp::Refill { capacity, refill_amount }).after(current) == match next {
            Some(held) => held,
            None => current,
        },
{
}

/// A step that takes tokens says that it did where the counter held enough, and nowhere else, and
/// then leaves so many less on it. It leaves the counter alone otherwise.
pub proof fn law_step_takes(
    update: Update,
    cell: AtomicUsize,
    n: usize,
    before: usize,
    stored: bool,
)
    requires
        update@.performs(cell, TokenOp::Take(n)),
        call_ensures(Update::before, (&update,), before),
        call_ensures(Update::stored, (&update,), stored),
    ensures
        update@.cell == cell,
        stored <==> before >= n,
        stored ==> update@.after() + n == before,
        !stored ==> update@.after() == before,
{
}

/// A step that refills says that it did where there was room and something to add, and nowhere
/// else, and leaves the counter between what it held and the capacity.
pub proof fn law_step_refills(
    update: Update,
    cell: AtomicUsize,
    capacity: usize,
    refill_amount: usize,
    before: usize,
    stored: bool,
)
    requires
        update@.performs(cell, TokenOp::Refill { capacity, refill_amount }),
        call_ensures(Update::before, (&update,), before),
        call_ensures(Update::stored, (&update,), stored),
    ensures
        update@.cell == cell,
        stored <==> before < capacity && refill_amount > 0,
        stored ==> update@.after() == if before + refill_amount <= capacity {
            before + refill_amount
        } else {
            capacity as int
        },
        !stored ==> update@.after() == before,
{
}

/// Between two attempts for one request there is a wait. Where an attempt took nothing, what is
/// next is a wait of at most ten milliseconds, for every number of tokens; where it took them, the
/// next request is. An attempt is never next after an attempt, nor at first.
pub proof fn law_wait_between_attempts(
    worker: FifoWorker,
    took: bool,
    after: FifoWorker,
    next: Next,
)
    requires
        worker.next_spec() == Next::Attempt,
        after.stage == worker.stage.after_attempt(took),
        call_ensures(FifoWorker::next, (&after,), next),
    ensures
        worker.stage.serving() is Some,
        next == if took {
            Next::Receive
        } else {
            Next::Wait { millis: 10 }
        },
        after.stage.serving() == if took {
            None
        } else {
            worker.stage.serving()
        },
{
}

/// An attempt is next where a request was received, and where a wait has ended, for the request
/// that was received or attempted before. Where the queue is closed and empty nothing is next.
pub proof fn law_attempt_is_next(
    waiting: FifoWorker,
    received: Option<usize>,
    fresh: FifoWorker,
    after: FifoWorker,
)
    requires
        waiting.next_spec() is Wait,
        fresh.stage == Stage::after_receive(received),
        after.stage == waiting.stage.after_wait(),
    ensures
        fresh.next_spec() == if received is Some {
            Next::Attempt
        } else {
            Next::Stop
        },
        fresh.stage.serving() == received,
        after.next_spec() == Next::Attempt,
        after.stage.serving() == waiting.stage.serving(),
        waiting.stage.serving() is Some,
{
}

/// Between two attempts for one request there is a wait, under the lock too. Where an attempt took
/// nothing, what is next is a wait of at most ten milliseconds, for every number of tokens, and the
/// lock is kept; where it took them, the next request is, and the lock is let go of exactly where
/// no request was left in the queue.
pub proof fn law_guarded_wait_between_attempts(
    worker: GuardedWorker,
    took: bool,
    queue_empty: bool,
    after: GuardedWorker,
    next: GuardedNext,
)
    requires
        worker.next_spec() == GuardedNext::Attempt,
        after.stage == worker.stage.after_attempt(took),
        after.locked == worker.locked_after_attempt(took, queue_empty),
        call_ensures(GuardedWorker::next, (&after,), next),
    ensures
        worker.locked,
        worker.stage.serving() is Some,
        next == if took {
            GuardedNext::Receive
        } else {
            GuardedNext::Wait { millis: 10 }
        },
        after.stage.serving() == if took {
            None
        } else {
            worker.stage.serving()
        },
        after.locked <==> !took || !queue_empty,
{
}

/// An attempt is next where a request was received and the lock is held, where the lock was had for
/// it, and where a wait has ended. Where a request was received without the lock, the lock is next.
pub proof fn law_guarded_attempt_is_next(
    waiting: GuardedWorker,
    received: Option<usize>,
    fresh: GuardedWorker,
    locked: GuardedWorker,
    after: GuardedWorker,
)
    requires
        waiting.wf(),
        waiting.next_spec() is Wait,
        fresh.stage == Stage::after_receive(received),
        locked.stage == fresh.stage,
        locked.locked,
        after.stage == waiting.stage.after_wait(),
        after.locked == waiting.locked,
    ensures
        fresh.next_spec() == if received is None {
            GuardedNext::Stop
        } else if fresh.locked {
            GuardedNext::Attempt
        } else {
            GuardedNext::Lock
        },
        fresh.stage.serving() == received,
        received is Some ==> locked.next_spec() == GuardedNext::Attempt,
        after.next_spec() == GuardedNext::Attempt,
        after.stage.serving() == waiting.stage.serving(),
        waiting.stage.serving() is Some,
{
}

/// Whether one step was made between two logs, an attempt to take `n` tokens from `cell`, which
/// took them if and only if the counter held so many.
pub open spec fn one_take(
    before: Seq<UpdateView>,
    after: Seq<UpdateView>,
    cell: AtomicUsize,
    n: usize,
) -> bool {
    &&& after.len() == before.len() + 1
    &&& after.drop_last() == before
    &&& after.last().cell == cell
    &&& after.last().op == TokenOp::Take(n)
    &&& after.last().stored <==> after.last().before >= n
    &&& after.last().after() == after.last().before - if after.last().stored {
        n as int
    } else {
        0
    }
}

/// An attempt of the task makes one step, which takes the tokens of the request at hand if and only
/// if there are enough. Exactly then it tells the one who asked for them, and goes on to the next
/// request. Otherwise it keeps the request, and waits for at most ten milliseconds before anything
/// else.
pub proof fn law_attempt_serves_the_request(
    before: AcquireTask,
    attempt: Attempt,
    after: AcquireTask,
    next: Next,
)
    requires
        before.wf(),
        before.worker().next_spec() == Next::Attempt,
        before.attempted(attempt, after),
        call_ensures(AcquireTask::next, (&after,), next),
    ensures
        before.request() is Some,
        one_take(
            before.steps(),
            after.steps(),
            before.counter(),
            before.request()->0.required,
        ),
        after.counter() == before.counter(),
        after.queue() == before.queue(),
        after.wakeup() == before.wakeup(),
        attempt is Granted <==> after.steps().last().before >= before.request()->0.required,
        match attempt {
            Attempt::Granted { update, delivery } => {
                &&& update@ == after.steps().last()
                &&& delivery.to() == before.request()->0.notify
                &&& delivery.cause() == after.steps().last()
                &&& after.request() is None
                &&& next == Next::Receive
            },
            Attempt::Short { update } => {
                &&& update@ == after.steps().last()
                &&& after.request() == before.request()
                &&& next == (Next::Wait { millis: 10 })
            },
        },
{
    assert(after.steps().drop_last() == before.steps());
}

/// An attempt of the task makes one step, which takes the tokens of the request at hand if and only
/// if there are enough. Exactly then it tells the one who asked for them, looks at the queue, gives
/// back the lock if the queue is empty and keeps it if not, and goes on to the next request.
/// Otherwise it keeps the request and the lock, and waits for at most ten milliseconds before
/// anything else.
pub proof fn law_fast_attempt_serves_the_request<'a>(
    before: FastAcquireTask<'a>,
    attempt: GuardedAttempt,
    after: FastAcquireTask<'a>,
    next: GuardedNext,
)
    requires
        before.wf(),
        after.wf(),
        before.worker().next_spec() == GuardedNext::Attempt,
        before.attempted(attempt, after),
        call_ensures(FastAcquireTask::next, (&after,), next),
    ensures
        before.request() is Some,
        before.write_lock() is Some,
        one_take(
            before.steps(),
            after.steps(),
            before.counter(),
            before.request()->0.required,
        ),
        after.counter() == before.counter(),
        after.queue() == before.queue(),
        after.wakeup() == before.wakeup(),
        attempt is Granted <==> after.steps().last().before >= before.request()->0.required,
        match attempt {
            GuardedAttempt::Granted { update, delivery, check } => {
                &&& update@ == after.steps().last()
                &&& delivery.to() == before.request()->0.notify
                &&& delivery.cause() == after.steps().last()
                &&& check.queue() == before.queue()
                &&& check.follows() == delivery
                &&& after.request() is None
                &&& next == GuardedNext::Receive
                &&& if check.found_empty() {
                    &&& after.write_lock() is None
                    &&& after.released() == before.released().push(before.write_lock()->0)
                } else {
                    &&& after.write_lock() == before.write_lock()
                    &&& after.released() == before.released()
                }
            },
            GuardedAttempt::Short { update } => {
                &&& update@ == after.steps().last()
                &&& after.request() == before.request()
                &&& after.write_lock() == before.write_lock()
                &&& after.released() == before.released()
                &&& next == (GuardedNext::Wait { millis: 10 })
            },
        },
{
    assert(after.steps().drop_last() == before.steps());
}

/// A task that is given a request holds it and attempts it next, with the number of tokens that it
/// asks for, and does nothing to the counter meanwhile; one that is given none stops.
pub proof fn law_request_is_taken_over(
    before: AcquireTask,
    request: Option<AcquireRequest>,
    after: AcquireTask,
    next: Next,
)
    requires
        before.took_over(request, after),
        call_ensures(AcquireTask::next, (&after,), next),
    ensures
        after.request() == request,
        after.steps() == before.steps(),
        after.counter() == before.counter(),
        after.queue() == before.queue(),
        after.wakeup() == before.wakeup(),
        next == if request is Some {
            Next::Attempt
        } else {
            Next::Stop
        },
{
}

/// A task that is given a request holds it, with the lock if it had that, and attempts it as soon
/// as it has the lock; one that is given none stops, and gives back the lock if it had that. It
/// does nothing to the counter meanwhile.
pub proof fn law_fast_request_is_taken_over<'a>(
    before: FastAcquireTask<'a>,
    request: Option<AcquireRequest>,
    after: FastAcquireTask<'a>,
    next: GuardedNext,
)
    requires
        before.wf(),
        after.wf(),
        before.took_over(request, after),
        call_ensures(FastAcquireTask::next, (&after,), next),
    ensures
        after.request() == request,
        after.steps() == before.steps(),
        after.counter() == before.counter(),
        after.queue() == before.queue(),
        after.wakeup() == before.wakeup(),
        next == if request is None {
            GuardedNext::Stop
        } else if before.write_lock() is Some {
            GuardedNext::Attempt
        } else {
            GuardedNext::Lock
        },
        match request {
            Some(_) => {
                &&& after.write_lock() == before.write_lock()
                &&& after.released() == before.released()
            },
            None => {
                &&& after.write_lock() is None
                &&& before.write_lock() matches Some(guard) ==> after.released()
                    == before.released().push(guard)
                &&& before.write_lock() is None ==> after.released() == before.released()
            },
        },
{
}

/// A task that is given the lock for a request keeps it, and attempts the request next.
pub proof fn law_lock_is_kept<'a>(
    before: FastAcquireTask<'a>,
    guard: RwLockWriteGuard<'a, ()>,
    after: FastAcquireTask<'a>,
    next: GuardedNext,
)
    requires
        before.wf(),
        before.worker().next_spec() == GuardedNext::Lock,
        before.locked_by(guard, after),
        call_ensures(FastAcquireTask::next, (&after,), next),
    ensures
        before.write_lock() is None,
        after.write_lock() == Some(guard),
        after.released() == before.released(),
        after.request() == before.request(),
        after.request() is Some,
        after.steps() == before.steps(),
        after.counter() == before.counter(),
        after.queue() == before.queue(),
        after.wakeup() == before.wakeup(),
        next == GuardedNext::Attempt,
{
}

/// After a wait the task attempts the same request, and has done nothing to the counter.
pub proof fn law_wait_ends_in_an_attempt(before: AcquireTask, after: AcquireTask, next: Next)
    requires
        before.wf(),
        before.worker().next_spec() is Wait,
        before.waited(after),
        call_ensures(AcquireTask::next, (&after,), next),
    ensures
        after.request() == before.request(),
        after.request() is Some,
        after.steps() == before.steps(),
        after.counter() == before.counter(),
        after.queue() == before.queue(),
        after.wakeup() == before.wakeup(),
        next == Next::Attempt,
{
}

/// After a wait the task attempts the same request, with the lock that it has kept, and has done
/// nothing to the counter.
pub proof fn law_fast_wait_ends_in_an_attempt<'a>(
    before: FastAcquireTask<'a>,
    after: FastAcquireTask<'a>,
    next: GuardedNext,
)
    requires
        before.wf(),
        before.worker().next_spec() is Wait,
        before.waited(after),
        call_ensures(FastAcquireTask::next, (&after,), next),
    ensures
        after.request() == before.request(),
        after.request() is Some,
        after.write_lock() == before.write_lock(),
        after.write_lock() is Some,
        after.released() == before.released(),
        after.steps() == before.steps(),
        after.counter() == before.counter(),
        after.queue() == before.queue(),
        after.wakeup() == before.wakeup(),
        next == GuardedNext::Attempt,
{
}

/// The first tick does nothing to the counter. Every later one makes one step on it, which adds
/// `refill_amount` tokens or what there is room for; and it wakes the task that serves the queue
/// once where that is not nothing, and not at all where it is.
pub proof fn law_tick_refills_once(
    before: RefillTask,
    refill: Refill,
    after: RefillTask,
    capacity: usize,
    refill_amount: usize,
)
    requires
        before.op() == (TokenOp::Refill { capacity, refill_amount }),
        before.ticked(refill, after),
    ensures
        after.started(),
        after.op() == before.op(),
        after.counter() == before.counter(),
        after.wakeup() == before.wakeup(),
        after.interval() == before.interval(),
        refill is Started <==> !before.started(),
        if before.started() {
            let step = after.steps().last();
            &&& after.steps().len() == before.steps().len() + 1
            &&& after.steps().drop_last() == before.steps()
            &&& step.cell == before.counter()
            &&& step.op == before.op()
            &&& step.after() - step.before == if step.before >= capacity {
                0
            } else if capacity - step.before < refill_amount {
                capacity - step.before
            } else {
                refill_amount as int
            }
            &&& refill is Added <==> step.after() > step.before
            &&& after.rings() == if step.after() > step.before {
                before.rings().push(step)
            } else {
                before.rings()
            }
        } else {
            &&& after.steps() == before.steps()
            &&& after.rings() == before.rings()
        },
{
}

/// An attempt past the queue takes the tokens if and only if the lock could be had and there were
/// enough. It asks for the lock once, makes one step where the lock could be had, and none where it
/// could not. It leaves the caller with no access to the lock, and with the same limiter.
pub proof fn law_fast_path_takes_once(
    quota: &FastQuota,
    n: usize,
    fast_path: FastPath,
    before: Caller,
    after: Caller,
)
    requires
        quota.is_called_by(before),
        quota.tried(n, fast_path, before, after),
    ensures
        before.reading() == 0,
        after.reading() == 0,
        after.asked() == before.asked() + 1,
        after.cell() == quota.counter(),
        after.lock() == quota.lock(),
        fast_path matches FastPath::Busy { busy } ==> {
            &&& busy.lock() == quota.lock()
            &&& after.steps() == before.steps()
        },
        !(fast_path is Busy) ==> {
            &&& one_take(before.steps(), after.steps(), quota.counter(), n)
            &&& fast_path is Taken <==> after.steps().last().before >= n
        },
        fast_path matches FastPath::Taken { update } ==> update@ == after.steps().last(),
        fast_path matches FastPath::Short { update } ==> update@ == after.steps().last(),
{
    if !(fast_path is Busy) {
        assert(after.steps().drop_last() == before.steps());
    }
}

/// What was taken on the account of a new caller after two attempts past the queue is what those of
/// the two asked for that were served at once: nothing was taken to make the caller, and nothing
/// between.
pub proof fn law_two_calls_take_what_they_ask_for(
    quota: &Arc<FastQuota>,
    start: Caller,
    n: usize,
    middle: Caller,
    m: usize,
    end: Caller,
    first: FastPath,
    second: FastPath,
)
    requires
        call_ensures(Caller::new, (quota,), start),
        quota.tried(n, first, start, middle),
        quota.tried(m, second, middle, end),
    ensures
        crate::laws::counter::total_taken(end.steps()) == (if first is Taken {
            n as int
        } else {
            0
        }) + (if second is Taken {
            m as int
        } else {
            0
        }),
        end.steps().len() <= 2,
        end.asked() == 2,
        end.reading() == 0,
        end.cell() == quota.counter(),
{
    lemma_taken_more(quota, n, first, start, middle);
    lemma_taken_more(quota, m, second, middle, end);
}

/// What one call adds to what was taken.
proof fn lemma_taken_more(
    quota: &FastQuota,
    n: usize,
    fast_path: FastPath,
    before: Caller,
    after: Caller,
)
    requires
        quota.tried(n, fast_path, before, after),
    ensures
        crate::laws::counter::total_taken(after.steps()) == crate::laws::counter::total_taken(
            before.steps(),
        ) + if fast_path is Taken {
            n as int
        } else {
            0
        },
{
    if !(fast_path is Busy) {
        assert(after.steps().drop_last() == before.steps());
    }
}

/// To make a caller is to do nothing yet: nothing stands in its log, and it has no access to the
/// lock of the limiter that it is for.
pub proof fn law_new_caller_has_done_nothing(quota: &Arc<FastQuota>, caller: Caller)
    requires
        call_ensures(Caller::new, (quota,), caller),
    ensures
        quota.is_called_by(caller),
        caller.cell() == quota.counter(),
        caller.lock() == quota.lock(),
        caller.steps().len() == 0,
        caller.reading() == 0,
        caller.asked() == 0,
        crate::laws::counter::total_taken(caller.steps()) == 0,
{
}

/// A new `Quota` is full: its counter is the one of both its tasks, and of the handle that is shut
/// up in it, by which no step can be made; where all the steps on it stand in the tasks' logs, none
/// was made, and it holds `max_buffer`.
pub proof fn law_new_quota_is_full(
    max_buffer: usize,
    refill_amount: usize,
    refill_interval: Duration,
    parts: (Arc<Quota>, RefillTask, AcquireTask),
    steps: Seq<UpdateView>,
    interval: Duration,
)
    requires
        call_ensures(Quota::new, (max_buffer, refill_amount, refill_interval), parts),
        call_ensures(RefillTask::refill_interval, (&parts.1,), interval),
        forall|i: int|
            0 <= i < steps.len() ==> parts.1.steps().contains(#[trigger] steps[i])
                || parts.2.steps().contains(steps[i]),
    ensures
        steps.len() == 0,
        crate::laws::counter::count(parts.0.counter(), steps) == max_buffer,
        parts.0.counter() == parts.1.counter(),
        parts.0.counter() == parts.2.counter(),
        parts.0.max_buffer() == max_buffer,
        crate::primitives::queue_limit(parts.0.queue()) == 500,
        parts.1.op() == (TokenOp::Refill { capacity: max_buffer, refill_amount }),
        parts.1.rings().len() == 0,
        parts.1.wakeup() == parts.2.wakeup(),
        !parts.1.started(),
        interval == refill_interval,
        parts.2.worker().next_spec() == Next::Receive,
        parts.2.request() is None,
{
    assert(steps.len() == 0) by {
        if steps.len() > 0 {
            assert(parts.1.steps().contains(steps[0]) || parts.2.steps().contains(steps[0]));
        }
    }
}

/// A new `FastQuota` is full: its counter is the one of both its tasks, and of its gate, at which
/// nobody has called yet, as callers come of a shared handle and there is none so far. Where all
/// the steps on it stand in the tasks' logs, none was made, and it holds `max_buffer`.
pub proof fn law_new_fast_quota_is_full<'a>(
    max_buffer: usize,
    refill_amount: usize,
    refill_interval: Duration,
    parts: (FastQuota, RefillTask, FastAcquireTask<'a>, Arc<RwLock<()>>),
    steps: Seq<UpdateView>,
    interval: Duration,
)
    requires
        call_ensures(FastQuota::new, (max_buffer, refill_amount, refill_interval), parts),
        call_ensures(RefillTask::refill_interval, (&parts.1,), interval),
        forall|i: int|
            0 <= i < steps.len() ==> parts.1.steps().contains(#[trigger] steps[i])
                || parts.2.steps().contains(steps[i]),
    ensures
        steps.len() == 0,
        crate::laws::counter::count(parts.0.counter(), steps) == max_buffer,
        parts.0.counter() == parts.1.counter(),
        parts.0.counter() == parts.2.counter(),
        parts.0.max_buffer() == max_buffer,
        parts.0.lock() == *parts.3,
        crate::primitives::queue_limit(parts.0.queue()) == 500,
        parts.1.op() == (TokenOp::Refill { capacity: max_buffer, refill_amount }),
        parts.1.rings().len() == 0,
        parts.1.wakeup() == parts.2.wakeup(),
        !parts.1.started(),
        interval == refill_interval,
        parts.2.worker().next_spec() == GuardedNext::Receive,
        parts.2.request() is None,
        parts.2.write_lock() is None,
        parts.2.released().len() == 0,
{
    assert(steps.len() == 0) by {
        if steps.len() > 0 {
            assert(parts.1.steps().contains(steps[0]) || parts.2.steps().contains(steps[0]));
        }
    }
}

} // verus!
