//! The tasks and limiters take the steps that the laws speak of.
//!
//! Each law here starts from what the contract of an executable function says and ends in the
//! matching step of `FairState` or `FastState`. Three things join the two that no contract can say,
//! as they are the doing of several tasks, and stand in the laws' `requires`: an atomic step meets
//! the value that the model's counter holds; the queue hands out what is first in the model's line,
//! and tells that it is empty where the line is; and a caller has read access to the lock only
//! while the worker has no write access.

use std::sync::Arc;
use std::time::Duration;
use tokio::sync::{oneshot, RwLock, RwLockWriteGuard};
use vstd::prelude::*;
use crate::laws::fair::{FairEvent, FairState};
use crate::laws::fast::{FastEvent, FastState};
use crate::laws::ticket::Ticket;
use crate::laws::trace::Machine;
use crate::primitives::Caller;
use crate::quota::{FastPath, FastQuota, PendingAcquire, Quota, QUEUE_LIMIT};
use crate::refill::{Refill, RefillTask};
use crate::request::AcquireRequest;
use crate::serve::{AcquireTask, Attempt, FastAcquireTask, GuardedAttempt};
use crate::worker::{GuardedNext, Next};

verus! {

/// Whether `ticket` stands for `request`: it asks for the same, and for the one who is told on the
/// channel of the request, where `who` tells whose channel is whose.
pub open spec fn stands_for(
    who: spec_fn(oneshot::Sender<()>) -> int,
    ticket: Option<Ticket>,
    request: Option<AcquireRequest>,
) -> bool {
    match (ticket, request) {
        (Some(t), Some(r)) => t.required == r.required && t.id == who(r.notify),
        (None, None) => true,
        _ => false,
    }
}

/// Whether the queue hands out `request` where its line is `line` and somebody can still send
/// requests to it if `open`.
pub open spec fn hands_out(
    who: spec_fn(oneshot::Sender<()>) -> int,
    line: Seq<Ticket>,
    open: bool,
    request: Option<AcquireRequest>,
) -> bool {
    match request {
        Some(_) => line.len() > 0 && stands_for(who, Some(line.first()), request),
        None => line.len() == 0 && !open,
    }
}

/// Whether a tick that left `before` as `after` did to the counter what takes it from `tokens` to
/// `next`: no step, or one, and one call for the task that serves the queue if tokens were added.
pub open spec fn refills(
    before: RefillTask,
    after: RefillTask,
    tokens: usize,
    next: usize,
) -> bool {
    &&& if after.steps() == before.steps() {
        next == tokens
    } else {
        &&& after.steps().len() == before.steps().len() + 1
        &&& after.steps().last().before == tokens
        &&& after.steps().last().after() == next
    }
    &&& after.rings().len() == before.rings().len() + if next > tokens {
        1int
    } else {
        0int
    }
}

/// Whether a step of a tick on the counter meets `tokens`.
pub open spec fn tick_meets(refill: Refill, tokens: usize) -> bool {
    match refill {
        Refill::Started => true,
        Refill::Added { update } => update@.before == tokens,
        Refill::Unchanged { update } => update@.before == tokens,
    }
}

impl FairState {
    /// Whether this is the state of a limiter whose counter holds `tokens` and whose queue `task`
    /// serves.
    pub open spec fn describes(
        self,
        who: spec_fn(oneshot::Sender<()>) -> int,
        tokens: usize,
        task: AcquireTask,
    ) -> bool {
        &&& self.tokens == tokens
        &&& self.worker == task.worker()
        &&& stands_for(who, self.serving, task.request())
    }
}

impl FastState {
    /// Whether this is the state of a limiter whose counter holds `tokens` and whose queue `task`
    /// serves.
    pub open spec fn describes(
        self,
        who: spec_fn(oneshot::Sender<()>) -> int,
        tokens: usize,
        task: FastAcquireTask,
    ) -> bool {
        &&& self.tokens == tokens
        &&& self.worker == task.worker()
        &&& stands_for(who, self.serving, task.request())
    }
}

/// What `Quota::new` creates is in the state that the laws start from.
pub proof fn law_new_quota(
    who: spec_fn(oneshot::Sender<()>) -> int,
    max_buffer: usize,
    refill_amount: usize,
    refill_interval: Duration,
    parts: (Arc<Quota>, RefillTask, AcquireTask),
)
    requires
        call_ensures(Quota::new, (max_buffer, refill_amount, refill_interval), parts),
    ensures
        ({
            let s = FairState::init(max_buffer, refill_amount);
            &&& s.describes(who, crate::cell::initial_count(parts.2.counter()), parts.2)
            &&& s.started == parts.1.started()
            &&& s.refill_op() == parts.1.op()
            &&& s.capacity == parts.0.max_buffer()
            &&& parts.1.steps().len() == 0 && parts.2.steps().len() == 0
        }),
{
}

/// A request that `Quota::admits` does not admit is refused by the step, and one that it admits and
/// `Quota::acquire` prepares joins the line, if somebody can still send it and there is a place.
pub proof fn law_submit(
    who: spec_fn(oneshot::Sender<()>) -> int,
    s: FairState,
    quota: &Quota,
    ticket: Ticket,
    admits: bool,
    pending: PendingAcquire,
)
    requires
        s.capacity == quota.max_buffer(),
        ticket.id == who(pending.request.notify),
        call_ensures(Quota::admits, (quota, ticket.required), admits),
        admits ==> call_ensures(Quota::acquire, (quota, ticket.required), pending),
    ensures
        ({
            let next = s.step(FairEvent::Submit(ticket));
            if admits && s.open && s.line.len() < QUEUE_LIMIT {
                &&& next == (FairState {
                    line: s.line.push(ticket),
                    submitted: s.submitted.push(ticket),
                    ..s
                })
                &&& stands_for(who, Some(ticket), Some(pending.request))
            } else {
                next == s
            }
        }),
{
}

/// `AcquireTask::received` takes over what the queue hands out, or stops, as the step does.
pub proof fn law_receive(
    who: spec_fn(oneshot::Sender<()>) -> int,
    s: FairState,
    tokens: usize,
    before: AcquireTask,
    request: Option<AcquireRequest>,
    after: AcquireTask,
)
    requires
        s.describes(who, tokens, before),
        before.wf(),
        before.worker().next_spec() == Next::Receive,
        hands_out(who, s.line, s.open, request),
        before.took_over(request, after),
    ensures
        s.step(FairEvent::Receive).describes(who, tokens, after),
        request matches Some(r) ==> s.step(FairEvent::Receive).serving->0.id == who(r.notify),
{
}

/// `AcquireTask::attempt` grants the request at hand, and takes its tokens, exactly where the step
/// does, and does nothing else to the counter.
pub proof fn law_attempt(
    who: spec_fn(oneshot::Sender<()>) -> int,
    s: FairState,
    before: AcquireTask,
    attempt: Attempt,
    after: AcquireTask,
)
    requires
        before.wf(),
        before.worker().next_spec() == Next::Attempt,
        before.attempted(attempt, after),
        s.describes(who, after.steps().last().before, before),
    ensures
        ({
            let next = s.step(FairEvent::Attempt);
            &&& after.steps() == before.steps().push(after.steps().last())
            &&& next.describes(who, after.steps().last().after(), after)
            &&& match attempt {
                Attempt::Granted { delivery, .. } => {
                    &&& next.granted == s.granted.push(s.serving->0)
                    &&& next.granted.last().id == who(delivery.to())
                },
                Attempt::Short { .. } => next.granted == s.granted,
            }
        }),
{
}

/// `AcquireTask::woken` ends the wait as the step does.
pub proof fn law_wake(
    who: spec_fn(oneshot::Sender<()>) -> int,
    s: FairState,
    tokens: usize,
    before: AcquireTask,
    after: AcquireTask,
)
    requires
        s.describes(who, tokens, before),
        before.waited(after),
    ensures
        s.step(FairEvent::Wake).describes(who, tokens, after),
{
}

/// `RefillTask::tick` does to the counter just what the step does: nothing at first, one refill
/// later. It wakes the task that serves the queue where the step adds tokens, and nowhere else.
pub proof fn law_tick(s: FairState, before: RefillTask, refill: Refill, after: RefillTask)
    requires
        before.ticked(refill, after),
        s.started == before.started(),
        s.refill_op() == before.op(),
        tick_meets(refill, s.tokens),
    ensures
        ({
            let next = s.step(FairEvent::Tick);
            &&& next.started
            &&& next.started != s.started <==> refill is Started
            &&& refills(before, after, s.tokens, next.tokens)
        }),
{
}

/// What `FastQuota::new` creates is in the state that the laws start from.
pub proof fn law_new_fast_quota<'a>(
    who: spec_fn(oneshot::Sender<()>) -> int,
    max_buffer: usize,
    refill_amount: usize,
    refill_interval: Duration,
    parts: (FastQuota, RefillTask, FastAcquireTask<'a>, Arc<RwLock<()>>),
)
    requires
        call_ensures(FastQuota::new, (max_buffer, refill_amount, refill_interval), parts),
    ensures
        ({
            let s = FastState::init(max_buffer, refill_amount);
            &&& s.describes(who, crate::cell::initial_count(parts.0.counter()), parts.2)
            &&& s.started == parts.1.started()
            &&& s.refill_op() == parts.1.op()
            &&& s.capacity == parts.0.max_buffer()
            &&& parts.1.steps().len() == 0 && parts.2.steps().len() == 0
        }),
{
}

/// `FastQuota::fast_path_acquire` takes tokens past the queue exactly where the step does, and does
/// nothing else to the counter; where the lock is busy it does nothing to it.
pub proof fn law_try(
    s: FastState,
    quota: &FastQuota,
    ticket: Ticket,
    fast_path: FastPath,
    before: Caller,
    after: Caller,
)
    requires
        s.capacity == quota.max_buffer(),
        ticket.required <= quota.max_buffer(),
        quota.tried(ticket.required, fast_path, before, after),
        !(fast_path is Busy) ==> after.steps().last().before == s.tokens && !s.worker.locked,
    ensures
        ({
            let next = s.step(FastEvent::Try { ticket, free: !(fast_path is Busy) });
            &&& next.passed == if fast_path is Taken {
                s.passed.push(ticket)
            } else {
                s.passed
            }
            &&& if fast_path is Busy {
                &&& after.steps() == before.steps()
                &&& next == s
            } else {
                &&& after.steps() == before.steps().push(after.steps().last())
                &&& next.tokens == after.steps().last().after()
            }
        }),
{
}

/// A request that `FastQuota::admits` does not admit is refused by the step, and one that it admits
/// and `FastQuota::acquire` prepares joins the line, if somebody can still send it and there is a
/// place.
pub proof fn law_fast_submit(
    who: spec_fn(oneshot::Sender<()>) -> int,
    s: FastState,
    quota: &FastQuota,
    ticket: Ticket,
    admits: bool,
    pending: PendingAcquire,
)
    requires
        s.capacity == quota.max_buffer(),
        ticket.id == who(pending.request.notify),
        call_ensures(FastQuota::admits, (quota, ticket.required), admits),
        admits ==> call_ensures(FastQuota::slow_path_acquire, (quota, ticket.required), pending),
    ensures
        ({
            let next = s.step(FastEvent::Submit(ticket));
            if admits && s.open && s.line.len() < QUEUE_LIMIT {
                &&& next == (FastState {
                    line: s.line.push(ticket),
                    submitted: s.submitted.push(ticket),
                    ..s
                })
                &&& stands_for(who, Some(ticket), Some(pending.request))
            } else {
                next == s
            }
        }),
{
}

/// `FastAcquireTask::received` takes over what the queue hands out, or stops, as the step does.
pub proof fn law_fast_receive<'a>(
    who: spec_fn(oneshot::Sender<()>) -> int,
    s: FastState,
    tokens: usize,
    before: FastAcquireTask<'a>,
    request: Option<AcquireRequest>,
    after: FastAcquireTask<'a>,
)
    requires
        s.describes(who, tokens, before),
        !s.looking,
        before.wf(),
        before.worker().next_spec() == GuardedNext::Receive,
        hands_out(who, s.line, s.open, request),
        before.took_over(request, after),
    ensures
        s.step(FastEvent::Receive).describes(who, tokens, after),
        request matches Some(r) ==> s.step(FastEvent::Receive).serving->0.id == who(r.notify),
{
}

/// `FastAcquireTask::lock_acquired` keeps the lock as the step does.
pub proof fn law_fast_lock<'a>(
    who: spec_fn(oneshot::Sender<()>) -> int,
    s: FastState,
    tokens: usize,
    before: FastAcquireTask<'a>,
    guard: RwLockWriteGuard<'a, ()>,
    after: FastAcquireTask<'a>,
)
    requires
        s.describes(who, tokens, before),
        before.worker().next_spec() == GuardedNext::Lock,
        before.locked_by(guard, after),
    ensures
        s.step(FastEvent::Lock).describes(who, tokens, after),
{
}

/// Whether `event` is not one of the worker.
pub open spec fn of_others(event: FastEvent) -> bool {
    event is Try || event is Submit || event is Close || event is Tick
}

/// What others do leaves the worker as it is.
proof fn lemma_others(s: FastState, between: Seq<FastEvent>)
    requires
        forall|i: int| 0 <= i < between.len() ==> of_others(#[trigger] between[i]),
    ensures
        s.run(between).worker == s.worker,
        s.run(between).serving == s.serving,
        s.run(between).looking == s.looking,
    decreases between.len(),
{
    if between.len() > 0 {
        let rest = between.drop_last();
        assert forall|i: int| 0 <= i < rest.len() implies of_others(#[trigger] rest[i]) by {
            assert(rest[i] == between[i]);
        }
        lemma_others(s, rest);
        assert(of_others(between[between.len() - 1]));
    }
}

/// `FastAcquireTask::attempt` grants the request at hand, and takes its tokens, exactly where the
/// step does, and does nothing else to the counter. Where it grants, others may do anything
/// `between` this and its look at the queue, such as to send requests; it lets go of the lock if
/// the queue is empty then.
pub proof fn law_fast_attempt<'a>(
    who: spec_fn(oneshot::Sender<()>) -> int,
    s: FastState,
    before: FastAcquireTask<'a>,
    attempt: GuardedAttempt,
    between: Seq<FastEvent>,
    after: FastAcquireTask<'a>,
)
    requires
        before.wf(),
        before.worker().next_spec() == GuardedNext::Attempt,
        before.attempted(attempt, after),
        !s.looking,
        s.describes(who, after.steps().last().before, before),
        forall|i: int| 0 <= i < between.len() ==> of_others(#[trigger] between[i]),
        attempt matches GuardedAttempt::Granted { check, .. } ==> check.found_empty() == (s.step(
            FastEvent::Attempt,
        ).run(between).line.len() == 0),
    ensures
        ({
            let taken = s.step(FastEvent::Attempt);
            let looked = taken.run(between).step(FastEvent::Look);
            &&& after.steps() == before.steps().push(after.steps().last())
            &&& taken.tokens == after.steps().last().after()
            &&& match attempt {
                GuardedAttempt::Granted { delivery, .. } => {
                    &&& taken.granted == s.granted.push(s.serving->0)
                    &&& taken.granted.last().id == who(delivery.to())
                },
                GuardedAttempt::Short { .. } => taken.granted == s.granted,
            }
            &&& looked.describes(who, looked.tokens, after)
        }),
{
    lemma_others(s.step(FastEvent::Attempt), between);
}

/// `FastAcquireTask::woken` ends the wait as the step does.
pub proof fn law_fast_wake<'a>(
    who: spec_fn(oneshot::Sender<()>) -> int,
    s: FastState,
    tokens: usize,
    before: FastAcquireTask<'a>,
    after: FastAcquireTask<'a>,
)
    requires
        s.describes(who, tokens, before),
        before.waited(after),
    ensures
        s.step(FastEvent::Wake).describes(who, tokens, after),
{
}

/// `RefillTask::tick` does to the counter just what the step does: nothing at first, one refill
/// later. It wakes the task that serves the queue where the step adds tokens, and nowhere else.
pub proof fn law_fast_tick(s: FastState, before: RefillTask, refill: Refill, after: RefillTask)
    requires
        before.ticked(refill, after),
        s.started == before.started(),
        s.refill_op() == before.op(),
        tick_meets(refill, s.tokens),
    ensures
        ({
            let next = s.step(FastEvent::Tick);
            &&& next.started
            &&& next.started != s.started <==> refill is Started
            &&& refills(before, after, s.tokens, next.tokens)
        }),
{
}

} // verus!
