//! The tasks that serve the queues of requests.
//!
//! A task is driven from outside. Its `next` tells what to do. The driver receives from the queue
//! and reports `received`, is given the lock and reports `lock_acquired`, or waits and reports
//! `woken`; where an attempt is next it calls `attempt`.

use std::sync::atomic::AtomicUsize;
use std::sync::Arc;
use tokio::sync::{mpsc, Notify, RwLockWriteGuard};
use vstd::prelude::*;
use crate::cell::{Update, UpdateView};
use crate::primitives::{check_queue, deliver, Counter, Delivery, QueueCheck, WriteHold};
use crate::request::AcquireRequest;
use crate::tokens::TokenOp;
use crate::worker::{FifoWorker, GuardedNext, GuardedWorker, Next, Stage};

verus! {

/// What an attempt to serve the request at hand came to.
pub enum Attempt {
    /// The tokens were taken and the requester was told.
    Granted { update: Update, delivery: Delivery },
    /// There were too few tokens.
    Short { update: Update },
}

/// What an attempt to serve the request at hand came to, under the lock.
pub enum GuardedAttempt {
    /// The tokens were taken, the requester was told, and the queue was looked at.
    Granted { update: Update, delivery: Delivery, check: QueueCheck },
    /// There were too few tokens.
    Short { update: Update },
}

/// The task that serves every request of a `Quota`, in the order of the queue.
pub struct AcquireTask {
    counter: Counter,
    worker: FifoWorker,
    request: Option<AcquireRequest>,
    receiver: mpsc::Receiver<AcquireRequest>,
    tokens_available: Arc<Notify>,
}

/// Whether a worker at `stage` serves `request`.
pub open spec fn serves(stage: Stage, request: Option<AcquireRequest>) -> bool {
    stage.serving() == required_by(request)
}

/// The number of tokens that `request` asks for.
pub open spec fn required_by(request: Option<AcquireRequest>) -> Option<usize> {
    match request {
        Some(pending) => Some(pending.required),
        None => None,
    }
}

impl AcquireTask {
    /// The counter that the task takes tokens from.
    pub closed spec fn counter(self) -> AtomicUsize {
        self.counter.cell()
    }

    /// All the steps that the task made on the counter.
    pub closed spec fn steps(self) -> Seq<UpdateView> {
        self.counter.steps()
    }

    /// How far the task has come.
    pub closed spec fn worker(self) -> FifoWorker {
        self.worker
    }

    /// The queue that the task receives requests from.
    pub closed spec fn queue(self) -> mpsc::Receiver<AcquireRequest> {
        self.receiver
    }

    /// The wake-up that the task waits for.
    pub closed spec fn wakeup(self) -> Notify {
        *self.tokens_available
    }

    /// The request at hand.
    pub closed spec fn request(self) -> Option<AcquireRequest> {
        self.request
    }

    /// The task's handle to the counter is sound.
    pub closed spec fn handle_wf(self) -> bool {
        self.counter.wf()
    }

    /// The task holds the request that its worker serves, and has done nothing to the counter but
    /// to take tokens.
    pub open spec fn wf(self) -> bool {
        &&& self.handle_wf()
        &&& crate::cell::only_takes(self.steps(), self.counter())
        &&& serves(self.worker().stage, self.request())
    }

    /// Whether both work on the same counter, queue and wake-up.
    pub open spec fn same_handles(self, other: AcquireTask) -> bool {
        &&& self.counter() == other.counter()
        &&& self.queue() == other.queue()
        &&& self.wakeup() == other.wakeup()
    }

    /// Whether the queue gave `request` and that left the task as `after`.
    pub open spec fn took_over(self, request: Option<AcquireRequest>, after: AcquireTask) -> bool {
        &&& after.same_handles(self)
        &&& after.steps() == self.steps()
        &&& after.worker().stage == Stage::after_receive(required_by(request))
        &&& after.request() == request
    }

    /// Whether a wait ended and left the task as `after`.
    pub open spec fn waited(self, after: AcquireTask) -> bool {
        &&& after.same_handles(self)
        &&& after.steps() == self.steps()
        &&& after.worker().stage == self.worker().stage.after_wait()
        &&& after.request() == self.request()
    }

    /// Whether an attempt came to `attempt` and left the task as `after`. It makes one step on the
    /// counter, and after that tells the requester if and only if the step took the tokens.
    pub open spec fn attempted(self, attempt: Attempt, after: AcquireTask) -> bool {
        &&& after.same_handles(self)
        &&& match attempt {
            Attempt::Granted { update, delivery } => {
                &&& update@.performs(
                    self.counter(),
                    TokenOp::Take(self.request()->0.required),
                )
                &&& update@.stored
                &&& delivery.to() == self.request()->0.notify
                &&& delivery.cause() == update@
                &&& after.steps() == self.steps().push(update@)
                &&& after.worker().stage == self.worker().stage.after_attempt(true)
                &&& after.request() is None
            },
            Attempt::Short { update } => {
                &&& update@.performs(
                    self.counter(),
                    TokenOp::Take(self.request()->0.required),
                )
                &&& !update@.stored
                &&& after.steps() == self.steps().push(update@)
                &&& after.worker().stage == self.worker().stage.after_attempt(false)
                &&& after.request() == self.request()
            },
        }
    }

    /// A task that has yet to receive its first request.
    pub(crate) fn new(
        counter: Counter,
        receiver: mpsc::Receiver<AcquireRequest>,
        tokens_available: Arc<Notify>,
    ) -> (task: AcquireTask)
        requires
            counter.wf(),
            counter.steps() == Seq::<UpdateView>::empty(),
        ensures
            task.wf(),
            task.counter() == counter.cell(),
            task.steps() == counter.steps(),
            task.worker().stage == Stage::Idle,
            task.queue() == receiver,
            task.wakeup() == *tokens_available,
    {
        AcquireTask {
            counter,
            worker: FifoWorker::new(),
            request: None,
            receiver,
            tokens_available,
        }
    }

    /// Tells what to do next.
    pub fn next(&self) -> (next: Next)
        ensures
            next == self.worker().next_spec(),
    {
        self.worker.next()
    }

    /// The queue to receive the next request from.
    pub fn receiver(&mut self) -> (receiver: &mut mpsc::Receiver<AcquireRequest>)
        ensures
            *receiver == old(self).queue(),
            final(self).queue() == *final(receiver),
            final(self).handle_wf() == old(self).handle_wf(),
            final(self).counter() == old(self).counter(),
            final(self).steps() == old(self).steps(),
            final(self).wakeup() == old(self).wakeup(),
            final(self).worker() == old(self).worker(),
            final(self).request() == old(self).request(),
    {
        &mut self.receiver
    }

    /// The wake-up to wait for.
    pub fn tokens_available(&self) -> (tokens_available: &Notify)
        ensures
            *tokens_available == self.wakeup(),
    {
        &self.tokens_available
    }

    /// The queue gave `request`, or `None` where it is closed and empty. The task then stops.
    pub fn received(&mut self, request: Option<AcquireRequest>)
        requires
            old(self).wf(),
            old(self).worker().next_spec() == Next::Receive,
        ensures
            final(self).wf(),
            old(self).took_over(request, *final(self)),
    {
        match &request {
            Some(pending) => self.worker.received(Some(pending.required)),
            None => self.worker.received(None),
        }
        self.request = request;
    }

    /// Attempts to take the tokens for the request at hand, in one atomic step, and tells the
    /// requester where they were had. The request stays at hand where they were not.
    pub fn attempt(&mut self) -> (attempt: Attempt)
        requires
            old(self).wf(),
            old(self).worker().next_spec() == Next::Attempt,
        ensures
            final(self).wf(),
            old(self).attempted(attempt, *final(self)),
    {
        let request = self.request.take().unwrap();
        let update = self.counter.step(TokenOp::Take(request.required));
        let took = update.stored();
        self.worker.attempted(took);
        if took {
            let delivery = deliver(request.notify, &update);
            Attempt::Granted { update, delivery }
        } else {
            self.request = Some(request);
            Attempt::Short { update }
        }
    }

    /// The wait is over, by a wake-up or by the time that has passed.
    pub fn woken(&mut self)
        requires
            old(self).wf(),
            old(self).worker().next_spec() is Wait,
        ensures
            final(self).wf(),
            old(self).waited(*final(self)),
    {
        self.worker.woken();
    }
}

/// The task that serves the requests of a `FastQuota` that could not be served at once, in the
/// order of the queue.
pub struct FastAcquireTask<'a> {
    counter: Counter,
    worker: GuardedWorker,
    request: Option<AcquireRequest>,
    write_lock: WriteHold<'a>,
    receiver: mpsc::Receiver<AcquireRequest>,
    tokens_available: Arc<Notify>,
}

impl<'a> FastAcquireTask<'a> {
    /// The counter that the task takes tokens from.
    pub closed spec fn counter(self) -> AtomicUsize {
        self.counter.cell()
    }

    /// All the steps that the task made on the counter.
    pub closed spec fn steps(self) -> Seq<UpdateView> {
        self.counter.steps()
    }

    /// How far the task has come.
    pub closed spec fn worker(self) -> GuardedWorker {
        self.worker
    }

    /// The queue that the task receives requests from.
    pub closed spec fn queue(self) -> mpsc::Receiver<AcquireRequest> {
        self.receiver
    }

    /// The wake-up that the task waits for.
    pub closed spec fn wakeup(self) -> Notify {
        *self.tokens_available
    }

    /// The request at hand.
    pub closed spec fn request(self) -> Option<AcquireRequest> {
        self.request
    }

    /// The access to the lock that the task holds.
    pub closed spec fn write_lock(self) -> Option<RwLockWriteGuard<'a, ()>> {
        self.write_lock.guard()
    }

    /// The accesses to the lock that the task has given back, in order.
    pub closed spec fn released(self) -> Seq<RwLockWriteGuard<'a, ()>> {
        self.write_lock.released()
    }

    /// The task's handle to the counter is sound.
    pub closed spec fn handle_wf(self) -> bool {
        self.counter.wf()
    }

    /// The task holds the request that its worker serves and the lock that its worker counts on,
    /// and has done nothing to the counter but to take tokens.
    pub open spec fn wf(self) -> bool {
        &&& self.handle_wf()
        &&& crate::cell::only_takes(self.steps(), self.counter())
        &&& self.worker().wf()
        &&& serves(self.worker().stage, self.request())
        &&& self.worker().locked == (self.write_lock() is Some)
    }

    /// Whether both work on the same counter, queue and wake-up.
    pub open spec fn same_handles(self, other: FastAcquireTask<'a>) -> bool {
        &&& self.counter() == other.counter()
        &&& self.queue() == other.queue()
        &&& self.wakeup() == other.wakeup()
    }

    /// Whether the queue gave `request` and that left the task as `after`. A task that stops gives
    /// back the access to the lock that it holds, if any.
    pub open spec fn took_over(
        self,
        request: Option<AcquireRequest>,
        after: FastAcquireTask<'a>,
    ) -> bool {
        &&& after.same_handles(self)
        &&& after.steps() == self.steps()
        &&& after.worker().stage == Stage::after_receive(required_by(request))
        &&& after.worker().locked == (self.worker().locked && request is Some)
        &&& after.request() == request
        &&& if request is Some {
            after.same_lock(self)
        } else {
            after.gave_back(self)
        }
    }

    /// Whether write access to the lock was had by `guard` and that left the task as `after`.
    pub open spec fn locked_by(
        self,
        guard: RwLockWriteGuard<'a, ()>,
        after: FastAcquireTask<'a>,
    ) -> bool {
        &&& after.same_handles(self)
        &&& after.steps() == self.steps()
        &&& after.worker().stage == self.worker().stage
        &&& after.worker().locked
        &&& after.request() == self.request()
        &&& after.write_lock() == Some(guard)
        &&& after.released() == self.released()
    }

    /// Whether a wait ended and left the task as `after`.
    pub open spec fn waited(self, after: FastAcquireTask<'a>) -> bool {
        &&& after.same_handles(self)
        &&& after.steps() == self.steps()
        &&& after.worker().stage == self.worker().stage.after_wait()
        &&& after.worker().locked == self.worker().locked
        &&& after.request() == self.request()
        &&& after.same_lock(self)
    }

    /// Whether the access to the lock stayed as it was in `before`.
    pub open spec fn same_lock(self, before: FastAcquireTask<'a>) -> bool {
        &&& self.write_lock() == before.write_lock()
        &&& self.released() == before.released()
    }

    /// Whether the access to the lock that was held in `before` was given back.
    pub open spec fn gave_back(self, before: FastAcquireTask<'a>) -> bool {
        &&& self.write_lock() is None
        &&& self.released() == match before.write_lock() {
            Some(guard) => before.released().push(guard),
            None => before.released(),
        }
    }

    /// Whether an attempt came to `attempt` and left the task as `after`. It makes one step on the
    /// counter, and if and only if that took the tokens it tells the requester and then looks at
    /// the queue. It gives back the lock if and only if it finds the queue empty.
    pub open spec fn attempted(self, attempt: GuardedAttempt, after: FastAcquireTask<'a>) -> bool {
        &&& after.same_handles(self)
        &&& match attempt {
            GuardedAttempt::Granted { update, delivery, check } => {
                &&& update@.performs(
                    self.counter(),
                    TokenOp::Take(self.request()->0.required),
                )
                &&& update@.stored
                &&& delivery.to() == self.request()->0.notify
                &&& delivery.cause() == update@
                &&& check.queue() == self.queue()
                &&& check.follows() == delivery
                &&& after.steps() == self.steps().push(update@)
                &&& after.worker().stage == self.worker().stage.after_attempt(true)
                &&& after.worker().locked == self.worker().locked_after_attempt(
                    true,
                    check.found_empty(),
                )
                &&& after.request() is None
                &&& if check.found_empty() {
                    after.gave_back(self)
                } else {
                    after.same_lock(self)
                }
            },
            GuardedAttempt::Short { update } => {
                &&& update@.performs(
                    self.counter(),
                    TokenOp::Take(self.request()->0.required),
                )
                &&& !update@.stored
                &&& after.steps() == self.steps().push(update@)
                &&& after.worker().stage == self.worker().stage.after_attempt(false)
                &&& after.worker().locked
                &&& after.request() == self.request()
                &&& after.same_lock(self)
            },
        }
    }

    /// A task that has yet to receive its first request.
    pub(crate) fn new(
        counter: Counter,
        receiver: mpsc::Receiver<AcquireRequest>,
        tokens_available: Arc<Notify>,
    ) -> (task: FastAcquireTask<'a>)
        requires
            counter.wf(),
            counter.steps() == Seq::<UpdateView>::empty(),
        ensures
            task.wf(),
            task.counter() == counter.cell(),
            task.steps() == counter.steps(),
            task.worker().stage == Stage::Idle,
            !task.worker().locked,
            task.released() == Seq::<RwLockWriteGuard<'a, ()>>::empty(),
            task.queue() == receiver,
            task.wakeup() == *tokens_available,
    {
        FastAcquireTask {
            counter,
            worker: GuardedWorker::new(),
            request: None,
            write_lock: WriteHold::new(),
            receiver,
            tokens_available,
        }
    }

    /// Tells what to do next.
    pub fn next(&self) -> (next: GuardedNext)
        ensures
            next == self.worker().next_spec(),
    {
        self.worker.next()
    }

    /// The queue to receive the next request from.
    pub fn receiver(&mut self) -> (receiver: &mut mpsc::Receiver<AcquireRequest>)
        ensures
            *receiver == old(self).queue(),
            final(self).queue() == *final(receiver),
            final(self).handle_wf() == old(self).handle_wf(),
            final(self).counter() == old(self).counter(),
            final(self).steps() == old(self).steps(),
            final(self).wakeup() == old(self).wakeup(),
            final(self).worker() == old(self).worker(),
            final(self).request() == old(self).request(),
            final(self).same_lock(*old(self)),
    {
        &mut self.receiver
    }

    /// The wake-up to wait for.
    pub fn tokens_available(&self) -> (tokens_available: &Notify)
        ensures
            *tokens_available == self.wakeup(),
    {
        &self.tokens_available
    }

    /// The queue gave `request`, or `None` where it is closed and empty. The task then stops, and
    /// does not hold the lock.
    pub fn received(&mut self, request: Option<AcquireRequest>)
        requires
            old(self).wf(),
            old(self).worker().next_spec() == GuardedNext::Receive,
        ensures
            final(self).wf(),
            old(self).took_over(request, *final(self)),
    {
        match &request {
            Some(pending) => self.worker.received(Some(pending.required)),
            None => {
                self.worker.received(None);
                self.write_lock.release();
            },
        }
        self.request = request;
    }

    /// Write access to the lock was had. The task keeps it for as long as it finds requests in the
    /// queue.
    pub fn lock_acquired(&mut self, write_lock: RwLockWriteGuard<'a, ()>)
        requires
            old(self).wf(),
            old(self).worker().next_spec() == GuardedNext::Lock,
        ensures
            final(self).wf(),
            old(self).locked_by(write_lock, *final(self)),
    {
        self.worker.lock_acquired();
        self.write_lock.hold(write_lock);
    }

    /// Attempts to take the tokens for the request at hand, in one atomic step. Where they were
    /// had, tells the requester, looks at the queue, and lets go of the lock if no request is left
    /// in it. The request stays at hand, and the lock is kept, where they were not.
    pub fn attempt(&mut self) -> (attempt: GuardedAttempt)
        requires
            old(self).wf(),
            old(self).worker().next_spec() == GuardedNext::Attempt,
        ensures
            final(self).wf(),
            old(self).attempted(attempt, *final(self)),
    {
        let request = self.request.take().unwrap();
        let update = self.counter.step(TokenOp::Take(request.required));
        if update.stored() {
            let delivery = deliver(request.notify, &update);
            let check = check_queue(&self.receiver, &delivery);
            self.worker.attempted(true, check.empty());
            if check.empty() {
                self.write_lock.release();
            }
            GuardedAttempt::Granted { update, delivery, check }
        } else {
            self.worker.attempted(false, false);
            self.request = Some(request);
            GuardedAttempt::Short { update }
        }
    }

    /// The wait is over, by a wake-up or by the time that has passed.
    pub fn woken(&mut self)
        requires
            old(self).wf(),
            old(self).worker().next_spec() is Wait,
        ensures
            final(self).wf(),
            old(self).waited(*final(self)),
    {
        self.worker.woken();
    }
}

/// What is said of a task is said of what it holds, and of the whole log of its handle.
proof fn law_task_accounts(task: AcquireTask)
    ensures
        task.counter() == task.counter.cell(),
        task.steps() == task.counter.steps(),
        task.handle_wf() == task.counter.wf(),
        task.worker() == task.worker,
        task.request() == task.request,
        task.queue() == task.receiver,
        task.wakeup() == *task.tokens_available,
{
}

/// What is said of a task is said of what it holds, and of the whole logs of its handle and of the
/// lock.
proof fn law_fast_task_accounts<'a>(task: FastAcquireTask<'a>)
    ensures
        task.counter() == task.counter.cell(),
        task.steps() == task.counter.steps(),
        task.handle_wf() == task.counter.wf(),
        task.worker() == task.worker,
        task.request() == task.request,
        task.queue() == task.receiver,
        task.wakeup() == *task.tokens_available,
        task.write_lock() == task.write_lock.guard(),
        task.released() == task.write_lock.released(),
{
}

} // verus!
