//! The two rate limiters.

use std::sync::atomic::AtomicUsize;
use std::sync::Arc;
use std::time::Duration;
use tokio::sync::{mpsc, oneshot, RwLock};
use vstd::prelude::*;
use crate::cell::{CallerRight, Update, UpdateView};
use crate::lock::{new_lock, Busy, ReadRight};
use crate::primitives::{
    grant_channel, new_bell, new_counter, request_queue, Caller, Gate, OpenCounter,
};
use crate::refill::RefillTask;
use crate::request::AcquireRequest;
use crate::serve::{AcquireTask, FastAcquireTask};
use crate::tokens::TokenOp;

verus! {

/// How many requests a queue holds before a requester has to wait for a place in it.
pub const QUEUE_LIMIT: usize = 500;

/// A request that is to be sent to the queue, and the channel on which its grant arrives.
pub struct PendingAcquire {
    /// What to send to the queue.
    pub request: AcquireRequest,
    /// What to wait for after that.
    pub granted: oneshot::Receiver<()>,
}

/// Prepares a request for `n` tokens.
fn prepare(n: usize) -> (pending: PendingAcquire)
    ensures
        pending.request.required == n,
        crate::primitives::paired(pending.request.notify, pending.granted),
{
    let (notify, granted) = grant_channel();
    PendingAcquire { request: AcquireRequest { required: n, notify }, granted }
}

/// A rate limiter that serves every request through one queue, in order. Only its tasks act on the
/// counter of tokens: the handle by which callers could is kept here, and no step can be made by
/// it.
///
/// It is shared between callers by cloning the `Arc`.
pub struct Quota {
    max_buffer: usize,
    acquire_sender: mpsc::Sender<AcquireRequest>,
    shut: OpenCounter,
}

impl Quota {
    /// The most tokens that the bucket holds, and the most that one request may ask for.
    pub closed spec fn max_buffer(self) -> usize {
        self.max_buffer
    }

    /// The queue of requests.
    pub closed spec fn queue(self) -> mpsc::Sender<AcquireRequest> {
        self.acquire_sender
    }

    /// The counter of tokens.
    pub closed spec fn counter(self) -> AtomicUsize {
        self.shut.cell()
    }

    /// Creates a full bucket of `max_buffer` tokens, with the task that adds `refill_amount` tokens
    /// every `refill_interval` and the task that serves the queue. Both tasks are to be driven for
    /// as long as the limiter is used. They are the only ones to act on the counter, and neither
    /// has yet.
    pub fn new(max_buffer: usize, refill_amount: usize, refill_interval: Duration) -> (parts: (
        Arc<Quota>,
        RefillTask,
        AcquireTask,
    ))
        ensures
            parts.0.max_buffer() == max_buffer,
            crate::primitives::linked(parts.0.queue(), parts.2.queue()),
            crate::primitives::queue_limit(parts.0.queue()) == QUEUE_LIMIT,
            crate::cell::initial_count(parts.0.counter()) == max_buffer,
            crate::cell::initial_count(parts.1.counter()) == max_buffer,
            parts.1.counter() == parts.0.counter(),
            parts.1.steps() == Seq::<UpdateView>::empty(),
            parts.1.op() == (TokenOp::Refill { capacity: max_buffer, refill_amount }),
            parts.1.interval() == refill_interval,
            parts.1.rings() == Seq::<UpdateView>::empty(),
            !parts.1.started(),
            parts.1.wf(),
            parts.2.wf(),
            parts.2.counter() == parts.1.counter(),
            parts.2.steps() == Seq::<UpdateView>::empty(),
            parts.2.wakeup() == parts.1.wakeup(),
            parts.2.worker().stage is Idle,
    {
        let (acquire_sender, acquire_receiver) = request_queue(QUEUE_LIMIT);
        let (refill_counter, acquire_counter, shut) = new_counter(max_buffer);
        let (bell, tokens_available) = new_bell();
        let refill = RefillTask::new(
            refill_counter,
            bell,
            max_buffer,
            refill_amount,
            refill_interval,
        );
        let acquire = AcquireTask::new(acquire_counter, acquire_receiver, tokens_available);
        (Arc::new(Quota { max_buffer, acquire_sender, shut }), refill, acquire)
    }

    /// Whether a request for `n` tokens can ever be served. One that cannot is to be refused.
    pub fn admits(&self, n: usize) -> (admits: bool)
        ensures
            admits == (n <= self.max_buffer()),
    {
        n <= self.max_buffer
    }

    /// The most tokens that the bucket holds.
    pub fn max_tokens(&self) -> (max_buffer: usize)
        ensures
            max_buffer == self.max_buffer(),
    {
        self.max_buffer
    }

    /// The queue that requests are sent to.
    pub fn sender(&self) -> (sender: &mpsc::Sender<AcquireRequest>)
        ensures
            *sender == self.queue(),
    {
        &self.acquire_sender
    }

    /// Prepares the request for `n` tokens, and takes none itself. The tokens are the caller's once
    /// the request was sent to the queue and its grant has arrived.
    pub fn acquire(&self, n: usize) -> (pending: PendingAcquire)
        requires
            n <= self.max_buffer(),
        ensures
            pending.request.required == n,
            crate::primitives::paired(pending.request.notify, pending.granted),
    {
        prepare(n)
    }
}

/// What is said of a limiter is said of what it holds.
proof fn law_quota_accounts(quota: Quota)
    ensures
        quota.max_buffer() == quota.max_buffer,
        quota.queue() == quota.acquire_sender,
        quota.counter() == quota.shut.cell(),
{
}

/// What an attempt to acquire tokens past the queue came to.
pub enum FastPath {
    /// The tokens were taken.
    Taken { update: Update },
    /// There were too few tokens.
    Short { update: Update },
    /// The requests in the queue have precedence.
    Busy { busy: Busy },
}

/// What a request came to at first.
pub enum Acquisition {
    /// The tokens were taken.
    Immediate { update: Update },
    /// The tokens were not had at once, and the request has to go through the queue.
    Queued { fast_path: FastPath, pending: PendingAcquire },
}

/// A rate limiter that serves a request at once where it can, and through a queue where it cannot.
///
/// It is to be put into an `Arc`, by the cloning of which it is shared between callers.
pub struct FastQuota {
    gate: Gate,
    max_buffer: usize,
    acquire_sender: mpsc::Sender<AcquireRequest>,
}

impl FastQuota {
    /// The counter of tokens.
    pub closed spec fn counter(&self) -> AtomicUsize {
        self.gate.cell()
    }

    /// The most tokens that the bucket holds, and the most that one request may ask for.
    pub closed spec fn max_buffer(&self) -> usize {
        self.max_buffer
    }

    /// The queue of requests.
    pub closed spec fn queue(&self) -> mpsc::Sender<AcquireRequest> {
        self.acquire_sender
    }

    /// The lock, which is held for writing while requests in the queue are served.
    pub closed spec fn lock(&self) -> RwLock<()> {
        self.gate.lock()
    }

    /// Whether `caller` is one of this limiter.
    pub open spec fn is_called_by(&self, caller: Caller) -> bool {
        &&& caller.wf()
        &&& caller.cell() == self.counter()
        &&& caller.lock() == self.lock()
    }

    /// Whether an attempt to take `n` tokens past the queue came to `fast_path` and left `before`
    /// as `after`. Where the lock could not be had nothing was done to the counter. Otherwise one
    /// step was made on it, which took the tokens if there were enough. Either way the
    /// lock was asked for once, and every read access to it that was had was given back.
    pub open spec fn tried(
        &self,
        n: usize,
        fast_path: FastPath,
        before: Caller,
        after: Caller,
    ) -> bool {
        &&& after.same_limiter(before)
        &&& after.reading() == before.reading()
        &&& after.asked() == before.asked() + 1
        &&& match fast_path {
            FastPath::Taken { update } => {
                &&& update@.performs(self.counter(), TokenOp::Take(n))
                &&& update@.stored
                &&& after.steps() == before.steps().push(update@)
            },
            FastPath::Short { update } => {
                &&& update@.performs(self.counter(), TokenOp::Take(n))
                &&& !update@.stored
                &&& after.steps() == before.steps().push(update@)
            },
            FastPath::Busy { busy } => {
                &&& busy.lock() == self.lock()
                &&& after.steps() == before.steps()
            },
        }
    }

    /// Creates a full bucket of `max_buffer` tokens, with the task that adds `refill_amount` tokens
    /// every `refill_interval`, the task that serves the queue, and the lock that the latter takes.
    /// Both tasks are to be driven for as long as the limiter is used. Besides callers they are the
    /// only ones to act on the counter, and nobody has yet.
    pub fn new<'a>(
        max_buffer: usize,
        refill_amount: usize,
        refill_interval: Duration,
    ) -> (parts: (FastQuota, RefillTask, FastAcquireTask<'a>, Arc<RwLock<()>>))
        ensures
            parts.0.max_buffer() == max_buffer,
            crate::primitives::linked(parts.0.queue(), parts.2.queue()),
            crate::primitives::queue_limit(parts.0.queue()) == QUEUE_LIMIT,
            crate::cell::initial_count(parts.0.counter()) == max_buffer,
            parts.1.counter() == parts.0.counter(),
            parts.1.steps() == Seq::<UpdateView>::empty(),
            parts.1.op() == (TokenOp::Refill { capacity: max_buffer, refill_amount }),
            parts.1.interval() == refill_interval,
            parts.1.rings() == Seq::<UpdateView>::empty(),
            !parts.1.started(),
            parts.1.wf(),
            parts.2.wf(),
            parts.2.counter() == parts.0.counter(),
            parts.2.steps() == Seq::<UpdateView>::empty(),
            parts.2.wakeup() == parts.1.wakeup(),
            parts.2.worker().stage is Idle,
            !parts.2.worker().locked,
            parts.2.released().len() == 0,
            *parts.3 == parts.0.lock(),
    {
        let (acquire_sender, acquire_receiver) = request_queue(QUEUE_LIMIT);
        let (refill_counter, acquire_counter, open_counter) = new_counter(max_buffer);
        let (bell, tokens_available) = new_bell();
        let refill = RefillTask::new(
            refill_counter,
            bell,
            max_buffer,
            refill_amount,
            refill_interval,
        );
        let acquire = FastAcquireTask::new(acquire_counter, acquire_receiver, tokens_available);
        let (lock, read_right) = new_lock();
        let (gate, lock) = Gate::new(open_counter, lock, read_right);
        (FastQuota { gate, max_buffer, acquire_sender }, refill, acquire, lock)
    }

    /// Whether a request for `n` tokens can ever be served. One that cannot is to be refused.
    pub fn admits(&self, n: usize) -> (admits: bool)
        ensures
            admits == (n <= self.max_buffer()),
    {
        n <= self.max_buffer
    }

    /// The most tokens that the bucket holds.
    pub fn max_tokens(&self) -> (max_buffer: usize)
        ensures
            max_buffer == self.max_buffer(),
    {
        self.max_buffer
    }

    /// The queue that requests are sent to.
    pub fn sender(&self) -> (sender: &mpsc::Sender<AcquireRequest>)
        ensures
            *sender == self.queue(),
    {
        &self.acquire_sender
    }

    /// The right to let callers act on the counter.
    pub(crate) fn caller_right(&self) -> (right: &CallerRight)
        ensures
            right.cell() == self.counter(),
        no_unwind
    {
        self.gate.caller_right()
    }

    /// The right to let callers read under the lock.
    pub(crate) fn read_right(&self) -> (right: &ReadRight)
        ensures
            right.lock() == self.lock(),
        no_unwind
    {
        self.gate.read_right()
    }

    /// Acquires `n` tokens at once, or else prepares the request for them. The tokens of a prepared
    /// request are the caller's once the request was sent to the queue and its grant has arrived.
    ///
    /// The tokens are taken once: where they were had at once there is no request, and where there
    /// is a request nothing was taken for it yet.
    pub fn acquire(&self, n: usize, caller: &mut Caller) -> (acquisition: Acquisition)
        requires
            n <= self.max_buffer(),
            self.is_called_by(*old(caller)),
        ensures
            final(caller).wf(),
            match acquisition {
                Acquisition::Immediate { update } => self.tried(
                    n,
                    FastPath::Taken { update },
                    *old(caller),
                    *final(caller),
                ),
                Acquisition::Queued { fast_path, pending } => {
                    &&& self.tried(n, fast_path, *old(caller), *final(caller))
                    &&& !(fast_path is Taken)
                    &&& pending.request.required == n
                    &&& crate::primitives::paired(pending.request.notify, pending.granted)
                },
            },
    {
        let fast_path = self.fast_path_acquire(n, caller);
        match fast_path {
            FastPath::Taken { update } => Acquisition::Immediate { update },
            _ => Acquisition::Queued { fast_path, pending: self.slow_path_acquire(n) },
        }
    }

    /// Takes `n` tokens past the queue, in one atomic step, unless the lock is held for writing or
    /// there are too few. The lock is held for reading meanwhile.
    pub fn fast_path_acquire(&self, n: usize, caller: &mut Caller) -> (fast_path: FastPath)
        requires
            n <= self.max_buffer(),
            self.is_called_by(*old(caller)),
        ensures
            final(caller).wf(),
            self.tried(n, fast_path, *old(caller), *final(caller)),
    {
        match self.gate.try_read(caller) {
            Ok(access) => {
                let update = self.gate.step(&access, caller, TokenOp::Take(n));
                caller.release(access);
                if update.stored() {
                    FastPath::Taken { update }
                } else {
                    FastPath::Short { update }
                }
            },
            Err(busy) => FastPath::Busy { busy },
        }
    }

    /// Prepares the request for `n` tokens, and takes none itself: a step on the counter takes a
    /// caller, and there is none here.
    pub fn slow_path_acquire(&self, n: usize) -> (pending: PendingAcquire)
        requires
            n <= self.max_buffer(),
        ensures
            pending.request.required == n,
            crate::primitives::paired(pending.request.notify, pending.granted),
    {
        prepare(n)
    }
}

/// What is said of a limiter is said of what it holds.
proof fn law_fast_quota_accounts(quota: &FastQuota)
    ensures
        quota.counter() == quota.gate.cell(),
        quota.lock() == quota.gate.lock(),
        quota.max_buffer() == quota.max_buffer,
        quota.queue() == quota.acquire_sender,
{
}

} // verus!
