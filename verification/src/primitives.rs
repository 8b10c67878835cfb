//! The handles to the shared counter and lock, and the queue and wake-ups beside them.
//!
//! What these hold is shared between tasks, so a contract cannot name it. What a task does to them
//! can be named: whoever acts on a counter, takes or gives back the lock, or rings a bell does so
//! through a handle that keeps a log, and the handles to one counter are given out only where it is
//! created. So a contract that speaks of a handle's log before and after says all that was done
//! through the handle, and in which order.

use std::sync::atomic::AtomicUsize;
use std::sync::Arc;
use tokio::sync::{mpsc, oneshot, Notify, RwLock, RwLockWriteGuard};
use vstd::prelude::*;
use crate::cell::{CallerRight, StepLog, TokenCell, Update, UpdateView};
use crate::lock::{
    release_read, release_write, try_read, Busy, ReadAccess, ReadHolds, ReadRight, ReleaseLog,
};
use crate::quota::FastQuota;
use crate::request::AcquireRequest;
use crate::step::{make_step, new_cell};
use crate::tokens::TokenOp;

verus! {

/// The sending half of a bounded queue.
#[verifier::external_type_specification]
#[verifier::external_body]
#[verifier::reject_recursive_types(T)]
pub struct ExMpscSender<T>(mpsc::Sender<T>);

/// The receiving half of a bounded queue.
#[verifier::external_type_specification]
#[verifier::external_body]
#[verifier::reject_recursive_types(T)]
pub struct ExMpscReceiver<T>(mpsc::Receiver<T>);

/// The sending half of a channel for one value.
#[verifier::external_type_specification]
#[verifier::external_body]
#[verifier::reject_recursive_types(T)]
pub struct ExOneshotSender<T>(oneshot::Sender<T>);

/// The receiving half of a channel for one value.
#[verifier::external_type_specification]
#[verifier::external_body]
#[verifier::reject_recursive_types(T)]
pub struct ExOneshotReceiver<T>(oneshot::Receiver<T>);

/// That the sending half of a channel for one value was dropped unused.
#[verifier::external_type_specification]
#[verifier::external_body]
pub struct ExRecvError(oneshot::error::RecvError);

/// A wake-up for one waiting task.
#[verifier::external_type_specification]
#[verifier::external_body]
pub struct ExNotify(Notify);

/// A task's handle to a counter.
pub struct Counter {
    cell: Arc<TokenCell>,
    log: StepLog,
}

impl Counter {
    /// The counter.
    pub closed spec fn cell(self) -> AtomicUsize {
        self.cell.id()
    }

    /// All the steps that were made through this handle.
    pub closed spec fn steps(self) -> Seq<UpdateView> {
        self.log@
    }

    /// The handle's log is one of its counter.
    pub closed spec fn wf(self) -> bool {
        self.log.cell() == self.cell.id()
    }

    /// Makes one step.
    pub(crate) fn step(&mut self, op: TokenOp) -> (update: Update)
        requires
            old(self).wf(),
        ensures
            final(self).wf(),
            update@.performs(old(self).cell(), op),
            final(self).cell() == old(self).cell(),
            final(self).steps() == old(self).steps().push(update@),
    {
        make_step(&self.cell, &mut self.log, op)
    }
}

/// A counter that no step can be made on until it stands behind a `Gate`.
pub struct OpenCounter {
    cell: Arc<TokenCell>,
    right: CallerRight,
}

impl OpenCounter {
    /// The counter.
    pub closed spec fn cell(self) -> AtomicUsize {
        self.cell.id()
    }
}

impl OpenCounter {
    /// The right is one to the counter.
    #[verifier::type_invariant]
    spec fn right_wf(self) -> bool {
        self.right.cell() == self.cell.id()
    }
}

/// Creates a counter that starts at `value`. The three handles are all that there are to it, and no
/// step has been made through any of them.
pub(crate) fn new_counter(value: usize) -> (handles: (Counter, Counter, OpenCounter))
    ensures
        crate::cell::initial_count(handles.0.cell()) == value,
        handles.0.wf(),
        handles.1.wf(),
        handles.1.cell() == handles.0.cell(),
        handles.2.cell() == handles.0.cell(),
        handles.0.steps() == Seq::<UpdateView>::empty(),
        handles.1.steps() == Seq::<UpdateView>::empty(),
{
    let (cell, first_log, second_log, right) = new_cell(value);
    let cell = Arc::new(cell);
    let first = Counter { cell: cell.clone(), log: first_log };
    let second = Counter { cell: cell.clone(), log: second_log };
    (first, second, OpenCounter { cell, right })
}

/// A counter behind a lock: a step on it takes read access to the lock, held while the step is
/// made, and a `Caller` to whose account the access and the step go.
pub struct Gate {
    cell: Arc<TokenCell>,
    right: CallerRight,
    lock: Arc<RwLock<()>>,
    read_right: ReadRight,
}

impl Gate {
    /// The rights are those to the counter and the lock.
    #[verifier::type_invariant]
    spec fn rights_wf(self) -> bool {
        &&& self.right.cell() == self.cell.id()
        &&& self.read_right.lock() == *self.lock
    }

    /// The counter.
    pub closed spec fn cell(self) -> AtomicUsize {
        self.cell.id()
    }

    /// The lock.
    pub closed spec fn lock(self) -> RwLock<()> {
        *self.lock
    }

    /// Puts `counter` behind `lock`, and gives the shared handle by which the lock can be had for
    /// writing. It takes the rights to both, so neither stands behind a second gate.
    pub(crate) fn new(
        counter: OpenCounter,
        lock: RwLock<()>,
        read_right: ReadRight,
    ) -> (parts: (Gate, Arc<RwLock<()>>))
        requires
            read_right.lock() == lock,
        ensures
            parts.0.cell() == counter.cell(),
            parts.0.lock() == lock,
            *parts.1 == lock,
    {
        proof {
            use_type_invariant(&counter);
        }
        let shared = Arc::new(lock);
        let gate = Gate {
            cell: counter.cell,
            right: counter.right,
            lock: shared.clone(),
            read_right,
        };
        (gate, shared)
    }

    /// The right to let callers act on the counter.
    pub(crate) fn caller_right(&self) -> (right: &CallerRight)
        ensures
            right.cell() == self.cell(),
        no_unwind
    {
        proof {
            use_type_invariant(self);
        }
        &self.right
    }

    /// The right to let callers read under the lock.
    pub(crate) fn read_right(&self) -> (right: &ReadRight)
        ensures
            right.lock() == self.lock(),
        no_unwind
    {
        proof {
            use_type_invariant(self);
        }
        &self.read_right
    }

    /// Asks for read access to the lock.
    pub(crate) fn try_read(&self, caller: &mut Caller) -> (access: Result<ReadAccess<'_>, Busy>)
        requires
            old(caller).lock() == self.lock(),
        ensures
            final(caller).same_limiter(*old(caller)),
            final(caller).steps() == old(caller).steps(),
            final(caller).asked() == old(caller).asked() + 1,
            match access {
                Ok(granted) => {
                    &&& granted.lock() == self.lock()
                    &&& final(caller).reading() == old(caller).reading() + 1
                },
                Err(busy) => {
                    &&& busy.lock() == self.lock()
                    &&& final(caller).reading() == old(caller).reading()
                },
            },
    {
        try_read(&self.lock, &mut caller.holds)
    }

    /// Makes one step.
    pub(crate) fn step(
        &self,
        access: &ReadAccess<'_>,
        caller: &mut Caller,
        op: TokenOp,
    ) -> (update: Update)
        requires
            access.lock() == self.lock(),
            old(caller).cell() == self.cell(),
        ensures
            update@.performs(self.cell(), op),
            final(caller).same_limiter(*old(caller)),
            final(caller).steps() == old(caller).steps().push(update@),
            final(caller).reading() == old(caller).reading(),
            final(caller).asked() == old(caller).asked(),
    {
        make_step(&self.cell, &mut caller.log, op)
    }
}

/// One who calls a `FastQuota`, with the steps made and the read accesses had on the account of the
/// calls.
pub struct Caller {
    log: StepLog,
    holds: ReadHolds,
}

impl Caller {
    /// The counter of the limiter that is called.
    pub closed spec fn cell(self) -> AtomicUsize {
        self.log.cell()
    }

    /// The lock of the limiter that is called.
    pub closed spec fn lock(self) -> RwLock<()> {
        self.holds.lock()
    }

    /// All the steps that were made on this caller's account.
    pub closed spec fn steps(self) -> Seq<UpdateView> {
        self.log@
    }

    /// How many read accesses to the lock are held on this caller's account.
    pub closed spec fn reading(self) -> nat {
        self.holds@
    }

    /// How often access to the lock was asked for on this caller's account.
    pub closed spec fn asked(self) -> nat {
        self.holds.asked()
    }

    /// Whether both call the same limiter.
    pub open spec fn same_limiter(self, other: Caller) -> bool {
        &&& self.cell() == other.cell()
        &&& self.lock() == other.lock()
    }

    /// Between calls: nothing was done on the caller's account but to take tokens, and every access
    /// to the lock was given back.
    pub open spec fn wf(self) -> bool {
        &&& crate::cell::only_takes(self.steps(), self.cell())
        &&& self.reading() == 0
    }

    /// A new caller of `quota`. It takes the shared handle: a function that is lent no more than
    /// the limiter itself makes no step but to the account of the caller that it is given. It does
    /// not unwind, and so calls nothing that acts on the counter or on the lock: to make a caller
    /// makes no step and takes no access.
    pub fn new(quota: &Arc<FastQuota>) -> (caller: Caller)
        ensures
            caller.wf(),
            caller.cell() == quota.counter(),
            caller.lock() == quota.lock(),
            caller.steps() == Seq::<UpdateView>::empty(),
            caller.reading() == 0,
            caller.asked() == 0,
        no_unwind
    {
        Caller { log: StepLog::of_caller(quota), holds: ReadHolds::of_caller(quota) }
    }

    /// Gives `access` back.
    pub(crate) fn release(&mut self, access: ReadAccess<'_>)
        requires
            access.lock() == old(self).lock(),
            old(self).reading() > 0,
        ensures
            final(self).same_limiter(*old(self)),
            final(self).steps() == old(self).steps(),
            final(self).reading() == old(self).reading() - 1,
            final(self).asked() == old(self).asked(),
    {
        release_read(access, &mut self.holds);
    }
}

/// Write access to a lock, where there is one.
pub struct WriteHold<'a> {
    guard: Option<RwLockWriteGuard<'a, ()>>,
    log: ReleaseLog<'a>,
}

impl<'a> WriteHold<'a> {
    /// The access that is held.
    pub closed spec fn guard(self) -> Option<RwLockWriteGuard<'a, ()>> {
        self.guard
    }

    /// The accesses that were given back.
    pub closed spec fn released(self) -> Seq<RwLockWriteGuard<'a, ()>> {
        self.log@
    }

    /// Holds nothing yet.
    pub(crate) fn new() -> (hold: WriteHold<'a>)
        ensures
            hold.guard() is None,
            hold.released() == Seq::<RwLockWriteGuard<'a, ()>>::empty(),
    {
        WriteHold { guard: None, log: ReleaseLog::new() }
    }

    /// Holds `guard` from now on.
    pub(crate) fn hold(&mut self, guard: RwLockWriteGuard<'a, ()>)
        requires
            old(self).guard() is None,
        ensures
            final(self).guard() == Some(guard),
            final(self).released() == old(self).released(),
    {
        self.guard = Some(guard);
    }

    /// Gives back what is held.
    pub(crate) fn release(&mut self)
        ensures
            final(self).guard() is None,
            final(self).released() == match old(self).guard() {
                Some(guard) => old(self).released().push(guard),
                None => old(self).released(),
            },
    {
        if let Some(guard) = self.guard.take() {
            release_write(guard, &mut self.log);
        }
    }
}

/// What is said of a handle is said of its own counter and of its whole log.
proof fn law_counter_accounts(counter: Counter)
    ensures
        counter.cell() == counter.cell.id(),
        counter.steps() == counter.log@,
        counter.wf() <==> counter.log.cell() == counter.cell.id(),
{
}

/// What is said of a gate is said of its own counter and lock, and so it is of a counter that is to
/// stand behind one.
proof fn law_gate_accounts(gate: Gate, open: OpenCounter)
    ensures
        gate.cell() == gate.cell.id(),
        gate.lock() == *gate.lock,
        open.cell() == open.cell.id(),
{
}

/// What is said of a caller is said of its whole log and of its own account of the lock.
proof fn law_caller_accounts(caller: Caller)
    ensures
        caller.cell() == caller.log.cell(),
        caller.steps() == caller.log@,
        caller.lock() == caller.holds.lock(),
        caller.reading() == caller.holds@,
        caller.asked() == caller.holds.asked(),
{
}

/// What is said of write access is said of the guard at hand and of the whole record of releases.
proof fn law_hold_accounts<'a>(hold: WriteHold<'a>)
    ensures
        hold.guard() == hold.guard,
        hold.released() == hold.log@,
{
}

/// Whether `tx` and `rx` are the two halves of one queue: what is sent on `tx` is received from
/// `rx`, in the order in which it was sent.
pub uninterp spec fn linked(
    tx: mpsc::Sender<AcquireRequest>,
    rx: mpsc::Receiver<AcquireRequest>,
) -> bool;

/// How many requests the queue of `tx` holds before a sender has to wait.
pub uninterp spec fn queue_limit(tx: mpsc::Sender<AcquireRequest>) -> usize;

/// Calls `tokio::sync::mpsc::channel`: the two halves are those of one new queue, which holds up to
/// `limit` requests. It panics on a limit of zero and on one past an eighth of the largest `usize`.
#[verifier::external_body]
pub(crate) fn request_queue(limit: usize) -> (halves: (
    mpsc::Sender<AcquireRequest>,
    mpsc::Receiver<AcquireRequest>,
))
    requires
        0 < limit <= usize::MAX / 8,
    ensures
        linked(halves.0, halves.1),
        queue_limit(halves.0) == limit,
{
    mpsc::channel(limit)
}

/// Whether `tx` and `rx` are the two ends of one channel for a single value.
pub uninterp spec fn paired(tx: oneshot::Sender<()>, rx: oneshot::Receiver<()>) -> bool;

/// Calls `tokio::sync::oneshot::channel`: the two ends are those of one new channel.
#[verifier::external_body]
pub(crate) fn grant_channel() -> (ends: (oneshot::Sender<()>, oneshot::Receiver<()>))
    ensures
        paired(ends.0, ends.1),
{
    oneshot::channel()
}

/// The record that a requester was told. `deliver` is the only way to come by one.
pub struct Delivery {
    heard: bool,
    to: Ghost<oneshot::Sender<()>>,
    cause: Ghost<UpdateView>,
}

impl Delivery {
    /// The channel on which the requester was told.
    pub closed spec fn to(self) -> oneshot::Sender<()> {
        self.to@
    }

    /// The step that took the tokens, made before the requester was told.
    pub closed spec fn cause(self) -> UpdateView {
        self.cause@
    }

    /// Whether the requester was still there to hear it.
    pub closed spec fn was_heard(self) -> bool {
        self.heard
    }

    /// Whether the requester was still there to hear it.
    pub fn heard(&self) -> (heard: bool)
        ensures
            heard == self.was_heard(),
    {
        self.heard
    }
}

/// Calls `tokio::sync::oneshot::Sender::send` on `to`, after the step of `cause`. It fails where
/// the requester has gone, which depends on another task, so nothing is said of that.
#[verifier::external_body]
pub(crate) fn deliver(to: oneshot::Sender<()>, cause: &Update) -> (delivery: Delivery)
    requires
        cause@.stored,
    ensures
        delivery.to() == to,
        delivery.cause() == cause@,
{
    let record = Ghost(to);
    Delivery { heard: to.send(()).is_ok(), to: record, cause: Ghost(cause@) }
}

/// The record of a look at a queue. `check_queue` is the only way to come by one.
pub struct QueueCheck {
    empty: bool,
    queue: Ghost<mpsc::Receiver<AcquireRequest>>,
    follows: Ghost<Delivery>,
}

impl QueueCheck {
    /// The queue that was looked at.
    pub closed spec fn queue(self) -> mpsc::Receiver<AcquireRequest> {
        self.queue@
    }

    /// What was delivered before the look.
    pub closed spec fn follows(self) -> Delivery {
        self.follows@
    }

    /// Whether the queue was empty.
    pub closed spec fn found_empty(self) -> bool {
        self.empty
    }

    /// Whether the queue was empty.
    pub fn empty(&self) -> (empty: bool)
        ensures
            empty == self.found_empty(),
    {
        self.empty
    }
}

/// Calls `tokio::sync::mpsc::Receiver::is_empty` on `rx`, after `delivery`. Senders run beside the
/// caller, so nothing is said of what it finds.
#[verifier::external_body]
pub(crate) fn check_queue(
    rx: &mpsc::Receiver<AcquireRequest>,
    delivery: &Delivery,
) -> (check: QueueCheck)
    ensures
        check.queue() == *rx,
        check.follows() == *delivery,
{
    QueueCheck { empty: rx.is_empty(), queue: Ghost(*rx), follows: Ghost(*delivery) }
}

/// What is said of the record of a delivery, or of a look, is what was recorded.
proof fn law_records(delivery: Delivery, check: QueueCheck)
    ensures
        delivery.to() == delivery.to@,
        delivery.cause() == delivery.cause@,
        delivery.was_heard() == delivery.heard,
        check.queue() == check.queue@,
        check.follows() == check.follows@,
        check.found_empty() == check.empty,
{
}

/// The ringing side of a wake-up.
pub struct Bell {
    notify: Arc<Notify>,
    rings: Ghost<Seq<UpdateView>>,
}

impl Bell {
    /// What is notified.
    pub closed spec fn notify(self) -> Notify {
        *self.notify
    }

    /// The steps on account of which the bell was rung, one for each time, in order.
    pub closed spec fn rings(self) -> Seq<UpdateView> {
        self.rings@
    }
}

/// What is said of a bell is said of its own wake-up and of its whole log.
proof fn law_bell_accounts(bell: Bell)
    ensures
        bell.notify() == *bell.notify,
        bell.rings() == bell.rings@,
{
}

/// `tokio::sync::Notify::new` takes nothing, and its result has no value to speak of.
pub assume_specification[ Notify::new ]() -> (notify: Notify);

/// Creates a wake-up. The bell is the only one to ring it, and it has not been rung.
pub(crate) fn new_bell() -> (sides: (Bell, Arc<Notify>))
    ensures
        sides.0.notify() == *sides.1,
        sides.0.rings() == Seq::<UpdateView>::empty(),
{
    let notify = Arc::new(Notify::new());
    (Bell { notify: notify.clone(), rings: Ghost(Seq::empty()) }, notify)
}

/// Calls `tokio::sync::Notify::notify_one`, which wakes one task that waits, or else lets the next
/// one that comes to wait pass at once. The call is entered in the bell's log under the step that
/// it follows.
#[verifier::external_body]
pub(crate) fn wake_one(bell: &mut Bell, cause: &Update)
    requires
        cause@.stored,
    ensures
        final(bell).notify() == old(bell).notify(),
        final(bell).rings() == old(bell).rings().push(cause@),
{
    bell.notify.notify_one();
    bell.rings = Ghost(bell.rings@.push(cause@));
}

} // verus!
