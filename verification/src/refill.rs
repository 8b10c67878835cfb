//! The task that refills the bucket.
//!
//! A task is driven from outside: a timer ticks once at once and then once per interval, and the
//! driver reports every tick, also those that come late.

use std::sync::atomic::AtomicUsize;
use std::time::Duration;
use tokio::sync::Notify;
use vstd::prelude::*;
use crate::cell::{Update, UpdateView};
use crate::primitives::{wake_one, Bell, Counter};
use crate::tokens::TokenOp;

verus! {

/// What a tick came to.
pub enum Refill {
    /// It was the first tick, which starts the first interval.
    Started,
    /// Tokens were added, and the task that serves the queue was woken.
    Added { update: Update },
    /// There was nothing to add.
    Unchanged { update: Update },
}

/// The task that adds tokens at fixed intervals.
pub struct RefillTask {
    counter: Counter,
    bell: Bell,
    capacity: usize,
    refill_amount: usize,
    refill_interval: Duration,
    started: bool,
}

impl RefillTask {
    /// The counter that the task adds tokens to.
    pub closed spec fn counter(self) -> AtomicUsize {
        self.counter.cell()
    }

    /// All the steps that the task made on the counter.
    pub closed spec fn steps(self) -> Seq<UpdateView> {
        self.counter.steps()
    }

    /// What one refill does to the counter.
    pub closed spec fn op(self) -> TokenOp {
        TokenOp::Refill { capacity: self.capacity, refill_amount: self.refill_amount }
    }

    /// The time between two refills.
    pub closed spec fn interval(self) -> Duration {
        self.refill_interval
    }

    /// What is notified when tokens were added.
    pub closed spec fn wakeup(self) -> Notify {
        self.bell.notify()
    }

    /// The steps that the task notified of, one for each time that it did.
    pub closed spec fn rings(self) -> Seq<UpdateView> {
        self.bell.rings()
    }

    /// Whether the first tick is past.
    pub closed spec fn started(self) -> bool {
        self.started
    }

    /// The task's handle to the counter is sound.
    pub closed spec fn handle_wf(self) -> bool {
        self.counter.wf()
    }

    /// The task has done nothing to the counter but to refill it.
    pub open spec fn wf(self) -> bool {
        &&& self.handle_wf()
        &&& crate::cell::only_performs(self.steps(), self.counter(), self.op())
    }

    /// Whether a tick came to `refill` and left the task as `after`. The first tick does nothing to
    /// the counter. Every later one makes one step on it, and then wakes the task that serves the
    /// queue, once, if and only if that step added tokens.
    pub open spec fn ticked(self, refill: Refill, after: RefillTask) -> bool {
        &&& after.started()
        &&& after.counter() == self.counter()
        &&& after.op() == self.op()
        &&& after.interval() == self.interval()
        &&& after.wakeup() == self.wakeup()
        &&& match refill {
            Refill::Started => {
                &&& !self.started()
                &&& after.steps() == self.steps()
                &&& after.rings() == self.rings()
            },
            Refill::Added { update } => {
                &&& self.started()
                &&& update@.performs(self.counter(), self.op())
                &&& update@.stored
                &&& after.steps() == self.steps().push(update@)
                &&& after.rings() == self.rings().push(update@)
            },
            Refill::Unchanged { update } => {
                &&& self.started()
                &&& update@.performs(self.counter(), self.op())
                &&& !update@.stored
                &&& after.steps() == self.steps().push(update@)
                &&& after.rings() == self.rings()
            },
        }
    }

    /// A task that has yet to see its first tick.
    pub(crate) fn new(
        counter: Counter,
        bell: Bell,
        capacity: usize,
        refill_amount: usize,
        refill_interval: Duration,
    ) -> (task: RefillTask)
        requires
            counter.wf(),
            counter.steps() == Seq::<UpdateView>::empty(),
        ensures
            task.wf(),
            task.counter() == counter.cell(),
            task.steps() == counter.steps(),
            task.op() == (TokenOp::Refill { capacity, refill_amount }),
            task.interval() == refill_interval,
            task.wakeup() == bell.notify(),
            task.rings() == bell.rings(),
            !task.started(),
    {
        RefillTask { counter, bell, capacity, refill_amount, refill_interval, started: false }
    }

    /// The time between two ticks of the timer that drives the task.
    pub fn refill_interval(&self) -> (interval: Duration)
        ensures
            interval == self.interval(),
    {
        self.refill_interval
    }

    /// The timer ticked. The first tick adds nothing; every later one refills the bucket in one
    /// atomic step, and wakes the task that serves the queue where that added tokens.
    pub fn tick(&mut self) -> (refill: Refill)
        requires
            old(self).wf(),
        ensures
            final(self).wf(),
            old(self).ticked(refill, *final(self)),
    {
        if !self.started {
            self.started = true;
            return Refill::Started;
        }
        let op = TokenOp::Refill { capacity: self.capacity, refill_amount: self.refill_amount };
        let update = self.counter.step(op);
        if update.stored() {
            wake_one(&mut self.bell, &update);
            Refill::Added { update }
        } else {
            Refill::Unchanged { update }
        }
    }
}

/// What is said of a task is said of what it holds, and of the whole log of its handle and its
/// bell.
proof fn law_task_accounts(task: RefillTask)
    ensures
        task.counter() == task.counter.cell(),
        task.steps() == task.counter.steps(),
        task.handle_wf() == task.counter.wf(),
        task.op() == (TokenOp::Refill {
            capacity: task.capacity,
            refill_amount: task.refill_amount,
        }),
        task.interval() == task.refill_interval,
        task.wakeup() == task.bell.notify(),
        task.rings() == task.bell.rings(),
        task.started() == task.started,
{
}

} // verus!
