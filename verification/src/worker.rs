//! The decisions of the task that serves the queue of requests.
//!
//! A worker serves one request at a time. It receives a request and attempts to take the tokens for
//! it. Where there are too few it waits and attempts again, for as long as it takes. Only then does
//! it receive the next request.

use vstd::prelude::*;

verus! {

/// How long a worker waits for a wake-up before it attempts again on its own, in milliseconds.
pub const RETRY_MILLIS: u64 = 10;

/// What a worker does next.
#[derive(Clone, Copy, Debug, PartialEq, Eq, Structural)]
pub enum Next {
    /// Receive a request from the queue.
    Receive,
    /// Attempt to take the tokens for the request.
    Attempt,
    /// Wait for a wake-up, but no longer than this many milliseconds.
    Wait { millis: u64 },
    /// Nothing: the queue is closed and empty.
    Stop,
}

/// What a worker that needs a lock does next.
#[derive(Clone, Copy, Debug, PartialEq, Eq, Structural)]
pub enum GuardedNext {
    /// Receive a request from the queue.
    Receive,
    /// Wait for write access to the lock.
    Lock,
    /// Attempt to take the tokens for the request.
    Attempt,
    /// Wait for a wake-up, but no longer than this many milliseconds.
    Wait { millis: u64 },
    /// Nothing: the queue is closed and empty.
    Stop,
}

/// How far a worker has come with a request.
#[derive(Clone, Copy, Debug, PartialEq, Eq, Structural)]
pub enum Stage {
    /// There is no request.
    Idle,
    /// A request for this many tokens is to be attempted.
    Ready(usize),
    /// A request for this many tokens was attempted in vain.
    Waiting(usize),
    /// The queue is closed and empty.
    Stopped,
}

impl Stage {
    /// The number of tokens that the request at hand asks for.
    pub open spec fn serving(self) -> Option<usize> {
        match self {
            Stage::Idle => None,
            Stage::Ready(required) => Some(required),
            Stage::Waiting(required) => Some(required),
            Stage::Stopped => None,
        }
    }

    /// The stage of a worker without a request after the queue gave `received`: a request for so
    /// many tokens, or `None` where the queue is closed and empty.
    pub open spec fn after_receive(received: Option<usize>) -> Stage {
        match received {
            Some(required) => Stage::Ready(required),
            None => Stage::Stopped,
        }
    }

    /// The stage after an attempt.
    pub open spec fn after_attempt(self, took: bool) -> Stage {
        match self {
            Stage::Ready(required) => if took {
                Stage::Idle
            } else {
                Stage::Waiting(required)
            },
            _ => self,
        }
    }

    /// The stage after a wait.
    pub open spec fn after_wait(self) -> Stage {
        match self {
            Stage::Waiting(required) => Stage::Ready(required),
            _ => self,
        }
    }
}

/// The worker of a queue that every request goes through.
#[derive(Clone, Copy, Debug, PartialEq, Eq, Structural)]
pub struct FifoWorker {
    /// How far the worker has come.
    pub stage: Stage,
}

impl FifoWorker {
    /// What the worker does next.
    pub open spec fn next_spec(self) -> Next {
        match self.stage {
            Stage::Idle => Next::Receive,
            Stage::Ready(_) => Next::Attempt,
            Stage::Waiting(_) => Next::Wait { millis: RETRY_MILLIS },
            Stage::Stopped => Next::Stop,
        }
    }

    /// A worker that has yet to receive its first request.
    pub fn new() -> (worker: FifoWorker)
        ensures
            worker.stage == Stage::Idle,
            worker.next_spec() == Next::Receive,
    {
        FifoWorker { stage: Stage::Idle }
    }

    /// Tells what to do next.
    pub fn next(&self) -> (next: Next)
        ensures
            next == self.next_spec(),
    {
        match self.stage {
            Stage::Idle => Next::Receive,
            Stage::Ready(_) => Next::Attempt,
            Stage::Waiting(_) => Next::Wait { millis: RETRY_MILLIS },
            Stage::Stopped => Next::Stop,
        }
    }

    /// The queue gave a request for `required` tokens, or `None` where it is closed and empty.
    pub fn received(&mut self, required: Option<usize>)
        requires
            old(self).next_spec() == Next::Receive,
        ensures
            final(self).stage == Stage::after_receive(required),
            final(self).stage.serving() == required,
            final(self).next_spec() == if required is Some {
                Next::Attempt
            } else {
                Next::Stop
            },
    {
        self.stage = match required {
            Some(required) => Stage::Ready(required),
            None => Stage::Stopped,
        };
    }

    /// The tokens for the request were attempted, and `took` tells whether they were had.
    pub fn attempted(&mut self, took: bool)
        requires
            old(self).next_spec() == Next::Attempt,
        ensures
            final(self).stage == old(self).stage.after_attempt(took),
            took ==> final(self).stage.serving() is None,
            took ==> final(self).next_spec() == Next::Receive,
            !took ==> final(self).stage.serving() == old(self).stage.serving(),
            !took ==> final(self).next_spec() == (Next::Wait { millis: 10 }),
    {
        if let Stage::Ready(required) = self.stage {
            self.stage = if took { Stage::Idle } else { Stage::Waiting(required) };
        }
    }

    /// The wait is over, by a wake-up or by the time that has passed.
    pub fn woken(&mut self)
        requires
            old(self).next_spec() is Wait,
        ensures
            final(self).stage == old(self).stage.after_wait(),
            final(self).stage.serving() == old(self).stage.serving(),
            final(self).next_spec() == Next::Attempt,
    {
        if let Stage::Waiting(required) = self.stage {
            self.stage = Stage::Ready(required);
        }
    }
}

/// The worker of a queue that a request goes through only where it could not be served at once.
///
/// From its first attempt on until it finds the queue empty, the worker holds write access to a
/// lock, so that nobody takes tokens past the requests that stand in the queue.
#[derive(Clone, Copy, Debug, PartialEq, Eq, Structural)]
pub struct GuardedWorker {
    /// How far the worker has come.
    pub stage: Stage,
    /// Whether the worker holds the lock.
    pub locked: bool,
}

impl GuardedWorker {
    /// What the worker does next.
    pub open spec fn next_spec(self) -> GuardedNext {
        match self.stage {
            Stage::Idle => GuardedNext::Receive,
            Stage::Ready(_) => if self.locked {
                GuardedNext::Attempt
            } else {
                GuardedNext::Lock
            },
            Stage::Waiting(_) => GuardedNext::Wait { millis: RETRY_MILLIS },
            Stage::Stopped => GuardedNext::Stop,
        }
    }

    /// The worker holds the lock wherever it has attempted a request that it still serves, and does
    /// not where it has stopped.
    pub open spec fn wf(self) -> bool {
        &&& self.stage is Waiting ==> self.locked
        &&& self.stage is Stopped ==> !self.locked
    }

    /// Whether the worker holds the lock after an attempt: it lets go of the lock where the attempt
    /// came out well and no request is left in the queue.
    pub open spec fn locked_after_attempt(self, took: bool, queue_empty: bool) -> bool {
        self.locked && !(took && queue_empty)
    }

    /// A worker that has yet to receive its first request.
    pub fn new() -> (worker: GuardedWorker)
        ensures
            worker.wf(),
            worker.stage == Stage::Idle,
            !worker.locked,
            worker.next_spec() == GuardedNext::Receive,
    {
        GuardedWorker { stage: Stage::Idle, locked: false }
    }

    /// Tells what to do next.
    pub fn next(&self) -> (next: GuardedNext)
        ensures
            next == self.next_spec(),
    {
        match self.stage {
            Stage::Idle => GuardedNext::Receive,
            Stage::Ready(_) => if self.locked {
                GuardedNext::Attempt
            } else {
                GuardedNext::Lock
            },
            Stage::Waiting(_) => GuardedNext::Wait { millis: RETRY_MILLIS },
            Stage::Stopped => GuardedNext::Stop,
        }
    }

    /// The queue gave a request for `required` tokens, or `None` where it is closed and empty. A
    /// worker that stops lets go of the lock.
    pub fn received(&mut self, required: Option<usize>)
        requires
            old(self).next_spec() == GuardedNext::Receive,
        ensures
            final(self).wf(),
            final(self).stage == Stage::after_receive(required),
            final(self).locked == (old(self).locked && required is Some),
            final(self).stage.serving() == required,
            final(self).next_spec() == if required is None {
                GuardedNext::Stop
            } else if old(self).locked {
                GuardedNext::Attempt
            } else {
                GuardedNext::Lock
            },
    {
        match required {
            Some(required) => {
                self.stage = Stage::Ready(required);
            },
            None => {
                self.stage = Stage::Stopped;
                self.locked = false;
            },
        }
    }

    /// Write access to the lock was had.
    pub fn lock_acquired(&mut self)
        requires
            old(self).next_spec() == GuardedNext::Lock,
        ensures
            final(self).wf(),
            final(self).stage == old(self).stage,
            final(self).locked,
            final(self).next_spec() == GuardedNext::Attempt,
    {
        self.locked = true;
    }

    /// The tokens for the request were attempted: `took` tells whether they were had, and
    /// `queue_empty` whether no further request was found in the queue afterwards.
    pub fn attempted(&mut self, took: bool, queue_empty: bool)
        requires
            old(self).next_spec() == GuardedNext::Attempt,
        ensures
            final(self).wf(),
            final(self).stage == old(self).stage.after_attempt(took),
            final(self).locked == old(self).locked_after_attempt(took, queue_empty),
            final(self).locked == !(took && queue_empty),
            took ==> final(self).stage.serving() is None,
            took ==> final(self).next_spec() == GuardedNext::Receive,
            !took ==> final(self).stage.serving() == old(self).stage.serving(),
            !took ==> final(self).next_spec() == (GuardedNext::Wait { millis: 10 }),
    {
        if let Stage::Ready(required) = self.stage {
            if took {
                self.stage = Stage::Idle;
                if queue_empty {
                    self.locked = false;
                }
            } else {
                self.stage = Stage::Waiting(required);
            }
        }
    }

    /// The wait is over, by a wake-up or by the time that has passed.
    pub fn woken(&mut self)
        requires
            old(self).wf(),
            old(self).next_spec() is Wait,
        ensures
            final(self).wf(),
            final(self).stage == old(self).stage.after_wait(),
            final(self).locked == old(self).locked,
            final(self).stage.serving() == old(self).stage.serving(),
            final(self).next_spec() == GuardedNext::Attempt,
    {
        if let Stage::Waiting(required) = self.stage {
            self.stage = Stage::Ready(required);
        }
    }
}

} // verus!
