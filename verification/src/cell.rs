//! The atomic cell that counts tokens.
//!
//! Outside this module a cell can be acted on by `fetch_update` alone, which enters what it did in
//! a log of that cell. The logs of the two first handles come with the cell. Another one can be had
//! only for a caller, out of the shared handle of the limiter that holds the one right to it, by a
//! function that does not unwind and so calls nothing that makes a step. Nothing in this module
//! makes a log and a step, so a function that is lent a cell and a log makes no step on the cell
//! that the log does not show.

use std::sync::atomic::{AtomicUsize, Ordering};
use std::sync::Arc;
use vstd::prelude::*;
use crate::quota::FastQuota;
use crate::tokens::TokenOp;

pub use crate::step::Update;

verus! {

/// The value that a counter was created with. A counter is known here by its identity alone: what
/// it holds later is shared between tasks and has no name.
pub uninterp spec fn initial_count(cell: AtomicUsize) -> usize;

/// A counter of tokens.
pub struct TokenCell {
    inner: AtomicUsize,
}

impl TokenCell {
    /// The counter's identity.
    pub closed spec fn id(self) -> AtomicUsize {
        self.inner
    }
}

/// What one atomic step on a counter met and did.
pub struct UpdateView {
    /// The counter.
    pub cell: AtomicUsize,
    /// The operation.
    pub op: TokenOp,
    /// The value that the operation met.
    pub before: usize,
    /// Whether the operation wrote a new value.
    pub stored: bool,
}

impl UpdateView {
    /// Whether the step applied `op` to `cell`: it wrote a new value if and only if `op` gives one
    /// for the value that it met.
    pub open spec fn performs(self, cell: AtomicUsize, op: TokenOp) -> bool {
        &&& self.cell == cell
        &&& self.op == op
        &&& self.stored == (op.next(self.before) is Some)
    }

    /// The value of the counter right after the step.
    pub open spec fn after(self) -> usize {
        self.op.after(self.before)
    }
}

/// The right to let callers act on a counter. There is one for each counter.
pub struct CallerRight {
    cell: Ghost<AtomicUsize>,
}

impl CallerRight {
    /// The counter.
    pub closed spec fn cell(self) -> AtomicUsize {
        self.cell@
    }
}

/// The steps that were made on a counter through a handle, in order.
pub struct StepLog {
    cell: Ghost<AtomicUsize>,
    steps: Ghost<Seq<UpdateView>>,
}

impl View for StepLog {
    type V = Seq<UpdateView>;

    closed spec fn view(&self) -> Seq<UpdateView> {
        self.steps@
    }
}

impl StepLog {
    /// The counter.
    pub closed spec fn cell(self) -> AtomicUsize {
        self.cell@
    }

    /// The log of a new caller of `quota`, without an entry.
    pub(crate) fn of_caller(quota: &Arc<FastQuota>) -> (log: StepLog)
        ensures
            log.cell() == quota.counter(),
            log@ == Seq::<UpdateView>::empty(),
        no_unwind
    {
        let right = quota.caller_right();
        StepLog { cell: right.cell, steps: Ghost(Seq::empty()) }
    }
}

/// What is said of a counter, of the right to it and of a log is said of what stands in them.
proof fn law_cell_accounts(cell: TokenCell, right: CallerRight, log: StepLog)
    ensures
        cell.id() == cell.inner,
        right.cell() == right.cell@,
        log.cell() == log.cell@,
        log@ == log.steps@,
{
}

/// Calls `AtomicUsize::new`: the new counter starts at `value`. With it come the records of the
/// steps of its two first handles, in which nothing stands, and the one right to let callers act.
#[verifier::external_body]
pub(crate) fn new_atomic(value: usize) -> (parts: (TokenCell, StepLog, StepLog, CallerRight))
    ensures
        initial_count(parts.0.id()) == value,
        parts.1.cell() == parts.0.id(),
        parts.2.cell() == parts.0.id(),
        parts.3.cell() == parts.0.id(),
        parts.1@ == Seq::<UpdateView>::empty(),
        parts.2@ == Seq::<UpdateView>::empty(),
{
    let inner = AtomicUsize::new(value);
    let cell = Ghost(inner);
    (
        TokenCell { inner },
        StepLog { cell, steps: Ghost(Seq::empty()) },
        StepLog { cell, steps: Ghost(Seq::empty()) },
        CallerRight { cell },
    )
}

/// Whether every one of `steps` was made on `cell` and took tokens or tried to.
pub open spec fn only_takes(steps: Seq<UpdateView>, cell: AtomicUsize) -> bool {
    forall|i: int|
        0 <= i < steps.len() ==> (#[trigger] steps[i]).performs(cell, steps[i].op)
            && steps[i].op is Take
}

/// Whether every one of `steps` applied `op` to `cell`.
pub open spec fn only_performs(steps: Seq<UpdateView>, cell: AtomicUsize, op: TokenOp) -> bool {
    forall|i: int| 0 <= i < steps.len() ==> (#[trigger] steps[i]).performs(cell, op)
}

/// Calls `AtomicUsize::fetch_update`, which applies `op` to the value that the counter holds, as
/// one atomic step. Its `Ok` and `Err` both carry the value met: `Ok` where `op` gives a new value
/// for it, which is then stored, and `Err` where it gives none. Which value is met depends on what
/// other tasks did, so nothing is said of it. The step is entered in `log`.
#[verifier::external_body]
pub(crate) fn fetch_update(cell: &TokenCell, log: &mut StepLog, op: TokenOp) -> (met: Result<
    usize,
    usize,
>)
    requires
        old(log).cell() == cell.id(),
    ensures
        final(log).cell() == old(log).cell(),
        match met {
            Ok(before) => {
                &&& op.next(before) is Some
                &&& final(log)@ == old(log)@.push(
                    (UpdateView { cell: cell.id(), op, before, stored: true }),
                )
            },
            Err(before) => {
                &&& op.next(before) is None
                &&& final(log)@ == old(log)@.push(
                    (UpdateView { cell: cell.id(), op, before, stored: false }),
                )
            },
        },
{
    let met = cell.inner.fetch_update(
        Ordering::AcqRel,
        Ordering::Acquire,
        |current| op.apply(current),
    );
    log.steps = Ghost(
        log.steps@.push(
            match met {
                Ok(before) => UpdateView { cell: cell.inner, op, before, stored: true },
                Err(before) => UpdateView { cell: cell.inner, op, before, stored: false },
            },
        ),
    );
    met
}

} // verus!
