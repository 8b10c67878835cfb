//! Steps on a counter, and what tells of them.

use std::sync::atomic::AtomicUsize;
use vstd::prelude::*;
use crate::cell::{fetch_update, new_atomic, CallerRight, StepLog, TokenCell, UpdateView};
use crate::tokens::TokenOp;

verus! {

/// Creates a counter that starts at `value`, with the logs of two handles to it, without an entry,
/// and the right to let callers act on it.
pub(crate) fn new_cell(value: usize) -> (parts: (TokenCell, StepLog, StepLog, CallerRight))
    ensures
        crate::cell::initial_count(parts.0.id()) == value,
        parts.1.cell() == parts.0.id(),
        parts.2.cell() == parts.0.id(),
        parts.3.cell() == parts.0.id(),
        parts.1@ == Seq::<UpdateView>::empty(),
        parts.2@ == Seq::<UpdateView>::empty(),
{
    new_atomic(value)
}

/// The record of an atomic step on a counter. `make_step` is the only way to come by one.
pub struct Update {
    op: TokenOp,
    before: usize,
    stored: bool,
    cell: Ghost<AtomicUsize>,
}

impl View for Update {
    type V = UpdateView;

    closed spec fn view(&self) -> UpdateView {
        UpdateView { cell: self.cell@, op: self.op, before: self.before, stored: self.stored }
    }
}

impl Update {
    /// The value that the operation met.
    pub fn before(&self) -> (before: usize)
        ensures
            before == self@.before,
    {
        self.before
    }

    /// Whether the operation wrote a new value.
    pub fn stored(&self) -> (stored: bool)
        ensures
            stored == self@.stored,
    {
        self.stored
    }
}

/// Makes one step on `cell`, which is entered in `log`.
pub(crate) fn make_step(cell: &TokenCell, log: &mut StepLog, op: TokenOp) -> (update: Update)
    requires
        old(log).cell() == cell.id(),
    ensures
        update@.performs(cell.id(), op),
        final(log).cell() == old(log).cell(),
        final(log)@ == old(log)@.push(update@),
{
    match fetch_update(cell, log, op) {
        Ok(before) => Update { op, before, stored: true, cell: Ghost(cell.id()) },
        Err(before) => Update { op, before, stored: false, cell: Ghost(cell.id()) },
    }
}

} // verus!
