//! The arithmetic of the token counter.

use vstd::prelude::*;

verus! {

/// The counter after `n` tokens were taken from `current`, or `None` where there are not enough.
pub open spec fn taken(current: usize, n: usize) -> Option<usize> {
    if n <= current {
        Some((current - n) as usize)
    } else {
        None
    }
}

/// The counter after one refill, or `None` where the refill adds nothing: the counter already
/// stands at `capacity` (or past it), or `refill_amount` is zero.
pub open spec fn refilled(current: usize, capacity: usize, refill_amount: usize) -> Option<usize> {
    if current >= capacity || refill_amount == 0 {
        None
    } else if current + refill_amount <= capacity {
        Some((current + refill_amount) as usize)
    } else {
        Some(capacity)
    }
}

/// Takes `n` tokens out of `current`, all of them or none.
pub fn take(current: usize, n: usize) -> (next: Option<usize>)
    ensures
        next == taken(current, n),
        match next {
            Some(left) => left + n == current,
            None => current < n,
        },
{
    if current >= n {
        Some(current - n)
    } else {
        None
    }
}

/// Adds up to `refill_amount` tokens to `current`, no further than `capacity`.
pub fn refill(current: usize, capacity: usize, refill_amount: usize) -> (next: Option<usize>)
    ensures
        next == refilled(current, capacity, refill_amount),
        match next {
            Some(held) => {
                &&& current < held <= capacity
                &&& held <= current + refill_amount
                &&& held == capacity || held == current + refill_amount
            },
            None => current >= capacity || refill_amount == 0,
        },
{
    if current >= capacity {
        None
    } else {
        let space: usize = capacity - current;
        let to_add: usize = if refill_amount < space { refill_amount } else { space };
        if to_add > 0 {
            Some(current + to_add)
        } else {
            None
        }
    }
}

/// What is done to the token counter in one atomic step.
#[derive(Clone, Copy, Debug, PartialEq, Eq, Structural)]
pub enum TokenOp {
    /// Take this many tokens.
    Take(usize),
    /// Add `refill_amount` tokens, up to `capacity`.
    Refill { capacity: usize, refill_amount: usize },
}

impl TokenOp {
    /// The counter after this operation, or `None` where it leaves the counter as it is.
    pub open spec fn next(self, current: usize) -> Option<usize> {
        match self {
            TokenOp::Take(n) => taken(current, n),
            TokenOp::Refill { capacity, refill_amount } => refilled(
                current,
                capacity,
                refill_amount,
            ),
        }
    }

    /// The counter after this operation, changed or not.
    pub open spec fn after(self, current: usize) -> usize {
        match self.next(current) {
            Some(next) => next,
            None => current,
        }
    }

    /// Computes the counter after this operation, if it changes.
    pub fn apply(self, current: usize) -> (next: Option<usize>)
        ensures
            next == self.next(current),
    {
        match self {
            TokenOp::Take(n) => take(current, n),
            TokenOp::Refill { capacity, refill_amount } => refill(
                current,
                capacity,
                refill_amount,
            ),
        }
    }
}

} // verus!
