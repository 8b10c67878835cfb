//! Requests, as the laws speak of them.

use vstd::prelude::*;

verus! {

/// A request, told apart from all others by its `id`.
pub struct Ticket {
    pub id: int,
    pub required: usize,
}

impl Ticket {
    /// The number of tokens that `tickets` ask for together.
    pub open spec fn total(tickets: Seq<Ticket>) -> int
        decreases tickets.len(),
    {
        if tickets.len() == 0 {
            0
        } else {
            Ticket::total(tickets.drop_last()) + tickets.last().required
        }
    }
}

/// With one ticket more, the total grows by what it asks for.
pub(crate) proof fn lemma_total_next(tickets: Seq<Ticket>, i: int)
    requires
        0 <= i < tickets.len(),
    ensures
        Ticket::total(tickets.take(i + 1)) == Ticket::total(tickets.take(i)) + tickets[i].required,
{
    assert(tickets.take(i + 1).drop_last() == tickets.take(i));
}

/// The first tickets ask for no more than all of them.
pub(crate) proof fn lemma_total_prefix(first: Seq<Ticket>, all: Seq<Ticket>)
    requires
        first.is_prefix_of(all),
    ensures
        Ticket::total(first) <= Ticket::total(all),
    decreases all.len(),
{
    if first.len() == all.len() {
        assert(first == all);
    } else {
        assert(first.is_prefix_of(all.drop_last()));
        lemma_total_prefix(first, all.drop_last());
    }
}

} // verus!
