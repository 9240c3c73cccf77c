//! The pool of servers that were started and wait for a client.

use vstd::prelude::*;
use crate::text::text_equals;

verus! {

/// Tickets of the servers that wait for a client, the newest last.
///
/// A ticket is the text of the port on which the server listens. No ticket
/// is in the pool twice.
pub struct WaitingPool {
    tickets: Vec<String>,
}

impl View for WaitingPool {
    type V = Seq<Seq<char>>;

    closed spec fn view(&self) -> Seq<Seq<char>> {
        self.tickets.deep_view()
    }
}

impl WaitingPool {
    #[verifier::type_invariant]
    spec fn distinct(&self) -> bool {
        self.tickets.deep_view().no_duplicates()
    }

    /// Takes the tickets out of the pool, which is left empty.
    fn take_tickets(&mut self) -> (tickets: Vec<String>)
        ensures
            tickets.deep_view() == old(self)@,
            tickets.deep_view().no_duplicates(),
            final(self)@ == Seq::<Seq<char>>::empty(),
    {
        let mut taken = WaitingPool::new();
        std::mem::swap(self, &mut taken);
        proof {
            use_type_invariant(&taken);
        }
        taken.tickets
    }

    /// An empty pool.
    pub fn new() -> (pool: WaitingPool)
        ensures
            pool@ == Seq::<Seq<char>>::empty(),
    {
        let tickets: Vec<String> = Vec::new();
        assert(tickets.deep_view() =~= Seq::<Seq<char>>::empty());
        WaitingPool { tickets }
    }

    /// The number of waiting tickets.
    pub fn len(&self) -> (n: usize)
        ensures
            n == self@.len(),
    {
        self.tickets.len()
    }

    /// Whether no ticket waits.
    pub fn is_empty(&self) -> (empty: bool)
        ensures
            empty == (self@.len() == 0),
    {
        self.tickets.len() == 0
    }

    /// Whether `ticket` waits in the pool.
    pub fn contains(&self, ticket: &str) -> (found: bool)
        ensures
            found == self@.contains(ticket@),
            self@.no_duplicates(),
    {
        proof {
            use_type_invariant(self);
        }
        let mut i: usize = 0;
        while i < self.tickets.len()
            invariant
                i <= self.tickets.len(),
                self@.no_duplicates(),
                forall|k: int| 0 <= k < i ==> self@[k] != ticket@,
            decreases self.tickets.len() - i,
        {
            if text_equals(self.tickets[i].as_str(), ticket) {
                assert(self@[i as int] == ticket@);
                return true;
            }
            i = i + 1;
        }
        false
    }

    /// Adds a ticket on top of the pool, unless that ticket waits in it
    /// already. Tells whether the ticket was added.
    pub fn push(&mut self, ticket: String) -> (added: bool)
        ensures
            added == !old(self)@.contains(ticket@),
            added ==> final(self)@ == old(self)@.push(ticket@),
            !added ==> final(self)@ == old(self)@,
            final(self)@.no_duplicates(),
    {
        if self.contains(ticket.as_str()) {
            return false;
        }
        let ghost held = self@;
        let mut tickets = self.take_tickets();
        tickets.push(ticket);
        assert(tickets.deep_view() =~= held.push(ticket@));
        *self = WaitingPool { tickets };
        true
    }

    /// Takes the ticket that was pushed last, if there is one.
    pub fn try_claim(&mut self) -> (claimed: Option<String>)
        ensures
            old(self)@.len() == 0 ==> claimed is None && final(self)@ == old(self)@,
            old(self)@.len() > 0 ==> claimed is Some && claimed->0@ == old(self)@.last()
                && final(self)@ == old(self)@.drop_last(),
            final(self)@.no_duplicates(),
    {
        let ghost held = self@;
        let mut tickets = self.take_tickets();
        let claimed = tickets.pop();
        assert(held.len() > 0 ==> tickets.deep_view() =~= held.drop_last());
        *self = WaitingPool { tickets };
        claimed
    }
}

} // verus!
