//! The requests to the browsers of a page that await their answers.
use std::collections::HashMap;
use vstd::prelude::*;

verus! {

/// The requests that await an answer, each with the one who is waiting for it.
#[derive(Debug)]
pub struct Queries<W> {
    waiting: HashMap<u128, W>,
}

impl<W> View for Queries<W> {
    type V = Map<u128, W>;

    closed spec fn view(&self) -> Map<u128, W> {
        self.waiting@
    }
}

impl<W> Queries<W> {
    /// The requests that await an answer are those in the map.
    proof fn law_requests_are_seen_as_they_are(queries: Queries<W>)
        ensures
            queries@ == queries.waiting@,
    {
    }

    /// Makes a set of requests with none in it.
    pub fn new() -> (queries: Queries<W>)
        ensures
            queries@ == Map::<u128, W>::empty(),
    {
        Queries { waiting: HashMap::new() }
    }

    /// Tests if no request awaits an answer.
    pub fn is_empty(&self) -> (empty: bool)
        ensures
            empty == (self@ == Map::<u128, W>::empty()),
    {
        let empty = self.waiting.is_empty();
        proof {
            if empty {
                assert(self@ =~= Map::<u128, W>::empty());
            }
        }
        empty
    }

    /// Adds a request under an identifier.
    pub fn request(&mut self, id: u128, waiter: W)
        ensures
            final(self)@ == old(self)@.insert(id, waiter),
    {
        broadcast use vstd::std_specs::hash::group_hash_axioms;

        let _ = self.waiting.insert(id, waiter);
    }

    /// Gives a request up. This has no effect if it is not waiting.
    pub fn cancel(&mut self, id: u128)
        ensures
            final(self)@ == old(self)@.remove(id),
    {
        broadcast use vstd::std_specs::hash::group_hash_axioms;

        let _ = self.waiting.remove(&id);
    }

    /// Takes out the request that has been answered and returns the one who is
    /// waiting for the answer, or `None` if it was not waiting.
    pub fn respond(&mut self, id: u128) -> (waiter: Option<W>)
        ensures
            waiter == (if old(self)@.contains_key(id) {
                Some(old(self)@[id])
            } else {
                None
            }),
            final(self)@ == old(self)@.remove(id),
    {
        broadcast use vstd::std_specs::hash::group_hash_axioms;

        self.waiting.remove(&id)
    }
}

} // verus!
