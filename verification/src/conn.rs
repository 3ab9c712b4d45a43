//! Connection identifiers.

use vstd::prelude::*;

verus! {

/// The source of connection identifiers of one accept loop: 1, 2, 3 and so
/// on, each given out once.
pub struct ConnIds {
    next: u64,
}

impl View for ConnIds {
    type V = u64;

    /// The identifier that is given out next.
    closed spec fn view(&self) -> u64 {
        self.next
    }
}

impl ConnIds {
    pub fn new() -> (ids: ConnIds)
        ensures
            ids@ == 1,
    {
        ConnIds { next: 1 }
    }

    /// Gives out the next identifier. After `u64::MAX` the count starts
    /// again at 0.
    pub fn allocate(&mut self) -> (id: u64)
        ensures
            id == old(self)@,
            final(self)@ == if old(self)@ == u64::MAX {
                0
            } else {
                (old(self)@ + 1) as u64
            },
    {
        let id: u64 = self.next;
        self.next = if id == u64::MAX {
            0
        } else {
            id + 1
        };
        id
    }
}

} // verus!
