//! Invoke IDs for confirmed requests: a counter that wraps from 255 to 0.

use vstd::prelude::*;

verus! {

/// Allocates invoke IDs for confirmed-request transactions.
#[derive(Debug)]
pub struct InvokeIdAllocator {
    next: u8,
}

impl InvokeIdAllocator {
    /// The invoke ID the next allocation gives.
    pub closed spec fn spec_next(&self) -> u8 {
        self.next
    }

    /// Creates an allocator starting from invoke ID 0.
    pub fn new() -> (r: Self)
        ensures
            r.spec_next() == 0,
    {
        InvokeIdAllocator { next: 0 }
    }

    /// The next invoke ID, wrapping from 255 back to 0.
    pub fn next_id(&mut self) -> (r: u8)
        ensures
            r == old(self).spec_next(),
            final(self).spec_next() == (if r == 255 { 0 } else { r + 1 }),
    {
        let id = self.next;
        self.next = self.next.wrapping_add(1);
        id
    }
}

impl Default for InvokeIdAllocator {
    fn default() -> (r: Self)
        ensures
            r.spec_next() == 0,
    {
        InvokeIdAllocator::new()
    }
}

} // verus!
