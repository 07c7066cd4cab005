//! Node identifiers.

use vstd::prelude::*;

verus! {

/// Hands out the identifiers of syntax-tree nodes, callables and classes.
///
/// Identifiers come from one counter that only moves forward, so two
/// identifiers taken from the same allocator differ as long as the counter
/// has not run through all of `u64`.
pub struct IdAllocator {
    next: u64,
}

impl IdAllocator {
    /// The identifier that the next call of [`next_id`] returns.
    pub closed spec fn upcoming(&self) -> u64 {
        self.next
    }

    /// An allocator whose first identifier is 1.
    pub fn new() -> (r: Self)
        ensures
            r.upcoming() == 1,
    {
        IdAllocator { next: 1 }
    }

    /// An allocator whose first identifier is `first`.
    pub fn starting_at(first: u64) -> (r: Self)
        ensures
            r.upcoming() == first,
    {
        IdAllocator { next: first }
    }

    /// The identifier that the next call of [`next_id`] returns.
    pub fn peek(&self) -> (r: u64)
        ensures
            r == self.upcoming(),
    {
        self.next
    }
}

/// The identifier after `id`; the counter wraps around at the end of `u64`.
pub open spec fn following(id: u64) -> u64 {
    if id == u64::MAX {
        0
    } else {
        (id + 1) as u64
    }
}

/// Takes the next identifier and moves the counter forward by one.
pub fn next_id(ids: &mut IdAllocator) -> (r: u64)
    ensures
        r == old(ids).upcoming(),
        final(ids).upcoming() == following(r),
{
    let id = ids.next;
    ids.next = id.wrapping_add(1);
    id
}

} // verus!
