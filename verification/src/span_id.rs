//! The process-wide span-identity allocator: ids are strictly positive,
//! unique, and strictly increasing in allocation order.
use vstd::prelude::*;

verus! {

/// Counter handing out span ids, starting at 1 and stepping by exactly 1.
pub struct SpanIdAllocator {
    next: u64,
}

impl SpanIdAllocator {
    /// The id the next allocation will return.
    pub closed spec fn spec_next(&self) -> u64 {
        self.next
    }

    /// The counter never returns to 0, so no allocated id is 0.
    pub closed spec fn wf(&self) -> bool {
        self.next >= 1
    }

    /// The allocator's successor state and the id it hands out.
    pub closed spec fn spec_allocate(self) -> (SpanIdAllocator, u64) {
        (SpanIdAllocator { next: (self.next + 1) as u64 }, self.next)
    }

    /// A fresh allocator whose first id is 1.
    pub fn new() -> (r: Self)
        ensures
            r.wf(),
            r.spec_next() == 1,
    {
        SpanIdAllocator { next: 1 }
    }

    /// Hands out the next id. Wraparound of the 64-bit counter is treated as
    /// unreachable and excluded by precondition.
    pub fn allocate(&mut self) -> (id: u64)
        requires
            old(self).wf(),
            old(self).spec_next() < u64::MAX,
        ensures
            (*final(self), id) == old(self).spec_allocate(),
            id == old(self).spec_next(),
            id != 0,
            final(self).spec_next() == id + 1,
            final(self).wf(),
    {
        let id = self.next;
        self.next = self.next + 1;
        id
    }
}

/// Ids allocated across calls are strictly increasing and never 0: two
/// consecutive allocations from any well-formed allocator state hand out
/// nonzero ids with the second strictly greater than the first.
pub proof fn lemma_span_ids_strictly_increasing(a: SpanIdAllocator)
    requires
        a.wf(),
        a.spec_next() < u64::MAX - 1,
    ensures
        ({
            let (a1, id1) = a.spec_allocate();
            let (a2, id2) = a1.spec_allocate();
            id1 != 0 && id2 != 0 && id1 < id2
        }),
{
}

} // verus!
