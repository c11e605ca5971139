//! A physical frame allocator handing out page-aligned frames from a fixed
//! range, with a live-frame count so that callers can account for every frame
//! they acquire and release.

use vstd::prelude::*;
use crate::addr::FrameNumber;
use crate::addr::FRAME_NUMBER_LIMIT;

verus! {

/// Allocates physical frames from the range `[next, limit)` and counts how
/// many allocated frames are still live.
pub struct FrameAllocator {
    next: u64,
    limit: u64,
    allocated: u64,
}

impl FrameAllocator {
    /// The allocator's counters stay within the pool and within the 44-bit
    /// frame-number range, and it can never have more live frames than it
    /// has handed out.
    pub closed spec fn wf(self) -> bool {
        &&& self.next <= self.limit
        &&& self.limit <= FRAME_NUMBER_LIMIT
        &&& self.allocated <= self.next
    }

    /// How many frames the allocator can still hand out.
    pub closed spec fn spec_remaining(self) -> int {
        self.limit - self.next
    }

    /// How many allocated frames are live (allocated and not yet released).
    pub closed spec fn spec_allocated(self) -> int {
        self.allocated as int
    }

    /// The frame number the next successful allocation returns.
    pub closed spec fn spec_next(self) -> u64 {
        self.next
    }

    /// A well-formed allocator never has a negative frame budget or a
    /// negative live count.
    pub proof fn lemma_wf_bounds(self)
        requires
            self.wf(),
        ensures
            self.spec_remaining() >= 0,
            self.spec_allocated() >= 0,
    {
    }

    /// Creates an allocator over the frame range `[base, limit)` with no
    /// live frames.
    pub fn new(base: u64, limit: u64) -> (r: FrameAllocator)
        requires
            base <= limit,
            limit <= FRAME_NUMBER_LIMIT,
        ensures
            r.wf(),
            r.spec_next() == base,
            r.spec_remaining() == limit - base,
            r.spec_allocated() == 0,
    {
        FrameAllocator { next: base, limit, allocated: 0 }
    }

    /// Hands out the next frame of the pool, or reports exhaustion. A
    /// returned frame is fresh: it is distinct from every frame handed out
    /// before.
    pub fn allocate(&mut self) -> (r: Option<FrameNumber>)
        requires
            old(self).wf(),
        ensures
            final(self).wf(),
            r is Some <==> old(self).spec_remaining() > 0,
            r is Some ==> {
                &&& r->0.wf()
                &&& r->0.bits == old(self).spec_next()
                &&& final(self).spec_next() == old(self).spec_next() + 1
                &&& final(self).spec_remaining() == old(self).spec_remaining() - 1
                &&& final(self).spec_allocated() == old(self).spec_allocated() + 1
            },
            r is None ==> *final(self) == *old(self),
    {
        if self.next < self.limit {
            let frame = FrameNumber::new(self.next);
            self.next = self.next + 1;
            self.allocated = self.allocated + 1;
            Some(frame)
        } else {
            None
        }
    }

    /// Releases one live frame, decreasing the live count by one. The frame
    /// itself carries no state to return: the count is the allocator's whole
    /// record of what is live.
    pub fn deallocate(&mut self, frame: FrameNumber)
        requires
            old(self).wf(),
            old(self).spec_allocated() > 0,
        ensures
            final(self).wf(),
            final(self).spec_allocated() == old(self).spec_allocated() - 1,
            final(self).spec_next() == old(self).spec_next(),
            final(self).spec_remaining() == old(self).spec_remaining(),
    {
        let _ = frame;
        self.allocated = self.allocated - 1;
    }

    /// The number of live frames: allocated and not yet released.
    pub fn allocated_count(&self) -> (r: u64)
        ensures
            r == self.spec_allocated(),
    {
        self.allocated
    }

    /// The number of frames the allocator can still hand out.
    pub fn remaining(&self) -> (r: u64)
        requires
            self.wf(),
        ensures
            r == self.spec_remaining(),
    {
        self.limit - self.next
    }
}

} // verus!
