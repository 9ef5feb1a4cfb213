//! Heap bootstrap: a fixed virtual range is handed to the allocator
//! exactly once, after the remapper has mapped it.  Requests before that
//! hand-over, and requests past the end of the range, are out-of-memory —
//! there is no growth or remap path at this stage of the boot.

use vstd::prelude::*;
use crate::interrupts::FaultOutcome;

verus! {

/// An allocation request the heap cannot serve is a fatal out-of-memory
/// condition: there is no growth or remap path, so the only answer is to
/// log a diagnostic and halt.
pub fn oom() -> (r: FaultOutcome)
    ensures
        r == FaultOutcome::Halt,
{
    FaultOutcome::Halt
}

/// The kernel heap: a fixed range of virtual addresses handed out by a
/// forward-moving bump pointer.  Every returned block is 8-byte aligned
/// and lies fully inside the range; nothing is ever handed out twice,
/// because the pointer only advances.
pub struct Heap {
    pub initialized: bool,
    pub start: u64,
    pub size: u64,
    pub next: u64,
}

impl Heap {
    /// The heap's internal consistency: the bump pointer stays inside
    /// the range and the range fits in the address space.
    pub open spec fn wf(&self) -> bool {
        self.initialized ==> {
            &&& self.start + self.size <= u64::MAX
            &&& self.start <= self.next <= self.start + self.size
        }
    }

    /// The smallest 8-byte aligned address at or above the bump pointer.
    pub open spec fn aligned_next(&self) -> int {
        self.next + (8 - self.next % 8) % 8
    }

    /// A heap that cannot serve anything yet.
    pub fn empty() -> (r: Self)
        ensures
            r.wf(),
            !r.initialized,
    {
        Heap { initialized: false, start: 0, size: 0, next: 0 }
    }

    /// Hand the fixed virtual range to the heap, exactly once, after the
    /// range has been mapped.
    pub fn init(&mut self, start: u64, size: u64)
        requires
            !old(self).initialized,
            start + size <= u64::MAX,
        ensures
            final(self).initialized,
            final(self).start == start,
            final(self).size == size,
            final(self).next == start,
            final(self).wf(),
    {
        self.initialized = true;
        self.start = start;
        self.size = size;
        self.next = start;
    }

    /// Serve one allocation of `size` bytes, 8-byte aligned, or report
    /// out of memory: before `init`, for empty requests, or when the
    /// remaining range cannot hold the block.  Success is owed exactly
    /// when the heap is initialized, the request is non-empty, and the
    /// aligned bump pointer leaves room for it.
    pub fn allocate(&mut self, size: u64) -> (r: Option<u64>)
        requires
            old(self).wf(),
        ensures
            final(self).wf(),
            final(self).initialized == old(self).initialized,
            final(self).start == old(self).start,
            final(self).size == old(self).size,
            match r {
                Some(addr) => {
                    &&& old(self).initialized
                    &&& size > 0
                    &&& addr == old(self).aligned_next()
                    &&& addr % 8 == 0
                    &&& old(self).start <= addr
                    &&& addr + size <= old(self).start + old(self).size
                    &&& final(self).next == addr + size
                },
                None => {
                    &&& !old(self).initialized || size == 0 || old(self).aligned_next() + size
                        > old(self).start + old(self).size
                    &&& final(self).next == old(self).next
                },
            },
    {
        if !self.initialized || size == 0 {
            return None;
        }
        let offset: u64 = self.next % 8;
        let pad: u64 = if offset == 0 {
            0
        } else {
            8 - offset
        };
        let end: u64 = self.start + self.size;
        if pad > end - self.next {
            return None;
        }
        let addr: u64 = self.next + pad;
        if size > end - addr {
            return None;
        }
        self.next = addr + size;
        Some(addr)
    }
}

} // verus!
