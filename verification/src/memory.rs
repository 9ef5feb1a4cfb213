//! Physical frame allocation over the firmware memory map.
//!
//! The allocator is given the usable memory areas (sorted by start
//! address and disjoint) together with the kernel image range and the
//! boot-metadata range.  It hands out free 4 KiB frames one at a time,
//! lowest address first, skipping the reserved ranges as holes inside
//! the usable areas, and never returns the same frame twice: the cursor
//! only ever advances.  There is no deallocation path at this stage of
//! the boot; a frame, once handed out, stays consumed.

use vstd::prelude::*;
use vstd::arithmetic::div_mod::lemma_div_is_ordered;

verus! {

/// Size of a physical page frame in bytes.
pub const PAGE_SIZE: u64 = 4096;

/// A physical page frame, identified by its index: frames partition the
/// physical address space, frame `n` covering addresses
/// `n * PAGE_SIZE .. (n + 1) * PAGE_SIZE`.
#[derive(Clone, Copy, Debug, PartialEq, Eq, Structural)]
pub struct Frame {
    pub number: u64,
}

impl Frame {
    /// The frame that covers the given physical address.
    pub fn containing_address(address: u64) -> (r: Frame)
        ensures
            r.number == address / PAGE_SIZE,
    {
        Frame { number: address / PAGE_SIZE }
    }
}

/// A (start address, length) physical range reported by firmware as
/// usable RAM.
#[derive(Clone, Copy, Debug, PartialEq, Eq, Structural)]
pub struct MemoryArea {
    pub base_addr: u64,
    pub length: u64,
}

impl MemoryArea {
    /// Index of the first frame that lies fully inside the area.
    pub open spec fn first_frame(&self) -> int {
        (self.base_addr + PAGE_SIZE - 1) / (PAGE_SIZE as int)
    }

    /// One past the index of the last frame that lies fully inside the
    /// area.
    pub open spec fn end_frame(&self) -> int {
        (self.base_addr + self.length) / (PAGE_SIZE as int)
    }

    /// Whether frame `n` lies fully inside the area.
    pub open spec fn contains_frame(&self, n: int) -> bool {
        self.first_frame() <= n < self.end_frame()
    }

    /// Headroom so that the frame bounds can be computed in 64 bits.
    pub open spec fn fits(&self) -> bool {
        self.base_addr + self.length + PAGE_SIZE <= u64::MAX
    }
}

/// The memory areas are individually bounded, sorted by start address,
/// and pairwise disjoint.
pub open spec fn areas_wf(areas: Seq<MemoryArea>) -> bool {
    &&& forall|i: int| 0 <= i < areas.len() ==> (#[trigger] areas[i]).fits()
    &&& forall|i: int, j: int|
        0 <= i < j < areas.len() ==> #[trigger] areas[i].base_addr + areas[i].length
            <= #[trigger] areas[j].base_addr
}

/// Sorted, disjoint byte ranges give ordered frame ranges: every frame of
/// an earlier area comes before every frame of a later one.
pub proof fn lemma_areas_ordered(areas: Seq<MemoryArea>, i: int, j: int)
    requires
        areas_wf(areas),
        0 <= i < j < areas.len(),
    ensures
        areas[i].end_frame() <= areas[j].first_frame(),
{
    lemma_div_is_ordered(
        areas[i].base_addr + areas[i].length,
        areas[j].base_addr + PAGE_SIZE - 1,
        PAGE_SIZE as int,
    );
}

/// The frame allocator: the usable areas, the two reserved ranges (as
/// frame index ranges), and the cursor, which only ever moves forward.
/// The ghost history records every frame handed out, in order.
pub struct AreaFrameAllocator {
    pub next_free_frame: u64,
    pub area_index: usize,
    pub areas: Vec<MemoryArea>,
    pub kernel_start_frame: u64,
    pub kernel_end_frame: u64,
    pub multiboot_start_frame: u64,
    pub multiboot_end_frame: u64,
    pub history: Ghost<Seq<u64>>,
}

impl AreaFrameAllocator {
    /// Whether frame `n` overlaps the kernel image or the boot-metadata
    /// range: such frames must never be handed out.
    pub open spec fn reserved_frame(&self, n: int) -> bool {
        ||| self.kernel_start_frame <= n <= self.kernel_end_frame
        ||| self.multiboot_start_frame <= n <= self.multiboot_end_frame
    }

    /// Whether frame `n` may ever be handed out: fully inside some usable
    /// area and outside both reserved ranges.  This depends only on the
    /// configuration, never on the cursor.
    pub open spec fn usable_frame(&self, n: int) -> bool {
        (exists|i: int|
            0 <= i < self.areas@.len() && (#[trigger] self.areas@[i]).contains_frame(n))
            && !self.reserved_frame(n)
    }

    /// The cursor: no frame below it will ever be handed out again.
    pub open spec fn cursor(&self) -> int {
        self.next_free_frame as int
    }

    /// The frames handed out so far, in order.
    pub open spec fn allocated(&self) -> Seq<u64> {
        self.history@
    }

    /// No usable frame at or past the cursor is left: every further call
    /// returns none.
    pub open spec fn exhausted(&self) -> bool {
        forall|n: int| n >= self.cursor() ==> !self.usable_frame(n)
    }

    /// The configuration (areas and reserved ranges) of two allocator
    /// states is the same; only cursor and history may differ.
    pub open spec fn same_config(&self, other: &Self) -> bool {
        &&& self.areas@ == other.areas@
        &&& self.kernel_start_frame == other.kernel_start_frame
        &&& self.kernel_end_frame == other.kernel_end_frame
        &&& self.multiboot_start_frame == other.multiboot_start_frame
        &&& self.multiboot_end_frame == other.multiboot_end_frame
    }

    /// Well-formedness: the areas are sorted and disjoint, the reserved
    /// frame bounds leave room to step past them, areas before the
    /// current one hold no frame at or past the cursor, and the history
    /// is strictly increasing, all usable, all below the cursor — and
    /// complete: the cursor never skips a usable frame, so every usable
    /// frame below it was in fact handed out.
    pub open spec fn wf(&self) -> bool {
        &&& areas_wf(self.areas@)
        &&& self.area_index <= self.areas@.len()
        &&& self.kernel_end_frame <= u64::MAX / PAGE_SIZE
        &&& self.multiboot_end_frame <= u64::MAX / PAGE_SIZE
        &&& forall|i: int, n: int|
            0 <= i < self.area_index && #[trigger] self.areas@[i].contains_frame(n)
                ==> n < self.cursor()
        &&& forall|k: int|
            0 <= k < self.history@.len()
                ==> self.usable_frame(#[trigger] self.history@[k] as int)
                    && self.history@[k] < self.cursor()
        &&& forall|k1: int, k2: int|
            0 <= k1 < k2 < self.history@.len()
                ==> #[trigger] self.history@[k1] < #[trigger] self.history@[k2]
        &&& forall|n: int|
            0 <= n < self.cursor() && #[trigger] self.usable_frame(n) ==> self.history@.contains(
                n as u64,
            )
    }

    /// Build an allocator from the kernel image range, the boot-metadata
    /// range (byte addresses, inclusive) and the firmware memory areas.
    pub fn new(
        kernel_start: u64,
        kernel_end: u64,
        multiboot_start: u64,
        multiboot_end: u64,
        memory_areas: Vec<MemoryArea>,
    ) -> (r: Self)
        requires
            areas_wf(memory_areas@),
            kernel_start <= kernel_end,
            multiboot_start <= multiboot_end,
        ensures
            r.wf(),
            r.cursor() == 0,
            r.allocated() =~= Seq::<u64>::empty(),
            r.areas@ == memory_areas@,
            r.kernel_start_frame == kernel_start / PAGE_SIZE,
            r.kernel_end_frame == kernel_end / PAGE_SIZE,
            r.multiboot_start_frame == multiboot_start / PAGE_SIZE,
            r.multiboot_end_frame == multiboot_end / PAGE_SIZE,
    {
        AreaFrameAllocator {
            next_free_frame: 0,
            area_index: 0,
            areas: memory_areas,
            kernel_start_frame: kernel_start / PAGE_SIZE,
            kernel_end_frame: kernel_end / PAGE_SIZE,
            multiboot_start_frame: multiboot_start / PAGE_SIZE,
            multiboot_end_frame: multiboot_end / PAGE_SIZE,
            history: Ghost(Seq::empty()),
        }
    }

    /// Hand out the lowest-addressed usable frame not yet considered, or
    /// none when every area is exhausted — and then none forever, since
    /// the cursor never moves back.  Reserved ranges act as holes: the
    /// allocator skips past them and resumes inside the same area.
    pub fn allocate_frame(&mut self) -> (r: Option<Frame>)
        requires
            old(self).wf(),
        ensures
            final(self).wf(),
            final(self).same_config(old(self)),
            final(self).cursor() >= old(self).cursor(),
            old(self).exhausted() ==> r is None,
            match r {
                Some(frame) => {
                    &&& old(self).cursor() <= frame.number
                    &&& old(self).usable_frame(frame.number as int)
                    &&& forall|n: int|
                        old(self).cursor() <= n < frame.number ==> !old(self).usable_frame(n)
                    &&& final(self).cursor() == frame.number + 1
                    &&& final(self).allocated() == old(self).allocated().push(frame.number)
                },
                None => {
                    &&& old(self).exhausted()
                    &&& final(self).exhausted()
                    &&& final(self).allocated() == old(self).allocated()
                },
            },
    {
        while self.area_index < self.areas.len()
            invariant
                self.wf(),
                self.same_config(old(self)),
                self.cursor() >= old(self).cursor(),
                self.history@ == old(self).history@,
                forall|n: int|
                    old(self).cursor() <= n < self.cursor() ==> !old(self).usable_frame(n),
            decreases
                self.areas@.len() - self.area_index,
                if self.cursor() < self.areas@[self.area_index as int].end_frame() {
                    self.areas@[self.area_index as int].end_frame() - self.cursor()
                } else {
                    0
                },
        {
            let ghost idx = self.area_index as int;
            let area = self.areas[self.area_index];
            proof {
                assert(area == self.areas@[idx]);
                assert(self.areas@[idx].fits());
            }
            let first: u64 = (area.base_addr + (PAGE_SIZE - 1)) / PAGE_SIZE;
            let end: u64 = (area.base_addr + area.length) / PAGE_SIZE;
            proof {
                assert(first == area.first_frame());
                assert(end == area.end_frame());
            }
            let mut candidate: u64 = self.next_free_frame;
            if candidate < first {
                candidate = first;
            }
            if candidate >= end {
                // No frame of this area is left: move to the next area.
                proof {
                    // The area holds no frame at or past the cursor: its
                    // frames end where the candidate stands.
                    assert forall|n: int| self.areas@[idx].contains_frame(n) implies n
                        < self.cursor() by {
                        assert(n < end <= candidate);
                        if first > self.cursor() {
                            assert(n >= first && n < end <= first);
                        }
                    }
                }
                let ghost pre = *self;
                self.area_index = self.area_index + 1;
                proof {
                    lemma_skip_keeps_history_complete(&pre, self, old(self));
                }
            } else {
                proof {
                    // Frames between the cursor and the candidate are in
                    // no area at all: earlier areas stop below the cursor,
                    // this one starts at the candidate, later ones start
                    // past this one's end.
                    assert forall|n: int| self.cursor() <= n < candidate implies !self
                        .usable_frame(n) by {
                        if self.usable_frame(n) {
                            let i = choose|i: int|
                                0 <= i < self.areas@.len()
                                    && (#[trigger] self.areas@[i]).contains_frame(n);
                            assert(self.areas@[i].contains_frame(n));
                            if i > idx {
                                lemma_areas_ordered(self.areas@, idx, i);
                                assert(n >= self.areas@[i].first_frame() >= area.end_frame());
                            }
                        }
                    }
                    assert forall|n: int|
                        old(self).cursor() <= n < candidate implies !old(self).usable_frame(
                        n,
                    ) by {
                        lemma_same_config_usable(self, old(self), n);
                    }
                }
                if self.kernel_start_frame <= candidate && candidate <= self.kernel_end_frame {
                    // The kernel image cuts a hole here: resume past it.
                    let ghost pre = *self;
                    proof {
                        assert forall|n: int|
                            old(self).cursor() <= n <= self.kernel_end_frame implies !old(
                            self,
                        ).usable_frame(n) by {
                            if n >= candidate {
                                assert(self.reserved_frame(n));
                                lemma_same_config_usable(self, old(self), n);
                            }
                        }
                    }
                    self.next_free_frame = self.kernel_end_frame + 1;
                    proof {
                        lemma_skip_keeps_history_complete(&pre, self, old(self));
                    }
                } else if self.multiboot_start_frame <= candidate
                    && candidate <= self.multiboot_end_frame {
                    // The boot-metadata range cuts a hole here: resume past it.
                    let ghost pre = *self;
                    proof {
                        assert forall|n: int|
                            old(self).cursor() <= n <= self.multiboot_end_frame implies !old(
                            self,
                        ).usable_frame(n) by {
                            if n >= candidate {
                                assert(self.reserved_frame(n));
                                lemma_same_config_usable(self, old(self), n);
                            }
                        }
                    }
                    self.next_free_frame = self.multiboot_end_frame + 1;
                    proof {
                        lemma_skip_keeps_history_complete(&pre, self, old(self));
                    }
                } else {
                    proof {
                        assert(self.areas@[idx].contains_frame(candidate as int));
                        assert(!self.reserved_frame(candidate as int));
                        assert(self.usable_frame(candidate as int));
                        lemma_same_config_usable(self, old(self), candidate as int);
                    }
                    let ghost pre = *self;
                    self.next_free_frame = candidate + 1;
                    self.history = Ghost(self.history@.push(candidate));
                    proof {
                        assert forall|k: int| 0 <= k < self.history@.len() implies self
                            .usable_frame(#[trigger] self.history@[k] as int) && self.history@[k]
                            < self.cursor() by {
                            if k < pre.history@.len() {
                                assert(self.history@[k] == pre.history@[k]);
                                lemma_same_config_usable(&pre, self, self.history@[k] as int);
                            } else {
                                assert(self.history@[k] == candidate);
                                lemma_same_config_usable(&pre, self, candidate as int);
                            }
                        }
                        assert forall|n: int|
                            0 <= n < self.cursor() && self.usable_frame(n) implies self
                            .history@.contains(n as u64) by {
                            lemma_same_config_usable(self, &pre, n);
                            if n < pre.cursor() {
                                assert(pre.usable_frame(n));
                                let k = choose|k: int|
                                    0 <= k < pre.history@.len() && pre.history@[k] == n as u64;
                                assert(self.history@[k] == n as u64);
                            } else if n < candidate {
                                lemma_same_config_usable(&pre, old(self), n);
                                assert(!old(self).usable_frame(n));
                            } else {
                                assert(n == candidate);
                                assert(self.history@[pre.history@.len() as int] == candidate);
                            }
                        }
                        assert(self.allocated() == old(self).allocated().push(candidate));
                    }
                    return Some(Frame { number: candidate });
                }
            }
        }
        proof {
            // Every area lies before the cursor now: nothing usable is left,
            // in this state or in the one the call began with.
            assert forall|n: int| n >= old(self).cursor() implies !old(self).usable_frame(n) by {
                if old(self).usable_frame(n) {
                    lemma_same_config_usable(self, old(self), n);
                    assert(self.usable_frame(n));
                    let i = choose|i: int|
                        0 <= i < self.areas@.len() && (#[trigger] self.areas@[i]).contains_frame(
                            n,
                        );
                    assert(self.areas@[i].contains_frame(n));
                    assert(n < self.cursor());
                }
            }
            assert forall|n: int| n >= self.cursor() implies !self.usable_frame(n) by {
                if self.usable_frame(n) {
                    let i = choose|i: int|
                        0 <= i < self.areas@.len() && (#[trigger] self.areas@[i]).contains_frame(
                            n,
                        );
                    assert(self.areas@[i].contains_frame(n));
                }
            }
        }
        None
    }
}

/// Moving the cursor forward over frames that are not usable keeps the
/// history complete: every usable frame below the new cursor is still one
/// that was handed out.
proof fn lemma_skip_keeps_history_complete(
    pre: &AreaFrameAllocator,
    cur: &AreaFrameAllocator,
    start: &AreaFrameAllocator,
)
    requires
        pre.wf(),
        pre.same_config(cur),
        pre.same_config(start),
        cur.history@ == pre.history@,
        start.cursor() <= pre.cursor() <= cur.cursor(),
        forall|n: int| start.cursor() <= n < cur.cursor() ==> !start.usable_frame(n),
    ensures
        forall|n: int|
            0 <= n < cur.cursor() && #[trigger] cur.usable_frame(n) ==> cur.history@.contains(
                n as u64,
            ),
{
    assert forall|n: int|
        0 <= n < cur.cursor() && cur.usable_frame(n) implies cur.history@.contains(n as u64) by {
        lemma_same_config_usable(cur, pre, n);
        if n < pre.cursor() {
            assert(pre.usable_frame(n));
        } else {
            lemma_same_config_usable(pre, start, n);
            assert(!start.usable_frame(n));
        }
    }
}

/// Whether a frame is usable depends only on the configuration, never on
/// the cursor or the history.
pub proof fn lemma_same_config_usable(a: &AreaFrameAllocator, b: &AreaFrameAllocator, n: int)
    requires
        a.same_config(b),
    ensures
        a.usable_frame(n) == b.usable_frame(n),
{
    if a.usable_frame(n) {
        let i = choose|i: int|
            0 <= i < a.areas@.len() && (#[trigger] a.areas@[i]).contains_frame(n);
        assert(b.areas@[i].contains_frame(n));
    }
    if b.usable_frame(n) {
        let i = choose|i: int|
            0 <= i < b.areas@.len() && (#[trigger] b.areas@[i]).contains_frame(n);
        assert(a.areas@[i].contains_frame(n));
    }
}

/// Law: the frames handed out over the lifetime of one allocator form a
/// strictly increasing sequence of frame indices, each fully inside some
/// usable area and outside both reserved ranges.
pub proof fn lemma_history_valid(a: &AreaFrameAllocator, i: int, j: int)
    requires
        a.wf(),
        0 <= i < j < a.allocated().len(),
    ensures
        a.allocated()[i] < a.allocated()[j],
        a.usable_frame(a.allocated()[i] as int),
        a.usable_frame(a.allocated()[j] as int),
{
}

/// Law: a well-formed allocator that reports exhaustion has handed out
/// every usable frame its configuration holds — the cursor never skips a
/// usable frame, so exhaustion cannot be feigned by jumping ahead.
pub proof fn lemma_exhausted_handed_out_everything(a: &AreaFrameAllocator, n: int)
    requires
        a.wf(),
        a.exhausted(),
        a.usable_frame(n),
    ensures
        a.allocated().contains(n as u64),
{
    assert(n < a.cursor());
}

/// The index in the history at which the last frame of a run of usable
/// frames sits: at least `count - 1`, since the run's earlier frames all
/// sit at smaller indices of the strictly increasing history.
proof fn lemma_usable_run_index(a: &AreaFrameAllocator, lo: int, count: nat) -> (j: int)
    requires
        a.wf(),
        a.exhausted(),
        count > 0,
        0 <= lo,
        lo + count <= u64::MAX,
        forall|k: int| lo <= k < lo + count ==> #[trigger] a.usable_frame(k),
    ensures
        0 <= j < a.allocated().len(),
        a.allocated()[j] == lo + count - 1,
        j >= count - 1,
    decreases count,
{
    lemma_exhausted_handed_out_everything(a, lo + count - 1);
    let j = choose|j: int|
        0 <= j < a.allocated().len() && a.allocated()[j] == (lo + count - 1) as u64;
    if count > 1 {
        let j2 = lemma_usable_run_index(a, lo, (count - 1) as nat);
        if j < j2 {
            assert(a.allocated()[j] < a.allocated()[j2]);
        } else if j == j2 {
            assert(a.allocated()[j] == a.allocated()[j2]);
        }
    }
    j
}

/// Law: a well-formed allocator cannot claim exhaustion while the usable
/// frames outnumber what it handed out: a run of `count` consecutive
/// usable frames forces at least `count` entries in its history.
pub proof fn lemma_exhausted_bounds_usable_run(a: &AreaFrameAllocator, lo: int, count: nat)
    requires
        a.wf(),
        a.exhausted(),
        0 <= lo,
        lo + count <= u64::MAX,
        forall|k: int| lo <= k < lo + count ==> #[trigger] a.usable_frame(k),
    ensures
        a.allocated().len() >= count,
{
    if count > 0 {
        let j = lemma_usable_run_index(a, lo, count);
    }
}

/// Law: no frame address is ever returned twice across any sequence of
/// calls on one allocator.
pub proof fn lemma_no_frame_returned_twice(a: &AreaFrameAllocator, i: int, j: int)
    requires
        a.wf(),
        0 <= i < a.allocated().len(),
        0 <= j < a.allocated().len(),
        i != j,
    ensures
        a.allocated()[i] != a.allocated()[j],
{
    if i < j {
        lemma_history_valid(a, i, j);
    } else {
        lemma_history_valid(a, j, i);
    }
}

} // verus!



