//! Page-table construction and kernel remapping.
//!
//! The remapper walks the kernel's ELF sections and builds the mapping the
//! kernel needs: every section page identity-mapped with permissions from
//! the section flags (never both writable and executable), the text-mode
//! display page, the boot-metadata region read-only, the heap range backed
//! by frames taken from the frame allocator, and one deliberately
//! unmapped guard page directly below the kernel stack.  The hardware
//! side — writing the entries into physical table frames and switching the
//! top-level table register — happens outside this crate; what is built
//! and verified here is the mapping itself.

use vstd::prelude::*;
use vstd::arithmetic::div_mod::lemma_div_is_ordered;
use std::collections::HashMap;
use crate::memory::{AreaFrameAllocator, MemoryArea, PAGE_SIZE, lemma_same_config_usable};
use crate::{HEAP_SIZE, HEAP_START};

verus! {

broadcast use vstd::std_specs::hash::group_hash_axioms;

/// ELF section flag: the section is writable at run time.
pub const ELF_SECTION_WRITABLE: u64 = 1;

/// ELF section flag: the section occupies memory at run time.
pub const ELF_SECTION_ALLOCATED: u64 = 2;

/// ELF section flag: the section holds executable code.
pub const ELF_SECTION_EXECUTABLE: u64 = 4;

/// The virtual page of the memory-mapped text-mode display buffer.
pub const VGA_BUFFER_PAGE: u64 = 0xb8;

/// One section of the kernel ELF image, as reported by the boot metadata:
/// start address, size in bytes, and its flag bits.
#[derive(Clone, Copy, Debug, PartialEq, Eq, Structural)]
pub struct ElfSection {
    pub addr: u64,
    pub size: u64,
    pub flags: u64,
}

impl ElfSection {
    /// The section occupies memory at run time; only such sections are mapped.
    pub open spec fn is_allocated(&self) -> bool {
        self.flags & ELF_SECTION_ALLOCATED != 0
    }

    /// The section must be writable.
    pub open spec fn is_writable(&self) -> bool {
        self.flags & ELF_SECTION_WRITABLE != 0
    }

    /// The section holds code.
    pub open spec fn is_executable(&self) -> bool {
        self.flags & ELF_SECTION_EXECUTABLE != 0
    }

    /// The first page the section touches.
    pub open spec fn first_page(&self) -> int {
        self.addr as int / (PAGE_SIZE as int)
    }

    /// One past the last page the section touches (meaningful for
    /// non-empty sections).
    pub open spec fn end_page(&self) -> int {
        (self.addr + self.size - 1) / (PAGE_SIZE as int) + 1
    }

    /// Whether mapping the section requires page `p`: the section takes up
    /// memory and some of its bytes lie in `p`.
    pub open spec fn contains_page(&self, p: int) -> bool {
        self.is_allocated() && self.size > 0 && self.first_page() <= p < self.end_page()
    }

    /// Headroom so the page bounds can be computed in 64 bits.
    pub open spec fn fits(&self) -> bool {
        self.addr + self.size <= u64::MAX
    }
}

/// The pre-parsed boot metadata handed over at kernel entry: the firmware
/// memory map, the kernel's ELF section list, the byte range the metadata
/// itself occupies (inclusive), and the lowest address of the kernel
/// stack, directly below which the guard page is placed.
pub struct BootInfo {
    pub memory_areas: Vec<MemoryArea>,
    pub elf_sections: Vec<ElfSection>,
    pub multiboot_start: u64,
    pub multiboot_end: u64,
    pub kernel_stack_bottom: u64,
}

/// First page of the heap range.
pub open spec fn heap_first_page() -> int {
    HEAP_START as int / (PAGE_SIZE as int)
}

/// Last page of the heap range.
pub open spec fn heap_last_page() -> int {
    (HEAP_START + HEAP_SIZE - 1) / (PAGE_SIZE as int)
}

/// Whether page `p` belongs to the heap range.
pub open spec fn in_heap_range(p: int) -> bool {
    heap_first_page() <= p <= heap_last_page()
}

impl BootInfo {
    /// First page of the boot-metadata range.
    pub open spec fn mb_first_page(&self) -> int {
        self.multiboot_start as int / (PAGE_SIZE as int)
    }

    /// Last page of the boot-metadata range.
    pub open spec fn mb_last_page(&self) -> int {
        self.multiboot_end as int / (PAGE_SIZE as int)
    }

    /// The guard page: the page directly below the kernel stack.  It must
    /// never be mapped, so that a stack overflow faults instead of
    /// silently corrupting whatever lies below.
    pub open spec fn guard_page(&self) -> int {
        self.kernel_stack_bottom as int / (PAGE_SIZE as int) - 1
    }

    /// The remapper's input assumptions: bounded sections, no section both
    /// writable and executable, ordered metadata range, and the regions
    /// pairwise separate — no two sections share a page, and no section
    /// cuts into the guard page, the heap range, the metadata range or
    /// the display page.
    pub open spec fn wf(&self) -> bool {
        &&& forall|i: int|
            0 <= i < self.elf_sections@.len() ==> (#[trigger] self.elf_sections@[i]).fits()
        &&& forall|i: int|
            0 <= i < self.elf_sections@.len() && (#[trigger] self.elf_sections@[i]).is_allocated()
                ==> !(self.elf_sections@[i].is_writable() && self.elf_sections@[i].is_executable())
        &&& self.multiboot_start <= self.multiboot_end
        &&& self.kernel_stack_bottom >= PAGE_SIZE
        &&& forall|i: int|
            0 <= i < self.elf_sections@.len()
                ==> !(#[trigger] self.elf_sections@[i]).contains_page(self.guard_page())
        &&& forall|i: int|
            0 <= i < self.elf_sections@.len() ==> ((#[trigger] self.elf_sections@[i]).end_page()
                <= heap_first_page() || self.elf_sections@[i].first_page() > heap_last_page()
                || !self.elf_sections@[i].is_allocated() || self.elf_sections@[i].size == 0)
        &&& forall|i: int, j: int, p: int|
            #![trigger self.elf_sections@[i].contains_page(p), self.elf_sections@[j].contains_page(p)]
            0 <= i < self.elf_sections@.len() && 0 <= j < self.elf_sections@.len() && i != j
                && self.elf_sections@[i].contains_page(p) ==> !self.elf_sections@[j].contains_page(
                p,
            )
        &&& forall|i: int|
            0 <= i < self.elf_sections@.len()
                ==> !(#[trigger] self.elf_sections@[i]).contains_page(VGA_BUFFER_PAGE as int)
        &&& forall|i: int, p: int|
            0 <= i < self.elf_sections@.len() && #[trigger] self.elf_sections@[i].contains_page(p)
                ==> !(self.mb_first_page() <= p <= self.mb_last_page())
        &&& !(self.mb_first_page() <= self.guard_page() <= self.mb_last_page())
        &&& (self.mb_last_page() < heap_first_page() || self.mb_first_page() > heap_last_page())
        &&& !(self.mb_first_page() <= VGA_BUFFER_PAGE <= self.mb_last_page())
        &&& self.guard_page() != VGA_BUFFER_PAGE
        &&& !in_heap_range(self.guard_page())
    }
}

/// One page-table mapping: the physical frame a virtual page resolves to
/// and its permission flags.
#[derive(Clone, Copy, Debug, PartialEq, Eq, Structural)]
pub struct PageEntry {
    pub frame: u64,
    pub writable: bool,
    pub executable: bool,
}

/// The kernel's page mapping, viewed as a map from virtual page index to
/// the entry installed for it; a page outside the map is unmapped and
/// faults when touched.
pub struct KernelMapping {
    pub entries: HashMap<u64, PageEntry>,
}

impl KernelMapping {
    pub open spec fn view(&self) -> Map<u64, PageEntry> {
        self.entries@
    }

    /// No page is ever both writable and executable.
    pub open spec fn wx_free(&self) -> bool {
        forall|p: u64|
            self@.dom().contains(p) ==> !((#[trigger] self@[p]).writable && self@[p].executable)
    }

    /// The empty mapping.
    pub fn new() -> (r: Self)
        ensures
            r@ == Map::<u64, PageEntry>::empty(),
    {
        KernelMapping { entries: HashMap::new() }
    }

    /// Install (or replace) the entry for one page.  No page may be made
    /// both writable and executable.
    pub fn map_page(&mut self, page: u64, frame: u64, writable: bool, executable: bool)
        requires
            !(writable && executable),
        ensures
            final(self)@ == old(self)@.insert(
                page,
                PageEntry { frame, writable, executable },
            ),
    {
        self.entries.insert(page, PageEntry { frame, writable, executable });
    }

    /// Look up the entry installed for a page, or none for an unmapped page.
    pub fn translate(&self, page: u64) -> (r: Option<PageEntry>)
        ensures
            r == if self@.dom().contains(page) {
                Some(self@[page])
            } else {
                None::<PageEntry>
            },
    {
        match self.entries.get(&page) {
            Some(e) => Some(*e),
            None => None,
        }
    }
}

/// The entry page `p` of section `s` calls for: present, identity frame,
/// and the permissions derived from the section's own flags.
pub open spec fn section_entry(m: Map<u64, PageEntry>, s: ElfSection, p: int) -> bool {
    &&& m.dom().contains(p as u64)
    &&& m[p as u64].frame == p
    &&& m[p as u64].writable == s.is_writable()
    &&& m[p as u64].executable == s.is_executable()
}

/// The mapping holds, for every page of every allocated section, the
/// identity entry with that section's permissions.
pub open spec fn sections_mapped(m: Map<u64, PageEntry>, sections: Seq<ElfSection>) -> bool {
    forall|i: int, p: int|
        0 <= i < sections.len() && #[trigger] sections[i].contains_page(p) ==> section_entry(
            m,
            sections[i],
            p,
        )
}

/// Every page the remapper may map: a section page, a boot-metadata page,
/// the display page, or a heap page.  Nothing else ever enters the mapping.
pub open spec fn page_expected(boot: &BootInfo, p: int) -> bool {
    ||| exists|i: int|
        0 <= i < boot.elf_sections@.len() && (#[trigger] boot.elf_sections@[i]).contains_page(p)
    ||| boot.mb_first_page() <= p <= boot.mb_last_page()
    ||| p == VGA_BUFFER_PAGE
    ||| in_heap_range(p)
}

/// Build the kernel's new page mapping: every ELF section page identity
/// mapped with permissions from its flags, the display page writable, the
/// boot-metadata range read-only, the heap range backed by freshly
/// allocated frames, and the guard page left unmapped.  Returns none when
/// the frame allocator runs out of frames, which is fatal to the boot.
pub fn remap_the_kernel(allocator: &mut AreaFrameAllocator, boot: &BootInfo) -> (r: Option<
    KernelMapping,
>)
    requires
        old(allocator).wf(),
        boot.wf(),
    ensures
        final(allocator).wf(),
        final(allocator).same_config(old(allocator)),
        old(allocator).allocated().is_prefix_of(final(allocator).allocated()),
        final(allocator).allocated().len() <= old(allocator).allocated().len() + 1 + (
        heap_last_page() - heap_first_page() + 1),
        match r {
            Some(m) => {
                &&& sections_mapped(m@, boot.elf_sections@)
                &&& m.wx_free()
                &&& !m@.dom().contains(boot.guard_page() as u64)
                &&& forall|p: int|
                    boot.mb_first_page() <= p <= boot.mb_last_page() ==> m@.dom().contains(
                        #[trigger] (p as u64),
                    ) && !(m@[p as u64]).writable && !m@[p as u64].executable
                        && m@[p as u64].frame == p
                &&& m@.dom().contains(VGA_BUFFER_PAGE)
                &&& m@[VGA_BUFFER_PAGE].writable
                &&& !m@[VGA_BUFFER_PAGE].executable
                &&& m@[VGA_BUFFER_PAGE].frame == VGA_BUFFER_PAGE
                &&& forall|p: int|
                    in_heap_range(p) ==> m@.dom().contains(#[trigger] (p as u64))
                        && (m@[p as u64]).writable && !m@[p as u64].executable
                        && old(allocator).usable_frame(m@[p as u64].frame as int)
                &&& forall|p: u64| #[trigger] m@.dom().contains(p) ==> page_expected(boot, p as int)
            },
            None => final(allocator).exhausted(),
        },
{
    let ghost a0 = *old(allocator);
    // One frame for the new top-level table itself.
    let top_frame = allocator.allocate_frame();
    proof {
        lemma_prefix_refl(a0.allocated());
        if top_frame is Some {
            lemma_prefix_push(a0.allocated(), a0.allocated(), top_frame->Some_0.number);
        }
    }
    if top_frame.is_none() {
        return None;
    }
    let ghost a1 = *allocator;
    let mut m = KernelMapping::new();

    // Map every allocated ELF section, identity, with its own permissions.
    let n = boot.elf_sections.len();
    let mut i: usize = 0;
    while i < n
        invariant
            n == boot.elf_sections@.len(),
            i <= n,
            boot.wf(),
            *allocator == a1,
            forall|j: int, p: int|
                0 <= j < i && #[trigger] boot.elf_sections@[j].contains_page(p) ==> section_entry(
                    m@,
                    boot.elf_sections@[j],
                    p,
                ),
            forall|q: u64| #[trigger] m@.dom().contains(q) ==> m@[q].frame == q,
            forall|q: u64| #[trigger] m@.dom().contains(q) ==> page_expected(boot, q as int),
            m.wx_free(),
        decreases n - i,
    {
        let s = boot.elf_sections[i];
        proof {
            assert(s == boot.elf_sections@[i as int]);
            assert(boot.elf_sections@[i as int].fits());
        }
        if s.flags & ELF_SECTION_ALLOCATED != 0 && s.size > 0 {
            let writable = s.flags & ELF_SECTION_WRITABLE != 0;
            let executable = s.flags & ELF_SECTION_EXECUTABLE != 0;
            let first: u64 = s.addr / PAGE_SIZE;
            let last: u64 = (s.addr + s.size - 1) / PAGE_SIZE;
            let mut p: u64 = first;
            while p <= last
                invariant
                    boot.wf(),
                    0 <= i < boot.elf_sections@.len(),
                    s == boot.elf_sections@[i as int],
                    s.is_allocated(),
                    s.size > 0,
                    writable == s.is_writable(),
                    executable == s.is_executable(),
                    first == s.first_page(),
                    last == s.end_page() - 1,
                    first <= p,
                    p <= last + 1,
                    last < u64::MAX,
                    forall|j: int, q: int|
                        0 <= j < i && #[trigger] boot.elf_sections@[j].contains_page(q)
                            ==> section_entry(m@, boot.elf_sections@[j], q),
                    forall|q: int| first <= q < p ==> #[trigger] section_entry(m@, s, q),
                    forall|q: u64| #[trigger] m@.dom().contains(q) ==> m@[q].frame == q,
                    forall|q: u64| #[trigger] m@.dom().contains(q) ==> page_expected(
                        boot,
                        q as int,
                    ),
                    m.wx_free(),
                decreases last + 1 - p,
            {
                let ghost m0 = m@;
                m.map_page(p, p, writable, executable);
                proof {
                    assert(boot.elf_sections@[i as int].contains_page(p as int));
                    // Sections never share a page, so this insert touches
                    // no entry an earlier section owns.
                    assert forall|j: int, q: int|
                        0 <= j < i && #[trigger] boot.elf_sections@[j].contains_page(q)
                        implies section_entry(m@, boot.elf_sections@[j], q) by {
                        if q == p as int {
                            assert(boot.elf_sections@[i as int].contains_page(q));
                        } else {
                            assert(m@[q as u64] == m0[q as u64]);
                            assert(section_entry(m0, boot.elf_sections@[j], q));
                        }
                    }
                    assert forall|q: int|
                        first <= q < p + 1 implies #[trigger] section_entry(m@, s, q) by {
                        if q < p {
                            assert(section_entry(m0, s, q));
                            assert(m@[q as u64] == m0[q as u64]);
                        } else {
                            assert(q as u64 == p);
                        }
                    }
                }
                p = p + 1;
            }
        }
        i = i + 1;
    }

    // Map the text-mode display page, writable.  No section contains it,
    // so the section entries stay as they are.
    let ghost m_sections = m@;
    m.map_page(VGA_BUFFER_PAGE, VGA_BUFFER_PAGE, true, false);
    proof {
        assert forall|i2: int, q: int|
            0 <= i2 < boot.elf_sections@.len() && #[trigger] boot.elf_sections@[i2].contains_page(
                q,
            ) implies section_entry(m@, boot.elf_sections@[i2], q) by {
            assert(section_entry(m_sections, boot.elf_sections@[i2], q));
            assert(q != VGA_BUFFER_PAGE as int);
            assert(m@[q as u64] == m_sections[q as u64]);
        }
    }

    // Map the boot-metadata range read-only.
    let mb_first: u64 = boot.multiboot_start / PAGE_SIZE;
    let mb_last: u64 = boot.multiboot_end / PAGE_SIZE;
    let mut p: u64 = mb_first;
    while p <= mb_last
        invariant
            boot.wf(),
            mb_first == boot.mb_first_page(),
            mb_last == boot.mb_last_page(),
            mb_first <= p <= mb_last + 1,
            mb_last < u64::MAX,
            sections_mapped(m@, boot.elf_sections@),
            forall|q: int|
                mb_first <= q < p ==> m@.dom().contains(#[trigger] (q as u64))
                    && !(m@[q as u64]).writable && !m@[q as u64].executable,
            forall|q: u64| #[trigger] m@.dom().contains(q) ==> m@[q].frame == q,
            forall|q: u64| #[trigger] m@.dom().contains(q) ==> page_expected(boot, q as int),
            m@.dom().contains(VGA_BUFFER_PAGE),
            m@[VGA_BUFFER_PAGE].writable,
            !m@[VGA_BUFFER_PAGE].executable,
            m.wx_free(),
        decreases mb_last + 1 - p,
    {
        let ghost m0 = m@;
        m.map_page(p, p, false, false);
        proof {
            assert forall|q: int|
                mb_first <= q < p + 1 implies m@.dom().contains(#[trigger] (q as u64))
                && !(m@[q as u64]).writable && !m@[q as u64].executable by {
                if q < p {
                    assert(m0.dom().contains(q as u64));
                    assert(q as u64 != p);
                    assert(m@[q as u64] == m0[q as u64]);
                } else {
                    assert(q as u64 == p);
                }
            }
            // No section reaches into the metadata range, so the section
            // entries stay as they are.
            assert forall|i2: int, q: int|
                0 <= i2 < boot.elf_sections@.len()
                    && #[trigger] boot.elf_sections@[i2].contains_page(q)
                    implies section_entry(m@, boot.elf_sections@[i2], q) by {
                assert(section_entry(m0, boot.elf_sections@[i2], q));
                assert(!(boot.mb_first_page() <= q <= boot.mb_last_page()));
                assert(q as u64 != p);
                assert(m@[q as u64] == m0[q as u64]);
            }
        }
        p = p + 1;
    }

    proof {
        assert forall|q: int|
            boot.mb_first_page() <= q <= boot.mb_last_page() implies m@.dom().contains(
            #[trigger] (q as u64),
        ) && !(m@[q as u64]).writable && !m@[q as u64].executable && m@[q as u64].frame == q by {
            assert(m@.dom().contains(q as u64));
            assert(m@[q as u64].frame == q as u64);
        }
    }

    // Back the heap range with freshly allocated frames, writable.
    let heap_first: u64 = HEAP_START / PAGE_SIZE;
    let heap_last: u64 = (HEAP_START + HEAP_SIZE - 1) / PAGE_SIZE;
    let mut p: u64 = heap_first;
    while p <= heap_last
        invariant
            boot.wf(),
            heap_first == heap_first_page(),
            heap_last == heap_last_page(),
            heap_first <= p <= heap_last + 1,
            heap_last < u64::MAX,
            a0 == *old(allocator),
            allocator.wf(),
            allocator.same_config(&a0),
            a0.allocated().is_prefix_of(allocator.allocated()),
            allocator.allocated().len() == a1.allocated().len() + (p - heap_first),
            a1.allocated().len() <= a0.allocated().len() + 1,
            sections_mapped(m@, boot.elf_sections@),
            forall|q: int|
                boot.mb_first_page() <= q <= boot.mb_last_page() ==> m@.dom().contains(
                    #[trigger] (q as u64),
                ) && !(m@[q as u64]).writable && !m@[q as u64].executable && m@[q as u64].frame
                    == q,
            m@.dom().contains(VGA_BUFFER_PAGE),
            m@[VGA_BUFFER_PAGE].writable,
            !m@[VGA_BUFFER_PAGE].executable,
            m@[VGA_BUFFER_PAGE].frame == VGA_BUFFER_PAGE,
            forall|q: int|
                heap_first <= q < p ==> m@.dom().contains(#[trigger] (q as u64))
                    && (m@[q as u64]).writable && !m@[q as u64].executable
                    && a0.usable_frame(m@[q as u64].frame as int),
            forall|q: u64| #[trigger] m@.dom().contains(q) ==> page_expected(boot, q as int),
            m.wx_free(),
        decreases heap_last + 1 - p,
    {
        let ghost pre = *allocator;
        let frame = match allocator.allocate_frame() {
            Some(f) => f,
            None => {
                return None;
            },
        };
        proof {
            lemma_same_config_usable(&pre, &a0, frame.number as int);
            lemma_prefix_push(a0.allocated(), pre.allocated(), frame.number);
        }
        let ghost m0 = m@;
        m.map_page(p, frame.number, true, false);
        proof {
            // Section and metadata pages lie outside the heap range, so
            // this insert leaves their entries untouched.
            assert forall|i: int, q: int|
                0 <= i < boot.elf_sections@.len()
                    && #[trigger] boot.elf_sections@[i].contains_page(q)
                    implies section_entry(m@, boot.elf_sections@[i], q) by {
                assert(section_entry(m0, boot.elf_sections@[i], q));
                assert(q as u64 != p);
                assert(m@[q as u64] == m0[q as u64]);
            }
            assert forall|q: int|
                boot.mb_first_page() <= q <= boot.mb_last_page() implies m@.dom().contains(
                    #[trigger] (q as u64),
                ) && !(m@[q as u64]).writable && !m@[q as u64].executable && m@[q as u64].frame
                    == q by {
                assert(q as u64 != p);
                assert(m0.dom().contains(q as u64));
                assert(m@[q as u64] == m0[q as u64]);
            }
            assert forall|q: int|
                heap_first <= q < p + 1 implies m@.dom().contains(#[trigger] (q as u64))
                && (m@[q as u64]).writable && !m@[q as u64].executable
                && a0.usable_frame(m@[q as u64].frame as int) by {
                if q < p {
                    assert(m0.dom().contains(q as u64));
                    assert(q as u64 != p);
                    assert(m@[q as u64] == m0[q as u64]);
                } else {
                    assert(q as u64 == p);
                }
            }
        }
        p = p + 1;
    }

    proof {
        // The sections, the metadata range and the display page never
        // touch the guard page, and the guard page is outside the heap
        // range, so it never entered the mapping.
        if m@.dom().contains(boot.guard_page() as u64) {
            assert(page_expected(boot, boot.guard_page()));
        }
    }
    Some(m)
}

/// Every sequence is a prefix of itself.
proof fn lemma_prefix_refl(a: Seq<u64>)
    ensures
        a.is_prefix_of(a),
{
    assert(a.subrange(0, a.len() as int) =~= a);
}

/// Pushing onto a sequence preserves any prefix it had.
proof fn lemma_prefix_push(a: Seq<u64>, b: Seq<u64>, x: u64)
    requires
        a.is_prefix_of(b),
    ensures
        a.is_prefix_of(b.push(x)),
{
    assert(b.push(x).subrange(0, a.len() as int) =~= b.subrange(0, a.len() as int));
}

/// Law: every byte of every allocated ELF section is covered by the
/// mapping the remapper produced: the page containing the byte is mapped,
/// to its own frame, with the permissions the section's flags call for.
pub proof fn lemma_every_section_byte_mapped(
    m: Map<u64, PageEntry>,
    sections: Seq<ElfSection>,
    i: int,
    addr: int,
)
    requires
        sections_mapped(m, sections),
        0 <= i < sections.len(),
        sections[i].is_allocated(),
        sections[i].fits(),
        sections[i].addr <= addr < sections[i].addr + sections[i].size,
    ensures
        section_entry(m, sections[i], addr / (PAGE_SIZE as int)),
        m.dom().contains((addr / (PAGE_SIZE as int)) as u64),
{
    let p = addr / (PAGE_SIZE as int);
    lemma_div_is_ordered(sections[i].addr as int, addr, PAGE_SIZE as int);
    lemma_div_is_ordered(addr, sections[i].addr + sections[i].size - 1, PAGE_SIZE as int);
    assert(sections[i].contains_page(p));
}

} // verus!
