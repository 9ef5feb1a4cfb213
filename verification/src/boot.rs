//! The boot sequence: descriptor tables, interrupt dispatch and the
//! controller pair first, then the memory subsystem — frame allocator,
//! kernel remapping, heap — and only after all of it the interrupts are
//! enabled.  The machine-state record pins that order: each load happens
//! exactly once, and interrupts cannot be enabled before the protection
//! structures and the memory subsystem stand.

use vstd::prelude::*;
use crate::gdt::{self, GdtSetup, StackRange};
use crate::heap::Heap;
use crate::interrupts::{init_idt, ChainedPics, Idt, PIC_1_OFFSET, PIC_2_OFFSET};
use crate::keyboard::Modifiers;
use crate::memory::{areas_wf, AreaFrameAllocator, MemoryArea};
use crate::paging::{
    heap_first_page, heap_last_page, remap_the_kernel, sections_mapped, BootInfo, ElfSection,
    KernelMapping,
};
use crate::{HEAP_SIZE, HEAP_START};

verus! {

/// What the CPU has been given so far.  The descriptor table, the
/// dispatch table and the controller setup are each loaded exactly once,
/// and interrupts are enabled only after those three, the new page-table
/// hierarchy and the heap all stand: an exception arriving earlier would
/// hit undefined CPU state, and a half-initialized memory subsystem must
/// never be observed.
pub struct Machine {
    pub gdt_loaded: bool,
    pub idt_loaded: bool,
    pub pics_initialized: bool,
    pub paging_active: bool,
    pub heap_ready: bool,
    pub interrupts_enabled: bool,
}

impl Machine {
    /// The machine as the bootloader hands it over: nothing installed,
    /// interrupts disabled.
    pub fn new() -> (r: Self)
        ensures
            !r.gdt_loaded,
            !r.idt_loaded,
            !r.pics_initialized,
            !r.paging_active,
            !r.heap_ready,
            !r.interrupts_enabled,
    {
        Machine {
            gdt_loaded: false,
            idt_loaded: false,
            pics_initialized: false,
            paging_active: false,
            heap_ready: false,
            interrupts_enabled: false,
        }
    }

    /// Load the segment descriptors and the task-state segment: first
    /// step, exactly once, before interrupts are enabled.
    pub fn load_gdt(&mut self)
        requires
            !old(self).gdt_loaded,
            !old(self).interrupts_enabled,
        ensures
            *final(self) == (Machine { gdt_loaded: true, ..*old(self) }),
    {
        self.gdt_loaded = true;
    }

    /// Install the interrupt dispatch table: exactly once, after the
    /// descriptor tables, before interrupts are enabled.
    pub fn load_idt(&mut self)
        requires
            old(self).gdt_loaded,
            !old(self).idt_loaded,
            !old(self).interrupts_enabled,
        ensures
            *final(self) == (Machine { idt_loaded: true, ..*old(self) }),
    {
        self.idt_loaded = true;
    }

    /// Record that the controller pair has been remapped and unmasked:
    /// exactly once, after the dispatch table, before interrupts.
    pub fn initialize_pics(&mut self)
        requires
            old(self).idt_loaded,
            !old(self).pics_initialized,
            !old(self).interrupts_enabled,
        ensures
            *final(self) == (Machine { pics_initialized: true, ..*old(self) }),
    {
        self.pics_initialized = true;
    }

    /// Switch the CPU to the newly built page-table hierarchy, discarding
    /// the bootloader's: only with interrupts still disabled, so that a
    /// half-built hierarchy can never become active.  The switch itself
    /// flushes the translation cache.
    pub fn activate_paging(&mut self)
        requires
            !old(self).paging_active,
            !old(self).interrupts_enabled,
        ensures
            *final(self) == (Machine { paging_active: true, ..*old(self) }),
    {
        self.paging_active = true;
    }

    /// Record that the heap range has been handed to the allocator: only
    /// after the remapped hierarchy (which maps that range) is active.
    pub fn finish_heap_bootstrap(&mut self)
        requires
            old(self).paging_active,
            !old(self).heap_ready,
            !old(self).interrupts_enabled,
        ensures
            *final(self) == (Machine { heap_ready: true, ..*old(self) }),
    {
        self.heap_ready = true;
    }

    /// Enable interrupts: only when the descriptor tables, the dispatch
    /// table, the controllers, the new page-table hierarchy and the heap
    /// all stand.
    pub fn enable_interrupts(&mut self)
        requires
            old(self).gdt_loaded,
            old(self).idt_loaded,
            old(self).pics_initialized,
            old(self).paging_active,
            old(self).heap_ready,
        ensures
            *final(self) == (Machine { interrupts_enabled: true, ..*old(self) }),
    {
        self.interrupts_enabled = true;
    }
}

/// `lo` is the lowest start address of any allocated, non-empty section:
/// where the kernel image begins.
pub open spec fn is_kernel_start(sections: Seq<ElfSection>, lo: u64) -> bool {
    &&& exists|i: int|
        0 <= i < sections.len() && (#[trigger] sections[i]).is_allocated() && sections[i].size > 0
            && sections[i].addr == lo
    &&& forall|i: int|
        0 <= i < sections.len() && (#[trigger] sections[i]).is_allocated() && sections[i].size > 0
            ==> lo <= sections[i].addr
}

/// `hi` is the highest last byte of any allocated, non-empty section:
/// where the kernel image ends.
pub open spec fn is_kernel_end(sections: Seq<ElfSection>, hi: u64) -> bool {
    &&& exists|i: int|
        0 <= i < sections.len() && (#[trigger] sections[i]).is_allocated() && sections[i].size > 0
            && sections[i].addr + sections[i].size - 1 == hi
    &&& forall|i: int|
        0 <= i < sections.len() && (#[trigger] sections[i]).is_allocated() && sections[i].size > 0
            ==> sections[i].addr + sections[i].size - 1 <= hi
}

/// The byte range the kernel image occupies: the lowest start address and
/// the highest last byte over the allocated, non-empty ELF sections, or
/// none when the section list holds no such section — boot metadata
/// without a kernel image is a fatal condition.
pub fn kernel_bounds(sections: &Vec<ElfSection>) -> (r: Option<(u64, u64)>)
    requires
        forall|i: int| 0 <= i < sections@.len() ==> (#[trigger] sections@[i]).fits(),
    ensures
        match r {
            Some(bounds) => {
                &&& is_kernel_start(sections@, bounds.0)
                &&& is_kernel_end(sections@, bounds.1)
                &&& bounds.0 <= bounds.1
            },
            None => forall|i: int|
                0 <= i < sections@.len() ==> !((#[trigger] sections@[i]).is_allocated()
                    && sections@[i].size > 0),
        },
{
    let mut bounds: Option<(u64, u64)> = None;
    let mut i: usize = 0;
    while i < sections.len()
        invariant
            i <= sections@.len(),
            forall|j: int| 0 <= j < sections@.len() ==> (#[trigger] sections@[j]).fits(),
            match bounds {
                Some(b) => {
                    &&& exists|j: int|
                        0 <= j < i && (#[trigger] sections@[j]).is_allocated()
                            && sections@[j].size > 0 && sections@[j].addr == b.0
                    &&& exists|j: int|
                        0 <= j < i && (#[trigger] sections@[j]).is_allocated()
                            && sections@[j].size > 0 && sections@[j].addr + sections@[j].size - 1
                            == b.1
                    &&& forall|j: int|
                        0 <= j < i && (#[trigger] sections@[j]).is_allocated()
                            && sections@[j].size > 0 ==> b.0 <= sections@[j].addr
                            && sections@[j].addr + sections@[j].size - 1 <= b.1
                    &&& b.0 <= b.1
                },
                None => forall|j: int|
                    0 <= j < i ==> !((#[trigger] sections@[j]).is_allocated() && sections@[j].size
                        > 0),
            },
        decreases sections@.len() - i,
    {
        let s = sections[i];
        if s.flags & crate::paging::ELF_SECTION_ALLOCATED != 0 && s.size > 0 {
            let s_end: u64 = s.addr + s.size - 1;
            bounds = match bounds {
                None => Some((s.addr, s_end)),
                Some(b) => {
                    let lo = if s.addr < b.0 {
                        s.addr
                    } else {
                        b.0
                    };
                    let hi = if s_end > b.1 {
                        s_end
                    } else {
                        b.1
                    };
                    Some((lo, hi))
                },
            };
        }
        i = i + 1;
    }
    bounds
}

/// A fatal boot condition: the boot metadata carries no kernel image, or
/// the frame allocator ran out of frames while the page tables were being
/// built.  Either way the kernel cannot run; the caller halts.  The
/// out-of-frames case carries the exhausted allocator as the witness that
/// the machine genuinely had too little usable memory.
pub enum BootError {
    NoKernelSections,
    OutOfFrames(AreaFrameAllocator),
}

/// Everything the boot sequence leaves behind: the machine state, the
/// built tables, the controller pair, the memory subsystem, and the
/// keyboard modifier state the interrupt handlers work on.
pub struct BootState {
    pub machine: Machine,
    pub gdt: GdtSetup,
    pub idt: Idt,
    pub pics: ChainedPics,
    pub allocator: AreaFrameAllocator,
    pub mapping: KernelMapping,
    pub heap: Heap,
    pub modifiers: Modifiers,
}

/// Copy the firmware memory map so the allocator can own it.
fn copy_areas(areas: &Vec<MemoryArea>) -> (r: Vec<MemoryArea>)
    ensures
        r@ == areas@,
{
    let mut r: Vec<MemoryArea> = Vec::new();
    let mut i: usize = 0;
    while i < areas.len()
        invariant
            i <= areas@.len(),
            r@ == areas@.take(i as int),
        decreases areas@.len() - i,
    {
        r.push(areas[i]);
        proof {
            assert(r@ =~= areas@.take(i + 1));
        }
        i = i + 1;
    }
    proof {
        assert(areas@.take(areas@.len() as int) =~= areas@);
    }
    r
}

/// Run the boot sequence over the pre-parsed boot metadata: descriptor
/// tables, dispatch table and controllers first; then the frame
/// allocator over the memory map with the kernel image and the metadata
/// itself reserved; then the kernel remapping and the heap; interrupts
/// last.  Fails fatally when the metadata holds no kernel sections, or —
/// handing back the exhausted allocator as the witness — when the usable
/// memory cannot hold the page tables and the heap.
pub fn rust_main(boot_info: &BootInfo, double_fault_stack: StackRange) -> (r: Result<
    BootState,
    BootError,
>)
    requires
        areas_wf(boot_info.memory_areas@),
        boot_info.wf(),
        double_fault_stack.size >= 4096,
        double_fault_stack.start + double_fault_stack.size <= u64::MAX,
    ensures
        match r {
            Ok(state) => {
                &&& state.machine.gdt_loaded
                &&& state.machine.idt_loaded
                &&& state.machine.pics_initialized
                &&& state.machine.paging_active
                &&& state.machine.heap_ready
                &&& state.machine.interrupts_enabled
                &&& state.gdt.wf()
                &&& state.gdt.tss.interrupt_stack_table@[gdt::DOUBLE_FAULT_IST_INDEX as int]
                    == Some(double_fault_stack)
                &&& state.idt.wf()
                &&& state.pics.wf()
                &&& state.pics.initialized
                &&& state.pics.master_offset == PIC_1_OFFSET
                &&& state.pics.slave_offset == PIC_2_OFFSET
                &&& !state.pics.timer_line_masked
                &&& !state.pics.keyboard_line_masked
                &&& state.allocator.wf()
                &&& state.allocator.areas@ == boot_info.memory_areas@
                &&& state.allocator.multiboot_start_frame == boot_info.multiboot_start
                    / crate::memory::PAGE_SIZE
                &&& state.allocator.multiboot_end_frame == boot_info.multiboot_end
                    / crate::memory::PAGE_SIZE
                &&& exists|lo: u64, hi: u64|
                    #![trigger is_kernel_start(boot_info.elf_sections@, lo), is_kernel_end(boot_info.elf_sections@, hi)]
                    is_kernel_start(boot_info.elf_sections@, lo) && is_kernel_end(
                        boot_info.elf_sections@,
                        hi,
                    ) && state.allocator.kernel_start_frame == lo / crate::memory::PAGE_SIZE
                        && state.allocator.kernel_end_frame == hi / crate::memory::PAGE_SIZE
                &&& sections_mapped(state.mapping@, boot_info.elf_sections@)
                &&& state.mapping.wx_free()
                &&& !state.mapping@.dom().contains(boot_info.guard_page() as u64)
                &&& state.heap.initialized
                &&& state.heap.wf()
                &&& state.heap.start == HEAP_START
                &&& state.heap.size == HEAP_SIZE
                &&& state.heap.next == HEAP_START
                &&& state.modifiers == Modifiers {
                    shift: crate::keyboard::KeyPair { left: false, right: false },
                    control: crate::keyboard::KeyPair { left: false, right: false },
                    alt: crate::keyboard::KeyPair { left: false, right: false },
                    caps_lock: false,
                }
            },
            Err(e) => {
                &&& (e is NoKernelSections <==> (forall|i: int|
                    0 <= i < boot_info.elf_sections@.len()
                        ==> !((#[trigger] boot_info.elf_sections@[i]).is_allocated()
                        && boot_info.elf_sections@[i].size > 0)))
                &&& match e {
                    BootError::NoKernelSections => true,
                    // The witness: an allocator over this very boot info —
                    // same areas, same reserved ranges — that ran dry after
                    // handing out no more than the page-table frame and the
                    // heap frames.  An input with more usable frames than
                    // that cannot produce this error.
                    BootError::OutOfFrames(a) => {
                        &&& a.wf()
                        &&& a.exhausted()
                        &&& a.allocated().len() <= 1 + (heap_last_page() - heap_first_page() + 1)
                        &&& a.areas@ == boot_info.memory_areas@
                        &&& a.multiboot_start_frame == boot_info.multiboot_start
                            / crate::memory::PAGE_SIZE
                        &&& a.multiboot_end_frame == boot_info.multiboot_end
                            / crate::memory::PAGE_SIZE
                        &&& exists|lo: u64, hi: u64|
                            #![trigger is_kernel_start(boot_info.elf_sections@, lo), is_kernel_end(boot_info.elf_sections@, hi)]
                            is_kernel_start(boot_info.elf_sections@, lo) && is_kernel_end(
                                boot_info.elf_sections@,
                                hi,
                            ) && a.kernel_start_frame == lo / crate::memory::PAGE_SIZE
                                && a.kernel_end_frame == hi / crate::memory::PAGE_SIZE
                    },
                }
            },
        },
{
    // Protection first: descriptor tables, dispatch table, controllers.
    let mut machine = Machine::new();
    let gdt_setup = gdt::init(double_fault_stack.start, double_fault_stack.size);
    machine.load_gdt();
    let idt = init_idt();
    machine.load_idt();
    let mut pics = ChainedPics::new(PIC_1_OFFSET, PIC_2_OFFSET);
    pics.initialize();
    machine.initialize_pics();

    // The memory subsystem, still with interrupts disabled.
    let bounds = match kernel_bounds(&boot_info.elf_sections) {
        Some(b) => b,
        None => {
            return Err(BootError::NoKernelSections);
        },
    };
    let areas = copy_areas(&boot_info.memory_areas);
    let mut allocator = AreaFrameAllocator::new(
        bounds.0,
        bounds.1,
        boot_info.multiboot_start,
        boot_info.multiboot_end,
        areas,
    );
    let mapping = match remap_the_kernel(&mut allocator, boot_info) {
        Some(m) => m,
        None => {
            return Err(BootError::OutOfFrames(allocator));
        },
    };
    machine.activate_paging();
    let mut heap = Heap::empty();
    heap.init(HEAP_START, HEAP_SIZE);
    machine.finish_heap_bootstrap();

    // Everything stands: interrupts may fire now.
    machine.enable_interrupts();
    Ok(
        BootState {
            machine,
            gdt: gdt_setup,
            idt,
            pics,
            allocator,
            mapping,
            heap,
            modifiers: Modifiers::new(),
        },
    )
}

} // verus!
