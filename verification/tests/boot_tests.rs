use gg_os::boot::{kernel_bounds, rust_main, BootError};
use gg_os::gdt::{StackRange, DOUBLE_FAULT_IST_INDEX};
use gg_os::memory::MemoryArea;
use gg_os::paging::{
    BootInfo, ElfSection, ELF_SECTION_ALLOCATED, ELF_SECTION_EXECUTABLE, ELF_SECTION_WRITABLE,
};
use gg_os::{HEAP_SIZE, HEAP_START};

/// One 16 MiB usable area, a kernel image in a 1 MiB sub-range, and a
/// 4 KiB boot-metadata block.
fn synthetic_boot_info() -> BootInfo {
    BootInfo {
        memory_areas: vec![MemoryArea { base_addr: 0, length: 16 * 1024 * 1024 }],
        elf_sections: vec![
            ElfSection {
                addr: 0x100000,
                size: 0x80000,
                flags: ELF_SECTION_ALLOCATED | ELF_SECTION_EXECUTABLE,
            },
            ElfSection {
                addr: 0x180000,
                size: 0x7F000,
                flags: ELF_SECTION_ALLOCATED | ELF_SECTION_WRITABLE,
            },
        ],
        multiboot_start: 0x9000,
        multiboot_end: 0x9fff,
        kernel_stack_bottom: 0x200000,
    }
}

fn df_stack() -> StackRange {
    StackRange { start: 0x300000, size: 5 * 4096 }
}

#[test]
fn end_to_end_boot_completes_and_the_heap_serves() {
    let info = synthetic_boot_info();
    let Ok(mut state) = rust_main(&info, df_stack()) else {
        panic!("boot must complete");
    };

    // protection structures stand and interrupts are on, in that order
    assert!(state.machine.gdt_loaded);
    assert!(state.machine.idt_loaded);
    assert!(state.machine.pics_initialized);
    assert!(state.machine.paging_active);
    assert!(state.machine.heap_ready);
    assert!(state.machine.interrupts_enabled);
    assert_eq!(
        state.gdt.tss.interrupt_stack_table[DOUBLE_FAULT_IST_INDEX as usize],
        Some(df_stack())
    );
    assert!(state.pics.initialized);
    assert!(!state.pics.timer_line_masked);
    assert!(!state.pics.keyboard_line_masked);

    // the heap is usable for at least one 64-byte allocation
    assert_eq!(state.heap.allocate(64), Some(HEAP_START));

    // the kernel image and the metadata block are reserved in the allocator
    assert_eq!(state.allocator.kernel_start_frame, 0x100000 / 4096);
    assert_eq!(state.allocator.kernel_end_frame, 0x1FEFFF / 4096);
    assert_eq!(state.allocator.multiboot_start_frame, 0x9);
    assert_eq!(state.allocator.multiboot_end_frame, 0x9);

    // every kernel page is mapped, identity, with its section's permissions
    for page in 0x100u64..=0x1FE {
        let e = state.mapping.translate(page).expect("kernel page unmapped");
        assert_eq!(e.frame, page);
        assert!(!(e.writable && e.executable));
        if page < 0x180 {
            // the code section
            assert!(e.executable && !e.writable);
        } else {
            // the data section
            assert!(e.writable && !e.executable);
        }
    }

    // no frame the remapper consumed lies inside the kernel image or the
    // metadata block: check every frame backing the heap
    let first = HEAP_START / 4096;
    let last = (HEAP_START + HEAP_SIZE - 1) / 4096;
    for page in first..=last {
        let e = state.mapping.translate(page).expect("heap page unmapped");
        assert!(e.frame < 0x100 || e.frame > 0x1FE, "heap frame inside the kernel image");
        assert_ne!(e.frame, 0x9, "heap frame inside the boot metadata");
    }

    // the guard page directly below the kernel stack stays unmapped
    assert!(state.mapping.translate(0x200000 / 4096 - 1).is_none());
}

#[test]
fn boot_fails_without_kernel_sections() {
    let mut info = synthetic_boot_info();
    info.elf_sections = vec![ElfSection { addr: 0x100000, size: 0x1000, flags: 0 }];
    assert!(matches!(rust_main(&info, df_stack()), Err(BootError::NoKernelSections)));
}

#[test]
fn boot_fails_fatally_when_memory_is_too_small() {
    let mut info = synthetic_boot_info();
    // three frames of usable memory cannot hold the page tables and heap
    info.memory_areas = vec![MemoryArea { base_addr: 0, length: 3 * 4096 }];
    let Err(BootError::OutOfFrames(mut witness)) = rust_main(&info, df_stack()) else {
        panic!("boot must run out of frames");
    };
    // the carried allocator is genuinely exhausted over this memory map
    assert_eq!(witness.areas, info.memory_areas);
    assert_eq!(witness.allocate_frame(), None);
    assert_eq!(witness.allocate_frame(), None);
}

#[test]
fn kernel_bounds_span_the_allocated_sections() {
    let info = synthetic_boot_info();
    assert_eq!(kernel_bounds(&info.elf_sections), Some((0x100000, 0x1FEFFF)));
}

#[test]
fn kernel_bounds_skip_unallocated_and_empty_sections() {
    let sections = vec![
        ElfSection { addr: 0x50000, size: 0x1000, flags: 0 },
        ElfSection { addr: 0x80000, size: 0, flags: ELF_SECTION_ALLOCATED },
        ElfSection { addr: 0x60000, size: 0x2000, flags: ELF_SECTION_ALLOCATED },
    ];
    assert_eq!(kernel_bounds(&sections), Some((0x60000, 0x61FFF)));
}

#[test]
fn kernel_bounds_report_nothing_without_allocated_sections() {
    let sections = vec![ElfSection { addr: 0x50000, size: 0x1000, flags: 0 }];
    assert_eq!(kernel_bounds(&sections), None);
    assert_eq!(kernel_bounds(&Vec::new()), None);
}
