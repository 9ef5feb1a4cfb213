use gg_os::memory::AreaFrameAllocator;
use gg_os::paging::{
    remap_the_kernel, BootInfo, ElfSection, KernelMapping, ELF_SECTION_ALLOCATED,
    ELF_SECTION_EXECUTABLE, ELF_SECTION_WRITABLE, VGA_BUFFER_PAGE,
};
use gg_os::memory::MemoryArea;
use gg_os::{HEAP_SIZE, HEAP_START};

fn sample_boot_info() -> BootInfo {
    BootInfo {
        memory_areas: vec![MemoryArea { base_addr: 0, length: 16 * 1024 * 1024 }],
        elf_sections: vec![
            // code: one page at 1 MiB
            ElfSection {
                addr: 0x100000,
                size: 0x1000,
                flags: ELF_SECTION_ALLOCATED | ELF_SECTION_EXECUTABLE,
            },
            // read-only data: a page and a half
            ElfSection { addr: 0x101000, size: 0x1800, flags: ELF_SECTION_ALLOCATED },
            // data: writable, unaligned start
            ElfSection {
                addr: 0x103200,
                size: 0x2000,
                flags: ELF_SECTION_ALLOCATED | ELF_SECTION_WRITABLE,
            },
            // debug info: not allocated, must not be mapped
            ElfSection { addr: 0x200000, size: 0x1000, flags: 0 },
        ],
        multiboot_start: 0x9000,
        multiboot_end: 0x9fff,
        kernel_stack_bottom: 0x107000,
    }
}

fn remapped() -> (AreaFrameAllocator, KernelMapping) {
    let info = sample_boot_info();
    let mut allocator = AreaFrameAllocator::new(
        0x100000,
        0x105fff,
        info.multiboot_start,
        info.multiboot_end,
        info.memory_areas.clone(),
    );
    let mapping = remap_the_kernel(&mut allocator, &info).expect("enough frames");
    (allocator, mapping)
}

#[test]
fn every_byte_of_every_allocated_section_is_mapped() {
    let (_, mapping) = remapped();
    let info = sample_boot_info();
    for s in info.elf_sections.iter() {
        if s.flags & ELF_SECTION_ALLOCATED != 0 && s.size > 0 {
            let mut addr = s.addr;
            while addr < s.addr + s.size {
                let page = addr / 4096;
                let entry = mapping.translate(page).expect("section byte unmapped");
                assert_eq!(entry.frame, page, "kernel sections are identity mapped");
                addr += 1;
            }
        }
    }
}

#[test]
fn section_permissions_follow_section_flags() {
    let (_, mapping) = remapped();
    let code = mapping.translate(0x100).unwrap();
    assert!(!code.writable);
    assert!(code.executable);
    let rodata = mapping.translate(0x101).unwrap();
    assert!(!rodata.writable);
    assert!(!rodata.executable);
    let data = mapping.translate(0x104).unwrap();
    assert!(data.writable);
    assert!(!data.executable);
}

#[test]
fn no_mapped_page_is_both_writable_and_executable() {
    let (_, mapping) = remapped();
    for page in 0..0x200u64 {
        if let Some(e) = mapping.translate(page) {
            assert!(!(e.writable && e.executable), "page {page:#x} is writable and executable");
        }
    }
    for page in (HEAP_START / 4096)..((HEAP_START + HEAP_SIZE - 1) / 4096 + 1) {
        if let Some(e) = mapping.translate(page) {
            assert!(!(e.writable && e.executable));
        }
    }
}

#[test]
fn guard_page_below_the_stack_is_unmapped() {
    let (_, mapping) = remapped();
    let guard = 0x107000 / 4096 - 1; // directly below the kernel stack
    assert!(mapping.translate(guard).is_none());
    // while its neighbours inside the kernel image are mapped
    assert!(mapping.translate(guard - 1).is_some());
}

#[test]
fn unallocated_sections_are_not_mapped() {
    let (_, mapping) = remapped();
    assert!(mapping.translate(0x200).is_none());
}

#[test]
fn boot_metadata_is_mapped_read_only() {
    let (_, mapping) = remapped();
    let e = mapping.translate(0x9).unwrap();
    assert!(!e.writable);
    assert!(!e.executable);
    assert_eq!(e.frame, 0x9);
}

#[test]
fn display_page_is_mapped_writable() {
    let (_, mapping) = remapped();
    let e = mapping.translate(VGA_BUFFER_PAGE).unwrap();
    assert!(e.writable);
    assert!(!e.executable);
    assert_eq!(e.frame, VGA_BUFFER_PAGE);
}

#[test]
fn heap_range_is_backed_by_frames_outside_reserved_ranges() {
    let (_, mapping) = remapped();
    let first = HEAP_START / 4096;
    let last = (HEAP_START + HEAP_SIZE - 1) / 4096;
    for page in first..=last {
        let e = mapping.translate(page).expect("heap page unmapped");
        assert!(e.writable);
        assert!(!e.executable);
        // never a frame of the kernel image or the boot metadata
        assert!(e.frame < 0x100000 / 4096 || e.frame > 0x105fff / 4096);
        assert!(e.frame != 0x9000 / 4096);
    }
}

#[test]
fn remap_fails_fatally_when_frames_run_out() {
    let info = BootInfo {
        // three usable frames in all; the heap alone needs dozens
        memory_areas: vec![MemoryArea { base_addr: 0, length: 3 * 4096 }],
        elf_sections: vec![ElfSection {
            addr: 0x1000,
            size: 0x1000,
            flags: ELF_SECTION_ALLOCATED,
        }],
        multiboot_start: 0x2000,
        multiboot_end: 0x2fff,
        kernel_stack_bottom: 0x10000,
    };
    let mut allocator = AreaFrameAllocator::new(
        0x1000,
        0x1fff,
        info.multiboot_start,
        info.multiboot_end,
        info.memory_areas.clone(),
    );
    assert!(remap_the_kernel(&mut allocator, &info).is_none());
}

#[test]
fn map_page_and_translate_round_trip() {
    let mut m = KernelMapping::new();
    assert!(m.translate(7).is_none());
    m.map_page(7, 42, true, false);
    let e = m.translate(7).unwrap();
    assert_eq!(e.frame, 42);
    assert!(e.writable);
    assert!(!e.executable);
    m.map_page(7, 43, false, false);
    assert_eq!(m.translate(7).unwrap().frame, 43);
}
