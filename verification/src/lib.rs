//! Early-boot core of a minimal x86-64 kernel.
//!
//! The crate covers the protection/interrupt bootstrap (descriptor tables,
//! interrupt dispatch, programmable interrupt controller sequencing), the
//! physical/virtual memory subsystem (frame allocation over a firmware
//! memory map, kernel remapping, heap bootstrap), and the keyboard
//! scancode decoder.  Hardware access itself (port reads and writes,
//! privileged register loads, the memory-mapped text buffer) lives outside
//! this crate; everything here is the logic those devices are driven by,
//! stated over plain values and verified.

use vstd::prelude::*;

pub mod boot;
pub mod gdt;
pub mod heap;
pub mod interrupts;
pub mod keyboard;
pub mod memory;
pub mod paging;
pub mod vga_buffer;

verus! {

/// Virtual base address of the kernel heap.
pub const HEAP_START: u64 = 0x4000_0000;

/// Size of the kernel heap in bytes (100 KiB).
pub const HEAP_SIZE: u64 = 100 * 1024;

} // verus!
