//! Descriptor and segmentation setup: a code segment, a task-state
//! segment, and one interrupt-stack-table slot pointing at a dedicated
//! stack region, so that a double fault runs on guaranteed-valid memory
//! instead of re-faulting on a corrupted stack.  Loading the built tables
//! into the CPU registers is hardware work done outside this crate.

use vstd::prelude::*;

verus! {

/// The interrupt-stack-table slot reserved for the double-fault handler.
pub const DOUBLE_FAULT_IST_INDEX: u16 = 0;

/// Number of interrupt-stack-table slots a task-state segment holds.
pub const IST_SLOTS: usize = 7;

/// A dedicated stack region: start address and size in bytes.
#[derive(Clone, Copy, Debug, PartialEq, Eq, Structural)]
pub struct StackRange {
    pub start: u64,
    pub size: u64,
}

/// The task-state segment: its interrupt stack table, one optional
/// dedicated stack per slot.
pub struct TaskStateSegment {
    pub interrupt_stack_table: Vec<Option<StackRange>>,
}

/// The descriptor tables built at boot: the task-state segment and the
/// selectors of the code and task-state descriptors.
pub struct GdtSetup {
    pub tss: TaskStateSegment,
    pub code_selector: u16,
    pub tss_selector: u16,
}

impl GdtSetup {
    /// The double-fault slot holds a dedicated stack of at least a few
    /// KiB, on its own, never shared with another slot.
    pub open spec fn wf(&self) -> bool {
        &&& self.tss.interrupt_stack_table@.len() == IST_SLOTS
        &&& self.tss.interrupt_stack_table@[DOUBLE_FAULT_IST_INDEX as int] is Some
        &&& forall|i: int|
            0 <= i < IST_SLOTS && i != DOUBLE_FAULT_IST_INDEX
                ==> #[trigger] self.tss.interrupt_stack_table@[i] is None
    }
}

/// Build the descriptor tables: a task-state segment whose double-fault
/// slot points at the given dedicated stack region, and the two segment
/// selectors.  Must run, and be loaded, before interrupts are enabled.
pub fn init(stack_start: u64, stack_size: u64) -> (r: GdtSetup)
    requires
        stack_size >= 4096,
        stack_start + stack_size <= u64::MAX,
    ensures
        r.wf(),
        r.tss.interrupt_stack_table@[DOUBLE_FAULT_IST_INDEX as int] == Some(
            StackRange { start: stack_start, size: stack_size },
        ),
        r.code_selector != r.tss_selector,
{
    let mut table: Vec<Option<StackRange>> = Vec::new();
    table.push(Some(StackRange { start: stack_start, size: stack_size }));
    let mut i: usize = 1;
    while i < IST_SLOTS
        invariant
            1 <= i <= IST_SLOTS,
            table@.len() == i,
            table@[0] == Some(StackRange { start: stack_start, size: stack_size }),
            forall|j: int| 1 <= j < i ==> #[trigger] table@[j] is None,
        decreases IST_SLOTS - i,
    {
        table.push(None);
        i = i + 1;
    }
    GdtSetup {
        tss: TaskStateSegment { interrupt_stack_table: table },
        code_selector: 8,
        tss_selector: 16,
    }
}

} // verus!
