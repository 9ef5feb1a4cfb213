//! Interrupt dispatch: the 256-entry dispatch table built once at boot,
//! the chained programmable interrupt controller pair, and the decisions
//! the four handlers take.  Every handler outcome carries the
//! end-of-interrupt acknowledgment it owes, so no exit path can omit it;
//! performing the acknowledgment port write, and the actual table load,
//! is hardware work done outside this crate.

use vstd::prelude::*;
use crate::gdt::DOUBLE_FAULT_IST_INDEX;
use crate::keyboard::{ascii_for, read_char, Modifiers};
use crate::vga_buffer::{write_string_model, blank_char, Writer, BUFFER_HEIGHT, BUFFER_WIDTH};

verus! {

/// Vector the timer line is remapped to.
pub const TIMER_INTERRUPT_ID: u8 = 32;

/// Vector the keyboard line is remapped to.
pub const KEYBOARD_INTERRUPT_ID: u8 = 33;

/// Vector base of the first controller: directly above the 32 vectors
/// the CPU reserves for exceptions.
pub const PIC_1_OFFSET: u8 = 32;

/// Vector base of the second controller.
pub const PIC_2_OFFSET: u8 = 40;

/// Number of interrupt vectors the dispatch table holds.
pub const IDT_ENTRIES: usize = 256;

/// Vector of the breakpoint exception.
pub const BREAKPOINT_VECTOR: usize = 3;

/// Vector of the double-fault exception.
pub const DOUBLE_FAULT_VECTOR: usize = 8;

/// The handler bound to one interrupt vector.  A vector left unassigned
/// traps; it is not expected to fire under normal operation.
#[derive(Clone, Copy, Debug, PartialEq, Eq, Structural)]
pub enum HandlerKind {
    Unassigned,
    Breakpoint,
    DoubleFault,
    Timer,
    Keyboard,
}

/// One dispatch-table entry: the handler and, optionally, the index of a
/// dedicated interrupt stack to switch to.  No two handlers share a
/// dedicated stack unless configured so explicitly.
#[derive(Clone, Copy, Debug, PartialEq, Eq, Structural)]
pub struct IdtEntry {
    pub handler: HandlerKind,
    pub stack_index: Option<u16>,
}

/// The interrupt dispatch table: one entry per vector, built once at
/// startup and never mutated afterwards.
pub struct Idt {
    pub entries: Vec<IdtEntry>,
}

/// What the dispatch table binds to each vector: breakpoint and double
/// fault at their CPU-defined vectors — the double fault on the dedicated
/// stack slot — and the remapped timer and keyboard lines above vector 32.
pub open spec fn entry_for_vector(v: int) -> IdtEntry {
    if v == BREAKPOINT_VECTOR {
        IdtEntry { handler: HandlerKind::Breakpoint, stack_index: None }
    } else if v == DOUBLE_FAULT_VECTOR {
        IdtEntry { handler: HandlerKind::DoubleFault, stack_index: Some(DOUBLE_FAULT_IST_INDEX) }
    } else if v == TIMER_INTERRUPT_ID {
        IdtEntry { handler: HandlerKind::Timer, stack_index: None }
    } else if v == KEYBOARD_INTERRUPT_ID {
        IdtEntry { handler: HandlerKind::Keyboard, stack_index: None }
    } else {
        IdtEntry { handler: HandlerKind::Unassigned, stack_index: None }
    }
}

impl Idt {
    /// A full table, bound exactly as [`entry_for_vector`] says.
    pub open spec fn wf(&self) -> bool {
        &&& self.entries@.len() == IDT_ENTRIES
        &&& forall|v: int| 0 <= v < IDT_ENTRIES ==> self.entries@[v] == entry_for_vector(v)
    }
}

/// Build the interrupt dispatch table.  The hardware interrupt vectors
/// lie above the 32 CPU-reserved exception vectors, and only the double
/// fault gets a dedicated stack index.
pub fn init_idt() -> (idt: Idt)
    ensures
        idt.wf(),
        idt.entries@[BREAKPOINT_VECTOR as int].handler == HandlerKind::Breakpoint,
        idt.entries@[DOUBLE_FAULT_VECTOR as int].handler == HandlerKind::DoubleFault,
        idt.entries@[DOUBLE_FAULT_VECTOR as int].stack_index == Some(DOUBLE_FAULT_IST_INDEX),
        idt.entries@[TIMER_INTERRUPT_ID as int].handler == HandlerKind::Timer,
        idt.entries@[KEYBOARD_INTERRUPT_ID as int].handler == HandlerKind::Keyboard,
{
    let mut entries: Vec<IdtEntry> = Vec::new();
    let mut v: usize = 0;
    while v < IDT_ENTRIES
        invariant
            v <= IDT_ENTRIES,
            entries@.len() == v,
            forall|j: int| 0 <= j < v ==> entries@[j] == entry_for_vector(j),
        decreases IDT_ENTRIES - v,
    {
        let entry = if v == BREAKPOINT_VECTOR {
            IdtEntry { handler: HandlerKind::Breakpoint, stack_index: None }
        } else if v == DOUBLE_FAULT_VECTOR {
            IdtEntry {
                handler: HandlerKind::DoubleFault,
                stack_index: Some(DOUBLE_FAULT_IST_INDEX),
            }
        } else if v == TIMER_INTERRUPT_ID as usize {
            IdtEntry { handler: HandlerKind::Timer, stack_index: None }
        } else if v == KEYBOARD_INTERRUPT_ID as usize {
            IdtEntry { handler: HandlerKind::Keyboard, stack_index: None }
        } else {
            IdtEntry { handler: HandlerKind::Unassigned, stack_index: None }
        };
        entries.push(entry);
        v = v + 1;
    }
    proof {
        assert(entries@[BREAKPOINT_VECTOR as int] == entry_for_vector(BREAKPOINT_VECTOR as int));
        assert(entries@[DOUBLE_FAULT_VECTOR as int] == entry_for_vector(
            DOUBLE_FAULT_VECTOR as int,
        ));
        assert(entries@[TIMER_INTERRUPT_ID as int] == entry_for_vector(TIMER_INTERRUPT_ID as int));
        assert(entries@[KEYBOARD_INTERRUPT_ID as int] == entry_for_vector(
            KEYBOARD_INTERRUPT_ID as int,
        ));
    }
    Idt { entries }
}

/// The end-of-interrupt acknowledgment a serviced hardware interrupt
/// owes: to the master controller alone, or to the slave and then the
/// master when the line arrived through the slave.
#[derive(Clone, Copy, Debug, PartialEq, Eq, Structural)]
pub enum EoiSignal {
    MasterOnly,
    SlaveThenMaster,
}

/// The chained controller pair: each with its vector base, the two bases
/// disjoint and above the 32 reserved exception vectors; `initialize`
/// remaps the hardware to these bases and unmasks the timer and keyboard
/// lines.
pub struct ChainedPics {
    pub master_offset: u8,
    pub slave_offset: u8,
    pub initialized: bool,
    pub timer_line_masked: bool,
    pub keyboard_line_masked: bool,
}

/// Each controller serves eight lines; the two vector ranges must not
/// overlap each other and must stay above the reserved exception vectors.
pub open spec fn offsets_valid(master: u8, slave: u8) -> bool {
    &&& master >= 32
    &&& slave >= 32
    &&& (master + 8 <= slave || slave + 8 <= master)
}

impl ChainedPics {
    /// The pair's standing invariant: the two vector bases serve disjoint
    /// ranges, both above the reserved exception vectors.
    pub open spec fn wf(&self) -> bool {
        offsets_valid(self.master_offset, self.slave_offset)
    }

    /// The master controller serves this vector.
    pub open spec fn master_handles(&self, vector: u8) -> bool {
        self.master_offset <= vector < self.master_offset + 8
    }

    /// The slave controller serves this vector.
    pub open spec fn slave_handles(&self, vector: u8) -> bool {
        self.slave_offset <= vector < self.slave_offset + 8
    }

    /// The acknowledgment owed for a vector: lines on the slave must
    /// acknowledge both controllers, lines on the master only it, and a
    /// vector neither serves owes nothing.
    pub open spec fn eoi_for(&self, vector: u8) -> Option<EoiSignal> {
        if self.slave_handles(vector) {
            Some(EoiSignal::SlaveThenMaster)
        } else if self.master_handles(vector) {
            Some(EoiSignal::MasterOnly)
        } else {
            None
        }
    }

    /// A controller pair remapped to the two vector bases; nothing is
    /// unmasked until `initialize` runs.
    pub fn new(offset1: u8, offset2: u8) -> (r: Self)
        requires
            offsets_valid(offset1, offset2),
        ensures
            r.wf(),
            r.master_offset == offset1,
            r.slave_offset == offset2,
            !r.initialized,
            r.timer_line_masked,
            r.keyboard_line_masked,
    {
        ChainedPics {
            master_offset: offset1,
            slave_offset: offset2,
            initialized: false,
            timer_line_masked: true,
            keyboard_line_masked: true,
        }
    }

    /// Remap the two controllers to their vector bases and unmask the
    /// timer and keyboard lines.  Runs exactly once, before interrupts
    /// are enabled.
    pub fn initialize(&mut self)
        requires
            !old(self).initialized,
        ensures
            final(self).wf() == old(self).wf(),
            final(self).initialized,
            final(self).master_offset == old(self).master_offset,
            final(self).slave_offset == old(self).slave_offset,
            !final(self).timer_line_masked,
            !final(self).keyboard_line_masked,
    {
        self.initialized = true;
        self.timer_line_masked = false;
        self.keyboard_line_masked = false;
    }

    /// Decide which controllers the end-of-interrupt acknowledgment for
    /// this vector must go to.  It must be sent exactly once per serviced
    /// interrupt, else the line stays dead — a silent hang, not a crash.
    pub fn notify_end_of_interrupt(&self, vector: u8) -> (r: Option<EoiSignal>)
        requires
            self.initialized,
        ensures
            r == self.eoi_for(vector),
    {
        if self.slave_offset <= vector && (vector as u16) < self.slave_offset as u16 + 8 {
            Some(EoiSignal::SlaveThenMaster)
        } else if self.master_offset <= vector && (vector as u16) < self.master_offset as u16 + 8 {
            Some(EoiSignal::MasterOnly)
        } else {
            None
        }
    }
}

/// What the keyboard handler asks the console to do for one decoded
/// character: the carriage return starts a new line, the tab indents,
/// the placeholder for the unmapped key erases one cell, the escape
/// character is ignored, anything else is printed.
#[derive(Clone, Copy, Debug, PartialEq, Eq, Structural)]
pub enum ConsoleAction {
    Newline,
    Indent,
    Backspace,
    Nothing,
    Print(char),
}

/// The console action a decoded character calls for.
pub open spec fn console_action_for(c: char) -> ConsoleAction {
    if c == '\r' {
        ConsoleAction::Newline
    } else if c == '\t' {
        ConsoleAction::Indent
    } else if c as u8 == 0 {
        ConsoleAction::Backspace
    } else if c as u8 == 27 {
        ConsoleAction::Nothing
    } else {
        ConsoleAction::Print(c)
    }
}

/// Everything one keyboard interrupt resolves to: the console action and
/// the end-of-interrupt acknowledgment owed.  The acknowledgment is part
/// of the outcome, so no exit path can drop it.
#[derive(Clone, Copy, Debug, PartialEq, Eq, Structural)]
pub struct KeyboardIrqOutcome {
    pub action: ConsoleAction,
    pub eoi: Option<EoiSignal>,
}

/// Service one keyboard interrupt: decode the scancode just read from the
/// keyboard port, decide what the console should show, and report the
/// end-of-interrupt acknowledgment owed for the keyboard vector.
pub fn handle_keyboard_interrupt(
    pics: &ChainedPics,
    modifiers: &mut Modifiers,
    scancode: u8,
) -> (r: KeyboardIrqOutcome)
    requires
        pics.initialized,
    ensures
        *final(modifiers) == old(modifiers).spec_update(scancode),
        r.eoi == pics.eoi_for(KEYBOARD_INTERRUPT_ID),
        r.action == match ascii_for(scancode) {
            Some(ascii) => console_action_for(
                final(modifiers).spec_apply_to(ascii) as char,
            ),
            None => ConsoleAction::Nothing,
        },
{
    let action = match read_char(modifiers, scancode) {
        Some(input) => {
            if input == '\r' {
                ConsoleAction::Newline
            } else if input == '\t' {
                ConsoleAction::Indent
            } else if input as u8 == 0 {
                ConsoleAction::Backspace
            } else if input as u8 == 27 {
                ConsoleAction::Nothing
            } else {
                ConsoleAction::Print(input)
            }
        },
        None => ConsoleAction::Nothing,
    };
    let eoi = pics.notify_end_of_interrupt(KEYBOARD_INTERRUPT_ID);
    KeyboardIrqOutcome { action, eoi }
}

/// Service one timer interrupt: nothing to compute, but the
/// end-of-interrupt acknowledgment is owed on every exit path.
pub fn handle_timer_interrupt(pics: &ChainedPics) -> (r: Option<EoiSignal>)
    requires
        pics.initialized,
    ensures
        r == pics.eoi_for(TIMER_INTERRUPT_ID),
{
    pics.notify_end_of_interrupt(TIMER_INTERRUPT_ID)
}

/// How a CPU exception leaves the machine: a diagnostic is logged and
/// execution resumes, or the fault is terminal and the machine halts.
#[derive(Clone, Copy, Debug, PartialEq, Eq, Structural)]
pub enum FaultOutcome {
    Resume,
    Halt,
}

/// The bytes a console action writes: the erase action and the ignored
/// escape write none.
pub open spec fn bytes_for_action(action: ConsoleAction) -> Seq<u8> {
    match action {
        ConsoleAction::Newline => seq![10u8],
        ConsoleAction::Indent => seq![32u8, 32u8, 32u8, 32u8],
        ConsoleAction::Print(c) => seq![c as u8],
        ConsoleAction::Backspace => seq![],
        ConsoleAction::Nothing => seq![],
    }
}

/// Carry one keyboard-handler decision out onto the console: the erase
/// action steps the cursor back and blanks the cell, every other action
/// writes its bytes.
pub fn apply_console_action(writer: &mut Writer, action: ConsoleAction)
    requires
        old(writer).wf(),
    ensures
        final(writer).wf(),
        final(writer).color_code == old(writer).color_code,
        action is Backspace ==> {
            &&& old(writer).column_position == 0 ==> *final(writer) == *old(writer)
            &&& old(writer).column_position > 0 ==> final(writer).column_position == old(
                writer,
            ).column_position - 1 && final(writer).buffer@ == old(writer).buffer@.update(
                (BUFFER_HEIGHT - 1) * BUFFER_WIDTH + old(writer).column_position - 1,
                blank_char(old(writer).color_code),
            )
        },
        !(action is Backspace) ==> (final(writer).buffer@, final(writer).column_position as int)
            == write_string_model(
            old(writer).buffer@,
            old(writer).column_position as int,
            old(writer).color_code,
            bytes_for_action(action),
        ),
{
    match action {
        ConsoleAction::Newline => {
            let bytes: [u8; 1] = [10];
            writer.write_string(&bytes);
            proof {
                assert(bytes@ =~= bytes_for_action(action));
            }
        },
        ConsoleAction::Indent => {
            let bytes: [u8; 4] = [32, 32, 32, 32];
            writer.write_string(&bytes);
            proof {
                assert(bytes@ =~= bytes_for_action(action));
            }
        },
        ConsoleAction::Backspace => {
            writer.backspace();
        },
        ConsoleAction::Nothing => {
            proof {
                assert(bytes_for_action(action) =~= Seq::<u8>::empty());
            }
        },
        ConsoleAction::Print(c) => {
            let bytes: [u8; 1] = [c as u8];
            writer.write_string(&bytes);
            proof {
                assert(bytes@ =~= bytes_for_action(action));
            }
        },
    }
}

/// The breakpoint exception logs a diagnostic and resumes.
pub fn handle_breakpoint() -> (r: FaultOutcome)
    ensures
        r == FaultOutcome::Resume,
{
    FaultOutcome::Resume
}

/// The double fault is terminal: it logs a diagnostic on its dedicated
/// stack and halts; there is nothing to resume to.
pub fn handle_double_fault() -> (r: FaultOutcome)
    ensures
        r == FaultOutcome::Halt,
{
    FaultOutcome::Halt
}

} // verus!
