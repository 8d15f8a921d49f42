use vstd::prelude::*;
use crate::gdt::KERNEL_CODE_SEGMENT_SELECTOR;

verus! {

/// Number of gates in the interrupt descriptor table.
pub const IDT_ENTRY_COUNT: usize = 256;

/// Value loaded into the table register's limit field: table size in bytes, minus one.
pub const IDT_LIMIT: u16 = 2047;

/// Type and attribute byte of a present, ring-0, 32-bit interrupt gate.
pub const INTERRUPT_GATE: u8 = 0x8E;

pub const DIVIDE_ERROR_VECTOR: u8 = 0;

pub const DOUBLE_FAULT_VECTOR: u8 = 8;

pub const GENERAL_PROTECTION_VECTOR: u8 = 13;

/// Bytes by which the divide-error handler moves the saved instruction pointer
/// before resuming. A fixed guess at the faulting instruction's length, not a
/// decoding of it.
pub const DIVIDE_ERROR_SKIP: u32 = 2;

/// One 8-byte interrupt gate, field for field as the processor reads it.
#[derive(Clone, Copy, Debug, PartialEq, Eq, Structural)]
pub struct IdtEntry {
    pub offset_low: u16,
    pub selector: u16,
    pub zero: u8,
    pub type_attr: u8,
    pub offset_high: u16,
}

/// A gate that is not present.
pub open spec fn empty_gate() -> IdtEntry {
    IdtEntry { offset_low: 0, selector: 0, zero: 0, type_attr: 0, offset_high: 0 }
}

/// A present ring-0 interrupt gate that enters `handler` through the kernel code segment.
pub open spec fn interrupt_gate(handler: u32) -> IdtEntry {
    IdtEntry {
        offset_low: (handler & 0xFFFF) as u16,
        selector: KERNEL_CODE_SEGMENT_SELECTOR,
        zero: 0,
        type_attr: INTERRUPT_GATE,
        offset_high: (handler >> 16) as u16,
    }
}

/// The handler address a gate enters.
pub open spec fn gate_handler(e: IdtEntry) -> u32 {
    ((e.offset_high as u32) << 16) | (e.offset_low as u32)
}

/// An entry as the 8 bytes the processor reads, least significant byte first.
pub open spec fn gate_bits(e: IdtEntry) -> u64 {
    (e.offset_low as u64) | ((e.selector as u64) << 16) | ((e.zero as u64) << 32) | ((
    e.type_attr as u64) << 40) | ((e.offset_high as u64) << 48)
}

impl IdtEntry {
    /// A gate that is not present.
    pub fn new() -> (r: IdtEntry)
        ensures
            r == empty_gate(),
    {
        IdtEntry { offset_low: 0, selector: 0, zero: 0, type_attr: 0, offset_high: 0 }
    }

    /// Makes this a present ring-0 interrupt gate entering `handler`.
    pub fn set_handler(&mut self, handler: u32)
        ensures
            *final(self) == interrupt_gate(handler),
            gate_handler(*final(self)) == handler,
    {
        self.offset_low = (handler & 0xFFFF) as u16;
        self.offset_high = (handler >> 16) as u16;
        self.selector = KERNEL_CODE_SEGMENT_SELECTOR;
        self.zero = 0;
        self.type_attr = INTERRUPT_GATE;
        proof {
            assert((((handler >> 16) as u16 as u32) << 16) | ((handler & 0xFFFF) as u16 as u32)
                == handler) by (bit_vector);
        }
    }

    /// The handler address this gate enters.
    pub fn handler(&self) -> (r: u32)
        ensures
            r == gate_handler(*self),
    {
        ((self.offset_high as u32) << 16) | (self.offset_low as u32)
    }

    /// This entry as the 8 bytes the processor reads.
    pub fn bits(&self) -> (r: u64)
        ensures
            r == gate_bits(*self),
    {
        (self.offset_low as u64) | ((self.selector as u64) << 16) | ((self.zero as u64) << 32) | ((
        self.type_attr as u64) << 40) | ((self.offset_high as u64) << 48)
    }
}

/// Builds a present ring-0 interrupt gate entering `handler` through the kernel
/// code segment.
pub fn build_entry(handler: u32) -> (r: IdtEntry)
    ensures
        r == interrupt_gate(handler),
        gate_handler(r) == handler,
{
    let mut e = IdtEntry::new();
    e.set_handler(handler);
    e
}

/// The interrupt descriptor table: 256 gates.
pub struct Idt {
    entries: Vec<IdtEntry>,
}

impl View for Idt {
    type V = Seq<IdtEntry>;

    closed spec fn view(&self) -> Seq<IdtEntry> {
        self.entries@
    }
}

impl Idt {
    pub closed spec fn wf(&self) -> bool {
        self.entries@.len() == IDT_ENTRY_COUNT
    }

    /// A table of 256 gates, none present.
    pub fn new() -> (r: Idt)
        ensures
            r.wf(),
            r@.len() == IDT_ENTRY_COUNT,
            forall|i: int| 0 <= i < IDT_ENTRY_COUNT ==> r@[i] == empty_gate(),
    {
        let mut entries: Vec<IdtEntry> = Vec::new();
        let mut i: usize = 0;
        while i < IDT_ENTRY_COUNT
            invariant
                i <= IDT_ENTRY_COUNT,
                entries@.len() == i,
                forall|j: int| 0 <= j < i ==> entries@[j] == empty_gate(),
            decreases IDT_ENTRY_COUNT - i,
        {
            entries.push(IdtEntry::new());
            i = i + 1;
        }
        Idt { entries }
    }

    /// Installs a present ring-0 interrupt gate entering `handler` at `vector`;
    /// the other gates are kept.
    pub fn set_handler(&mut self, vector: u8, handler: u32)
        requires
            old(self).wf(),
        ensures
            final(self).wf(),
            final(self)@ == old(self)@.update(vector as int, interrupt_gate(handler)),
    {
        let gate = build_entry(handler);
        self.entries.set(vector as usize, gate);
    }

    /// The entry at `vector`.
    pub fn entry(&self, vector: u8) -> (r: IdtEntry)
        requires
            self.wf(),
        ensures
            r == self@[vector as int],
    {
        self.entries[vector as usize]
    }

    /// The table with gates for divide error, double fault and general
    /// protection fault, and no other gate present.
    pub fn with_exception_handlers(divide_error: u32, double_fault: u32, general_protection: u32) -> (r: Idt)
        ensures
            r.wf(),
            r@[DIVIDE_ERROR_VECTOR as int] == interrupt_gate(divide_error),
            r@[DOUBLE_FAULT_VECTOR as int] == interrupt_gate(double_fault),
            r@[GENERAL_PROTECTION_VECTOR as int] == interrupt_gate(general_protection),
            forall|i: int|
                0 <= i < IDT_ENTRY_COUNT && i != DIVIDE_ERROR_VECTOR && i != DOUBLE_FAULT_VECTOR
                    && i != GENERAL_PROTECTION_VECTOR ==> r@[i] == empty_gate(),
    {
        let mut idt = Idt::new();
        idt.set_handler(DIVIDE_ERROR_VECTOR, divide_error);
        idt.set_handler(DOUBLE_FAULT_VECTOR, double_fault);
        idt.set_handler(GENERAL_PROTECTION_VECTOR, general_protection);
        idt
    }

    /// The gates as the 8-byte words the processor reads, in vector order.
    pub fn raw(&self) -> (r: Vec<u64>)
        requires
            self.wf(),
        ensures
            r@.len() == IDT_ENTRY_COUNT,
            forall|i: int| 0 <= i < IDT_ENTRY_COUNT ==> r@[i] == gate_bits(#[trigger] self@[i]),
    {
        let mut out: Vec<u64> = Vec::new();
        let mut i: usize = 0;
        while i < IDT_ENTRY_COUNT
            invariant
                self.wf(),
                i <= IDT_ENTRY_COUNT,
                out@.len() == i,
                forall|j: int| 0 <= j < i ==> out@[j] == gate_bits(#[trigger] self@[j]),
            decreases IDT_ENTRY_COUNT - i,
        {
            out.push(self.entries[i].bits());
            i = i + 1;
        }
        out
    }
}

/// What the processor pushes when it delivers an exception, in push order
/// reversed: the saved instruction pointer first.
#[derive(Clone, Copy, Debug, PartialEq, Eq, Structural)]
pub struct InterruptStackFrame {
    pub instruction_pointer: u32,
    pub code_segment_selector: u16,
    pub eflags: u32,
    pub stack_pointer: u32,
    pub stack_segment_selector: u16,
}

/// What a handler reports about the exception it received.
#[derive(Clone, Copy, Debug, PartialEq, Eq, Structural)]
pub enum FaultReport {
    DivideError,
    DoubleFault,
    /// A general-protection fault with the error code the processor supplied.
    GeneralProtection(u32),
    /// A vector that this kernel installs no handler for.
    Unhandled(u8),
}

/// How a handler leaves: resume with the given frame, or halt for good.
#[derive(Clone, Copy, Debug, PartialEq, Eq, Structural)]
pub enum FaultOutcome {
    Resume(InterruptStackFrame),
    Halt,
}

/// A handler's decision: what to report, then how to leave.
#[derive(Clone, Copy, Debug, PartialEq, Eq, Structural)]
pub struct FaultResponse {
    pub report: FaultReport,
    pub outcome: FaultOutcome,
}

/// The per-vector policy: a divide error is reported and resumed two bytes
/// further on; a double fault and a general-protection fault are reported and
/// halt; any other vector halts.
pub open spec fn fault_policy(vector: u8, frame: InterruptStackFrame, error_code: u32) -> FaultResponse {
    if vector == DIVIDE_ERROR_VECTOR {
        FaultResponse {
            report: FaultReport::DivideError,
            outcome: FaultOutcome::Resume(
                InterruptStackFrame {
                    instruction_pointer: ((frame.instruction_pointer + DIVIDE_ERROR_SKIP) % 0x1_0000_0000) as u32,
                    ..frame
                },
            ),
        }
    } else if vector == DOUBLE_FAULT_VECTOR {
        FaultResponse { report: FaultReport::DoubleFault, outcome: FaultOutcome::Halt }
    } else if vector == GENERAL_PROTECTION_VECTOR {
        FaultResponse { report: FaultReport::GeneralProtection(error_code), outcome: FaultOutcome::Halt }
    } else {
        FaultResponse { report: FaultReport::Unhandled(vector), outcome: FaultOutcome::Halt }
    }
}

/// Decides what the handler of `vector` does with the frame and error code the
/// processor delivered.
pub fn handle_exception(vector: u8, frame: InterruptStackFrame, error_code: u32) -> (r: FaultResponse)
    ensures
        r == fault_policy(vector, frame, error_code),
{
    if vector == DIVIDE_ERROR_VECTOR {
        let resumed = InterruptStackFrame {
            instruction_pointer: frame.instruction_pointer.wrapping_add(DIVIDE_ERROR_SKIP),
            ..frame
        };
        FaultResponse { report: FaultReport::DivideError, outcome: FaultOutcome::Resume(resumed) }
    } else if vector == DOUBLE_FAULT_VECTOR {
        FaultResponse { report: FaultReport::DoubleFault, outcome: FaultOutcome::Halt }
    } else if vector == GENERAL_PROTECTION_VECTOR {
        FaultResponse { report: FaultReport::GeneralProtection(error_code), outcome: FaultOutcome::Halt }
    } else {
        FaultResponse { report: FaultReport::Unhandled(vector), outcome: FaultOutcome::Halt }
    }
}

} // verus!
