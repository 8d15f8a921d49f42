use vstd::prelude::*;
use crate::gdt::{
    selector_rpl, KERNEL_CODE_SEGMENT_SELECTOR, USER_CODE_SEGMENT_SELECTOR,
    USER_DATA_SEGMENT_SELECTOR,
};
use crate::idt::InterruptStackFrame;

verus! {

/// The I/O-privilege-level field of the flags register, bits 12 and 13.
pub const IOPL_MASK: u32 = 0x3000;

/// The I/O privilege level held in a flags register value.
pub open spec fn eflags_iopl(eflags: u32) -> u32 {
    (eflags >> 12) & 3
}

/// The flags register value that lets ring-3 code issue I/O instructions:
/// the I/O privilege level raised to 3, every other bit kept.
///
/// This hands port-level access to unprivileged code on purpose, until a
/// system-call gate exists.
pub fn enable_io_instructions(eflags: u32) -> (r: u32)
    ensures
        r == eflags | IOPL_MASK,
        eflags_iopl(r) == 3,
        r & !IOPL_MASK == eflags & !IOPL_MASK,
{
    proof {
        assert(((eflags | 0x3000) >> 12) & 3 == 3) by (bit_vector);
        assert((eflags | 0x3000) & !0x3000u32 == eflags & !0x3000u32) by (bit_vector);
    }
    eflags | IOPL_MASK
}

/// The privilege level the processor runs at, read off the code segment selector.
pub fn current_ring(code_segment_selector: u16) -> (r: u16)
    ensures
        r == selector_rpl(code_segment_selector),
        r <= 3,
{
    proof {
        assert(code_segment_selector & 3 <= 3) by (bit_vector);
    }
    code_segment_selector & 3
}

/// The frame a return-from-interrupt pops to enter ring 3 at `entry` with the
/// stack at `stack_pointer`.
pub open spec fn user_mode_frame_spec(entry: u32, eflags: u32, stack_pointer: u32) -> InterruptStackFrame {
    InterruptStackFrame {
        instruction_pointer: entry,
        code_segment_selector: USER_CODE_SEGMENT_SELECTOR,
        eflags: eflags | IOPL_MASK,
        stack_pointer,
        stack_segment_selector: USER_DATA_SEGMENT_SELECTOR,
    }
}

/// Builds the five values a return-from-interrupt pops to lower the privilege
/// level to 3: entry point, user code selector, flags with I/O privilege 3,
/// stack pointer, user stack selector.
pub fn user_mode_frame(entry: u32, eflags: u32, stack_pointer: u32) -> (r: InterruptStackFrame)
    ensures
        r == user_mode_frame_spec(entry, eflags, stack_pointer),
        selector_rpl(r.code_segment_selector) == 3,
        selector_rpl(r.stack_segment_selector) == 3,
        eflags_iopl(r.eflags) == 3,
{
    proof {
        assert(0x1Bu16 & 3 == 3 && 0x23u16 & 3 == 3) by (bit_vector);
    }
    InterruptStackFrame {
        instruction_pointer: entry,
        code_segment_selector: USER_CODE_SEGMENT_SELECTOR,
        eflags: enable_io_instructions(eflags),
        stack_pointer,
        stack_segment_selector: USER_DATA_SEGMENT_SELECTOR,
    }
}

/// Kernel code runs at ring 0, and the frame that lowers the privilege level
/// carries a code selector and a stack selector that both request ring 3.
pub proof fn lemma_ring_transition(entry: u32, eflags: u32, stack_pointer: u32)
    ensures
        selector_rpl(KERNEL_CODE_SEGMENT_SELECTOR) == 0,
        selector_rpl(user_mode_frame_spec(entry, eflags, stack_pointer).code_segment_selector) == 3,
        selector_rpl(user_mode_frame_spec(entry, eflags, stack_pointer).stack_segment_selector) == 3,
{
    assert(0x08u16 & 3 == 0 && 0x1Bu16 & 3 == 3 && 0x23u16 & 3 == 3) by (bit_vector);
}

} // verus!
