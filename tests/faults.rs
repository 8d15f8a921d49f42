use ark::gdt::KERNEL_CODE_SEGMENT_SELECTOR;
use ark::idt::{
    build_entry, handle_exception, FaultOutcome, FaultReport, Idt, IdtEntry, InterruptStackFrame,
    DIVIDE_ERROR_VECTOR, DOUBLE_FAULT_VECTOR, GENERAL_PROTECTION_VECTOR, IDT_ENTRY_COUNT,
    INTERRUPT_GATE,
};
use ark::interrupts::{is_enabled, InterruptGuard};

fn frame(ip: u32) -> InterruptStackFrame {
    InterruptStackFrame {
        instruction_pointer: ip,
        code_segment_selector: 0x08,
        eflags: 0x202,
        stack_pointer: 0x9_0000,
        stack_segment_selector: 0x10,
    }
}

#[test]
fn divide_error_resumes_two_bytes_on() {
    let p: u32 = 0x0010_0234;
    let r = handle_exception(DIVIDE_ERROR_VECTOR, frame(p), 0);
    assert_eq!(r.report, FaultReport::DivideError);
    match r.outcome {
        FaultOutcome::Resume(f) => {
            assert_eq!(f.instruction_pointer, p + 2);
            assert_eq!(f.code_segment_selector, 0x08);
            assert_eq!(f.eflags, 0x202);
            assert_eq!(f.stack_pointer, 0x9_0000);
        }
        FaultOutcome::Halt => panic!("divide error must not halt"),
    }
    let wrapped = handle_exception(DIVIDE_ERROR_VECTOR, frame(0xFFFF_FFFF), 0);
    assert_eq!(wrapped.outcome, FaultOutcome::Resume(frame(1)));
}

#[test]
fn general_protection_reports_code_and_halts() {
    let r = handle_exception(GENERAL_PROTECTION_VECTOR, frame(0x40_0000), 0x1B);
    assert_eq!(r.report, FaultReport::GeneralProtection(0x1B));
    assert_eq!(r.outcome, FaultOutcome::Halt);
}

#[test]
fn double_fault_halts() {
    let r = handle_exception(DOUBLE_FAULT_VECTOR, frame(0x1000), 0);
    assert_eq!(r.report, FaultReport::DoubleFault);
    assert_eq!(r.outcome, FaultOutcome::Halt);
    let other = handle_exception(14, frame(0x1000), 2);
    assert_eq!(other.report, FaultReport::Unhandled(14));
    assert_eq!(other.outcome, FaultOutcome::Halt);
}

#[test]
fn gate_encoding() {
    let g = build_entry(0x0012_3456);
    assert_eq!(g.offset_low, 0x3456);
    assert_eq!(g.offset_high, 0x0012);
    assert_eq!(g.selector, KERNEL_CODE_SEGMENT_SELECTOR);
    assert_eq!(g.type_attr, INTERRUPT_GATE);
    assert_eq!(g.zero, 0);
    assert_eq!(g.handler(), 0x0012_3456);
    assert_eq!(g.bits(), 0x0012_8E00_0008_3456);
    assert_eq!(IdtEntry::new().bits(), 0);
}

#[test]
fn exception_table_has_three_gates() {
    let idt = Idt::with_exception_handlers(0x1000, 0x2000, 0x3000);
    assert_eq!(idt.entry(0).handler(), 0x1000);
    assert_eq!(idt.entry(8).handler(), 0x2000);
    assert_eq!(idt.entry(13).handler(), 0x3000);
    let raw = idt.raw();
    assert_eq!(raw.len(), IDT_ENTRY_COUNT);
    for (i, w) in raw.iter().enumerate() {
        if i == 0 || i == 8 || i == 13 {
            assert_ne!(*w, 0);
        } else {
            assert_eq!(*w, 0);
        }
    }
}

#[test]
fn guard_restores_the_flag_found() {
    assert!(is_enabled(0x202));
    assert!(!is_enabled(0x002));
    for enabled in [false, true] {
        let (guard, disable_now) = InterruptGuard::enter(enabled);
        assert_eq!(disable_now, enabled);
        assert_eq!(guard.exit(), enabled);
    }
}
