use ark::boot::{BootAction, BootSequence, BootStage};
use ark::gdt::{
    GDT_LIMIT, KERNEL_CODE_SEGMENT_SELECTOR, KERNEL_DATA_SEGMENT_SELECTOR, TSS_SEGMENT_SELECTOR,
    USER_CODE_SEGMENT_SELECTOR, USER_DATA_SEGMENT_SELECTOR,
};
use ark::idt::IDT_LIMIT;
use ark::qemu::QemuExitCode;
use ark::ring3::{current_ring, enable_io_instructions, user_mode_frame};

#[test]
fn kernel_initialization_stays_in_ring_zero() {
    let mut boot = BootSequence::new(0x10);
    assert_eq!(boot.current_privilege_level(), 0);
    assert_eq!(
        boot.advance(),
        Some(BootAction::InstallGdt {
            limit: GDT_LIMIT,
            code: KERNEL_CODE_SEGMENT_SELECTOR,
            data: KERNEL_DATA_SEGMENT_SELECTOR
        })
    );
    assert_eq!(boot.current_privilege_level(), 0);
    assert_eq!(boot.advance(), Some(BootAction::LoadTaskRegister { selector: TSS_SEGMENT_SELECTOR }));
    assert_eq!(boot.current_privilege_level(), 0);
    assert_eq!(boot.advance(), Some(BootAction::InstallIdt { limit: IDT_LIMIT }));
    assert_eq!(boot.current_privilege_level(), 0);
    assert_eq!(boot.advance(), Some(BootAction::EnablePaging));
    assert_eq!(boot.stage_reached(), BootStage::PagingEnabled);
    assert_eq!(boot.current_privilege_level(), 0);
    assert_eq!(current_ring(KERNEL_CODE_SEGMENT_SELECTOR), 0);
}

#[test]
fn ring_three_is_entered_once() {
    let mut boot = BootSequence::new(0x08);
    for _ in 0..4 {
        assert!(boot.advance().is_some());
    }
    assert_eq!(
        boot.advance(),
        Some(BootAction::EnterUserMode {
            code: USER_CODE_SEGMENT_SELECTOR,
            data: USER_DATA_SEGMENT_SELECTOR
        })
    );
    assert_eq!(boot.stage_reached(), BootStage::UserMode);
    assert_eq!(boot.current_privilege_level(), 3);
    assert_eq!(boot.advance(), None);
    assert_eq!(boot.stage_reached(), BootStage::UserMode);
}

#[test]
fn user_frame_selectors_request_ring_three() {
    let f = user_mode_frame(0x0010_5000, 0x0000_0202, 0x0009_F000);
    assert_eq!(f.instruction_pointer, 0x0010_5000);
    assert_eq!(f.code_segment_selector & 3, 3);
    assert_eq!(f.stack_segment_selector & 3, 3);
    assert_eq!(f.code_segment_selector, 0x1B);
    assert_eq!(f.stack_segment_selector, 0x23);
    assert_eq!(f.eflags, 0x3202);
    assert_eq!(f.stack_pointer, 0x0009_F000);
    assert_eq!(current_ring(f.code_segment_selector), 3);
    assert_eq!(enable_io_instructions(0), 0x3000);
    assert_eq!(enable_io_instructions(0x3202), 0x3202);
}

#[test]
fn exit_codes() {
    assert_eq!(QemuExitCode::Success.code(), 0x10);
    assert_eq!(QemuExitCode::Failed.code(), 0x11);
}
