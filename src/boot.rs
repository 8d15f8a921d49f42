use vstd::prelude::*;
use crate::gdt::{
    selector_rpl, GDT_LIMIT, KERNEL_CODE_SEGMENT_SELECTOR, KERNEL_DATA_SEGMENT_SELECTOR,
    TSS_SEGMENT_SELECTOR, USER_CODE_SEGMENT_SELECTOR, USER_DATA_SEGMENT_SELECTOR,
};
use crate::idt::IDT_LIMIT;
use crate::ring3::current_ring;

verus! {

/// How far the processor has been brought from reset toward ring 3.
#[derive(Clone, Copy, Debug, PartialEq, Eq, Structural)]
pub enum BootStage {
    Reset,
    GdtInstalled,
    TssInstalled,
    IdtInstalled,
    PagingEnabled,
    UserMode,
}

/// The privileged operation that brings the processor to the next stage.
#[derive(Clone, Copy, Debug, PartialEq, Eq, Structural)]
pub enum BootAction {
    /// Load the descriptor table register, load every data segment register
    /// with `data`, then reload the code segment register with `code` by a far
    /// return.
    InstallGdt { limit: u16, code: u16, data: u16 },
    /// Load the task register with the task-state segment's selector.
    LoadTaskRegister { selector: u16 },
    /// Load the interrupt table register, mask both legacy interrupt
    /// controllers, then enable interrupt delivery.
    InstallIdt { limit: u16 },
    /// Load the page directory's address into the page-base register, then set
    /// the paging-enable bit.
    EnablePaging,
    /// Raise the I/O privilege level, load the data segment registers with
    /// `data`, and return from interrupt into ring 3 with `code` and `data`.
    EnterUserMode { code: u16, data: u16 },
}

/// The stage each stage leads to; ring 3 is the last.
pub open spec fn next_stage(s: BootStage) -> BootStage {
    match s {
        BootStage::Reset => BootStage::GdtInstalled,
        BootStage::GdtInstalled => BootStage::TssInstalled,
        BootStage::TssInstalled => BootStage::IdtInstalled,
        BootStage::IdtInstalled => BootStage::PagingEnabled,
        BootStage::PagingEnabled => BootStage::UserMode,
        BootStage::UserMode => BootStage::UserMode,
    }
}

/// The operation that leaves each stage, if any.
pub open spec fn stage_action(s: BootStage) -> Option<BootAction> {
    match s {
        BootStage::Reset => Some(
            BootAction::InstallGdt {
                limit: GDT_LIMIT,
                code: KERNEL_CODE_SEGMENT_SELECTOR,
                data: KERNEL_DATA_SEGMENT_SELECTOR,
            },
        ),
        BootStage::GdtInstalled => Some(BootAction::LoadTaskRegister { selector: TSS_SEGMENT_SELECTOR }),
        BootStage::TssInstalled => Some(BootAction::InstallIdt { limit: IDT_LIMIT }),
        BootStage::IdtInstalled => Some(BootAction::EnablePaging),
        BootStage::PagingEnabled => Some(
            BootAction::EnterUserMode {
                code: USER_CODE_SEGMENT_SELECTOR,
                data: USER_DATA_SEGMENT_SELECTOR,
            },
        ),
        BootStage::UserMode => None,
    }
}

/// The boot-time context: the stage reached and the code segment selector the
/// processor runs with.
pub struct BootSequence {
    stage: BootStage,
    code_selector: u16,
}

impl BootSequence {
    pub closed spec fn stage(&self) -> BootStage {
        self.stage
    }

    pub closed spec fn code_selector(&self) -> u16 {
        self.code_selector
    }

    /// Kernel-side stages run at ring 0; ring 3 runs with the user code selector.
    pub open spec fn inv(&self) -> bool {
        &&& self.stage() != BootStage::UserMode ==> selector_rpl(self.code_selector()) == 0
        &&& self.stage() == BootStage::UserMode ==> self.code_selector() == USER_CODE_SEGMENT_SELECTOR
    }

    /// The context at reset, where the boot loader left the processor running at
    /// ring 0 with `boot_code_selector`.
    pub fn new(boot_code_selector: u16) -> (r: BootSequence)
        requires
            selector_rpl(boot_code_selector) == 0,
        ensures
            r.inv(),
            r.stage() == BootStage::Reset,
            r.code_selector() == boot_code_selector,
    {
        BootSequence { stage: BootStage::Reset, code_selector: boot_code_selector }
    }

    /// The stage reached.
    pub fn stage_reached(&self) -> (r: BootStage)
        ensures
            r == self.stage(),
    {
        self.stage
    }

    /// The operation that brings the processor to the next stage, which is then
    /// taken as reached; `None` once ring 3 is entered, which has no way back.
    pub fn advance(&mut self) -> (r: Option<BootAction>)
        requires
            old(self).inv(),
        ensures
            final(self).inv(),
            r == stage_action(old(self).stage()),
            final(self).stage() == next_stage(old(self).stage()),
            old(self).stage() == BootStage::Reset ==> final(self).code_selector()
                == KERNEL_CODE_SEGMENT_SELECTOR,
            old(self).stage() != BootStage::Reset && old(self).stage() != BootStage::PagingEnabled
                ==> final(self).code_selector() == old(self).code_selector(),
    {
        proof {
            assert(0x08u16 & 3 == 0) by (bit_vector);
        }
        match self.stage {
            BootStage::Reset => {
                self.stage = BootStage::GdtInstalled;
                self.code_selector = KERNEL_CODE_SEGMENT_SELECTOR;
                Some(
                    BootAction::InstallGdt {
                        limit: GDT_LIMIT,
                        code: KERNEL_CODE_SEGMENT_SELECTOR,
                        data: KERNEL_DATA_SEGMENT_SELECTOR,
                    },
                )
            },
            BootStage::GdtInstalled => {
                self.stage = BootStage::TssInstalled;
                Some(BootAction::LoadTaskRegister { selector: TSS_SEGMENT_SELECTOR })
            },
            BootStage::TssInstalled => {
                self.stage = BootStage::IdtInstalled;
                Some(BootAction::InstallIdt { limit: IDT_LIMIT })
            },
            BootStage::IdtInstalled => {
                self.stage = BootStage::PagingEnabled;
                Some(BootAction::EnablePaging)
            },
            BootStage::PagingEnabled => {
                self.stage = BootStage::UserMode;
                self.code_selector = USER_CODE_SEGMENT_SELECTOR;
                Some(
                    BootAction::EnterUserMode {
                        code: USER_CODE_SEGMENT_SELECTOR,
                        data: USER_DATA_SEGMENT_SELECTOR,
                    },
                )
            },
            BootStage::UserMode => None,
        }
    }

    /// The privilege level the processor runs at: 0 at every kernel-side stage,
    /// 3 once ring 3 is entered.
    pub fn current_privilege_level(&self) -> (r: u16)
        requires
            self.inv(),
        ensures
            r == selector_rpl(self.code_selector()),
            self.stage() != BootStage::UserMode ==> r == 0,
            self.stage() == BootStage::UserMode ==> r == 3,
    {
        proof {
            assert(0x1Bu16 & 3 == 3) by (bit_vector);
        }
        current_ring(self.code_selector)
    }
}

} // verus!
