use vstd::prelude::*;

verus! {

/// The interrupt-enable bit of the flags register.
pub const INTERRUPT_FLAG: u32 = 0x200;

/// Whether a flags register value has interrupt delivery enabled.
pub fn is_enabled(eflags: u32) -> (r: bool)
    ensures
        r == (eflags & INTERRUPT_FLAG != 0),
{
    eflags & INTERRUPT_FLAG != 0
}

/// The interrupt-enable flag saved on entry to a section that runs with
/// interrupts masked.
pub struct InterruptGuard {
    saved: bool,
}

impl InterruptGuard {
    /// The flag as it stood when the section was entered.
    pub closed spec fn saved(&self) -> bool {
        self.saved
    }

    /// Enters a masked section with the flag as it stands now. Returns the guard
    /// and whether interrupts must be disabled before the section runs: only
    /// where they are on.
    pub fn enter(enabled: bool) -> (r: (InterruptGuard, bool))
        ensures
            r.0.saved() == enabled,
            r.1 == enabled,
    {
        (InterruptGuard { saved: enabled }, enabled)
    }

    /// Leaves the section. Returns whether interrupts must be enabled again: just
    /// where they were on at entry, so the flag ends as it began.
    pub fn exit(self) -> (r: bool)
        ensures
            r == self.saved(),
    {
        self.saved
    }
}

/// The flag after a masked section: disabled on entry where it was on, run,
/// then enabled on exit where the guard says so.
pub open spec fn flag_after_section(enabled: bool, disable_on_entry: bool, enable_on_exit: bool) -> (bool, bool) {
    let during = if disable_on_entry {
        false
    } else {
        enabled
    };
    let after = if enable_on_exit {
        true
    } else {
        during
    };
    (during, after)
}

/// Running a section under a guard masks interrupts for its duration and leaves
/// the flag exactly as it was found.
pub proof fn lemma_guard_restores(enabled: bool, guard: InterruptGuard, disable_on_entry: bool)
    requires
        guard.saved() == enabled,
        disable_on_entry == enabled,
    ensures
        flag_after_section(enabled, disable_on_entry, guard.saved()) == (false, enabled),
{
}

} // verus!
