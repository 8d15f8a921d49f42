use vstd::prelude::*;

verus! {

/// The emulator's debug-exit port, which takes a 32-bit code.
pub const ISA_EXIT_PORT: u16 = 0xF4;

/// The outcome a test run reports to the emulator on exit.
#[derive(Clone, Copy, Debug, PartialEq, Eq, Structural)]
pub enum QemuExitCode {
    Success,
    Failed,
}

impl QemuExitCode {
    /// The word written to the exit port for this outcome.
    pub fn code(&self) -> (r: u32)
        ensures
            *self == QemuExitCode::Success ==> r == 0x10,
            *self == QemuExitCode::Failed ==> r == 0x11,
    {
        match self {
            QemuExitCode::Success => 0x10,
            QemuExitCode::Failed => 0x11,
        }
    }
}

} // verus!
