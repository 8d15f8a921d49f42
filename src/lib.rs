//! Protected-mode bring-up for a 32-bit x86 kernel: segment and gate
//! descriptors, the task-state segment, identity paging, the fault policy and
//! the privilege drop to ring 3, each as plain values the processor will read.

pub mod boot;
pub mod cp437;
pub mod gdt;
pub mod idt;
pub mod interrupts;
pub mod paging;
pub mod qemu;
pub mod ring3;
pub mod tss;
pub mod vga;
