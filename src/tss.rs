use vstd::prelude::*;
use crate::gdt::KERNEL_DATA_SEGMENT_SELECTOR;

verus! {

/// Size in bytes of the task-state segment record.
pub const TSS_SIZE: u32 = 104;

/// I/O-bitmap offset that lies past the segment's limit: no bitmap is present.
pub const NO_IO_BITMAP: u16 = 0xFFFF;

/// Size in bytes of the reserved kernel stack that the processor switches to
/// when an interrupt arrives at a lower privilege level.
pub const KERNEL_STACK_SIZE: u32 = 4096;

/// The 32-bit task-state segment, field for field as the processor reads it.
#[derive(Clone, Copy, Debug, PartialEq, Eq, Structural)]
pub struct Tss {
    pub prev_tss: u16,
    pub reserved0: u16,
    pub esp0: u32,
    pub ss0: u16,
    pub reserved1: u16,
    pub esp1: u32,
    pub ss1: u16,
    pub reserved2: u16,
    pub esp2: u32,
    pub ss2: u16,
    pub reserved3: u16,
    pub cr3: u32,
    pub eip: u32,
    pub eflags: u32,
    pub eax: u32,
    pub ecx: u32,
    pub edx: u32,
    pub ebx: u32,
    pub esp: u32,
    pub ebp: u32,
    pub esi: u32,
    pub edi: u32,
    pub es: u16,
    pub reserved4: u16,
    pub cs: u16,
    pub reserved5: u16,
    pub ss: u16,
    pub reserved6: u16,
    pub ds: u16,
    pub reserved7: u16,
    pub fs: u16,
    pub reserved8: u16,
    pub gs: u16,
    pub reserved9: u16,
    pub ldt: u16,
    pub reserved10: u16,
    pub t_flag: u16,
    pub io_map_base: u16,
}

/// The record before a kernel stack is attached: ring-0 stack segment set to
/// the kernel data selector, no I/O bitmap, every other field zero.
pub open spec fn initial_tss() -> Tss {
    Tss {
        prev_tss: 0,
        reserved0: 0,
        esp0: 0,
        ss0: KERNEL_DATA_SEGMENT_SELECTOR,
        reserved1: 0,
        esp1: 0,
        ss1: 0,
        reserved2: 0,
        esp2: 0,
        ss2: 0,
        reserved3: 0,
        cr3: 0,
        eip: 0,
        eflags: 0,
        eax: 0,
        ecx: 0,
        edx: 0,
        ebx: 0,
        esp: 0,
        ebp: 0,
        esi: 0,
        edi: 0,
        es: 0,
        reserved4: 0,
        cs: 0,
        reserved5: 0,
        ss: 0,
        reserved6: 0,
        ds: 0,
        reserved7: 0,
        fs: 0,
        reserved8: 0,
        gs: 0,
        reserved9: 0,
        ldt: 0,
        reserved10: 0,
        t_flag: 0,
        io_map_base: NO_IO_BITMAP,
    }
}

/// Two 16-bit fields sharing one 32-bit word, the first in the low half.
pub open spec fn pair(lo: u16, hi: u16) -> u32 {
    (lo as u32) | ((hi as u32) << 16)
}

/// The record as the 26 little-endian words the processor reads, in field order.
pub open spec fn tss_words(t: Tss) -> Seq<u32> {
    seq![
        pair(t.prev_tss, t.reserved0), t.esp0, pair(t.ss0, t.reserved1), t.esp1,
        pair(t.ss1, t.reserved2), t.esp2, pair(t.ss2, t.reserved3), t.cr3, t.eip, t.eflags,
        t.eax, t.ecx, t.edx, t.ebx, t.esp, t.ebp, t.esi, t.edi, pair(t.es, t.reserved4),
        pair(t.cs, t.reserved5), pair(t.ss, t.reserved6), pair(t.ds, t.reserved7),
        pair(t.fs, t.reserved8), pair(t.gs, t.reserved9), pair(t.ldt, t.reserved10),
        pair(t.t_flag, t.io_map_base),
    ]
}

fn join(lo: u16, hi: u16) -> (r: u32)
    ensures
        r == pair(lo, hi),
{
    (lo as u32) | ((hi as u32) << 16)
}

impl Tss {
    /// The record as it stands before `set_kernel_stack`.
    pub fn new() -> (r: Tss)
        ensures
            r == initial_tss(),
    {
        Tss {
            prev_tss: 0,
            reserved0: 0,
            esp0: 0,
            ss0: KERNEL_DATA_SEGMENT_SELECTOR,
            reserved1: 0,
            esp1: 0,
            ss1: 0,
            reserved2: 0,
            esp2: 0,
            ss2: 0,
            reserved3: 0,
            cr3: 0,
            eip: 0,
            eflags: 0,
            eax: 0,
            ecx: 0,
            edx: 0,
            ebx: 0,
            esp: 0,
            ebp: 0,
            esi: 0,
            edi: 0,
            es: 0,
            reserved4: 0,
            cs: 0,
            reserved5: 0,
            ss: 0,
            reserved6: 0,
            ds: 0,
            reserved7: 0,
            fs: 0,
            reserved8: 0,
            gs: 0,
            reserved9: 0,
            ldt: 0,
            reserved10: 0,
            t_flag: 0,
            io_map_base: NO_IO_BITMAP,
        }
    }

    /// Points the ring-0 stack at `stack_top`, in the kernel data segment; every
    /// other field is kept.
    pub fn set_kernel_stack(&mut self, stack_top: u32)
        ensures
            *final(self) == (Tss { esp0: stack_top, ss0: KERNEL_DATA_SEGMENT_SELECTOR, ..*old(self) }),
    {
        self.esp0 = stack_top;
        self.ss0 = KERNEL_DATA_SEGMENT_SELECTOR;
    }

    /// The record as the 26 words the processor reads, 104 bytes in all.
    pub fn words(&self) -> (r: [u32; 26])
        ensures
            r@ == tss_words(*self),
    {
        let r = [
            join(self.prev_tss, self.reserved0),
            self.esp0,
            join(self.ss0, self.reserved1),
            self.esp1,
            join(self.ss1, self.reserved2),
            self.esp2,
            join(self.ss2, self.reserved3),
            self.cr3,
            self.eip,
            self.eflags,
            self.eax,
            self.ecx,
            self.edx,
            self.ebx,
            self.esp,
            self.ebp,
            self.esi,
            self.edi,
            join(self.es, self.reserved4),
            join(self.cs, self.reserved5),
            join(self.ss, self.reserved6),
            join(self.ds, self.reserved7),
            join(self.fs, self.reserved8),
            join(self.gs, self.reserved9),
            join(self.ldt, self.reserved10),
            join(self.t_flag, self.io_map_base),
        ];
        assert(r@ =~= tss_words(*self));
        r
    }
}

/// The top of the reserved kernel stack that starts at `stack_base`: the first
/// address past its end, where the processor starts pushing.
pub fn kernel_stack_top(stack_base: u32) -> (r: u32)
    requires
        stack_base + KERNEL_STACK_SIZE <= u32::MAX,
    ensures
        r == stack_base + KERNEL_STACK_SIZE,
{
    stack_base + KERNEL_STACK_SIZE
}

} // verus!
