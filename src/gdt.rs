use vstd::prelude::*;
use crate::tss::TSS_SIZE;

verus! {

/// Number of descriptors in the global descriptor table.
pub const GDT_ENTRY_COUNT: usize = 6;

/// Value loaded into the table register's limit field: table size in bytes, minus one.
pub const GDT_LIMIT: u16 = 47;

/// Largest segment limit a descriptor can hold (20 bits).
pub const SEGMENT_LIMIT_MAX: u32 = 0xFFFFF;

/// Access byte of the flat ring-0 code segment: present, DPL 0, code, readable.
pub const KERNEL_CODE_ACCESS: u8 = 0x9A;

/// Access byte of the flat ring-0 data segment: present, DPL 0, data, writable.
pub const KERNEL_DATA_ACCESS: u8 = 0x92;

/// Access byte of the flat ring-3 code segment.
pub const USER_CODE_ACCESS: u8 = 0xFA;

/// Access byte of the flat ring-3 data segment.
pub const USER_DATA_ACCESS: u8 = 0xF2;

/// Access byte of an available 32-bit task-state segment.
pub const TSS_ACCESS: u8 = 0x89;

/// Flags nibble of the flat segments: 4 KiB granularity, 32-bit operand size.
pub const FLAT_FLAGS: u8 = 0xC;

pub const NULL_INDEX: u16 = 0;

pub const KERNEL_CODE_INDEX: u16 = 1;

pub const KERNEL_DATA_INDEX: u16 = 2;

pub const USER_CODE_INDEX: u16 = 3;

pub const USER_DATA_INDEX: u16 = 4;

pub const TSS_INDEX: u16 = 5;

pub const KERNEL_CODE_SEGMENT_SELECTOR: u16 = 0x08;

pub const KERNEL_DATA_SEGMENT_SELECTOR: u16 = 0x10;

pub const USER_CODE_SEGMENT_SELECTOR: u16 = 0x1B;

pub const USER_DATA_SEGMENT_SELECTOR: u16 = 0x23;

pub const TSS_SEGMENT_SELECTOR: u16 = 0x28;

/// The 20-bit limit stored in a raw descriptor: bits 0..16 and 48..52.
pub open spec fn descriptor_limit(d: u64) -> u64 {
    (d & 0xFFFF) | (((d >> 48) & 0xF) << 16)
}

/// The 32-bit base stored in a raw descriptor: bits 16..40 and 56..64.
pub open spec fn descriptor_base(d: u64) -> u64 {
    ((d >> 16) & 0xFF_FFFF) | (((d >> 56) & 0xFF) << 24)
}

/// The access byte stored in a raw descriptor: bits 40..48.
pub open spec fn descriptor_access(d: u64) -> u64 {
    (d >> 40) & 0xFF
}

/// The flags nibble stored in a raw descriptor: bits 52..56.
pub open spec fn descriptor_flags(d: u64) -> u64 {
    (d >> 52) & 0xF
}

/// The bits that hold a segment limit, masked to 20 bits.
pub open spec fn limit_bits(limit: u32) -> u64 {
    ((limit as u64) & 0xFFFF) | ((((limit as u64) >> 16) & 0xF) << 48)
}

/// The bits that hold a segment base.
pub open spec fn base_bits(base: u32) -> u64 {
    (((base as u64) & 0xFF_FFFF) << 16) | (((base as u64) & 0xFF00_0000) << 32)
}

/// The bits that hold an access byte.
pub open spec fn access_bits(access: u8) -> u64 {
    (access as u64) << 40
}

/// The bits that hold a flags nibble, masked to 4 bits.
pub open spec fn flags_bits(flags: u8) -> u64 {
    ((flags as u64) & 0xF) << 52
}

/// The whole 8-byte descriptor for (limit, base, access, flags).
pub open spec fn encode_segment(limit: u32, base: u32, access: u8, flags: u8) -> u64 {
    limit_bits(limit) | base_bits(base) | access_bits(access) | flags_bits(flags)
}

proof fn lemma_encode_decode(limit: u32, base: u32, access: u8, flags: u8)
    ensures
        descriptor_limit(encode_segment(limit, base, access, flags)) == (limit & 0xFFFFF) as u64,
        descriptor_base(encode_segment(limit, base, access, flags)) == base as u64,
        descriptor_access(encode_segment(limit, base, access, flags)) == access as u64,
        descriptor_flags(encode_segment(limit, base, access, flags)) == (flags & 0xF) as u64,
{
    let d = encode_segment(limit, base, access, flags);
    lemma_decode_packed(limit as u64, base as u64, access as u64, flags as u64, d);
    assert((limit & 0xFFFFF) as u64 == (limit as u64) & 0xFFFFF) by (bit_vector);
    assert((flags & 0xF) as u64 == (flags as u64) & 0xF) by (bit_vector);
}

proof fn lemma_decode_packed(l: u64, b: u64, a: u64, f: u64, d: u64)
    by (bit_vector)
    requires
        l <= 0xFFFF_FFFF,
        b <= 0xFFFF_FFFF,
        a <= 0xFF,
        f <= 0xFF,
        d == ((l & 0xFFFF) | (((l >> 16) & 0xF) << 48)) | (((b & 0xFF_FFFF) << 16) | ((b
            & 0xFF00_0000) << 32)) | (a << 40) | ((f & 0xF) << 52),
    ensures
        descriptor_limit(d) == l & 0xFFFFF,
        descriptor_base(d) == b,
        descriptor_access(d) == a,
        descriptor_flags(d) == f & 0xF,
{
}

/// An 8-byte segment descriptor, in the layout the processor reads.
#[derive(Clone, Copy, Debug, PartialEq, Eq, Structural)]
pub struct GdtEntry(pub u64);

impl GdtEntry {
    /// Packs (limit, base, access, flags) into a descriptor; the limit is cut to
    /// 20 bits and the flags to 4.
    pub fn new(limit: u32, base: u32, access: u8, flags: u8) -> (r: GdtEntry)
        ensures
            r.0 == encode_segment(limit, base, access, flags),
            descriptor_limit(r.0) == (limit & 0xFFFFF) as u64,
            descriptor_base(r.0) == base as u64,
            descriptor_access(r.0) == access as u64,
            descriptor_flags(r.0) == (flags & 0xF) as u64,
    {
        let mut entry = GdtEntry(0);
        entry.set_limit(limit);
        entry.set_base(base);
        entry.set_access(access);
        entry.set_flags(flags);
        proof {
            lemma_encode_decode(limit, base, access, flags);
            let (l, b, a, f) = (limit_bits(limit), base_bits(base), access_bits(access), flags_bits(flags));
            assert(0u64 | l | b | a | f == l | b | a | f) by (bit_vector);
        }
        entry
    }

    fn set_limit(&mut self, limit: u32)
        ensures
            final(self).0 == old(self).0 | limit_bits(limit),
    {
        self.0 = self.0 | ((limit as u64) & 0xFFFF);
        self.0 = self.0 | ((((limit as u64) >> 16) & 0xF) << 48);
        proof {
            let d = old(self).0;
            assert(d | ((limit as u64) & 0xFFFF) | ((((limit as u64) >> 16) & 0xF) << 48) == d | (
            ((limit as u64) & 0xFFFF) | ((((limit as u64) >> 16) & 0xF) << 48))) by (bit_vector);
        }
    }

    fn set_base(&mut self, base: u32)
        ensures
            final(self).0 == old(self).0 | base_bits(base),
    {
        self.0 = self.0 | (((base as u64) & 0xFF_FFFF) << 16);
        self.0 = self.0 | (((base as u64) & 0xFF00_0000) << 32);
        proof {
            let d = old(self).0;
            assert(d | (((base as u64) & 0xFF_FFFF) << 16) | (((base as u64) & 0xFF00_0000) << 32)
                == d | ((((base as u64) & 0xFF_FFFF) << 16) | (((base as u64) & 0xFF00_0000) << 32)))
                by (bit_vector);
        }
    }

    fn set_access(&mut self, access: u8)
        ensures
            final(self).0 == old(self).0 | access_bits(access),
    {
        self.0 = self.0 | ((access as u64) << 40);
    }

    fn set_flags(&mut self, flags: u8)
        ensures
            final(self).0 == old(self).0 | flags_bits(flags),
    {
        self.0 = self.0 | (((flags as u64) & 0xF) << 52);
    }

    /// The segment limit held by this descriptor.
    pub fn limit(&self) -> (r: u32)
        ensures
            r as u64 == descriptor_limit(self.0),
    {
        let d = self.0;
        proof {
            assert((d & 0xFFFF) | (((d >> 48) & 0xF) << 16) <= 0xFFFFF) by (bit_vector);
        }
        ((d & 0xFFFF) | (((d >> 48) & 0xF) << 16)) as u32
    }

    /// The segment base held by this descriptor.
    pub fn base(&self) -> (r: u32)
        ensures
            r as u64 == descriptor_base(self.0),
    {
        let d = self.0;
        proof {
            assert(((d >> 16) & 0xFF_FFFF) | (((d >> 56) & 0xFF) << 24) <= 0xFFFF_FFFF)
                by (bit_vector);
        }
        (((d >> 16) & 0xFF_FFFF) | (((d >> 56) & 0xFF) << 24)) as u32
    }

    /// The access byte held by this descriptor.
    pub fn access(&self) -> (r: u8)
        ensures
            r as u64 == descriptor_access(self.0),
    {
        let d = self.0;
        proof {
            assert((d >> 40) & 0xFF <= 0xFF) by (bit_vector);
        }
        ((d >> 40) & 0xFF) as u8
    }

    /// The flags nibble held by this descriptor.
    pub fn flags(&self) -> (r: u8)
        ensures
            r as u64 == descriptor_flags(self.0),
    {
        let d = self.0;
        proof {
            assert((d >> 52) & 0xF <= 0xF) by (bit_vector);
        }
        ((d >> 52) & 0xF) as u8
    }
}

/// Decoding a freshly encoded descriptor gives back each field, cut to its width:
/// 20 bits of limit, 32 of base, 8 of access and 4 of flags.
pub proof fn lemma_segment_round_trip(limit: u32, base: u32, access: u8, flags: u8)
    ensures
        descriptor_limit(encode_segment(limit, base, access, flags)) == (limit & 0xFFFFF) as u64,
        descriptor_base(encode_segment(limit, base, access, flags)) == base as u64,
        descriptor_access(encode_segment(limit, base, access, flags)) == access as u64,
        descriptor_flags(encode_segment(limit, base, access, flags)) == (flags & 0xF) as u64,
{
    lemma_encode_decode(limit, base, access, flags);
}

/// The present bit of an access byte.
pub open spec fn access_present(access: u64) -> bool {
    (access >> 7) & 1 == 1
}

/// The descriptor privilege level of an access byte.
pub open spec fn access_dpl(access: u64) -> u64 {
    (access >> 5) & 3
}

/// The descriptor-type bit of an access byte: set for code and data segments,
/// clear for system segments such as a task-state segment.
pub open spec fn access_is_code_or_data(access: u64) -> bool {
    (access >> 4) & 1 == 1
}

/// The executable bit of an access byte: set for code, clear for data.
pub open spec fn access_is_code(access: u64) -> bool {
    (access >> 3) & 1 == 1
}

/// The granularity bit of a flags nibble: the limit counts 4 KiB pages.
pub open spec fn flags_granular(flags: u64) -> bool {
    (flags >> 3) & 1 == 1
}

/// A flat segment covering the whole 4 GiB address space at privilege `dpl`,
/// holding code when `code` is set and data otherwise.
pub open spec fn is_flat_segment(d: u64, dpl: u64, code: bool) -> bool {
    &&& descriptor_limit(d) == 0xFFFFF
    &&& descriptor_base(d) == 0
    &&& flags_granular(descriptor_flags(d))
    &&& access_present(descriptor_access(d))
    &&& access_is_code_or_data(descriptor_access(d))
    &&& access_dpl(descriptor_access(d)) == dpl
    &&& access_is_code(descriptor_access(d)) == code
}

/// The selector for table `index` at requested privilege `rpl`, in the local
/// table when `table_indicator` is set.
pub open spec fn selector_value(rpl: int, table_indicator: bool, index: int) -> int {
    index * 8 + (if table_indicator {
        4int
    } else {
        0int
    }) + rpl
}

/// The requested privilege level held in a selector's low two bits.
pub open spec fn selector_rpl(selector: u16) -> u16 {
    selector & 3
}

/// Builds a segment selector from a requested privilege level, a table
/// indicator and a table index.
pub fn selector(rpl: u8, table_indicator: bool, index: u16) -> (r: u16)
    requires
        rpl <= 3,
        index <= 8191,
    ensures
        r as int == selector_value(rpl as int, table_indicator, index as int),
        selector_rpl(r) == rpl as u16,
        r >> 3 == index,
        (r & 4 != 0) == table_indicator,
{
    let ti: u16 = if table_indicator {
        4
    } else {
        0
    };
    let rpl16 = rpl as u16;
    proof {
        assert(index <= 8191 && rpl16 <= 3 && (ti == 0 || ti == 4) ==> {
            &&& (index << 3) | ti | rpl16 == index * 8 + ti + rpl16
            &&& ((index << 3) | ti | rpl16) & 3 == rpl16
            &&& ((index << 3) | ti | rpl16) >> 3 == index
            &&& (((index << 3) | ti | rpl16) & 4 != 0) == (ti == 4)
        }) by (bit_vector);
    }
    (index << 3) | ti | rpl16
}

/// Builds a selector into the global table from a requested privilege level and
/// a table index.
pub fn segment_selector(rpl: u8, index: u16) -> (r: u16)
    requires
        rpl <= 3,
        index <= 8191,
    ensures
        r as int == selector_value(rpl as int, false, index as int),
        selector_rpl(r) == rpl as u16,
        r >> 3 == index,
{
    selector(rpl, false, index)
}

/// The descriptor of an available 32-bit task-state segment at `base` with the
/// given limit.
pub fn tss_descriptor(base: u32, limit: u32) -> (r: GdtEntry)
    ensures
        r.0 == encode_segment(limit, base, TSS_ACCESS, 0),
        descriptor_base(r.0) == base as u64,
        descriptor_limit(r.0) == (limit & 0xFFFFF) as u64,
        descriptor_access(r.0) == TSS_ACCESS as u64,
        descriptor_flags(r.0) == 0,
{
    let access: u8 = TSS_ACCESS;
    let flags: u8 = 0;
    proof {
        assert(0u8 & 0xF == 0) by (bit_vector);
    }
    GdtEntry::new(limit, base, access, flags)
}

/// The global descriptor table: null, kernel code, kernel data, user code,
/// user data and task-state segment, in that order.
pub struct Gdt {
    pub entries: [GdtEntry; 6],
}

impl Gdt {
    /// The flat segments of the four code and data slots, and a null descriptor
    /// in the null slot.
    pub open spec fn has_flat_segments(&self) -> bool {
        &&& self.entries@[0].0 == 0
        &&& is_flat_segment(self.entries@[1].0, 0, true)
        &&& is_flat_segment(self.entries@[2].0, 0, false)
        &&& is_flat_segment(self.entries@[3].0, 3, true)
        &&& is_flat_segment(self.entries@[4].0, 3, false)
    }

    /// A table with the flat kernel and user segments and an empty task-state slot.
    pub fn new() -> (r: Gdt)
        ensures
            r.has_flat_segments(),
            r.entries@[TSS_INDEX as int].0 == 0,
    {
        let limit: u32 = 0xFFFF_FFFF;
        let null = GdtEntry::new(0, 0, 0, 0);
        let kernel_code = GdtEntry::new(limit, 0, KERNEL_CODE_ACCESS, FLAT_FLAGS);
        let kernel_data = GdtEntry::new(limit, 0, KERNEL_DATA_ACCESS, FLAT_FLAGS);
        let user_code = GdtEntry::new(limit, 0, USER_CODE_ACCESS, FLAT_FLAGS);
        let user_data = GdtEntry::new(limit, 0, USER_DATA_ACCESS, FLAT_FLAGS);
        let tss = GdtEntry::new(0, 0, 0, 0);
        proof {
            assert(encode_segment(0, 0, 0, 0) == 0) by (bit_vector);
            assert(0xFFFF_FFFFu32 & 0xFFFFF == 0xFFFFF) by (bit_vector);
            assert(FLAT_FLAGS & 0xF == 0xC) by (bit_vector);
            assert(flags_granular(0xC)) by (bit_vector);
            assert(access_present(0x9A) && access_dpl(0x9A) == 0 && access_is_code_or_data(0x9A)
                && access_is_code(0x9A)) by (bit_vector);
            assert(access_present(0x92) && access_dpl(0x92) == 0 && access_is_code_or_data(0x92)
                && !access_is_code(0x92)) by (bit_vector);
            assert(access_present(0xFA) && access_dpl(0xFA) == 3 && access_is_code_or_data(0xFA)
                && access_is_code(0xFA)) by (bit_vector);
            assert(access_present(0xF2) && access_dpl(0xF2) == 3 && access_is_code_or_data(0xF2)
                && !access_is_code(0xF2)) by (bit_vector);
        }
        Gdt { entries: [null, kernel_code, kernel_data, user_code, user_data, tss] }
    }

    /// Writes the descriptor of the task-state segment at `tss_base` into the
    /// task-state slot: base `tss_base`, limit the record's size minus one; the
    /// other slots are kept.
    pub fn set_tss(&mut self, tss_base: u32)
        ensures
            final(self).entries@ == old(self).entries@.update(
                TSS_INDEX as int,
                GdtEntry(encode_segment((TSS_SIZE - 1) as u32, tss_base, TSS_ACCESS, 0)),
            ),
            descriptor_base(final(self).entries@[TSS_INDEX as int].0) == tss_base as u64,
            descriptor_limit(final(self).entries@[TSS_INDEX as int].0) == (TSS_SIZE - 1) as u64,
            descriptor_access(final(self).entries@[TSS_INDEX as int].0) == TSS_ACCESS as u64,
    {
        let limit = TSS_SIZE - 1;
        let entry = tss_descriptor(tss_base, limit);
        proof {
            assert(103u32 & 0xFFFFF == 103) by (bit_vector);
        }
        self.entries[TSS_INDEX as usize] = entry;
    }

    /// The raw descriptors, in table order, as the processor reads them.
    pub fn raw(&self) -> (r: [u64; 6])
        ensures
            forall|i: int| 0 <= i < 6 ==> r@[i] == self.entries@[i].0,
    {
        [
            self.entries[0].0,
            self.entries[1].0,
            self.entries[2].0,
            self.entries[3].0,
            self.entries[4].0,
            self.entries[5].0,
        ]
    }
}

/// The kernel selectors request privilege level 0 and the user selectors level 3;
/// each selector names its own slot of the table.
pub proof fn lemma_selectors()
    ensures
        selector_rpl(KERNEL_CODE_SEGMENT_SELECTOR) == 0,
        selector_rpl(KERNEL_DATA_SEGMENT_SELECTOR) == 0,
        selector_rpl(USER_CODE_SEGMENT_SELECTOR) == 3,
        selector_rpl(USER_DATA_SEGMENT_SELECTOR) == 3,
        KERNEL_CODE_SEGMENT_SELECTOR as int == selector_value(0, false, KERNEL_CODE_INDEX as int),
        KERNEL_DATA_SEGMENT_SELECTOR as int == selector_value(0, false, KERNEL_DATA_INDEX as int),
        USER_CODE_SEGMENT_SELECTOR as int == selector_value(3, false, USER_CODE_INDEX as int),
        USER_DATA_SEGMENT_SELECTOR as int == selector_value(3, false, USER_DATA_INDEX as int),
        TSS_SEGMENT_SELECTOR as int == selector_value(0, false, TSS_INDEX as int),
{
    assert(0x08u16 & 3 == 0 && 0x10u16 & 3 == 0 && 0x1Bu16 & 3 == 3 && 0x23u16 & 3 == 3)
        by (bit_vector);
}

} // verus!
