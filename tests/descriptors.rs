use ark::gdt::{
    segment_selector, selector, tss_descriptor, Gdt, GdtEntry, KERNEL_CODE_SEGMENT_SELECTOR,
    KERNEL_DATA_SEGMENT_SELECTOR, TSS_ACCESS, TSS_INDEX, TSS_SEGMENT_SELECTOR,
    USER_CODE_SEGMENT_SELECTOR, USER_DATA_SEGMENT_SELECTOR,
};
use ark::tss::{kernel_stack_top, Tss, KERNEL_STACK_SIZE, NO_IO_BITMAP, TSS_SIZE};

#[test]
fn segment_round_trip_masks_each_field() {
    let cases: [(u32, u32, u8, u8); 5] = [
        (0, 0, 0, 0),
        (0xFFFF_FFFF, 0, 0x9A, 0xC),
        (0x12345, 0xDEAD_BEEF, 0x89, 0xFF),
        (0xABCDE, 0x0012_3456, 0xF2, 0x3),
        (0xFFFF_FFFF, 0xFFFF_FFFF, 0xFF, 0xFF),
    ];
    for (limit, base, access, flags) in cases {
        let e = GdtEntry::new(limit, base, access, flags);
        assert_eq!(e.limit(), limit & 0xFFFFF);
        assert_eq!(e.base(), base);
        assert_eq!(e.access(), access);
        assert_eq!(e.flags(), flags & 0xF);
    }
}

#[test]
fn segment_bit_layout() {
    // Flat ring-0 code segment: the well-known 0x00CF9A000000FFFF.
    assert_eq!(GdtEntry::new(0xFFFF_FFFF, 0, 0x9A, 0xC).0, 0x00CF_9A00_0000_FFFF);
    // Base bytes land in bits 16..40 and 56..64.
    assert_eq!(GdtEntry::new(0, 0x1234_5678, 0, 0).0, 0x1200_0034_5678_0000);
    assert_eq!(GdtEntry::new(0, 0, 0, 0).0, 0);
}

#[test]
fn selector_formula() {
    for rpl in 0u8..4 {
        for ti in [false, true] {
            for index in [0u16, 1, 2, 5, 100, 4095, 8191] {
                let expected = index as u32 * 8 + if ti { 4 } else { 0 } + rpl as u32;
                assert_eq!(selector(rpl, ti, index) as u32, expected);
            }
        }
    }
    assert_eq!(segment_selector(0, 1), KERNEL_CODE_SEGMENT_SELECTOR);
    assert_eq!(segment_selector(0, 2), KERNEL_DATA_SEGMENT_SELECTOR);
    assert_eq!(segment_selector(3, 3), USER_CODE_SEGMENT_SELECTOR);
    assert_eq!(segment_selector(3, 4), USER_DATA_SEGMENT_SELECTOR);
    assert_eq!(segment_selector(0, 5), TSS_SEGMENT_SELECTOR);
    assert_eq!(selector(3, true, 8191), 0xFFFF);
}

#[test]
fn kernel_segments_are_flat_ring_zero() {
    let gdt = Gdt::new();
    assert_eq!(gdt.entries[0].0, 0);
    for (i, code, dpl) in [(1usize, true, 0u8), (2, false, 0), (3, true, 3), (4, false, 3)] {
        let e = gdt.entries[i];
        assert_eq!(e.limit(), 0xFFFFF);
        assert_eq!(e.base(), 0);
        assert!(e.flags() & 0x8 != 0, "granularity");
        assert!(e.access() & 0x80 != 0, "present");
        assert!(e.access() & 0x10 != 0, "code or data");
        assert_eq!((e.access() >> 5) & 3, dpl);
        assert_eq!(e.access() & 0x08 != 0, code);
    }
    assert_eq!(gdt.raw()[1], 0x00CF_9A00_0000_FFFF);
    assert_eq!(gdt.raw()[2], 0x00CF_9200_0000_FFFF);
}

#[test]
fn tss_descriptor_matches_record() {
    let mut gdt = Gdt::new();
    let tss_address: u32 = 0x0010_2040;
    gdt.set_tss(tss_address);
    let e = gdt.entries[TSS_INDEX as usize];
    assert_eq!(e.base(), tss_address);
    assert_eq!(e.limit(), TSS_SIZE - 1);
    assert_eq!(e.limit(), 103);
    assert_eq!(e.access(), TSS_ACCESS);
    assert_eq!(e.flags(), 0);
    assert_eq!(tss_descriptor(0xC000_1000, 103).base(), 0xC000_1000);
    // Other slots untouched.
    assert_eq!(gdt.entries[1], Gdt::new().entries[1]);
}

#[test]
fn tss_record_and_kernel_stack() {
    let mut tss = Tss::new();
    assert_eq!(tss.io_map_base, NO_IO_BITMAP);
    assert_eq!(tss.ss0, KERNEL_DATA_SEGMENT_SELECTOR);
    assert_eq!(tss.esp0, 0);
    let top = kernel_stack_top(0x0020_0000);
    assert_eq!(top, 0x0020_0000 + KERNEL_STACK_SIZE);
    tss.set_kernel_stack(top);
    assert_eq!(tss.esp0, 0x0020_1000);
    assert_eq!(tss.ss0, KERNEL_DATA_SEGMENT_SELECTOR);
    assert_eq!(tss.io_map_base, NO_IO_BITMAP);
    assert_eq!(tss.esp1, 0);
}

#[test]
fn tss_words_layout() {
    let mut tss = Tss::new();
    tss.set_kernel_stack(0x0020_1000);
    let w = tss.words();
    assert_eq!(w.len() as u32 * 4, TSS_SIZE);
    assert_eq!(w[0], 0);
    assert_eq!(w[1], 0x0020_1000);
    assert_eq!(w[2], KERNEL_DATA_SEGMENT_SELECTOR as u32);
    assert_eq!(w[25], 0xFFFF_0000);
}
