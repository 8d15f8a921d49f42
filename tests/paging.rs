use ark::paging::{
    paging_enabled_cr0, translate_address, PageEntry, PageTable, IDENTITY_MAPPED_BYTES,
    PAGE_PRESENT, PAGE_WRITABLE,
};

#[test]
fn page_entry_masks_address_and_flags() {
    assert_eq!(PageEntry::new(0x1234_5678, 0x3).0, 0x1234_5003);
    assert_eq!(PageEntry::new(0x1000, 0xFFFF_FFFF).0, 0x1FFF);
    assert_eq!(PageEntry::new(0, 0).0, 0);
}

#[test]
fn identity_map_below_four_mib() {
    let table = PageTable::identity_map();
    let table_address: u32 = 0x0030_0000;
    let directory = PageTable::single_table_directory(table_address);
    assert_eq!(directory.entry(0).0, table_address | 3);
    assert_eq!(directory.entry(1).0, 0);
    assert_eq!(table.entry(5).0, 0x5003);
    let flags = PAGE_PRESENT | PAGE_WRITABLE;
    for vaddr in [0u32, 1, 0xFFF, 0x1000, 0x12_3456, 0x3F_FFFF, IDENTITY_MAPPED_BYTES - 1] {
        assert_eq!(translate_address(&directory, table_address, &table, vaddr), Some((vaddr, flags)));
    }
    let mut vaddr: u32 = 0;
    while vaddr < IDENTITY_MAPPED_BYTES {
        assert_eq!(translate_address(&directory, table_address, &table, vaddr), Some((vaddr, flags)));
        vaddr += 0x777;
    }
}

#[test]
fn unmapped_from_four_mib_up() {
    let table = PageTable::identity_map();
    let table_address: u32 = 0x0030_0000;
    let directory = PageTable::single_table_directory(table_address);
    for vaddr in [IDENTITY_MAPPED_BYTES, 0x40_0001, 0x80_0000, 0xB800_0000, 0xFFFF_FFFF] {
        assert_eq!(translate_address(&directory, table_address, &table, vaddr), None);
    }
}

#[test]
fn raw_tables_and_cr0() {
    let table = PageTable::identity_map();
    let raw = table.raw();
    assert_eq!(raw.len(), 1024);
    assert_eq!(raw[0], 3);
    assert_eq!(raw[1023], 0x3F_F003);
    assert_eq!(paging_enabled_cr0(0x11), 0x8000_0011);
    assert_eq!(paging_enabled_cr0(0x8000_0001), 0x8000_0001);
}
