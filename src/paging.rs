use vstd::prelude::*;

verus! {

pub const PAGE_PRESENT: u32 = 1;

pub const PAGE_WRITABLE: u32 = 2;

pub const PAGE_USER: u32 = 4;

/// Size in bytes of one page, and the alignment of every table.
pub const PAGE_SIZE: u32 = 0x1000;

/// Number of entries in a page table or page directory.
pub const PAGE_TABLE_ENTRIES: usize = 1024;

/// Bytes covered by the one page table: the identity-mapped region.
pub const IDENTITY_MAPPED_BYTES: u32 = 0x40_0000;

/// The paging-enable bit of the mode control register.
pub const PAGING_ENABLE: u32 = 0x8000_0000;

/// A page-table or page-directory entry: a 4 KiB-aligned frame address and 12
/// bits of flags.
#[derive(Clone, Copy, Debug, PartialEq, Eq, Structural)]
pub struct PageEntry(pub u32);

/// The frame address an entry holds.
pub open spec fn entry_frame(e: PageEntry) -> u32 {
    e.0 & 0xFFFF_F000
}

/// The flag bits an entry holds.
pub open spec fn entry_flags(e: PageEntry) -> u32 {
    e.0 & 0xFFF
}

impl PageEntry {
    /// An entry for the frame holding `addr`, with `flags` cut to 12 bits.
    pub fn new(addr: u32, flags: u32) -> (r: PageEntry)
        ensures
            r.0 == (addr & 0xFFFF_F000) | (flags & 0xFFF),
            entry_frame(r) == addr & 0xFFFF_F000,
            entry_flags(r) == flags & 0xFFF,
    {
        proof {
            assert(((addr & 0xFFFF_F000) | (flags & 0xFFF)) & 0xFFFF_F000 == addr & 0xFFFF_F000)
                by (bit_vector);
            assert(((addr & 0xFFFF_F000) | (flags & 0xFFF)) & 0xFFF == flags & 0xFFF)
                by (bit_vector);
        }
        PageEntry((addr & 0xFFFF_F000) | (flags & 0xFFF))
    }
}

/// The identity-mapping table: entry `i` maps page `i` to frame `i`, present
/// and writable.
pub open spec fn is_identity_table(t: Seq<PageEntry>) -> bool {
    &&& t.len() == PAGE_TABLE_ENTRIES
    &&& forall|i: int|
        0 <= i < PAGE_TABLE_ENTRIES ==> (#[trigger] t[i]).0 == ((i as u32) << 12u32) | 3
}

/// A directory whose first entry points, present and writable, at the table at
/// `table_address`, and whose other entries are not present.
pub open spec fn is_single_table_directory(d: Seq<PageEntry>, table_address: u32) -> bool {
    &&& d.len() == PAGE_TABLE_ENTRIES
    &&& d[0].0 == table_address | 3
    &&& forall|i: int| 1 <= i < PAGE_TABLE_ENTRIES ==> (#[trigger] d[i]).0 == 0
}

/// The directory slot a virtual address goes through.
pub open spec fn directory_index(vaddr: u32) -> u32 {
    vaddr >> 22
}

/// The table slot a virtual address goes through.
pub open spec fn table_index(vaddr: u32) -> u32 {
    (vaddr >> 12) & 0x3FF
}

/// What the processor makes of `vaddr` given a directory and the page tables
/// in memory, keyed by physical address: the physical address and the page
/// entry's flags, or `None` where the address is not mapped.
pub open spec fn translate(directory: Seq<PageEntry>, tables: Map<u32, Seq<PageEntry>>, vaddr: u32) -> Option<(u32, u32)> {
    let pde = directory[directory_index(vaddr) as int];
    if pde.0 & PAGE_PRESENT == 0 || !tables.contains_key(entry_frame(pde)) {
        None
    } else {
        let pte = tables[entry_frame(pde)][table_index(vaddr) as int];
        if pte.0 & PAGE_PRESENT == 0 {
            None
        } else {
            Some((entry_frame(pte) | (vaddr & 0xFFF), entry_flags(pte)))
        }
    }
}

/// A page table or page directory: 1024 entries.
pub struct PageTable {
    entries: Vec<PageEntry>,
}

impl View for PageTable {
    type V = Seq<PageEntry>;

    closed spec fn view(&self) -> Seq<PageEntry> {
        self.entries@
    }
}

impl PageTable {
    /// The table that maps the first 4 MiB onto themselves, present and writable.
    pub fn identity_map() -> (r: PageTable)
        ensures
            is_identity_table(r@),
    {
        let mut entries: Vec<PageEntry> = Vec::new();
        let mut i: usize = 0;
        while i < PAGE_TABLE_ENTRIES
            invariant
                i <= PAGE_TABLE_ENTRIES,
                entries@.len() == i,
                forall|j: int| 0 <= j < i ==> (#[trigger] entries@[j]).0 == ((j as u32) << 12u32) | 3,
            decreases PAGE_TABLE_ENTRIES - i,
        {
            let k = i as u32;
            let e = PageEntry::new(k * PAGE_SIZE, PAGE_PRESENT | PAGE_WRITABLE);
            proof {
                assert(k < 1024 ==> ((((k * 0x1000) as u32)) & 0xFFFF_F000) | ((1u32 | 2u32) & 0xFFF) == (k << 12u32) | 3)
                    by (bit_vector);
            }
            entries.push(e);
            i = i + 1;
        }
        PageTable { entries }
    }

    /// The directory whose only present entry points at the table at
    /// `table_address`, present and writable.
    pub fn single_table_directory(table_address: u32) -> (r: PageTable)
        requires
            table_address % PAGE_SIZE == 0,
        ensures
            is_single_table_directory(r@, table_address),
    {
        let mut entries: Vec<PageEntry> = Vec::new();
        let first = PageEntry::new(table_address, PAGE_PRESENT | PAGE_WRITABLE);
        proof {
            assert(table_address % 0x1000 == 0 ==> ((table_address & 0xFFFF_F000) | ((1u32 | 2u32)
                & 0xFFF)) == table_address | 3) by (bit_vector);
        }
        entries.push(first);
        let mut i: usize = 1;
        while i < PAGE_TABLE_ENTRIES
            invariant
                1 <= i <= PAGE_TABLE_ENTRIES,
                entries@.len() == i,
                entries@[0].0 == table_address | 3,
                forall|j: int| 1 <= j < i ==> (#[trigger] entries@[j]).0 == 0,
            decreases PAGE_TABLE_ENTRIES - i,
        {
            entries.push(PageEntry(0));
            i = i + 1;
        }
        PageTable { entries }
    }

    /// The entry at slot `i`.
    pub fn entry(&self, i: usize) -> (r: PageEntry)
        requires
            i < self@.len(),
        ensures
            r == self@[i as int],
    {
        self.entries[i]
    }

    /// The entries as the 32-bit words the processor reads.
    pub fn raw(&self) -> (r: Vec<u32>)
        ensures
            r@.len() == self@.len(),
            forall|i: int| 0 <= i < self@.len() ==> r@[i] == (#[trigger] self@[i]).0,
    {
        let mut out: Vec<u32> = Vec::new();
        let mut i: usize = 0;
        while i < self.entries.len()
            invariant
                i <= self@.len(),
                self.entries@ == self@,
                out@.len() == i,
                forall|j: int| 0 <= j < i ==> out@[j] == (#[trigger] self@[j]).0,
            decreases self@.len() - i,
        {
            out.push(self.entries[i].0);
            i = i + 1;
        }
        out
    }
}

/// Walks `directory` and the one page table `table`, stored at `table_address`,
/// for `vaddr`, as the processor does.
pub fn translate_address(directory: &PageTable, table_address: u32, table: &PageTable, vaddr: u32) -> (r: Option<(u32, u32)>)
    requires
        directory@.len() == PAGE_TABLE_ENTRIES,
        table@.len() == PAGE_TABLE_ENTRIES,
    ensures
        r == translate(directory@, map![table_address => table@], vaddr),
{
    proof {
        assert(vaddr >> 22 < 1024) by (bit_vector);
        assert((vaddr >> 12) & 0x3FF < 1024) by (bit_vector);
    }
    let pde = directory.entry((vaddr >> 22) as usize);
    if pde.0 & PAGE_PRESENT == 0 || pde.0 & 0xFFFF_F000 != table_address {
        return None;
    }
    let pte = table.entry(((vaddr >> 12) & 0x3FF) as usize);
    if pte.0 & PAGE_PRESENT == 0 {
        None
    } else {
        Some(((pte.0 & 0xFFFF_F000) | (vaddr & 0xFFF), pte.0 & 0xFFF))
    }
}

/// The mode control register value that turns paging on, keeping every other bit.
pub fn paging_enabled_cr0(cr0: u32) -> (r: u32)
    ensures
        r == cr0 | PAGING_ENABLE,
        r & PAGING_ENABLE != 0,
{
    proof {
        assert((cr0 | 0x8000_0000) & 0x8000_0000 != 0) by (bit_vector);
    }
    cr0 | PAGING_ENABLE
}

/// With the single-table directory and the identity table installed, every
/// address below 4 MiB maps to itself, present and writable, and every address
/// from 4 MiB up is unmapped.
pub proof fn lemma_identity_mapping(directory: Seq<PageEntry>, table_address: u32, table: Seq<PageEntry>, vaddr: u32)
    requires
        table_address % PAGE_SIZE == 0,
        is_single_table_directory(directory, table_address),
        is_identity_table(table),
    ensures
        vaddr < IDENTITY_MAPPED_BYTES ==> translate(directory, map![table_address => table], vaddr)
            == Some((vaddr, PAGE_PRESENT | PAGE_WRITABLE)),
        vaddr >= IDENTITY_MAPPED_BYTES ==> translate(directory, map![table_address => table], vaddr)
            is None,
{
    let tables = map![table_address => table];
    if vaddr < IDENTITY_MAPPED_BYTES {
        assert(vaddr < 0x40_0000 ==> vaddr >> 22 == 0) by (bit_vector);
        assert(table_address % 0x1000 == 0 ==> (table_address | 3) & 1 != 0
            && (table_address | 3) & 0xFFFF_F000 == table_address) by (bit_vector);
        assert(tables.contains_key(table_address));
        let i = table_index(vaddr);
        assert((vaddr >> 12) & 0x3FF < 1024) by (bit_vector);
        assert(table[i as int].0 == ((i as u32) << 12u32) | 3);
        assert(vaddr < 0x40_0000 ==> {
            let k = (vaddr >> 12) & 0x3FF;
            &&& ((k << 12u32) | 3) & 1 != 0
            &&& (((k << 12u32) | 3) & 0xFFFF_F000) | (vaddr & 0xFFF) == vaddr
            &&& ((k << 12u32) | 3) & 0xFFF == 3
        }) by (bit_vector);
        assert(PAGE_PRESENT | PAGE_WRITABLE == 3) by (bit_vector);
    } else {
        let d = directory_index(vaddr);
        assert(vaddr >= 0x40_0000 ==> vaddr >> 22 >= 1 && vaddr >> 22 < 1024) by (bit_vector);
        assert(directory[d as int].0 == 0);
        assert(0u32 & 1 == 0) by (bit_vector);
    }
}

} // verus!
