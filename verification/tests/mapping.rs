use learnix::common::address_types::{PhysicalAddress, VirtualAddress};
use learnix::common::enums::PageSize;
use learnix::x86::entry_flags::PageEntryFlags;
use learnix::x86::page_table::PageTable;
use learnix::x86::page_table_entry::PageTableEntry;
use learnix::x86::walk::KernelTables;

fn entry(frame: u64, flags: PageEntryFlags) -> PageTableEntry {
    let mut e = PageTableEntry::new();
    e.map_unchecked(PhysicalAddress::new_unchecked(frame), flags);
    e
}

// Root at 0x1000 -> 0x2000 -> 0x3000 -> 0x4000, whose entry 5 maps 0x9000.
fn memory() -> KernelTables {
    let mut root = PageTable::empty();
    root.entries[0] = entry(0x2000, PageEntryFlags::table_flags());
    let mut l3 = PageTable::empty();
    l3.entries[0] = entry(0x3000, PageEntryFlags::table_flags());
    let mut l2 = PageTable::empty();
    l2.entries[0] = entry(0x4000, PageEntryFlags::table_flags());
    let mut l1 = PageTable::empty();
    l1.entries[5] = entry(0x9000, PageEntryFlags::regular_page_flags());
    KernelTables { tables: vec![(0x1000, root), (0x2000, l3), (0x3000, l2), (0x4000, l1)] }
}

fn pa(a: u64) -> PhysicalAddress {
    PhysicalAddress::new_unchecked(a)
}

#[test]
fn mapping_levels_per_page_size() {
    assert_eq!(PageSize::Regular.mapping_table(), 3);
    assert_eq!(PageSize::Big.mapping_table(), 2);
    assert_eq!(PageSize::Huge.mapping_table(), 1);
}

#[test]
fn map_into_existing_tables() {
    let mut m = memory();
    let mut fresh: Vec<u64> = vec![];
    let va = VirtualAddress::new_unchecked(6 * 0x1000 + 0x10);
    assert!(va.translate(&m, 0x1000).is_none());
    assert!(va.map(&mut m, 0x1000, pa(0xa000), None, PageSize::Regular, &mut fresh).is_ok());
    assert_eq!(va.translate(&m, 0x1000).unwrap().as_u64(), 0xa010);
    assert_eq!(m.tables.len(), 4);
    // The page next to it keeps its frame.
    assert_eq!(VirtualAddress::new_unchecked(5 * 0x1000).translate(&m, 0x1000).unwrap().as_u64(), 0x9000);
}

#[test]
fn map_makes_missing_tables() {
    let mut m = memory();
    let mut fresh: Vec<u64> = vec![0x7000, 0x6000, 0x5000, 0x8000];
    let va = VirtualAddress::new_unchecked((1 << 39) + 0x2a);
    assert_eq!(va.walk(&m, 0x1000).len(), 1);
    assert!(va.map(&mut m, 0x1000, pa(0xb000), None, PageSize::Regular, &mut fresh).is_ok());
    // Three tables were made, from the end of `fresh`.
    assert_eq!(fresh, vec![0x7000]);
    assert_eq!(m.tables.len(), 7);
    assert_eq!((m.tables[4].0, m.tables[5].0, m.tables[6].0), (0x8000, 0x5000, 0x6000));
    assert_eq!(m.tables[0].1.entries[1].as_u64(), 0x8000 | 0x403);
    assert_eq!(va.walk(&m, 0x1000).len(), 4);
    assert_eq!(va.translate(&m, 0x1000).unwrap().as_u64(), 0xb02a);
}

#[test]
fn map_keeps_a_present_entry() {
    let mut m = memory();
    let mut fresh: Vec<u64> = vec![];
    let va = VirtualAddress::new_unchecked(5 * 0x1000);
    assert!(va.map(&mut m, 0x1000, pa(0xa000), None, PageSize::Regular, &mut fresh).is_ok());
    assert_eq!(va.translate(&m, 0x1000).unwrap().as_u64(), 0x9000);
}

#[test]
fn map_ignores_an_unaligned_frame() {
    let mut m = memory();
    let mut fresh: Vec<u64> = vec![];
    let va = VirtualAddress::new_unchecked(7 * 0x1000);
    assert!(va.map(&mut m, 0x1000, pa(0xa001), None, PageSize::Regular, &mut fresh).is_ok());
    assert!(va.translate(&m, 0x1000).is_none());
}

#[test]
fn map_big_page_with_default_flags() {
    let mut m = memory();
    let mut fresh: Vec<u64> = vec![];
    let va = VirtualAddress::new_unchecked(2 * 0x20_0000);
    assert!(va.map(&mut m, 0x1000, pa(0x20_0000), None, PageSize::Big, &mut fresh).is_ok());
    assert_eq!(m.tables[2].1.entries[2].as_u64(), 0x20_0000 | 0x83);
    let inside = VirtualAddress::new_unchecked(2 * 0x20_0000 + 0x1234);
    assert_eq!(inside.translate(&m, 0x1000).unwrap().as_u64(), 0x20_1234);
}

#[test]
fn map_with_given_flags() {
    let mut m = memory();
    let mut fresh: Vec<u64> = vec![];
    let va = VirtualAddress::new_unchecked(8 * 0x1000);
    let flags = PageEntryFlags::regular_io_page_flags();
    assert!(va.map(&mut m, 0x1000, pa(0xc000), Some(flags), PageSize::Regular, &mut fresh).is_ok());
    assert_eq!(m.tables[3].1.entries[8].as_u64(), 0xc000 | flags.as_u16() as u64 | 1);
}
