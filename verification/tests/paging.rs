use learnix::boot::paging::{
    fill_identity_tables, PageEntryFlags as BootFlags, PageTable as BootTable,
    PageTableEntry as BootEntry, TableMemory,
};
use learnix::common::address_types::{PhysicalAddress, VirtualAddress};
use learnix::common::enums::{PageSize, PageTableLevel};
use learnix::common::error::{EntryError, TableError};
use learnix::x86::entry_flags::PageEntryFlags;
use learnix::x86::page_table::{init_identity_tables, init_kernel_tables, EntryIndex, PageTable};
use learnix::x86::page_table_entry::PageTableEntry;
use learnix::x86::walk::KernelTables;

fn boot_table_entry(frame: u64) -> BootEntry {
    let mut e = BootEntry::empty();
    e.map_unchecked(PhysicalAddress::new_unchecked(frame), BootFlags::table_flags());
    e
}

fn boot_page_entry(frame: u64) -> BootEntry {
    let mut e = BootEntry::empty();
    e.map_unchecked(PhysicalAddress::new_unchecked(frame), BootFlags::regular_page_flags());
    e
}

#[test]
fn boot_flag_combinations() {
    assert_eq!(BootFlags::table_flags().as_u64(), 0x403);
    assert_eq!(BootFlags::huge_page_flags().as_u64(), 0x83);
    assert_eq!(BootFlags::regular_page_flags().as_u64(), 0x3);
    assert_eq!(BootFlags::new().set_chain_not_executable().as_u64(), 1 << 63);
}

#[test]
fn boot_entry_map_and_mapped() {
    let mut e = BootEntry::empty();
    assert_eq!(e.mapped().unwrap_err(), EntryError::NoMapping);
    e.map(PhysicalAddress::new_unchecked(0x5000), BootFlags::regular_page_flags());
    assert!(e.present());
    assert_eq!(e.as_u64(), 0x5003);
    assert_eq!(e.mapped().unwrap().as_u64(), 0x5000);
    // A second map of a present entry changes nothing.
    e.map(PhysicalAddress::new_unchecked(0x9000), BootFlags::regular_page_flags());
    assert_eq!(e.as_u64(), 0x5003);
}

#[test]
fn boot_entry_map_refuses_unaligned_frame() {
    let mut e = BootEntry::empty();
    e.map(PhysicalAddress::new_unchecked(0x5010), BootFlags::regular_page_flags());
    assert_eq!(e.as_u64(), 0);
}

#[test]
fn boot_set_flags_keeps_address() {
    let mut e = boot_page_entry(0x7000);
    e.set_flags(BootFlags::table_flags());
    assert_eq!(e.as_u64(), 0x7000 | 0x403);
}

#[test]
fn boot_mapped_table_errors() {
    let memory = TableMemory { tables: vec![(0x2000, BootTable::empty())] };
    assert_eq!(BootEntry::empty().mapped_table(&memory).unwrap_err(), EntryError::NoMapping);
    assert_eq!(boot_page_entry(0x2000).mapped_table(&memory).unwrap_err(), EntryError::NotATable);
    assert!(boot_table_entry(0x2000).mapped_table(&memory).is_ok());
}

#[test]
fn find_available_page_in_empty_root() {
    let memory = TableMemory { tables: vec![(0x1000, BootTable::empty())] };
    let page = BootTable::find_available_page(&memory, 0x1000, PageSize::Regular).unwrap();
    assert_eq!(page.as_u64(), 0);
}

#[test]
fn find_available_page_descends_into_tables() {
    // Root entry 0 points at a third-level table whose entry 0 maps a huge
    // page and whose entry 1 is free.
    let mut root = BootTable::empty();
    root.entries[0] = boot_table_entry(0x2000);
    let mut l3 = BootTable::empty();
    l3.entries[0] = boot_page_entry(0x4000_0000);
    let memory = TableMemory { tables: vec![(0x1000, root), (0x2000, l3)] };
    let page = BootTable::find_available_page(&memory, 0x1000, PageSize::Regular).unwrap();
    assert_eq!(page.as_u64(), 1 << 30);
}

#[test]
fn find_available_page_skips_tables_a_huge_page_cannot_use() {
    // A huge page does not fit below a third-level entry that points to a
    // table, so the search goes on with the next third-level entry.
    let mut root = BootTable::empty();
    root.entries[0] = boot_table_entry(0x2000);
    let mut l3 = BootTable::empty();
    l3.entries[0] = boot_table_entry(0x3000);
    let memory =
        TableMemory { tables: vec![(0x1000, root), (0x2000, l3), (0x3000, BootTable::empty())] };
    let huge = BootTable::find_available_page(&memory, 0x1000, PageSize::Huge).unwrap();
    assert_eq!(huge.as_u64(), 1 << 30);
    let regular = BootTable::find_available_page(&memory, 0x1000, PageSize::Regular).unwrap();
    assert_eq!(regular.as_u64(), 0);
}

#[test]
fn find_available_page_is_aligned_to_its_size() {
    // Root 0 -> third-level table, its entry 0 -> second-level table, whose
    // entry 0 -> first-level table with its first entry used.
    let mut root = BootTable::empty();
    root.entries[0] = boot_table_entry(0x2000);
    let mut l3 = BootTable::empty();
    l3.entries[0] = boot_table_entry(0x3000);
    let mut l2 = BootTable::empty();
    l2.entries[0] = boot_table_entry(0x4000);
    let mut l1 = BootTable::empty();
    l1.entries[0] = boot_page_entry(0x9000);
    let memory = TableMemory {
        tables: vec![(0x1000, root), (0x2000, l3), (0x3000, l2), (0x4000, l1)],
    };
    let regular = BootTable::find_available_page(&memory, 0x1000, PageSize::Regular).unwrap();
    assert_eq!(regular.as_u64(), 0x1000);
    assert!(regular.is_aligned(PageSize::Regular.alignment()));
    // A big page cannot sit below the second-level entry that points to a
    // table, so it goes at the next one, on a 2 MiB boundary.
    let big = BootTable::find_available_page(&memory, 0x1000, PageSize::Big).unwrap();
    assert_eq!(big.as_u64(), 0x20_0000);
    assert!(big.is_aligned(PageSize::Big.alignment()));
    let huge = BootTable::find_available_page(&memory, 0x1000, PageSize::Huge).unwrap();
    assert_eq!(huge.as_u64(), 0x4000_0000);
    assert!(huge.is_aligned(PageSize::Huge.alignment()));
}

#[test]
fn find_available_page_full() {
    let mut root = BootTable::empty();
    for i in 0..512 {
        root.entries[i] = boot_page_entry(0x1000 * (i as u64 + 1));
    }
    let memory = TableMemory { tables: vec![(0x1000, root)] };
    assert_eq!(
        BootTable::find_available_page(&memory, 0x1000, PageSize::Regular).unwrap_err(),
        TableError::Full
    );
}

#[test]
fn boot_identity_tables() {
    let mut t = [BootTable::empty(); 5];
    let [mut l4, mut l3, mut l2, mut tl3, mut tl2] = t;
    fill_identity_tables(&mut l4, &mut l3, &mut l2, &mut tl3, &mut tl2, 0xa000, 0xb000, 0xc000, 0xd000);
    assert_eq!(l4.entries[0].as_u64(), 0xa000 | 0x403);
    assert_eq!(l4.entries[256].as_u64(), 0xc000 | 0x403);
    assert_eq!(l4.entries[1].as_u64(), 0);
    assert_eq!(l3.entries[0].as_u64(), 0xb000 | 0x403);
    assert_eq!(tl3.entries[0].as_u64(), 0xd000 | 0x403);
    assert_eq!(l2.entries[3].as_u64(), 3 * 0x20_0000 | 0x83);
    assert_eq!(tl2.entries[511].as_u64(), 511 * 0x20_0000 | 0x83);
    t[0] = l4;
    assert_eq!(t[0].entries[0].as_u64(), 0xa000 | 0x403);
}

#[test]
fn entry_flag_combinations() {
    assert_eq!(PageEntryFlags::table_flags().as_u16(), 0x403);
    assert_eq!(PageEntryFlags::huge_page_flags().as_u16(), 0x83);
    assert_eq!(PageEntryFlags::regular_page_flags().as_u16(), 0x3);
    assert_eq!(PageEntryFlags::regular_io_page_flags().as_u16(), 0x113);
    assert_eq!(PageEntryFlags::huge_io_page_flags().as_u16(), 0x193);
}

#[test]
fn entry_map_sets_present_and_keeps_no_execute() {
    let mut e = PageTableEntry::new();
    e.set_not_executable(true);
    e.map(PhysicalAddress::new_unchecked(0x3000), PageEntryFlags::new().writable(true));
    assert_eq!(e.as_u64(), (1 << 63) | 0x3000 | 0x3);
    assert_eq!(e.mapped().unwrap().as_u64(), 0x3000);
    assert!(e.is_not_executable());
}

#[test]
fn entry_mapped_table_errors() {
    let e = PageTableEntry::new();
    assert_eq!(e.mapped_table().unwrap_err(), EntryError::NoMapping);
    let mut page = PageTableEntry::new();
    page.map_unchecked(PhysicalAddress::new_unchecked(0x20_0000), PageEntryFlags::huge_page_flags());
    assert_eq!(page.mapped_table().unwrap_err(), EntryError::NotATable);
    let mut table = PageTableEntry::new();
    table.map_unchecked(PhysicalAddress::new_unchecked(0x5000), PageEntryFlags::table_flags());
    assert_eq!(table.mapped_table().unwrap().as_u64(), 0xffff_8000_0000_5000);
}

#[test]
fn entry_fields() {
    let mut e = PageTableEntry::from_bits(0xfff);
    e.set_address(PhysicalAddress::new_unchecked(0x1234_5000));
    assert_eq!(e.get_address().as_u64(), 0x1234_5000);
    assert_eq!(e.get_flags().as_u16(), 0xfff);
    e.clear_flags();
    assert_eq!(e.as_u64(), 0x1234_5000);
}

#[test]
fn try_fetch_table_results() {
    let mut t = PageTable::empty();
    let mut huge = PageTableEntry::new();
    huge.map_unchecked(PhysicalAddress::new_unchecked(0x20_0000), PageEntryFlags::huge_page_flags());
    let mut table = PageTableEntry::new();
    table.map_unchecked(PhysicalAddress::new_unchecked(0x7000), PageEntryFlags::table_flags());
    t.entries[0] = huge;
    t.entries[1] = table;
    assert!(matches!(t.try_fetch_table(0, false), EntryIndex::PageDoesNotFit));
    assert!(matches!(t.try_fetch_table(0, true), EntryIndex::Entry(e) if e.as_u64() == table.as_u64()));
    assert!(matches!(t.try_fetch_table(2, true), EntryIndex::Index(2)));
    let mut full = PageTable::empty();
    for i in 0..512 {
        full.entries[i] = huge;
    }
    assert!(matches!(full.try_fetch_table(0, true), EntryIndex::OutOfEntries));
}

#[test]
fn identity_and_kernel_tables() {
    let mut l4 = PageTable::empty();
    let mut l3 = PageTable::empty();
    let mut l2 = PageTable::empty();
    assert!(init_identity_tables(&mut l4, &mut l3, &mut l2, 0x1000, 0x2000, 0x3000));
    assert_eq!(l4.entries[0].as_u64(), 0x2000 | 0x403);
    assert_eq!(l3.entries[0].as_u64(), 0x3000 | 0x403);
    assert_eq!(l2.entries[0].as_u64(), 0x83);
    let mut tl3 = PageTable::empty();
    let mut tl2 = PageTable::empty();
    assert!(init_kernel_tables(&mut l4, &mut tl3, &mut tl2, 0x4000, 0x5000));
    assert_eq!(l4.entries[256].as_u64(), 0x4000 | 0x403);
    assert_eq!(l4.entries[0].as_u64(), 0x2000 | 0x403);
    assert_eq!(tl3.entries[0].as_u64(), 0x5000 | 0x403);
    assert_eq!(tl2.entries[0].as_u64(), 0x193);
}

#[test]
fn identity_tables_refuse_unaligned_table() {
    let mut l4 = PageTable::empty();
    let mut l3 = PageTable::empty();
    let mut l2 = PageTable::empty();
    l3.entries[7] = PageTableEntry::from_bits(0x42);
    assert!(!init_identity_tables(&mut l4, &mut l3, &mut l2, 0x1000, 0x2008, 0x3000));
    // The table at the unaligned address was left alone.
    assert_eq!(l3.entries[7].as_u64(), 0x42);
    assert!(PageTable::empty_from_ptr(&mut l3, VirtualAddress::new_unchecked(0x2008)).is_none());
}

fn mapped_kernel_tables() -> KernelTables {
    // Root at 0x1000: entry 0 -> 0x2000 (level 3); entry 0 of that -> 0x3000
    // (level 2); entry 0 of that -> 0x4000 (level 1), whose entry 5 maps
    // frame 0x9000; entry 1 of the level 2 table maps a 2 MiB page at
    // 0x4000_0000.
    let table = |frame: u64| {
        let mut e = PageTableEntry::new();
        e.map_unchecked(PhysicalAddress::new_unchecked(frame), PageEntryFlags::table_flags());
        e
    };
    let page = |frame: u64, flags: PageEntryFlags| {
        let mut e = PageTableEntry::new();
        e.map_unchecked(PhysicalAddress::new_unchecked(frame), flags);
        e
    };
    let mut root = PageTable::empty();
    root.entries[0] = table(0x2000);
    let mut l3 = PageTable::empty();
    l3.entries[0] = table(0x3000);
    let mut l2 = PageTable::empty();
    l2.entries[0] = table(0x4000);
    l2.entries[1] = page(0x4000_0000, PageEntryFlags::huge_page_flags());
    let mut l1 = PageTable::empty();
    l1.entries[5] = page(0x9000, PageEntryFlags::regular_page_flags());
    KernelTables { tables: vec![(0x1000, root), (0x2000, l3), (0x3000, l2), (0x4000, l1)] }
}

#[test]
fn walk_and_translate_regular_page() {
    let memory = mapped_kernel_tables();
    let va = VirtualAddress::new_unchecked(5 * 0x1000 + 0x123);
    let walk = va.walk(&memory, 0x1000);
    assert_eq!(walk.len(), 4);
    assert_eq!(walk[3].0, PageTableLevel::FirstTable);
    assert_eq!(va.translate(&memory, 0x1000).unwrap().as_u64(), 0x9123);
    assert!(va.is_mapped(&memory, 0x1000));
}

#[test]
fn translate_huge_page_keeps_offset() {
    let memory = mapped_kernel_tables();
    let va = VirtualAddress::new_unchecked(0x20_0000 + 0x1_2345);
    assert_eq!(va.walk(&memory, 0x1000).len(), 3);
    assert_eq!(va.translate(&memory, 0x1000).unwrap().as_u64(), 0x4001_2345);
    assert_eq!(va.address_offset(PageTableLevel::SecondLevel), 0x1_2345);
}

#[test]
fn translate_unmapped_address() {
    let memory = mapped_kernel_tables();
    let va = VirtualAddress::new_unchecked(6 * 0x1000);
    assert!(va.translate(&memory, 0x1000).is_none());
    assert!(!va.is_mapped(&memory, 0x1000));
    let far = VirtualAddress::new_unchecked(1 << 39);
    assert_eq!(far.walk(&memory, 0x1000).len(), 1);
    assert!(far.translate(&memory, 0x1000).is_none());
}

#[test]
fn address_offset_per_level() {
    let va = VirtualAddress::new_unchecked(0xffff_ffff_ffff_ffff);
    assert_eq!(va.address_offset(PageTableLevel::FirstTable), 0xfff);
    assert_eq!(va.address_offset(PageTableLevel::SecondLevel), 0x1f_ffff);
    assert_eq!(va.address_offset(PageTableLevel::ThirdLevel), 0x3fff_ffff);
    assert_eq!(va.address_offset(PageTableLevel::ForthLevel), 0x7f_ffff_ffff);
}

#[test]
fn kernel_tables_overwrite_entry_256() {
    let mut l4 = PageTable::empty();
    let mut old = PageTableEntry::new();
    old.map_unchecked(PhysicalAddress::new_unchecked(0x9000), PageEntryFlags::regular_page_flags());
    l4.entries[256] = old;
    let mut tl3 = PageTable::empty();
    let mut tl2 = PageTable::empty();
    assert!(init_kernel_tables(&mut l4, &mut tl3, &mut tl2, 0x4000, 0x5000));
    assert_eq!(l4.entries[256].as_u64(), 0x4000 | 0x403);
}

#[test]
fn fetch_table_looks_only_as_far_as_it_must() {
    let mut t = PageTable::empty();
    // An entry far beyond the one found maps a frame the kernel could not
    // see through the physical memory offset; the search never looks at it.
    let mut far = PageTableEntry::new();
    far.map_unchecked(PhysicalAddress::new_unchecked(0x7_ffff_ffff_f000), PageEntryFlags::table_flags());
    t.entries[9] = far;
    assert!(matches!(t.try_fetch_table(2, true), EntryIndex::Index(2)));
    assert!(matches!(t.try_fetch_table(0, false), EntryIndex::PageDoesNotFit));
}
