use learnix::boot::page_allocator::{BitMap, PageAllocator, PageSizeAlignment};
use learnix::common::address_types::{PhysicalAddress, VirtualAddress};
use learnix::common::allocations::{Allocation, Allocations};
use learnix::common::constants::{Alignment, Layout, INIT_AREA_SIZE_BYTES};
use learnix::common::enums::{BuddyOrder, MemoryRegionType, PageSize, PageTableLevel};
use learnix::common::error::TableError;
use learnix::common::iter::power_chunk_firsts;
use learnix::common::late_init::LateInit;
use learnix::common::ring_buffer::RingBuffer;
use learnix::common::volatile::Volatile;
use learnix::libk::GlobalAllocator;
use learnix::x86::memory_map::{
    filler_entry, MemoryMap, MemoryMapError, MemoryRegion, MemoryRegionExtended,
};

fn region(base: u64, length: u64, t: MemoryRegionType) -> MemoryRegionExtended {
    MemoryRegionExtended { base_address: base, length, region_type: t, extended_attributes: 1 }
}

fn empty_region() -> MemoryRegion {
    MemoryRegion { base_address: 0, length: 0, region_type: MemoryRegionType::Unknown }
}

#[test]
fn memory_map_takes_init_area_and_fills_gaps() {
    let mut raw = [
        region(0, 0x9fc00, MemoryRegionType::Reserved),
        region(0x100000, 0x7ee0000, MemoryRegionType::Usable),
        region(0x8000000, 0x10000, MemoryRegionType::Reserved),
    ];
    let mut buf = [empty_region(); 8];
    let map = MemoryMap::parse_map(&mut raw, &mut buf).unwrap();
    assert_eq!(map.capacity(), 8);
    let r = map.regions();
    assert_eq!(r.len(), 6);
    assert_eq!((r[0].base_address, r[0].length, r[0].region_type), (0x100000, INIT_AREA_SIZE_BYTES, MemoryRegionType::UserEnterd));
    assert_eq!((r[1].base_address, r[1].length, r[1].region_type), (0, 0x9fc00, MemoryRegionType::Reserved));
    assert_eq!((r[2].base_address, r[2].length, r[2].region_type), (0x9fc00, 0x160400, MemoryRegionType::Filler));
    assert_eq!((r[3].base_address, r[3].length, r[3].region_type), (0x200000, 0x7de0000, MemoryRegionType::Usable));
    assert_eq!((r[4].base_address, r[4].length, r[4].region_type), (0x7fe0000, 0x20000, MemoryRegionType::Filler));
    assert_eq!((r[5].base_address, r[5].region_type), (0x8000000, MemoryRegionType::Reserved));
    assert_eq!(buf[6].region_type, MemoryRegionType::Unknown);
    // The first usable region lost the init area.
    assert_eq!((raw[1].base_address, raw[1].length), (0x200000, 0x7de0000));
}

#[test]
fn memory_map_keeps_last_region() {
    let mut raw = [
        region(0, 0x20_0000, MemoryRegionType::Usable),
        region(0x20_0000, 0x1000, MemoryRegionType::Reserved),
    ];
    let mut buf = [empty_region(); 4];
    let map = MemoryMap::parse_map(&mut raw, &mut buf).unwrap();
    let r = map.regions();
    assert_eq!(r.len(), 3);
    assert_eq!((r[1].base_address, r[1].length), (0x10_0000, 0x10_0000));
    assert_eq!((r[2].base_address, r[2].region_type), (0x20_0000, MemoryRegionType::Reserved));
}

#[test]
fn memory_map_errors() {
    let mut buf = [empty_region(); 2];
    assert_eq!(MemoryMap::parse_map(&mut [], &mut buf).unwrap_err(), MemoryMapError::Empty);
    let mut reserved_only = [region(0, 0x1000, MemoryRegionType::Reserved)];
    assert_eq!(MemoryMap::parse_map(&mut reserved_only, &mut buf).unwrap_err(), MemoryMapError::Empty);
    assert_eq!(reserved_only[0].base_address, 0);
    assert_eq!(buf[0].region_type, MemoryRegionType::Unknown);
    let mut raw = [
        region(0, 0x20_0000, MemoryRegionType::Usable),
        region(0x30_0000, 0x1000, MemoryRegionType::Usable),
        region(0x40_0000, 0x1000, MemoryRegionType::Usable),
    ];
    assert_eq!(MemoryMap::parse_map(&mut raw, &mut buf).unwrap_err(), MemoryMapError::Overflow);
    // The buffer holds what fitted, and the init area was taken anyway.
    assert_eq!((buf[0].base_address, buf[0].region_type), (0, MemoryRegionType::UserEnterd));
    assert_eq!(buf[1].base_address, 0x10_0000);
    assert_eq!(raw[0].base_address, 0x10_0000);
}

#[test]
fn filler_entry_between_regions() {
    let a = region(0, 0x1000, MemoryRegionType::Usable);
    let b = region(0x3000, 0x1000, MemoryRegionType::Usable);
    let f = filler_entry(&a, &b).unwrap();
    assert_eq!((f.base_address, f.length, f.region_type), (0x1000, 0x2000, MemoryRegionType::Filler));
    assert!(filler_entry(&a, &region(0x1000, 1, MemoryRegionType::Usable)).is_none());
}

#[test]
fn memory_map_report_totals() {
    let mut raw = [
        region(0, 0x28_0000, MemoryRegionType::Usable),
        region(0x30_0000, 0x1000, MemoryRegionType::Reserved),
    ];
    let mut buf = [empty_region(); 8];
    let map = MemoryMap::parse_map(&mut raw, &mut buf).unwrap();
    let report = map.report();
    assert_eq!(report.rows.len(), 4);
    assert_eq!(report.rows[0].region_type, MemoryRegionType::UserEnterd);
    assert_eq!(report.rows[0].size, None);
    assert_eq!((report.rows[1].base_address, report.rows[1].end_address), (0x10_0000, 0x28_0000));
    assert_eq!(report.rows[1].size, Some((1, 512)));
    assert_eq!(report.rows[2].region_type, MemoryRegionType::Filler);
    assert_eq!(report.rows[2].size, Some((0, 512)));
    assert_eq!(report.rows[3].size, Some((0, 4)));
    // Fillers count as neither usable nor reserved.
    assert_eq!(report.usable, (1, 512));
    assert_eq!(report.reserved, (0, 4));
    assert_eq!(map.totals(), (0x18_0000, 0x1000));
}

#[test]
fn region_size_split() {
    let r = MemoryRegion { base_address: 0, length: 3 * 1024 * 1024 + 5 * 1024 + 7, region_type: MemoryRegionType::Usable };
    assert_eq!(r.size_mib_kib(), (3, 5));
    let e = region(0x10, 0x20, MemoryRegionType::BadMemory);
    let m = MemoryRegion::from_extended(&e);
    assert_eq!((m.base_address, m.length, m.region_type), (0x10, 0x20, MemoryRegionType::BadMemory));
}

fn regular_layout() -> Layout {
    Layout::from_size_alignment(4096, Alignment::regular_page())
}

#[test]
fn page_allocator_hands_out_distinct_pages() {
    let mut a = PageAllocator::from_address_size(0x5000, 1 << 20);
    assert_eq!(a.available_memory(), 1 << 20);
    let first = a.alloc_page(regular_layout());
    let second = a.alloc_page(regular_layout());
    assert_eq!(first, 0);
    assert_eq!(second, 4096);
    assert_ne!(first, second);
    assert_eq!(a.available_memory(), (1 << 20) - 2 * 4096);
}

#[test]
fn page_allocator_refuses_small_layouts() {
    let mut a = PageAllocator::from_address_size(0x5000, 1 << 20);
    let small = Layout::from_size_alignment(16, Alignment::new(8).unwrap());
    assert_eq!(a.alloc_page(small), 0);
    assert_eq!(a.available_memory(), 1 << 20);
}

#[test]
fn page_allocator_when_full() {
    let mut a = PageAllocator::from_address_size(0x5000, 1 << 18);
    // One word of 64 pages.
    a.inner.set_index_unchecked(0);
    assert_eq!(a.available_memory(), 0);
    assert_eq!(a.alloc_page(regular_layout()), 0);
}

#[test]
fn bitmap_bits() {
    let mut m = BitMap::new(0, 1 << 20);
    m.set_index_bit_unchecked(1, 5);
    assert!(m.get_bit_index_unchecked(1, 5));
    assert_eq!(m.get_index_unchecked(1), 1 << 5);
    // Index 8 stands for word 1 (8 >> 3) and bit 8.
    m.set_unchecked(8);
    assert!(m.get_unchecked(8));
    assert_eq!(m.get_index_unchecked(1), (1 << 5) | (1 << 8));
    assert_eq!(PageAllocator::resolve_address(1, 5), 69 * 4096);
}

#[test]
fn page_size_alignment_from_layout() {
    assert_eq!(PageSizeAlignment::from_layout(regular_layout()), PageSizeAlignment::Regular);
    let big = Layout::from_size_alignment(0x20_0000, Alignment::big_page());
    assert_eq!(PageSizeAlignment::from_layout(big), PageSizeAlignment::Big);
    let odd = Layout::from_size_alignment(0x20_0000, Alignment::regular_page());
    assert_eq!(PageSizeAlignment::from_layout(odd), PageSizeAlignment::NotAPage);
}

#[test]
fn ring_buffer_is_first_in_first_out() {
    let mut r = RingBuffer::new(vec![0u8; 4]);
    assert_eq!(r.read(), None);
    r.write(1);
    r.write(2);
    r.write(3);
    assert_eq!(r.steps_between(), 3);
    assert_eq!(r.read(), Some(1));
    assert_eq!(r.read(), Some(2));
    r.write(4);
    r.write(5);
    let mut out = [0u8; 8];
    assert_eq!(r.read_bulk(&mut out), 3);
    assert_eq!(&out[..3], &[3, 4, 5]);
    assert_eq!(r.read(), None);
}

#[test]
fn ring_buffer_advances() {
    let mut r = RingBuffer::new(vec![0u8; 8]);
    for v in 1..=5 {
        r.write(v);
    }
    r.forward_advance_read(2);
    assert_eq!(r.read_idx(), 2);
    r.forward_advance_read(100);
    assert_eq!(r.read_idx(), 5);
    r.advance_write(-2);
    assert_eq!(r.write_idx(), 3);
    r.advance_read(-2);
    assert_eq!(r.read_idx(), 3);
    r.advance_to_write();
    assert_eq!(r.read_idx(), r.write_idx());
}

#[test]
fn chunks_follow_binary_representation() {
    let items = [10, 11, 12, 13, 14, 15, 16];
    assert_eq!(power_chunk_firsts(&items, 2), vec![(10, 4), (14, 2), (16, 1)]);
    assert_eq!(power_chunk_firsts(&items, 1), vec![(10, 2), (12, 2), (14, 2), (16, 1)]);
    assert_eq!(power_chunk_firsts::<u8>(&[], 3), vec![]);
}

#[test]
fn addresses() {
    let p = PhysicalAddress::new(0x1234).unwrap();
    assert_eq!(p.align_up(Alignment::regular_page()).as_u64(), 0x2000);
    assert_eq!(p.align_down(Alignment::regular_page()).as_u64(), 0x1000);
    assert_eq!(p.alignment().as_u64(), 4);
    assert_eq!(p.translate().as_u64(), 0xffff_8000_0000_1234);
    assert!(PhysicalAddress::new(1 << 48).is_none());
    assert_eq!(VirtualAddress::new(0x8000_0000_0000).unwrap().as_u64(), 0xffff_8000_0000_0000);
    let v = VirtualAddress::from_indexes(1, 2, 3, 4);
    assert_eq!(v.as_u64(), (1 << 39) | (2 << 30) | (3 << 21) | (4 << 12));
    assert_eq!(v.index_of(PageTableLevel::ThirdLevel), 2);
    assert_eq!(v.index_of(PageTableLevel::FirstTable), 4);
    assert_eq!(VirtualAddress::from_indices([1, 2, 3, 4]), v);
    assert_eq!(VirtualAddress::null().alignment().as_u64(), 1 << 63);
}

#[test]
fn page_levels_and_sizes() {
    assert_eq!(PageTableLevel::ThirdLevel.next(), Some(PageTableLevel::SecondLevel));
    assert_eq!(PageTableLevel::FirstTable.next(), None);
    assert_eq!(PageTableLevel::SecondLevel.prev(), Ok(PageTableLevel::ThirdLevel));
    assert_eq!(PageTableLevel::ForthLevel.prev(), Err(TableError::Full));
    assert!(PageSize::Big.exceeds(&PageTableLevel::SecondLevel));
    assert!(!PageSize::Regular.exceeds(&PageTableLevel::SecondLevel));
    assert_eq!(PageSize::Huge.size_in_regular_pages(), 262_144);
    assert_eq!(PageSize::from_alignment(Alignment::big_page()), Some(PageSize::Big));
    assert_eq!(PageSize::from_layout(PageSize::Huge.into_layout()), Some(PageSize::Huge));
    assert_eq!(PageSize::Regular.alignment().as_u64(), 4096);
}

#[test]
fn buddy_orders() {
    assert_eq!(BuddyOrder::Order3.next(), Some(BuddyOrder::Order4));
    assert_eq!(BuddyOrder::Order10.next(), None);
    assert_eq!(BuddyOrder::Order4.prev(), Some(BuddyOrder::Order3));
    assert_eq!(BuddyOrder::Order0.prev(), None);
    assert_eq!(BuddyOrder::from_u8(7), BuddyOrder::Order7);
}

#[test]
fn allocation_log() {
    let mut log: Allocations<4> = Allocations::new();
    assert!(log.iter().is_empty());
    let a = Allocation { layout: regular_layout(), base: VirtualAddress::new_unchecked(0x1000) };
    log.write(a);
    log.write(Allocation::default());
    let all = log.iter();
    assert_eq!(all.len(), 2);
    assert!(!all[0].is_null());
    assert!(all[1].is_null());
}

#[test]
fn late_init_and_volatile() {
    let mut slot: LateInit<u32> = LateInit::uninit();
    slot.init(7);
    assert_eq!(*slot.assume_init_ref(), 7);
    assert_eq!(LateInit::new(3u8).assume_init(), 3);
    let mut v = Volatile::new(1u16);
    v.write(9);
    assert_eq!(v.read(), 9);
    let mut g: GlobalAllocator<u8> = GlobalAllocator::uninit();
    g.init(1);
}

#[test]
fn global_allocator_hands_out_its_target() {
    let mut g: GlobalAllocator<u32> = GlobalAllocator::uninit();
    assert!(g.allocator().is_none());
    g.init(7);
    assert_eq!(g.allocator(), Some(&7));
}

#[test]
fn address_conversions() {
    let p = PhysicalAddress::from(0x1234_5000u64);
    assert_eq!(p.as_u64(), 0x1234_5000);
    assert_eq!(u64::from(p), 0x1234_5000);
    let v = VirtualAddress::from(0xffff_8000_0000_1000u64);
    assert_eq!(v.as_u64(), 0xffff_8000_0000_1000);
}

#[test]
fn ring_buffer_forward_advance_clamps_at_write() {
    for (steps, expected) in [(0usize, 1usize), (1, 2), (2, 3), (4, 3), (5, 3), (9, 3)] {
        let mut r = RingBuffer::new(vec![0u8; 4]);
        r.write(10);
        r.write(11);
        r.write(12);
        assert_eq!(r.read(), Some(10));
        assert_eq!((r.read_idx(), r.write_idx()), (1, 3));
        r.forward_advance_read(steps);
        assert_eq!(r.read_idx(), expected);
        assert_eq!(r.write_idx(), 3);
    }
    // Wrapping around the end of the ring.
    let mut r = RingBuffer::new(vec![0u8; 4]);
    for v in 0..3 {
        r.write(v);
    }
    r.forward_advance_read(3);
    r.write(3);
    r.write(4);
    assert_eq!((r.read_idx(), r.write_idx()), (3, 1));
    r.forward_advance_read(1);
    assert_eq!(r.read_idx(), 0);
    assert_eq!(r.read(), Some(4));
    r.forward_advance_read(7);
    assert_eq!(r.read_idx(), 1);
}

#[test]
fn memory_map_overflows_before_unordered_pairs() {
    // With no room at all, the map fails before it looks at any pair.
    let mut raw = [
        region(0, 0x20_0000, MemoryRegionType::Usable),
        region(0x10, 1, MemoryRegionType::Reserved),
    ];
    let mut none: [MemoryRegion; 0] = [];
    assert_eq!(MemoryMap::parse_map(&mut raw, &mut none).unwrap_err(), MemoryMapError::Overflow);
    // The buffer is full before the pair out of order is reached.
    let mut raw = [
        region(0, 0x20_0000, MemoryRegionType::Usable),
        region(0x30_0000, 0x1000, MemoryRegionType::Reserved),
        region(0x10, u64::MAX, MemoryRegionType::Reserved),
    ];
    let mut buf = [empty_region(); 2];
    assert_eq!(MemoryMap::parse_map(&mut raw, &mut buf).unwrap_err(), MemoryMapError::Overflow);
    assert_eq!((buf[0].region_type, buf[1].base_address), (MemoryRegionType::UserEnterd, 0x10_0000));
}
