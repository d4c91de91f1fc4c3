use learnix::common::address_types::VirtualAddress;
use learnix::common::enums::{
    Interrupt, InterruptStackTable, InterruptType, ProtectionLevel, Sections, SystemSegmentType,
};
use learnix::cpu_utils::segments::SegmentSelector as CpuSelector;
use learnix::x86::gdt::{
    AccessByte, GlobalDescriptorTableEntry32, GlobalDescriptorTableLong,
    GlobalDescriptorTableProtected, LimitFlags, SystemAccessByte, SystemSegmentDescriptor64,
};
use learnix::x86::idt::{
    InterruptAttributes, InterruptDescriptorTable, InterruptDescriptorTableEntry,
};
use learnix::x86::rflags::Rflags;
use learnix::x86::segments::{SegmentSelector, TaskStateSegment};

#[test]
fn protected_mode_table() {
    let gdt = GlobalDescriptorTableProtected::default();
    assert_eq!(gdt.as_words(), vec![0, 0x00cf_9a00_0000_ffff, 0x00cf_9200_0000_ffff]);
    let r = GlobalDescriptorTableProtected::register(0x7000);
    assert_eq!(r.limit, 23);
    assert_eq!(r.base, 0x7000);
}

#[test]
fn long_mode_table() {
    let gdt = GlobalDescriptorTableLong::default();
    assert_eq!(
        gdt.as_words(),
        vec![
            0,
            0x0020_9a00_0000_0000,
            0x0000_9200_0000_0000,
            0x0020_fa00_0000_0000,
            0x0000_f200_0000_0000,
            0,
            0
        ]
    );
    assert_eq!(GlobalDescriptorTableLong::register(0x9000).limit, 55);
}

#[test]
fn segment_descriptor_splits_base_and_limit() {
    let access = AccessByte::new().present(true).executable(true);
    let flags = LimitFlags::new().granularity(true);
    let d = GlobalDescriptorTableEntry32::new(0x1234_5678, 0xa_bcde, access, flags);
    // limit 0xbcde, base 0x345678, access 0x88, flags 0x80 | limit 0xa, base 0x12
    assert_eq!(d.as_u64(), 0x128a_8834_5678_bcde);
}

#[test]
fn task_state_segment_descriptor() {
    let d = SystemSegmentDescriptor64::new(
        0x1122_3344_5566_7788,
        0x67,
        SystemSegmentType::TaskStateSegmentAvailable,
    );
    let (low, high) = d.as_u64_pair();
    assert_eq!(low, 0x5500_8966_7788_0067);
    assert_eq!(high, 0x1122_3344);
}

#[test]
fn load_tss_puts_descriptor_last() {
    let mut gdt = GlobalDescriptorTableLong::default();
    let tss = SystemSegmentDescriptor64::new(0x8000, 0x67, SystemSegmentType::TaskStateSegmentAvailable);
    let selector = gdt.load_tss(tss);
    assert_eq!(selector.as_u16(), 0x140);
    let words = gdt.as_words();
    assert_eq!(words[1], 0x0020_9a00_0000_0000);
    assert_eq!(words[5], tss.as_u64_pair().0);
    assert_eq!(words[6], 0);
}

#[test]
fn access_byte_fields() {
    let mut a = AccessByte::new().dpl(ProtectionLevel::Ring3);
    assert_eq!(a.as_u8(), 0x60);
    assert_eq!(a.get_dpl(), ProtectionLevel::Ring3);
    a.set_dpl(ProtectionLevel::Ring1);
    assert_eq!(a.as_u8(), 0x20);
    let mut s = SystemAccessByte::from_bits(0x10);
    assert!(s.is_zero());
    s.clear_zero();
    assert_eq!(s.as_u8(), 0);
}

#[test]
fn missing_interrupt_entry() {
    let e = InterruptDescriptorTableEntry::missing();
    assert_eq!(e.as_u64_pair(), (0x0000_0e00_0000_0000, 0));
}

#[test]
fn interrupt_entry_splits_handler_address() {
    let attributes = InterruptAttributes::new().present(true).int_type(InterruptType::Trap);
    let selector = SegmentSelector::from_bits(0x8);
    let e = InterruptDescriptorTableEntry::new(
        VirtualAddress::new_unchecked(0x1122_3344_5566_7788),
        InterruptStackTable::IST2,
        attributes,
        selector,
    );
    assert_eq!(e.as_u64_pair(), (0x5566_8f02_0008_7788, 0x1122_3344));
}

#[test]
fn set_interrupt_handler_fills_one_entry() {
    let mut gdt = GlobalDescriptorTableLong::default();
    let tss = TaskStateSegment::default();
    let (mut idt, selector) = InterruptDescriptorTable::init(&mut gdt, &tss, 0x6000);
    assert_eq!(selector.as_u16(), 0x140);
    assert_eq!(gdt.as_words()[5] & 0xffff, 0x67);
    idt.set_interrupt_handler(
        Interrupt::PageFault,
        VirtualAddress::new_unchecked(0x40_1000),
        ProtectionLevel::Ring0,
        InterruptType::Fault,
    );
    assert_eq!(idt.interrupts[14].as_u64_pair(), (0x0040_8e00_0040_1000, 0));
    assert_eq!(idt.interrupts[13].as_u64_pair(), (0x0000_0e00_0000_0000, 0));
    assert_eq!(InterruptDescriptorTable::register(0x5000).limit, 4095);
}

#[test]
fn task_state_segment_default() {
    assert_eq!(TaskStateSegment::default().iomb(), 0x68);
}

#[test]
fn segment_selector_builders() {
    let s = SegmentSelector::new().rpl(ProtectionLevel::Ring3).use_ldt(true);
    assert_eq!(s.as_u16(), 0x7);
    assert_eq!(s.get_rpl(), ProtectionLevel::Ring3);
    let k = SegmentSelector::new().section(Sections::KernelCode);
    assert_eq!(k.as_u16(), 0x40);
}

#[test]
fn processor_utility_selectors() {
    assert_eq!(CpuSelector::kernel_code().as_u16(), 0x8);
    assert_eq!(CpuSelector::user_code().as_u16(), 0x1b);
    let s = CpuSelector::default().set_table_index(3).set_rpl(ProtectionLevel::Ring2);
    assert_eq!(s.as_u16(), 0x1a);
    assert!(s.local_descriptor_table().is_local_descriptor_table());
}

#[test]
fn rflags_fields() {
    let mut f = Rflags::from_bits(0x202);
    assert!(f.is_interrupt());
    assert!(f.is_reserved1());
    assert!(!f.is_carry());
    f.set_iopl(ProtectionLevel::Ring3);
    assert_eq!(f.as_u64(), 0x3202);
    assert_eq!(f.get_iopl(), ProtectionLevel::Ring3);
    f.set_interrupt(false);
    assert_eq!(f.as_u64(), 0x3002);
}
