use learnix::common::address_types::PhysicalAddress;
use learnix::common::enums::{Color, Port};
use learnix::common::error::{ConversionError, HbaError};
use learnix::drivers::ahci::fis::{RegisterH2D, SetDeviceBits, FisType, GeneralInfo};
use learnix::drivers::ahci::hba::{
    CmdIssue, CmdStatus, DeviceSleep, PortStep, StartPhase, StopPhase, DeviceType, GenericHostControl, HBAMemoryRegisters,
    PrdtDescriptionInfo, SataNotification, Signature,
};
use learnix::drivers::keyboard::KeyboardFlags;
use learnix::drivers::vga::{ColorCode, Screen, ScreenChar, WriteInfo};
use learnix::x86::cpuid::{get_vendor_string, CpuFeatures, CpuidResult};
use learnix::x86::pic::{CascadedPIC, CascadedPicInterruptLine, PortWrite};

fn w(port: Port, value: u8, wait: bool) -> PortWrite {
    PortWrite { port, value, wait }
}

#[test]
fn pic_initialization_sequence() {
    let pic = CascadedPIC::default();
    assert_eq!(
        pic.init(),
        vec![
            w(Port::MasterPicCmd, 0x11, true),
            w(Port::SlavePicCmd, 0x11, true),
            w(Port::MasterPicData, 0x20, true),
            w(Port::SlavePicData, 0x28, true),
            w(Port::MasterPicData, 0x04, true),
            w(Port::SlavePicData, 0x02, true),
            w(Port::MasterPicData, 0x01, true),
            w(Port::SlavePicData, 0x01, true),
            w(Port::MasterPicData, 0, false),
            w(Port::SlavePicData, 0, false),
        ]
    );
}

#[test]
fn pic_masks_and_acknowledges() {
    let pic = CascadedPIC::default();
    assert_eq!(pic.irq_data_port(CascadedPicInterruptLine::Irq1), Port::MasterPicData);
    assert_eq!(pic.irq_data_port(CascadedPicInterruptLine::Irq12), Port::SlavePicData);
    assert_eq!(pic.disable_irq(CascadedPicInterruptLine::Irq1, 0x00), w(Port::MasterPicData, 0x02, false));
    assert_eq!(pic.enable_irq(CascadedPicInterruptLine::Irq12, 0xff), w(Port::SlavePicData, 0xef, false));
    assert_eq!(pic.end_of_interrupt(CascadedPicInterruptLine::Irq0), vec![w(Port::MasterPicCmd, 0x20, false)]);
    assert_eq!(
        pic.end_of_interrupt(CascadedPicInterruptLine::Irq8),
        vec![w(Port::SlavePicCmd, 0x20, false), w(Port::MasterPicCmd, 0x20, false)]
    );
}

fn screen() -> Screen {
    Screen::from_buffer(vec![ScreenChar::default(); 8], 4, 2)
}

fn ch(c: u8) -> ScreenChar {
    ScreenChar::new(c, ColorCode::default())
}

#[test]
fn screen_writes_and_wraps() {
    let mut s = screen();
    assert_eq!(s.write_char(ch(b'a')), WriteInfo::SameLine);
    assert_eq!(s.write_char(ch(b'b')), WriteInfo::SameLine);
    assert_eq!(s.write_char(ch(b'c')), WriteInfo::SameLine);
    assert_eq!(s.write_char(ch(b'd')), WriteInfo::LineUp);
    assert_eq!(s.cursor(), 4);
    assert_eq!(s.write_char(ch(b'\n')), WriteInfo::EndOfScreen);
    assert_eq!(s.cursor(), 7);
    assert_eq!(s.write_char(ch(b'e')), WriteInfo::LineUp);
    assert_eq!(s.write_char(ch(b'f')), WriteInfo::EndOfScreen);
}

#[test]
fn screen_new_line_and_backspace() {
    let mut s = screen();
    s.write_char(ch(b'a'));
    assert_eq!(s.new_line(), WriteInfo::LineUp);
    assert_eq!(s.cursor(), 4);
    assert_eq!(s.backspace(), WriteInfo::LineDown);
    assert_eq!(s.cursor(), 3);
    s.reset_cursor();
    assert_eq!(s.backspace(), WriteInfo::SameLine);
    assert_eq!(s.cursor(), 0);
    s.clear();
}

#[test]
fn screen_cursor_port_writes() {
    let mut s = Screen::from_buffer(vec![ScreenChar::default(); 80 * 25], 80, 25);
    for _ in 0..300 {
        s.write_char(ch(b'x'));
    }
    assert_eq!(
        s.cursor_position_writes(),
        vec![
            w(Port::VgaControl, 0x0f, false),
            w(Port::VgaData, 0x2c, false),
            w(Port::VgaControl, 0x0e, false),
            w(Port::VgaData, 0x01, false),
        ]
    );
    s.scroll_up(1);
    s.scroll_down(1);
}

#[test]
fn color_codes() {
    assert_eq!(ColorCode::default().as_u8(), 0x0f);
    let c = ColorCode::new().foreground(Color::Red).background(Color::Blue);
    assert_eq!(c.as_u8(), 0x14);
    assert_eq!(c.get_foreground(), Color::Red);
}

#[test]
fn register_frame_bytes() {
    let f = RegisterH2D::new(0x80, 0xec, 0x0102, 0x0605_0403_0201, 0x40, 0x0a0b, 0x08);
    assert_eq!(
        f.as_bytes(),
        vec![0x27, 0x80, 0xec, 0x02, 0x01, 0x02, 0x03, 0x40, 0x04, 0x05, 0x06, 0x01, 0x0b, 0x0a, 0, 0x08, 0, 0, 0, 0]
    );
}

#[test]
fn set_device_bits_status() {
    let f = SetDeviceBits { fis_type: FisType::SetDeviceBitsFisDevice2Host, pm_port: 0, status: 0xff, error: 0, reserved: 0 };
    assert_eq!(f.status_low(), 0xf8);
    assert_eq!(f.status_high(), 0x08);
    assert!(GeneralInfo(0x8000).is_non_magnetic());
}

#[test]
fn signature_device_types() {
    let sata = Signature { sector_count: 0x01, lba_low: 0x01, lba_mid: 0x00, lba_high: 0x00 };
    assert_eq!(sata.device_type(), Ok(DeviceType::Sata));
    let atapi = Signature { sector_count: 0x01, lba_low: 0x01, lba_mid: 0x14, lba_high: 0xeb };
    assert_eq!(atapi.device_type(), Ok(DeviceType::Satapi));
    let other = Signature { sector_count: 0x7f, lba_low: 0, lba_mid: 0, lba_high: 0 };
    assert_eq!(other.device_type(), Err(ConversionError::CantConvertFrom(0x7f)));
}

#[test]
fn port_commands() {
    let mut ci = CmdIssue(0b1);
    ci.issue_cmd(3);
    assert_eq!(ci.0, 0b1001);
    // Start: the command list runs for two more reads, then the FIS receive
    // enable and the start bits are written in turn.
    let mut reg: u32 = 1 << 15;
    let mut reads = 0;
    let mut phase = StartPhase::WaitCommandList;
    loop {
        reads += 1;
        if reads == 3 {
            reg &= !(1 << 15);
        }
        match CmdStatus::start_step(phase, CmdStatus::from_bits(reg)) {
            PortStep::Write(v, next) => {
                reg = v.as_u32();
                phase = next;
            }
            PortStep::Poll(next) => phase = next,
            PortStep::Done => break,
            PortStep::Timeout => panic!("start timed out"),
        }
    }
    assert_eq!(reg, 0x11);
    assert_eq!(reads, 5);
    let mut cmd = CmdStatus::from_bits(reg);
    assert_eq!(cmd.get_current_cmd_checked(), 0);
    // Stop: the command list stops at once, the FIS receive engine after a
    // few reads.
    let mut reg: u32 = 0x11 | (1 << 14);
    let mut reads = 0;
    let mut phase = StopPhase::ClearStart;
    loop {
        reads += 1;
        if reads == 6 {
            reg &= !(1 << 14);
        }
        match CmdStatus::stop_step(phase, CmdStatus::from_bits(reg)) {
            PortStep::Write(v, next) => {
                reg = v.as_u32();
                phase = next;
            }
            PortStep::Poll(next) => phase = next,
            PortStep::Done => break,
            PortStep::Timeout => panic!("stop timed out"),
        }
    }
    assert_eq!(reg, 0);
    assert_eq!(reads, 6);
    let mut n = SataNotification::new();
    n.set_pm_notif(3);
    assert_eq!(n.as_u32(), 0b1000);
    assert!(n.get_pm_notif(3));
    assert!(!n.get_pm_notif(1));
    n.set_pm_notif(1);
    assert!(n.get_pm_notif(1) && n.get_pm_notif(3));
    assert_eq!(n.as_u32(), 0b1010);
    n.set_pm_notif(20);
    assert_eq!(n.as_u32(), 0b1010);
    assert!(!n.get_pm_notif(15));
    let sleep = DeviceSleep::from_bits((10 << 15) | (2 << 25));
    assert_eq!(sleep.dito_actual_ms(), 30);
    let mut prdt = PrdtDescriptionInfo::new();
    prdt.set_dbc_checked(0x1000);
    assert_eq!(prdt.as_u32(), 0x1001);
}

#[test]
fn host_bus_adapter_address() {
    let zero = GenericHostControl {
        cap: learnix::drivers::ahci::hba::HBACapabilities::new(),
        ghc: learnix::drivers::ahci::hba::GlobalHostControl::new(),
        is: learnix::drivers::ahci::hba::InterruptStatus(0),
        pi: learnix::drivers::ahci::hba::PortsImplemented(1),
        vs: learnix::drivers::ahci::hba::Version::new(),
        ccc_ctl: learnix::drivers::ahci::hba::CommandCompletionCoalescingControl::new(),
        ccc_ports: learnix::drivers::ahci::hba::CommandCompletionCoalescingPorts(0),
        em_loc: learnix::drivers::ahci::hba::EnclosureManagementLocation::new(),
        em_ctl: learnix::drivers::ahci::hba::EnclosureManagementControl::new(),
        cap_ext: learnix::drivers::ahci::hba::HostCapabilitiesExtended::new(),
        bohc: learnix::drivers::ahci::hba::BiosOsControlStatus::new(),
    };
    let mut ghc = zero;
    assert_eq!(
        HBAMemoryRegisters::new(PhysicalAddress::new_unchecked(0xfebf_1010), &mut ghc),
        Err(HbaError::AddressNotAligned)
    );
    assert_eq!(ghc.ghc.as_u32(), 0);
    let v = HBAMemoryRegisters::new(PhysicalAddress::new_unchecked(0xfebf_1000), &mut ghc).unwrap();
    assert_eq!(v.as_u64(), 0xffff_8000_febf_1000);
    assert_eq!(ghc.ghc.as_u32(), 0x8000_0002);
    assert!(ghc.pi.is_port_implemented(0));
}

#[test]
fn keyboard_flags() {
    let mut k = KeyboardFlags::new();
    k.set_capslock_pressed(true);
    k.set_lshift_pressed(true);
    assert_eq!(k.as_u8(), 0x11);
    k.set_lshift_pressed(false);
    assert!(k.is_capslock_pressed());
    assert!(!k.is_lshift_pressed());
}

#[test]
fn cpuid_vendor_and_features() {
    // "GenuineIntel"
    let r = CpuidResult { eax: 0, ebx: 0x756e_6547, edx: 0x4965_6e69, ecx: 0x6c65_746e };
    assert_eq!(&get_vendor_string(&r), b"GenuineIntel");
    let f = CpuFeatures::from_result(&CpuidResult { eax: 0, ebx: 0, ecx: 0x1, edx: 1 << 9 });
    assert_eq!(f.0, (1 << 41) | 1);
    assert!(f.has_apic());
    assert!(!CpuFeatures(0).has_apic());
}

#[test]
fn pic_mask_round_trip() {
    let pic = CascadedPIC::default();
    let masked = pic.disable_irq(CascadedPicInterruptLine::Irq12, 0x21);
    assert_eq!(masked.value, 0x31);
    let unmasked = pic.enable_irq(CascadedPicInterruptLine::Irq12, masked.value);
    assert_eq!(unmasked.value, 0x21);
    let again = pic.disable_irq(CascadedPicInterruptLine::Irq3, 0xff);
    assert_eq!(again.value, 0xff);
}

#[test]
fn screen_write_then_backspace() {
    let mut s = Screen::from_buffer(vec![ScreenChar::default(); 8], 4, 2);
    s.write_char(ch(b'x'));
    s.write_char(ch(b'y'));
    assert_eq!(s.cursor(), 2);
    s.backspace();
    assert_eq!(s.cursor(), 1);
    assert_eq!((s.cell(0).char, s.cell(1).char), (b'x', b' '));
}

#[test]
fn port_stop_times_out() {
    // A command list that never stops running: the wait gives up after
    // 0xffffe reads that find it running.
    let reg: u32 = 0x11 | (1 << 15);
    let mut phase = StopPhase::ClearStart;
    let mut running_reads: u32 = 0;
    let timed_out = loop {
        match CmdStatus::stop_step(phase, CmdStatus::from_bits(reg)) {
            PortStep::Write(_, next) => phase = next,
            PortStep::Poll(next) => {
                running_reads += 1;
                phase = next;
            }
            PortStep::Done => break false,
            PortStep::Timeout => break true,
        }
    };
    assert!(timed_out);
    assert_eq!(running_reads, 0xffffe);
    assert_eq!(CmdStatus::stop_step(StopPhase::WaitFisReceive(1), CmdStatus::from_bits(0)), PortStep::Timeout);
    assert_eq!(CmdStatus::stop_step(StopPhase::WaitFisReceive(2), CmdStatus::from_bits(0)), PortStep::Done);
}
