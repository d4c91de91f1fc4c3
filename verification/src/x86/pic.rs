//! The two cascaded 8259 programmable interrupt controllers. The
//! controllers are programmed through I/O ports; the functions here say which
//! bytes go to which port, and the caller performs the writes.
use vstd::prelude::*;

use crate::common::enums::Port;

verus! {

/// Command words of the 8259 controller.
#[derive(Clone, Copy, Debug, PartialEq, Eq, Structural)]
pub enum PicCommandCode {
    /// Starts the initialization sequence (ICW1).
    Initialize,
    /// ICW1 bit that announces a fourth initialization word.
    CascadeMode,
    /// Acknowledges the interrupt being served.
    EndOfInterrupt,
}

impl PicCommandCode {
    /// The value that represents this variant in hardware.
    pub open spec fn spec_as_u8(self) -> u8 {
        match self {
            PicCommandCode::Initialize => 0x10,
            PicCommandCode::CascadeMode => 0x01,
            PicCommandCode::EndOfInterrupt => 0x20,
        }
    }

    /// The value that represents this variant in hardware.
    #[verifier::when_used_as_spec(spec_as_u8)]
    pub fn as_u8(self) -> (r: u8)
        ensures
            r == self.spec_as_u8(),
    {
        match self {
            PicCommandCode::Initialize => 0x10,
            PicCommandCode::CascadeMode => 0x01,
            PicCommandCode::EndOfInterrupt => 0x20,
        }
    }
}

/// An interrupt line of one controller, as its bit in the controller's mask.
#[derive(Clone, Copy, Debug, PartialEq, Eq, Structural)]
pub enum PicInterruptLine {
    Irq0,
    Irq1,
    Irq2,
    Irq3,
    Irq4,
    Irq5,
    Irq6,
    Irq7,
}

impl PicInterruptLine {
    /// The value that represents this variant in hardware.
    pub open spec fn spec_as_u8(self) -> u8 {
        match self {
            PicInterruptLine::Irq0 => 0x1,
            PicInterruptLine::Irq1 => 0x2,
            PicInterruptLine::Irq2 => 0x4,
            PicInterruptLine::Irq3 => 0x8,
            PicInterruptLine::Irq4 => 0x10,
            PicInterruptLine::Irq5 => 0x20,
            PicInterruptLine::Irq6 => 0x40,
            PicInterruptLine::Irq7 => 0x80,
        }
    }

    /// The value that represents this variant in hardware.
    #[verifier::when_used_as_spec(spec_as_u8)]
    pub fn as_u8(self) -> (r: u8)
        ensures
            r == self.spec_as_u8(),
    {
        match self {
            PicInterruptLine::Irq0 => 0x1,
            PicInterruptLine::Irq1 => 0x2,
            PicInterruptLine::Irq2 => 0x4,
            PicInterruptLine::Irq3 => 0x8,
            PicInterruptLine::Irq4 => 0x10,
            PicInterruptLine::Irq5 => 0x20,
            PicInterruptLine::Irq6 => 0x40,
            PicInterruptLine::Irq7 => 0x80,
        }
    }
}

/// An interrupt line of the cascaded pair, as its bit in the pair's 16-bit mask: lines 8 to 15 belong to the slave.
#[derive(Clone, Copy, Debug, PartialEq, Eq, Structural)]
pub enum CascadedPicInterruptLine {
    Irq0,
    Irq1,
    Irq2,
    Irq3,
    Irq4,
    Irq5,
    Irq6,
    Irq7,
    Irq8,
    Irq9,
    Irq10,
    Irq11,
    Irq12,
    Irq13,
    Irq14,
    Irq15,
}

impl CascadedPicInterruptLine {
    /// The value that represents this variant in hardware.
    pub open spec fn spec_as_u16(self) -> u16 {
        match self {
            CascadedPicInterruptLine::Irq0 => 0x1,
            CascadedPicInterruptLine::Irq1 => 0x2,
            CascadedPicInterruptLine::Irq2 => 0x4,
            CascadedPicInterruptLine::Irq3 => 0x8,
            CascadedPicInterruptLine::Irq4 => 0x10,
            CascadedPicInterruptLine::Irq5 => 0x20,
            CascadedPicInterruptLine::Irq6 => 0x40,
            CascadedPicInterruptLine::Irq7 => 0x80,
            CascadedPicInterruptLine::Irq8 => 0x100,
            CascadedPicInterruptLine::Irq9 => 0x200,
            CascadedPicInterruptLine::Irq10 => 0x400,
            CascadedPicInterruptLine::Irq11 => 0x800,
            CascadedPicInterruptLine::Irq12 => 0x1000,
            CascadedPicInterruptLine::Irq13 => 0x2000,
            CascadedPicInterruptLine::Irq14 => 0x4000,
            CascadedPicInterruptLine::Irq15 => 0x8000,
        }
    }

    /// The value that represents this variant in hardware.
    #[verifier::when_used_as_spec(spec_as_u16)]
    pub fn as_u16(self) -> (r: u16)
        ensures
            r == self.spec_as_u16(),
    {
        match self {
            CascadedPicInterruptLine::Irq0 => 0x1,
            CascadedPicInterruptLine::Irq1 => 0x2,
            CascadedPicInterruptLine::Irq2 => 0x4,
            CascadedPicInterruptLine::Irq3 => 0x8,
            CascadedPicInterruptLine::Irq4 => 0x10,
            CascadedPicInterruptLine::Irq5 => 0x20,
            CascadedPicInterruptLine::Irq6 => 0x40,
            CascadedPicInterruptLine::Irq7 => 0x80,
            CascadedPicInterruptLine::Irq8 => 0x100,
            CascadedPicInterruptLine::Irq9 => 0x200,
            CascadedPicInterruptLine::Irq10 => 0x400,
            CascadedPicInterruptLine::Irq11 => 0x800,
            CascadedPicInterruptLine::Irq12 => 0x1000,
            CascadedPicInterruptLine::Irq13 => 0x2000,
            CascadedPicInterruptLine::Irq14 => 0x4000,
            CascadedPicInterruptLine::Irq15 => 0x8000,
        }
    }
}

/// The interrupt vector that line 0 of each controller raises.
#[derive(Clone, Copy, Debug, PartialEq, Eq, Structural)]
pub enum PicInterruptVectorOffset {
    Master,
    Slave,
}

impl PicInterruptVectorOffset {
    /// The value that represents this variant in hardware.
    pub open spec fn spec_as_u8(self) -> u8 {
        match self {
            PicInterruptVectorOffset::Master => 0x20,
            PicInterruptVectorOffset::Slave => 0x28,
        }
    }

    /// The value that represents this variant in hardware.
    #[verifier::when_used_as_spec(spec_as_u8)]
    pub fn as_u8(self) -> (r: u8)
        ensures
            r == self.spec_as_u8(),
    {
        match self {
            PicInterruptVectorOffset::Master => 0x20,
            PicInterruptVectorOffset::Slave => 0x28,
        }
    }
}

/// Operating modes of the controller (ICW4).
#[derive(Clone, Copy, Debug, PartialEq, Eq, Structural)]
pub enum PicMode {
    Mode8086,
}

impl PicMode {
    /// The value that represents this variant in hardware.
    pub open spec fn spec_as_u8(self) -> u8 {
        match self {
            PicMode::Mode8086 => 0x01,
        }
    }

    /// The value that represents this variant in hardware.
    #[verifier::when_used_as_spec(spec_as_u8)]
    pub fn as_u8(self) -> (r: u8)
        ensures
            r == self.spec_as_u8(),
    {
        match self {
            PicMode::Mode8086 => 0x01,
        }
    }
}

/// The bit arithmetic of the command words and of the lines of the slave.
proof fn lemma_pic_facts()
    by (bit_vector)
    ensures
        0x10u8 | 0x01u8 == 0x11u8,
        0x100u16 >> 8u16 == 1 && 0x200u16 >> 8u16 == 2 && 0x400u16 >> 8u16 == 4 && 0x800u16
            >> 8u16 == 8 && 0x1000u16 >> 8u16 == 0x10 && 0x2000u16 >> 8u16 == 0x20 && 0x4000u16
            >> 8u16 == 0x40 && 0x8000u16 >> 8u16 == 0x80,
{
}

/// A byte to write to an I/O port, and whether to wait for the device
/// afterwards.
#[derive(Clone, Copy, Debug, PartialEq, Eq, Structural)]
pub struct PortWrite {
    pub port: Port,
    pub value: u8,
    pub wait: bool,
}

/// One 8259 controller: its command and data ports and the vector its
/// first line raises.
#[derive(Clone, Copy, Debug)]
struct ProgrammableInterruptController {
    command: Port,
    data: Port,
    interrupt_offset: PicInterruptVectorOffset,
}

/// The value of a port write.
pub open spec fn write_of(port: Port, value: u8, wait: bool) -> PortWrite {
    PortWrite { port, value, wait }
}

impl ProgrammableInterruptController {
    /// The master controller.
    fn default_master() -> (r: ProgrammableInterruptController)
        ensures
            r.command == Port::MasterPicCmd,
            r.data == Port::MasterPicData,
            r.interrupt_offset == PicInterruptVectorOffset::Master,
    {
        ProgrammableInterruptController {
            command: Port::MasterPicCmd,
            data: Port::MasterPicData,
            interrupt_offset: PicInterruptVectorOffset::Master,
        }
    }

    /// The slave controller.
    fn default_slave() -> (r: ProgrammableInterruptController)
        ensures
            r.command == Port::SlavePicCmd,
            r.data == Port::SlavePicData,
            r.interrupt_offset == PicInterruptVectorOffset::Slave,
    {
        ProgrammableInterruptController {
            command: Port::SlavePicCmd,
            data: Port::SlavePicData,
            interrupt_offset: PicInterruptVectorOffset::Slave,
        }
    }

    /// The mask write that masks `irq`, given the mask read from the data
    /// port.
    fn disable_irq(&self, irq: PicInterruptLine, prev_mask: u8) -> (r: PortWrite)
        ensures
            r == write_of(self.data, prev_mask | irq.spec_as_u8(), false),
    {
        PortWrite { port: self.data, value: prev_mask | irq.as_u8(), wait: false }
    }

    /// The mask write that unmasks `irq`, given the mask read from the data
    /// port.
    fn enable_irq(&self, irq: PicInterruptLine, prev_mask: u8) -> (r: PortWrite)
        ensures
            r == write_of(self.data, prev_mask & !irq.spec_as_u8(), false),
    {
        PortWrite { port: self.data, value: prev_mask & !irq.as_u8(), wait: false }
    }

    /// The mask write that unmasks every line.
    fn enable(&self) -> (r: PortWrite)
        ensures
            r == write_of(self.data, 0, false),
    {
        PortWrite { port: self.data, value: 0, wait: false }
    }

    /// The command that acknowledges the interrupt being served.
    fn end_of_interrupt(&self) -> (r: PortWrite)
        ensures
            r == write_of(self.command, 0x20, false),
    {
        PortWrite { port: self.command, value: PicCommandCode::EndOfInterrupt.as_u8(), wait: false }
    }
}

/// The master and the slave controller, the slave on line 2 of the master.
#[derive(Clone, Copy, Debug)]
pub struct CascadedPIC {
    master: ProgrammableInterruptController,
    slave: ProgrammableInterruptController,
}

/// The controller line of a line of the pair: its own bit for lines 0 to 7,
/// the high byte for lines 8 to 15.
pub open spec fn controller_line(irq: CascadedPicInterruptLine) -> u8 {
    if irq.spec_as_u16() >= 0x100 {
        (irq.spec_as_u16() >> 8u16) as u8
    } else {
        irq.spec_as_u16() as u8
    }
}

impl CascadedPIC {
    /// The pair at the usual ports, the master raising vectors from 0x20 and
    /// the slave from 0x28.
    pub fn default() -> (r: CascadedPIC)
        ensures
            r.spec_master_ports() == (Port::MasterPicCmd, Port::MasterPicData),
            r.spec_slave_ports() == (Port::SlavePicCmd, Port::SlavePicData),
            r.spec_offsets() == (PicInterruptVectorOffset::Master, PicInterruptVectorOffset::Slave),
    {
        CascadedPIC {
            master: ProgrammableInterruptController::default_master(),
            slave: ProgrammableInterruptController::default_slave(),
        }
    }

    /// The vector offsets of the master and of the slave.
    pub closed spec fn spec_offsets(&self) -> (PicInterruptVectorOffset, PicInterruptVectorOffset) {
        (self.master.interrupt_offset, self.slave.interrupt_offset)
    }

    /// The command and data ports of the master.
    pub closed spec fn spec_master_ports(&self) -> (Port, Port) {
        (self.master.command, self.master.data)
    }

    /// The command and data ports of the slave.
    pub closed spec fn spec_slave_ports(&self) -> (Port, Port) {
        (self.slave.command, self.slave.data)
    }

    /// The writes that initialize the pair, in order: start the sequence on
    /// both (announcing a fourth word), give each its vector offset, tell
    /// the master the slave is on line 2 and the slave its cascade identity
    /// 2, put both in 8086 mode, waiting after each of these; then unmask
    /// every line of both.
    pub fn init(&self) -> (r: Vec<PortWrite>)
        ensures
            r@ == seq![
                write_of(self.spec_master_ports().0, 0x11, true),
                write_of(self.spec_slave_ports().0, 0x11, true),
                write_of(self.spec_master_ports().1, self.spec_offsets().0.spec_as_u8(), true),
                write_of(self.spec_slave_ports().1, self.spec_offsets().1.spec_as_u8(), true),
                write_of(self.spec_master_ports().1, 0x04, true),
                write_of(self.spec_slave_ports().1, 0x02, true),
                write_of(self.spec_master_ports().1, 0x01, true),
                write_of(self.spec_slave_ports().1, 0x01, true),
                write_of(self.spec_master_ports().1, 0, false),
                write_of(self.spec_slave_ports().1, 0, false),
            ],
    {
        let icw1 = PicCommandCode::Initialize.as_u8() | PicCommandCode::CascadeMode.as_u8();
        proof {
            lemma_pic_facts();
        }
        let mut r: Vec<PortWrite> = Vec::new();
        r.push(PortWrite { port: self.master.command, value: icw1, wait: true });
        r.push(PortWrite { port: self.slave.command, value: icw1, wait: true });
        r.push(
            PortWrite { port: self.master.data, value: self.master.interrupt_offset.as_u8(), wait: true },
        );
        r.push(
            PortWrite { port: self.slave.data, value: self.slave.interrupt_offset.as_u8(), wait: true },
        );
        r.push(PortWrite { port: self.master.data, value: PicInterruptLine::Irq2.as_u8(), wait: true });
        r.push(PortWrite { port: self.slave.data, value: PicInterruptLine::Irq1.as_u8(), wait: true });
        r.push(PortWrite { port: self.master.data, value: PicMode::Mode8086.as_u8(), wait: true });
        r.push(PortWrite { port: self.slave.data, value: PicMode::Mode8086.as_u8(), wait: true });
        r.push(self.master.enable());
        r.push(self.slave.enable());
        assert(r@ =~= seq![
            write_of(self.spec_master_ports().0, 0x11, true),
            write_of(self.spec_slave_ports().0, 0x11, true),
            write_of(self.spec_master_ports().1, self.spec_offsets().0.spec_as_u8(), true),
            write_of(self.spec_slave_ports().1, self.spec_offsets().1.spec_as_u8(), true),
            write_of(self.spec_master_ports().1, 0x04, true),
            write_of(self.spec_slave_ports().1, 0x02, true),
            write_of(self.spec_master_ports().1, 0x01, true),
            write_of(self.spec_slave_ports().1, 0x01, true),
            write_of(self.spec_master_ports().1, 0, false),
            write_of(self.spec_slave_ports().1, 0, false),
        ]);
        r
    }

    /// The data port whose mask holds `irq`: the slave's for lines 8 to 15,
    /// else the master's.
    pub fn irq_data_port(&self, irq: CascadedPicInterruptLine) -> (r: Port)
        ensures
            r == if irq.spec_as_u16() >= 0x100 {
                self.spec_slave_ports().1
            } else {
                self.spec_master_ports().1
            },
    {
        if irq.as_u16() > PicInterruptLine::Irq7.as_u8() as u16 {
            self.slave.data
        } else {
            self.master.data
        }
    }

    /// The controller line of `irq`.
    fn line_of(irq: CascadedPicInterruptLine) -> (r: PicInterruptLine)
        ensures
            r.spec_as_u8() == controller_line(irq),
    {
        let v = irq.as_u16();
        let b: u8 = if v >= 0x100 {
            (v >> 8) as u8
        } else {
            v as u8
        };
        match b {
            0x1 => PicInterruptLine::Irq0,
            0x2 => PicInterruptLine::Irq1,
            0x4 => PicInterruptLine::Irq2,
            0x8 => PicInterruptLine::Irq3,
            0x10 => PicInterruptLine::Irq4,
            0x20 => PicInterruptLine::Irq5,
            0x40 => PicInterruptLine::Irq6,
            _ => {
                assert(b == 0x80) by {
                    assert(v == 0x1 || v == 0x2 || v == 0x4 || v == 0x8 || v == 0x10 || v == 0x20 || v
                        == 0x40 || v == 0x80 || v == 0x100 || v == 0x200 || v == 0x400 || v == 0x800
                        || v == 0x1000 || v == 0x2000 || v == 0x4000 || v == 0x8000);
                    lemma_pic_facts();
                }
                PicInterruptLine::Irq7
            },
        }
    }

    /// The write that masks `irq`, given the mask `prev_mask` read from
    /// `irq_data_port(irq)`.
    pub fn disable_irq(&self, irq: CascadedPicInterruptLine, prev_mask: u8) -> (r: PortWrite)
        ensures
            r.port == self.irq_port_spec(irq),
            r.value == prev_mask | controller_line(irq),
            !r.wait,
    {
        if irq.as_u16() > PicInterruptLine::Irq7.as_u8() as u16 {
            self.slave.disable_irq(Self::line_of(irq), prev_mask)
        } else {
            self.master.disable_irq(Self::line_of(irq), prev_mask)
        }
    }

    /// The write that unmasks `irq`, given the mask `prev_mask` read from
    /// `irq_data_port(irq)`.
    pub fn enable_irq(&self, irq: CascadedPicInterruptLine, prev_mask: u8) -> (r: PortWrite)
        ensures
            r.port == self.irq_port_spec(irq),
            r.value == prev_mask & !controller_line(irq),
            !r.wait,
    {
        if irq.as_u16() >= CascadedPicInterruptLine::Irq8.as_u16() {
            self.slave.enable_irq(Self::line_of(irq), prev_mask)
        } else {
            self.master.enable_irq(Self::line_of(irq), prev_mask)
        }
    }

    /// The data port whose mask holds `irq`.
    pub open spec fn irq_port_spec(&self, irq: CascadedPicInterruptLine) -> Port {
        if irq.spec_as_u16() >= 0x100 {
            self.spec_slave_ports().1
        } else {
            self.spec_master_ports().1
        }
    }

    /// The writes that acknowledge `irq`: to the slave first when the line
    /// is the slave's, then to the master.
    pub fn end_of_interrupt(&self, irq: CascadedPicInterruptLine) -> (r: Vec<PortWrite>)
        ensures
            r@ == if irq.spec_as_u16() >= 0x100 {
                seq![
                    write_of(self.spec_slave_ports().0, 0x20, false),
                    write_of(self.spec_master_ports().0, 0x20, false),
                ]
            } else {
                seq![write_of(self.spec_master_ports().0, 0x20, false)]
            },
    {
        let mut r: Vec<PortWrite> = Vec::new();
        if irq.as_u16() >= CascadedPicInterruptLine::Irq8.as_u16() {
            r.push(self.slave.end_of_interrupt());
        }
        r.push(self.master.end_of_interrupt());
        proof {
            if irq.spec_as_u16() >= 0x100 {
                assert(r@ =~= seq![
                    write_of(self.spec_slave_ports().0, 0x20, false),
                    write_of(self.spec_master_ports().0, 0x20, false),
                ]);
            } else {
                assert(r@ =~= seq![write_of(self.spec_master_ports().0, 0x20, false)]);
            }
        }
        r
    }
}

/// Setting the bits of `bit` in `mask` and clearing them again gives back a
/// mask that had none of them; clearing and setting again gives back one
/// that had all of them.
proof fn lemma_set_clear_bits(mask: u8, bit: u8)
    by (bit_vector)
    ensures
        mask & bit == 0 ==> (mask | bit) & !bit == mask,
        mask & bit == bit ==> (mask & !bit) | bit == mask,
        (mask | bit) & bit == bit,
        (mask & !bit) & bit == 0,
{
}

/// Masking a line and then unmasking it, each from the mask the other left,
/// gives back the mask the line was unmasked in; unmasking a masked line and
/// masking it again gives back the mask it was masked in. A mask written to
/// mask a line has the line's bit set, one written to unmask it has it clear.
pub proof fn lemma_mask_round_trip(irq: CascadedPicInterruptLine, mask: u8)
    ensures
        mask & controller_line(irq) == 0 ==> (mask | controller_line(irq)) & !controller_line(irq) == mask,
        mask & controller_line(irq) == controller_line(irq) ==> (mask & !controller_line(irq))
            | controller_line(irq) == mask,
        (mask | controller_line(irq)) & controller_line(irq) == controller_line(irq),
        (mask & !controller_line(irq)) & controller_line(irq) == 0,
{
    lemma_set_clear_bits(mask, controller_line(irq));
}

} // verus!
