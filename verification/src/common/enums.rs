//! Enumerations of hardware values: BIOS services, page sizes and levels,
//! descriptor table selectors and types, interrupt vectors.
use vstd::prelude::*;

use crate::common::constants::{
    Alignment, Layout, BIG_PAGE_SIZE, HUGE_PAGE_SIZE, REGULAR_PAGE_SIZE,
};
use crate::common::error::{ConversionError, TableError};

verus! {

/// BIOS interrupt services used by the boot stages.
#[derive(Clone, Copy, Debug, PartialEq, Eq, Structural)]
#[allow(non_camel_case_types)]
pub enum Interrupts {
    /// Video services.
    VIDEO,
    /// Disk services.
    DISK,
    /// Memory map services.
    MEMORY,
}

impl Interrupts {
    /// The value that represents this variant in hardware.
    pub open spec fn spec_as_u8(self) -> u8 {
        match self {
            Interrupts::VIDEO => 0x10,
            Interrupts::DISK => 0x13,
            Interrupts::MEMORY => 0x15,
        }
    }

    /// The value that represents this variant in hardware.
    #[verifier::when_used_as_spec(spec_as_u8)]
    pub fn as_u8(self) -> (r: u8)
        ensures
            r == self.spec_as_u8(),
    {
        match self {
            Interrupts::VIDEO => 0x10,
            Interrupts::DISK => 0x13,
            Interrupts::MEMORY => 0x15,
        }
    }
}

/// BIOS disk service functions.
#[derive(Clone, Copy, Debug, PartialEq, Eq, Structural)]
pub enum Disk {
    ExtendedRead,
}

impl Disk {
    /// The value that represents this variant in hardware.
    pub open spec fn spec_as_u8(self) -> u8 {
        match self {
            Disk::ExtendedRead => 0x42,
        }
    }

    /// The value that represents this variant in hardware.
    #[verifier::when_used_as_spec(spec_as_u8)]
    pub fn as_u8(self) -> (r: u8)
        ensures
            r == self.spec_as_u8(),
    {
        match self {
            Disk::ExtendedRead => 0x42,
        }
    }
}

/// BIOS video service functions.
#[derive(Clone, Copy, Debug, PartialEq, Eq, Structural)]
pub enum Video {
    SetMode,
}

impl Video {
    /// The value that represents this variant in hardware.
    pub open spec fn spec_as_u8(self) -> u8 {
        match self {
            Video::SetMode => 0x0,
        }
    }

    /// The value that represents this variant in hardware.
    #[verifier::when_used_as_spec(spec_as_u8)]
    pub fn as_u8(self) -> (r: u8)
        ensures
            r == self.spec_as_u8(),
    {
        match self {
            Video::SetMode => 0x0,
        }
    }
}

/// BIOS video modes.
#[derive(Clone, Copy, Debug, PartialEq, Eq, Structural)]
#[allow(non_camel_case_types)]
pub enum VideoModes {
    /// VGA common text mode: 80x25 text, 9x16 pixel boxes, 720x400 pixels.
    VGA_TX_80X25_PB_9X16_PR_720X400,
}

impl VideoModes {
    /// The value that represents this variant in hardware.
    pub open spec fn spec_as_u8(self) -> u8 {
        match self {
            VideoModes::VGA_TX_80X25_PB_9X16_PR_720X400 => 0x3,
        }
    }

    /// The value that represents this variant in hardware.
    #[verifier::when_used_as_spec(spec_as_u8)]
    pub fn as_u8(self) -> (r: u8)
        ensures
            r == self.spec_as_u8(),
    {
        match self {
            VideoModes::VGA_TX_80X25_PB_9X16_PR_720X400 => 0x3,
        }
    }
}

/// The type of a region of physical memory: the types the BIOS reports, a gap between reported regions, and the area the kernel's init takes.
#[derive(Clone, Copy, Debug, PartialEq, Eq, Structural)]
pub enum MemoryRegionType {
    Unknown,
    Usable,
    Reserved,
    Reclaimable,
    ACPINVS,
    BadMemory,
    Filler,
    UserEnterd,
}

impl MemoryRegionType {
    /// The value that represents this variant in hardware.
    pub open spec fn spec_as_u32(self) -> u32 {
        match self {
            MemoryRegionType::Unknown => 0,
            MemoryRegionType::Usable => 1,
            MemoryRegionType::Reserved => 2,
            MemoryRegionType::Reclaimable => 3,
            MemoryRegionType::ACPINVS => 4,
            MemoryRegionType::BadMemory => 5,
            MemoryRegionType::Filler => 6,
            MemoryRegionType::UserEnterd => 7,
        }
    }

    /// The value that represents this variant in hardware.
    #[verifier::when_used_as_spec(spec_as_u32)]
    pub fn as_u32(self) -> (r: u32)
        ensures
            r == self.spec_as_u32(),
    {
        match self {
            MemoryRegionType::Unknown => 0,
            MemoryRegionType::Usable => 1,
            MemoryRegionType::Reserved => 2,
            MemoryRegionType::Reclaimable => 3,
            MemoryRegionType::ACPINVS => 4,
            MemoryRegionType::BadMemory => 5,
            MemoryRegionType::Filler => 6,
            MemoryRegionType::UserEnterd => 7,
        }
    }

    /// The variant that `value` represents, if any.
    pub open spec fn spec_from_u32(value: u32) -> Option<MemoryRegionType> {
        match value {
            0 => Some(MemoryRegionType::Unknown),
            1 => Some(MemoryRegionType::Usable),
            2 => Some(MemoryRegionType::Reserved),
            3 => Some(MemoryRegionType::Reclaimable),
            4 => Some(MemoryRegionType::ACPINVS),
            5 => Some(MemoryRegionType::BadMemory),
            6 => Some(MemoryRegionType::Filler),
            7 => Some(MemoryRegionType::UserEnterd),
            _ => None,
        }
    }

    /// The variant that `value` represents, or an error that carries `value`
    /// when no variant does.
    pub fn try_from_u32(value: u32) -> (r: Result<MemoryRegionType, ConversionError<u32>>)
        ensures
            r matches Ok(e) ==> Some(e) == MemoryRegionType::spec_from_u32(value),
            r is Err <==> MemoryRegionType::spec_from_u32(value) is None,
            match r {
                Ok(e) => e.as_u32() == value,
                Err(ConversionError::CantConvertFrom(v)) => v == value && forall|e: MemoryRegionType|
                    #[trigger] e.as_u32() != value,
            },
    {
        match value {
            0 => Ok(MemoryRegionType::Unknown),
            1 => Ok(MemoryRegionType::Usable),
            2 => Ok(MemoryRegionType::Reserved),
            3 => Ok(MemoryRegionType::Reclaimable),
            4 => Ok(MemoryRegionType::ACPINVS),
            5 => Ok(MemoryRegionType::BadMemory),
            6 => Ok(MemoryRegionType::Filler),
            7 => Ok(MemoryRegionType::UserEnterd),
            _ => Err(ConversionError::CantConvertFrom(value)),
        }
    }
}

/// Size of a disk address packet.
#[derive(Clone, Copy, Debug, PartialEq, Eq, Structural)]
pub enum PacketSize {
    Default,
}

impl PacketSize {
    /// The value that represents this variant in hardware.
    pub open spec fn spec_as_u8(self) -> u8 {
        match self {
            PacketSize::Default => 0x10,
        }
    }

    /// The value that represents this variant in hardware.
    #[verifier::when_used_as_spec(spec_as_u8)]
    pub fn as_u8(self) -> (r: u8)
        ensures
            r == self.spec_as_u8(),
    {
        match self {
            PacketSize::Default => 0x10,
        }
    }
}

/// A privilege ring of the processor.
#[derive(Clone, Copy, Debug, PartialEq, Eq, Structural)]
pub enum ProtectionLevel {
    Ring0,
    Ring1,
    Ring2,
    Ring3,
}

impl ProtectionLevel {
    /// The value that represents this variant in hardware.
    pub open spec fn spec_as_u8(self) -> u8 {
        match self {
            ProtectionLevel::Ring0 => 0,
            ProtectionLevel::Ring1 => 1,
            ProtectionLevel::Ring2 => 2,
            ProtectionLevel::Ring3 => 3,
        }
    }

    /// The value that represents this variant in hardware.
    #[verifier::when_used_as_spec(spec_as_u8)]
    pub fn as_u8(self) -> (r: u8)
        ensures
            r == self.spec_as_u8(),
    {
        match self {
            ProtectionLevel::Ring0 => 0,
            ProtectionLevel::Ring1 => 1,
            ProtectionLevel::Ring2 => 2,
            ProtectionLevel::Ring3 => 3,
        }
    }

    /// The variant that `value` represents, if any.
    pub open spec fn spec_from_u8(value: u8) -> Option<ProtectionLevel> {
        match value {
            0 => Some(ProtectionLevel::Ring0),
            1 => Some(ProtectionLevel::Ring1),
            2 => Some(ProtectionLevel::Ring2),
            3 => Some(ProtectionLevel::Ring3),
            _ => None,
        }
    }

    /// The variant that `value` represents, or an error that carries `value`
    /// when no variant does.
    pub fn try_from_u8(value: u8) -> (r: Result<ProtectionLevel, ConversionError<u8>>)
        ensures
            r matches Ok(e) ==> Some(e) == ProtectionLevel::spec_from_u8(value),
            r is Err <==> ProtectionLevel::spec_from_u8(value) is None,
            match r {
                Ok(e) => e.as_u8() == value,
                Err(ConversionError::CantConvertFrom(v)) => v == value && forall|e: ProtectionLevel|
                    #[trigger] e.as_u8() != value,
            },
    {
        match value {
            0 => Ok(ProtectionLevel::Ring0),
            1 => Ok(ProtectionLevel::Ring1),
            2 => Ok(ProtectionLevel::Ring2),
            3 => Ok(ProtectionLevel::Ring3),
            _ => Err(ConversionError::CantConvertFrom(value)),
        }
    }
}

/// Offsets of the segments in the kernel's global descriptor table.
#[derive(Clone, Copy, Debug, PartialEq, Eq, Structural)]
pub enum Sections {
    Null,
    KernelCode,
    KernelData,
    UserCode,
    UserData,
    TaskStateSegment,
}

impl Sections {
    /// The value that represents this variant in hardware.
    pub open spec fn spec_as_u16(self) -> u16 {
        match self {
            Sections::Null => 0x0,
            Sections::KernelCode => 0x8,
            Sections::KernelData => 0x10,
            Sections::UserCode => 0x18,
            Sections::UserData => 0x20,
            Sections::TaskStateSegment => 0x28,
        }
    }

    /// The value that represents this variant in hardware.
    #[verifier::when_used_as_spec(spec_as_u16)]
    pub fn as_u16(self) -> (r: u16)
        ensures
            r == self.spec_as_u16(),
    {
        match self {
            Sections::Null => 0x0,
            Sections::KernelCode => 0x8,
            Sections::KernelData => 0x10,
            Sections::UserCode => 0x18,
            Sections::UserData => 0x20,
            Sections::TaskStateSegment => 0x28,
        }
    }

    /// The variant that `value` represents, if any.
    pub open spec fn spec_from_u16(value: u16) -> Option<Sections> {
        match value {
            0x0 => Some(Sections::Null),
            0x8 => Some(Sections::KernelCode),
            0x10 => Some(Sections::KernelData),
            0x18 => Some(Sections::UserCode),
            0x20 => Some(Sections::UserData),
            0x28 => Some(Sections::TaskStateSegment),
            _ => None,
        }
    }

    /// The variant that `value` represents, or an error that carries `value`
    /// when no variant does.
    pub fn try_from_u16(value: u16) -> (r: Result<Sections, ConversionError<u16>>)
        ensures
            r matches Ok(e) ==> Some(e) == Sections::spec_from_u16(value),
            r is Err <==> Sections::spec_from_u16(value) is None,
            match r {
                Ok(e) => e.as_u16() == value,
                Err(ConversionError::CantConvertFrom(v)) => v == value && forall|e: Sections|
                    #[trigger] e.as_u16() != value,
            },
    {
        match value {
            0x0 => Ok(Sections::Null),
            0x8 => Ok(Sections::KernelCode),
            0x10 => Ok(Sections::KernelData),
            0x18 => Ok(Sections::UserCode),
            0x20 => Ok(Sections::UserData),
            0x28 => Ok(Sections::TaskStateSegment),
            _ => Err(ConversionError::CantConvertFrom(value)),
        }
    }
}

/// Types of system segments (Intel SDM, volume 3).
#[derive(Clone, Copy, Debug, PartialEq, Eq, Structural)]
pub enum SystemSegmentType {
    TaskStateSegmentAvailable,
    CallGate,
    InterruptGate,
    TrapGate,
}

impl SystemSegmentType {
    /// The value that represents this variant in hardware.
    pub open spec fn spec_as_u8(self) -> u8 {
        match self {
            SystemSegmentType::TaskStateSegmentAvailable => 0b1001,
            SystemSegmentType::CallGate => 0b1100,
            SystemSegmentType::InterruptGate => 0b1110,
            SystemSegmentType::TrapGate => 0b1111,
        }
    }

    /// The value that represents this variant in hardware.
    #[verifier::when_used_as_spec(spec_as_u8)]
    pub fn as_u8(self) -> (r: u8)
        ensures
            r == self.spec_as_u8(),
    {
        match self {
            SystemSegmentType::TaskStateSegmentAvailable => 0b1001,
            SystemSegmentType::CallGate => 0b1100,
            SystemSegmentType::InterruptGate => 0b1110,
            SystemSegmentType::TrapGate => 0b1111,
        }
    }

    /// The variant that `value` represents, if any.
    pub open spec fn spec_from_u8(value: u8) -> Option<SystemSegmentType> {
        match value {
            0b1001 => Some(SystemSegmentType::TaskStateSegmentAvailable),
            0b1100 => Some(SystemSegmentType::CallGate),
            0b1110 => Some(SystemSegmentType::InterruptGate),
            0b1111 => Some(SystemSegmentType::TrapGate),
            _ => None,
        }
    }

    /// The variant that `value` represents, or an error that carries `value`
    /// when no variant does.
    pub fn try_from_u8(value: u8) -> (r: Result<SystemSegmentType, ConversionError<u8>>)
        ensures
            r matches Ok(e) ==> Some(e) == SystemSegmentType::spec_from_u8(value),
            r is Err <==> SystemSegmentType::spec_from_u8(value) is None,
            match r {
                Ok(e) => e.as_u8() == value,
                Err(ConversionError::CantConvertFrom(v)) => v == value && forall|e: SystemSegmentType|
                    #[trigger] e.as_u8() != value,
            },
    {
        match value {
            0b1001 => Ok(SystemSegmentType::TaskStateSegmentAvailable),
            0b1100 => Ok(SystemSegmentType::CallGate),
            0b1110 => Ok(SystemSegmentType::InterruptGate),
            0b1111 => Ok(SystemSegmentType::TrapGate),
            _ => Err(ConversionError::CantConvertFrom(value)),
        }
    }
}

/// Whether a descriptor describes a system segment or a code or data segment.
#[derive(Clone, Copy, Debug, PartialEq, Eq, Structural)]
pub enum SegmentDescriptorType {
    System,
    CodeOrData,
}

impl SegmentDescriptorType {
    /// The value that represents this variant in hardware.
    pub open spec fn spec_as_u8(self) -> u8 {
        match self {
            SegmentDescriptorType::System => 0,
            SegmentDescriptorType::CodeOrData => 1,
        }
    }

    /// The value that represents this variant in hardware.
    #[verifier::when_used_as_spec(spec_as_u8)]
    pub fn as_u8(self) -> (r: u8)
        ensures
            r == self.spec_as_u8(),
    {
        match self {
            SegmentDescriptorType::System => 0,
            SegmentDescriptorType::CodeOrData => 1,
        }
    }

    /// The variant that `value` represents, if any.
    pub open spec fn spec_from_u8(value: u8) -> Option<SegmentDescriptorType> {
        match value {
            0 => Some(SegmentDescriptorType::System),
            1 => Some(SegmentDescriptorType::CodeOrData),
            _ => None,
        }
    }

    /// The variant that `value` represents, or an error that carries `value`
    /// when no variant does.
    pub fn try_from_u8(value: u8) -> (r: Result<SegmentDescriptorType, ConversionError<u8>>)
        ensures
            r matches Ok(e) ==> Some(e) == SegmentDescriptorType::spec_from_u8(value),
            r is Err <==> SegmentDescriptorType::spec_from_u8(value) is None,
            match r {
                Ok(e) => e.as_u8() == value,
                Err(ConversionError::CantConvertFrom(v)) => v == value && forall|e: SegmentDescriptorType|
                    #[trigger] e.as_u8() != value,
            },
    {
        match value {
            0 => Ok(SegmentDescriptorType::System),
            1 => Ok(SegmentDescriptorType::CodeOrData),
            _ => Err(ConversionError::CantConvertFrom(value)),
        }
    }
}

/// Interrupt vectors handled by the kernel.
#[derive(Clone, Copy, Debug, PartialEq, Eq, Structural)]
pub enum Interrupt {
    DivisionError,
    Debug,
    NonMaskableInterrupt,
    Breakpoint,
    Overflow,
    BoundRangeExceeded,
    InvalidOpcode,
    DeviceNotFound,
    DoubleFault,
    CoprocessorSegmentOverrun,
    InvalidTSS,
    SegmentNotPresent,
    StackSegmentFault,
    GeneralProtection,
    PageFault,
    IntelReserved,
    FloatingPointError,
    AlignmentCheck,
    MachineCheck,
    SIMD,
    Virtualization,
    ControlProtection,
    Timer,
    Keyboard,
    Ahci,
}

impl Interrupt {
    /// The value that represents this variant in hardware.
    pub open spec fn spec_as_u8(self) -> u8 {
        match self {
            Interrupt::DivisionError => 0x0,
            Interrupt::Debug => 0x1,
            Interrupt::NonMaskableInterrupt => 0x2,
            Interrupt::Breakpoint => 0x3,
            Interrupt::Overflow => 0x4,
            Interrupt::BoundRangeExceeded => 0x5,
            Interrupt::InvalidOpcode => 0x6,
            Interrupt::DeviceNotFound => 0x7,
            Interrupt::DoubleFault => 0x8,
            Interrupt::CoprocessorSegmentOverrun => 0x9,
            Interrupt::InvalidTSS => 0xa,
            Interrupt::SegmentNotPresent => 0xb,
            Interrupt::StackSegmentFault => 0xc,
            Interrupt::GeneralProtection => 0xd,
            Interrupt::PageFault => 0xe,
            Interrupt::IntelReserved => 0xf,
            Interrupt::FloatingPointError => 0x10,
            Interrupt::AlignmentCheck => 0x11,
            Interrupt::MachineCheck => 0x12,
            Interrupt::SIMD => 0x13,
            Interrupt::Virtualization => 0x14,
            Interrupt::ControlProtection => 0x15,
            Interrupt::Timer => 0x20,
            Interrupt::Keyboard => 0x21,
            Interrupt::Ahci => 0x2a,
        }
    }

    /// The value that represents this variant in hardware.
    #[verifier::when_used_as_spec(spec_as_u8)]
    pub fn as_u8(self) -> (r: u8)
        ensures
            r == self.spec_as_u8(),
    {
        match self {
            Interrupt::DivisionError => 0x0,
            Interrupt::Debug => 0x1,
            Interrupt::NonMaskableInterrupt => 0x2,
            Interrupt::Breakpoint => 0x3,
            Interrupt::Overflow => 0x4,
            Interrupt::BoundRangeExceeded => 0x5,
            Interrupt::InvalidOpcode => 0x6,
            Interrupt::DeviceNotFound => 0x7,
            Interrupt::DoubleFault => 0x8,
            Interrupt::CoprocessorSegmentOverrun => 0x9,
            Interrupt::InvalidTSS => 0xa,
            Interrupt::SegmentNotPresent => 0xb,
            Interrupt::StackSegmentFault => 0xc,
            Interrupt::GeneralProtection => 0xd,
            Interrupt::PageFault => 0xe,
            Interrupt::IntelReserved => 0xf,
            Interrupt::FloatingPointError => 0x10,
            Interrupt::AlignmentCheck => 0x11,
            Interrupt::MachineCheck => 0x12,
            Interrupt::SIMD => 0x13,
            Interrupt::Virtualization => 0x14,
            Interrupt::ControlProtection => 0x15,
            Interrupt::Timer => 0x20,
            Interrupt::Keyboard => 0x21,
            Interrupt::Ahci => 0x2a,
        }
    }
}

/// The interrupt stack table slot used by an interrupt descriptor; `NoStack` keeps the current stack.
#[derive(Clone, Copy, Debug, PartialEq, Eq, Structural)]
pub enum InterruptStackTable {
    NoStack,
    IST1,
    IST2,
    IST3,
    IST4,
    IST5,
    IST6,
    IST7,
}

impl InterruptStackTable {
    /// The value that represents this variant in hardware.
    pub open spec fn spec_as_u8(self) -> u8 {
        match self {
            InterruptStackTable::NoStack => 0,
            InterruptStackTable::IST1 => 1,
            InterruptStackTable::IST2 => 2,
            InterruptStackTable::IST3 => 3,
            InterruptStackTable::IST4 => 4,
            InterruptStackTable::IST5 => 5,
            InterruptStackTable::IST6 => 6,
            InterruptStackTable::IST7 => 7,
        }
    }

    /// The value that represents this variant in hardware.
    #[verifier::when_used_as_spec(spec_as_u8)]
    pub fn as_u8(self) -> (r: u8)
        ensures
            r == self.spec_as_u8(),
    {
        match self {
            InterruptStackTable::NoStack => 0,
            InterruptStackTable::IST1 => 1,
            InterruptStackTable::IST2 => 2,
            InterruptStackTable::IST3 => 3,
            InterruptStackTable::IST4 => 4,
            InterruptStackTable::IST5 => 5,
            InterruptStackTable::IST6 => 6,
            InterruptStackTable::IST7 => 7,
        }
    }
}

/// Gate types of interrupt descriptor table entries.
#[derive(Clone, Copy, Debug, PartialEq, Eq, Structural)]
pub enum InterruptType {
    Fault,
    Trap,
}

impl InterruptType {
    /// The value that represents this variant in hardware.
    pub open spec fn spec_as_u8(self) -> u8 {
        match self {
            InterruptType::Fault => 0xe,
            InterruptType::Trap => 0xf,
        }
    }

    /// The value that represents this variant in hardware.
    #[verifier::when_used_as_spec(spec_as_u8)]
    pub fn as_u8(self) -> (r: u8)
        ensures
            r == self.spec_as_u8(),
    {
        match self {
            InterruptType::Fault => 0xe,
            InterruptType::Trap => 0xf,
        }
    }

    /// The variant that `value` represents, if any.
    pub open spec fn spec_from_u8(value: u8) -> Option<InterruptType> {
        match value {
            0xe => Some(InterruptType::Fault),
            0xf => Some(InterruptType::Trap),
            _ => None,
        }
    }

    /// The variant that `value` represents, or an error that carries `value`
    /// when no variant does.
    pub fn try_from_u8(value: u8) -> (r: Result<InterruptType, ConversionError<u8>>)
        ensures
            r matches Ok(e) ==> Some(e) == InterruptType::spec_from_u8(value),
            r is Err <==> InterruptType::spec_from_u8(value) is None,
            match r {
                Ok(e) => e.as_u8() == value,
                Err(ConversionError::CantConvertFrom(v)) => v == value && forall|e: InterruptType|
                    #[trigger] e.as_u8() != value,
            },
    {
        match value {
            0xe => Ok(InterruptType::Fault),
            0xf => Ok(InterruptType::Trap),
            _ => Err(ConversionError::CantConvertFrom(value)),
        }
    }
}

/// Page fault cause: non present page or protection violation.
#[derive(Clone, Copy, Debug, PartialEq, Eq, Structural)]
pub enum P {
    NonPresentPage,
    ProtectionViolation,
}

impl P {
    /// The value that represents this variant in hardware.
    pub open spec fn spec_as_u8(self) -> u8 {
        match self {
            P::NonPresentPage => 0,
            P::ProtectionViolation => 1,
        }
    }

    /// The value that represents this variant in hardware.
    #[verifier::when_used_as_spec(spec_as_u8)]
    pub fn as_u8(self) -> (r: u8)
        ensures
            r == self.spec_as_u8(),
    {
        match self {
            P::NonPresentPage => 0,
            P::ProtectionViolation => 1,
        }
    }

    /// The variant that `value` represents, if any.
    pub open spec fn spec_from_u8(value: u8) -> Option<P> {
        match value {
            0 => Some(P::NonPresentPage),
            1 => Some(P::ProtectionViolation),
            _ => None,
        }
    }

    /// The variant that `value` represents, or an error that carries `value`
    /// when no variant does.
    pub fn try_from_u8(value: u8) -> (r: Result<P, ConversionError<u8>>)
        ensures
            r matches Ok(e) ==> Some(e) == P::spec_from_u8(value),
            r is Err <==> P::spec_from_u8(value) is None,
            match r {
                Ok(e) => e.as_u8() == value,
                Err(ConversionError::CantConvertFrom(v)) => v == value && forall|e: P|
                    #[trigger] e.as_u8() != value,
            },
    {
        match value {
            0 => Ok(P::NonPresentPage),
            1 => Ok(P::ProtectionViolation),
            _ => Err(ConversionError::CantConvertFrom(value)),
        }
    }
}

/// Page fault access: read or write.
#[derive(Clone, Copy, Debug, PartialEq, Eq, Structural)]
pub enum WR {
    ReadOperation,
    WriteOperation,
}

impl WR {
    /// The value that represents this variant in hardware.
    pub open spec fn spec_as_u8(self) -> u8 {
        match self {
            WR::ReadOperation => 0,
            WR::WriteOperation => 1,
        }
    }

    /// The value that represents this variant in hardware.
    #[verifier::when_used_as_spec(spec_as_u8)]
    pub fn as_u8(self) -> (r: u8)
        ensures
            r == self.spec_as_u8(),
    {
        match self {
            WR::ReadOperation => 0,
            WR::WriteOperation => 1,
        }
    }

    /// The variant that `value` represents, if any.
    pub open spec fn spec_from_u8(value: u8) -> Option<WR> {
        match value {
            0 => Some(WR::ReadOperation),
            1 => Some(WR::WriteOperation),
            _ => None,
        }
    }

    /// The variant that `value` represents, or an error that carries `value`
    /// when no variant does.
    pub fn try_from_u8(value: u8) -> (r: Result<WR, ConversionError<u8>>)
        ensures
            r matches Ok(e) ==> Some(e) == WR::spec_from_u8(value),
            r is Err <==> WR::spec_from_u8(value) is None,
            match r {
                Ok(e) => e.as_u8() == value,
                Err(ConversionError::CantConvertFrom(v)) => v == value && forall|e: WR|
                    #[trigger] e.as_u8() != value,
            },
    {
        match value {
            0 => Ok(WR::ReadOperation),
            1 => Ok(WR::WriteOperation),
            _ => Err(ConversionError::CantConvertFrom(value)),
        }
    }
}

/// Page fault privilege: supervisor or user.
#[derive(Clone, Copy, Debug, PartialEq, Eq, Structural)]
pub enum US {
    SuperviserCauseFault,
    UserCausedFault,
}

impl US {
    /// The value that represents this variant in hardware.
    pub open spec fn spec_as_u8(self) -> u8 {
        match self {
            US::SuperviserCauseFault => 0,
            US::UserCausedFault => 1,
        }
    }

    /// The value that represents this variant in hardware.
    #[verifier::when_used_as_spec(spec_as_u8)]
    pub fn as_u8(self) -> (r: u8)
        ensures
            r == self.spec_as_u8(),
    {
        match self {
            US::SuperviserCauseFault => 0,
            US::UserCausedFault => 1,
        }
    }

    /// The variant that `value` represents, if any.
    pub open spec fn spec_from_u8(value: u8) -> Option<US> {
        match value {
            0 => Some(US::SuperviserCauseFault),
            1 => Some(US::UserCausedFault),
            _ => None,
        }
    }

    /// The variant that `value` represents, or an error that carries `value`
    /// when no variant does.
    pub fn try_from_u8(value: u8) -> (r: Result<US, ConversionError<u8>>)
        ensures
            r matches Ok(e) ==> Some(e) == US::spec_from_u8(value),
            r is Err <==> US::spec_from_u8(value) is None,
            match r {
                Ok(e) => e.as_u8() == value,
                Err(ConversionError::CantConvertFrom(v)) => v == value && forall|e: US|
                    #[trigger] e.as_u8() != value,
            },
    {
        match value {
            0 => Ok(US::SuperviserCauseFault),
            1 => Ok(US::UserCausedFault),
            _ => Err(ConversionError::CantConvertFrom(value)),
        }
    }
}

/// Page fault caused by a reserved bit.
#[derive(Clone, Copy, Debug, PartialEq, Eq, Structural)]
pub enum Reserved {
    NotReservedBit,
    ReservedBitWasSet,
}

impl Reserved {
    /// The value that represents this variant in hardware.
    pub open spec fn spec_as_u8(self) -> u8 {
        match self {
            Reserved::NotReservedBit => 0,
            Reserved::ReservedBitWasSet => 1,
        }
    }

    /// The value that represents this variant in hardware.
    #[verifier::when_used_as_spec(spec_as_u8)]
    pub fn as_u8(self) -> (r: u8)
        ensures
            r == self.spec_as_u8(),
    {
        match self {
            Reserved::NotReservedBit => 0,
            Reserved::ReservedBitWasSet => 1,
        }
    }

    /// The variant that `value` represents, if any.
    pub open spec fn spec_from_u8(value: u8) -> Option<Reserved> {
        match value {
            0 => Some(Reserved::NotReservedBit),
            1 => Some(Reserved::ReservedBitWasSet),
            _ => None,
        }
    }

    /// The variant that `value` represents, or an error that carries `value`
    /// when no variant does.
    pub fn try_from_u8(value: u8) -> (r: Result<Reserved, ConversionError<u8>>)
        ensures
            r matches Ok(e) ==> Some(e) == Reserved::spec_from_u8(value),
            r is Err <==> Reserved::spec_from_u8(value) is None,
            match r {
                Ok(e) => e.as_u8() == value,
                Err(ConversionError::CantConvertFrom(v)) => v == value && forall|e: Reserved|
                    #[trigger] e.as_u8() != value,
            },
    {
        match value {
            0 => Ok(Reserved::NotReservedBit),
            1 => Ok(Reserved::ReservedBitWasSet),
            _ => Err(ConversionError::CantConvertFrom(value)),
        }
    }
}

/// Page fault caused by an instruction fetch.
#[derive(Clone, Copy, Debug, PartialEq, Eq, Structural)]
pub enum Fetch {
    NotCauseByInstructionFetch,
    CauseByInstructionFetch,
}

impl Fetch {
    /// The value that represents this variant in hardware.
    pub open spec fn spec_as_u8(self) -> u8 {
        match self {
            Fetch::NotCauseByInstructionFetch => 0,
            Fetch::CauseByInstructionFetch => 1,
        }
    }

    /// The value that represents this variant in hardware.
    #[verifier::when_used_as_spec(spec_as_u8)]
    pub fn as_u8(self) -> (r: u8)
        ensures
            r == self.spec_as_u8(),
    {
        match self {
            Fetch::NotCauseByInstructionFetch => 0,
            Fetch::CauseByInstructionFetch => 1,
        }
    }

    /// The variant that `value` represents, if any.
    pub open spec fn spec_from_u8(value: u8) -> Option<Fetch> {
        match value {
            0 => Some(Fetch::NotCauseByInstructionFetch),
            1 => Some(Fetch::CauseByInstructionFetch),
            _ => None,
        }
    }

    /// The variant that `value` represents, or an error that carries `value`
    /// when no variant does.
    pub fn try_from_u8(value: u8) -> (r: Result<Fetch, ConversionError<u8>>)
        ensures
            r matches Ok(e) ==> Some(e) == Fetch::spec_from_u8(value),
            r is Err <==> Fetch::spec_from_u8(value) is None,
            match r {
                Ok(e) => e.as_u8() == value,
                Err(ConversionError::CantConvertFrom(v)) => v == value && forall|e: Fetch|
                    #[trigger] e.as_u8() != value,
            },
    {
        match value {
            0 => Ok(Fetch::NotCauseByInstructionFetch),
            1 => Ok(Fetch::CauseByInstructionFetch),
            _ => Err(ConversionError::CantConvertFrom(value)),
        }
    }
}

/// Page fault caused by a protection key.
#[derive(Clone, Copy, Debug, PartialEq, Eq, Structural)]
pub enum PK {
    NotCauseByProtectionKey,
    CauseByProtectionKey,
}

impl PK {
    /// The value that represents this variant in hardware.
    pub open spec fn spec_as_u8(self) -> u8 {
        match self {
            PK::NotCauseByProtectionKey => 0,
            PK::CauseByProtectionKey => 1,
        }
    }

    /// The value that represents this variant in hardware.
    #[verifier::when_used_as_spec(spec_as_u8)]
    pub fn as_u8(self) -> (r: u8)
        ensures
            r == self.spec_as_u8(),
    {
        match self {
            PK::NotCauseByProtectionKey => 0,
            PK::CauseByProtectionKey => 1,
        }
    }

    /// The variant that `value` represents, if any.
    pub open spec fn spec_from_u8(value: u8) -> Option<PK> {
        match value {
            0 => Some(PK::NotCauseByProtectionKey),
            1 => Some(PK::CauseByProtectionKey),
            _ => None,
        }
    }

    /// The variant that `value` represents, or an error that carries `value`
    /// when no variant does.
    pub fn try_from_u8(value: u8) -> (r: Result<PK, ConversionError<u8>>)
        ensures
            r matches Ok(e) ==> Some(e) == PK::spec_from_u8(value),
            r is Err <==> PK::spec_from_u8(value) is None,
            match r {
                Ok(e) => e.as_u8() == value,
                Err(ConversionError::CantConvertFrom(v)) => v == value && forall|e: PK|
                    #[trigger] e.as_u8() != value,
            },
    {
        match value {
            0 => Ok(PK::NotCauseByProtectionKey),
            1 => Ok(PK::CauseByProtectionKey),
            _ => Err(ConversionError::CantConvertFrom(value)),
        }
    }
}

/// Page fault caused by a shadow stack access.
#[derive(Clone, Copy, Debug, PartialEq, Eq, Structural)]
pub enum SS {
    NotShadowStackAccess,
    CauseByShadowStackAccess,
}

impl SS {
    /// The value that represents this variant in hardware.
    pub open spec fn spec_as_u8(self) -> u8 {
        match self {
            SS::NotShadowStackAccess => 0,
            SS::CauseByShadowStackAccess => 1,
        }
    }

    /// The value that represents this variant in hardware.
    #[verifier::when_used_as_spec(spec_as_u8)]
    pub fn as_u8(self) -> (r: u8)
        ensures
            r == self.spec_as_u8(),
    {
        match self {
            SS::NotShadowStackAccess => 0,
            SS::CauseByShadowStackAccess => 1,
        }
    }

    /// The variant that `value` represents, if any.
    pub open spec fn spec_from_u8(value: u8) -> Option<SS> {
        match value {
            0 => Some(SS::NotShadowStackAccess),
            1 => Some(SS::CauseByShadowStackAccess),
            _ => None,
        }
    }

    /// The variant that `value` represents, or an error that carries `value`
    /// when no variant does.
    pub fn try_from_u8(value: u8) -> (r: Result<SS, ConversionError<u8>>)
        ensures
            r matches Ok(e) ==> Some(e) == SS::spec_from_u8(value),
            r is Err <==> SS::spec_from_u8(value) is None,
            match r {
                Ok(e) => e.as_u8() == value,
                Err(ConversionError::CantConvertFrom(v)) => v == value && forall|e: SS|
                    #[trigger] e.as_u8() != value,
            },
    {
        match value {
            0 => Ok(SS::NotShadowStackAccess),
            1 => Ok(SS::CauseByShadowStackAccess),
            _ => Err(ConversionError::CantConvertFrom(value)),
        }
    }
}

/// Page fault during HLAT paging.
#[derive(Clone, Copy, Debug, PartialEq, Eq, Structural)]
pub enum Hlat {
    CauseDuringOrdinaryPagingAccess,
    CausedDuringHLATPaging,
}

impl Hlat {
    /// The value that represents this variant in hardware.
    pub open spec fn spec_as_u8(self) -> u8 {
        match self {
            Hlat::CauseDuringOrdinaryPagingAccess => 0,
            Hlat::CausedDuringHLATPaging => 1,
        }
    }

    /// The value that represents this variant in hardware.
    #[verifier::when_used_as_spec(spec_as_u8)]
    pub fn as_u8(self) -> (r: u8)
        ensures
            r == self.spec_as_u8(),
    {
        match self {
            Hlat::CauseDuringOrdinaryPagingAccess => 0,
            Hlat::CausedDuringHLATPaging => 1,
        }
    }

    /// The variant that `value` represents, if any.
    pub open spec fn spec_from_u8(value: u8) -> Option<Hlat> {
        match value {
            0 => Some(Hlat::CauseDuringOrdinaryPagingAccess),
            1 => Some(Hlat::CausedDuringHLATPaging),
            _ => None,
        }
    }

    /// The variant that `value` represents, or an error that carries `value`
    /// when no variant does.
    pub fn try_from_u8(value: u8) -> (r: Result<Hlat, ConversionError<u8>>)
        ensures
            r matches Ok(e) ==> Some(e) == Hlat::spec_from_u8(value),
            r is Err <==> Hlat::spec_from_u8(value) is None,
            match r {
                Ok(e) => e.as_u8() == value,
                Err(ConversionError::CantConvertFrom(v)) => v == value && forall|e: Hlat|
                    #[trigger] e.as_u8() != value,
            },
    {
        match value {
            0 => Ok(Hlat::CauseDuringOrdinaryPagingAccess),
            1 => Ok(Hlat::CausedDuringHLATPaging),
            _ => Err(ConversionError::CantConvertFrom(value)),
        }
    }
}

/// Page fault related to SGX.
#[derive(Clone, Copy, Debug, PartialEq, Eq, Structural)]
pub enum Sgx {
    NotRelatedToSgx,
    RelatedToS,
}

impl Sgx {
    /// The value that represents this variant in hardware.
    pub open spec fn spec_as_u8(self) -> u8 {
        match self {
            Sgx::NotRelatedToSgx => 0,
            Sgx::RelatedToS => 1,
        }
    }

    /// The value that represents this variant in hardware.
    #[verifier::when_used_as_spec(spec_as_u8)]
    pub fn as_u8(self) -> (r: u8)
        ensures
            r == self.spec_as_u8(),
    {
        match self {
            Sgx::NotRelatedToSgx => 0,
            Sgx::RelatedToS => 1,
        }
    }

    /// The variant that `value` represents, if any.
    pub open spec fn spec_from_u8(value: u8) -> Option<Sgx> {
        match value {
            0 => Some(Sgx::NotRelatedToSgx),
            1 => Some(Sgx::RelatedToS),
            _ => None,
        }
    }

    /// The variant that `value` represents, or an error that carries `value`
    /// when no variant does.
    pub fn try_from_u8(value: u8) -> (r: Result<Sgx, ConversionError<u8>>)
        ensures
            r matches Ok(e) ==> Some(e) == Sgx::spec_from_u8(value),
            r is Err <==> Sgx::spec_from_u8(value) is None,
            match r {
                Ok(e) => e.as_u8() == value,
                Err(ConversionError::CantConvertFrom(v)) => v == value && forall|e: Sgx|
                    #[trigger] e.as_u8() != value,
            },
    {
        match value {
            0 => Ok(Sgx::NotRelatedToSgx),
            1 => Ok(Sgx::RelatedToS),
            _ => Err(ConversionError::CantConvertFrom(value)),
        }
    }
}

/// The sixteen colours of the VGA text mode palette.
#[derive(Clone, Copy, Debug, PartialEq, Eq, Structural)]
pub enum Color {
    Black,
    Blue,
    Green,
    Cyan,
    Red,
    Magenta,
    Brown,
    LightGray,
    DarkGray,
    LightBlue,
    LightGreen,
    LightCyan,
    LightRed,
    Pink,
    Yellow,
    White,
}

impl Color {
    /// The value that represents this variant in hardware.
    pub open spec fn spec_as_u8(self) -> u8 {
        match self {
            Color::Black => 0,
            Color::Blue => 1,
            Color::Green => 2,
            Color::Cyan => 3,
            Color::Red => 4,
            Color::Magenta => 5,
            Color::Brown => 6,
            Color::LightGray => 7,
            Color::DarkGray => 8,
            Color::LightBlue => 9,
            Color::LightGreen => 10,
            Color::LightCyan => 11,
            Color::LightRed => 12,
            Color::Pink => 13,
            Color::Yellow => 14,
            Color::White => 15,
        }
    }

    /// The value that represents this variant in hardware.
    #[verifier::when_used_as_spec(spec_as_u8)]
    pub fn as_u8(self) -> (r: u8)
        ensures
            r == self.spec_as_u8(),
    {
        match self {
            Color::Black => 0,
            Color::Blue => 1,
            Color::Green => 2,
            Color::Cyan => 3,
            Color::Red => 4,
            Color::Magenta => 5,
            Color::Brown => 6,
            Color::LightGray => 7,
            Color::DarkGray => 8,
            Color::LightBlue => 9,
            Color::LightGreen => 10,
            Color::LightCyan => 11,
            Color::LightRed => 12,
            Color::Pink => 13,
            Color::Yellow => 14,
            Color::White => 15,
        }
    }

    /// The variant that `value` represents, if any.
    pub open spec fn spec_from_u8(value: u8) -> Option<Color> {
        match value {
            0 => Some(Color::Black),
            1 => Some(Color::Blue),
            2 => Some(Color::Green),
            3 => Some(Color::Cyan),
            4 => Some(Color::Red),
            5 => Some(Color::Magenta),
            6 => Some(Color::Brown),
            7 => Some(Color::LightGray),
            8 => Some(Color::DarkGray),
            9 => Some(Color::LightBlue),
            10 => Some(Color::LightGreen),
            11 => Some(Color::LightCyan),
            12 => Some(Color::LightRed),
            13 => Some(Color::Pink),
            14 => Some(Color::Yellow),
            15 => Some(Color::White),
            _ => None,
        }
    }

    /// The variant that `value` represents, or an error that carries `value`
    /// when no variant does.
    pub fn try_from_u8(value: u8) -> (r: Result<Color, ConversionError<u8>>)
        ensures
            r matches Ok(e) ==> Some(e) == Color::spec_from_u8(value),
            r is Err <==> Color::spec_from_u8(value) is None,
            match r {
                Ok(e) => e.as_u8() == value,
                Err(ConversionError::CantConvertFrom(v)) => v == value && forall|e: Color|
                    #[trigger] e.as_u8() != value,
            },
    {
        match value {
            0 => Ok(Color::Black),
            1 => Ok(Color::Blue),
            2 => Ok(Color::Green),
            3 => Ok(Color::Cyan),
            4 => Ok(Color::Red),
            5 => Ok(Color::Magenta),
            6 => Ok(Color::Brown),
            7 => Ok(Color::LightGray),
            8 => Ok(Color::DarkGray),
            9 => Ok(Color::LightBlue),
            10 => Ok(Color::LightGreen),
            11 => Ok(Color::LightCyan),
            12 => Ok(Color::LightRed),
            13 => Ok(Color::Pink),
            14 => Ok(Color::Yellow),
            15 => Ok(Color::White),
            _ => Err(ConversionError::CantConvertFrom(value)),
        }
    }
}

/// I/O ports of the devices the kernel programs: the two interrupt controllers and the VGA registers.
#[derive(Clone, Copy, Debug, PartialEq, Eq, Structural)]
pub enum Port {
    MasterPicCmd,
    MasterPicData,
    SlavePicCmd,
    SlavePicData,
    VgaControl,
    VgaData,
}

impl Port {
    /// The value that represents this variant in hardware.
    pub open spec fn spec_as_u16(self) -> u16 {
        match self {
            Port::MasterPicCmd => 0x20,
            Port::MasterPicData => 0x21,
            Port::SlavePicCmd => 0xa0,
            Port::SlavePicData => 0xa1,
            Port::VgaControl => 0x3d4,
            Port::VgaData => 0x3d5,
        }
    }

    /// The value that represents this variant in hardware.
    #[verifier::when_used_as_spec(spec_as_u16)]
    pub fn as_u16(self) -> (r: u16)
        ensures
            r == self.spec_as_u16(),
    {
        match self {
            Port::MasterPicCmd => 0x20,
            Port::MasterPicData => 0x21,
            Port::SlavePicCmd => 0xa0,
            Port::SlavePicData => 0xa1,
            Port::VgaControl => 0x3d4,
            Port::VgaData => 0x3d5,
        }
    }
}

/// Registers of the VGA controller selected through its control port.
#[derive(Clone, Copy, Debug, PartialEq, Eq, Structural)]
pub enum VgaCommand {
    CursorOffsetHigh,
    CursorOffsetLow,
}

impl VgaCommand {
    /// The value that represents this variant in hardware.
    pub open spec fn spec_as_u8(self) -> u8 {
        match self {
            VgaCommand::CursorOffsetHigh => 0x0e,
            VgaCommand::CursorOffsetLow => 0x0f,
        }
    }

    /// The value that represents this variant in hardware.
    #[verifier::when_used_as_spec(spec_as_u8)]
    pub fn as_u8(self) -> (r: u8)
        ensures
            r == self.spec_as_u8(),
    {
        match self {
            VgaCommand::CursorOffsetHigh => 0x0e,
            VgaCommand::CursorOffsetLow => 0x0f,
        }
    }
}

/// Levels of the page table hierarchy, from the top (fourth) level down to the first table.
#[derive(Clone, Copy, Debug, PartialEq, Eq, Structural)]
pub enum PageTableLevel {
    ForthLevel,
    ThirdLevel,
    SecondLevel,
    FirstTable,
}

impl PageTableLevel {
    /// The value that represents this variant in hardware.
    pub open spec fn spec_as_usize(&self) -> usize {
        match self {
            PageTableLevel::ForthLevel => 0,
            PageTableLevel::ThirdLevel => 1,
            PageTableLevel::SecondLevel => 2,
            PageTableLevel::FirstTable => 3,
        }
    }

    /// The value that represents this variant in hardware.
    #[verifier::when_used_as_spec(spec_as_usize)]
    pub fn as_usize(&self) -> (r: usize)
        ensures
            r == self.spec_as_usize(),
    {
        match self {
            PageTableLevel::ForthLevel => 0,
            PageTableLevel::ThirdLevel => 1,
            PageTableLevel::SecondLevel => 2,
            PageTableLevel::FirstTable => 3,
        }
    }
}

impl PageTableLevel {
    /// The next lower level, or `None` at the lowest level.
    pub open spec fn spec_next(&self) -> Option<PageTableLevel> {
        match self {
            PageTableLevel::FirstTable => None,
            PageTableLevel::SecondLevel => Some(PageTableLevel::FirstTable),
            PageTableLevel::ThirdLevel => Some(PageTableLevel::SecondLevel),
            PageTableLevel::ForthLevel => Some(PageTableLevel::ThirdLevel),
        }
    }

    /// The next higher level, or `TableError::Full` at the highest level.
    pub open spec fn spec_prev(&self) -> Result<PageTableLevel, TableError> {
        match self {
            PageTableLevel::FirstTable => Ok(PageTableLevel::SecondLevel),
            PageTableLevel::SecondLevel => Ok(PageTableLevel::ThirdLevel),
            PageTableLevel::ThirdLevel => Ok(PageTableLevel::ForthLevel),
            PageTableLevel::ForthLevel => Err(TableError::Full),
        }
    }

    /// The next lower level, or `None` at the lowest level.
    #[verifier::when_used_as_spec(spec_next)]
    pub fn next(&self) -> (r: Option<PageTableLevel>)
        ensures
            r == self.spec_next(),
            r matches Some(l) ==> l.as_usize() == self.as_usize() + 1,
    {
        match self {
            PageTableLevel::FirstTable => None,
            PageTableLevel::SecondLevel => Some(PageTableLevel::FirstTable),
            PageTableLevel::ThirdLevel => Some(PageTableLevel::SecondLevel),
            PageTableLevel::ForthLevel => Some(PageTableLevel::ThirdLevel),
        }
    }

    /// The next higher level, or `TableError::Full` at the highest level.
    #[verifier::when_used_as_spec(spec_prev)]
    pub fn prev(&self) -> (r: Result<PageTableLevel, TableError>)
        ensures
            r == self.spec_prev(),
            r matches Ok(l) ==> l.as_usize() + 1 == self.as_usize(),
    {
        match self {
            PageTableLevel::FirstTable => Ok(PageTableLevel::SecondLevel),
            PageTableLevel::SecondLevel => Ok(PageTableLevel::ThirdLevel),
            PageTableLevel::ThirdLevel => Ok(PageTableLevel::ForthLevel),
            PageTableLevel::ForthLevel => Err(TableError::Full),
        }
    }
}

/// Going one level down and then one level up returns to the same level,
/// and so does going up and then down.
pub proof fn lemma_level_next_prev(level: PageTableLevel)
    ensures
        level != PageTableLevel::FirstTable ==> level.spec_next().unwrap().spec_prev() == Ok::<
            PageTableLevel,
            TableError,
        >(level),
        level != PageTableLevel::ForthLevel ==> level.spec_prev().unwrap().spec_next() == Some(
            level,
        ),
{
}

/// Sizes of the pages the processor maps: 4 KiB, 2 MiB and 1 GiB.
#[derive(Clone, Copy, Debug, PartialEq, Eq, Structural)]
pub enum PageSize {
    Regular,
    Big,
    Huge,
}

impl PageSize {
    /// The value that represents this variant in hardware.
    pub open spec fn spec_as_usize(self) -> usize {
        match self {
            PageSize::Regular => 0,
            PageSize::Big => 1,
            PageSize::Huge => 2,
        }
    }

    /// The value that represents this variant in hardware.
    #[verifier::when_used_as_spec(spec_as_usize)]
    pub fn as_usize(self) -> (r: usize)
        ensures
            r == self.spec_as_usize(),
    {
        match self {
            PageSize::Regular => 0,
            PageSize::Big => 1,
            PageSize::Huge => 2,
        }
    }
}

impl PageSize {
    /// The size in bytes of a page of this size.
    pub open spec fn spec_size(self) -> usize {
        match self {
            PageSize::Regular => REGULAR_PAGE_SIZE,
            PageSize::Big => BIG_PAGE_SIZE,
            PageSize::Huge => HUGE_PAGE_SIZE,
        }
    }

    /// The alignment of a page of this size, which is its size.
    pub fn alignment(&self) -> (r: Alignment)
        ensures
            r.spec_as_u64() == self.spec_size() as u64,
    {
        match self {
            PageSize::Regular => Alignment::regular_page(),
            PageSize::Big => Alignment::big_page(),
            PageSize::Huge => Alignment::huge_page(),
        }
    }

    /// Whether this page size is equal to or larger than the pages mapped at
    /// `table_level`: `3 - self <= level`.
    pub fn exceeds(&self, table_level: &PageTableLevel) -> (r: bool)
        ensures
            r == (3 - self.spec_as_usize() <= table_level.spec_as_usize()),
    {
        (3 - self.as_usize()) <= table_level.as_usize()
    }

    /// The page size whose alignment is the alignment of `layout`.
    pub fn from_layout(layout: Layout) -> (r: Option<PageSize>)
        ensures
            match r {
                Some(p) => p.spec_size() as u64 == layout.spec_align().spec_as_u64(),
                None => layout.spec_align().spec_as_u64() != REGULAR_PAGE_SIZE as u64
                    && layout.spec_align().spec_as_u64() != BIG_PAGE_SIZE as u64
                    && layout.spec_align().spec_as_u64() != HUGE_PAGE_SIZE as u64,
            },
    {
        let align = layout.align();
        if align == REGULAR_PAGE_SIZE as u64 {
            Some(PageSize::Regular)
        } else if align == BIG_PAGE_SIZE as u64 {
            Some(PageSize::Big)
        } else if align == HUGE_PAGE_SIZE as u64 {
            Some(PageSize::Huge)
        } else {
            None
        }
    }

    /// The page size of the given alignment, or `None` when no page has it.
    pub fn from_alignment(alignment: Alignment) -> (r: Option<PageSize>)
        ensures
            match r {
                Some(p) => p.spec_size() as u64 == alignment.spec_as_u64(),
                None => alignment.spec_as_u64() != REGULAR_PAGE_SIZE as u64
                    && alignment.spec_as_u64() != BIG_PAGE_SIZE as u64
                    && alignment.spec_as_u64() != HUGE_PAGE_SIZE as u64,
            },
    {
        let a = alignment.as_u64();
        if a == REGULAR_PAGE_SIZE as u64 {
            Some(PageSize::Regular)
        } else if a == BIG_PAGE_SIZE as u64 {
            Some(PageSize::Big)
        } else if a == HUGE_PAGE_SIZE as u64 {
            Some(PageSize::Huge)
        } else {
            None
        }
    }

    /// The number of regular pages that a page of this size holds.
    pub fn size_in_regular_pages(&self) -> (r: usize)
        ensures
            r * REGULAR_PAGE_SIZE == self.spec_size(),
    {
        match self {
            PageSize::Regular => 1,
            PageSize::Big => 512,
            PageSize::Huge => 512 * 512,
        }
    }

    /// The layout of a page of this size: its size, aligned to its size.
    pub fn into_layout(self) -> (r: Layout)
        ensures
            r.spec_size() == self.spec_size(),
            r.spec_align().spec_as_u64() == self.spec_size() as u64,
    {
        match self {
            PageSize::Regular => Layout::from_size_alignment(REGULAR_PAGE_SIZE, Alignment::regular_page()),
            PageSize::Big => Layout::from_size_alignment(BIG_PAGE_SIZE, Alignment::big_page()),
            PageSize::Huge => Layout::from_size_alignment(HUGE_PAGE_SIZE, Alignment::huge_page()),
        }
    }
}

/// Distinct page sizes have distinct sizes, so a page size is found again
/// from its alignment and from its layout.
pub proof fn lemma_page_size_alignment_round_trip(size: PageSize, other: PageSize)
    ensures
        other.spec_size() == size.spec_size() ==> other == size,
        size.spec_size() as u64 == REGULAR_PAGE_SIZE as u64 || size.spec_size() as u64
            == BIG_PAGE_SIZE as u64 || size.spec_size() as u64 == HUGE_PAGE_SIZE as u64,
{
}

/// Orders of the blocks of the buddy allocator; `NoOrder` marks the absence of an order.
#[derive(Clone, Copy, Debug, PartialEq, Eq, Structural, PartialOrd, Ord)]
pub enum BuddyOrder {
    Order0,
    Order1,
    Order2,
    Order3,
    Order4,
    Order5,
    Order6,
    Order7,
    Order8,
    Order9,
    Order10,
    NoOrder,
}

impl BuddyOrder {
    /// The value that represents this variant in hardware.
    pub open spec fn spec_as_u8(self) -> u8 {
        match self {
            BuddyOrder::Order0 => 0,
            BuddyOrder::Order1 => 1,
            BuddyOrder::Order2 => 2,
            BuddyOrder::Order3 => 3,
            BuddyOrder::Order4 => 4,
            BuddyOrder::Order5 => 5,
            BuddyOrder::Order6 => 6,
            BuddyOrder::Order7 => 7,
            BuddyOrder::Order8 => 8,
            BuddyOrder::Order9 => 9,
            BuddyOrder::Order10 => 10,
            BuddyOrder::NoOrder => 11,
        }
    }

    /// The value that represents this variant in hardware.
    #[verifier::when_used_as_spec(spec_as_u8)]
    pub fn as_u8(self) -> (r: u8)
        ensures
            r == self.spec_as_u8(),
    {
        match self {
            BuddyOrder::Order0 => 0,
            BuddyOrder::Order1 => 1,
            BuddyOrder::Order2 => 2,
            BuddyOrder::Order3 => 3,
            BuddyOrder::Order4 => 4,
            BuddyOrder::Order5 => 5,
            BuddyOrder::Order6 => 6,
            BuddyOrder::Order7 => 7,
            BuddyOrder::Order8 => 8,
            BuddyOrder::Order9 => 9,
            BuddyOrder::Order10 => 10,
            BuddyOrder::NoOrder => 11,
        }
    }
}

impl BuddyOrder {
    /// The order a raw value stands for; every value above the largest order
    /// stands for `NoOrder`.
    pub open spec fn spec_from_u8(value: u8) -> BuddyOrder {
        match value {
            0 => BuddyOrder::Order0,
            1 => BuddyOrder::Order1,
            2 => BuddyOrder::Order2,
            3 => BuddyOrder::Order3,
            4 => BuddyOrder::Order4,
            5 => BuddyOrder::Order5,
            6 => BuddyOrder::Order6,
            7 => BuddyOrder::Order7,
            8 => BuddyOrder::Order8,
            9 => BuddyOrder::Order9,
            10 => BuddyOrder::Order10,
            _ => BuddyOrder::NoOrder,
        }
    }

    /// The order a raw value stands for; every value above the largest order
    /// stands for `NoOrder`.
    #[verifier::when_used_as_spec(spec_from_u8)]
    pub fn from_u8(value: u8) -> (r: BuddyOrder)
        ensures
            r == BuddyOrder::spec_from_u8(value),
            value <= 10 ==> r.as_u8() == value,
    {
        match value {
            0 => BuddyOrder::Order0,
            1 => BuddyOrder::Order1,
            2 => BuddyOrder::Order2,
            3 => BuddyOrder::Order3,
            4 => BuddyOrder::Order4,
            5 => BuddyOrder::Order5,
            6 => BuddyOrder::Order6,
            7 => BuddyOrder::Order7,
            8 => BuddyOrder::Order8,
            9 => BuddyOrder::Order9,
            10 => BuddyOrder::Order10,
            _ => BuddyOrder::NoOrder,
        }
    }

    /// The next larger order, or `None` at the largest order.
    pub open spec fn spec_next(self) -> Option<BuddyOrder> {
        if self == BuddyOrder::Order10 {
            None
        } else {
            Some(BuddyOrder::spec_from_u8((self.spec_as_u8() + 1) as u8))
        }
    }

    /// The next smaller order, or `None` at the smallest order.
    pub open spec fn spec_prev(self) -> Option<BuddyOrder> {
        if self == BuddyOrder::Order0 {
            None
        } else {
            Some(BuddyOrder::spec_from_u8((self.spec_as_u8() - 1) as u8))
        }
    }

    /// The next larger order, or `None` at the largest order.
    pub fn next(self) -> (r: Option<BuddyOrder>)
        requires
            self != BuddyOrder::NoOrder,
        ensures
            r == self.spec_next(),
            r matches Some(o) ==> o.as_u8() == self.as_u8() + 1,
    {
        match self {
            BuddyOrder::Order10 => None,
            _ => Some(BuddyOrder::from_u8(self.as_u8() + 1)),
        }
    }

    /// The next smaller order, or `None` at the smallest order.
    pub fn prev(self) -> (r: Option<BuddyOrder>)
        requires
            self != BuddyOrder::NoOrder,
        ensures
            r == self.spec_prev(),
            r matches Some(o) ==> o.as_u8() + 1 == self.as_u8(),
    {
        match self {
            BuddyOrder::Order0 => None,
            _ => Some(BuddyOrder::from_u8(self.as_u8() - 1)),
        }
    }
}

/// Moving to the next larger order and back returns the same order, and so
/// does moving to the next smaller order and back.
pub proof fn lemma_buddy_next_prev(order: BuddyOrder)
    requires
        order != BuddyOrder::NoOrder,
    ensures
        order != BuddyOrder::Order10 ==> order.spec_next().unwrap().spec_prev() == Some(order),
        order != BuddyOrder::Order0 ==> order.spec_prev().unwrap().spec_next() == Some(order),
{
}

} // verus!
