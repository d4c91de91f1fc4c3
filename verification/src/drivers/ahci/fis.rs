//! The frames (FIS) the host and a serial ATA device exchange, and the
//! identify data.
use vstd::prelude::*;

use crate::common::error::ConversionError;

verus! {

/// Types of the frames (FIS) of the serial ATA protocol.
#[derive(Clone, Copy, Debug, PartialEq, Eq, Structural)]
pub enum FisType {
    RegisterFisHost2Device,
    RegisterFisDevice2Host,
    DmaActivateFisDevice2Host,
    DmaSetupFisBidirectional,
    DataFisBidirectional,
    BistActivateFisBidirectional,
    PioSetupFisDevice2Host,
    SetDeviceBitsFisDevice2Host,
}

impl FisType {
    /// The value that represents this variant in hardware.
    pub open spec fn spec_as_u8(self) -> u8 {
        match self {
            FisType::RegisterFisHost2Device => 0x27,
            FisType::RegisterFisDevice2Host => 0x34,
            FisType::DmaActivateFisDevice2Host => 0x39,
            FisType::DmaSetupFisBidirectional => 0x41,
            FisType::DataFisBidirectional => 0x46,
            FisType::BistActivateFisBidirectional => 0x58,
            FisType::PioSetupFisDevice2Host => 0x5f,
            FisType::SetDeviceBitsFisDevice2Host => 0xa1,
        }
    }

    /// The value that represents this variant in hardware.
    #[verifier::when_used_as_spec(spec_as_u8)]
    pub fn as_u8(self) -> (r: u8)
        ensures
            r == self.spec_as_u8(),
    {
        match self {
            FisType::RegisterFisHost2Device => 0x27,
            FisType::RegisterFisDevice2Host => 0x34,
            FisType::DmaActivateFisDevice2Host => 0x39,
            FisType::DmaSetupFisBidirectional => 0x41,
            FisType::DataFisBidirectional => 0x46,
            FisType::BistActivateFisBidirectional => 0x58,
            FisType::PioSetupFisDevice2Host => 0x5f,
            FisType::SetDeviceBitsFisDevice2Host => 0xa1,
        }
    }

    /// The variant that `value` represents, if any.
    pub open spec fn spec_from_u8(value: u8) -> Option<FisType> {
        match value {
            0x27 => Some(FisType::RegisterFisHost2Device),
            0x34 => Some(FisType::RegisterFisDevice2Host),
            0x39 => Some(FisType::DmaActivateFisDevice2Host),
            0x41 => Some(FisType::DmaSetupFisBidirectional),
            0x46 => Some(FisType::DataFisBidirectional),
            0x58 => Some(FisType::BistActivateFisBidirectional),
            0x5f => Some(FisType::PioSetupFisDevice2Host),
            0xa1 => Some(FisType::SetDeviceBitsFisDevice2Host),
            _ => None,
        }
    }

    /// The variant that `value` represents, or an error that carries `value`
    /// when no variant does.
    pub fn try_from_u8(value: u8) -> (r: Result<FisType, ConversionError<u8>>)
        ensures
            r matches Ok(e) ==> Some(e) == FisType::spec_from_u8(value),
            r is Err <==> FisType::spec_from_u8(value) is None,
            match r {
                Ok(e) => e.as_u8() == value,
                Err(ConversionError::CantConvertFrom(v)) => v == value && forall|e: FisType|
                    #[trigger] e.as_u8() != value,
            },
    {
        match value {
            0x27 => Ok(FisType::RegisterFisHost2Device),
            0x34 => Ok(FisType::RegisterFisDevice2Host),
            0x39 => Ok(FisType::DmaActivateFisDevice2Host),
            0x41 => Ok(FisType::DmaSetupFisBidirectional),
            0x46 => Ok(FisType::DataFisBidirectional),
            0x58 => Ok(FisType::BistActivateFisBidirectional),
            0x5f => Ok(FisType::PioSetupFisDevice2Host),
            0xa1 => Ok(FisType::SetDeviceBitsFisDevice2Host),
            _ => Err(ConversionError::CantConvertFrom(value)),
        }
    }
}

/// A register frame from the host to the device: the command and its
/// operands.
#[derive(Clone, Copy, Debug)]
pub struct RegisterH2D {
    fis_type: FisType,
    pm_flags: u8,
    command: u8,
    features: u8,
    lba1: u8,
    lba2: u8,
    lba3: u8,
    device: u8,
    lba4: u8,
    lba5: u8,
    lba6: u8,
    features_ext: u8,
    sector_count: u8,
    sector_count_ext: u8,
    reserved0: u8,
    control: u8,
    reserved1: [u8; 4],
}

/// The 20 bytes of a register frame from the host to the device.
pub open spec fn h2d_bytes(
    pm_flags: u8,
    command: u8,
    features: u16,
    lba: u64,
    device: u8,
    sector_count: u16,
    control: u8,
) -> Seq<u8> {
    seq![
        0x27u8,
        pm_flags,
        command,
        features as u8,
        lba as u8,
        (lba >> 8u64) as u8,
        (lba >> 16u64) as u8,
        device,
        (lba >> 24u64) as u8,
        (lba >> 32u64) as u8,
        (lba >> 40u64) as u8,
        (features >> 8u16) as u8,
        sector_count as u8,
        (sector_count >> 8u16) as u8,
        0u8,
        control,
        0u8,
        0u8,
        0u8,
        0u8,
    ]
}

impl RegisterH2D {
    /// The bytes of the frame, in order.
    pub closed spec fn bytes(&self) -> Seq<u8> {
        seq![
            self.fis_type.spec_as_u8(),
            self.pm_flags,
            self.command,
            self.features,
            self.lba1,
            self.lba2,
            self.lba3,
            self.device,
            self.lba4,
            self.lba5,
            self.lba6,
            self.features_ext,
            self.sector_count,
            self.sector_count_ext,
            self.reserved0,
            self.control,
        ] + self.reserved1@
    }

    /// The frame that sends `command` with the port multiplier flags
    /// `pm_flags`, the `features`, the 48-bit `lba`, the `device` register,
    /// the `sector_count` and the `control` register; the 16-bit and 48-bit
    /// values are split into their bytes, low bytes first.
    pub fn new(
        pm_flags: u8,
        command: u8,
        features: u16,
        lba: u64,
        device: u8,
        sector_count: u16,
        control: u8,
    ) -> (r: RegisterH2D)
        ensures
            r.bytes() == h2d_bytes(pm_flags, command, features, lba, device, sector_count, control),
    {
        let features_low = features as u8;
        let features_ext = (features >> 8) as u8;
        let lba1 = lba as u8;
        let lba2 = (lba >> 8) as u8;
        let lba3 = (lba >> 16) as u8;
        let lba4 = (lba >> 24) as u8;
        let lba5 = (lba >> 32) as u8;
        let lba6 = (lba >> 40) as u8;
        let sector_count_low = sector_count as u8;
        let sector_count_ext = (sector_count >> 8) as u8;
        let r = RegisterH2D {
            fis_type: FisType::RegisterFisHost2Device,
            pm_flags,
            command,
            features: features_low,
            lba1,
            lba2,
            lba3,
            device,
            lba4,
            lba5,
            lba6,
            features_ext,
            sector_count: sector_count_low,
            sector_count_ext,
            reserved0: 0,
            control,
            reserved1: [0; 4],
        };
        assert(r.bytes() =~= h2d_bytes(pm_flags, command, features, lba, device, sector_count, control));
        r
    }

    /// The bytes of the frame, in order.
    pub fn as_bytes(&self) -> (r: Vec<u8>)
        ensures
            r@ == self.bytes(),
    {
        let r = vec![
            self.fis_type.as_u8(),
            self.pm_flags,
            self.command,
            self.features,
            self.lba1,
            self.lba2,
            self.lba3,
            self.device,
            self.lba4,
            self.lba5,
            self.lba6,
            self.features_ext,
            self.sector_count,
            self.sector_count_ext,
            self.reserved0,
            self.control,
            self.reserved1[0],
            self.reserved1[1],
            self.reserved1[2],
            self.reserved1[3],
        ];
        assert(r@ =~= self.bytes());
        r
    }
}

/// A register frame from the device to the host: the status after a
/// command.
#[derive(Clone, Copy, Debug)]
pub struct RegisterD2H {
    pub fis_type: FisType,
    pub pm_flags: u8,
    pub status: u8,
    pub error: u8,
    pub lba1: u8,
    pub lba2: u8,
    pub lba3: u8,
    pub device: u8,
    pub lba4: u8,
    pub lba5: u8,
    pub lba6: u8,
    pub reserved0: u8,
    pub sector_count: u8,
    pub sector_count_ext: u8,
    pub reserved1: [u8; 6],
}

/// A frame from the device that activates a DMA transfer.
#[derive(Clone, Copy, Debug)]
pub struct DmaActivateD2H {
    pub fis_type: FisType,
    pub pm_flags: u8,
    pub reserved: [u8; 2],
}

/// A frame, in either direction, that sets up a DMA transfer.
#[derive(Clone, Copy, Debug)]
pub struct DmaSetup {
    pub fis_type: FisType,
    pub pm_flags: u8,
    pub reserved0: [u8; 2],
    pub dma_buffer_id_lower: u32,
    pub dma_buffer_id_upper: u32,
    pub reserved1: u32,
    pub dma_buffer_offset: u32,
    pub dma_transfer_count: u32,
    pub reserved: u32,
}

/// A frame, in either direction, that starts a built-in self test.
#[derive(Clone, Copy, Debug)]
pub struct BistActivate {
    pub fis_type: FisType,
    pub pm_flags: u8,
    pub pattern_def: u8,
    pub reserved: u8,
    pub data1: u8,
    pub data2: u8,
    pub data3: u8,
    pub data4: u8,
}

/// A frame from the device that sets up a PIO transfer.
#[derive(Clone, Copy, Debug)]
pub struct PioSetupD2H {
    pub fis_type: FisType,
    pub pm_flags: u8,
    pub status: u8,
    pub error: u8,
    pub lba1: u8,
    pub lba2: u8,
    pub lba3: u8,
    pub device: u8,
    pub lba4: u8,
    pub lba5: u8,
    pub lba6: u8,
    pub reserved0: u8,
    pub sector_count: u8,
    pub sector_count_exp: u8,
    pub reserved1: u8,
    pub estatus: u8,
    pub transfer_count: u16,
    pub reserved2: u16,
}

/// A data frame of `SIZE` double words.
#[derive(Clone, Copy, Debug)]
pub struct Data<const SIZE: usize> {
    pub fis_type: u8,
    pub pm_port: u8,
    pub reserved0: [u8; 2],
    pub data: [u32; SIZE],
}

/// A frame from the device that sets bits of the status and error
/// registers.
#[derive(Clone, Copy, Debug)]
pub struct SetDeviceBits {
    pub fis_type: FisType,
    pub pm_port: u8,
    pub status: u8,
    pub error: u8,
    pub reserved: u32,
}

impl SetDeviceBits {
    /// The status byte with its three low bits cleared.
    pub fn status_low(&self) -> (r: u8)
        ensures
            r == self.status & !0x7u8,
    {
        self.status & !0x7
    }

    /// The status byte shifted right by four, with its three low bits
    /// cleared.
    pub fn status_high(&self) -> (r: u8)
        ensures
            r == (self.status >> 4u8) & !0x7u8,
    {
        (self.status >> 4) & !0x7
    }
}

/// Word 0 of the identify data: general configuration.
#[derive(Clone, Copy, Debug)]
pub struct GeneralInfo(pub u16);

impl GeneralInfo {
    /// Bit 15: the device is not a magnetic one.
    pub fn is_non_magnetic(&self) -> (r: bool)
        ensures
            r == (self.0 & (1u16 << 15u16) != 0),
    {
        self.0 & (1u16 << 15) != 0
    }

    /// Bit 7: the media is removable.
    pub fn is_removable_media(&self) -> (r: bool)
        ensures
            r == (self.0 & (1u16 << 7u16) != 0),
    {
        self.0 & (1u16 << 7) != 0
    }

    /// Bit 6: the media is not removable.
    pub fn is_not_removable_media(&self) -> (r: bool)
        ensures
            r == (self.0 & (1u16 << 6u16) != 0),
    {
        self.0 & (1u16 << 6) != 0
    }
}

/// Word 49 of the identify data: capabilities.
#[derive(Clone, Copy, Debug)]
pub struct DeviceCapabilities(pub u16);

impl DeviceCapabilities {
    /// Bit 10: LBA and DMA are supported.
    pub fn is_lba_dma_support(&self) -> (r: bool)
        ensures
            r == (self.0 & (1u16 << 10u16) != 0),
    {
        self.0 & (1u16 << 10) != 0
    }
}

/// Word 53 of the identify data: which later words are valid.
#[derive(Clone, Copy, Debug)]
pub struct ValidFields(pub u16);

impl ValidFields {
    /// Bit 0: words 54 to 58 are valid.
    pub fn is_valid_54_58(&self) -> (r: bool)
        ensures
            r == (self.0 & (1u16 << 0u16) != 0),
    {
        self.0 & (1u16 << 0) != 0
    }

    /// Bit 1: words 64 to 70 are valid.
    pub fn is_valid_64_70(&self) -> (r: bool)
        ensures
            r == (self.0 & (1u16 << 1u16) != 0),
    {
        self.0 & (1u16 << 1) != 0
    }
}

/// The data the identify command gives, as far as the driver reads it.
#[derive(Clone, Copy, Debug)]
pub struct IdentityPacketData {
    pub info: GeneralInfo,
    pub cylinders: u16,
    pub reserved0: u16,
    pub heads: u16,
    pub vendor0: [u16; 2],
    pub sectors: u16,
    pub vendor1: [u16; 3],
    pub serial_number: [u8; 20],
    pub vendor2: [u16; 3],
    /// Firmware revision in ASCII characters.
    pub firmware_rev: [u8; 8],
    /// Model number in ASCII characters.
    pub model_num: [u8; 40],
    pub max_sectors_rw_multiple: u8,
    pub vendor3: u8,
    pub reserved1: u16,
    pub capabilities: u16,
    pub reserved9: u16,
    pub pio_data_transfer_time: u16,
    pub dma_data_transfer_time: u16,
    pub valid_fields: u16,
    pub cur_cylinders: u16,
    pub cur_heads: u16,
    pub cur_sectors: u16,
    pub capacity_sectors: [u16; 2],
    pub reserved10: u16,
    pub lba_total_sectors_28: [u16; 2],
}

} // verus!
