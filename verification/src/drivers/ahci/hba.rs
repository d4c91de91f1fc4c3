//! The registers of the AHCI host bus adapter and of its ports, and the
//! command structures the ports read.
use vstd::prelude::*;

use crate::common::bitfield::{
    field_of, lemma_masks, lemma_with_field, lemma_with_field_fits, low_mask, or_field, read_field, set_field_bits,
    set_field_bits_u16, set_field_bits_u32, set_field_bits_u8, with_field, write_field,
    write_field_u16, write_field_u32, write_field_u8,
};
use crate::common::address_types::{aligned_to, PhysicalAddress, VirtualAddress};
use crate::common::constants::{Alignment, PHYSICAL_MEMORY_OFFSET, REGULAR_PAGE_SIZE};
use crate::common::error::{ConversionError, HbaError};
use crate::drivers::ahci::fis::{DmaSetup, PioSetupD2H, RegisterD2H, SetDeviceBits};

verus! {

/// The capabilities register of the host bus adapter (CAP).
#[derive(Clone, Copy, Debug, PartialEq, Eq, Structural)]
pub struct HBACapabilities(u32);

impl HBACapabilities {
    /// The raw bits of the register.
    pub closed spec fn bits(&self) -> u64 {
        self.0 as u64
    }

    /// A register with every bit cleared.
    pub fn new() -> (r: HBACapabilities)
        ensures
            r.bits() == 0,
    {
        HBACapabilities(0)
    }

    /// The register that holds `bits`.
    pub fn from_bits(bits: u32) -> (r: HBACapabilities)
        ensures
            r.bits() == bits as u64,
    {
        HBACapabilities(bits)
    }

    /// The raw bits of the register.
    pub fn as_u32(&self) -> (r: u32)
        ensures
            r as u64 == self.bits(),
    {
        self.0
    }

    /// The number of ports field.
    pub fn get_number_of_ports(&self) -> (r: u8)
        ensures
            r as u64 == field_of(self.bits(), 0, 5),
    {
        let field = read_field(self.0 as u64, 0, 5);
        proof {
            lemma_masks();
        }
        field as u8
    }

    /// Writes the number of ports field, keeping every other bit.
    pub fn set_number_of_ports(&mut self, v: u8)
        requires
            (v as u64) <= low_mask(5),
        ensures
            final(self).bits() == with_field(old(self).bits(), 0, 5, v as u64),
    {
        proof {
            assert((v as u64) <= low_mask(5));
        }
        self.0 = write_field_u32(self.0, 0, 5, v as u64);
    }

    /// This register with the bits of `v` set in the number of ports field.
    pub fn number_of_ports(self, v: u8) -> (r: HBACapabilities)
        requires
            (v as u64) <= low_mask(5),
        ensures
            r.bits() == or_field(self.bits(), 0, v as u64),
    {
        proof {
            assert((v as u64) <= low_mask(5));
        }
        HBACapabilities(set_field_bits_u32(self.0, 0, 5, v as u64))
    }

    /// Whether the support external sata bit is set.
    pub fn is_sxs(&self) -> (r: bool)
        ensures
            r == (field_of(self.bits(), 5, 1) == 1),
    {
        read_field(self.0 as u64, 5, 1) == 1
    }

    /// Whether the enclosure management supported bit is set.
    pub fn is_ems(&self) -> (r: bool)
        ensures
            r == (field_of(self.bits(), 6, 1) == 1),
    {
        read_field(self.0 as u64, 6, 1) == 1
    }

    /// Whether the command completion coalescing supported bit is set.
    pub fn is_cccs(&self) -> (r: bool)
        ensures
            r == (field_of(self.bits(), 7, 1) == 1),
    {
        read_field(self.0 as u64, 7, 1) == 1
    }

    /// The number of commands (value is between 1 and 32) field.
    pub fn get_number_of_commands(&self) -> (r: u8)
        ensures
            r as u64 == field_of(self.bits(), 8, 5),
    {
        let field = read_field(self.0 as u64, 8, 5);
        proof {
            lemma_masks();
        }
        field as u8
    }

    /// Writes the number of commands (value is between 1 and 32) field, keeping every other bit.
    pub fn set_number_of_commands(&mut self, v: u8)
        requires
            (v as u64) <= low_mask(5),
        ensures
            final(self).bits() == with_field(old(self).bits(), 8, 5, v as u64),
    {
        proof {
            assert((v as u64) <= low_mask(5));
        }
        self.0 = write_field_u32(self.0, 8, 5, v as u64);
    }

    /// This register with the bits of `v` set in the number of commands (value is between 1 and 32) field.
    pub fn number_of_commands(self, v: u8) -> (r: HBACapabilities)
        requires
            (v as u64) <= low_mask(5),
        ensures
            r.bits() == or_field(self.bits(), 8, v as u64),
    {
        proof {
            assert((v as u64) <= low_mask(5));
        }
        HBACapabilities(set_field_bits_u32(self.0, 8, 5, v as u64))
    }

    /// Whether the reserved0 bit is set.
    pub fn is_reserved0(&self) -> (r: bool)
        ensures
            r == (field_of(self.bits(), 13, 1) == 1),
    {
        read_field(self.0 as u64, 13, 1) == 1
    }

    /// Clears the reserved0 field.
    pub fn clear_reserved0(&mut self)
        ensures
            final(self).bits() == with_field(old(self).bits(), 13, 1, 0),
    {
        proof {
            assert((0u8 as u64) <= low_mask(1));
        }
        self.0 = write_field_u32(self.0, 13, 1, 0);
    }

    /// Whether the partial state capable bit is set.
    pub fn is_psc(&self) -> (r: bool)
        ensures
            r == (field_of(self.bits(), 14, 1) == 1),
    {
        read_field(self.0 as u64, 14, 1) == 1
    }

    /// Whether the programmed i/o multiple data request block bit is set.
    pub fn is_pmd(&self) -> (r: bool)
        ensures
            r == (field_of(self.bits(), 15, 1) == 1),
    {
        read_field(self.0 as u64, 15, 1) == 1
    }

    /// Whether the frame information structure based switching supported bit is set.
    pub fn is_fbss(&self) -> (r: bool)
        ensures
            r == (field_of(self.bits(), 16, 1) == 1),
    {
        read_field(self.0 as u64, 16, 1) == 1
    }

    /// Whether the support port multiplier bit is set.
    pub fn is_spm(&self) -> (r: bool)
        ensures
            r == (field_of(self.bits(), 17, 1) == 1),
    {
        read_field(self.0 as u64, 17, 1) == 1
    }

    /// Whether the support ahci mode only bit is set.
    pub fn is_sam(&self) -> (r: bool)
        ensures
            r == (field_of(self.bits(), 18, 1) == 1),
    {
        read_field(self.0 as u64, 18, 1) == 1
    }

    /// Whether the reserved1 bit is set.
    pub fn is_reserved1(&self) -> (r: bool)
        ensures
            r == (field_of(self.bits(), 19, 1) == 1),
    {
        read_field(self.0 as u64, 19, 1) == 1
    }

    /// Clears the reserved1 field.
    pub fn clear_reserved1(&mut self)
        ensures
            final(self).bits() == with_field(old(self).bits(), 19, 1, 0),
    {
        proof {
            assert((0u8 as u64) <= low_mask(1));
        }
        self.0 = write_field_u32(self.0, 19, 1, 0);
    }

    /// The interface speed field.
    pub fn get_interface_speed(&self) -> (r: u8)
        ensures
            r as u64 == field_of(self.bits(), 20, 4),
    {
        let field = read_field(self.0 as u64, 20, 4);
        proof {
            lemma_masks();
        }
        field as u8
    }

    /// Whether the reserved2 bit is set.
    pub fn is_reserved2(&self) -> (r: bool)
        ensures
            r == (field_of(self.bits(), 24, 1) == 1),
    {
        read_field(self.0 as u64, 24, 1) == 1
    }

    /// Clears the reserved2 field.
    pub fn clear_reserved2(&mut self)
        ensures
            final(self).bits() == with_field(old(self).bits(), 24, 1, 0),
    {
        proof {
            assert((0u8 as u64) <= low_mask(1));
        }
        self.0 = write_field_u32(self.0, 24, 1, 0);
    }

    /// Whether the support activity led bit is set.
    pub fn is_sal(&self) -> (r: bool)
        ensures
            r == (field_of(self.bits(), 25, 1) == 1),
    {
        read_field(self.0 as u64, 25, 1) == 1
    }

    /// Whether the support aggressive link power management bit is set.
    pub fn is_salp(&self) -> (r: bool)
        ensures
            r == (field_of(self.bits(), 26, 1) == 1),
    {
        read_field(self.0 as u64, 26, 1) == 1
    }

    /// Whether the support staggered spin-up bit is set.
    pub fn is_sss(&self) -> (r: bool)
        ensures
            r == (field_of(self.bits(), 27, 1) == 1),
    {
        read_field(self.0 as u64, 27, 1) == 1
    }

    /// Whether the support mechanical presence switch bit is set.
    pub fn is_smps(&self) -> (r: bool)
        ensures
            r == (field_of(self.bits(), 28, 1) == 1),
    {
        read_field(self.0 as u64, 28, 1) == 1
    }

    /// Whether the support s-notification register bit is set.
    pub fn is_ssntf(&self) -> (r: bool)
        ensures
            r == (field_of(self.bits(), 29, 1) == 1),
    {
        read_field(self.0 as u64, 29, 1) == 1
    }

    /// Whether the support native command queuing bit is set.
    pub fn is_snqc(&self) -> (r: bool)
        ensures
            r == (field_of(self.bits(), 30, 1) == 1),
    {
        read_field(self.0 as u64, 30, 1) == 1
    }

    /// Whether the support 64-bit addressing bit is set.
    pub fn is_s64a(&self) -> (r: bool)
        ensures
            r == (field_of(self.bits(), 31, 1) == 1),
    {
        read_field(self.0 as u64, 31, 1) == 1
    }


}

/// The global host control register (GHC).
#[derive(Clone, Copy, Debug, PartialEq, Eq, Structural)]
pub struct GlobalHostControl(u32);

impl GlobalHostControl {
    /// The raw bits of the register.
    pub closed spec fn bits(&self) -> u64 {
        self.0 as u64
    }

    /// A register with every bit cleared.
    pub fn new() -> (r: GlobalHostControl)
        ensures
            r.bits() == 0,
    {
        GlobalHostControl(0)
    }

    /// The register that holds `bits`.
    pub fn from_bits(bits: u32) -> (r: GlobalHostControl)
        ensures
            r.bits() == bits as u64,
    {
        GlobalHostControl(bits)
    }

    /// The raw bits of the register.
    pub fn as_u32(&self) -> (r: u32)
        ensures
            r as u64 == self.bits(),
    {
        self.0
    }

    /// Whether the HBA reset bit is set.
    pub fn is_hr(&self) -> (r: bool)
        ensures
            r == (field_of(self.bits(), 0, 1) == 1),
    {
        read_field(self.0 as u64, 0, 1) == 1
    }

    /// Writes the HBA reset field, keeping every other bit.
    pub fn set_hr(&mut self, v: bool)
        ensures
            final(self).bits() == with_field(old(self).bits(), 0, 1, if v { 1u64 } else { 0u64 }),
    {
        proof {
            lemma_masks();
        }
        self.0 = write_field_u32(self.0, 0, 1, if v { 1u64 } else { 0u64 });
    }

    /// This register with the bits of `v` set in the HBA reset field.
    pub fn hr(self, v: bool) -> (r: GlobalHostControl)
        ensures
            r.bits() == or_field(self.bits(), 0, if v { 1u64 } else { 0u64 }),
    {
        proof {
            lemma_masks();
        }
        GlobalHostControl(set_field_bits_u32(self.0, 0, 1, if v { 1u64 } else { 0u64 }))
    }

    /// Whether the interrupt enable bit is set.
    pub fn is_ie(&self) -> (r: bool)
        ensures
            r == (field_of(self.bits(), 1, 1) == 1),
    {
        read_field(self.0 as u64, 1, 1) == 1
    }

    /// Writes the interrupt enable field, keeping every other bit.
    pub fn set_ie(&mut self, v: bool)
        ensures
            final(self).bits() == with_field(old(self).bits(), 1, 1, if v { 1u64 } else { 0u64 }),
    {
        proof {
            lemma_masks();
        }
        self.0 = write_field_u32(self.0, 1, 1, if v { 1u64 } else { 0u64 });
    }

    /// This register with the bits of `v` set in the interrupt enable field.
    pub fn ie(self, v: bool) -> (r: GlobalHostControl)
        ensures
            r.bits() == or_field(self.bits(), 1, if v { 1u64 } else { 0u64 }),
    {
        proof {
            lemma_masks();
        }
        GlobalHostControl(set_field_bits_u32(self.0, 1, 1, if v { 1u64 } else { 0u64 }))
    }

    /// Whether the MSI revert to single message bit is set.
    pub fn is_mrsm(&self) -> (r: bool)
        ensures
            r == (field_of(self.bits(), 2, 1) == 1),
    {
        read_field(self.0 as u64, 2, 1) == 1
    }

    /// Writes the MSI revert to single message field, keeping every other bit.
    pub fn set_mrsm(&mut self, v: bool)
        ensures
            final(self).bits() == with_field(old(self).bits(), 2, 1, if v { 1u64 } else { 0u64 }),
    {
        proof {
            lemma_masks();
        }
        self.0 = write_field_u32(self.0, 2, 1, if v { 1u64 } else { 0u64 });
    }

    /// This register with the bits of `v` set in the MSI revert to single message field.
    pub fn mrsm(self, v: bool) -> (r: GlobalHostControl)
        ensures
            r.bits() == or_field(self.bits(), 2, if v { 1u64 } else { 0u64 }),
    {
        proof {
            lemma_masks();
        }
        GlobalHostControl(set_field_bits_u32(self.0, 2, 1, if v { 1u64 } else { 0u64 }))
    }

    /// The reserved field.
    pub fn get_reserved(&self) -> (r: u32)
        ensures
            r as u64 == field_of(self.bits(), 3, 28),
    {
        let field = read_field(self.0 as u64, 3, 28);
        proof {
            lemma_masks();
        }
        field as u32
    }

    /// Clears the reserved field.
    pub fn clear_reserved(&mut self)
        ensures
            final(self).bits() == with_field(old(self).bits(), 3, 28, 0),
    {
        proof {
            assert((0u8 as u64) <= low_mask(28));
        }
        self.0 = write_field_u32(self.0, 3, 28, 0);
    }

    /// Whether the AHCI enable — must be set for the HBA to operate in AHCI mode bit is set.
    pub fn is_ae(&self) -> (r: bool)
        ensures
            r == (field_of(self.bits(), 31, 1) == 1),
    {
        read_field(self.0 as u64, 31, 1) == 1
    }

    /// Writes the AHCI enable — must be set for the HBA to operate in AHCI mode field, keeping every other bit.
    pub fn set_ae(&mut self, v: bool)
        ensures
            final(self).bits() == with_field(old(self).bits(), 31, 1, if v { 1u64 } else { 0u64 }),
    {
        proof {
            lemma_masks();
        }
        self.0 = write_field_u32(self.0, 31, 1, if v { 1u64 } else { 0u64 });
    }

    /// This register with the bits of `v` set in the AHCI enable — must be set for the HBA to operate in AHCI mode field.
    pub fn ae(self, v: bool) -> (r: GlobalHostControl)
        ensures
            r.bits() == or_field(self.bits(), 31, if v { 1u64 } else { 0u64 }),
    {
        proof {
            lemma_masks();
        }
        GlobalHostControl(set_field_bits_u32(self.0, 31, 1, if v { 1u64 } else { 0u64 }))
    }


}

/// VS
#[derive(Clone, Copy, Debug, PartialEq, Eq, Structural)]
pub struct Version(u32);

impl Version {
    /// The raw bits of the register.
    pub closed spec fn bits(&self) -> u64 {
        self.0 as u64
    }

    /// A register with every bit cleared.
    pub fn new() -> (r: Version)
        ensures
            r.bits() == 0,
    {
        Version(0)
    }

    /// The register that holds `bits`.
    pub fn from_bits(bits: u32) -> (r: Version)
        ensures
            r.bits() == bits as u64,
    {
        Version(bits)
    }

    /// The raw bits of the register.
    pub fn as_u32(&self) -> (r: u32)
        ensures
            r as u64 == self.bits(),
    {
        self.0
    }

    /// The minor version number (bits 15:0) field.
    pub fn get_minor_version(&self) -> (r: u16)
        ensures
            r as u64 == field_of(self.bits(), 0, 16),
    {
        let field = read_field(self.0 as u64, 0, 16);
        proof {
            lemma_masks();
        }
        field as u16
    }

    /// Writes the minor version number (bits 15:0) field, keeping every other bit.
    pub fn set_minor_version(&mut self, v: u16)
        requires
            (v as u64) <= low_mask(16),
        ensures
            final(self).bits() == with_field(old(self).bits(), 0, 16, v as u64),
    {
        proof {
            assert((v as u64) <= low_mask(16));
        }
        self.0 = write_field_u32(self.0, 0, 16, v as u64);
    }

    /// This register with the bits of `v` set in the minor version number (bits 15:0) field.
    pub fn minor_version(self, v: u16) -> (r: Version)
        requires
            (v as u64) <= low_mask(16),
        ensures
            r.bits() == or_field(self.bits(), 0, v as u64),
    {
        proof {
            assert((v as u64) <= low_mask(16));
        }
        Version(set_field_bits_u32(self.0, 0, 16, v as u64))
    }

    /// The major version number (bits 31:16) field.
    pub fn get_major_version(&self) -> (r: u16)
        ensures
            r as u64 == field_of(self.bits(), 16, 16),
    {
        let field = read_field(self.0 as u64, 16, 16);
        proof {
            lemma_masks();
        }
        field as u16
    }

    /// Writes the major version number (bits 31:16) field, keeping every other bit.
    pub fn set_major_version(&mut self, v: u16)
        requires
            (v as u64) <= low_mask(16),
        ensures
            final(self).bits() == with_field(old(self).bits(), 16, 16, v as u64),
    {
        proof {
            assert((v as u64) <= low_mask(16));
        }
        self.0 = write_field_u32(self.0, 16, 16, v as u64);
    }

    /// This register with the bits of `v` set in the major version number (bits 31:16) field.
    pub fn major_version(self, v: u16) -> (r: Version)
        requires
            (v as u64) <= low_mask(16),
        ensures
            r.bits() == or_field(self.bits(), 16, v as u64),
    {
        proof {
            assert((v as u64) <= low_mask(16));
        }
        Version(set_field_bits_u32(self.0, 16, 16, v as u64))
    }


}

/// CCC_CTL
#[derive(Clone, Copy, Debug, PartialEq, Eq, Structural)]
pub struct CommandCompletionCoalescingControl(u32);

impl CommandCompletionCoalescingControl {
    /// The raw bits of the register.
    pub closed spec fn bits(&self) -> u64 {
        self.0 as u64
    }

    /// A register with every bit cleared.
    pub fn new() -> (r: CommandCompletionCoalescingControl)
        ensures
            r.bits() == 0,
    {
        CommandCompletionCoalescingControl(0)
    }

    /// The register that holds `bits`.
    pub fn from_bits(bits: u32) -> (r: CommandCompletionCoalescingControl)
        ensures
            r.bits() == bits as u64,
    {
        CommandCompletionCoalescingControl(bits)
    }

    /// The raw bits of the register.
    pub fn as_u32(&self) -> (r: u32)
        ensures
            r as u64 == self.bits(),
    {
        self.0
    }

    /// Whether the enable command completion coalescing bit is set.
    pub fn is_enable(&self) -> (r: bool)
        ensures
            r == (field_of(self.bits(), 0, 1) == 1),
    {
        read_field(self.0 as u64, 0, 1) == 1
    }

    /// Writes the enable command completion coalescing field, keeping every other bit.
    pub fn set_enable(&mut self, v: bool)
        ensures
            final(self).bits() == with_field(old(self).bits(), 0, 1, if v { 1u64 } else { 0u64 }),
    {
        proof {
            lemma_masks();
        }
        self.0 = write_field_u32(self.0, 0, 1, if v { 1u64 } else { 0u64 });
    }

    /// This register with the bits of `v` set in the enable command completion coalescing field.
    pub fn enable(self, v: bool) -> (r: CommandCompletionCoalescingControl)
        ensures
            r.bits() == or_field(self.bits(), 0, if v { 1u64 } else { 0u64 }),
    {
        proof {
            lemma_masks();
        }
        CommandCompletionCoalescingControl(set_field_bits_u32(self.0, 0, 1, if v { 1u64 } else { 0u64 }))
    }

    /// The reserved field.
    pub fn get_reserved(&self) -> (r: u8)
        ensures
            r as u64 == field_of(self.bits(), 1, 7),
    {
        let field = read_field(self.0 as u64, 1, 7);
        proof {
            lemma_masks();
        }
        field as u8
    }

    /// Clears the reserved field.
    pub fn clear_reserved(&mut self)
        ensures
            final(self).bits() == with_field(old(self).bits(), 1, 7, 0),
    {
        proof {
            assert((0u8 as u64) <= low_mask(7));
        }
        self.0 = write_field_u32(self.0, 1, 7, 0);
    }

    /// The command completions — number of command completions necessary to field.
    pub fn get_command_completions(&self) -> (r: u8)
        ensures
            r as u64 == field_of(self.bits(), 8, 8),
    {
        let field = read_field(self.0 as u64, 8, 8);
        proof {
            lemma_masks();
        }
        field as u8
    }

    /// Writes the command completions — number of command completions necessary to field, keeping every other bit.
    pub fn set_command_completions(&mut self, v: u8)
        requires
            (v as u64) <= low_mask(8),
        ensures
            final(self).bits() == with_field(old(self).bits(), 8, 8, v as u64),
    {
        proof {
            assert((v as u64) <= low_mask(8));
        }
        self.0 = write_field_u32(self.0, 8, 8, v as u64);
    }

    /// This register with the bits of `v` set in the command completions — number of command completions necessary to field.
    pub fn command_completions(self, v: u8) -> (r: CommandCompletionCoalescingControl)
        requires
            (v as u64) <= low_mask(8),
        ensures
            r.bits() == or_field(self.bits(), 8, v as u64),
    {
        proof {
            assert((v as u64) <= low_mask(8));
        }
        CommandCompletionCoalescingControl(set_field_bits_u32(self.0, 8, 8, v as u64))
    }

    /// The interrupt time in milliseconds field.
    pub fn get_interrupt_time_ms(&self) -> (r: u16)
        ensures
            r as u64 == field_of(self.bits(), 16, 16),
    {
        let field = read_field(self.0 as u64, 16, 16);
        proof {
            lemma_masks();
        }
        field as u16
    }

    /// Writes the interrupt time in milliseconds field, keeping every other bit.
    pub fn set_interrupt_time_ms(&mut self, v: u16)
        requires
            (v as u64) <= low_mask(16),
        ensures
            final(self).bits() == with_field(old(self).bits(), 16, 16, v as u64),
    {
        proof {
            assert((v as u64) <= low_mask(16));
        }
        self.0 = write_field_u32(self.0, 16, 16, v as u64);
    }

    /// This register with the bits of `v` set in the interrupt time in milliseconds field.
    pub fn interrupt_time_ms(self, v: u16) -> (r: CommandCompletionCoalescingControl)
        requires
            (v as u64) <= low_mask(16),
        ensures
            r.bits() == or_field(self.bits(), 16, v as u64),
    {
        proof {
            assert((v as u64) <= low_mask(16));
        }
        CommandCompletionCoalescingControl(set_field_bits_u32(self.0, 16, 16, v as u64))
    }


}

/// EM_LOC
#[derive(Clone, Copy, Debug, PartialEq, Eq, Structural)]
pub struct EnclosureManagementLocation(u32);

impl EnclosureManagementLocation {
    /// The raw bits of the register.
    pub closed spec fn bits(&self) -> u64 {
        self.0 as u64
    }

    /// A register with every bit cleared.
    pub fn new() -> (r: EnclosureManagementLocation)
        ensures
            r.bits() == 0,
    {
        EnclosureManagementLocation(0)
    }

    /// The register that holds `bits`.
    pub fn from_bits(bits: u32) -> (r: EnclosureManagementLocation)
        ensures
            r.bits() == bits as u64,
    {
        EnclosureManagementLocation(bits)
    }

    /// The raw bits of the register.
    pub fn as_u32(&self) -> (r: u32)
        ensures
            r as u64 == self.bits(),
    {
        self.0
    }

    /// The buffer size in dwords (zero is invalid) field.
    pub fn get_buffer_size(&self) -> (r: u16)
        ensures
            r as u64 == field_of(self.bits(), 0, 16),
    {
        let field = read_field(self.0 as u64, 0, 16);
        proof {
            lemma_masks();
        }
        field as u16
    }

    /// Writes the buffer size in dwords (zero is invalid) field, keeping every other bit.
    pub fn set_buffer_size(&mut self, v: u16)
        requires
            (v as u64) <= low_mask(16),
        ensures
            final(self).bits() == with_field(old(self).bits(), 0, 16, v as u64),
    {
        proof {
            assert((v as u64) <= low_mask(16));
        }
        self.0 = write_field_u32(self.0, 0, 16, v as u64);
    }

    /// This register with the bits of `v` set in the buffer size in dwords (zero is invalid) field.
    pub fn buffer_size(self, v: u16) -> (r: EnclosureManagementLocation)
        requires
            (v as u64) <= low_mask(16),
        ensures
            r.bits() == or_field(self.bits(), 0, v as u64),
    {
        proof {
            assert((v as u64) <= low_mask(16));
        }
        EnclosureManagementLocation(set_field_bits_u32(self.0, 0, 16, v as u64))
    }

    /// The dword offset of the em buffer from abar field.
    pub fn get_dword_offset_from_abar(&self) -> (r: u16)
        ensures
            r as u64 == field_of(self.bits(), 16, 16),
    {
        let field = read_field(self.0 as u64, 16, 16);
        proof {
            lemma_masks();
        }
        field as u16
    }

    /// Writes the dword offset of the em buffer from abar field, keeping every other bit.
    pub fn set_dword_offset_from_abar(&mut self, v: u16)
        requires
            (v as u64) <= low_mask(16),
        ensures
            final(self).bits() == with_field(old(self).bits(), 16, 16, v as u64),
    {
        proof {
            assert((v as u64) <= low_mask(16));
        }
        self.0 = write_field_u32(self.0, 16, 16, v as u64);
    }

    /// This register with the bits of `v` set in the dword offset of the em buffer from abar field.
    pub fn dword_offset_from_abar(self, v: u16) -> (r: EnclosureManagementLocation)
        requires
            (v as u64) <= low_mask(16),
        ensures
            r.bits() == or_field(self.bits(), 16, v as u64),
    {
        proof {
            assert((v as u64) <= low_mask(16));
        }
        EnclosureManagementLocation(set_field_bits_u32(self.0, 16, 16, v as u64))
    }


}

/// EM_CTL
#[derive(Clone, Copy, Debug, PartialEq, Eq, Structural)]
pub struct EnclosureManagementControl(u32);

impl EnclosureManagementControl {
    /// The raw bits of the register.
    pub closed spec fn bits(&self) -> u64 {
        self.0 as u64
    }

    /// A register with every bit cleared.
    pub fn new() -> (r: EnclosureManagementControl)
        ensures
            r.bits() == 0,
    {
        EnclosureManagementControl(0)
    }

    /// The register that holds `bits`.
    pub fn from_bits(bits: u32) -> (r: EnclosureManagementControl)
        ensures
            r.bits() == bits as u64,
    {
        EnclosureManagementControl(bits)
    }

    /// The raw bits of the register.
    pub fn as_u32(&self) -> (r: u32)
        ensures
            r as u64 == self.bits(),
    {
        self.0
    }

    /// Whether the message received bit is set.
    pub fn is_mr(&self) -> (r: bool)
        ensures
            r == (field_of(self.bits(), 0, 1) == 1),
    {
        read_field(self.0 as u64, 0, 1) == 1
    }

    /// Writes the message received field, keeping every other bit.
    pub fn set_mr(&mut self, v: bool)
        ensures
            final(self).bits() == with_field(old(self).bits(), 0, 1, if v { 1u64 } else { 0u64 }),
    {
        proof {
            lemma_masks();
        }
        self.0 = write_field_u32(self.0, 0, 1, if v { 1u64 } else { 0u64 });
    }

    /// This register with the bits of `v` set in the message received field.
    pub fn mr(self, v: bool) -> (r: EnclosureManagementControl)
        ensures
            r.bits() == or_field(self.bits(), 0, if v { 1u64 } else { 0u64 }),
    {
        proof {
            lemma_masks();
        }
        EnclosureManagementControl(set_field_bits_u32(self.0, 0, 1, if v { 1u64 } else { 0u64 }))
    }

    /// Clears the message received field.
    pub fn clear_mr(&mut self)
        ensures
            final(self).bits() == with_field(old(self).bits(), 0, 1, 0),
    {
        proof {
            assert((0u8 as u64) <= low_mask(1));
        }
        self.0 = write_field_u32(self.0, 0, 1, 0);
    }

    /// The reserved0 field.
    pub fn get_reserved0(&self) -> (r: u8)
        ensures
            r as u64 == field_of(self.bits(), 1, 7),
    {
        let field = read_field(self.0 as u64, 1, 7);
        proof {
            lemma_masks();
        }
        field as u8
    }

    /// Clears the reserved0 field.
    pub fn clear_reserved0(&mut self)
        ensures
            final(self).bits() == with_field(old(self).bits(), 1, 7, 0),
    {
        proof {
            assert((0u8 as u64) <= low_mask(7));
        }
        self.0 = write_field_u32(self.0, 1, 7, 0);
    }

    /// Whether the transmit message bit is set.
    pub fn is_tm(&self) -> (r: bool)
        ensures
            r == (field_of(self.bits(), 8, 1) == 1),
    {
        read_field(self.0 as u64, 8, 1) == 1
    }

    /// Writes the transmit message field, keeping every other bit.
    pub fn set_tm(&mut self, v: bool)
        ensures
            final(self).bits() == with_field(old(self).bits(), 8, 1, if v { 1u64 } else { 0u64 }),
    {
        proof {
            lemma_masks();
        }
        self.0 = write_field_u32(self.0, 8, 1, if v { 1u64 } else { 0u64 });
    }

    /// This register with the bits of `v` set in the transmit message field.
    pub fn tm(self, v: bool) -> (r: EnclosureManagementControl)
        ensures
            r.bits() == or_field(self.bits(), 8, if v { 1u64 } else { 0u64 }),
    {
        proof {
            lemma_masks();
        }
        EnclosureManagementControl(set_field_bits_u32(self.0, 8, 1, if v { 1u64 } else { 0u64 }))
    }

    /// Whether the reset enclosure management bit is set.
    pub fn is_reset(&self) -> (r: bool)
        ensures
            r == (field_of(self.bits(), 9, 1) == 1),
    {
        read_field(self.0 as u64, 9, 1) == 1
    }

    /// Writes the reset enclosure management field, keeping every other bit.
    pub fn set_reset(&mut self, v: bool)
        ensures
            final(self).bits() == with_field(old(self).bits(), 9, 1, if v { 1u64 } else { 0u64 }),
    {
        proof {
            lemma_masks();
        }
        self.0 = write_field_u32(self.0, 9, 1, if v { 1u64 } else { 0u64 });
    }

    /// This register with the bits of `v` set in the reset enclosure management field.
    pub fn reset(self, v: bool) -> (r: EnclosureManagementControl)
        ensures
            r.bits() == or_field(self.bits(), 9, if v { 1u64 } else { 0u64 }),
    {
        proof {
            lemma_masks();
        }
        EnclosureManagementControl(set_field_bits_u32(self.0, 9, 1, if v { 1u64 } else { 0u64 }))
    }

    /// The reserved1 field.
    pub fn get_reserved1(&self) -> (r: u8)
        ensures
            r as u64 == field_of(self.bits(), 10, 6),
    {
        let field = read_field(self.0 as u64, 10, 6);
        proof {
            lemma_masks();
        }
        field as u8
    }

    /// Clears the reserved1 field.
    pub fn clear_reserved1(&mut self)
        ensures
            final(self).bits() == with_field(old(self).bits(), 10, 6, 0),
    {
        proof {
            assert((0u8 as u64) <= low_mask(6));
        }
        self.0 = write_field_u32(self.0, 10, 6, 0);
    }

    /// Whether the LED message type supported bit is set.
    pub fn is_led(&self) -> (r: bool)
        ensures
            r == (field_of(self.bits(), 16, 1) == 1),
    {
        read_field(self.0 as u64, 16, 1) == 1
    }

    /// Whether the SAF-TE enclosure management messages supported bit is set.
    pub fn is_safte(&self) -> (r: bool)
        ensures
            r == (field_of(self.bits(), 17, 1) == 1),
    {
        read_field(self.0 as u64, 17, 1) == 1
    }

    /// Whether the SES-2 enclosure management messages supported bit is set.
    pub fn is_ses2(&self) -> (r: bool)
        ensures
            r == (field_of(self.bits(), 18, 1) == 1),
    {
        read_field(self.0 as u64, 18, 1) == 1
    }

    /// Whether the SGPIO enclosure management messages supported bit is set.
    pub fn is_sgpio(&self) -> (r: bool)
        ensures
            r == (field_of(self.bits(), 19, 1) == 1),
    {
        read_field(self.0 as u64, 19, 1) == 1
    }

    /// The reserved2 field.
    pub fn get_reserved2(&self) -> (r: u8)
        ensures
            r as u64 == field_of(self.bits(), 20, 4),
    {
        let field = read_field(self.0 as u64, 20, 4);
        proof {
            lemma_masks();
        }
        field as u8
    }

    /// Clears the reserved2 field.
    pub fn clear_reserved2(&mut self)
        ensures
            final(self).bits() == with_field(old(self).bits(), 20, 4, 0),
    {
        proof {
            assert((0u8 as u64) <= low_mask(4));
        }
        self.0 = write_field_u32(self.0, 20, 4, 0);
    }

    /// Whether the single message buffer bit is set.
    pub fn is_smb(&self) -> (r: bool)
        ensures
            r == (field_of(self.bits(), 24, 1) == 1),
    {
        read_field(self.0 as u64, 24, 1) == 1
    }

    /// Whether the transmit only bit is set.
    pub fn is_xmt(&self) -> (r: bool)
        ensures
            r == (field_of(self.bits(), 25, 1) == 1),
    {
        read_field(self.0 as u64, 25, 1) == 1
    }

    /// Whether the activity led hardware driven bit is set.
    pub fn is_alhd(&self) -> (r: bool)
        ensures
            r == (field_of(self.bits(), 26, 1) == 1),
    {
        read_field(self.0 as u64, 26, 1) == 1
    }

    /// Whether the port multiplier support bit is set.
    pub fn is_pm(&self) -> (r: bool)
        ensures
            r == (field_of(self.bits(), 27, 1) == 1),
    {
        read_field(self.0 as u64, 27, 1) == 1
    }

    /// The reserved3 field.
    pub fn get_reserved3(&self) -> (r: u8)
        ensures
            r as u64 == field_of(self.bits(), 28, 4),
    {
        let field = read_field(self.0 as u64, 28, 4);
        proof {
            lemma_masks();
        }
        field as u8
    }

    /// Clears the reserved3 field.
    pub fn clear_reserved3(&mut self)
        ensures
            final(self).bits() == with_field(old(self).bits(), 28, 4, 0),
    {
        proof {
            assert((0u8 as u64) <= low_mask(4));
        }
        self.0 = write_field_u32(self.0, 28, 4, 0);
    }


}

/// CAP2
#[derive(Clone, Copy, Debug, PartialEq, Eq, Structural)]
pub struct HostCapabilitiesExtended(u32);

impl HostCapabilitiesExtended {
    /// The raw bits of the register.
    pub closed spec fn bits(&self) -> u64 {
        self.0 as u64
    }

    /// A register with every bit cleared.
    pub fn new() -> (r: HostCapabilitiesExtended)
        ensures
            r.bits() == 0,
    {
        HostCapabilitiesExtended(0)
    }

    /// The register that holds `bits`.
    pub fn from_bits(bits: u32) -> (r: HostCapabilitiesExtended)
        ensures
            r.bits() == bits as u64,
    {
        HostCapabilitiesExtended(bits)
    }

    /// The raw bits of the register.
    pub fn as_u32(&self) -> (r: u32)
        ensures
            r as u64 == self.bits(),
    {
        self.0
    }

    /// Whether the BIOS/OS handoff supported bit is set.
    pub fn is_boh(&self) -> (r: bool)
        ensures
            r == (field_of(self.bits(), 0, 1) == 1),
    {
        read_field(self.0 as u64, 0, 1) == 1
    }

    /// Whether the NVMHCI present bit is set.
    pub fn is_nvmp(&self) -> (r: bool)
        ensures
            r == (field_of(self.bits(), 1, 1) == 1),
    {
        read_field(self.0 as u64, 1, 1) == 1
    }

    /// Whether the automatic partial to slumber transitions supported bit is set.
    pub fn is_apst(&self) -> (r: bool)
        ensures
            r == (field_of(self.bits(), 2, 1) == 1),
    {
        read_field(self.0 as u64, 2, 1) == 1
    }

    /// Whether the support device sleep bit is set.
    pub fn is_sds(&self) -> (r: bool)
        ensures
            r == (field_of(self.bits(), 3, 1) == 1),
    {
        read_field(self.0 as u64, 3, 1) == 1
    }

    /// Whether the aggressive device sleep management supported bit is set.
    pub fn is_sadm(&self) -> (r: bool)
        ensures
            r == (field_of(self.bits(), 4, 1) == 1),
    {
        read_field(self.0 as u64, 4, 1) == 1
    }

    /// Whether the devsleep entrance from slumber only bit is set.
    pub fn is_deso(&self) -> (r: bool)
        ensures
            r == (field_of(self.bits(), 5, 1) == 1),
    {
        read_field(self.0 as u64, 5, 1) == 1
    }

    /// The reserved field.
    pub fn get_reserved(&self) -> (r: u32)
        ensures
            r as u64 == field_of(self.bits(), 6, 26),
    {
        let field = read_field(self.0 as u64, 6, 26);
        proof {
            lemma_masks();
        }
        field as u32
    }

    /// Clears the reserved field.
    pub fn clear_reserved(&mut self)
        ensures
            final(self).bits() == with_field(old(self).bits(), 6, 26, 0),
    {
        proof {
            assert((0u8 as u64) <= low_mask(26));
        }
        self.0 = write_field_u32(self.0, 6, 26, 0);
    }


}

/// BOHC
#[derive(Clone, Copy, Debug, PartialEq, Eq, Structural)]
pub struct BiosOsControlStatus(u32);

impl BiosOsControlStatus {
    /// The raw bits of the register.
    pub closed spec fn bits(&self) -> u64 {
        self.0 as u64
    }

    /// A register with every bit cleared.
    pub fn new() -> (r: BiosOsControlStatus)
        ensures
            r.bits() == 0,
    {
        BiosOsControlStatus(0)
    }

    /// The register that holds `bits`.
    pub fn from_bits(bits: u32) -> (r: BiosOsControlStatus)
        ensures
            r.bits() == bits as u64,
    {
        BiosOsControlStatus(bits)
    }

    /// The raw bits of the register.
    pub fn as_u32(&self) -> (r: u32)
        ensures
            r as u64 == self.bits(),
    {
        self.0
    }

    /// Whether the BIOS owned semaphore bit is set.
    pub fn is_bos(&self) -> (r: bool)
        ensures
            r == (field_of(self.bits(), 0, 1) == 1),
    {
        read_field(self.0 as u64, 0, 1) == 1
    }

    /// Writes the BIOS owned semaphore field, keeping every other bit.
    pub fn set_bos(&mut self, v: bool)
        ensures
            final(self).bits() == with_field(old(self).bits(), 0, 1, if v { 1u64 } else { 0u64 }),
    {
        proof {
            lemma_masks();
        }
        self.0 = write_field_u32(self.0, 0, 1, if v { 1u64 } else { 0u64 });
    }

    /// This register with the bits of `v` set in the BIOS owned semaphore field.
    pub fn bos(self, v: bool) -> (r: BiosOsControlStatus)
        ensures
            r.bits() == or_field(self.bits(), 0, if v { 1u64 } else { 0u64 }),
    {
        proof {
            lemma_masks();
        }
        BiosOsControlStatus(set_field_bits_u32(self.0, 0, 1, if v { 1u64 } else { 0u64 }))
    }

    /// Whether the os owned semaphore bit is set.
    pub fn is_oos(&self) -> (r: bool)
        ensures
            r == (field_of(self.bits(), 1, 1) == 1),
    {
        read_field(self.0 as u64, 1, 1) == 1
    }

    /// Writes the os owned semaphore field, keeping every other bit.
    pub fn set_oos(&mut self, v: bool)
        ensures
            final(self).bits() == with_field(old(self).bits(), 1, 1, if v { 1u64 } else { 0u64 }),
    {
        proof {
            lemma_masks();
        }
        self.0 = write_field_u32(self.0, 1, 1, if v { 1u64 } else { 0u64 });
    }

    /// This register with the bits of `v` set in the os owned semaphore field.
    pub fn oos(self, v: bool) -> (r: BiosOsControlStatus)
        ensures
            r.bits() == or_field(self.bits(), 1, if v { 1u64 } else { 0u64 }),
    {
        proof {
            lemma_masks();
        }
        BiosOsControlStatus(set_field_bits_u32(self.0, 1, 1, if v { 1u64 } else { 0u64 }))
    }

    /// Whether the SMI on OS ownership change enable bit is set.
    pub fn is_sooe(&self) -> (r: bool)
        ensures
            r == (field_of(self.bits(), 2, 1) == 1),
    {
        read_field(self.0 as u64, 2, 1) == 1
    }

    /// Writes the SMI on OS ownership change enable field, keeping every other bit.
    pub fn set_sooe(&mut self, v: bool)
        ensures
            final(self).bits() == with_field(old(self).bits(), 2, 1, if v { 1u64 } else { 0u64 }),
    {
        proof {
            lemma_masks();
        }
        self.0 = write_field_u32(self.0, 2, 1, if v { 1u64 } else { 0u64 });
    }

    /// This register with the bits of `v` set in the SMI on OS ownership change enable field.
    pub fn sooe(self, v: bool) -> (r: BiosOsControlStatus)
        ensures
            r.bits() == or_field(self.bits(), 2, if v { 1u64 } else { 0u64 }),
    {
        proof {
            lemma_masks();
        }
        BiosOsControlStatus(set_field_bits_u32(self.0, 2, 1, if v { 1u64 } else { 0u64 }))
    }

    /// Whether the os ownership change bit is set.
    pub fn is_ooc(&self) -> (r: bool)
        ensures
            r == (field_of(self.bits(), 3, 1) == 1),
    {
        read_field(self.0 as u64, 3, 1) == 1
    }

    /// Writes the os ownership change field, keeping every other bit.
    pub fn set_ooc(&mut self, v: bool)
        ensures
            final(self).bits() == with_field(old(self).bits(), 3, 1, if v { 1u64 } else { 0u64 }),
    {
        proof {
            lemma_masks();
        }
        self.0 = write_field_u32(self.0, 3, 1, if v { 1u64 } else { 0u64 });
    }

    /// This register with the bits of `v` set in the os ownership change field.
    pub fn ooc(self, v: bool) -> (r: BiosOsControlStatus)
        ensures
            r.bits() == or_field(self.bits(), 3, if v { 1u64 } else { 0u64 }),
    {
        proof {
            lemma_masks();
        }
        BiosOsControlStatus(set_field_bits_u32(self.0, 3, 1, if v { 1u64 } else { 0u64 }))
    }

    /// Clears the os ownership change field.
    pub fn clear_ooc(&mut self)
        ensures
            final(self).bits() == with_field(old(self).bits(), 3, 1, 0),
    {
        proof {
            assert((0u8 as u64) <= low_mask(1));
        }
        self.0 = write_field_u32(self.0, 3, 1, 0);
    }

    /// Whether the BIOS busy bit is set.
    pub fn is_bb(&self) -> (r: bool)
        ensures
            r == (field_of(self.bits(), 4, 1) == 1),
    {
        read_field(self.0 as u64, 4, 1) == 1
    }

    /// Writes the BIOS busy field, keeping every other bit.
    pub fn set_bb(&mut self, v: bool)
        ensures
            final(self).bits() == with_field(old(self).bits(), 4, 1, if v { 1u64 } else { 0u64 }),
    {
        proof {
            lemma_masks();
        }
        self.0 = write_field_u32(self.0, 4, 1, if v { 1u64 } else { 0u64 });
    }

    /// This register with the bits of `v` set in the BIOS busy field.
    pub fn bb(self, v: bool) -> (r: BiosOsControlStatus)
        ensures
            r.bits() == or_field(self.bits(), 4, if v { 1u64 } else { 0u64 }),
    {
        proof {
            lemma_masks();
        }
        BiosOsControlStatus(set_field_bits_u32(self.0, 4, 1, if v { 1u64 } else { 0u64 }))
    }

    /// The reserved field.
    pub fn get_reserved(&self) -> (r: u32)
        ensures
            r as u64 == field_of(self.bits(), 5, 27),
    {
        let field = read_field(self.0 as u64, 5, 27);
        proof {
            lemma_masks();
        }
        field as u32
    }

    /// Clears the reserved field.
    pub fn clear_reserved(&mut self)
        ensures
            final(self).bits() == with_field(old(self).bits(), 5, 27, 0),
    {
        proof {
            assert((0u8 as u64) <= low_mask(27));
        }
        self.0 = write_field_u32(self.0, 5, 27, 0);
    }


}

/// Port X Interrupt status
#[derive(Clone, Copy, Debug, PartialEq, Eq, Structural)]
pub struct PortInterruptStatus(u32);

impl PortInterruptStatus {
    /// The raw bits of the register.
    pub closed spec fn bits(&self) -> u64 {
        self.0 as u64
    }

    /// A register with every bit cleared.
    pub fn new() -> (r: PortInterruptStatus)
        ensures
            r.bits() == 0,
    {
        PortInterruptStatus(0)
    }

    /// The register that holds `bits`.
    pub fn from_bits(bits: u32) -> (r: PortInterruptStatus)
        ensures
            r.bits() == bits as u64,
    {
        PortInterruptStatus(bits)
    }

    /// The raw bits of the register.
    pub fn as_u32(&self) -> (r: u32)
        ensures
            r as u64 == self.bits(),
    {
        self.0
    }

    /// Whether the device to host register fis interrupt bit is set.
    pub fn is_dhrs(&self) -> (r: bool)
        ensures
            r == (field_of(self.bits(), 0, 1) == 1),
    {
        read_field(self.0 as u64, 0, 1) == 1
    }

    /// Writes the device to host register fis interrupt field, keeping every other bit.
    pub fn set_dhrs(&mut self, v: bool)
        ensures
            final(self).bits() == with_field(old(self).bits(), 0, 1, if v { 1u64 } else { 0u64 }),
    {
        proof {
            lemma_masks();
        }
        self.0 = write_field_u32(self.0, 0, 1, if v { 1u64 } else { 0u64 });
    }

    /// This register with the bits of `v` set in the device to host register fis interrupt field.
    pub fn dhrs(self, v: bool) -> (r: PortInterruptStatus)
        ensures
            r.bits() == or_field(self.bits(), 0, if v { 1u64 } else { 0u64 }),
    {
        proof {
            lemma_masks();
        }
        PortInterruptStatus(set_field_bits_u32(self.0, 0, 1, if v { 1u64 } else { 0u64 }))
    }

    /// Writes 1 to the device to host register fis interrupt field, which clears it in the device.
    pub fn clear_dhrs(&mut self)
        ensures
            final(self).bits() == with_field(old(self).bits(), 0, 1, 1),
    {
        proof {
            lemma_masks();
        }
        self.0 = write_field_u32(self.0, 0, 1, 1);
    }

    /// Whether the PIO Setup FIS Interrupt bit is set.
    pub fn is_pss(&self) -> (r: bool)
        ensures
            r == (field_of(self.bits(), 1, 1) == 1),
    {
        read_field(self.0 as u64, 1, 1) == 1
    }

    /// Writes the PIO Setup FIS Interrupt field, keeping every other bit.
    pub fn set_pss(&mut self, v: bool)
        ensures
            final(self).bits() == with_field(old(self).bits(), 1, 1, if v { 1u64 } else { 0u64 }),
    {
        proof {
            lemma_masks();
        }
        self.0 = write_field_u32(self.0, 1, 1, if v { 1u64 } else { 0u64 });
    }

    /// This register with the bits of `v` set in the PIO Setup FIS Interrupt field.
    pub fn pss(self, v: bool) -> (r: PortInterruptStatus)
        ensures
            r.bits() == or_field(self.bits(), 1, if v { 1u64 } else { 0u64 }),
    {
        proof {
            lemma_masks();
        }
        PortInterruptStatus(set_field_bits_u32(self.0, 1, 1, if v { 1u64 } else { 0u64 }))
    }

    /// Writes 1 to the PIO Setup FIS Interrupt field, which clears it in the device.
    pub fn clear_pss(&mut self)
        ensures
            final(self).bits() == with_field(old(self).bits(), 1, 1, 1),
    {
        proof {
            lemma_masks();
        }
        self.0 = write_field_u32(self.0, 1, 1, 1);
    }

    /// Whether the DMA Setup FIS Interrupt bit is set.
    pub fn is_dss(&self) -> (r: bool)
        ensures
            r == (field_of(self.bits(), 2, 1) == 1),
    {
        read_field(self.0 as u64, 2, 1) == 1
    }

    /// Writes the DMA Setup FIS Interrupt field, keeping every other bit.
    pub fn set_dss(&mut self, v: bool)
        ensures
            final(self).bits() == with_field(old(self).bits(), 2, 1, if v { 1u64 } else { 0u64 }),
    {
        proof {
            lemma_masks();
        }
        self.0 = write_field_u32(self.0, 2, 1, if v { 1u64 } else { 0u64 });
    }

    /// This register with the bits of `v` set in the DMA Setup FIS Interrupt field.
    pub fn dss(self, v: bool) -> (r: PortInterruptStatus)
        ensures
            r.bits() == or_field(self.bits(), 2, if v { 1u64 } else { 0u64 }),
    {
        proof {
            lemma_masks();
        }
        PortInterruptStatus(set_field_bits_u32(self.0, 2, 1, if v { 1u64 } else { 0u64 }))
    }

    /// Writes 1 to the DMA Setup FIS Interrupt field, which clears it in the device.
    pub fn clear_dss(&mut self)
        ensures
            final(self).bits() == with_field(old(self).bits(), 2, 1, 1),
    {
        proof {
            lemma_masks();
        }
        self.0 = write_field_u32(self.0, 2, 1, 1);
    }

    /// Whether the set device bits interrupt bit is set.
    pub fn is_sdbs(&self) -> (r: bool)
        ensures
            r == (field_of(self.bits(), 3, 1) == 1),
    {
        read_field(self.0 as u64, 3, 1) == 1
    }

    /// Writes the set device bits interrupt field, keeping every other bit.
    pub fn set_sdbs(&mut self, v: bool)
        ensures
            final(self).bits() == with_field(old(self).bits(), 3, 1, if v { 1u64 } else { 0u64 }),
    {
        proof {
            lemma_masks();
        }
        self.0 = write_field_u32(self.0, 3, 1, if v { 1u64 } else { 0u64 });
    }

    /// This register with the bits of `v` set in the set device bits interrupt field.
    pub fn sdbs(self, v: bool) -> (r: PortInterruptStatus)
        ensures
            r.bits() == or_field(self.bits(), 3, if v { 1u64 } else { 0u64 }),
    {
        proof {
            lemma_masks();
        }
        PortInterruptStatus(set_field_bits_u32(self.0, 3, 1, if v { 1u64 } else { 0u64 }))
    }

    /// Writes 1 to the set device bits interrupt field, which clears it in the device.
    pub fn clear_sdbs(&mut self)
        ensures
            final(self).bits() == with_field(old(self).bits(), 3, 1, 1),
    {
        proof {
            lemma_masks();
        }
        self.0 = write_field_u32(self.0, 3, 1, 1);
    }

    /// Whether the unknown fis interrupt bit is set.
    pub fn is_ufs(&self) -> (r: bool)
        ensures
            r == (field_of(self.bits(), 4, 1) == 1),
    {
        read_field(self.0 as u64, 4, 1) == 1
    }

    /// Whether the descriptor processed bit is set.
    pub fn is_dps(&self) -> (r: bool)
        ensures
            r == (field_of(self.bits(), 5, 1) == 1),
    {
        read_field(self.0 as u64, 5, 1) == 1
    }

    /// Writes the descriptor processed field, keeping every other bit.
    pub fn set_dps(&mut self, v: bool)
        ensures
            final(self).bits() == with_field(old(self).bits(), 5, 1, if v { 1u64 } else { 0u64 }),
    {
        proof {
            lemma_masks();
        }
        self.0 = write_field_u32(self.0, 5, 1, if v { 1u64 } else { 0u64 });
    }

    /// This register with the bits of `v` set in the descriptor processed field.
    pub fn dps(self, v: bool) -> (r: PortInterruptStatus)
        ensures
            r.bits() == or_field(self.bits(), 5, if v { 1u64 } else { 0u64 }),
    {
        proof {
            lemma_masks();
        }
        PortInterruptStatus(set_field_bits_u32(self.0, 5, 1, if v { 1u64 } else { 0u64 }))
    }

    /// Writes 1 to the descriptor processed field, which clears it in the device.
    pub fn clear_dps(&mut self)
        ensures
            final(self).bits() == with_field(old(self).bits(), 5, 1, 1),
    {
        proof {
            lemma_masks();
        }
        self.0 = write_field_u32(self.0, 5, 1, 1);
    }

    /// Whether the port connect change status bit is set.
    pub fn is_pcs(&self) -> (r: bool)
        ensures
            r == (field_of(self.bits(), 6, 1) == 1),
    {
        read_field(self.0 as u64, 6, 1) == 1
    }

    /// Whether the device mechanical presence status bit is set.
    pub fn is_dmps(&self) -> (r: bool)
        ensures
            r == (field_of(self.bits(), 7, 1) == 1),
    {
        read_field(self.0 as u64, 7, 1) == 1
    }

    /// Writes the device mechanical presence status field, keeping every other bit.
    pub fn set_dmps(&mut self, v: bool)
        ensures
            final(self).bits() == with_field(old(self).bits(), 7, 1, if v { 1u64 } else { 0u64 }),
    {
        proof {
            lemma_masks();
        }
        self.0 = write_field_u32(self.0, 7, 1, if v { 1u64 } else { 0u64 });
    }

    /// This register with the bits of `v` set in the device mechanical presence status field.
    pub fn dmps(self, v: bool) -> (r: PortInterruptStatus)
        ensures
            r.bits() == or_field(self.bits(), 7, if v { 1u64 } else { 0u64 }),
    {
        proof {
            lemma_masks();
        }
        PortInterruptStatus(set_field_bits_u32(self.0, 7, 1, if v { 1u64 } else { 0u64 }))
    }

    /// Writes 1 to the device mechanical presence status field, which clears it in the device.
    pub fn clear_dmps(&mut self)
        ensures
            final(self).bits() == with_field(old(self).bits(), 7, 1, 1),
    {
        proof {
            lemma_masks();
        }
        self.0 = write_field_u32(self.0, 7, 1, 1);
    }

    /// The reserved0 field.
    pub fn get_reserved0(&self) -> (r: u16)
        ensures
            r as u64 == field_of(self.bits(), 8, 14),
    {
        let field = read_field(self.0 as u64, 8, 14);
        proof {
            lemma_masks();
        }
        field as u16
    }

    /// Clears the reserved0 field.
    pub fn clear_reserved0(&mut self)
        ensures
            final(self).bits() == with_field(old(self).bits(), 8, 14, 0),
    {
        proof {
            assert((0u8 as u64) <= low_mask(14));
        }
        self.0 = write_field_u32(self.0, 8, 14, 0);
    }

    /// Whether the phyrdy change status bit is set.
    pub fn is_prcs(&self) -> (r: bool)
        ensures
            r == (field_of(self.bits(), 22, 1) == 1),
    {
        read_field(self.0 as u64, 22, 1) == 1
    }

    /// Whether the incorrect port multiplier status bit is set.
    pub fn is_ipms(&self) -> (r: bool)
        ensures
            r == (field_of(self.bits(), 23, 1) == 1),
    {
        read_field(self.0 as u64, 23, 1) == 1
    }

    /// Writes the incorrect port multiplier status field, keeping every other bit.
    pub fn set_ipms(&mut self, v: bool)
        ensures
            final(self).bits() == with_field(old(self).bits(), 23, 1, if v { 1u64 } else { 0u64 }),
    {
        proof {
            lemma_masks();
        }
        self.0 = write_field_u32(self.0, 23, 1, if v { 1u64 } else { 0u64 });
    }

    /// This register with the bits of `v` set in the incorrect port multiplier status field.
    pub fn ipms(self, v: bool) -> (r: PortInterruptStatus)
        ensures
            r.bits() == or_field(self.bits(), 23, if v { 1u64 } else { 0u64 }),
    {
        proof {
            lemma_masks();
        }
        PortInterruptStatus(set_field_bits_u32(self.0, 23, 1, if v { 1u64 } else { 0u64 }))
    }

    /// Writes 1 to the incorrect port multiplier status field, which clears it in the device.
    pub fn clear_ipms(&mut self)
        ensures
            final(self).bits() == with_field(old(self).bits(), 23, 1, 1),
    {
        proof {
            lemma_masks();
        }
        self.0 = write_field_u32(self.0, 23, 1, 1);
    }

    /// Whether the overflow status bit is set.
    pub fn is_ofs(&self) -> (r: bool)
        ensures
            r == (field_of(self.bits(), 24, 1) == 1),
    {
        read_field(self.0 as u64, 24, 1) == 1
    }

    /// Writes the overflow status field, keeping every other bit.
    pub fn set_ofs(&mut self, v: bool)
        ensures
            final(self).bits() == with_field(old(self).bits(), 24, 1, if v { 1u64 } else { 0u64 }),
    {
        proof {
            lemma_masks();
        }
        self.0 = write_field_u32(self.0, 24, 1, if v { 1u64 } else { 0u64 });
    }

    /// This register with the bits of `v` set in the overflow status field.
    pub fn ofs(self, v: bool) -> (r: PortInterruptStatus)
        ensures
            r.bits() == or_field(self.bits(), 24, if v { 1u64 } else { 0u64 }),
    {
        proof {
            lemma_masks();
        }
        PortInterruptStatus(set_field_bits_u32(self.0, 24, 1, if v { 1u64 } else { 0u64 }))
    }

    /// Writes 1 to the overflow status field, which clears it in the device.
    pub fn clear_ofs(&mut self)
        ensures
            final(self).bits() == with_field(old(self).bits(), 24, 1, 1),
    {
        proof {
            lemma_masks();
        }
        self.0 = write_field_u32(self.0, 24, 1, 1);
    }

    /// Whether the reserved1 bit is set.
    pub fn is_reserved1(&self) -> (r: bool)
        ensures
            r == (field_of(self.bits(), 25, 1) == 1),
    {
        read_field(self.0 as u64, 25, 1) == 1
    }

    /// Clears the reserved1 field.
    pub fn clear_reserved1(&mut self)
        ensures
            final(self).bits() == with_field(old(self).bits(), 25, 1, 0),
    {
        proof {
            assert((0u8 as u64) <= low_mask(1));
        }
        self.0 = write_field_u32(self.0, 25, 1, 0);
    }

    /// Whether the interface non-fatal error status bit is set.
    pub fn is_infs(&self) -> (r: bool)
        ensures
            r == (field_of(self.bits(), 26, 1) == 1),
    {
        read_field(self.0 as u64, 26, 1) == 1
    }

    /// Writes the interface non-fatal error status field, keeping every other bit.
    pub fn set_infs(&mut self, v: bool)
        ensures
            final(self).bits() == with_field(old(self).bits(), 26, 1, if v { 1u64 } else { 0u64 }),
    {
        proof {
            lemma_masks();
        }
        self.0 = write_field_u32(self.0, 26, 1, if v { 1u64 } else { 0u64 });
    }

    /// This register with the bits of `v` set in the interface non-fatal error status field.
    pub fn infs(self, v: bool) -> (r: PortInterruptStatus)
        ensures
            r.bits() == or_field(self.bits(), 26, if v { 1u64 } else { 0u64 }),
    {
        proof {
            lemma_masks();
        }
        PortInterruptStatus(set_field_bits_u32(self.0, 26, 1, if v { 1u64 } else { 0u64 }))
    }

    /// Writes 1 to the interface non-fatal error status field, which clears it in the device.
    pub fn clear_infs(&mut self)
        ensures
            final(self).bits() == with_field(old(self).bits(), 26, 1, 1),
    {
        proof {
            lemma_masks();
        }
        self.0 = write_field_u32(self.0, 26, 1, 1);
    }

    /// Whether the interface fatal error status bit is set.
    pub fn is_ifs(&self) -> (r: bool)
        ensures
            r == (field_of(self.bits(), 27, 1) == 1),
    {
        read_field(self.0 as u64, 27, 1) == 1
    }

    /// Writes the interface fatal error status field, keeping every other bit.
    pub fn set_ifs(&mut self, v: bool)
        ensures
            final(self).bits() == with_field(old(self).bits(), 27, 1, if v { 1u64 } else { 0u64 }),
    {
        proof {
            lemma_masks();
        }
        self.0 = write_field_u32(self.0, 27, 1, if v { 1u64 } else { 0u64 });
    }

    /// This register with the bits of `v` set in the interface fatal error status field.
    pub fn ifs(self, v: bool) -> (r: PortInterruptStatus)
        ensures
            r.bits() == or_field(self.bits(), 27, if v { 1u64 } else { 0u64 }),
    {
        proof {
            lemma_masks();
        }
        PortInterruptStatus(set_field_bits_u32(self.0, 27, 1, if v { 1u64 } else { 0u64 }))
    }

    /// Writes 1 to the interface fatal error status field, which clears it in the device.
    pub fn clear_ifs(&mut self)
        ensures
            final(self).bits() == with_field(old(self).bits(), 27, 1, 1),
    {
        proof {
            lemma_masks();
        }
        self.0 = write_field_u32(self.0, 27, 1, 1);
    }

    /// Whether the host bus data error status bit is set.
    pub fn is_hbds(&self) -> (r: bool)
        ensures
            r == (field_of(self.bits(), 28, 1) == 1),
    {
        read_field(self.0 as u64, 28, 1) == 1
    }

    /// Writes the host bus data error status field, keeping every other bit.
    pub fn set_hbds(&mut self, v: bool)
        ensures
            final(self).bits() == with_field(old(self).bits(), 28, 1, if v { 1u64 } else { 0u64 }),
    {
        proof {
            lemma_masks();
        }
        self.0 = write_field_u32(self.0, 28, 1, if v { 1u64 } else { 0u64 });
    }

    /// This register with the bits of `v` set in the host bus data error status field.
    pub fn hbds(self, v: bool) -> (r: PortInterruptStatus)
        ensures
            r.bits() == or_field(self.bits(), 28, if v { 1u64 } else { 0u64 }),
    {
        proof {
            lemma_masks();
        }
        PortInterruptStatus(set_field_bits_u32(self.0, 28, 1, if v { 1u64 } else { 0u64 }))
    }

    /// Writes 1 to the host bus data error status field, which clears it in the device.
    pub fn clear_hbds(&mut self)
        ensures
            final(self).bits() == with_field(old(self).bits(), 28, 1, 1),
    {
        proof {
            lemma_masks();
        }
        self.0 = write_field_u32(self.0, 28, 1, 1);
    }

    /// Whether the host bust fatal error status bit is set.
    pub fn is_hbfs(&self) -> (r: bool)
        ensures
            r == (field_of(self.bits(), 29, 1) == 1),
    {
        read_field(self.0 as u64, 29, 1) == 1
    }

    /// Writes the host bust fatal error status field, keeping every other bit.
    pub fn set_hbfs(&mut self, v: bool)
        ensures
            final(self).bits() == with_field(old(self).bits(), 29, 1, if v { 1u64 } else { 0u64 }),
    {
        proof {
            lemma_masks();
        }
        self.0 = write_field_u32(self.0, 29, 1, if v { 1u64 } else { 0u64 });
    }

    /// This register with the bits of `v` set in the host bust fatal error status field.
    pub fn hbfs(self, v: bool) -> (r: PortInterruptStatus)
        ensures
            r.bits() == or_field(self.bits(), 29, if v { 1u64 } else { 0u64 }),
    {
        proof {
            lemma_masks();
        }
        PortInterruptStatus(set_field_bits_u32(self.0, 29, 1, if v { 1u64 } else { 0u64 }))
    }

    /// Writes 1 to the host bust fatal error status field, which clears it in the device.
    pub fn clear_hbfs(&mut self)
        ensures
            final(self).bits() == with_field(old(self).bits(), 29, 1, 1),
    {
        proof {
            lemma_masks();
        }
        self.0 = write_field_u32(self.0, 29, 1, 1);
    }

    /// Whether the task file error status bit is set.
    pub fn is_tfes(&self) -> (r: bool)
        ensures
            r == (field_of(self.bits(), 30, 1) == 1),
    {
        read_field(self.0 as u64, 30, 1) == 1
    }

    /// Writes the task file error status field, keeping every other bit.
    pub fn set_tfes(&mut self, v: bool)
        ensures
            final(self).bits() == with_field(old(self).bits(), 30, 1, if v { 1u64 } else { 0u64 }),
    {
        proof {
            lemma_masks();
        }
        self.0 = write_field_u32(self.0, 30, 1, if v { 1u64 } else { 0u64 });
    }

    /// This register with the bits of `v` set in the task file error status field.
    pub fn tfes(self, v: bool) -> (r: PortInterruptStatus)
        ensures
            r.bits() == or_field(self.bits(), 30, if v { 1u64 } else { 0u64 }),
    {
        proof {
            lemma_masks();
        }
        PortInterruptStatus(set_field_bits_u32(self.0, 30, 1, if v { 1u64 } else { 0u64 }))
    }

    /// Writes 1 to the task file error status field, which clears it in the device.
    pub fn clear_tfes(&mut self)
        ensures
            final(self).bits() == with_field(old(self).bits(), 30, 1, 1),
    {
        proof {
            lemma_masks();
        }
        self.0 = write_field_u32(self.0, 30, 1, 1);
    }

    /// Whether the cold port detect status bit is set.
    pub fn is_cpds(&self) -> (r: bool)
        ensures
            r == (field_of(self.bits(), 31, 1) == 1),
    {
        read_field(self.0 as u64, 31, 1) == 1
    }

    /// Writes the cold port detect status field, keeping every other bit.
    pub fn set_cpds(&mut self, v: bool)
        ensures
            final(self).bits() == with_field(old(self).bits(), 31, 1, if v { 1u64 } else { 0u64 }),
    {
        proof {
            lemma_masks();
        }
        self.0 = write_field_u32(self.0, 31, 1, if v { 1u64 } else { 0u64 });
    }

    /// This register with the bits of `v` set in the cold port detect status field.
    pub fn cpds(self, v: bool) -> (r: PortInterruptStatus)
        ensures
            r.bits() == or_field(self.bits(), 31, if v { 1u64 } else { 0u64 }),
    {
        proof {
            lemma_masks();
        }
        PortInterruptStatus(set_field_bits_u32(self.0, 31, 1, if v { 1u64 } else { 0u64 }))
    }

    /// Writes 1 to the cold port detect status field, which clears it in the device.
    pub fn clear_cpds(&mut self)
        ensures
            final(self).bits() == with_field(old(self).bits(), 31, 1, 1),
    {
        proof {
            lemma_masks();
        }
        self.0 = write_field_u32(self.0, 31, 1, 1);
    }


}

/// Port X Interrupt Enable
#[derive(Clone, Copy, Debug, PartialEq, Eq, Structural)]
pub struct InterruptEnable(u32);

impl InterruptEnable {
    /// The raw bits of the register.
    pub closed spec fn bits(&self) -> u64 {
        self.0 as u64
    }

    /// A register with every bit cleared.
    pub fn new() -> (r: InterruptEnable)
        ensures
            r.bits() == 0,
    {
        InterruptEnable(0)
    }

    /// The register that holds `bits`.
    pub fn from_bits(bits: u32) -> (r: InterruptEnable)
        ensures
            r.bits() == bits as u64,
    {
        InterruptEnable(bits)
    }

    /// The raw bits of the register.
    pub fn as_u32(&self) -> (r: u32)
        ensures
            r as u64 == self.bits(),
    {
        self.0
    }

    /// Whether the device to host register fis interrupt enable bit is set.
    pub fn is_dhre(&self) -> (r: bool)
        ensures
            r == (field_of(self.bits(), 0, 1) == 1),
    {
        read_field(self.0 as u64, 0, 1) == 1
    }

    /// Writes the device to host register fis interrupt enable field, keeping every other bit.
    pub fn set_dhre(&mut self, v: bool)
        ensures
            final(self).bits() == with_field(old(self).bits(), 0, 1, if v { 1u64 } else { 0u64 }),
    {
        proof {
            lemma_masks();
        }
        self.0 = write_field_u32(self.0, 0, 1, if v { 1u64 } else { 0u64 });
    }

    /// This register with the bits of `v` set in the device to host register fis interrupt enable field.
    pub fn dhre(self, v: bool) -> (r: InterruptEnable)
        ensures
            r.bits() == or_field(self.bits(), 0, if v { 1u64 } else { 0u64 }),
    {
        proof {
            lemma_masks();
        }
        InterruptEnable(set_field_bits_u32(self.0, 0, 1, if v { 1u64 } else { 0u64 }))
    }

    /// Whether the PIO Setup FIS Interrupt Enable bit is set.
    pub fn is_pse(&self) -> (r: bool)
        ensures
            r == (field_of(self.bits(), 1, 1) == 1),
    {
        read_field(self.0 as u64, 1, 1) == 1
    }

    /// Writes the PIO Setup FIS Interrupt Enable field, keeping every other bit.
    pub fn set_pse(&mut self, v: bool)
        ensures
            final(self).bits() == with_field(old(self).bits(), 1, 1, if v { 1u64 } else { 0u64 }),
    {
        proof {
            lemma_masks();
        }
        self.0 = write_field_u32(self.0, 1, 1, if v { 1u64 } else { 0u64 });
    }

    /// This register with the bits of `v` set in the PIO Setup FIS Interrupt Enable field.
    pub fn pse(self, v: bool) -> (r: InterruptEnable)
        ensures
            r.bits() == or_field(self.bits(), 1, if v { 1u64 } else { 0u64 }),
    {
        proof {
            lemma_masks();
        }
        InterruptEnable(set_field_bits_u32(self.0, 1, 1, if v { 1u64 } else { 0u64 }))
    }

    /// Whether the DMA Setup FIS Interrupt Enable bit is set.
    pub fn is_dse(&self) -> (r: bool)
        ensures
            r == (field_of(self.bits(), 2, 1) == 1),
    {
        read_field(self.0 as u64, 2, 1) == 1
    }

    /// Writes the DMA Setup FIS Interrupt Enable field, keeping every other bit.
    pub fn set_dse(&mut self, v: bool)
        ensures
            final(self).bits() == with_field(old(self).bits(), 2, 1, if v { 1u64 } else { 0u64 }),
    {
        proof {
            lemma_masks();
        }
        self.0 = write_field_u32(self.0, 2, 1, if v { 1u64 } else { 0u64 });
    }

    /// This register with the bits of `v` set in the DMA Setup FIS Interrupt Enable field.
    pub fn dse(self, v: bool) -> (r: InterruptEnable)
        ensures
            r.bits() == or_field(self.bits(), 2, if v { 1u64 } else { 0u64 }),
    {
        proof {
            lemma_masks();
        }
        InterruptEnable(set_field_bits_u32(self.0, 2, 1, if v { 1u64 } else { 0u64 }))
    }

    /// Whether the set device bits fis interrupt enable bit is set.
    pub fn is_sdbe(&self) -> (r: bool)
        ensures
            r == (field_of(self.bits(), 3, 1) == 1),
    {
        read_field(self.0 as u64, 3, 1) == 1
    }

    /// Writes the set device bits fis interrupt enable field, keeping every other bit.
    pub fn set_sdbe(&mut self, v: bool)
        ensures
            final(self).bits() == with_field(old(self).bits(), 3, 1, if v { 1u64 } else { 0u64 }),
    {
        proof {
            lemma_masks();
        }
        self.0 = write_field_u32(self.0, 3, 1, if v { 1u64 } else { 0u64 });
    }

    /// This register with the bits of `v` set in the set device bits fis interrupt enable field.
    pub fn sdbe(self, v: bool) -> (r: InterruptEnable)
        ensures
            r.bits() == or_field(self.bits(), 3, if v { 1u64 } else { 0u64 }),
    {
        proof {
            lemma_masks();
        }
        InterruptEnable(set_field_bits_u32(self.0, 3, 1, if v { 1u64 } else { 0u64 }))
    }

    /// Whether the unknown fis interrupt enable bit is set.
    pub fn is_ufe(&self) -> (r: bool)
        ensures
            r == (field_of(self.bits(), 4, 1) == 1),
    {
        read_field(self.0 as u64, 4, 1) == 1
    }

    /// Writes the unknown fis interrupt enable field, keeping every other bit.
    pub fn set_ufe(&mut self, v: bool)
        ensures
            final(self).bits() == with_field(old(self).bits(), 4, 1, if v { 1u64 } else { 0u64 }),
    {
        proof {
            lemma_masks();
        }
        self.0 = write_field_u32(self.0, 4, 1, if v { 1u64 } else { 0u64 });
    }

    /// This register with the bits of `v` set in the unknown fis interrupt enable field.
    pub fn ufe(self, v: bool) -> (r: InterruptEnable)
        ensures
            r.bits() == or_field(self.bits(), 4, if v { 1u64 } else { 0u64 }),
    {
        proof {
            lemma_masks();
        }
        InterruptEnable(set_field_bits_u32(self.0, 4, 1, if v { 1u64 } else { 0u64 }))
    }

    /// Whether the descriptor processed interrupt enable bit is set.
    pub fn is_dpe(&self) -> (r: bool)
        ensures
            r == (field_of(self.bits(), 5, 1) == 1),
    {
        read_field(self.0 as u64, 5, 1) == 1
    }

    /// Writes the descriptor processed interrupt enable field, keeping every other bit.
    pub fn set_dpe(&mut self, v: bool)
        ensures
            final(self).bits() == with_field(old(self).bits(), 5, 1, if v { 1u64 } else { 0u64 }),
    {
        proof {
            lemma_masks();
        }
        self.0 = write_field_u32(self.0, 5, 1, if v { 1u64 } else { 0u64 });
    }

    /// This register with the bits of `v` set in the descriptor processed interrupt enable field.
    pub fn dpe(self, v: bool) -> (r: InterruptEnable)
        ensures
            r.bits() == or_field(self.bits(), 5, if v { 1u64 } else { 0u64 }),
    {
        proof {
            lemma_masks();
        }
        InterruptEnable(set_field_bits_u32(self.0, 5, 1, if v { 1u64 } else { 0u64 }))
    }

    /// Whether the port change interrupt enable bit is set.
    pub fn is_pce(&self) -> (r: bool)
        ensures
            r == (field_of(self.bits(), 6, 1) == 1),
    {
        read_field(self.0 as u64, 6, 1) == 1
    }

    /// Writes the port change interrupt enable field, keeping every other bit.
    pub fn set_pce(&mut self, v: bool)
        ensures
            final(self).bits() == with_field(old(self).bits(), 6, 1, if v { 1u64 } else { 0u64 }),
    {
        proof {
            lemma_masks();
        }
        self.0 = write_field_u32(self.0, 6, 1, if v { 1u64 } else { 0u64 });
    }

    /// This register with the bits of `v` set in the port change interrupt enable field.
    pub fn pce(self, v: bool) -> (r: InterruptEnable)
        ensures
            r.bits() == or_field(self.bits(), 6, if v { 1u64 } else { 0u64 }),
    {
        proof {
            lemma_masks();
        }
        InterruptEnable(set_field_bits_u32(self.0, 6, 1, if v { 1u64 } else { 0u64 }))
    }

    /// Whether the device mechanical presence enable bit is set.
    pub fn is_dmpe(&self) -> (r: bool)
        ensures
            r == (field_of(self.bits(), 7, 1) == 1),
    {
        read_field(self.0 as u64, 7, 1) == 1
    }

    /// Writes the device mechanical presence enable field, keeping every other bit.
    pub fn set_dmpe(&mut self, v: bool)
        ensures
            final(self).bits() == with_field(old(self).bits(), 7, 1, if v { 1u64 } else { 0u64 }),
    {
        proof {
            lemma_masks();
        }
        self.0 = write_field_u32(self.0, 7, 1, if v { 1u64 } else { 0u64 });
    }

    /// This register with the bits of `v` set in the device mechanical presence enable field.
    pub fn dmpe(self, v: bool) -> (r: InterruptEnable)
        ensures
            r.bits() == or_field(self.bits(), 7, if v { 1u64 } else { 0u64 }),
    {
        proof {
            lemma_masks();
        }
        InterruptEnable(set_field_bits_u32(self.0, 7, 1, if v { 1u64 } else { 0u64 }))
    }

    /// The reserved0 field.
    pub fn get_reserved0(&self) -> (r: u16)
        ensures
            r as u64 == field_of(self.bits(), 8, 14),
    {
        let field = read_field(self.0 as u64, 8, 14);
        proof {
            lemma_masks();
        }
        field as u16
    }

    /// Clears the reserved0 field.
    pub fn clear_reserved0(&mut self)
        ensures
            final(self).bits() == with_field(old(self).bits(), 8, 14, 0),
    {
        proof {
            assert((0u8 as u64) <= low_mask(14));
        }
        self.0 = write_field_u32(self.0, 8, 14, 0);
    }

    /// Whether the phyrdy change interrupt enable bit is set.
    pub fn is_prce(&self) -> (r: bool)
        ensures
            r == (field_of(self.bits(), 22, 1) == 1),
    {
        read_field(self.0 as u64, 22, 1) == 1
    }

    /// Writes the phyrdy change interrupt enable field, keeping every other bit.
    pub fn set_prce(&mut self, v: bool)
        ensures
            final(self).bits() == with_field(old(self).bits(), 22, 1, if v { 1u64 } else { 0u64 }),
    {
        proof {
            lemma_masks();
        }
        self.0 = write_field_u32(self.0, 22, 1, if v { 1u64 } else { 0u64 });
    }

    /// This register with the bits of `v` set in the phyrdy change interrupt enable field.
    pub fn prce(self, v: bool) -> (r: InterruptEnable)
        ensures
            r.bits() == or_field(self.bits(), 22, if v { 1u64 } else { 0u64 }),
    {
        proof {
            lemma_masks();
        }
        InterruptEnable(set_field_bits_u32(self.0, 22, 1, if v { 1u64 } else { 0u64 }))
    }

    /// Whether the incorrect port multiplier enable bit is set.
    pub fn is_ipme(&self) -> (r: bool)
        ensures
            r == (field_of(self.bits(), 23, 1) == 1),
    {
        read_field(self.0 as u64, 23, 1) == 1
    }

    /// Writes the incorrect port multiplier enable field, keeping every other bit.
    pub fn set_ipme(&mut self, v: bool)
        ensures
            final(self).bits() == with_field(old(self).bits(), 23, 1, if v { 1u64 } else { 0u64 }),
    {
        proof {
            lemma_masks();
        }
        self.0 = write_field_u32(self.0, 23, 1, if v { 1u64 } else { 0u64 });
    }

    /// This register with the bits of `v` set in the incorrect port multiplier enable field.
    pub fn ipme(self, v: bool) -> (r: InterruptEnable)
        ensures
            r.bits() == or_field(self.bits(), 23, if v { 1u64 } else { 0u64 }),
    {
        proof {
            lemma_masks();
        }
        InterruptEnable(set_field_bits_u32(self.0, 23, 1, if v { 1u64 } else { 0u64 }))
    }

    /// Whether the overflow enable bit is set.
    pub fn is_ofe(&self) -> (r: bool)
        ensures
            r == (field_of(self.bits(), 24, 1) == 1),
    {
        read_field(self.0 as u64, 24, 1) == 1
    }

    /// Writes the overflow enable field, keeping every other bit.
    pub fn set_ofe(&mut self, v: bool)
        ensures
            final(self).bits() == with_field(old(self).bits(), 24, 1, if v { 1u64 } else { 0u64 }),
    {
        proof {
            lemma_masks();
        }
        self.0 = write_field_u32(self.0, 24, 1, if v { 1u64 } else { 0u64 });
    }

    /// This register with the bits of `v` set in the overflow enable field.
    pub fn ofe(self, v: bool) -> (r: InterruptEnable)
        ensures
            r.bits() == or_field(self.bits(), 24, if v { 1u64 } else { 0u64 }),
    {
        proof {
            lemma_masks();
        }
        InterruptEnable(set_field_bits_u32(self.0, 24, 1, if v { 1u64 } else { 0u64 }))
    }

    /// Whether the reserved1 bit is set.
    pub fn is_reserved1(&self) -> (r: bool)
        ensures
            r == (field_of(self.bits(), 25, 1) == 1),
    {
        read_field(self.0 as u64, 25, 1) == 1
    }

    /// Clears the reserved1 field.
    pub fn clear_reserved1(&mut self)
        ensures
            final(self).bits() == with_field(old(self).bits(), 25, 1, 0),
    {
        proof {
            assert((0u8 as u64) <= low_mask(1));
        }
        self.0 = write_field_u32(self.0, 25, 1, 0);
    }

    /// Whether the interface non-fatal error enable bit is set.
    pub fn is_infe(&self) -> (r: bool)
        ensures
            r == (field_of(self.bits(), 26, 1) == 1),
    {
        read_field(self.0 as u64, 26, 1) == 1
    }

    /// Writes the interface non-fatal error enable field, keeping every other bit.
    pub fn set_infe(&mut self, v: bool)
        ensures
            final(self).bits() == with_field(old(self).bits(), 26, 1, if v { 1u64 } else { 0u64 }),
    {
        proof {
            lemma_masks();
        }
        self.0 = write_field_u32(self.0, 26, 1, if v { 1u64 } else { 0u64 });
    }

    /// This register with the bits of `v` set in the interface non-fatal error enable field.
    pub fn infe(self, v: bool) -> (r: InterruptEnable)
        ensures
            r.bits() == or_field(self.bits(), 26, if v { 1u64 } else { 0u64 }),
    {
        proof {
            lemma_masks();
        }
        InterruptEnable(set_field_bits_u32(self.0, 26, 1, if v { 1u64 } else { 0u64 }))
    }

    /// Whether the interface fatal error enable bit is set.
    pub fn is_ife(&self) -> (r: bool)
        ensures
            r == (field_of(self.bits(), 27, 1) == 1),
    {
        read_field(self.0 as u64, 27, 1) == 1
    }

    /// Writes the interface fatal error enable field, keeping every other bit.
    pub fn set_ife(&mut self, v: bool)
        ensures
            final(self).bits() == with_field(old(self).bits(), 27, 1, if v { 1u64 } else { 0u64 }),
    {
        proof {
            lemma_masks();
        }
        self.0 = write_field_u32(self.0, 27, 1, if v { 1u64 } else { 0u64 });
    }

    /// This register with the bits of `v` set in the interface fatal error enable field.
    pub fn ife(self, v: bool) -> (r: InterruptEnable)
        ensures
            r.bits() == or_field(self.bits(), 27, if v { 1u64 } else { 0u64 }),
    {
        proof {
            lemma_masks();
        }
        InterruptEnable(set_field_bits_u32(self.0, 27, 1, if v { 1u64 } else { 0u64 }))
    }

    /// Whether the host bus data error enable bit is set.
    pub fn is_hbde(&self) -> (r: bool)
        ensures
            r == (field_of(self.bits(), 28, 1) == 1),
    {
        read_field(self.0 as u64, 28, 1) == 1
    }

    /// Writes the host bus data error enable field, keeping every other bit.
    pub fn set_hbde(&mut self, v: bool)
        ensures
            final(self).bits() == with_field(old(self).bits(), 28, 1, if v { 1u64 } else { 0u64 }),
    {
        proof {
            lemma_masks();
        }
        self.0 = write_field_u32(self.0, 28, 1, if v { 1u64 } else { 0u64 });
    }

    /// This register with the bits of `v` set in the host bus data error enable field.
    pub fn hbde(self, v: bool) -> (r: InterruptEnable)
        ensures
            r.bits() == or_field(self.bits(), 28, if v { 1u64 } else { 0u64 }),
    {
        proof {
            lemma_masks();
        }
        InterruptEnable(set_field_bits_u32(self.0, 28, 1, if v { 1u64 } else { 0u64 }))
    }

    /// Whether the host bus fatal error enable bit is set.
    pub fn is_hbfe(&self) -> (r: bool)
        ensures
            r == (field_of(self.bits(), 29, 1) == 1),
    {
        read_field(self.0 as u64, 29, 1) == 1
    }

    /// Writes the host bus fatal error enable field, keeping every other bit.
    pub fn set_hbfe(&mut self, v: bool)
        ensures
            final(self).bits() == with_field(old(self).bits(), 29, 1, if v { 1u64 } else { 0u64 }),
    {
        proof {
            lemma_masks();
        }
        self.0 = write_field_u32(self.0, 29, 1, if v { 1u64 } else { 0u64 });
    }

    /// This register with the bits of `v` set in the host bus fatal error enable field.
    pub fn hbfe(self, v: bool) -> (r: InterruptEnable)
        ensures
            r.bits() == or_field(self.bits(), 29, if v { 1u64 } else { 0u64 }),
    {
        proof {
            lemma_masks();
        }
        InterruptEnable(set_field_bits_u32(self.0, 29, 1, if v { 1u64 } else { 0u64 }))
    }

    /// Whether the task file error enable bit is set.
    pub fn is_tfee(&self) -> (r: bool)
        ensures
            r == (field_of(self.bits(), 30, 1) == 1),
    {
        read_field(self.0 as u64, 30, 1) == 1
    }

    /// Writes the task file error enable field, keeping every other bit.
    pub fn set_tfee(&mut self, v: bool)
        ensures
            final(self).bits() == with_field(old(self).bits(), 30, 1, if v { 1u64 } else { 0u64 }),
    {
        proof {
            lemma_masks();
        }
        self.0 = write_field_u32(self.0, 30, 1, if v { 1u64 } else { 0u64 });
    }

    /// This register with the bits of `v` set in the task file error enable field.
    pub fn tfee(self, v: bool) -> (r: InterruptEnable)
        ensures
            r.bits() == or_field(self.bits(), 30, if v { 1u64 } else { 0u64 }),
    {
        proof {
            lemma_masks();
        }
        InterruptEnable(set_field_bits_u32(self.0, 30, 1, if v { 1u64 } else { 0u64 }))
    }

    /// Whether the cold presence detect enable bit is set.
    pub fn is_cpde(&self) -> (r: bool)
        ensures
            r == (field_of(self.bits(), 31, 1) == 1),
    {
        read_field(self.0 as u64, 31, 1) == 1
    }

    /// Writes the cold presence detect enable field, keeping every other bit.
    pub fn set_cpde(&mut self, v: bool)
        ensures
            final(self).bits() == with_field(old(self).bits(), 31, 1, if v { 1u64 } else { 0u64 }),
    {
        proof {
            lemma_masks();
        }
        self.0 = write_field_u32(self.0, 31, 1, if v { 1u64 } else { 0u64 });
    }

    /// This register with the bits of `v` set in the cold presence detect enable field.
    pub fn cpde(self, v: bool) -> (r: InterruptEnable)
        ensures
            r.bits() == or_field(self.bits(), 31, if v { 1u64 } else { 0u64 }),
    {
        proof {
            lemma_masks();
        }
        InterruptEnable(set_field_bits_u32(self.0, 31, 1, if v { 1u64 } else { 0u64 }))
    }


}

/// Port X Command and status
#[derive(Clone, Copy, Debug, PartialEq, Eq, Structural)]
pub struct CmdStatus(u32);

impl CmdStatus {
    /// The raw bits of the register.
    pub closed spec fn bits(&self) -> u64 {
        self.0 as u64
    }

    /// A register with every bit cleared.
    pub fn new() -> (r: CmdStatus)
        ensures
            r.bits() == 0,
    {
        CmdStatus(0)
    }

    /// The register that holds `bits`.
    pub fn from_bits(bits: u32) -> (r: CmdStatus)
        ensures
            r.bits() == bits as u64,
    {
        CmdStatus(bits)
    }

    /// The raw bits of the register.
    pub fn as_u32(&self) -> (r: u32)
        ensures
            r as u64 == self.bits(),
    {
        self.0
    }

    /// Whether the start bit is set.
    pub fn is_st(&self) -> (r: bool)
        ensures
            r == (field_of(self.bits(), 0, 1) == 1),
    {
        read_field(self.0 as u64, 0, 1) == 1
    }

    /// Writes the start field, keeping every other bit.
    pub fn set_st(&mut self, v: bool)
        ensures
            final(self).bits() == with_field(old(self).bits(), 0, 1, if v { 1u64 } else { 0u64 }),
    {
        proof {
            lemma_masks();
        }
        self.0 = write_field_u32(self.0, 0, 1, if v { 1u64 } else { 0u64 });
    }

    /// This register with the bits of `v` set in the start field.
    pub fn st(self, v: bool) -> (r: CmdStatus)
        ensures
            r.bits() == or_field(self.bits(), 0, if v { 1u64 } else { 0u64 }),
    {
        proof {
            lemma_masks();
        }
        CmdStatus(set_field_bits_u32(self.0, 0, 1, if v { 1u64 } else { 0u64 }))
    }

    /// Whether the spin-up device bit is set.
    pub fn is_sud(&self) -> (r: bool)
        ensures
            r == (field_of(self.bits(), 1, 1) == 1),
    {
        read_field(self.0 as u64, 1, 1) == 1
    }

    /// Writes the spin-up device field, keeping every other bit.
    pub fn set_sud(&mut self, v: bool)
        ensures
            final(self).bits() == with_field(old(self).bits(), 1, 1, if v { 1u64 } else { 0u64 }),
    {
        proof {
            lemma_masks();
        }
        self.0 = write_field_u32(self.0, 1, 1, if v { 1u64 } else { 0u64 });
    }

    /// This register with the bits of `v` set in the spin-up device field.
    pub fn sud(self, v: bool) -> (r: CmdStatus)
        ensures
            r.bits() == or_field(self.bits(), 1, if v { 1u64 } else { 0u64 }),
    {
        proof {
            lemma_masks();
        }
        CmdStatus(set_field_bits_u32(self.0, 1, 1, if v { 1u64 } else { 0u64 }))
    }

    /// Whether the power on device bit is set.
    pub fn is_pod(&self) -> (r: bool)
        ensures
            r == (field_of(self.bits(), 2, 1) == 1),
    {
        read_field(self.0 as u64, 2, 1) == 1
    }

    /// Writes the power on device field, keeping every other bit.
    pub fn set_pod(&mut self, v: bool)
        ensures
            final(self).bits() == with_field(old(self).bits(), 2, 1, if v { 1u64 } else { 0u64 }),
    {
        proof {
            lemma_masks();
        }
        self.0 = write_field_u32(self.0, 2, 1, if v { 1u64 } else { 0u64 });
    }

    /// This register with the bits of `v` set in the power on device field.
    pub fn pod(self, v: bool) -> (r: CmdStatus)
        ensures
            r.bits() == or_field(self.bits(), 2, if v { 1u64 } else { 0u64 }),
    {
        proof {
            lemma_masks();
        }
        CmdStatus(set_field_bits_u32(self.0, 2, 1, if v { 1u64 } else { 0u64 }))
    }

    /// Whether the command list override bit is set.
    pub fn is_clo(&self) -> (r: bool)
        ensures
            r == (field_of(self.bits(), 3, 1) == 1),
    {
        read_field(self.0 as u64, 3, 1) == 1
    }

    /// Writes the command list override field, keeping every other bit.
    pub fn set_clo(&mut self, v: bool)
        ensures
            final(self).bits() == with_field(old(self).bits(), 3, 1, if v { 1u64 } else { 0u64 }),
    {
        proof {
            lemma_masks();
        }
        self.0 = write_field_u32(self.0, 3, 1, if v { 1u64 } else { 0u64 });
    }

    /// This register with the bits of `v` set in the command list override field.
    pub fn clo(self, v: bool) -> (r: CmdStatus)
        ensures
            r.bits() == or_field(self.bits(), 3, if v { 1u64 } else { 0u64 }),
    {
        proof {
            lemma_masks();
        }
        CmdStatus(set_field_bits_u32(self.0, 3, 1, if v { 1u64 } else { 0u64 }))
    }

    /// Whether the FIS Receive Enable bit is set.
    pub fn is_fre(&self) -> (r: bool)
        ensures
            r == (field_of(self.bits(), 4, 1) == 1),
    {
        read_field(self.0 as u64, 4, 1) == 1
    }

    /// Writes the FIS Receive Enable field, keeping every other bit.
    pub fn set_fre(&mut self, v: bool)
        ensures
            final(self).bits() == with_field(old(self).bits(), 4, 1, if v { 1u64 } else { 0u64 }),
    {
        proof {
            lemma_masks();
        }
        self.0 = write_field_u32(self.0, 4, 1, if v { 1u64 } else { 0u64 });
    }

    /// This register with the bits of `v` set in the FIS Receive Enable field.
    pub fn fre(self, v: bool) -> (r: CmdStatus)
        ensures
            r.bits() == or_field(self.bits(), 4, if v { 1u64 } else { 0u64 }),
    {
        proof {
            lemma_masks();
        }
        CmdStatus(set_field_bits_u32(self.0, 4, 1, if v { 1u64 } else { 0u64 }))
    }

    /// The reserved0 field.
    pub fn get_reserved0(&self) -> (r: u8)
        ensures
            r as u64 == field_of(self.bits(), 5, 3),
    {
        let field = read_field(self.0 as u64, 5, 3);
        proof {
            lemma_masks();
        }
        field as u8
    }

    /// Clears the reserved0 field.
    pub fn clear_reserved0(&mut self)
        ensures
            final(self).bits() == with_field(old(self).bits(), 5, 3, 0),
    {
        proof {
            assert((0u8 as u64) <= low_mask(3));
        }
        self.0 = write_field_u32(self.0, 5, 3, 0);
    }

    /// The current command slot being issued field.
    pub fn get_current_cmd(&self) -> (r: u8)
        ensures
            r as u64 == field_of(self.bits(), 8, 5),
    {
        let field = read_field(self.0 as u64, 8, 5);
        proof {
            lemma_masks();
        }
        field as u8
    }

    /// Whether the mechanical presence switch state bit is set.
    pub fn is_mpss(&self) -> (r: bool)
        ensures
            r == (field_of(self.bits(), 13, 1) == 1),
    {
        read_field(self.0 as u64, 13, 1) == 1
    }

    /// Whether the FIS Receive Running bit is set.
    pub fn is_fr(&self) -> (r: bool)
        ensures
            r == (field_of(self.bits(), 14, 1) == 1),
    {
        read_field(self.0 as u64, 14, 1) == 1
    }

    /// Whether the command list running bit is set.
    pub fn is_cr(&self) -> (r: bool)
        ensures
            r == (field_of(self.bits(), 15, 1) == 1),
    {
        read_field(self.0 as u64, 15, 1) == 1
    }

    /// Whether the cold presence state bit is set.
    pub fn is_cps(&self) -> (r: bool)
        ensures
            r == (field_of(self.bits(), 16, 1) == 1),
    {
        read_field(self.0 as u64, 16, 1) == 1
    }

    /// Whether the port multiplier attached bit is set.
    pub fn is_pma(&self) -> (r: bool)
        ensures
            r == (field_of(self.bits(), 17, 1) == 1),
    {
        read_field(self.0 as u64, 17, 1) == 1
    }

    /// Writes the port multiplier attached field, keeping every other bit.
    pub fn set_pma(&mut self, v: bool)
        ensures
            final(self).bits() == with_field(old(self).bits(), 17, 1, if v { 1u64 } else { 0u64 }),
    {
        proof {
            lemma_masks();
        }
        self.0 = write_field_u32(self.0, 17, 1, if v { 1u64 } else { 0u64 });
    }

    /// This register with the bits of `v` set in the port multiplier attached field.
    pub fn pma(self, v: bool) -> (r: CmdStatus)
        ensures
            r.bits() == or_field(self.bits(), 17, if v { 1u64 } else { 0u64 }),
    {
        proof {
            lemma_masks();
        }
        CmdStatus(set_field_bits_u32(self.0, 17, 1, if v { 1u64 } else { 0u64 }))
    }

    /// Whether the hot plug capable port bit is set.
    pub fn is_hpcp(&self) -> (r: bool)
        ensures
            r == (field_of(self.bits(), 18, 1) == 1),
    {
        read_field(self.0 as u64, 18, 1) == 1
    }

    /// Whether the mechanical presence switch attached to port bit is set.
    pub fn is_mpsp(&self) -> (r: bool)
        ensures
            r == (field_of(self.bits(), 19, 1) == 1),
    {
        read_field(self.0 as u64, 19, 1) == 1
    }

    /// Whether the cold presence detection bit is set.
    pub fn is_cpd(&self) -> (r: bool)
        ensures
            r == (field_of(self.bits(), 20, 1) == 1),
    {
        read_field(self.0 as u64, 20, 1) == 1
    }

    /// Whether the external sata port bit is set.
    pub fn is_esp(&self) -> (r: bool)
        ensures
            r == (field_of(self.bits(), 21, 1) == 1),
    {
        read_field(self.0 as u64, 21, 1) == 1
    }

    /// Whether the FIS-based Switching Capable Port bit is set.
    pub fn is_fbscp(&self) -> (r: bool)
        ensures
            r == (field_of(self.bits(), 22, 1) == 1),
    {
        read_field(self.0 as u64, 22, 1) == 1
    }

    /// Whether the automatic partial to slumber transitions enabled bit is set.
    pub fn is_apste(&self) -> (r: bool)
        ensures
            r == (field_of(self.bits(), 23, 1) == 1),
    {
        read_field(self.0 as u64, 23, 1) == 1
    }

    /// Writes the automatic partial to slumber transitions enabled field, keeping every other bit.
    pub fn set_apste(&mut self, v: bool)
        ensures
            final(self).bits() == with_field(old(self).bits(), 23, 1, if v { 1u64 } else { 0u64 }),
    {
        proof {
            lemma_masks();
        }
        self.0 = write_field_u32(self.0, 23, 1, if v { 1u64 } else { 0u64 });
    }

    /// This register with the bits of `v` set in the automatic partial to slumber transitions enabled field.
    pub fn apste(self, v: bool) -> (r: CmdStatus)
        ensures
            r.bits() == or_field(self.bits(), 23, if v { 1u64 } else { 0u64 }),
    {
        proof {
            lemma_masks();
        }
        CmdStatus(set_field_bits_u32(self.0, 23, 1, if v { 1u64 } else { 0u64 }))
    }

    /// Whether the device is atapi bit is set.
    pub fn is_atapi(&self) -> (r: bool)
        ensures
            r == (field_of(self.bits(), 24, 1) == 1),
    {
        read_field(self.0 as u64, 24, 1) == 1
    }

    /// Writes the device is atapi field, keeping every other bit.
    pub fn set_atapi(&mut self, v: bool)
        ensures
            final(self).bits() == with_field(old(self).bits(), 24, 1, if v { 1u64 } else { 0u64 }),
    {
        proof {
            lemma_masks();
        }
        self.0 = write_field_u32(self.0, 24, 1, if v { 1u64 } else { 0u64 });
    }

    /// This register with the bits of `v` set in the device is atapi field.
    pub fn atapi(self, v: bool) -> (r: CmdStatus)
        ensures
            r.bits() == or_field(self.bits(), 24, if v { 1u64 } else { 0u64 }),
    {
        proof {
            lemma_masks();
        }
        CmdStatus(set_field_bits_u32(self.0, 24, 1, if v { 1u64 } else { 0u64 }))
    }

    /// Whether the drive led on atapi enable bit is set.
    pub fn is_dlae(&self) -> (r: bool)
        ensures
            r == (field_of(self.bits(), 25, 1) == 1),
    {
        read_field(self.0 as u64, 25, 1) == 1
    }

    /// Writes the drive led on atapi enable field, keeping every other bit.
    pub fn set_dlae(&mut self, v: bool)
        ensures
            final(self).bits() == with_field(old(self).bits(), 25, 1, if v { 1u64 } else { 0u64 }),
    {
        proof {
            lemma_masks();
        }
        self.0 = write_field_u32(self.0, 25, 1, if v { 1u64 } else { 0u64 });
    }

    /// This register with the bits of `v` set in the drive led on atapi enable field.
    pub fn dlae(self, v: bool) -> (r: CmdStatus)
        ensures
            r.bits() == or_field(self.bits(), 25, if v { 1u64 } else { 0u64 }),
    {
        proof {
            lemma_masks();
        }
        CmdStatus(set_field_bits_u32(self.0, 25, 1, if v { 1u64 } else { 0u64 }))
    }

    /// Whether the aggressive link power management enable bit is set.
    pub fn is_alpe(&self) -> (r: bool)
        ensures
            r == (field_of(self.bits(), 26, 1) == 1),
    {
        read_field(self.0 as u64, 26, 1) == 1
    }

    /// Writes the aggressive link power management enable field, keeping every other bit.
    pub fn set_alpe(&mut self, v: bool)
        ensures
            final(self).bits() == with_field(old(self).bits(), 26, 1, if v { 1u64 } else { 0u64 }),
    {
        proof {
            lemma_masks();
        }
        self.0 = write_field_u32(self.0, 26, 1, if v { 1u64 } else { 0u64 });
    }

    /// This register with the bits of `v` set in the aggressive link power management enable field.
    pub fn alpe(self, v: bool) -> (r: CmdStatus)
        ensures
            r.bits() == or_field(self.bits(), 26, if v { 1u64 } else { 0u64 }),
    {
        proof {
            lemma_masks();
        }
        CmdStatus(set_field_bits_u32(self.0, 26, 1, if v { 1u64 } else { 0u64 }))
    }

    /// Whether the aggressive slumber / partial bit is set.
    pub fn is_asp(&self) -> (r: bool)
        ensures
            r == (field_of(self.bits(), 27, 1) == 1),
    {
        read_field(self.0 as u64, 27, 1) == 1
    }

    /// Writes the aggressive slumber / partial field, keeping every other bit.
    pub fn set_asp(&mut self, v: bool)
        ensures
            final(self).bits() == with_field(old(self).bits(), 27, 1, if v { 1u64 } else { 0u64 }),
    {
        proof {
            lemma_masks();
        }
        self.0 = write_field_u32(self.0, 27, 1, if v { 1u64 } else { 0u64 });
    }

    /// This register with the bits of `v` set in the aggressive slumber / partial field.
    pub fn asp(self, v: bool) -> (r: CmdStatus)
        ensures
            r.bits() == or_field(self.bits(), 27, if v { 1u64 } else { 0u64 }),
    {
        proof {
            lemma_masks();
        }
        CmdStatus(set_field_bits_u32(self.0, 27, 1, if v { 1u64 } else { 0u64 }))
    }

    /// The interface communication control field.
    pub fn get_icc(&self) -> (r: u8)
        ensures
            r as u64 == field_of(self.bits(), 28, 4),
    {
        let field = read_field(self.0 as u64, 28, 4);
        proof {
            lemma_masks();
        }
        field as u8
    }

    /// Writes the interface communication control field, keeping every other bit.
    pub fn set_icc(&mut self, v: u8)
        requires
            (v as u64) <= low_mask(4),
        ensures
            final(self).bits() == with_field(old(self).bits(), 28, 4, v as u64),
    {
        proof {
            assert((v as u64) <= low_mask(4));
        }
        self.0 = write_field_u32(self.0, 28, 4, v as u64);
    }

    /// This register with the bits of `v` set in the interface communication control field.
    pub fn icc(self, v: u8) -> (r: CmdStatus)
        requires
            (v as u64) <= low_mask(4),
        ensures
            r.bits() == or_field(self.bits(), 28, v as u64),
    {
        proof {
            assert((v as u64) <= low_mask(4));
        }
        CmdStatus(set_field_bits_u32(self.0, 28, 4, v as u64))
    }


}

/// Port x Task File Data
#[derive(Clone, Copy, Debug, PartialEq, Eq, Structural)]
pub struct TaskFileData(u32);

impl TaskFileData {
    /// The raw bits of the register.
    pub closed spec fn bits(&self) -> u64 {
        self.0 as u64
    }

    /// A register with every bit cleared.
    pub fn new() -> (r: TaskFileData)
        ensures
            r.bits() == 0,
    {
        TaskFileData(0)
    }

    /// The register that holds `bits`.
    pub fn from_bits(bits: u32) -> (r: TaskFileData)
        ensures
            r.bits() == bits as u64,
    {
        TaskFileData(bits)
    }

    /// The raw bits of the register.
    pub fn as_u32(&self) -> (r: u32)
        ensures
            r as u64 == self.bits(),
    {
        self.0
    }

    /// Whether the indicates error during transfer bit is set.
    pub fn is_err(&self) -> (r: bool)
        ensures
            r == (field_of(self.bits(), 0, 1) == 1),
    {
        read_field(self.0 as u64, 0, 1) == 1
    }

    /// The reserved0 field.
    pub fn get_reserved0(&self) -> (r: u8)
        ensures
            r as u64 == field_of(self.bits(), 1, 2),
    {
        let field = read_field(self.0 as u64, 1, 2);
        proof {
            lemma_masks();
        }
        field as u8
    }

    /// Clears the reserved0 field.
    pub fn clear_reserved0(&mut self)
        ensures
            final(self).bits() == with_field(old(self).bits(), 1, 2, 0),
    {
        proof {
            assert((0u8 as u64) <= low_mask(2));
        }
        self.0 = write_field_u32(self.0, 1, 2, 0);
    }

    /// Whether the indicates a data transfer request bit is set.
    pub fn is_drq(&self) -> (r: bool)
        ensures
            r == (field_of(self.bits(), 3, 1) == 1),
    {
        read_field(self.0 as u64, 3, 1) == 1
    }

    /// The reserved1 field.
    pub fn get_reserved1(&self) -> (r: u8)
        ensures
            r as u64 == field_of(self.bits(), 4, 3),
    {
        let field = read_field(self.0 as u64, 4, 3);
        proof {
            lemma_masks();
        }
        field as u8
    }

    /// Clears the reserved1 field.
    pub fn clear_reserved1(&mut self)
        ensures
            final(self).bits() == with_field(old(self).bits(), 4, 3, 0),
    {
        proof {
            assert((0u8 as u64) <= low_mask(3));
        }
        self.0 = write_field_u32(self.0, 4, 3, 0);
    }

    /// Whether the indicates that the interface is busy bit is set.
    pub fn is_bsy(&self) -> (r: bool)
        ensures
            r == (field_of(self.bits(), 7, 1) == 1),
    {
        read_field(self.0 as u64, 7, 1) == 1
    }

    /// The error byte field.
    pub fn get_error_byte(&self) -> (r: u8)
        ensures
            r as u64 == field_of(self.bits(), 8, 8),
    {
        let field = read_field(self.0 as u64, 8, 8);
        proof {
            lemma_masks();
        }
        field as u8
    }

    /// Writes the error byte field, keeping every other bit.
    pub fn set_error_byte(&mut self, v: u8)
        requires
            (v as u64) <= low_mask(8),
        ensures
            final(self).bits() == with_field(old(self).bits(), 8, 8, v as u64),
    {
        proof {
            assert((v as u64) <= low_mask(8));
        }
        self.0 = write_field_u32(self.0, 8, 8, v as u64);
    }

    /// This register with the bits of `v` set in the error byte field.
    pub fn error_byte(self, v: u8) -> (r: TaskFileData)
        requires
            (v as u64) <= low_mask(8),
        ensures
            r.bits() == or_field(self.bits(), 8, v as u64),
    {
        proof {
            assert((v as u64) <= low_mask(8));
        }
        TaskFileData(set_field_bits_u32(self.0, 8, 8, v as u64))
    }

    /// The reserved2 field.
    pub fn get_reserved2(&self) -> (r: u16)
        ensures
            r as u64 == field_of(self.bits(), 16, 16),
    {
        let field = read_field(self.0 as u64, 16, 16);
        proof {
            lemma_masks();
        }
        field as u16
    }

    /// Clears the reserved2 field.
    pub fn clear_reserved2(&mut self)
        ensures
            final(self).bits() == with_field(old(self).bits(), 16, 16, 0),
    {
        proof {
            assert((0u8 as u64) <= low_mask(16));
        }
        self.0 = write_field_u32(self.0, 16, 16, 0);
    }


}

/// Port X SATA Status
#[derive(Clone, Copy, Debug, PartialEq, Eq, Structural)]
pub struct SataStatus(u32);

impl SataStatus {
    /// The raw bits of the register.
    pub closed spec fn bits(&self) -> u64 {
        self.0 as u64
    }

    /// A register with every bit cleared.
    pub fn new() -> (r: SataStatus)
        ensures
            r.bits() == 0,
    {
        SataStatus(0)
    }

    /// The register that holds `bits`.
    pub fn from_bits(bits: u32) -> (r: SataStatus)
        ensures
            r.bits() == bits as u64,
    {
        SataStatus(bits)
    }

    /// The raw bits of the register.
    pub fn as_u32(&self) -> (r: u32)
        ensures
            r as u64 == self.bits(),
    {
        self.0
    }

    /// The device detection field.
    pub fn get_device_detection(&self) -> (r: u8)
        ensures
            r as u64 == field_of(self.bits(), 0, 4),
    {
        let field = read_field(self.0 as u64, 0, 4);
        proof {
            lemma_masks();
        }
        field as u8
    }

    /// Writes the device detection field, keeping every other bit.
    pub fn set_device_detection(&mut self, v: u8)
        requires
            (v as u64) <= low_mask(4),
        ensures
            final(self).bits() == with_field(old(self).bits(), 0, 4, v as u64),
    {
        proof {
            assert((v as u64) <= low_mask(4));
        }
        self.0 = write_field_u32(self.0, 0, 4, v as u64);
    }

    /// This register with the bits of `v` set in the device detection field.
    pub fn device_detection(self, v: u8) -> (r: SataStatus)
        requires
            (v as u64) <= low_mask(4),
        ensures
            r.bits() == or_field(self.bits(), 0, v as u64),
    {
        proof {
            assert((v as u64) <= low_mask(4));
        }
        SataStatus(set_field_bits_u32(self.0, 0, 4, v as u64))
    }

    /// The interface speed field.
    pub fn get_interface_speed(&self) -> (r: u8)
        ensures
            r as u64 == field_of(self.bits(), 4, 4),
    {
        let field = read_field(self.0 as u64, 4, 4);
        proof {
            lemma_masks();
        }
        field as u8
    }

    /// Writes the interface speed field, keeping every other bit.
    pub fn set_interface_speed(&mut self, v: u8)
        requires
            (v as u64) <= low_mask(4),
        ensures
            final(self).bits() == with_field(old(self).bits(), 4, 4, v as u64),
    {
        proof {
            assert((v as u64) <= low_mask(4));
        }
        self.0 = write_field_u32(self.0, 4, 4, v as u64);
    }

    /// This register with the bits of `v` set in the interface speed field.
    pub fn interface_speed(self, v: u8) -> (r: SataStatus)
        requires
            (v as u64) <= low_mask(4),
        ensures
            r.bits() == or_field(self.bits(), 4, v as u64),
    {
        proof {
            assert((v as u64) <= low_mask(4));
        }
        SataStatus(set_field_bits_u32(self.0, 4, 4, v as u64))
    }

    /// The interface power management field.
    pub fn get_power_management(&self) -> (r: u8)
        ensures
            r as u64 == field_of(self.bits(), 8, 4),
    {
        let field = read_field(self.0 as u64, 8, 4);
        proof {
            lemma_masks();
        }
        field as u8
    }

    /// Writes the interface power management field, keeping every other bit.
    pub fn set_power_management(&mut self, v: u8)
        requires
            (v as u64) <= low_mask(4),
        ensures
            final(self).bits() == with_field(old(self).bits(), 8, 4, v as u64),
    {
        proof {
            assert((v as u64) <= low_mask(4));
        }
        self.0 = write_field_u32(self.0, 8, 4, v as u64);
    }

    /// This register with the bits of `v` set in the interface power management field.
    pub fn power_management(self, v: u8) -> (r: SataStatus)
        requires
            (v as u64) <= low_mask(4),
        ensures
            r.bits() == or_field(self.bits(), 8, v as u64),
    {
        proof {
            assert((v as u64) <= low_mask(4));
        }
        SataStatus(set_field_bits_u32(self.0, 8, 4, v as u64))
    }

    /// The reserved field.
    pub fn get_reserved(&self) -> (r: u32)
        ensures
            r as u64 == field_of(self.bits(), 12, 20),
    {
        let field = read_field(self.0 as u64, 12, 20);
        proof {
            lemma_masks();
        }
        field as u32
    }

    /// Clears the reserved field.
    pub fn clear_reserved(&mut self)
        ensures
            final(self).bits() == with_field(old(self).bits(), 12, 20, 0),
    {
        proof {
            assert((0u8 as u64) <= low_mask(20));
        }
        self.0 = write_field_u32(self.0, 12, 20, 0);
    }


}

/// Port X SATA control
#[derive(Clone, Copy, Debug, PartialEq, Eq, Structural)]
pub struct SataControl(u32);

impl SataControl {
    /// The raw bits of the register.
    pub closed spec fn bits(&self) -> u64 {
        self.0 as u64
    }

    /// A register with every bit cleared.
    pub fn new() -> (r: SataControl)
        ensures
            r.bits() == 0,
    {
        SataControl(0)
    }

    /// The register that holds `bits`.
    pub fn from_bits(bits: u32) -> (r: SataControl)
        ensures
            r.bits() == bits as u64,
    {
        SataControl(bits)
    }

    /// The raw bits of the register.
    pub fn as_u32(&self) -> (r: u32)
        ensures
            r as u64 == self.bits(),
    {
        self.0
    }

    /// The device initialization field.
    pub fn get_device_init(&self) -> (r: u8)
        ensures
            r as u64 == field_of(self.bits(), 0, 4),
    {
        let field = read_field(self.0 as u64, 0, 4);
        proof {
            lemma_masks();
        }
        field as u8
    }

    /// Writes the device initialization field, keeping every other bit.
    pub fn set_device_init(&mut self, v: u8)
        requires
            (v as u64) <= low_mask(4),
        ensures
            final(self).bits() == with_field(old(self).bits(), 0, 4, v as u64),
    {
        proof {
            assert((v as u64) <= low_mask(4));
        }
        self.0 = write_field_u32(self.0, 0, 4, v as u64);
    }

    /// This register with the bits of `v` set in the device initialization field.
    pub fn device_init(self, v: u8) -> (r: SataControl)
        requires
            (v as u64) <= low_mask(4),
        ensures
            r.bits() == or_field(self.bits(), 0, v as u64),
    {
        proof {
            assert((v as u64) <= low_mask(4));
        }
        SataControl(set_field_bits_u32(self.0, 0, 4, v as u64))
    }

    /// The max interface speed restriction field.
    pub fn get_max_speed(&self) -> (r: u8)
        ensures
            r as u64 == field_of(self.bits(), 4, 4),
    {
        let field = read_field(self.0 as u64, 4, 4);
        proof {
            lemma_masks();
        }
        field as u8
    }

    /// Writes the max interface speed restriction field, keeping every other bit.
    pub fn set_max_speed(&mut self, v: u8)
        requires
            (v as u64) <= low_mask(4),
        ensures
            final(self).bits() == with_field(old(self).bits(), 4, 4, v as u64),
    {
        proof {
            assert((v as u64) <= low_mask(4));
        }
        self.0 = write_field_u32(self.0, 4, 4, v as u64);
    }

    /// This register with the bits of `v` set in the max interface speed restriction field.
    pub fn max_speed(self, v: u8) -> (r: SataControl)
        requires
            (v as u64) <= low_mask(4),
        ensures
            r.bits() == or_field(self.bits(), 4, v as u64),
    {
        proof {
            assert((v as u64) <= low_mask(4));
        }
        SataControl(set_field_bits_u32(self.0, 4, 4, v as u64))
    }

    /// Whether the partial power management disabled bit is set.
    pub fn is_partial_disabled(&self) -> (r: bool)
        ensures
            r == (field_of(self.bits(), 8, 1) == 1),
    {
        read_field(self.0 as u64, 8, 1) == 1
    }

    /// Writes the partial power management disabled field, keeping every other bit.
    pub fn set_partial_disabled(&mut self, v: bool)
        ensures
            final(self).bits() == with_field(old(self).bits(), 8, 1, if v { 1u64 } else { 0u64 }),
    {
        proof {
            lemma_masks();
        }
        self.0 = write_field_u32(self.0, 8, 1, if v { 1u64 } else { 0u64 });
    }

    /// This register with the bits of `v` set in the partial power management disabled field.
    pub fn partial_disabled(self, v: bool) -> (r: SataControl)
        ensures
            r.bits() == or_field(self.bits(), 8, if v { 1u64 } else { 0u64 }),
    {
        proof {
            lemma_masks();
        }
        SataControl(set_field_bits_u32(self.0, 8, 1, if v { 1u64 } else { 0u64 }))
    }

    /// Whether the slumber power management disabled bit is set.
    pub fn is_slumber_disabled(&self) -> (r: bool)
        ensures
            r == (field_of(self.bits(), 9, 1) == 1),
    {
        read_field(self.0 as u64, 9, 1) == 1
    }

    /// Writes the slumber power management disabled field, keeping every other bit.
    pub fn set_slumber_disabled(&mut self, v: bool)
        ensures
            final(self).bits() == with_field(old(self).bits(), 9, 1, if v { 1u64 } else { 0u64 }),
    {
        proof {
            lemma_masks();
        }
        self.0 = write_field_u32(self.0, 9, 1, if v { 1u64 } else { 0u64 });
    }

    /// This register with the bits of `v` set in the slumber power management disabled field.
    pub fn slumber_disabled(self, v: bool) -> (r: SataControl)
        ensures
            r.bits() == or_field(self.bits(), 9, if v { 1u64 } else { 0u64 }),
    {
        proof {
            lemma_masks();
        }
        SataControl(set_field_bits_u32(self.0, 9, 1, if v { 1u64 } else { 0u64 }))
    }

    /// Whether the device sleep power management disabled bit is set.
    pub fn is_devslp_disabled(&self) -> (r: bool)
        ensures
            r == (field_of(self.bits(), 10, 1) == 1),
    {
        read_field(self.0 as u64, 10, 1) == 1
    }

    /// Writes the device sleep power management disabled field, keeping every other bit.
    pub fn set_devslp_disabled(&mut self, v: bool)
        ensures
            final(self).bits() == with_field(old(self).bits(), 10, 1, if v { 1u64 } else { 0u64 }),
    {
        proof {
            lemma_masks();
        }
        self.0 = write_field_u32(self.0, 10, 1, if v { 1u64 } else { 0u64 });
    }

    /// This register with the bits of `v` set in the device sleep power management disabled field.
    pub fn devslp_disabled(self, v: bool) -> (r: SataControl)
        ensures
            r.bits() == or_field(self.bits(), 10, if v { 1u64 } else { 0u64 }),
    {
        proof {
            lemma_masks();
        }
        SataControl(set_field_bits_u32(self.0, 10, 1, if v { 1u64 } else { 0u64 }))
    }

    /// Whether the reserved0 bit is set.
    pub fn is_reserved0(&self) -> (r: bool)
        ensures
            r == (field_of(self.bits(), 11, 1) == 1),
    {
        read_field(self.0 as u64, 11, 1) == 1
    }

    /// Clears the reserved0 field.
    pub fn clear_reserved0(&mut self)
        ensures
            final(self).bits() == with_field(old(self).bits(), 11, 1, 0),
    {
        proof {
            assert((0u8 as u64) <= low_mask(1));
        }
        self.0 = write_field_u32(self.0, 11, 1, 0);
    }

    /// The select power management transitions field.
    pub fn get_select_power_management(&self) -> (r: u8)
        ensures
            r as u64 == field_of(self.bits(), 12, 4),
    {
        let field = read_field(self.0 as u64, 12, 4);
        proof {
            lemma_masks();
        }
        field as u8
    }

    /// Writes the select power management transitions field, keeping every other bit.
    pub fn set_select_power_management(&mut self, v: u8)
        requires
            (v as u64) <= low_mask(4),
        ensures
            final(self).bits() == with_field(old(self).bits(), 12, 4, v as u64),
    {
        proof {
            assert((v as u64) <= low_mask(4));
        }
        self.0 = write_field_u32(self.0, 12, 4, v as u64);
    }

    /// This register with the bits of `v` set in the select power management transitions field.
    pub fn select_power_management(self, v: u8) -> (r: SataControl)
        requires
            (v as u64) <= low_mask(4),
        ensures
            r.bits() == or_field(self.bits(), 12, v as u64),
    {
        proof {
            assert((v as u64) <= low_mask(4));
        }
        SataControl(set_field_bits_u32(self.0, 12, 4, v as u64))
    }

    /// The port multiplier port field.
    pub fn get_port_multiplier(&self) -> (r: u8)
        ensures
            r as u64 == field_of(self.bits(), 16, 4),
    {
        let field = read_field(self.0 as u64, 16, 4);
        proof {
            lemma_masks();
        }
        field as u8
    }

    /// Writes the port multiplier port field, keeping every other bit.
    pub fn set_port_multiplier(&mut self, v: u8)
        requires
            (v as u64) <= low_mask(4),
        ensures
            final(self).bits() == with_field(old(self).bits(), 16, 4, v as u64),
    {
        proof {
            assert((v as u64) <= low_mask(4));
        }
        self.0 = write_field_u32(self.0, 16, 4, v as u64);
    }

    /// This register with the bits of `v` set in the port multiplier port field.
    pub fn port_multiplier(self, v: u8) -> (r: SataControl)
        requires
            (v as u64) <= low_mask(4),
        ensures
            r.bits() == or_field(self.bits(), 16, v as u64),
    {
        proof {
            assert((v as u64) <= low_mask(4));
        }
        SataControl(set_field_bits_u32(self.0, 16, 4, v as u64))
    }

    /// The reserved1 field.
    pub fn get_reserved1(&self) -> (r: u16)
        ensures
            r as u64 == field_of(self.bits(), 20, 12),
    {
        let field = read_field(self.0 as u64, 20, 12);
        proof {
            lemma_masks();
        }
        field as u16
    }

    /// Clears the reserved1 field.
    pub fn clear_reserved1(&mut self)
        ensures
            final(self).bits() == with_field(old(self).bits(), 20, 12, 0),
    {
        proof {
            assert((0u8 as u64) <= low_mask(12));
        }
        self.0 = write_field_u32(self.0, 20, 12, 0);
    }


}

/// The diagnostic error register.
#[derive(Clone, Copy, Debug, PartialEq, Eq, Structural)]
pub struct DiagnosticError(u16);

impl DiagnosticError {
    /// The raw bits of the register.
    pub closed spec fn bits(&self) -> u64 {
        self.0 as u64
    }

    /// A register with every bit cleared.
    pub fn new() -> (r: DiagnosticError)
        ensures
            r.bits() == 0,
    {
        DiagnosticError(0)
    }

    /// The register that holds `bits`.
    pub fn from_bits(bits: u16) -> (r: DiagnosticError)
        ensures
            r.bits() == bits as u64,
    {
        DiagnosticError(bits)
    }

    /// The raw bits of the register.
    pub fn as_u16(&self) -> (r: u16)
        ensures
            r as u64 == self.bits(),
    {
        self.0
    }

    /// Whether the phyrdy change bit is set.
    pub fn is_phyrdy_change(&self) -> (r: bool)
        ensures
            r == (field_of(self.bits(), 0, 1) == 1),
    {
        read_field(self.0 as u64, 0, 1) == 1
    }

    /// Writes the phyrdy change field, keeping every other bit.
    pub fn set_phyrdy_change(&mut self, v: bool)
        ensures
            final(self).bits() == with_field(old(self).bits(), 0, 1, if v { 1u64 } else { 0u64 }),
    {
        proof {
            lemma_masks();
        }
        self.0 = write_field_u16(self.0, 0, 1, if v { 1u64 } else { 0u64 });
    }

    /// This register with the bits of `v` set in the phyrdy change field.
    pub fn phyrdy_change(self, v: bool) -> (r: DiagnosticError)
        ensures
            r.bits() == or_field(self.bits(), 0, if v { 1u64 } else { 0u64 }),
    {
        proof {
            lemma_masks();
        }
        DiagnosticError(set_field_bits_u16(self.0, 0, 1, if v { 1u64 } else { 0u64 }))
    }

    /// Whether the phy internal bit is set.
    pub fn is_phy_internal(&self) -> (r: bool)
        ensures
            r == (field_of(self.bits(), 1, 1) == 1),
    {
        read_field(self.0 as u64, 1, 1) == 1
    }

    /// Writes the phy internal field, keeping every other bit.
    pub fn set_phy_internal(&mut self, v: bool)
        ensures
            final(self).bits() == with_field(old(self).bits(), 1, 1, if v { 1u64 } else { 0u64 }),
    {
        proof {
            lemma_masks();
        }
        self.0 = write_field_u16(self.0, 1, 1, if v { 1u64 } else { 0u64 });
    }

    /// This register with the bits of `v` set in the phy internal field.
    pub fn phy_internal(self, v: bool) -> (r: DiagnosticError)
        ensures
            r.bits() == or_field(self.bits(), 1, if v { 1u64 } else { 0u64 }),
    {
        proof {
            lemma_masks();
        }
        DiagnosticError(set_field_bits_u16(self.0, 1, 1, if v { 1u64 } else { 0u64 }))
    }

    /// Whether the comm wake bit is set.
    pub fn is_comm_wake(&self) -> (r: bool)
        ensures
            r == (field_of(self.bits(), 2, 1) == 1),
    {
        read_field(self.0 as u64, 2, 1) == 1
    }

    /// Writes the comm wake field, keeping every other bit.
    pub fn set_comm_wake(&mut self, v: bool)
        ensures
            final(self).bits() == with_field(old(self).bits(), 2, 1, if v { 1u64 } else { 0u64 }),
    {
        proof {
            lemma_masks();
        }
        self.0 = write_field_u16(self.0, 2, 1, if v { 1u64 } else { 0u64 });
    }

    /// This register with the bits of `v` set in the comm wake field.
    pub fn comm_wake(self, v: bool) -> (r: DiagnosticError)
        ensures
            r.bits() == or_field(self.bits(), 2, if v { 1u64 } else { 0u64 }),
    {
        proof {
            lemma_masks();
        }
        DiagnosticError(set_field_bits_u16(self.0, 2, 1, if v { 1u64 } else { 0u64 }))
    }

    /// Whether the decoding error bit is set.
    pub fn is_decoding_error(&self) -> (r: bool)
        ensures
            r == (field_of(self.bits(), 3, 1) == 1),
    {
        read_field(self.0 as u64, 3, 1) == 1
    }

    /// Writes the decoding error field, keeping every other bit.
    pub fn set_decoding_error(&mut self, v: bool)
        ensures
            final(self).bits() == with_field(old(self).bits(), 3, 1, if v { 1u64 } else { 0u64 }),
    {
        proof {
            lemma_masks();
        }
        self.0 = write_field_u16(self.0, 3, 1, if v { 1u64 } else { 0u64 });
    }

    /// This register with the bits of `v` set in the decoding error field.
    pub fn decoding_error(self, v: bool) -> (r: DiagnosticError)
        ensures
            r.bits() == or_field(self.bits(), 3, if v { 1u64 } else { 0u64 }),
    {
        proof {
            lemma_masks();
        }
        DiagnosticError(set_field_bits_u16(self.0, 3, 1, if v { 1u64 } else { 0u64 }))
    }

    /// Whether the disparity error bit is set.
    pub fn is_disparity_error(&self) -> (r: bool)
        ensures
            r == (field_of(self.bits(), 4, 1) == 1),
    {
        read_field(self.0 as u64, 4, 1) == 1
    }

    /// Writes the disparity error field, keeping every other bit.
    pub fn set_disparity_error(&mut self, v: bool)
        ensures
            final(self).bits() == with_field(old(self).bits(), 4, 1, if v { 1u64 } else { 0u64 }),
    {
        proof {
            lemma_masks();
        }
        self.0 = write_field_u16(self.0, 4, 1, if v { 1u64 } else { 0u64 });
    }

    /// This register with the bits of `v` set in the disparity error field.
    pub fn disparity_error(self, v: bool) -> (r: DiagnosticError)
        ensures
            r.bits() == or_field(self.bits(), 4, if v { 1u64 } else { 0u64 }),
    {
        proof {
            lemma_masks();
        }
        DiagnosticError(set_field_bits_u16(self.0, 4, 1, if v { 1u64 } else { 0u64 }))
    }

    /// Whether the crc error bit is set.
    pub fn is_crc_error(&self) -> (r: bool)
        ensures
            r == (field_of(self.bits(), 5, 1) == 1),
    {
        read_field(self.0 as u64, 5, 1) == 1
    }

    /// Writes the crc error field, keeping every other bit.
    pub fn set_crc_error(&mut self, v: bool)
        ensures
            final(self).bits() == with_field(old(self).bits(), 5, 1, if v { 1u64 } else { 0u64 }),
    {
        proof {
            lemma_masks();
        }
        self.0 = write_field_u16(self.0, 5, 1, if v { 1u64 } else { 0u64 });
    }

    /// This register with the bits of `v` set in the crc error field.
    pub fn crc_error(self, v: bool) -> (r: DiagnosticError)
        ensures
            r.bits() == or_field(self.bits(), 5, if v { 1u64 } else { 0u64 }),
    {
        proof {
            lemma_masks();
        }
        DiagnosticError(set_field_bits_u16(self.0, 5, 1, if v { 1u64 } else { 0u64 }))
    }

    /// Whether the handshake error bit is set.
    pub fn is_handshake_error(&self) -> (r: bool)
        ensures
            r == (field_of(self.bits(), 6, 1) == 1),
    {
        read_field(self.0 as u64, 6, 1) == 1
    }

    /// Writes the handshake error field, keeping every other bit.
    pub fn set_handshake_error(&mut self, v: bool)
        ensures
            final(self).bits() == with_field(old(self).bits(), 6, 1, if v { 1u64 } else { 0u64 }),
    {
        proof {
            lemma_masks();
        }
        self.0 = write_field_u16(self.0, 6, 1, if v { 1u64 } else { 0u64 });
    }

    /// This register with the bits of `v` set in the handshake error field.
    pub fn handshake_error(self, v: bool) -> (r: DiagnosticError)
        ensures
            r.bits() == or_field(self.bits(), 6, if v { 1u64 } else { 0u64 }),
    {
        proof {
            lemma_masks();
        }
        DiagnosticError(set_field_bits_u16(self.0, 6, 1, if v { 1u64 } else { 0u64 }))
    }

    /// Whether the link sequence error bit is set.
    pub fn is_link_sequence_error(&self) -> (r: bool)
        ensures
            r == (field_of(self.bits(), 7, 1) == 1),
    {
        read_field(self.0 as u64, 7, 1) == 1
    }

    /// Writes the link sequence error field, keeping every other bit.
    pub fn set_link_sequence_error(&mut self, v: bool)
        ensures
            final(self).bits() == with_field(old(self).bits(), 7, 1, if v { 1u64 } else { 0u64 }),
    {
        proof {
            lemma_masks();
        }
        self.0 = write_field_u16(self.0, 7, 1, if v { 1u64 } else { 0u64 });
    }

    /// This register with the bits of `v` set in the link sequence error field.
    pub fn link_sequence_error(self, v: bool) -> (r: DiagnosticError)
        ensures
            r.bits() == or_field(self.bits(), 7, if v { 1u64 } else { 0u64 }),
    {
        proof {
            lemma_masks();
        }
        DiagnosticError(set_field_bits_u16(self.0, 7, 1, if v { 1u64 } else { 0u64 }))
    }

    /// Whether the transport state error bit is set.
    pub fn is_transport_state_error(&self) -> (r: bool)
        ensures
            r == (field_of(self.bits(), 8, 1) == 1),
    {
        read_field(self.0 as u64, 8, 1) == 1
    }

    /// Writes the transport state error field, keeping every other bit.
    pub fn set_transport_state_error(&mut self, v: bool)
        ensures
            final(self).bits() == with_field(old(self).bits(), 8, 1, if v { 1u64 } else { 0u64 }),
    {
        proof {
            lemma_masks();
        }
        self.0 = write_field_u16(self.0, 8, 1, if v { 1u64 } else { 0u64 });
    }

    /// This register with the bits of `v` set in the transport state error field.
    pub fn transport_state_error(self, v: bool) -> (r: DiagnosticError)
        ensures
            r.bits() == or_field(self.bits(), 8, if v { 1u64 } else { 0u64 }),
    {
        proof {
            lemma_masks();
        }
        DiagnosticError(set_field_bits_u16(self.0, 8, 1, if v { 1u64 } else { 0u64 }))
    }

    /// Whether the unknown fistype bit is set.
    pub fn is_unknown_fistype(&self) -> (r: bool)
        ensures
            r == (field_of(self.bits(), 9, 1) == 1),
    {
        read_field(self.0 as u64, 9, 1) == 1
    }

    /// Writes the unknown fistype field, keeping every other bit.
    pub fn set_unknown_fistype(&mut self, v: bool)
        ensures
            final(self).bits() == with_field(old(self).bits(), 9, 1, if v { 1u64 } else { 0u64 }),
    {
        proof {
            lemma_masks();
        }
        self.0 = write_field_u16(self.0, 9, 1, if v { 1u64 } else { 0u64 });
    }

    /// This register with the bits of `v` set in the unknown fistype field.
    pub fn unknown_fistype(self, v: bool) -> (r: DiagnosticError)
        ensures
            r.bits() == or_field(self.bits(), 9, if v { 1u64 } else { 0u64 }),
    {
        proof {
            lemma_masks();
        }
        DiagnosticError(set_field_bits_u16(self.0, 9, 1, if v { 1u64 } else { 0u64 }))
    }

    /// Whether the exchanged bit is set.
    pub fn is_exchanged(&self) -> (r: bool)
        ensures
            r == (field_of(self.bits(), 10, 1) == 1),
    {
        read_field(self.0 as u64, 10, 1) == 1
    }

    /// Writes the exchanged field, keeping every other bit.
    pub fn set_exchanged(&mut self, v: bool)
        ensures
            final(self).bits() == with_field(old(self).bits(), 10, 1, if v { 1u64 } else { 0u64 }),
    {
        proof {
            lemma_masks();
        }
        self.0 = write_field_u16(self.0, 10, 1, if v { 1u64 } else { 0u64 });
    }

    /// This register with the bits of `v` set in the exchanged field.
    pub fn exchanged(self, v: bool) -> (r: DiagnosticError)
        ensures
            r.bits() == or_field(self.bits(), 10, if v { 1u64 } else { 0u64 }),
    {
        proof {
            lemma_masks();
        }
        DiagnosticError(set_field_bits_u16(self.0, 10, 1, if v { 1u64 } else { 0u64 }))
    }


}

/// The ahci error register.
#[derive(Clone, Copy, Debug, PartialEq, Eq, Structural)]
pub struct AhciError(u16);

impl AhciError {
    /// The raw bits of the register.
    pub closed spec fn bits(&self) -> u64 {
        self.0 as u64
    }

    /// A register with every bit cleared.
    pub fn new() -> (r: AhciError)
        ensures
            r.bits() == 0,
    {
        AhciError(0)
    }

    /// The register that holds `bits`.
    pub fn from_bits(bits: u16) -> (r: AhciError)
        ensures
            r.bits() == bits as u64,
    {
        AhciError(bits)
    }

    /// The raw bits of the register.
    pub fn as_u16(&self) -> (r: u16)
        ensures
            r as u64 == self.bits(),
    {
        self.0
    }

    /// Whether the recovered data integrity err bit is set.
    pub fn is_recovered_data_integrity_err(&self) -> (r: bool)
        ensures
            r == (field_of(self.bits(), 0, 1) == 1),
    {
        read_field(self.0 as u64, 0, 1) == 1
    }

    /// Writes the recovered data integrity err field, keeping every other bit.
    pub fn set_recovered_data_integrity_err(&mut self, v: bool)
        ensures
            final(self).bits() == with_field(old(self).bits(), 0, 1, if v { 1u64 } else { 0u64 }),
    {
        proof {
            lemma_masks();
        }
        self.0 = write_field_u16(self.0, 0, 1, if v { 1u64 } else { 0u64 });
    }

    /// This register with the bits of `v` set in the recovered data integrity err field.
    pub fn recovered_data_integrity_err(self, v: bool) -> (r: AhciError)
        ensures
            r.bits() == or_field(self.bits(), 0, if v { 1u64 } else { 0u64 }),
    {
        proof {
            lemma_masks();
        }
        AhciError(set_field_bits_u16(self.0, 0, 1, if v { 1u64 } else { 0u64 }))
    }

    /// Whether the recovered communication err bit is set.
    pub fn is_recovered_communication_err(&self) -> (r: bool)
        ensures
            r == (field_of(self.bits(), 1, 1) == 1),
    {
        read_field(self.0 as u64, 1, 1) == 1
    }

    /// Writes the recovered communication err field, keeping every other bit.
    pub fn set_recovered_communication_err(&mut self, v: bool)
        ensures
            final(self).bits() == with_field(old(self).bits(), 1, 1, if v { 1u64 } else { 0u64 }),
    {
        proof {
            lemma_masks();
        }
        self.0 = write_field_u16(self.0, 1, 1, if v { 1u64 } else { 0u64 });
    }

    /// This register with the bits of `v` set in the recovered communication err field.
    pub fn recovered_communication_err(self, v: bool) -> (r: AhciError)
        ensures
            r.bits() == or_field(self.bits(), 1, if v { 1u64 } else { 0u64 }),
    {
        proof {
            lemma_masks();
        }
        AhciError(set_field_bits_u16(self.0, 1, 1, if v { 1u64 } else { 0u64 }))
    }

    /// The reserved field.
    pub fn get_reserved(&self) -> (r: u8)
        ensures
            r as u64 == field_of(self.bits(), 2, 6),
    {
        let field = read_field(self.0 as u64, 2, 6);
        proof {
            lemma_masks();
        }
        field as u8
    }

    /// Writes the reserved field, keeping every other bit.
    pub fn set_reserved(&mut self, v: u8)
        requires
            (v as u64) <= low_mask(6),
        ensures
            final(self).bits() == with_field(old(self).bits(), 2, 6, v as u64),
    {
        proof {
            assert((v as u64) <= low_mask(6));
        }
        self.0 = write_field_u16(self.0, 2, 6, v as u64);
    }

    /// This register with the bits of `v` set in the reserved field.
    pub fn reserved(self, v: u8) -> (r: AhciError)
        requires
            (v as u64) <= low_mask(6),
        ensures
            r.bits() == or_field(self.bits(), 2, v as u64),
    {
        proof {
            assert((v as u64) <= low_mask(6));
        }
        AhciError(set_field_bits_u16(self.0, 2, 6, v as u64))
    }

    /// Whether the data intergrity err bit is set.
    pub fn is_data_intergrity_err(&self) -> (r: bool)
        ensures
            r == (field_of(self.bits(), 8, 1) == 1),
    {
        read_field(self.0 as u64, 8, 1) == 1
    }

    /// Writes the data intergrity err field, keeping every other bit.
    pub fn set_data_intergrity_err(&mut self, v: bool)
        ensures
            final(self).bits() == with_field(old(self).bits(), 8, 1, if v { 1u64 } else { 0u64 }),
    {
        proof {
            lemma_masks();
        }
        self.0 = write_field_u16(self.0, 8, 1, if v { 1u64 } else { 0u64 });
    }

    /// This register with the bits of `v` set in the data intergrity err field.
    pub fn data_intergrity_err(self, v: bool) -> (r: AhciError)
        ensures
            r.bits() == or_field(self.bits(), 8, if v { 1u64 } else { 0u64 }),
    {
        proof {
            lemma_masks();
        }
        AhciError(set_field_bits_u16(self.0, 8, 1, if v { 1u64 } else { 0u64 }))
    }

    /// Whether the persistent comm or data integrity err bit is set.
    pub fn is_persistent_comm_or_data_integrity_err(&self) -> (r: bool)
        ensures
            r == (field_of(self.bits(), 9, 1) == 1),
    {
        read_field(self.0 as u64, 9, 1) == 1
    }

    /// Writes the persistent comm or data integrity err field, keeping every other bit.
    pub fn set_persistent_comm_or_data_integrity_err(&mut self, v: bool)
        ensures
            final(self).bits() == with_field(old(self).bits(), 9, 1, if v { 1u64 } else { 0u64 }),
    {
        proof {
            lemma_masks();
        }
        self.0 = write_field_u16(self.0, 9, 1, if v { 1u64 } else { 0u64 });
    }

    /// This register with the bits of `v` set in the persistent comm or data integrity err field.
    pub fn persistent_comm_or_data_integrity_err(self, v: bool) -> (r: AhciError)
        ensures
            r.bits() == or_field(self.bits(), 9, if v { 1u64 } else { 0u64 }),
    {
        proof {
            lemma_masks();
        }
        AhciError(set_field_bits_u16(self.0, 9, 1, if v { 1u64 } else { 0u64 }))
    }

    /// Whether the protocol err bit is set.
    pub fn is_protocol_err(&self) -> (r: bool)
        ensures
            r == (field_of(self.bits(), 10, 1) == 1),
    {
        read_field(self.0 as u64, 10, 1) == 1
    }

    /// Writes the protocol err field, keeping every other bit.
    pub fn set_protocol_err(&mut self, v: bool)
        ensures
            final(self).bits() == with_field(old(self).bits(), 10, 1, if v { 1u64 } else { 0u64 }),
    {
        proof {
            lemma_masks();
        }
        self.0 = write_field_u16(self.0, 10, 1, if v { 1u64 } else { 0u64 });
    }

    /// This register with the bits of `v` set in the protocol err field.
    pub fn protocol_err(self, v: bool) -> (r: AhciError)
        ensures
            r.bits() == or_field(self.bits(), 10, if v { 1u64 } else { 0u64 }),
    {
        proof {
            lemma_masks();
        }
        AhciError(set_field_bits_u16(self.0, 10, 1, if v { 1u64 } else { 0u64 }))
    }

    /// Whether the internal err bit is set.
    pub fn is_internal_err(&self) -> (r: bool)
        ensures
            r == (field_of(self.bits(), 11, 1) == 1),
    {
        read_field(self.0 as u64, 11, 1) == 1
    }

    /// Writes the internal err field, keeping every other bit.
    pub fn set_internal_err(&mut self, v: bool)
        ensures
            final(self).bits() == with_field(old(self).bits(), 11, 1, if v { 1u64 } else { 0u64 }),
    {
        proof {
            lemma_masks();
        }
        self.0 = write_field_u16(self.0, 11, 1, if v { 1u64 } else { 0u64 });
    }

    /// This register with the bits of `v` set in the internal err field.
    pub fn internal_err(self, v: bool) -> (r: AhciError)
        ensures
            r.bits() == or_field(self.bits(), 11, if v { 1u64 } else { 0u64 }),
    {
        proof {
            lemma_masks();
        }
        AhciError(set_field_bits_u16(self.0, 11, 1, if v { 1u64 } else { 0u64 }))
    }


}

/// Port X SATA error
#[derive(Clone, Copy, Debug, PartialEq, Eq, Structural)]
pub struct SataError(u32);

impl SataError {
    /// The raw bits of the register.
    pub closed spec fn bits(&self) -> u64 {
        self.0 as u64
    }

    /// A register with every bit cleared.
    pub fn new() -> (r: SataError)
        ensures
            r.bits() == 0,
    {
        SataError(0)
    }

    /// The register that holds `bits`.
    pub fn from_bits(bits: u32) -> (r: SataError)
        ensures
            r.bits() == bits as u64,
    {
        SataError(bits)
    }

    /// The raw bits of the register.
    pub fn as_u32(&self) -> (r: u32)
        ensures
            r as u64 == self.bits(),
    {
        self.0
    }

    /// The AHCI error bits field.
    pub fn get_error(&self) -> (r: u16)
        ensures
            r as u64 == field_of(self.bits(), 0, 16),
    {
        let field = read_field(self.0 as u64, 0, 16);
        proof {
            lemma_masks();
        }
        field as u16
    }

    /// Writes the AHCI error bits field, keeping every other bit.
    pub fn set_error(&mut self, v: u16)
        requires
            (v as u64) <= low_mask(16),
        ensures
            final(self).bits() == with_field(old(self).bits(), 0, 16, v as u64),
    {
        proof {
            assert((v as u64) <= low_mask(16));
        }
        self.0 = write_field_u32(self.0, 0, 16, v as u64);
    }

    /// This register with the bits of `v` set in the AHCI error bits field.
    pub fn error(self, v: u16) -> (r: SataError)
        requires
            (v as u64) <= low_mask(16),
        ensures
            r.bits() == or_field(self.bits(), 0, v as u64),
    {
        proof {
            assert((v as u64) <= low_mask(16));
        }
        SataError(set_field_bits_u32(self.0, 0, 16, v as u64))
    }

    /// The diagnostic error bits field.
    pub fn get_diagnostic(&self) -> (r: u16)
        ensures
            r as u64 == field_of(self.bits(), 16, 16),
    {
        let field = read_field(self.0 as u64, 16, 16);
        proof {
            lemma_masks();
        }
        field as u16
    }

    /// Writes the diagnostic error bits field, keeping every other bit.
    pub fn set_diagnostic(&mut self, v: u16)
        requires
            (v as u64) <= low_mask(16),
        ensures
            final(self).bits() == with_field(old(self).bits(), 16, 16, v as u64),
    {
        proof {
            assert((v as u64) <= low_mask(16));
        }
        self.0 = write_field_u32(self.0, 16, 16, v as u64);
    }

    /// This register with the bits of `v` set in the diagnostic error bits field.
    pub fn diagnostic(self, v: u16) -> (r: SataError)
        requires
            (v as u64) <= low_mask(16),
        ensures
            r.bits() == or_field(self.bits(), 16, v as u64),
    {
        proof {
            assert((v as u64) <= low_mask(16));
        }
        SataError(set_field_bits_u32(self.0, 16, 16, v as u64))
    }


}

/// Port X SATA Notification
#[derive(Clone, Copy, Debug, PartialEq, Eq, Structural)]
pub struct SataNotification(u32);

impl SataNotification {
    /// The raw bits of the register.
    pub closed spec fn bits(&self) -> u64 {
        self.0 as u64
    }

    /// A register with every bit cleared.
    pub fn new() -> (r: SataNotification)
        ensures
            r.bits() == 0,
    {
        SataNotification(0)
    }

    /// The register that holds `bits`.
    pub fn from_bits(bits: u32) -> (r: SataNotification)
        ensures
            r.bits() == bits as u64,
    {
        SataNotification(bits)
    }

    /// The raw bits of the register.
    pub fn as_u32(&self) -> (r: u32)
        ensures
            r as u64 == self.bits(),
    {
        self.0
    }

    /// The per-port-multiplier-port notification bits (ports 0-14) field.
    pub fn get_pm_notifications(&self) -> (r: u16)
        ensures
            r as u64 == field_of(self.bits(), 0, 15),
    {
        let field = read_field(self.0 as u64, 0, 15);
        proof {
            lemma_masks();
        }
        field as u16
    }

    /// Writes the per-port-multiplier-port notification bits (ports 0-14) field, keeping every other bit.
    pub fn set_pm_notifications(&mut self, v: u16)
        requires
            (v as u64) <= low_mask(15),
        ensures
            final(self).bits() == with_field(old(self).bits(), 0, 15, v as u64),
    {
        proof {
            assert((v as u64) <= low_mask(15));
        }
        self.0 = write_field_u32(self.0, 0, 15, v as u64);
    }

    /// This register with the bits of `v` set in the per-port-multiplier-port notification bits (ports 0-14) field.
    pub fn pm_notifications(self, v: u16) -> (r: SataNotification)
        requires
            (v as u64) <= low_mask(15),
        ensures
            r.bits() == or_field(self.bits(), 0, v as u64),
    {
        proof {
            assert((v as u64) <= low_mask(15));
        }
        SataNotification(set_field_bits_u32(self.0, 0, 15, v as u64))
    }

    /// The reserved field.
    pub fn get_reserved(&self) -> (r: u32)
        ensures
            r as u64 == field_of(self.bits(), 15, 17),
    {
        let field = read_field(self.0 as u64, 15, 17);
        proof {
            lemma_masks();
        }
        field as u32
    }

    /// Clears the reserved field.
    pub fn clear_reserved(&mut self)
        ensures
            final(self).bits() == with_field(old(self).bits(), 15, 17, 0),
    {
        proof {
            assert((0u8 as u64) <= low_mask(17));
        }
        self.0 = write_field_u32(self.0, 15, 17, 0);
    }


}

/// Port X Frame Information Structure based switching control
#[derive(Clone, Copy, Debug, PartialEq, Eq, Structural)]
pub struct FisSwitchControl(u32);

impl FisSwitchControl {
    /// The raw bits of the register.
    pub closed spec fn bits(&self) -> u64 {
        self.0 as u64
    }

    /// A register with every bit cleared.
    pub fn new() -> (r: FisSwitchControl)
        ensures
            r.bits() == 0,
    {
        FisSwitchControl(0)
    }

    /// The register that holds `bits`.
    pub fn from_bits(bits: u32) -> (r: FisSwitchControl)
        ensures
            r.bits() == bits as u64,
    {
        FisSwitchControl(bits)
    }

    /// The raw bits of the register.
    pub fn as_u32(&self) -> (r: u32)
        ensures
            r as u64 == self.bits(),
    {
        self.0
    }

    /// Whether the enable, should be set if there is a port multiplier bit is set.
    pub fn is_en(&self) -> (r: bool)
        ensures
            r == (field_of(self.bits(), 0, 1) == 1),
    {
        read_field(self.0 as u64, 0, 1) == 1
    }

    /// Writes the enable, should be set if there is a port multiplier field, keeping every other bit.
    pub fn set_en(&mut self, v: bool)
        ensures
            final(self).bits() == with_field(old(self).bits(), 0, 1, if v { 1u64 } else { 0u64 }),
    {
        proof {
            lemma_masks();
        }
        self.0 = write_field_u32(self.0, 0, 1, if v { 1u64 } else { 0u64 });
    }

    /// This register with the bits of `v` set in the enable, should be set if there is a port multiplier field.
    pub fn en(self, v: bool) -> (r: FisSwitchControl)
        ensures
            r.bits() == or_field(self.bits(), 0, if v { 1u64 } else { 0u64 }),
    {
        proof {
            lemma_masks();
        }
        FisSwitchControl(set_field_bits_u32(self.0, 0, 1, if v { 1u64 } else { 0u64 }))
    }

    /// Whether the device error clear bit is set.
    pub fn is_dec(&self) -> (r: bool)
        ensures
            r == (field_of(self.bits(), 1, 1) == 1),
    {
        read_field(self.0 as u64, 1, 1) == 1
    }

    /// Writes the device error clear field, keeping every other bit.
    pub fn set_dec(&mut self, v: bool)
        ensures
            final(self).bits() == with_field(old(self).bits(), 1, 1, if v { 1u64 } else { 0u64 }),
    {
        proof {
            lemma_masks();
        }
        self.0 = write_field_u32(self.0, 1, 1, if v { 1u64 } else { 0u64 });
    }

    /// This register with the bits of `v` set in the device error clear field.
    pub fn dec(self, v: bool) -> (r: FisSwitchControl)
        ensures
            r.bits() == or_field(self.bits(), 1, if v { 1u64 } else { 0u64 }),
    {
        proof {
            lemma_masks();
        }
        FisSwitchControl(set_field_bits_u32(self.0, 1, 1, if v { 1u64 } else { 0u64 }))
    }

    /// Writes 1 to the device error clear field, which clears it in the device.
    pub fn clear_dec(&mut self)
        ensures
            final(self).bits() == with_field(old(self).bits(), 1, 1, 1),
    {
        proof {
            lemma_masks();
        }
        self.0 = write_field_u32(self.0, 1, 1, 1);
    }

    /// Whether the single device error bit is set.
    pub fn is_sde(&self) -> (r: bool)
        ensures
            r == (field_of(self.bits(), 2, 1) == 1),
    {
        read_field(self.0 as u64, 2, 1) == 1
    }

    /// The reserved0 field.
    pub fn get_reserved0(&self) -> (r: u8)
        ensures
            r as u64 == field_of(self.bits(), 3, 5),
    {
        let field = read_field(self.0 as u64, 3, 5);
        proof {
            lemma_masks();
        }
        field as u8
    }

    /// Clears the reserved0 field.
    pub fn clear_reserved0(&mut self)
        ensures
            final(self).bits() == with_field(old(self).bits(), 3, 5, 0),
    {
        proof {
            assert((0u8 as u64) <= low_mask(5));
        }
        self.0 = write_field_u32(self.0, 3, 5, 0);
    }

    /// The set the port multiplier port number that should receive the next field.
    pub fn get_device_to_issue(&self) -> (r: u8)
        ensures
            r as u64 == field_of(self.bits(), 8, 4),
    {
        let field = read_field(self.0 as u64, 8, 4);
        proof {
            lemma_masks();
        }
        field as u8
    }

    /// Writes the set the port multiplier port number that should receive the next field, keeping every other bit.
    pub fn set_device_to_issue(&mut self, v: u8)
        requires
            (v as u64) <= low_mask(4),
        ensures
            final(self).bits() == with_field(old(self).bits(), 8, 4, v as u64),
    {
        proof {
            assert((v as u64) <= low_mask(4));
        }
        self.0 = write_field_u32(self.0, 8, 4, v as u64);
    }

    /// This register with the bits of `v` set in the set the port multiplier port number that should receive the next field.
    pub fn device_to_issue(self, v: u8) -> (r: FisSwitchControl)
        requires
            (v as u64) <= low_mask(4),
        ensures
            r.bits() == or_field(self.bits(), 8, v as u64),
    {
        proof {
            assert((v as u64) <= low_mask(4));
        }
        FisSwitchControl(set_field_bits_u32(self.0, 8, 4, v as u64))
    }

    /// The the number of devices that fis-based switching has been optimized field.
    pub fn get_active_device_optimization(&self) -> (r: u8)
        ensures
            r as u64 == field_of(self.bits(), 12, 4),
    {
        let field = read_field(self.0 as u64, 12, 4);
        proof {
            lemma_masks();
        }
        field as u8
    }

    /// The port multiplier device that experienced fatal error field.
    pub fn get_device_with_error(&self) -> (r: u8)
        ensures
            r as u64 == field_of(self.bits(), 16, 4),
    {
        let field = read_field(self.0 as u64, 16, 4);
        proof {
            lemma_masks();
        }
        field as u8
    }

    /// The reserved1 field.
    pub fn get_reserved1(&self) -> (r: u16)
        ensures
            r as u64 == field_of(self.bits(), 20, 12),
    {
        let field = read_field(self.0 as u64, 20, 12);
        proof {
            lemma_masks();
        }
        field as u16
    }

    /// Clears the reserved1 field.
    pub fn clear_reserved1(&mut self)
        ensures
            final(self).bits() == with_field(old(self).bits(), 20, 12, 0),
    {
        proof {
            assert((0u8 as u64) <= low_mask(12));
        }
        self.0 = write_field_u32(self.0, 20, 12, 0);
    }


}

/// Port x Device sleep
#[derive(Clone, Copy, Debug, PartialEq, Eq, Structural)]
pub struct DeviceSleep(u32);

impl DeviceSleep {
    /// The raw bits of the register.
    pub closed spec fn bits(&self) -> u64 {
        self.0 as u64
    }

    /// A register with every bit cleared.
    pub fn new() -> (r: DeviceSleep)
        ensures
            r.bits() == 0,
    {
        DeviceSleep(0)
    }

    /// The register that holds `bits`.
    pub fn from_bits(bits: u32) -> (r: DeviceSleep)
        ensures
            r.bits() == bits as u64,
    {
        DeviceSleep(bits)
    }

    /// The raw bits of the register.
    pub fn as_u32(&self) -> (r: u32)
        ensures
            r as u64 == self.bits(),
    {
        self.0
    }

    /// Whether the aggressive device sleep enable bit is set.
    pub fn is_adse(&self) -> (r: bool)
        ensures
            r == (field_of(self.bits(), 0, 1) == 1),
    {
        read_field(self.0 as u64, 0, 1) == 1
    }

    /// Whether the device sleep present bit is set.
    pub fn is_dsp(&self) -> (r: bool)
        ensures
            r == (field_of(self.bits(), 1, 1) == 1),
    {
        read_field(self.0 as u64, 1, 1) == 1
    }

    /// The device sleep exit timeout field.
    pub fn get_deto(&self) -> (r: u8)
        ensures
            r as u64 == field_of(self.bits(), 2, 8),
    {
        let field = read_field(self.0 as u64, 2, 8);
        proof {
            lemma_masks();
        }
        field as u8
    }

    /// The minimum device sleep assertion time field.
    pub fn get_mdat(&self) -> (r: u8)
        ensures
            r as u64 == field_of(self.bits(), 10, 5),
    {
        let field = read_field(self.0 as u64, 10, 5);
        proof {
            lemma_masks();
        }
        field as u8
    }

    /// The raw dito value field.
    pub fn get_dito(&self) -> (r: u16)
        ensures
            r as u64 == field_of(self.bits(), 15, 10),
    {
        let field = read_field(self.0 as u64, 15, 10);
        proof {
            lemma_masks();
        }
        field as u16
    }

    /// The device sleep idle timeout multiplier field.
    pub fn get_dito_multiplier(&self) -> (r: u8)
        ensures
            r as u64 == field_of(self.bits(), 25, 4),
    {
        let field = read_field(self.0 as u64, 25, 4);
        proof {
            lemma_masks();
        }
        field as u8
    }

    /// The reserved field.
    pub fn get_reserved(&self) -> (r: u8)
        ensures
            r as u64 == field_of(self.bits(), 29, 3),
    {
        let field = read_field(self.0 as u64, 29, 3);
        proof {
            lemma_masks();
        }
        field as u8
    }

    /// Clears the reserved field.
    pub fn clear_reserved(&mut self)
        ensures
            final(self).bits() == with_field(old(self).bits(), 29, 3, 0),
    {
        proof {
            assert((0u8 as u64) <= low_mask(3));
        }
        self.0 = write_field_u32(self.0, 29, 3, 0);
    }


}

/// The cmd list description info register.
#[derive(Clone, Copy, Debug, PartialEq, Eq, Structural)]
pub struct CmdListDescriptionInfo(u32);

impl CmdListDescriptionInfo {
    /// The raw bits of the register.
    pub closed spec fn bits(&self) -> u64 {
        self.0 as u64
    }

    /// A register with every bit cleared.
    pub fn new() -> (r: CmdListDescriptionInfo)
        ensures
            r.bits() == 0,
    {
        CmdListDescriptionInfo(0)
    }

    /// The register that holds `bits`.
    pub fn from_bits(bits: u32) -> (r: CmdListDescriptionInfo)
        ensures
            r.bits() == bits as u64,
    {
        CmdListDescriptionInfo(bits)
    }

    /// The raw bits of the register.
    pub fn as_u32(&self) -> (r: u32)
        ensures
            r as u64 == self.bits(),
    {
        self.0
    }

    /// The length of command fis (internally stored as dwords) field.
    pub fn get_cfl(&self) -> (r: u8)
        ensures
            r as u64 == field_of(self.bits(), 0, 5),
    {
        let field = read_field(self.0 as u64, 0, 5);
        proof {
            lemma_masks();
        }
        field as u8
    }

    /// Writes the length of command fis (internally stored as dwords) field, keeping every other bit.
    pub fn set_cfl(&mut self, v: u8)
        requires
            (v as u64) <= low_mask(5),
        ensures
            final(self).bits() == with_field(old(self).bits(), 0, 5, v as u64),
    {
        proof {
            assert((v as u64) <= low_mask(5));
        }
        self.0 = write_field_u32(self.0, 0, 5, v as u64);
    }

    /// This register with the bits of `v` set in the length of command fis (internally stored as dwords) field.
    pub fn cfl(self, v: u8) -> (r: CmdListDescriptionInfo)
        requires
            (v as u64) <= low_mask(5),
        ensures
            r.bits() == or_field(self.bits(), 0, v as u64),
    {
        proof {
            assert((v as u64) <= low_mask(5));
        }
        CmdListDescriptionInfo(set_field_bits_u32(self.0, 0, 5, v as u64))
    }

    /// Whether the ATAPI bit is set.
    pub fn is_a(&self) -> (r: bool)
        ensures
            r == (field_of(self.bits(), 5, 1) == 1),
    {
        read_field(self.0 as u64, 5, 1) == 1
    }

    /// Writes the ATAPI field, keeping every other bit.
    pub fn set_a(&mut self, v: bool)
        ensures
            final(self).bits() == with_field(old(self).bits(), 5, 1, if v { 1u64 } else { 0u64 }),
    {
        proof {
            lemma_masks();
        }
        self.0 = write_field_u32(self.0, 5, 1, if v { 1u64 } else { 0u64 });
    }

    /// This register with the bits of `v` set in the ATAPI field.
    pub fn a(self, v: bool) -> (r: CmdListDescriptionInfo)
        ensures
            r.bits() == or_field(self.bits(), 5, if v { 1u64 } else { 0u64 }),
    {
        proof {
            lemma_masks();
        }
        CmdListDescriptionInfo(set_field_bits_u32(self.0, 5, 1, if v { 1u64 } else { 0u64 }))
    }

    /// Whether the write bit is set.
    pub fn is_w(&self) -> (r: bool)
        ensures
            r == (field_of(self.bits(), 6, 1) == 1),
    {
        read_field(self.0 as u64, 6, 1) == 1
    }

    /// Writes the write field, keeping every other bit.
    pub fn set_w(&mut self, v: bool)
        ensures
            final(self).bits() == with_field(old(self).bits(), 6, 1, if v { 1u64 } else { 0u64 }),
    {
        proof {
            lemma_masks();
        }
        self.0 = write_field_u32(self.0, 6, 1, if v { 1u64 } else { 0u64 });
    }

    /// This register with the bits of `v` set in the write field.
    pub fn w(self, v: bool) -> (r: CmdListDescriptionInfo)
        ensures
            r.bits() == or_field(self.bits(), 6, if v { 1u64 } else { 0u64 }),
    {
        proof {
            lemma_masks();
        }
        CmdListDescriptionInfo(set_field_bits_u32(self.0, 6, 1, if v { 1u64 } else { 0u64 }))
    }

    /// Whether the prefetchable bit is set.
    pub fn is_p(&self) -> (r: bool)
        ensures
            r == (field_of(self.bits(), 7, 1) == 1),
    {
        read_field(self.0 as u64, 7, 1) == 1
    }

    /// Writes the prefetchable field, keeping every other bit.
    pub fn set_p(&mut self, v: bool)
        ensures
            final(self).bits() == with_field(old(self).bits(), 7, 1, if v { 1u64 } else { 0u64 }),
    {
        proof {
            lemma_masks();
        }
        self.0 = write_field_u32(self.0, 7, 1, if v { 1u64 } else { 0u64 });
    }

    /// This register with the bits of `v` set in the prefetchable field.
    pub fn p(self, v: bool) -> (r: CmdListDescriptionInfo)
        ensures
            r.bits() == or_field(self.bits(), 7, if v { 1u64 } else { 0u64 }),
    {
        proof {
            lemma_masks();
        }
        CmdListDescriptionInfo(set_field_bits_u32(self.0, 7, 1, if v { 1u64 } else { 0u64 }))
    }

    /// Whether the reset bit is set.
    pub fn is_r(&self) -> (r: bool)
        ensures
            r == (field_of(self.bits(), 8, 1) == 1),
    {
        read_field(self.0 as u64, 8, 1) == 1
    }

    /// Writes the reset field, keeping every other bit.
    pub fn set_r(&mut self, v: bool)
        ensures
            final(self).bits() == with_field(old(self).bits(), 8, 1, if v { 1u64 } else { 0u64 }),
    {
        proof {
            lemma_masks();
        }
        self.0 = write_field_u32(self.0, 8, 1, if v { 1u64 } else { 0u64 });
    }

    /// This register with the bits of `v` set in the reset field.
    pub fn r(self, v: bool) -> (r: CmdListDescriptionInfo)
        ensures
            r.bits() == or_field(self.bits(), 8, if v { 1u64 } else { 0u64 }),
    {
        proof {
            lemma_masks();
        }
        CmdListDescriptionInfo(set_field_bits_u32(self.0, 8, 1, if v { 1u64 } else { 0u64 }))
    }

    /// Whether the BIST bit is set.
    pub fn is_b(&self) -> (r: bool)
        ensures
            r == (field_of(self.bits(), 9, 1) == 1),
    {
        read_field(self.0 as u64, 9, 1) == 1
    }

    /// Writes the BIST field, keeping every other bit.
    pub fn set_b(&mut self, v: bool)
        ensures
            final(self).bits() == with_field(old(self).bits(), 9, 1, if v { 1u64 } else { 0u64 }),
    {
        proof {
            lemma_masks();
        }
        self.0 = write_field_u32(self.0, 9, 1, if v { 1u64 } else { 0u64 });
    }

    /// This register with the bits of `v` set in the BIST field.
    pub fn b(self, v: bool) -> (r: CmdListDescriptionInfo)
        ensures
            r.bits() == or_field(self.bits(), 9, if v { 1u64 } else { 0u64 }),
    {
        proof {
            lemma_masks();
        }
        CmdListDescriptionInfo(set_field_bits_u32(self.0, 9, 1, if v { 1u64 } else { 0u64 }))
    }

    /// Whether the clear busy upon r_ok bit is set.
    pub fn is_c(&self) -> (r: bool)
        ensures
            r == (field_of(self.bits(), 10, 1) == 1),
    {
        read_field(self.0 as u64, 10, 1) == 1
    }

    /// Writes the clear busy upon r_ok field, keeping every other bit.
    pub fn set_c(&mut self, v: bool)
        ensures
            final(self).bits() == with_field(old(self).bits(), 10, 1, if v { 1u64 } else { 0u64 }),
    {
        proof {
            lemma_masks();
        }
        self.0 = write_field_u32(self.0, 10, 1, if v { 1u64 } else { 0u64 });
    }

    /// This register with the bits of `v` set in the clear busy upon r_ok field.
    pub fn c(self, v: bool) -> (r: CmdListDescriptionInfo)
        ensures
            r.bits() == or_field(self.bits(), 10, if v { 1u64 } else { 0u64 }),
    {
        proof {
            lemma_masks();
        }
        CmdListDescriptionInfo(set_field_bits_u32(self.0, 10, 1, if v { 1u64 } else { 0u64 }))
    }

    /// Whether the reserved bit is set.
    pub fn is_reserved(&self) -> (r: bool)
        ensures
            r == (field_of(self.bits(), 11, 1) == 1),
    {
        read_field(self.0 as u64, 11, 1) == 1
    }

    /// Clears the reserved field.
    pub fn clear_reserved(&mut self)
        ensures
            final(self).bits() == with_field(old(self).bits(), 11, 1, 0),
    {
        proof {
            assert((0u8 as u64) <= low_mask(1));
        }
        self.0 = write_field_u32(self.0, 11, 1, 0);
    }

    /// The port multiplier port field.
    pub fn get_pm_port(&self) -> (r: u8)
        ensures
            r as u64 == field_of(self.bits(), 12, 4),
    {
        let field = read_field(self.0 as u64, 12, 4);
        proof {
            lemma_masks();
        }
        field as u8
    }

    /// Writes the port multiplier port field, keeping every other bit.
    pub fn set_pm_port(&mut self, v: u8)
        requires
            (v as u64) <= low_mask(4),
        ensures
            final(self).bits() == with_field(old(self).bits(), 12, 4, v as u64),
    {
        proof {
            assert((v as u64) <= low_mask(4));
        }
        self.0 = write_field_u32(self.0, 12, 4, v as u64);
    }

    /// This register with the bits of `v` set in the port multiplier port field.
    pub fn pm_port(self, v: u8) -> (r: CmdListDescriptionInfo)
        requires
            (v as u64) <= low_mask(4),
        ensures
            r.bits() == or_field(self.bits(), 12, v as u64),
    {
        proof {
            assert((v as u64) <= low_mask(4));
        }
        CmdListDescriptionInfo(set_field_bits_u32(self.0, 12, 4, v as u64))
    }

    /// The physical region descriptor table length field.
    pub fn get_prdtl(&self) -> (r: u16)
        ensures
            r as u64 == field_of(self.bits(), 16, 16),
    {
        let field = read_field(self.0 as u64, 16, 16);
        proof {
            lemma_masks();
        }
        field as u16
    }

    /// Writes the physical region descriptor table length field, keeping every other bit.
    pub fn set_prdtl(&mut self, v: u16)
        requires
            (v as u64) <= low_mask(16),
        ensures
            final(self).bits() == with_field(old(self).bits(), 16, 16, v as u64),
    {
        proof {
            assert((v as u64) <= low_mask(16));
        }
        self.0 = write_field_u32(self.0, 16, 16, v as u64);
    }

    /// This register with the bits of `v` set in the physical region descriptor table length field.
    pub fn prdtl(self, v: u16) -> (r: CmdListDescriptionInfo)
        requires
            (v as u64) <= low_mask(16),
        ensures
            r.bits() == or_field(self.bits(), 16, v as u64),
    {
        proof {
            assert((v as u64) <= low_mask(16));
        }
        CmdListDescriptionInfo(set_field_bits_u32(self.0, 16, 16, v as u64))
    }


}

/// The prdt description info register.
#[derive(Clone, Copy, Debug, PartialEq, Eq, Structural)]
pub struct PrdtDescriptionInfo(u32);

impl PrdtDescriptionInfo {
    /// The raw bits of the register.
    pub closed spec fn bits(&self) -> u64 {
        self.0 as u64
    }

    /// A register with every bit cleared.
    pub fn new() -> (r: PrdtDescriptionInfo)
        ensures
            r.bits() == 0,
    {
        PrdtDescriptionInfo(0)
    }

    /// The register that holds `bits`.
    pub fn from_bits(bits: u32) -> (r: PrdtDescriptionInfo)
        ensures
            r.bits() == bits as u64,
    {
        PrdtDescriptionInfo(bits)
    }

    /// The raw bits of the register.
    pub fn as_u32(&self) -> (r: u32)
        ensures
            r as u64 == self.bits(),
    {
        self.0
    }

    /// The data byte count (max 4mib, bit 0 is always set per spec) field.
    pub fn get_dbc(&self) -> (r: u32)
        ensures
            r as u64 == field_of(self.bits(), 0, 22),
    {
        let field = read_field(self.0 as u64, 0, 22);
        proof {
            lemma_masks();
        }
        field as u32
    }

    /// Writes the data byte count (max 4mib, bit 0 is always set per spec) field, keeping every other bit.
    pub fn set_dbc(&mut self, v: u32)
        requires
            (v as u64) <= low_mask(22),
        ensures
            final(self).bits() == with_field(old(self).bits(), 0, 22, v as u64),
    {
        proof {
            assert((v as u64) <= low_mask(22));
        }
        self.0 = write_field_u32(self.0, 0, 22, v as u64);
    }

    /// This register with the bits of `v` set in the data byte count (max 4mib, bit 0 is always set per spec) field.
    pub fn dbc(self, v: u32) -> (r: PrdtDescriptionInfo)
        requires
            (v as u64) <= low_mask(22),
        ensures
            r.bits() == or_field(self.bits(), 0, v as u64),
    {
        proof {
            assert((v as u64) <= low_mask(22));
        }
        PrdtDescriptionInfo(set_field_bits_u32(self.0, 0, 22, v as u64))
    }

    /// The reserved field.
    pub fn get_reserved(&self) -> (r: u16)
        ensures
            r as u64 == field_of(self.bits(), 22, 9),
    {
        let field = read_field(self.0 as u64, 22, 9);
        proof {
            lemma_masks();
        }
        field as u16
    }

    /// Clears the reserved field.
    pub fn clear_reserved(&mut self)
        ensures
            final(self).bits() == with_field(old(self).bits(), 22, 9, 0),
    {
        proof {
            assert((0u8 as u64) <= low_mask(9));
        }
        self.0 = write_field_u32(self.0, 22, 9, 0);
    }

    /// Whether the interrupt on completion bit is set.
    pub fn is_i(&self) -> (r: bool)
        ensures
            r == (field_of(self.bits(), 31, 1) == 1),
    {
        read_field(self.0 as u64, 31, 1) == 1
    }

    /// Writes the interrupt on completion field, keeping every other bit.
    pub fn set_i(&mut self, v: bool)
        ensures
            final(self).bits() == with_field(old(self).bits(), 31, 1, if v { 1u64 } else { 0u64 }),
    {
        proof {
            lemma_masks();
        }
        self.0 = write_field_u32(self.0, 31, 1, if v { 1u64 } else { 0u64 });
    }

    /// This register with the bits of `v` set in the interrupt on completion field.
    pub fn i(self, v: bool) -> (r: PrdtDescriptionInfo)
        ensures
            r.bits() == or_field(self.bits(), 31, if v { 1u64 } else { 0u64 }),
    {
        proof {
            lemma_masks();
        }
        PrdtDescriptionInfo(set_field_bits_u32(self.0, 31, 1, if v { 1u64 } else { 0u64 }))
    }


}

/// The bit arithmetic the registers of the ports rely on.
proof fn lemma_hba_facts(b: u64, x: u32, p: u8, i: u32, dbc: u32)
    by (bit_vector)
    ensures
        field_of(with_field(b, 0, 1, 0), 15, 1) == field_of(b, 15, 1),
        field_of(with_field(with_field(b, 0, 1, 0), 4, 1, 0), 14, 1) == field_of(b, 14, 1),
        b == x as u64 && p < 15 ==> ((x & (1u32 << p)) != 0) == ((b & (1u64 << p)) != 0),
        b == x as u64 && p < 15 ==> (x | (1u32 << p)) as u64 == b | (1u64 << p),
        p < 15 ==> (b | (1u64 << p)) & (1u64 << p) != 0,
        p < 15 && i < 15 && i != p ==> ((b | (1u64 << p)) & (1u64 << i) != 0) == (b & (1u64 << i) != 0),
        field_of(b, 15, 10) <= 1023 && field_of(b, 25, 4) <= 15,
        x >> 0u32 == x,
        i < 32 ==> (x >> i) >> 1u32 == x >> ((i + 1) as u32),
        dbc < 4 * 0x100000 ==> (dbc | 1) < 0x400000 && (dbc | 1) as u64 <= low_mask(22),
        1u32 << 20u32 == 0x100000,
{
}

/// The base address of the AHCI registers, as the PCI configuration space
/// gives it.
#[derive(Clone, Copy, Debug)]
pub struct AHCIBaseAddress(pub u32);

/// The interrupt status register of the host bus adapter (IS): bit `i` is
/// set when port `i` has an interrupt pending; writing 1 clears it.
#[derive(Clone, Copy, Debug)]
pub struct InterruptStatus(pub u32);

impl InterruptStatus {
    /// Whether port `port` has an interrupt pending.
    pub fn is_pending(&self, port: u32) -> (r: bool)
        requires
            port < 32,
        ensures
            r == ((self.0 >> port) & 1 == 1),
    {
        (self.0 >> port) & 1 == 1
    }

    /// Writes 1 to every bit, which clears every pending interrupt.
    pub fn clear_all(&mut self)
        ensures
            final(self).0 == u32::MAX,
    {
        self.0 = u32::MAX;
    }
}

/// The ports implemented register (PI): bit `i` is set when port `i` is
/// implemented.
#[derive(Clone, Copy, Debug)]
pub struct PortsImplemented(pub u32);

impl PortsImplemented {
    /// Whether port `port` is implemented.
    pub fn is_port_implemented(&self, port: u32) -> (r: bool)
        requires
            port < 32,
        ensures
            r == ((self.0 >> port) & 1 == 1),
    {
        (self.0 >> port) & 1 == 1
    }
}

/// The command completion coalescing ports register (CCC_PORTS): bit `i`
/// is set when port `i` takes part in command completion coalescing.
#[derive(Clone, Copy, Debug)]
pub struct CommandCompletionCoalescingPorts(pub u32);

impl CommandCompletionCoalescingPorts {
    /// Whether port `port` takes part in command completion coalescing.
    pub fn is_port(&self, port: u32) -> (r: bool)
        requires
            port < 32,
        ensures
            r == ((self.0 >> port) & 1 == 1),
    {
        (self.0 >> port) & 1 == 1
    }
}

/// The generic host control registers of the host bus adapter.
#[derive(Clone, Copy, Debug)]
pub struct GenericHostControl {
    pub cap: HBACapabilities,
    pub ghc: GlobalHostControl,
    pub is: InterruptStatus,
    pub pi: PortsImplemented,
    pub vs: Version,
    pub ccc_ctl: CommandCompletionCoalescingControl,
    pub ccc_ports: CommandCompletionCoalescingPorts,
    pub em_loc: EnclosureManagementLocation,
    pub em_ctl: EnclosureManagementControl,
    pub cap_ext: HostCapabilitiesExtended,
    pub bohc: BiosOsControlStatus,
}

/// The vendor specific registers of the host bus adapter.
#[derive(Clone, Copy, Debug)]
pub struct VendorSpecificRegisters {
    pub reserved: [u8; 0x74],
}

impl PortInterruptStatus {
    /// Writes 1 to every bit, which clears every pending interrupt of the
    /// port.
    pub fn clear_pending_interrupts(&mut self)
        ensures
            final(self).bits() == u32::MAX as u64,
    {
        self.0 = u32::MAX;
    }
}

impl CmdStatus {
    /// The command slot the port is issuing, or 0 when the port is not
    /// started.
    pub fn get_current_cmd_checked(&mut self) -> (r: u32)
        ensures
            *final(self) == *old(self),
            r == if field_of(old(self).bits(), 0, 1) == 1 {
                field_of(old(self).bits(), 8, 5) as u32
            } else {
                0
            },
    {
        if !self.is_st() {
            return 0;
        }
        self.get_current_cmd() as u32
    }

    /// A step of starting the port, given the phase it is in and the
    /// register as just read: while the command list runs, read again; then
    /// write the register with the FIS receive enable bit set, and then the
    /// register with the start bit set.
    pub fn start_step(phase: StartPhase, current: CmdStatus) -> (r: PortStep<StartPhase>)
        ensures
            phase == StartPhase::WaitCommandList && field_of(current.bits(), 15, 1) == 1 ==> r
                == PortStep::Poll(StartPhase::WaitCommandList),
            phase == StartPhase::WaitCommandList && field_of(current.bits(), 15, 1) != 1 ==> (r matches PortStep::Write(
                v,
                next,
            ) && v.bits() == with_field(current.bits(), 4, 1, 1) && next == StartPhase::SetStart),
            phase == StartPhase::SetStart ==> (r matches PortStep::Write(v, next) && v.bits() == with_field(
                current.bits(),
                0,
                1,
                1,
            ) && next == StartPhase::Started),
            phase == StartPhase::Started ==> r == PortStep::<StartPhase>::Done,
    {
        match phase {
            StartPhase::WaitCommandList => {
                if current.is_cr() {
                    PortStep::Poll(StartPhase::WaitCommandList)
                } else {
                    let mut v = current;
                    v.set_fre(true);
                    PortStep::Write(v, StartPhase::SetStart)
                }
            },
            StartPhase::SetStart => {
                let mut v = current;
                v.set_st(true);
                PortStep::Write(v, StartPhase::Started)
            },
            StartPhase::Started => PortStep::Done,
        }
    }

    /// A step of stopping the port, given the phase it is in and the
    /// register as just read: write the register with the start bit clear;
    /// wait for the command list to stop running, then write the register
    /// with the FIS receive enable bit clear; wait for the FIS receive
    /// engine to stop. Each wait gives up, timed out, on the `0xfffff`th
    /// step, so after `0xffffe` reads that find the engine still running.
    pub fn stop_step(phase: StopPhase, current: CmdStatus) -> (r: PortStep<StopPhase>)
        requires
            phase.polls_left() >= 1,
        ensures
            r matches PortStep::Poll(p) ==> p.polls_left() >= 1,
            r matches PortStep::Write(_, p) ==> p.polls_left() >= 1,
            phase == StopPhase::ClearStart ==> (r matches PortStep::Write(v, next) && v.bits() == with_field(
                current.bits(),
                0,
                1,
                0,
            ) && next == StopPhase::WaitCommandList(0xfffff)),
            phase matches StopPhase::WaitCommandList(t) && t == 1 ==> r == PortStep::<StopPhase>::Timeout,
            phase matches StopPhase::WaitCommandList(t) ==> (t != 1 && field_of(current.bits(), 15, 1) == 1
                ==> r == PortStep::Poll(StopPhase::WaitCommandList((t - 1) as u32))),
            phase matches StopPhase::WaitCommandList(t) && t != 1 && field_of(current.bits(), 15, 1) != 1 ==> (
            r matches PortStep::Write(v, next) && v.bits() == with_field(current.bits(), 4, 1, 0) && next
                == StopPhase::WaitFisReceive(0xfffff)),
            phase matches StopPhase::WaitFisReceive(t) ==> r == if t == 1 {
                PortStep::<StopPhase>::Timeout
            } else if field_of(current.bits(), 14, 1) == 1 {
                PortStep::Poll(StopPhase::WaitFisReceive((t - 1) as u32))
            } else {
                PortStep::<StopPhase>::Done
            },
    {
        match phase {
            StopPhase::ClearStart => {
                let mut v = current;
                v.set_st(false);
                PortStep::Write(v, StopPhase::WaitCommandList(0xfffff))
            },
            StopPhase::WaitCommandList(t) => {
                let left = t - 1;
                if left == 0 {
                    PortStep::Timeout
                } else if current.is_cr() {
                    PortStep::Poll(StopPhase::WaitCommandList(left))
                } else {
                    let mut v = current;
                    v.set_fre(false);
                    PortStep::Write(v, StopPhase::WaitFisReceive(0xfffff))
                }
            },
            StopPhase::WaitFisReceive(t) => {
                let left = t - 1;
                if left == 0 {
                    PortStep::Timeout
                } else if current.is_fr() {
                    PortStep::Poll(StopPhase::WaitFisReceive(left))
                } else {
                    PortStep::Done
                }
            },
        }
    }
}

/// What the driver does next while it starts or stops a port: write the
/// command register and go on in the next phase, read the register again
/// and go on in the next phase, stop because it is done, or give up because
/// the engine did not stop in time.
#[derive(Clone, Copy, Debug, PartialEq, Eq, Structural)]
pub enum PortStep<P> {
    Write(CmdStatus, P),
    Poll(P),
    Done,
    Timeout,
}

/// The phases of starting a port: waiting for the command list to stop
/// running, setting the start bit, and started.
#[derive(Clone, Copy, Debug, PartialEq, Eq, Structural)]
pub enum StartPhase {
    WaitCommandList,
    SetStart,
    Started,
}

/// The phases of stopping a port: clearing the start bit, then waiting for
/// the command list, then for the FIS receive engine, each wait with the
/// steps it has left before it gives up.
#[derive(Clone, Copy, Debug, PartialEq, Eq, Structural)]
pub enum StopPhase {
    ClearStart,
    WaitCommandList(u32),
    WaitFisReceive(u32),
}

impl StopPhase {
    /// The steps the phase has left before it gives up; one for clearing the
    /// start bit.
    pub open spec fn polls_left(self) -> u32 {
        match self {
            StopPhase::ClearStart => 1,
            StopPhase::WaitCommandList(t) => t,
            StopPhase::WaitFisReceive(t) => t,
        }
    }
}

/// Kinds of device a port can be attached to, by the signature the device
/// reports.
#[derive(Clone, Copy, Debug, PartialEq, Eq, Structural)]
pub enum DeviceType {
    /// A SATA drive.
    Sata,
    /// A SATAPI drive.
    Satapi,
    /// An enclosure management bridge.
    Semb,
    /// A port multiplier.
    PortMultiplier,
}

impl DeviceType {
    /// The signature that represents this variant.
    pub open spec fn spec_as_u32(self) -> u32 {
        match self {
            DeviceType::Sata => 0x0000_0101,
            DeviceType::Satapi => 0xeb14_0101,
            DeviceType::Semb => 0xc33c_0101,
            DeviceType::PortMultiplier => 0x9669_0101,
        }
    }

    /// The variant that the signature `value` represents, if any.
    pub open spec fn spec_from_u32(value: u32) -> Option<DeviceType> {
        if value == 0x0000_0101 {
            Some(DeviceType::Sata)
        } else if value == 0xeb14_0101 {
            Some(DeviceType::Satapi)
        } else if value == 0xc33c_0101 {
            Some(DeviceType::Semb)
        } else if value == 0x9669_0101 {
            Some(DeviceType::PortMultiplier)
        } else {
            None
        }
    }

    /// The variant that the signature `value` represents, or an error that
    /// carries `value` when no variant does.
    pub fn try_from_u32(value: u32) -> (r: Result<DeviceType, ConversionError<u32>>)
        ensures
            match DeviceType::spec_from_u32(value) {
                Some(t) => r == Ok::<DeviceType, ConversionError<u32>>(t),
                None => r == Err::<DeviceType, ConversionError<u32>>(
                    ConversionError::CantConvertFrom(value),
                ),
            },
    {
        if value == 0x0000_0101 {
            Ok(DeviceType::Sata)
        } else if value == 0xeb14_0101 {
            Ok(DeviceType::Satapi)
        } else if value == 0xc33c_0101 {
            Ok(DeviceType::Semb)
        } else if value == 0x9669_0101 {
            Ok(DeviceType::PortMultiplier)
        } else {
            Err(ConversionError::CantConvertFrom(value))
        }
    }
}

/// The signature register of a port: the first register frame the device
/// sent.
#[derive(Clone, Copy, Debug)]
pub struct Signature {
    pub sector_count: u8,
    pub lba_low: u8,
    pub lba_mid: u8,
    pub lba_high: u8,
}

/// The 32-bit value of the bytes `b0` to `b3`, least significant first.
pub open spec fn le_u32(b0: u8, b1: u8, b2: u8, b3: u8) -> u32 {
    (b0 as u32) | ((b1 as u32) << 8u32) | ((b2 as u32) << 16u32) | ((b3 as u32) << 24u32)
}

impl Signature {
    /// The kind of device the signature names, or an error that carries the
    /// signature when it names none.
    pub fn device_type(&self) -> (r: Result<DeviceType, ConversionError<u32>>)
        ensures
            ({
                let v = le_u32(self.sector_count, self.lba_low, self.lba_mid, self.lba_high);
                match DeviceType::spec_from_u32(v) {
                    Some(t) => r == Ok::<DeviceType, ConversionError<u32>>(t),
                    None => r == Err::<DeviceType, ConversionError<u32>>(
                        ConversionError::CantConvertFrom(v),
                    ),
                }
            }),
    {
        let v = (self.sector_count as u32) | ((self.lba_low as u32) << 8) | ((self.lba_mid as u32)
            << 16) | ((self.lba_high as u32) << 24);
        DeviceType::try_from_u32(v)
    }
}

/// The SATA active register of a port.
#[derive(Clone, Copy, Debug)]
pub struct SataActive(pub u32);

/// The command issue register of a port: bit `i` is set while command slot
/// `i` is issued.
#[derive(Clone, Copy, Debug)]
pub struct CmdIssue(pub u32);

impl CmdIssue {
    /// Issues command slot `cmd`.
    pub fn issue_cmd(&mut self, cmd: u8)
        requires
            cmd < 32,
        ensures
            final(self).0 == old(self).0 | (1u32 << cmd),
    {
        self.0 = self.0 | (1u32 << cmd);
    }
}

impl SataNotification {
    /// Sets the notification bit of the port multiplier port `pm_port`
    /// (bit `pm_port`, for the ports 0 to 14); a larger port leaves the
    /// register unchanged.
    pub fn set_pm_notif(&mut self, pm_port: u8)
        ensures
            pm_port < 15 ==> final(self).bits() == old(self).bits() | (1u64 << pm_port),
            pm_port >= 15 ==> final(self).bits() == old(self).bits(),
    {
        if pm_port < 0xf {
            proof {
                lemma_hba_facts(self.bits(), self.0, pm_port, 0, 0);
            }
            self.0 = self.0 | (1u32 << pm_port);
        }
    }

    /// Whether the notification bit of the port multiplier port `pm_port`
    /// is set; false for a port of 15 or more.
    pub fn get_pm_notif(&self, pm_port: u8) -> (r: bool)
        ensures
            pm_port < 15 ==> r == (self.bits() & (1u64 << pm_port) != 0),
            pm_port >= 15 ==> !r,
    {
        if pm_port < 0xf {
            proof {
                lemma_hba_facts(self.bits(), self.0, pm_port, 0, 0);
            }
            self.0 & (1u32 << pm_port) != 0
        } else {
            false
        }
    }
}

/// Once the notification of a port multiplier port is set, it reads as set,
/// and the notifications of the other ports read as before.
pub proof fn lemma_pm_notif_set_then_get(bits: u64, pm_port: u8, other: u8)
    requires
        pm_port < 15,
    ensures
        (bits | (1u64 << pm_port)) & (1u64 << pm_port) != 0,
        other < 15 && other != pm_port ==> ((bits | (1u64 << pm_port)) & (1u64 << other) != 0) == (bits
            & (1u64 << other) != 0),
{
    lemma_hba_facts(bits, 0, pm_port, other as u32, 0);
}

impl DeviceSleep {
    /// The device sleep idle timeout in milliseconds: the timeout field
    /// times one more than its multiplier.
    pub fn dito_actual_ms(&self) -> (r: u16)
        ensures
            r == field_of(self.bits(), 15, 10) * (field_of(self.bits(), 25, 4) + 1),
    {
        let dito = self.get_dito();
        let mult = self.get_dito_multiplier() as u16;
        proof {
            lemma_hba_facts(self.bits(), 0, 0, 0, 0);
        }
        assert(dito * (mult + 1) <= 1023 * 16) by (nonlinear_arith)
            requires
                dito <= 1023,
                mult <= 15,
        ;
        dito * (mult + 1)
    }
}

/// A vendor specific register of a port.
#[derive(Clone, Copy, Debug)]
pub struct VendorSpecific(pub u32);

/// The registers of a port.
#[derive(Clone, Copy, Debug)]
pub struct PortControlRegisters {
    pub clb: u32,
    pub clbu: u32,
    pub fb: u32,
    pub fbu: u32,
    pub is: PortInterruptStatus,
    pub ie: InterruptEnable,
    pub cmd: CmdStatus,
    pub reserved0: u32,
    pub tfd: TaskFileData,
    pub sig: Signature,
    pub ssts: SataStatus,
    pub sctl: SataControl,
    pub serr: SataError,
    pub sact: SataActive,
    pub ci: CmdIssue,
    pub sntf: SataNotification,
    pub fbs: FisSwitchControl,
    pub devslp: DeviceSleep,
    pub reserved1: [u32; 10],
    pub vs: [VendorSpecific; 4],
}

/// Whether bit `i` of `x` is clear.
pub open spec fn bit_clear(x: u32, i: int) -> bool {
    (x >> i as u32) & 1 == 0
}

impl PortControlRegisters {
    /// The address of the command list of the port: the upper register,
    /// then the lower one with its low 10 bits cleared.
    pub fn cmd_list_address(&self) -> (r: u64)
        ensures
            r == ((self.clbu as u64) << 32u64) | ((self.clb as u64) & !0x3ffu64),
    {
        ((self.clbu as u64) << 32) | ((self.clb as u64) & !0x3ffu64)
    }

    /// Puts the command list at `ptr`: its low half in the lower register,
    /// its high half in the upper one.
    pub fn set_cmd_list_address(&mut self, ptr: u64)
        ensures
            final(self).clb == (ptr & 0xffff_ffff) as u32,
            final(self).clbu == (ptr >> 32u64) as u32,
            final(self).fb == old(self).fb,
            final(self).fbu == old(self).fbu,
    {
        self.clb = (ptr & 0xffffffff) as u32;
        self.clbu = (ptr >> 32) as u32;
    }

    /// The address of the frames the port received: the upper register,
    /// then the lower one with its low 8 bits cleared.
    pub fn received_fis_address(&self) -> (r: u64)
        ensures
            r == ((self.fbu as u64) << 32u64) | ((self.fb as u64) & !0xffu64),
    {
        ((self.fbu as u64) << 32) | ((self.fb as u64) & !0xffu64)
    }

    /// Puts the received frames at `ptr`: its low half in the lower register,
    /// its high half in the upper one.
    pub fn set_received_fis_address(&mut self, ptr: u64)
        ensures
            final(self).fb == (ptr & 0xffff_ffff) as u32,
            final(self).fbu == (ptr >> 32u64) as u32,
            final(self).clb == old(self).clb,
            final(self).clbu == old(self).clbu,
    {
        self.fb = (ptr & 0xffffffff) as u32;
        self.fbu = (ptr >> 32) as u32;
    }

    /// Sets the start bit of the port; for a port number up to 31, writes it
    /// to bits 8 to 12 of the SATA active register.
    pub fn set_status(&mut self, port: u8)
        ensures
            final(self).cmd.bits() == with_field(old(self).cmd.bits(), 0, 1, 1),
            port <= 0x1f ==> final(self).sact.0 == (old(self).sact.0 & !(0x1fu32 << 8u32)) | ((
            port as u32) << 8u32),
            port > 0x1f ==> final(self).sact.0 == old(self).sact.0,
    {
        self.cmd.set_st(true);
        if port <= 0x1f {
            self.sact.0 = self.sact.0 & !(0x1f << 8);
            self.sact.0 = self.sact.0 | ((port as u32) << 8);
        }
    }

    /// The first command slot that is neither issued nor active, if any.
    pub fn find_cmd_slot(&self) -> (r: Option<usize>)
        ensures
            match r {
                Some(i) => i < 32 && bit_clear(self.ci.0 | self.sact.0, i as int) && forall|j: int|
                    0 <= j < i ==> !bit_clear(self.ci.0 | self.sact.0, j),
                None => forall|j: int| 0 <= j < 32 ==> !bit_clear(self.ci.0 | self.sact.0, j),
            },
    {
        let all = self.ci.0 | self.sact.0;
        let mut slots = all;
        proof {
            lemma_hba_facts(0, all, 0, 0, 0);
        }
        let mut i: usize = 0;
        while i < 32
            invariant
                i <= 32,
                all == self.ci.0 | self.sact.0,
                slots == all >> i as u32,
                forall|j: int| 0 <= j < i ==> !bit_clear(all, j),
            decreases 32 - i,
        {
            if slots & 1 == 0 {
                return Some(i);
            } else {
                proof {
                    lemma_hba_facts(0, all, 0, i as u32, 0);
                }
                slots = slots >> 1;
            }
            i = i + 1;
        }
        None
    }
}

/// The frames a port received, where the port writes them.
#[derive(Clone, Copy, Debug)]
pub struct ReceivedFis {
    pub dsfis: DmaSetup,
    pub reserved0: u32,
    pub psfis: PioSetupD2H,
    pub reserved1: [u32; 3],
    pub rfis: RegisterD2H,
    pub reserved2: u32,
    pub sdbfis: SetDeviceBits,
    pub ufis: [u8; 64],
    pub reserved3: [u32; 24],
}

/// A command header of the command list of a port.
#[derive(Clone, Copy, Debug)]
pub struct CmdHeader {
    pub info: CmdListDescriptionInfo,
    pub prdb_byte_count: u32,
    pub ctba: u32,
    pub ctbau: u32,
    pub reserved: [u32; 4],
}

impl CmdHeader {
    /// The address of the command table of the header.
    pub fn cmd_table_address(&self) -> (r: u64)
        ensures
            r == ((self.ctbau as u64) << 32u64) | (self.ctba as u64),
    {
        ((self.ctbau as u64) << 32) | (self.ctba as u64)
    }

    /// Puts the command table at `ptr`: its low half in the lower register,
    /// its high half in the upper one.
    pub fn set_cmd_table(&mut self, ptr: u64)
        ensures
            final(self).ctba == (ptr & 0xffff_ffff) as u32,
            final(self).ctbau == (ptr >> 32u64) as u32,
            final(self).info == old(self).info,
            final(self).prdb_byte_count == old(self).prdb_byte_count,
    {
        self.ctba = (ptr & 0xffffffff) as u32;
        self.ctbau = (ptr >> 32) as u32;
    }
}

/// The command list of a port: 32 command headers.
#[derive(Clone, Copy, Debug)]
pub struct CmdList {
    pub entries: [CmdHeader; 32],
}

impl PrdtDescriptionInfo {
    /// Sets the byte count of the region, which must be below 4 MiB; the
    /// count is stored with its low bit set.
    pub fn set_dbc_checked(&mut self, dbc: u32)
        requires
            dbc < 4 * (1u32 << 20u32),
        ensures
            final(self).bits() == with_field(old(self).bits(), 0, 22, (dbc | 1) as u64),
    {
        proof {
            lemma_hba_facts(0, 0, 0, 0, dbc);
        }
        self.set_dbc(dbc | 1);
    }
}

/// An entry of the region table of a command: the address of a data buffer
/// and its byte count.
#[derive(Clone, Copy, Debug)]
pub struct CmdTableEntry {
    pub dba: u32,
    pub dbau: u32,
    pub reserved: u32,
    pub dbc: PrdtDescriptionInfo,
}

impl CmdTableEntry {
    /// Puts the data buffer at `buf`: its low half in the lower register, its
    /// high half in the upper one.
    pub fn set_buffer(&mut self, buf: u64)
        ensures
            final(self).dba == (buf & 0xffff_ffff) as u32,
            final(self).dbau == (buf >> 32u64) as u32,
            final(self).dbc == old(self).dbc,
    {
        self.dba = (buf & 0xffffffff) as u32;
        self.dbau = (buf >> 32) as u32;
    }
}

/// A command table: the command frame, the ATAPI command, and `ENTRIES`
/// region entries.
#[derive(Clone, Copy, Debug)]
pub struct CmdTable<const ENTRIES: usize> {
    pub cfis: [u8; 64],
    pub acmd: [u8; 0x10],
    pub reserved: [u8; 0x30],
    pub table: [CmdTableEntry; ENTRIES],
}

/// The memory registers of the host bus adapter: the generic host control,
/// the vendor registers, and 30 ports.
#[derive(Clone, Copy, Debug)]
pub struct HBAMemoryRegisters {
    pub ghc: GenericHostControl,
    pub reserved: [u8; 0x60],
    pub vsr: VendorSpecificRegisters,
    pub ports: [PortControlRegisters; 30],
}

impl HBAMemoryRegisters {
    /// Where the kernel sees the registers at the physical address `a`,
    /// which must be aligned to a regular page; turns on AHCI mode and
    /// interrupts in `ghc`, the generic host control registers found there.
    /// No more than 31 ports may be implemented, and the BIOS may not own the
    /// controller.
    pub fn new(a: PhysicalAddress, ghc: &mut GenericHostControl) -> (r: Result<
        VirtualAddress,
        HbaError,
    >)
        requires
            aligned_to(a@, REGULAR_PAGE_SIZE as u64) ==> {
                &&& a@ + PHYSICAL_MEMORY_OFFSET <= u64::MAX
                &&& old(ghc).pi.0 < (1u32 << 31u32)
                &&& field_of(old(ghc).cap_ext.bits(), 0, 1) != 1
            },
        ensures
            !aligned_to(a@, REGULAR_PAGE_SIZE as u64) ==> r == Err::<VirtualAddress, HbaError>(
                HbaError::AddressNotAligned,
            ) && *final(ghc) == *old(ghc),
            aligned_to(a@, REGULAR_PAGE_SIZE as u64) ==> (r matches Ok(v) && v@ == a@
                + PHYSICAL_MEMORY_OFFSET),
            aligned_to(a@, REGULAR_PAGE_SIZE as u64) ==> final(ghc).ghc.bits() == with_field(
                with_field(old(ghc).ghc.bits(), 31, 1, 1),
                1,
                1,
                1,
            ),
    {
        if !a.is_aligned(Alignment::regular_page()) {
            return Err(HbaError::AddressNotAligned);
        }
        let hba_address = a.translate();
        ghc.ghc.set_ae(true);
        ghc.ghc.set_ie(true);
        if ghc.pi.0 >= (1u32 << 31) {
            vstd::pervasive::unreached::<()>();
        }
        if ghc.cap_ext.is_boh() {
            vstd::pervasive::unreached::<()>();
        }
        Ok(hba_address)
    }
}

} // verus!
