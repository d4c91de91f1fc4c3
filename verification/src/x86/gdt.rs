//! The global descriptor table: segment descriptors, the tables the kernel
//! loads in protected and in long mode, and the register that points at
//! them.
use vstd::prelude::*;

use crate::common::bitfield::{
    field_of, lemma_masks, lemma_with_field, lemma_with_field_fits, low_mask, or_field, read_field, set_field_bits,
    set_field_bits_u16, set_field_bits_u32, set_field_bits_u8, with_field, write_field,
    write_field_u16, write_field_u32, write_field_u8,
};
use crate::common::enums::{ProtectionLevel, Sections, SegmentDescriptorType, SystemSegmentType};
use crate::x86::segments::SegmentSelector;

verus! {

/// The access byte of a code or data segment descriptor.
#[derive(Clone, Copy, Debug, PartialEq, Eq, Structural)]
pub struct AccessByte(u8);

impl AccessByte {
    /// The raw bits of the register.
    pub closed spec fn bits(&self) -> u64 {
        self.0 as u64
    }

    /// A register with every bit cleared.
    pub fn new() -> (r: AccessByte)
        ensures
            r.bits() == 0,
    {
        AccessByte(0)
    }

    /// The register that holds `bits`.
    pub fn from_bits(bits: u8) -> (r: AccessByte)
        ensures
            r.bits() == bits as u64,
    {
        AccessByte(bits)
    }

    /// The raw bits of the register.
    pub fn as_u8(&self) -> (r: u8)
        ensures
            r as u64 == self.bits(),
    {
        self.0
    }

    /// Whether the accessed bit is set.
    pub fn is_accessed(&self) -> (r: bool)
        ensures
            r == (field_of(self.bits(), 0, 1) == 1),
    {
        read_field(self.0 as u64, 0, 1) == 1
    }

    /// Whether the readable or writable bit is set.
    pub fn is_readable_writable(&self) -> (r: bool)
        ensures
            r == (field_of(self.bits(), 1, 1) == 1),
    {
        read_field(self.0 as u64, 1, 1) == 1
    }

    /// Writes the readable or writable field, keeping every other bit.
    pub fn set_readable_writable(&mut self, v: bool)
        ensures
            final(self).bits() == with_field(old(self).bits(), 1, 1, if v { 1u64 } else { 0u64 }),
    {
        proof {
            lemma_masks();
        }
        self.0 = write_field_u8(self.0, 1, 1, if v { 1u64 } else { 0u64 });
    }

    /// This register with the bits of `v` set in the readable or writable field.
    pub fn readable_writable(self, v: bool) -> (r: AccessByte)
        ensures
            r.bits() == or_field(self.bits(), 1, if v { 1u64 } else { 0u64 }),
    {
        proof {
            lemma_masks();
        }
        AccessByte(set_field_bits_u8(self.0, 1, 1, if v { 1u64 } else { 0u64 }))
    }

    /// Whether the direction or conforming bit is set.
    pub fn is_direction_conforming(&self) -> (r: bool)
        ensures
            r == (field_of(self.bits(), 2, 1) == 1),
    {
        read_field(self.0 as u64, 2, 1) == 1
    }

    /// Writes the direction or conforming field, keeping every other bit.
    pub fn set_direction_conforming(&mut self, v: bool)
        ensures
            final(self).bits() == with_field(old(self).bits(), 2, 1, if v { 1u64 } else { 0u64 }),
    {
        proof {
            lemma_masks();
        }
        self.0 = write_field_u8(self.0, 2, 1, if v { 1u64 } else { 0u64 });
    }

    /// This register with the bits of `v` set in the direction or conforming field.
    pub fn direction_conforming(self, v: bool) -> (r: AccessByte)
        ensures
            r.bits() == or_field(self.bits(), 2, if v { 1u64 } else { 0u64 }),
    {
        proof {
            lemma_masks();
        }
        AccessByte(set_field_bits_u8(self.0, 2, 1, if v { 1u64 } else { 0u64 }))
    }

    /// Whether the executable bit is set.
    pub fn is_executable(&self) -> (r: bool)
        ensures
            r == (field_of(self.bits(), 3, 1) == 1),
    {
        read_field(self.0 as u64, 3, 1) == 1
    }

    /// Writes the executable field, keeping every other bit.
    pub fn set_executable(&mut self, v: bool)
        ensures
            final(self).bits() == with_field(old(self).bits(), 3, 1, if v { 1u64 } else { 0u64 }),
    {
        proof {
            lemma_masks();
        }
        self.0 = write_field_u8(self.0, 3, 1, if v { 1u64 } else { 0u64 });
    }

    /// This register with the bits of `v` set in the executable field.
    pub fn executable(self, v: bool) -> (r: AccessByte)
        ensures
            r.bits() == or_field(self.bits(), 3, if v { 1u64 } else { 0u64 }),
    {
        proof {
            lemma_masks();
        }
        AccessByte(set_field_bits_u8(self.0, 3, 1, if v { 1u64 } else { 0u64 }))
    }

    /// The descriptor type field; it must hold a value that a variant of `SegmentDescriptorType` stands for.
    pub fn get_segment_type(&self) -> (r: SegmentDescriptorType)
        requires
            SegmentDescriptorType::spec_from_u8(field_of(self.bits(), 4, 1) as u8) is Some,
        ensures
            r.spec_as_u8() as u64 == field_of(self.bits(), 4, 1),
    {
        let field = read_field(self.0 as u64, 4, 1);
        proof {
            lemma_masks();
        }
        let raw = field as u8;
        match SegmentDescriptorType::try_from_u8(raw) {
            Ok(v) => v,
            Err(_) => vstd::pervasive::unreached(),
        }
    }

    /// Writes the descriptor type field, keeping every other bit.
    pub fn set_segment_type(&mut self, v: SegmentDescriptorType)
        ensures
            final(self).bits() == with_field(old(self).bits(), 4, 1, v.spec_as_u8() as u64),
    {
        proof {
            lemma_masks();
        }
        self.0 = write_field_u8(self.0, 4, 1, v.as_u8() as u64);
    }

    /// This register with the bits of `v` set in the descriptor type field.
    pub fn segment_type(self, v: SegmentDescriptorType) -> (r: AccessByte)
        ensures
            r.bits() == or_field(self.bits(), 4, v.spec_as_u8() as u64),
    {
        proof {
            lemma_masks();
        }
        AccessByte(set_field_bits_u8(self.0, 4, 1, v.as_u8() as u64))
    }

    /// The descriptor privilege level field; it must hold a value that a variant of `ProtectionLevel` stands for.
    pub fn get_dpl(&self) -> (r: ProtectionLevel)
        requires
            ProtectionLevel::spec_from_u8(field_of(self.bits(), 5, 2) as u8) is Some,
        ensures
            r.spec_as_u8() as u64 == field_of(self.bits(), 5, 2),
    {
        let field = read_field(self.0 as u64, 5, 2);
        proof {
            lemma_masks();
        }
        let raw = field as u8;
        match ProtectionLevel::try_from_u8(raw) {
            Ok(v) => v,
            Err(_) => vstd::pervasive::unreached(),
        }
    }

    /// Writes the descriptor privilege level field, keeping every other bit.
    pub fn set_dpl(&mut self, v: ProtectionLevel)
        ensures
            final(self).bits() == with_field(old(self).bits(), 5, 2, v.spec_as_u8() as u64),
    {
        proof {
            lemma_masks();
        }
        self.0 = write_field_u8(self.0, 5, 2, v.as_u8() as u64);
    }

    /// This register with the bits of `v` set in the descriptor privilege level field.
    pub fn dpl(self, v: ProtectionLevel) -> (r: AccessByte)
        ensures
            r.bits() == or_field(self.bits(), 5, v.spec_as_u8() as u64),
    {
        proof {
            lemma_masks();
        }
        AccessByte(set_field_bits_u8(self.0, 5, 2, v.as_u8() as u64))
    }

    /// Whether the present bit is set.
    pub fn is_present(&self) -> (r: bool)
        ensures
            r == (field_of(self.bits(), 7, 1) == 1),
    {
        read_field(self.0 as u64, 7, 1) == 1
    }

    /// Writes the present field, keeping every other bit.
    pub fn set_present(&mut self, v: bool)
        ensures
            final(self).bits() == with_field(old(self).bits(), 7, 1, if v { 1u64 } else { 0u64 }),
    {
        proof {
            lemma_masks();
        }
        self.0 = write_field_u8(self.0, 7, 1, if v { 1u64 } else { 0u64 });
    }

    /// This register with the bits of `v` set in the present field.
    pub fn present(self, v: bool) -> (r: AccessByte)
        ensures
            r.bits() == or_field(self.bits(), 7, if v { 1u64 } else { 0u64 }),
    {
        proof {
            lemma_masks();
        }
        AccessByte(set_field_bits_u8(self.0, 7, 1, if v { 1u64 } else { 0u64 }))
    }


}

/// The byte of a segment descriptor that holds the high four bits of the limit (low nibble) and the flags (high nibble).
#[derive(Clone, Copy, Debug, PartialEq, Eq, Structural)]
pub struct LimitFlags(u8);

impl LimitFlags {
    /// The raw bits of the register.
    pub closed spec fn bits(&self) -> u64 {
        self.0 as u64
    }

    /// A register with every bit cleared.
    pub fn new() -> (r: LimitFlags)
        ensures
            r.bits() == 0,
    {
        LimitFlags(0)
    }

    /// The register that holds `bits`.
    pub fn from_bits(bits: u8) -> (r: LimitFlags)
        ensures
            r.bits() == bits as u64,
    {
        LimitFlags(bits)
    }

    /// The raw bits of the register.
    pub fn as_u8(&self) -> (r: u8)
        ensures
            r as u64 == self.bits(),
    {
        self.0
    }

    /// The high four bits of the limit field.
    pub fn get_limit_high(&self) -> (r: u8)
        ensures
            r as u64 == field_of(self.bits(), 0, 4),
    {
        let field = read_field(self.0 as u64, 0, 4);
        proof {
            lemma_masks();
        }
        field as u8
    }

    /// Writes the high four bits of the limit field, keeping every other bit.
    pub fn set_limit_high(&mut self, v: u8)
        requires
            (v as u64) <= low_mask(4),
        ensures
            final(self).bits() == with_field(old(self).bits(), 0, 4, v as u64),
    {
        proof {
            assert((v as u64) <= low_mask(4));
        }
        self.0 = write_field_u8(self.0, 0, 4, v as u64);
    }

    /// This register with the bits of `v` set in the high four bits of the limit field.
    pub fn limit_high(self, v: u8) -> (r: LimitFlags)
        requires
            (v as u64) <= low_mask(4),
        ensures
            r.bits() == or_field(self.bits(), 0, v as u64),
    {
        proof {
            assert((v as u64) <= low_mask(4));
        }
        LimitFlags(set_field_bits_u8(self.0, 0, 4, v as u64))
    }

    /// Whether the reserved bit is set.
    pub fn is_reserved(&self) -> (r: bool)
        ensures
            r == (field_of(self.bits(), 4, 1) == 1),
    {
        read_field(self.0 as u64, 4, 1) == 1
    }

    /// Whether the 64-bit code bit is set.
    pub fn is_long(&self) -> (r: bool)
        ensures
            r == (field_of(self.bits(), 5, 1) == 1),
    {
        read_field(self.0 as u64, 5, 1) == 1
    }

    /// Writes the 64-bit code field, keeping every other bit.
    pub fn set_long(&mut self, v: bool)
        ensures
            final(self).bits() == with_field(old(self).bits(), 5, 1, if v { 1u64 } else { 0u64 }),
    {
        proof {
            lemma_masks();
        }
        self.0 = write_field_u8(self.0, 5, 1, if v { 1u64 } else { 0u64 });
    }

    /// This register with the bits of `v` set in the 64-bit code field.
    pub fn long(self, v: bool) -> (r: LimitFlags)
        ensures
            r.bits() == or_field(self.bits(), 5, if v { 1u64 } else { 0u64 }),
    {
        proof {
            lemma_masks();
        }
        LimitFlags(set_field_bits_u8(self.0, 5, 1, if v { 1u64 } else { 0u64 }))
    }

    /// Whether the 32-bit protected mode bit is set.
    pub fn is_protected(&self) -> (r: bool)
        ensures
            r == (field_of(self.bits(), 6, 1) == 1),
    {
        read_field(self.0 as u64, 6, 1) == 1
    }

    /// Writes the 32-bit protected mode field, keeping every other bit.
    pub fn set_protected(&mut self, v: bool)
        ensures
            final(self).bits() == with_field(old(self).bits(), 6, 1, if v { 1u64 } else { 0u64 }),
    {
        proof {
            lemma_masks();
        }
        self.0 = write_field_u8(self.0, 6, 1, if v { 1u64 } else { 0u64 });
    }

    /// This register with the bits of `v` set in the 32-bit protected mode field.
    pub fn protected(self, v: bool) -> (r: LimitFlags)
        ensures
            r.bits() == or_field(self.bits(), 6, if v { 1u64 } else { 0u64 }),
    {
        proof {
            lemma_masks();
        }
        LimitFlags(set_field_bits_u8(self.0, 6, 1, if v { 1u64 } else { 0u64 }))
    }

    /// Whether the 4 KiB granularity bit is set.
    pub fn is_granularity(&self) -> (r: bool)
        ensures
            r == (field_of(self.bits(), 7, 1) == 1),
    {
        read_field(self.0 as u64, 7, 1) == 1
    }

    /// Writes the 4 KiB granularity field, keeping every other bit.
    pub fn set_granularity(&mut self, v: bool)
        ensures
            final(self).bits() == with_field(old(self).bits(), 7, 1, if v { 1u64 } else { 0u64 }),
    {
        proof {
            lemma_masks();
        }
        self.0 = write_field_u8(self.0, 7, 1, if v { 1u64 } else { 0u64 });
    }

    /// This register with the bits of `v` set in the 4 KiB granularity field.
    pub fn granularity(self, v: bool) -> (r: LimitFlags)
        ensures
            r.bits() == or_field(self.bits(), 7, if v { 1u64 } else { 0u64 }),
    {
        proof {
            lemma_masks();
        }
        LimitFlags(set_field_bits_u8(self.0, 7, 1, if v { 1u64 } else { 0u64 }))
    }


}

/// The access byte of a system segment descriptor.
#[derive(Clone, Copy, Debug, PartialEq, Eq, Structural)]
pub struct SystemAccessByte(u8);

impl SystemAccessByte {
    /// The raw bits of the register.
    pub closed spec fn bits(&self) -> u64 {
        self.0 as u64
    }

    /// A register with every bit cleared.
    pub fn new() -> (r: SystemAccessByte)
        ensures
            r.bits() == 0,
    {
        SystemAccessByte(0)
    }

    /// The register that holds `bits`.
    pub fn from_bits(bits: u8) -> (r: SystemAccessByte)
        ensures
            r.bits() == bits as u64,
    {
        SystemAccessByte(bits)
    }

    /// The raw bits of the register.
    pub fn as_u8(&self) -> (r: u8)
        ensures
            r as u64 == self.bits(),
    {
        self.0
    }

    /// The system segment type field; it must hold a value that a variant of `SystemSegmentType` stands for.
    pub fn get_segment_type(&self) -> (r: SystemSegmentType)
        requires
            SystemSegmentType::spec_from_u8(field_of(self.bits(), 0, 4) as u8) is Some,
        ensures
            r.spec_as_u8() as u64 == field_of(self.bits(), 0, 4),
    {
        let field = read_field(self.0 as u64, 0, 4);
        proof {
            lemma_masks();
        }
        let raw = field as u8;
        match SystemSegmentType::try_from_u8(raw) {
            Ok(v) => v,
            Err(_) => vstd::pervasive::unreached(),
        }
    }

    /// Writes the system segment type field, keeping every other bit.
    pub fn set_segment_type(&mut self, v: SystemSegmentType)
        ensures
            final(self).bits() == with_field(old(self).bits(), 0, 4, v.spec_as_u8() as u64),
    {
        proof {
            lemma_masks();
        }
        self.0 = write_field_u8(self.0, 0, 4, v.as_u8() as u64);
    }

    /// This register with the bits of `v` set in the system segment type field.
    pub fn segment_type(self, v: SystemSegmentType) -> (r: SystemAccessByte)
        ensures
            r.bits() == or_field(self.bits(), 0, v.spec_as_u8() as u64),
    {
        proof {
            lemma_masks();
        }
        SystemAccessByte(set_field_bits_u8(self.0, 0, 4, v.as_u8() as u64))
    }

    /// Whether the zero bit is set.
    pub fn is_zero(&self) -> (r: bool)
        ensures
            r == (field_of(self.bits(), 4, 1) == 1),
    {
        read_field(self.0 as u64, 4, 1) == 1
    }

    /// Clears the zero field.
    pub fn clear_zero(&mut self)
        ensures
            final(self).bits() == with_field(old(self).bits(), 4, 1, 0),
    {
        proof {
            assert((0u8 as u64) <= low_mask(1));
        }
        self.0 = write_field_u8(self.0, 4, 1, 0);
    }

    /// The descriptor privilege level field; it must hold a value that a variant of `ProtectionLevel` stands for.
    pub fn get_dpl(&self) -> (r: ProtectionLevel)
        requires
            ProtectionLevel::spec_from_u8(field_of(self.bits(), 5, 2) as u8) is Some,
        ensures
            r.spec_as_u8() as u64 == field_of(self.bits(), 5, 2),
    {
        let field = read_field(self.0 as u64, 5, 2);
        proof {
            lemma_masks();
        }
        let raw = field as u8;
        match ProtectionLevel::try_from_u8(raw) {
            Ok(v) => v,
            Err(_) => vstd::pervasive::unreached(),
        }
    }

    /// Writes the descriptor privilege level field, keeping every other bit.
    pub fn set_dpl(&mut self, v: ProtectionLevel)
        ensures
            final(self).bits() == with_field(old(self).bits(), 5, 2, v.spec_as_u8() as u64),
    {
        proof {
            lemma_masks();
        }
        self.0 = write_field_u8(self.0, 5, 2, v.as_u8() as u64);
    }

    /// This register with the bits of `v` set in the descriptor privilege level field.
    pub fn dpl(self, v: ProtectionLevel) -> (r: SystemAccessByte)
        ensures
            r.bits() == or_field(self.bits(), 5, v.spec_as_u8() as u64),
    {
        proof {
            lemma_masks();
        }
        SystemAccessByte(set_field_bits_u8(self.0, 5, 2, v.as_u8() as u64))
    }

    /// Whether the present bit is set.
    pub fn is_present(&self) -> (r: bool)
        ensures
            r == (field_of(self.bits(), 7, 1) == 1),
    {
        read_field(self.0 as u64, 7, 1) == 1
    }

    /// Writes the present field, keeping every other bit.
    pub fn set_present(&mut self, v: bool)
        ensures
            final(self).bits() == with_field(old(self).bits(), 7, 1, if v { 1u64 } else { 0u64 }),
    {
        proof {
            lemma_masks();
        }
        self.0 = write_field_u8(self.0, 7, 1, if v { 1u64 } else { 0u64 });
    }

    /// This register with the bits of `v` set in the present field.
    pub fn present(self, v: bool) -> (r: SystemAccessByte)
        ensures
            r.bits() == or_field(self.bits(), 7, if v { 1u64 } else { 0u64 }),
    {
        proof {
            lemma_masks();
        }
        SystemAccessByte(set_field_bits_u8(self.0, 7, 1, if v { 1u64 } else { 0u64 }))
    }


}

/// The 64 bits of a segment descriptor, low bytes first: bits 0 to 15 of
/// the limit, bits 0 to 23 of the base, the access byte, the byte that holds
/// bits 16 to 19 of the limit and the flags, and bits 24 to 31 of the base.
pub open spec fn descriptor_bits(
    limit_low: u16,
    base_low: u16,
    base_mid: u8,
    access: u8,
    limit_flags: u8,
    base_high: u8,
) -> u64 {
    (limit_low as u64) | ((base_low as u64) << 16u64) | ((base_mid as u64) << 32u64) | ((
    access as u64) << 40u64) | ((limit_flags as u64) << 48u64) | ((base_high as u64) << 56u64)
}

/// The descriptor of a segment at `base` with `limit`, the access byte
/// `access` and the flags `flags` (their high nibble).
pub open spec fn segment_descriptor(base: u32, limit: u32, access: u8, flags: u8) -> u64 {
    descriptor_bits(
        (limit & 0xffff) as u16,
        (base & 0xffff) as u16,
        ((base >> 16u32) & 0xff) as u8,
        access,
        flags | (((limit >> 16u32) & 0xf) as u8),
        ((base >> 24u32) & 0xff) as u8,
    )
}

/// The two 8-byte words of the descriptor of a present system segment of
/// privilege level 0 at `base` with `limit` and the type `segment_type`.
pub open spec fn system_descriptor(base: u64, limit: u32, segment_type: SystemSegmentType) -> (
    u64,
    u64,
) {
    (
        descriptor_bits(
            (limit & 0xffff) as u16,
            (base & 0xffff) as u16,
            ((base >> 16u64) & 0xff) as u8,
            0x80u8 | segment_type.spec_as_u8(),
            ((limit >> 16u32) & 0xf) as u8,
            ((base >> 24u64) & 0xff) as u8,
        ),
        base >> 32u64,
    )
}

/// A code or data segment descriptor.
#[derive(Clone, Copy, Debug)]
pub struct GlobalDescriptorTableEntry32 {
    limit_low: u16,
    base_low: u16,
    base_mid: u8,
    access_byte: AccessByte,
    limit_flags: LimitFlags,
    base_high: u8,
}

impl GlobalDescriptorTableEntry32 {
    /// The descriptor as the processor reads it.
    pub closed spec fn value(&self) -> u64 {
        descriptor_bits(
            self.limit_low,
            self.base_low,
            self.base_mid,
            self.access_byte.bits() as u8,
            self.limit_flags.bits() as u8,
            self.base_high,
        )
    }

    /// The descriptor of a segment at `base` with `limit`, the access byte
    /// `access_byte` and the flags of `flags`; the high four bits of the
    /// limit go with the flags.
    pub fn new(base: u32, limit: u32, access_byte: AccessByte, flags: LimitFlags) -> (r:
        GlobalDescriptorTableEntry32)
        ensures
            r.value() == segment_descriptor(
                base,
                limit,
                access_byte.bits() as u8,
                flags.bits() as u8,
            ),
    {
        let base_low = (base & 0xffff) as u16;
        let base_mid = ((base >> 0x10) & 0xff) as u8;
        let base_high = ((base >> 0x18) & 0xff) as u8;
        let limit_low = (limit & 0xffff) as u16;
        let limit_high = ((limit >> 0x10) & 0xf) as u8;
        let limit_flags = flags.as_u8() | limit_high;
        GlobalDescriptorTableEntry32 {
            limit_low,
            base_low,
            base_mid,
            access_byte,
            limit_flags: LimitFlags::from_bits(limit_flags),
            base_high,
        }
    }

    /// The descriptor as the processor reads it.
    pub fn as_u64(&self) -> (r: u64)
        ensures
            r == self.value(),
    {
        (self.limit_low as u64) | ((self.base_low as u64) << 16) | ((self.base_mid as u64) << 32)
            | ((self.access_byte.as_u8() as u64) << 40) | ((self.limit_flags.as_u8() as u64)
            << 48) | ((self.base_high as u64) << 56)
    }
}

impl Default for GlobalDescriptorTableEntry32 {
    /// The null descriptor: every bit cleared.
    fn default() -> (r: GlobalDescriptorTableEntry32)
        ensures
            r.value() == 0,
    {
        let r = GlobalDescriptorTableEntry32 {
            limit_low: 0,
            base_low: 0,
            base_mid: 0,
            access_byte: AccessByte::new(),
            limit_flags: LimitFlags::new(),
            base_high: 0,
        };
        proof {
            lemma_descriptor_facts(0, 0, 0);
        }
        r
    }
}

/// The register that `lgdt` loads: the size of the table less one, and its
/// address.
#[derive(Clone, Copy, Debug)]
pub struct GlobalDescriptorTableRegister {
    pub limit: u16,
    pub base: u64,
}

/// A system segment descriptor of long mode: 16 bytes, the last 8 holding
/// the high half of the base.
#[derive(Clone, Copy, Debug)]
pub struct SystemSegmentDescriptor64 {
    limit_low: u16,
    base_low: u16,
    base_mid: u8,
    access_byte: SystemAccessByte,
    limit_flags: LimitFlags,
    base_high: u8,
    base_extra: u32,
    reserved: u32,
}

impl SystemSegmentDescriptor64 {
    /// The first 8 bytes of the descriptor as the processor reads them.
    pub closed spec fn value_low(&self) -> u64 {
        descriptor_bits(
            self.limit_low,
            self.base_low,
            self.base_mid,
            self.access_byte.bits() as u8,
            self.limit_flags.bits() as u8,
            self.base_high,
        )
    }

    /// The last 8 bytes of the descriptor as the processor reads them.
    pub closed spec fn value_high(&self) -> u64 {
        (self.base_extra as u64) | ((self.reserved as u64) << 32u64)
    }

    /// The descriptor of a present system segment of privilege level 0 at
    /// `base` with `limit` and the type `segment_type`.
    pub fn new(base: u64, limit: u32, segment_type: SystemSegmentType) -> (r:
        SystemSegmentDescriptor64)
        ensures
            r.value_low() == system_descriptor(base, limit, segment_type).0,
            r.value_high() == system_descriptor(base, limit, segment_type).1,
    {
        let base_low = (base & 0xffff) as u16;
        let base_mid = ((base >> 16) & 0xff) as u8;
        let base_high = ((base >> 24) & 0xff) as u8;
        let limit_low = (limit & 0xffff) as u16;
        let ghost t = segment_type.spec_as_u8();
        proof {
            lemma_descriptor_facts(base, limit, t);
        }
        let lh = (limit >> 16) & 0xf;
        let limit_high = lh as u8;
        let base_extra = (base >> 32) as u32;
        let access_byte = SystemAccessByte::new().present(true).dpl(ProtectionLevel::Ring0).segment_type(
            segment_type,
        );
        let r = SystemSegmentDescriptor64 {
            limit_low,
            base_low,
            base_mid,
            access_byte,
            limit_flags: LimitFlags::from_bits(limit_high),
            base_high,
            base_extra,
            reserved: 0,
        };
        r
    }

    /// The descriptor as the processor reads it: the first and the last 8
    /// bytes.
    pub fn as_u64_pair(&self) -> (r: (u64, u64))
        ensures
            r.0 == self.value_low(),
            r.1 == self.value_high(),
    {
        (
            (self.limit_low as u64) | ((self.base_low as u64) << 16) | ((self.base_mid as u64)
                << 32) | ((self.access_byte.as_u8() as u64) << 40) | ((self.limit_flags.as_u8()
                as u64) << 48) | ((self.base_high as u64) << 56),
            (self.base_extra as u64) | ((self.reserved as u64) << 32),
        )
    }
}

impl Default for SystemSegmentDescriptor64 {
    /// A descriptor with every bit cleared.
    fn default() -> (r: SystemSegmentDescriptor64)
        ensures
            r.value_low() == 0,
            r.value_high() == 0,
    {
        let r = SystemSegmentDescriptor64 {
            limit_low: 0,
            base_low: 0,
            base_mid: 0,
            access_byte: SystemAccessByte::new(),
            limit_flags: LimitFlags::new(),
            base_high: 0,
            base_extra: 0,
            reserved: 0,
        };
        proof {
            lemma_descriptor_facts(0, 0, 0);
        }
        r
    }
}

/// The bit arithmetic the descriptors of the tables rely on.
proof fn lemma_descriptor_facts(base: u64, limit: u32, t: u8)
    by (bit_vector)
    ensures
        descriptor_bits(0, 0, 0, 0, 0, 0) == 0,
        (0u32 as u64) | ((0u32 as u64) << 32u64) == 0,
        ((limit >> 16u32) & 0xf) < 16,
        t <= 15 ==> or_field(or_field(or_field(0, 7, 1), 5, 0), 0, t as u64) == (0x80u8 | t) as u64,
        ((base >> 32u64) as u32) as u64 | ((0u32 as u64) << 32u64) == base >> 32u64,
        or_field(or_field(or_field(or_field(or_field(0, 4, 1), 7, 1), 5, 0), 1, 1), 3, 1) == 0x9a,
        or_field(or_field(or_field(or_field(or_field(0, 4, 1), 7, 1), 5, 3), 1, 1), 3, 1) == 0xfa,
        or_field(or_field(or_field(or_field(0, 4, 1), 7, 1), 5, 0), 1, 1) == 0x92,
        or_field(or_field(or_field(or_field(0, 4, 1), 7, 1), 5, 3), 1, 1) == 0xf2,
        or_field(or_field(or_field(or_field(or_field(0, 7, 1), 5, 0), 4, 1), 3, 1), 1, 1) == 0x9a,
        or_field(or_field(or_field(or_field(0, 7, 1), 5, 0), 4, 1), 1, 1) == 0x92,
        or_field(or_field(0, 7, 1), 6, 1) == 0xc0,
        or_field(0, 5, 1) == 0x20,
        segment_descriptor(0, 0xfffff, 0x9a, 0xc0) == 0x00cf_9a00_0000_ffffu64,
        segment_descriptor(0, 0xfffff, 0x92, 0xc0) == 0x00cf_9200_0000_ffffu64,
        segment_descriptor(0, 0, 0x9a, 0x20) == 0x0020_9a00_0000_0000u64,
        segment_descriptor(0, 0, 0x92, 0) == 0x0000_9200_0000_0000u64,
        segment_descriptor(0, 0, 0xfa, 0x20) == 0x0020_fa00_0000_0000u64,
        segment_descriptor(0, 0, 0xf2, 0) == 0x0000_f200_0000_0000u64,
        or_field(or_field(0, 0, 0), 3, 0x28) == 0x140,
{
}

/// The temporary table of protected mode: the null descriptor, then a code
/// and a data segment that span the 4 GiB address space.
#[derive(Clone, Copy, Debug)]
pub struct GlobalDescriptorTableProtected {
    null: GlobalDescriptorTableEntry32,
    code: GlobalDescriptorTableEntry32,
    data: GlobalDescriptorTableEntry32,
}

impl GlobalDescriptorTableProtected {
    /// The descriptors of the table, in order, as the processor reads them.
    pub closed spec fn descriptors(&self) -> Seq<u64> {
        seq![self.null.value(), self.code.value(), self.data.value()]
    }

    /// The table of protected mode: a null descriptor, then code (access
    /// byte 0x9a) and data (0x92) segments of privilege level 0 at base 0
    /// with limit 0xfffff in 4 KiB units, in 32-bit mode.
    pub fn default() -> (r: GlobalDescriptorTableProtected)
        ensures
            r.descriptors() == seq![0u64, 0x00cf_9a00_0000_ffffu64, 0x00cf_9200_0000_ffffu64],
    {
        let code_access = AccessByte::new().present(true).dpl(ProtectionLevel::Ring0).segment_type(
            SegmentDescriptorType::CodeOrData,
        ).executable(true).readable_writable(true);
        let data_access = AccessByte::new().present(true).dpl(ProtectionLevel::Ring0).segment_type(
            SegmentDescriptorType::CodeOrData,
        ).readable_writable(true);
        let flags = LimitFlags::new().granularity(true).protected(true);
        proof {
            lemma_descriptor_facts(0, 0, 0);
        }
        assert(code_access.bits() == 0x9a);
        assert(data_access.bits() == 0x92);
        assert(flags.bits() == 0xc0);
        let r = GlobalDescriptorTableProtected {
            null: GlobalDescriptorTableEntry32::default(),
            code: GlobalDescriptorTableEntry32::new(0, 0xfffff, code_access, flags),
            data: GlobalDescriptorTableEntry32::new(0, 0xfffff, data_access, flags),
        };
        assert(r.code.value() == 0x00cf_9a00_0000_ffffu64);
        assert(r.descriptors() =~= seq![0u64, 0x00cf_9a00_0000_ffffu64, 0x00cf_9200_0000_ffffu64]);
        r
    }

    /// The descriptors of the table, in order, as the processor reads them.
    pub fn as_words(&self) -> (r: Vec<u64>)
        ensures
            r@ == self.descriptors(),
    {
        let v = vec![self.null.as_u64(), self.code.as_u64(), self.data.as_u64()];
        assert(v@ =~= self.descriptors());
        v
    }

    /// What `lgdt` loads to use the table at `base`: its size less one
    /// (three descriptors of 8 bytes) and its address.
    pub fn register(base: u64) -> (r: GlobalDescriptorTableRegister)
        ensures
            r.limit == 23,
            r.base == base,
    {
        GlobalDescriptorTableRegister { limit: 23, base }
    }
}

/// The table of the kernel in long mode: the null descriptor, code and data
/// segments for the kernel and for user mode, and the descriptor of the task
/// state segment.
#[derive(Clone, Copy, Debug)]
pub struct GlobalDescriptorTableLong {
    null: GlobalDescriptorTableEntry32,
    kernel_code: GlobalDescriptorTableEntry32,
    kernel_data: GlobalDescriptorTableEntry32,
    user_code: GlobalDescriptorTableEntry32,
    user_data: GlobalDescriptorTableEntry32,
    tss: SystemSegmentDescriptor64,
}

impl GlobalDescriptorTableLong {
    /// The table, in order, as 8-byte words the processor reads; the task
    /// state segment takes the last two.
    pub closed spec fn descriptors(&self) -> Seq<u64> {
        seq![
            self.null.value(),
            self.kernel_code.value(),
            self.kernel_data.value(),
            self.user_code.value(),
            self.user_data.value(),
            self.tss.value_low(),
            self.tss.value_high(),
        ]
    }

    /// The table of long mode: the null descriptor; kernel code (access byte
    /// 0x9a, 64-bit) and data (0x92); user code (0xfa, 64-bit) and data
    /// (0xf2); and an empty task state segment descriptor.
    pub fn default() -> (r: GlobalDescriptorTableLong)
        ensures
            r.descriptors() == seq![
                0u64,
                0x0020_9a00_0000_0000u64,
                0x0000_9200_0000_0000u64,
                0x0020_fa00_0000_0000u64,
                0x0000_f200_0000_0000u64,
                0u64,
                0u64,
            ],
    {
        let kernel_code_access = AccessByte::new().segment_type(SegmentDescriptorType::CodeOrData).present(
            true,
        ).dpl(ProtectionLevel::Ring0).readable_writable(true).executable(true);
        let kernel_data_access = AccessByte::new().segment_type(SegmentDescriptorType::CodeOrData).present(
            true,
        ).dpl(ProtectionLevel::Ring0).readable_writable(true);
        let user_code_access = AccessByte::new().segment_type(SegmentDescriptorType::CodeOrData).present(
            true,
        ).dpl(ProtectionLevel::Ring3).readable_writable(true).executable(true);
        let user_data_access = AccessByte::new().segment_type(SegmentDescriptorType::CodeOrData).present(
            true,
        ).dpl(ProtectionLevel::Ring3).readable_writable(true);
        let long = LimitFlags::new().long(true);
        let none = LimitFlags::new();
        proof {
            lemma_descriptor_facts(0, 0, 0);
        }
        let r = GlobalDescriptorTableLong {
            null: GlobalDescriptorTableEntry32::default(),
            kernel_code: GlobalDescriptorTableEntry32::new(0, 0, kernel_code_access, long),
            kernel_data: GlobalDescriptorTableEntry32::new(0, 0, kernel_data_access, none),
            user_code: GlobalDescriptorTableEntry32::new(0, 0, user_code_access, long),
            user_data: GlobalDescriptorTableEntry32::new(0, 0, user_data_access, none),
            tss: SystemSegmentDescriptor64::default(),
        };
        assert(r.descriptors() =~= seq![
            0u64,
            0x0020_9a00_0000_0000u64,
            0x0000_9200_0000_0000u64,
            0x0020_fa00_0000_0000u64,
            0x0000_f200_0000_0000u64,
            0u64,
            0u64,
        ]);
        r
    }

    /// Puts `tss` in the table; gives the selector that `ltr` then loads:
    /// privilege level 0 and the task state segment section.
    pub fn load_tss(&mut self, tss: SystemSegmentDescriptor64) -> (r: SegmentSelector)
        ensures
            final(self).descriptors() == old(self).descriptors().take(5).push(tss.value_low()).push(
                tss.value_high(),
            ),
            r.bits() == 0x140,
    {
        self.tss = tss;
        let r = SegmentSelector::new().rpl(ProtectionLevel::Ring0).section(Sections::TaskStateSegment);
        proof {
            lemma_descriptor_facts(0, 0, 0);
        }
        assert(final(self).descriptors() =~= old(self).descriptors().take(5).push(tss.value_low()).push(
            tss.value_high(),
        ));
        r
    }

    /// The table, in order, as 8-byte words the processor reads.
    pub fn as_words(&self) -> (r: Vec<u64>)
        ensures
            r@ == self.descriptors(),
    {
        let (tss_low, tss_high) = self.tss.as_u64_pair();
        let v = vec![
            self.null.as_u64(),
            self.kernel_code.as_u64(),
            self.kernel_data.as_u64(),
            self.user_code.as_u64(),
            self.user_data.as_u64(),
            tss_low,
            tss_high,
        ];
        assert(v@ =~= self.descriptors());
        v
    }

    /// What `lgdt` loads to use the table at `base`: its size less one (five
    /// descriptors of 8 bytes and one of 16) and its address.
    pub fn register(base: u64) -> (r: GlobalDescriptorTableRegister)
        ensures
            r.limit == 55,
            r.base == base,
    {
        GlobalDescriptorTableRegister { limit: 55, base }
    }
}

} // verus!
