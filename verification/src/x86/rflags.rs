//! The flags register of the processor.
use vstd::prelude::*;

use crate::common::bitfield::{
    field_of, lemma_masks, lemma_with_field, lemma_with_field_fits, low_mask, or_field, read_field, set_field_bits,
    set_field_bits_u16, set_field_bits_u32, set_field_bits_u8, with_field, write_field,
    write_field_u16, write_field_u32, write_field_u8,
};
use crate::common::enums::ProtectionLevel;

verus! {

/// The flags register of the processor.
#[derive(Clone, Copy, Debug, PartialEq, Eq, Structural)]
pub struct Rflags(u64);

impl Rflags {
    /// The raw bits of the register.
    pub closed spec fn bits(&self) -> u64 {
        self.0 as u64
    }

    /// A register with every bit cleared.
    pub fn new() -> (r: Rflags)
        ensures
            r.bits() == 0,
    {
        Rflags(0)
    }

    /// The register that holds `bits`.
    pub fn from_bits(bits: u64) -> (r: Rflags)
        ensures
            r.bits() == bits as u64,
    {
        Rflags(bits)
    }

    /// The raw bits of the register.
    pub fn as_u64(&self) -> (r: u64)
        ensures
            r as u64 == self.bits(),
    {
        self.0
    }

    /// Whether the carry bit is set.
    pub fn is_carry(&self) -> (r: bool)
        ensures
            r == (field_of(self.bits(), 0, 1) == 1),
    {
        read_field(self.0 as u64, 0, 1) == 1
    }

    /// Writes the carry field, keeping every other bit.
    pub fn set_carry(&mut self, v: bool)
        ensures
            final(self).bits() == with_field(old(self).bits(), 0, 1, if v { 1u64 } else { 0u64 }),
    {
        proof {
            lemma_masks();
            lemma_with_field(self.0 as u64, 0, 1, if v { 1u64 } else { 0u64 });
        }
        self.0 = write_field(self.0, 0, 1, if v { 1u64 } else { 0u64 });
    }

    /// This register with the bits of `v` set in the carry field.
    pub fn carry(self, v: bool) -> (r: Rflags)
        ensures
            r.bits() == or_field(self.bits(), 0, if v { 1u64 } else { 0u64 }),
    {
        proof {
            lemma_masks();
            lemma_with_field(self.0 as u64, 0, 1, if v { 1u64 } else { 0u64 });
        }
        Rflags(set_field_bits(self.0, 0, if v { 1u64 } else { 0u64 }))
    }

    /// Whether the reserved1 bit is set.
    pub fn is_reserved1(&self) -> (r: bool)
        ensures
            r == (field_of(self.bits(), 1, 1) == 1),
    {
        read_field(self.0 as u64, 1, 1) == 1
    }

    /// Whether the parity bit is set.
    pub fn is_parity(&self) -> (r: bool)
        ensures
            r == (field_of(self.bits(), 2, 1) == 1),
    {
        read_field(self.0 as u64, 2, 1) == 1
    }

    /// Writes the parity field, keeping every other bit.
    pub fn set_parity(&mut self, v: bool)
        ensures
            final(self).bits() == with_field(old(self).bits(), 2, 1, if v { 1u64 } else { 0u64 }),
    {
        proof {
            lemma_masks();
            lemma_with_field(self.0 as u64, 2, 1, if v { 1u64 } else { 0u64 });
        }
        self.0 = write_field(self.0, 2, 1, if v { 1u64 } else { 0u64 });
    }

    /// This register with the bits of `v` set in the parity field.
    pub fn parity(self, v: bool) -> (r: Rflags)
        ensures
            r.bits() == or_field(self.bits(), 2, if v { 1u64 } else { 0u64 }),
    {
        proof {
            lemma_masks();
            lemma_with_field(self.0 as u64, 2, 1, if v { 1u64 } else { 0u64 });
        }
        Rflags(set_field_bits(self.0, 2, if v { 1u64 } else { 0u64 }))
    }

    /// Whether the reserved2 bit is set.
    pub fn is_reserved2(&self) -> (r: bool)
        ensures
            r == (field_of(self.bits(), 3, 1) == 1),
    {
        read_field(self.0 as u64, 3, 1) == 1
    }

    /// Whether the auxiliary carry bit is set.
    pub fn is_auxiliary(&self) -> (r: bool)
        ensures
            r == (field_of(self.bits(), 4, 1) == 1),
    {
        read_field(self.0 as u64, 4, 1) == 1
    }

    /// Writes the auxiliary carry field, keeping every other bit.
    pub fn set_auxiliary(&mut self, v: bool)
        ensures
            final(self).bits() == with_field(old(self).bits(), 4, 1, if v { 1u64 } else { 0u64 }),
    {
        proof {
            lemma_masks();
            lemma_with_field(self.0 as u64, 4, 1, if v { 1u64 } else { 0u64 });
        }
        self.0 = write_field(self.0, 4, 1, if v { 1u64 } else { 0u64 });
    }

    /// This register with the bits of `v` set in the auxiliary carry field.
    pub fn auxiliary(self, v: bool) -> (r: Rflags)
        ensures
            r.bits() == or_field(self.bits(), 4, if v { 1u64 } else { 0u64 }),
    {
        proof {
            lemma_masks();
            lemma_with_field(self.0 as u64, 4, 1, if v { 1u64 } else { 0u64 });
        }
        Rflags(set_field_bits(self.0, 4, if v { 1u64 } else { 0u64 }))
    }

    /// Whether the reserved3 bit is set.
    pub fn is_reserved3(&self) -> (r: bool)
        ensures
            r == (field_of(self.bits(), 5, 1) == 1),
    {
        read_field(self.0 as u64, 5, 1) == 1
    }

    /// Whether the zero bit is set.
    pub fn is_zero(&self) -> (r: bool)
        ensures
            r == (field_of(self.bits(), 6, 1) == 1),
    {
        read_field(self.0 as u64, 6, 1) == 1
    }

    /// Writes the zero field, keeping every other bit.
    pub fn set_zero(&mut self, v: bool)
        ensures
            final(self).bits() == with_field(old(self).bits(), 6, 1, if v { 1u64 } else { 0u64 }),
    {
        proof {
            lemma_masks();
            lemma_with_field(self.0 as u64, 6, 1, if v { 1u64 } else { 0u64 });
        }
        self.0 = write_field(self.0, 6, 1, if v { 1u64 } else { 0u64 });
    }

    /// This register with the bits of `v` set in the zero field.
    pub fn zero(self, v: bool) -> (r: Rflags)
        ensures
            r.bits() == or_field(self.bits(), 6, if v { 1u64 } else { 0u64 }),
    {
        proof {
            lemma_masks();
            lemma_with_field(self.0 as u64, 6, 1, if v { 1u64 } else { 0u64 });
        }
        Rflags(set_field_bits(self.0, 6, if v { 1u64 } else { 0u64 }))
    }

    /// Whether the sign bit is set.
    pub fn is_sign(&self) -> (r: bool)
        ensures
            r == (field_of(self.bits(), 7, 1) == 1),
    {
        read_field(self.0 as u64, 7, 1) == 1
    }

    /// Writes the sign field, keeping every other bit.
    pub fn set_sign(&mut self, v: bool)
        ensures
            final(self).bits() == with_field(old(self).bits(), 7, 1, if v { 1u64 } else { 0u64 }),
    {
        proof {
            lemma_masks();
            lemma_with_field(self.0 as u64, 7, 1, if v { 1u64 } else { 0u64 });
        }
        self.0 = write_field(self.0, 7, 1, if v { 1u64 } else { 0u64 });
    }

    /// This register with the bits of `v` set in the sign field.
    pub fn sign(self, v: bool) -> (r: Rflags)
        ensures
            r.bits() == or_field(self.bits(), 7, if v { 1u64 } else { 0u64 }),
    {
        proof {
            lemma_masks();
            lemma_with_field(self.0 as u64, 7, 1, if v { 1u64 } else { 0u64 });
        }
        Rflags(set_field_bits(self.0, 7, if v { 1u64 } else { 0u64 }))
    }

    /// Whether the trap bit is set.
    pub fn is_tap(&self) -> (r: bool)
        ensures
            r == (field_of(self.bits(), 8, 1) == 1),
    {
        read_field(self.0 as u64, 8, 1) == 1
    }

    /// Writes the trap field, keeping every other bit.
    pub fn set_tap(&mut self, v: bool)
        ensures
            final(self).bits() == with_field(old(self).bits(), 8, 1, if v { 1u64 } else { 0u64 }),
    {
        proof {
            lemma_masks();
            lemma_with_field(self.0 as u64, 8, 1, if v { 1u64 } else { 0u64 });
        }
        self.0 = write_field(self.0, 8, 1, if v { 1u64 } else { 0u64 });
    }

    /// This register with the bits of `v` set in the trap field.
    pub fn tap(self, v: bool) -> (r: Rflags)
        ensures
            r.bits() == or_field(self.bits(), 8, if v { 1u64 } else { 0u64 }),
    {
        proof {
            lemma_masks();
            lemma_with_field(self.0 as u64, 8, 1, if v { 1u64 } else { 0u64 });
        }
        Rflags(set_field_bits(self.0, 8, if v { 1u64 } else { 0u64 }))
    }

    /// Whether the interrupt enable bit is set.
    pub fn is_interrupt(&self) -> (r: bool)
        ensures
            r == (field_of(self.bits(), 9, 1) == 1),
    {
        read_field(self.0 as u64, 9, 1) == 1
    }

    /// Writes the interrupt enable field, keeping every other bit.
    pub fn set_interrupt(&mut self, v: bool)
        ensures
            final(self).bits() == with_field(old(self).bits(), 9, 1, if v { 1u64 } else { 0u64 }),
    {
        proof {
            lemma_masks();
            lemma_with_field(self.0 as u64, 9, 1, if v { 1u64 } else { 0u64 });
        }
        self.0 = write_field(self.0, 9, 1, if v { 1u64 } else { 0u64 });
    }

    /// This register with the bits of `v` set in the interrupt enable field.
    pub fn interrupt(self, v: bool) -> (r: Rflags)
        ensures
            r.bits() == or_field(self.bits(), 9, if v { 1u64 } else { 0u64 }),
    {
        proof {
            lemma_masks();
            lemma_with_field(self.0 as u64, 9, 1, if v { 1u64 } else { 0u64 });
        }
        Rflags(set_field_bits(self.0, 9, if v { 1u64 } else { 0u64 }))
    }

    /// Whether the direction bit is set.
    pub fn is_direction(&self) -> (r: bool)
        ensures
            r == (field_of(self.bits(), 10, 1) == 1),
    {
        read_field(self.0 as u64, 10, 1) == 1
    }

    /// Writes the direction field, keeping every other bit.
    pub fn set_direction(&mut self, v: bool)
        ensures
            final(self).bits() == with_field(old(self).bits(), 10, 1, if v { 1u64 } else { 0u64 }),
    {
        proof {
            lemma_masks();
            lemma_with_field(self.0 as u64, 10, 1, if v { 1u64 } else { 0u64 });
        }
        self.0 = write_field(self.0, 10, 1, if v { 1u64 } else { 0u64 });
    }

    /// This register with the bits of `v` set in the direction field.
    pub fn direction(self, v: bool) -> (r: Rflags)
        ensures
            r.bits() == or_field(self.bits(), 10, if v { 1u64 } else { 0u64 }),
    {
        proof {
            lemma_masks();
            lemma_with_field(self.0 as u64, 10, 1, if v { 1u64 } else { 0u64 });
        }
        Rflags(set_field_bits(self.0, 10, if v { 1u64 } else { 0u64 }))
    }

    /// Whether the overflow bit is set.
    pub fn is_overflow(&self) -> (r: bool)
        ensures
            r == (field_of(self.bits(), 11, 1) == 1),
    {
        read_field(self.0 as u64, 11, 1) == 1
    }

    /// Writes the overflow field, keeping every other bit.
    pub fn set_overflow(&mut self, v: bool)
        ensures
            final(self).bits() == with_field(old(self).bits(), 11, 1, if v { 1u64 } else { 0u64 }),
    {
        proof {
            lemma_masks();
            lemma_with_field(self.0 as u64, 11, 1, if v { 1u64 } else { 0u64 });
        }
        self.0 = write_field(self.0, 11, 1, if v { 1u64 } else { 0u64 });
    }

    /// This register with the bits of `v` set in the overflow field.
    pub fn overflow(self, v: bool) -> (r: Rflags)
        ensures
            r.bits() == or_field(self.bits(), 11, if v { 1u64 } else { 0u64 }),
    {
        proof {
            lemma_masks();
            lemma_with_field(self.0 as u64, 11, 1, if v { 1u64 } else { 0u64 });
        }
        Rflags(set_field_bits(self.0, 11, if v { 1u64 } else { 0u64 }))
    }

    /// The I/O privilege level field; it must hold a value that a variant of `ProtectionLevel` stands for.
    pub fn get_iopl(&self) -> (r: ProtectionLevel)
        requires
            ProtectionLevel::spec_from_u8(field_of(self.bits(), 12, 2) as u8) is Some,
        ensures
            r.spec_as_u8() as u64 == field_of(self.bits(), 12, 2),
    {
        let field = read_field(self.0 as u64, 12, 2);
        proof {
            lemma_masks();
        }
        let raw = field as u8;
        match ProtectionLevel::try_from_u8(raw) {
            Ok(v) => v,
            Err(_) => vstd::pervasive::unreached(),
        }
    }

    /// Writes the I/O privilege level field, keeping every other bit.
    pub fn set_iopl(&mut self, v: ProtectionLevel)
        ensures
            final(self).bits() == with_field(old(self).bits(), 12, 2, v.spec_as_u8() as u64),
    {
        proof {
            lemma_masks();
            lemma_with_field(self.0 as u64, 12, 2, v.spec_as_u8() as u64);
        }
        self.0 = write_field(self.0, 12, 2, v.as_u8() as u64);
    }

    /// This register with the bits of `v` set in the I/O privilege level field.
    pub fn iopl(self, v: ProtectionLevel) -> (r: Rflags)
        ensures
            r.bits() == or_field(self.bits(), 12, v.spec_as_u8() as u64),
    {
        proof {
            lemma_masks();
            lemma_with_field(self.0 as u64, 12, 2, v.spec_as_u8() as u64);
        }
        Rflags(set_field_bits(self.0, 12, v.as_u8() as u64))
    }

    /// Whether the nested task bit is set.
    pub fn is_nested_task(&self) -> (r: bool)
        ensures
            r == (field_of(self.bits(), 14, 1) == 1),
    {
        read_field(self.0 as u64, 14, 1) == 1
    }

    /// Writes the nested task field, keeping every other bit.
    pub fn set_nested_task(&mut self, v: bool)
        ensures
            final(self).bits() == with_field(old(self).bits(), 14, 1, if v { 1u64 } else { 0u64 }),
    {
        proof {
            lemma_masks();
            lemma_with_field(self.0 as u64, 14, 1, if v { 1u64 } else { 0u64 });
        }
        self.0 = write_field(self.0, 14, 1, if v { 1u64 } else { 0u64 });
    }

    /// This register with the bits of `v` set in the nested task field.
    pub fn nested_task(self, v: bool) -> (r: Rflags)
        ensures
            r.bits() == or_field(self.bits(), 14, if v { 1u64 } else { 0u64 }),
    {
        proof {
            lemma_masks();
            lemma_with_field(self.0 as u64, 14, 1, if v { 1u64 } else { 0u64 });
        }
        Rflags(set_field_bits(self.0, 14, if v { 1u64 } else { 0u64 }))
    }

    /// Whether the bit 15 bit is set.
    pub fn is_reserved4(&self) -> (r: bool)
        ensures
            r == (field_of(self.bits(), 15, 1) == 1),
    {
        read_field(self.0 as u64, 15, 1) == 1
    }

    /// Writes the bit 15 field, keeping every other bit.
    pub fn set_reserved4(&mut self, v: bool)
        ensures
            final(self).bits() == with_field(old(self).bits(), 15, 1, if v { 1u64 } else { 0u64 }),
    {
        proof {
            lemma_masks();
            lemma_with_field(self.0 as u64, 15, 1, if v { 1u64 } else { 0u64 });
        }
        self.0 = write_field(self.0, 15, 1, if v { 1u64 } else { 0u64 });
    }

    /// This register with the bits of `v` set in the bit 15 field.
    pub fn reserved4(self, v: bool) -> (r: Rflags)
        ensures
            r.bits() == or_field(self.bits(), 15, if v { 1u64 } else { 0u64 }),
    {
        proof {
            lemma_masks();
            lemma_with_field(self.0 as u64, 15, 1, if v { 1u64 } else { 0u64 });
        }
        Rflags(set_field_bits(self.0, 15, if v { 1u64 } else { 0u64 }))
    }

    /// Whether the resume bit is set.
    pub fn is_resume(&self) -> (r: bool)
        ensures
            r == (field_of(self.bits(), 16, 1) == 1),
    {
        read_field(self.0 as u64, 16, 1) == 1
    }

    /// Writes the resume field, keeping every other bit.
    pub fn set_resume(&mut self, v: bool)
        ensures
            final(self).bits() == with_field(old(self).bits(), 16, 1, if v { 1u64 } else { 0u64 }),
    {
        proof {
            lemma_masks();
            lemma_with_field(self.0 as u64, 16, 1, if v { 1u64 } else { 0u64 });
        }
        self.0 = write_field(self.0, 16, 1, if v { 1u64 } else { 0u64 });
    }

    /// This register with the bits of `v` set in the resume field.
    pub fn resume(self, v: bool) -> (r: Rflags)
        ensures
            r.bits() == or_field(self.bits(), 16, if v { 1u64 } else { 0u64 }),
    {
        proof {
            lemma_masks();
            lemma_with_field(self.0 as u64, 16, 1, if v { 1u64 } else { 0u64 });
        }
        Rflags(set_field_bits(self.0, 16, if v { 1u64 } else { 0u64 }))
    }

    /// Whether the virtual 8086 mode bit is set.
    pub fn is_virtual_8086_mode(&self) -> (r: bool)
        ensures
            r == (field_of(self.bits(), 17, 1) == 1),
    {
        read_field(self.0 as u64, 17, 1) == 1
    }

    /// Writes the virtual 8086 mode field, keeping every other bit.
    pub fn set_virtual_8086_mode(&mut self, v: bool)
        ensures
            final(self).bits() == with_field(old(self).bits(), 17, 1, if v { 1u64 } else { 0u64 }),
    {
        proof {
            lemma_masks();
            lemma_with_field(self.0 as u64, 17, 1, if v { 1u64 } else { 0u64 });
        }
        self.0 = write_field(self.0, 17, 1, if v { 1u64 } else { 0u64 });
    }

    /// This register with the bits of `v` set in the virtual 8086 mode field.
    pub fn virtual_8086_mode(self, v: bool) -> (r: Rflags)
        ensures
            r.bits() == or_field(self.bits(), 17, if v { 1u64 } else { 0u64 }),
    {
        proof {
            lemma_masks();
            lemma_with_field(self.0 as u64, 17, 1, if v { 1u64 } else { 0u64 });
        }
        Rflags(set_field_bits(self.0, 17, if v { 1u64 } else { 0u64 }))
    }

    /// Whether the alignment check bit is set.
    pub fn is_alignment_check(&self) -> (r: bool)
        ensures
            r == (field_of(self.bits(), 18, 1) == 1),
    {
        read_field(self.0 as u64, 18, 1) == 1
    }

    /// Writes the alignment check field, keeping every other bit.
    pub fn set_alignment_check(&mut self, v: bool)
        ensures
            final(self).bits() == with_field(old(self).bits(), 18, 1, if v { 1u64 } else { 0u64 }),
    {
        proof {
            lemma_masks();
            lemma_with_field(self.0 as u64, 18, 1, if v { 1u64 } else { 0u64 });
        }
        self.0 = write_field(self.0, 18, 1, if v { 1u64 } else { 0u64 });
    }

    /// This register with the bits of `v` set in the alignment check field.
    pub fn alignment_check(self, v: bool) -> (r: Rflags)
        ensures
            r.bits() == or_field(self.bits(), 18, if v { 1u64 } else { 0u64 }),
    {
        proof {
            lemma_masks();
            lemma_with_field(self.0 as u64, 18, 1, if v { 1u64 } else { 0u64 });
        }
        Rflags(set_field_bits(self.0, 18, if v { 1u64 } else { 0u64 }))
    }

    /// Whether the virtual interrupt bit is set.
    pub fn is_virtual_interrupt(&self) -> (r: bool)
        ensures
            r == (field_of(self.bits(), 19, 1) == 1),
    {
        read_field(self.0 as u64, 19, 1) == 1
    }

    /// Writes the virtual interrupt field, keeping every other bit.
    pub fn set_virtual_interrupt(&mut self, v: bool)
        ensures
            final(self).bits() == with_field(old(self).bits(), 19, 1, if v { 1u64 } else { 0u64 }),
    {
        proof {
            lemma_masks();
            lemma_with_field(self.0 as u64, 19, 1, if v { 1u64 } else { 0u64 });
        }
        self.0 = write_field(self.0, 19, 1, if v { 1u64 } else { 0u64 });
    }

    /// This register with the bits of `v` set in the virtual interrupt field.
    pub fn virtual_interrupt(self, v: bool) -> (r: Rflags)
        ensures
            r.bits() == or_field(self.bits(), 19, if v { 1u64 } else { 0u64 }),
    {
        proof {
            lemma_masks();
            lemma_with_field(self.0 as u64, 19, 1, if v { 1u64 } else { 0u64 });
        }
        Rflags(set_field_bits(self.0, 19, if v { 1u64 } else { 0u64 }))
    }

    /// Whether the virtual interrupt pending bit is set.
    pub fn is_virtual_interrupt_pending(&self) -> (r: bool)
        ensures
            r == (field_of(self.bits(), 20, 1) == 1),
    {
        read_field(self.0 as u64, 20, 1) == 1
    }

    /// Writes the virtual interrupt pending field, keeping every other bit.
    pub fn set_virtual_interrupt_pending(&mut self, v: bool)
        ensures
            final(self).bits() == with_field(old(self).bits(), 20, 1, if v { 1u64 } else { 0u64 }),
    {
        proof {
            lemma_masks();
            lemma_with_field(self.0 as u64, 20, 1, if v { 1u64 } else { 0u64 });
        }
        self.0 = write_field(self.0, 20, 1, if v { 1u64 } else { 0u64 });
    }

    /// This register with the bits of `v` set in the virtual interrupt pending field.
    pub fn virtual_interrupt_pending(self, v: bool) -> (r: Rflags)
        ensures
            r.bits() == or_field(self.bits(), 20, if v { 1u64 } else { 0u64 }),
    {
        proof {
            lemma_masks();
            lemma_with_field(self.0 as u64, 20, 1, if v { 1u64 } else { 0u64 });
        }
        Rflags(set_field_bits(self.0, 20, if v { 1u64 } else { 0u64 }))
    }

    /// Whether the CPUID support bit is set.
    pub fn is_cpuid_support(&self) -> (r: bool)
        ensures
            r == (field_of(self.bits(), 21, 1) == 1),
    {
        read_field(self.0 as u64, 21, 1) == 1
    }

    /// Writes the CPUID support field, keeping every other bit.
    pub fn set_cpuid_support(&mut self, v: bool)
        ensures
            final(self).bits() == with_field(old(self).bits(), 21, 1, if v { 1u64 } else { 0u64 }),
    {
        proof {
            lemma_masks();
            lemma_with_field(self.0 as u64, 21, 1, if v { 1u64 } else { 0u64 });
        }
        self.0 = write_field(self.0, 21, 1, if v { 1u64 } else { 0u64 });
    }

    /// This register with the bits of `v` set in the CPUID support field.
    pub fn cpuid_support(self, v: bool) -> (r: Rflags)
        ensures
            r.bits() == or_field(self.bits(), 21, if v { 1u64 } else { 0u64 }),
    {
        proof {
            lemma_masks();
            lemma_with_field(self.0 as u64, 21, 1, if v { 1u64 } else { 0u64 });
        }
        Rflags(set_field_bits(self.0, 21, if v { 1u64 } else { 0u64 }))
    }

    /// The reserved high bits field.
    pub fn get_reserved5(&self) -> (r: u64)
        ensures
            r as u64 == field_of(self.bits(), 22, 41),
    {
        let field = read_field(self.0 as u64, 22, 41);
        proof {
            lemma_masks();
        }
        field as u64
    }


}

} // verus!
