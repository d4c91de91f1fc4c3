//! Flags of the entries of x86-64 page tables.
use vstd::prelude::*;

use crate::common::bitfield::{
    field_of, lemma_masks, lemma_with_field, lemma_with_field_fits, low_mask, or_field, read_field, set_field_bits,
    set_field_bits_u16, set_field_bits_u32, set_field_bits_u8, with_field, write_field,
    write_field_u16, write_field_u32, write_field_u8,
};

verus! {


/// The bits of the usual combinations of flags.
proof fn lemma_flag_values()
    by (bit_vector)
    ensures
        or_field(or_field(or_field(0, 0, 1), 1, 1), 10, 1) == 0x403,
        or_field(or_field(or_field(0, 0, 1), 1, 1), 7, 1) == 0x83,
        or_field(or_field(0, 0, 1), 1, 1) == 0x3,
        or_field(or_field(or_field(or_field(0, 0, 1), 1, 1), 4, 1), 8, 1) == 0x113,
        or_field(or_field(or_field(or_field(or_field(0, 0, 1), 1, 1), 7, 1), 4, 1), 8, 1) == 0x193,
{
}

/// The flags of a page table entry (its low 12 bits).
#[derive(Clone, Copy, Debug, PartialEq, Eq, Structural)]
pub struct PageEntryFlags(u16);

impl PageEntryFlags {
    #[verifier::type_invariant]
    spec fn fits(self) -> bool {
        (self.0 as u64) < (1u64 << 12u64)
    }

    /// The raw bits of the register.
    pub closed spec fn bits(&self) -> u64 {
        self.0 as u64
    }

    /// The register never has a bit set above bit 11.
    pub fn bits_fit(&self)
        ensures
            self.bits() < (1u64 << 12u64),
    {
        proof {
            use_type_invariant(self);
        }
    }

    /// A register with every bit cleared.
    pub fn new() -> (r: PageEntryFlags)
        ensures
            r.bits() == 0,
    {
        proof {
            lemma_masks();
        }
        PageEntryFlags(0)
    }

    /// The register that holds `bits`.
    pub fn from_bits(bits: u16) -> (r: PageEntryFlags)
        requires
            (bits as u64) < (1u64 << 12u64),
        ensures
            r.bits() == bits as u64,
    {
        PageEntryFlags(bits)
    }

    /// The raw bits of the register.
    pub fn as_u16(&self) -> (r: u16)
        ensures
            r as u64 == self.bits(),
    {
        self.0
    }

    /// Whether the present bit is set.
    pub fn is_present(&self) -> (r: bool)
        ensures
            r == (field_of(self.bits(), 0, 1) == 1),
    {
        read_field(self.0 as u64, 0, 1) == 1
    }

    /// Writes the present field, keeping every other bit.
    pub fn set_present(&mut self, v: bool)
        ensures
            final(self).bits() == with_field(old(self).bits(), 0, 1, if v { 1u64 } else { 0u64 }),
    {
        proof {
            lemma_masks();
            use_type_invariant(&*self);
            lemma_with_field_fits(self.0 as u64, 0, 1, if v { 1u64 } else { 0u64 }, 12);
        }
        self.0 = write_field_u16(self.0, 0, 1, if v { 1u64 } else { 0u64 });
    }

    /// This register with the bits of `v` set in the present field.
    pub fn present(self, v: bool) -> (r: PageEntryFlags)
        ensures
            r.bits() == or_field(self.bits(), 0, if v { 1u64 } else { 0u64 }),
    {
        proof {
            lemma_masks();
            use_type_invariant(&self);
            lemma_with_field_fits(self.0 as u64, 0, 1, if v { 1u64 } else { 0u64 }, 12);
        }
        PageEntryFlags(set_field_bits_u16(self.0, 0, 1, if v { 1u64 } else { 0u64 }))
    }

    /// Whether the writable bit is set.
    pub fn is_writable(&self) -> (r: bool)
        ensures
            r == (field_of(self.bits(), 1, 1) == 1),
    {
        read_field(self.0 as u64, 1, 1) == 1
    }

    /// Writes the writable field, keeping every other bit.
    pub fn set_writable(&mut self, v: bool)
        ensures
            final(self).bits() == with_field(old(self).bits(), 1, 1, if v { 1u64 } else { 0u64 }),
    {
        proof {
            lemma_masks();
            use_type_invariant(&*self);
            lemma_with_field_fits(self.0 as u64, 1, 1, if v { 1u64 } else { 0u64 }, 12);
        }
        self.0 = write_field_u16(self.0, 1, 1, if v { 1u64 } else { 0u64 });
    }

    /// This register with the bits of `v` set in the writable field.
    pub fn writable(self, v: bool) -> (r: PageEntryFlags)
        ensures
            r.bits() == or_field(self.bits(), 1, if v { 1u64 } else { 0u64 }),
    {
        proof {
            lemma_masks();
            use_type_invariant(&self);
            lemma_with_field_fits(self.0 as u64, 1, 1, if v { 1u64 } else { 0u64 }, 12);
        }
        PageEntryFlags(set_field_bits_u16(self.0, 1, 1, if v { 1u64 } else { 0u64 }))
    }

    /// Whether the user access bit is set.
    pub fn is_usr_access(&self) -> (r: bool)
        ensures
            r == (field_of(self.bits(), 2, 1) == 1),
    {
        read_field(self.0 as u64, 2, 1) == 1
    }

    /// Writes the user access field, keeping every other bit.
    pub fn set_usr_access(&mut self, v: bool)
        ensures
            final(self).bits() == with_field(old(self).bits(), 2, 1, if v { 1u64 } else { 0u64 }),
    {
        proof {
            lemma_masks();
            use_type_invariant(&*self);
            lemma_with_field_fits(self.0 as u64, 2, 1, if v { 1u64 } else { 0u64 }, 12);
        }
        self.0 = write_field_u16(self.0, 2, 1, if v { 1u64 } else { 0u64 });
    }

    /// This register with the bits of `v` set in the user access field.
    pub fn usr_access(self, v: bool) -> (r: PageEntryFlags)
        ensures
            r.bits() == or_field(self.bits(), 2, if v { 1u64 } else { 0u64 }),
    {
        proof {
            lemma_masks();
            use_type_invariant(&self);
            lemma_with_field_fits(self.0 as u64, 2, 1, if v { 1u64 } else { 0u64 }, 12);
        }
        PageEntryFlags(set_field_bits_u16(self.0, 2, 1, if v { 1u64 } else { 0u64 }))
    }

    /// Whether the write-through caching bit is set.
    pub fn is_write_through_cache(&self) -> (r: bool)
        ensures
            r == (field_of(self.bits(), 3, 1) == 1),
    {
        read_field(self.0 as u64, 3, 1) == 1
    }

    /// Writes the write-through caching field, keeping every other bit.
    pub fn set_write_through_cache(&mut self, v: bool)
        ensures
            final(self).bits() == with_field(old(self).bits(), 3, 1, if v { 1u64 } else { 0u64 }),
    {
        proof {
            lemma_masks();
            use_type_invariant(&*self);
            lemma_with_field_fits(self.0 as u64, 3, 1, if v { 1u64 } else { 0u64 }, 12);
        }
        self.0 = write_field_u16(self.0, 3, 1, if v { 1u64 } else { 0u64 });
    }

    /// This register with the bits of `v` set in the write-through caching field.
    pub fn write_through_cache(self, v: bool) -> (r: PageEntryFlags)
        ensures
            r.bits() == or_field(self.bits(), 3, if v { 1u64 } else { 0u64 }),
    {
        proof {
            lemma_masks();
            use_type_invariant(&self);
            lemma_with_field_fits(self.0 as u64, 3, 1, if v { 1u64 } else { 0u64 }, 12);
        }
        PageEntryFlags(set_field_bits_u16(self.0, 3, 1, if v { 1u64 } else { 0u64 }))
    }

    /// Whether the cache disable bit is set.
    pub fn is_disable_cache(&self) -> (r: bool)
        ensures
            r == (field_of(self.bits(), 4, 1) == 1),
    {
        read_field(self.0 as u64, 4, 1) == 1
    }

    /// Writes the cache disable field, keeping every other bit.
    pub fn set_disable_cache(&mut self, v: bool)
        ensures
            final(self).bits() == with_field(old(self).bits(), 4, 1, if v { 1u64 } else { 0u64 }),
    {
        proof {
            lemma_masks();
            use_type_invariant(&*self);
            lemma_with_field_fits(self.0 as u64, 4, 1, if v { 1u64 } else { 0u64 }, 12);
        }
        self.0 = write_field_u16(self.0, 4, 1, if v { 1u64 } else { 0u64 });
    }

    /// This register with the bits of `v` set in the cache disable field.
    pub fn disable_cache(self, v: bool) -> (r: PageEntryFlags)
        ensures
            r.bits() == or_field(self.bits(), 4, if v { 1u64 } else { 0u64 }),
    {
        proof {
            lemma_masks();
            use_type_invariant(&self);
            lemma_with_field_fits(self.0 as u64, 4, 1, if v { 1u64 } else { 0u64 }, 12);
        }
        PageEntryFlags(set_field_bits_u16(self.0, 4, 1, if v { 1u64 } else { 0u64 }))
    }

    /// Whether the accessed bit is set.
    pub fn is_accessed(&self) -> (r: bool)
        ensures
            r == (field_of(self.bits(), 5, 1) == 1),
    {
        read_field(self.0 as u64, 5, 1) == 1
    }

    /// Whether the dirty bit is set.
    pub fn is_dirty(&self) -> (r: bool)
        ensures
            r == (field_of(self.bits(), 6, 1) == 1),
    {
        read_field(self.0 as u64, 6, 1) == 1
    }

    /// Whether the huge page bit is set.
    pub fn is_huge_page(&self) -> (r: bool)
        ensures
            r == (field_of(self.bits(), 7, 1) == 1),
    {
        read_field(self.0 as u64, 7, 1) == 1
    }

    /// Writes the huge page field, keeping every other bit.
    pub fn set_huge_page(&mut self, v: bool)
        ensures
            final(self).bits() == with_field(old(self).bits(), 7, 1, if v { 1u64 } else { 0u64 }),
    {
        proof {
            lemma_masks();
            use_type_invariant(&*self);
            lemma_with_field_fits(self.0 as u64, 7, 1, if v { 1u64 } else { 0u64 }, 12);
        }
        self.0 = write_field_u16(self.0, 7, 1, if v { 1u64 } else { 0u64 });
    }

    /// This register with the bits of `v` set in the huge page field.
    pub fn huge_page(self, v: bool) -> (r: PageEntryFlags)
        ensures
            r.bits() == or_field(self.bits(), 7, if v { 1u64 } else { 0u64 }),
    {
        proof {
            lemma_masks();
            use_type_invariant(&self);
            lemma_with_field_fits(self.0 as u64, 7, 1, if v { 1u64 } else { 0u64 }, 12);
        }
        PageEntryFlags(set_field_bits_u16(self.0, 7, 1, if v { 1u64 } else { 0u64 }))
    }

    /// Whether the global bit is set.
    pub fn is_global(&self) -> (r: bool)
        ensures
            r == (field_of(self.bits(), 8, 1) == 1),
    {
        read_field(self.0 as u64, 8, 1) == 1
    }

    /// Writes the global field, keeping every other bit.
    pub fn set_global(&mut self, v: bool)
        ensures
            final(self).bits() == with_field(old(self).bits(), 8, 1, if v { 1u64 } else { 0u64 }),
    {
        proof {
            lemma_masks();
            use_type_invariant(&*self);
            lemma_with_field_fits(self.0 as u64, 8, 1, if v { 1u64 } else { 0u64 }, 12);
        }
        self.0 = write_field_u16(self.0, 8, 1, if v { 1u64 } else { 0u64 });
    }

    /// This register with the bits of `v` set in the global field.
    pub fn global(self, v: bool) -> (r: PageEntryFlags)
        ensures
            r.bits() == or_field(self.bits(), 8, if v { 1u64 } else { 0u64 }),
    {
        proof {
            lemma_masks();
            use_type_invariant(&self);
            lemma_with_field_fits(self.0 as u64, 8, 1, if v { 1u64 } else { 0u64 }, 12);
        }
        PageEntryFlags(set_field_bits_u16(self.0, 8, 1, if v { 1u64 } else { 0u64 }))
    }

    /// Whether the table full bit is set.
    pub fn is_full(&self) -> (r: bool)
        ensures
            r == (field_of(self.bits(), 9, 1) == 1),
    {
        read_field(self.0 as u64, 9, 1) == 1
    }

    /// Writes the table full field, keeping every other bit.
    pub fn set_full(&mut self, v: bool)
        ensures
            final(self).bits() == with_field(old(self).bits(), 9, 1, if v { 1u64 } else { 0u64 }),
    {
        proof {
            lemma_masks();
            use_type_invariant(&*self);
            lemma_with_field_fits(self.0 as u64, 9, 1, if v { 1u64 } else { 0u64 }, 12);
        }
        self.0 = write_field_u16(self.0, 9, 1, if v { 1u64 } else { 0u64 });
    }

    /// This register with the bits of `v` set in the table full field.
    pub fn full(self, v: bool) -> (r: PageEntryFlags)
        ensures
            r.bits() == or_field(self.bits(), 9, if v { 1u64 } else { 0u64 }),
    {
        proof {
            lemma_masks();
            use_type_invariant(&self);
            lemma_with_field_fits(self.0 as u64, 9, 1, if v { 1u64 } else { 0u64 }, 12);
        }
        PageEntryFlags(set_field_bits_u16(self.0, 9, 1, if v { 1u64 } else { 0u64 }))
    }

    /// Whether the points-to-table bit is set.
    pub fn is_table(&self) -> (r: bool)
        ensures
            r == (field_of(self.bits(), 10, 1) == 1),
    {
        read_field(self.0 as u64, 10, 1) == 1
    }

    /// Writes the points-to-table field, keeping every other bit.
    pub fn set_table(&mut self, v: bool)
        ensures
            final(self).bits() == with_field(old(self).bits(), 10, 1, if v { 1u64 } else { 0u64 }),
    {
        proof {
            lemma_masks();
            use_type_invariant(&*self);
            lemma_with_field_fits(self.0 as u64, 10, 1, if v { 1u64 } else { 0u64 }, 12);
        }
        self.0 = write_field_u16(self.0, 10, 1, if v { 1u64 } else { 0u64 });
    }

    /// This register with the bits of `v` set in the points-to-table field.
    pub fn table(self, v: bool) -> (r: PageEntryFlags)
        ensures
            r.bits() == or_field(self.bits(), 10, if v { 1u64 } else { 0u64 }),
    {
        proof {
            lemma_masks();
            use_type_invariant(&self);
            lemma_with_field_fits(self.0 as u64, 10, 1, if v { 1u64 } else { 0u64 }, 12);
        }
        PageEntryFlags(set_field_bits_u16(self.0, 10, 1, if v { 1u64 } else { 0u64 }))
    }

    /// Whether the root entry bit is set.
    pub fn is_root_entry(&self) -> (r: bool)
        ensures
            r == (field_of(self.bits(), 11, 1) == 1),
    {
        read_field(self.0 as u64, 11, 1) == 1
    }

    /// Writes the root entry field, keeping every other bit.
    pub fn set_root_entry(&mut self, v: bool)
        ensures
            final(self).bits() == with_field(old(self).bits(), 11, 1, if v { 1u64 } else { 0u64 }),
    {
        proof {
            lemma_masks();
            use_type_invariant(&*self);
            lemma_with_field_fits(self.0 as u64, 11, 1, if v { 1u64 } else { 0u64 }, 12);
        }
        self.0 = write_field_u16(self.0, 11, 1, if v { 1u64 } else { 0u64 });
    }

    /// This register with the bits of `v` set in the root entry field.
    pub fn root_entry(self, v: bool) -> (r: PageEntryFlags)
        ensures
            r.bits() == or_field(self.bits(), 11, if v { 1u64 } else { 0u64 }),
    {
        proof {
            lemma_masks();
            use_type_invariant(&self);
            lemma_with_field_fits(self.0 as u64, 11, 1, if v { 1u64 } else { 0u64 }, 12);
        }
        PageEntryFlags(set_field_bits_u16(self.0, 11, 1, if v { 1u64 } else { 0u64 }))
    }


    /// Flags of an entry that points to a page table: present, writable,
    /// table.
    pub fn table_flags() -> (r: PageEntryFlags)
        ensures
            r.bits() == 0x403,
    {
        let r = PageEntryFlags::new().present(true).writable(true).table(true);
        proof {
            lemma_flag_values();
        }
        r
    }

    /// Flags of an entry that maps a huge page: present, writable, huge page.
    pub fn huge_page_flags() -> (r: PageEntryFlags)
        ensures
            r.bits() == 0x83,
    {
        let r = PageEntryFlags::new().present(true).writable(true).huge_page(true);
        proof {
            lemma_flag_values();
        }
        r
    }

    /// Flags of an entry that maps a regular page: present, writable.
    pub fn regular_page_flags() -> (r: PageEntryFlags)
        ensures
            r.bits() == 0x3,
    {
        let r = PageEntryFlags::new().present(true).writable(true);
        proof {
            lemma_flag_values();
        }
        r
    }

    /// Flags of an entry that maps a regular page of device memory: present,
    /// writable, cache disabled, global.
    pub fn regular_io_page_flags() -> (r: PageEntryFlags)
        ensures
            r.bits() == 0x113,
    {
        let r = PageEntryFlags::new().present(true).writable(true).disable_cache(true).global(true);
        proof {
            lemma_flag_values();
        }
        r
    }

    /// Flags of an entry that maps a huge page of device memory: present,
    /// writable, huge page, cache disabled, global.
    pub fn huge_io_page_flags() -> (r: PageEntryFlags)
        ensures
            r.bits() == 0x193,
    {
        let r = PageEntryFlags::new().present(true).writable(true).huge_page(true).disable_cache(
            true,
        ).global(true);
        proof {
            lemma_flag_values();
        }
        r
    }

}

} // verus!
