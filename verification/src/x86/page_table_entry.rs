//! Entries of x86-64 page tables: 12 bits of flags, the address of the
//! mapped frame in bits 12 to 62, and the no-execute bit 63.
use vstd::prelude::*;

use crate::common::address_types::{aligned_to, PhysicalAddress, VirtualAddress};
use crate::common::bitfield::{
    field_of, lemma_with_field, low_mask, or_field, read_field, with_field, write_field,
};
use crate::common::constants::{Alignment, PHYSICAL_MEMORY_OFFSET, REGULAR_PAGE_SIZE};
use crate::common::error::EntryError;
use crate::x86::entry_flags::PageEntryFlags;

verus! {

/// The bits of an entry that hold the address of the mapped frame.
pub open spec fn address_mask() -> u64 {
    low_mask(51) << 12u64
}

/// The address a set of entry bits maps: the bits of the address field, in
/// place.
pub open spec fn entry_address(bits: u64) -> u64 {
    bits & address_mask()
}

/// Whether the entry bits have the present flag.
pub open spec fn entry_present(bits: u64) -> bool {
    field_of(bits, 0, 1) == 1
}

/// Whether the entry bits point to a page table: present, marked as a table
/// and not a huge page.
pub open spec fn entry_points_to_table(bits: u64) -> bool {
    entry_present(bits) && field_of(bits, 10, 1) == 1 && field_of(bits, 7, 1) == 0
}

/// What `map_unchecked` leaves in an entry: the no-execute bit kept, the
/// frame address, and the flags with the present flag added.
pub open spec fn mapped_bits(old_bits: u64, frame: u64, flags: u64) -> u64 {
    (old_bits & 0x8000_0000_0000_0000) | frame | flags | 1
}

/// An address that the address field of an entry can hold.
pub open spec fn frame_fits(frame: u64) -> bool {
    frame <= 0x7_ffff_ffff_ffff && frame & 0xfff == 0
}

/// The flags of an entry keep the present, huge page and table bits of its
/// low twelve bits.
proof fn lemma_flag_bits(b: u64)
    ensures
        field_of(field_of(b, 0, 12), 0, 1) == field_of(b, 0, 1),
        field_of(field_of(b, 0, 12), 7, 1) == field_of(b, 7, 1),
        field_of(field_of(b, 0, 12), 10, 1) == field_of(b, 10, 1),
        field_of(b, 7, 1) < 2,
{
    lemma_entry_bits(b, 0, 0, 0);
}

/// The bit arithmetic of the fields of an entry.
proof fn lemma_entry_bits(b: u64, f: u64, fl: u64, fr: u64)
    by (bit_vector)
    ensures
        field_of(b, 7, 1) < 2,
        field_of(field_of(b, 0, 12), 0, 1) == field_of(b, 0, 1),
        field_of(field_of(b, 0, 12), 7, 1) == field_of(b, 7, 1),
        field_of(field_of(b, 0, 12), 10, 1) == field_of(b, 10, 1),
        f <= low_mask(12) ==> f < (1u64 << 12u64) && f < 0x10000,
        fl < (1u64 << 12u64) ==> fl <= low_mask(12),
        fl << 0u64 == fl,
        0x7_ffff_ffff_ffffu64 << 12u64 == address_mask(),
        1u64 <= low_mask(1),
        fl < (1u64 << 12u64) && frame_fits(fr) ==> (((with_field(b, 0, 12, or_field(fl, 0, 1))
            & !address_mask()) | fr) == mapped_bits(b, fr, fl)),
        aligned_to(fr, 4096) ==> fr & 0xfff == 0,
{
}

/// An entry of a page table.
#[derive(Clone, Copy, Debug, PartialEq, Eq, Structural)]
pub struct PageTableEntry(u64);

impl PageTableEntry {
    /// The raw bits of the entry.
    pub closed spec fn bits(&self) -> u64 {
        self.0
    }

    /// Entries with the same bits are the same.
    pub proof fn lemma_bits_equal(a: PageTableEntry, b: PageTableEntry)
        ensures
            a.bits() == b.bits() ==> a == b,
    {
    }

    /// An entry with every bit cleared.
    pub fn new() -> (r: PageTableEntry)
        ensures
            r.bits() == 0,
    {
        PageTableEntry(0)
    }

    /// The entry that holds `bits`.
    pub fn from_bits(bits: u64) -> (r: PageTableEntry)
        ensures
            r.bits() == bits,
    {
        PageTableEntry(bits)
    }

    /// The raw bits of the entry.
    pub fn as_u64(&self) -> (r: u64)
        ensures
            r == self.bits(),
    {
        self.0
    }

    /// The flags of the entry.
    pub fn get_flags(&self) -> (r: PageEntryFlags)
        ensures
            r.bits() == field_of(self.bits(), 0, 12),
    {
        let f = read_field(self.0, 0, 12);
        proof {
            lemma_entry_bits(0, f, 0, 0);
        }
        PageEntryFlags::from_bits(f as u16)
    }

    /// Replaces the flags of the entry, keeping the address and the
    /// no-execute bit.
    pub fn set_flags(&mut self, v: PageEntryFlags)
        ensures
            final(self).bits() == with_field(old(self).bits(), 0, 12, v.bits()),
    {
        v.bits_fit();
        proof {
            lemma_entry_bits(0, 0, v.bits(), 0);
        }
        self.0 = write_field(self.0, 0, 12, v.as_u16() as u64);
    }

    /// Clears the flags of the entry.
    pub fn clear_flags(&mut self)
        ensures
            final(self).bits() == with_field(old(self).bits(), 0, 12, 0),
    {
        self.0 = write_field(self.0, 0, 12, 0);
    }

    /// This entry with the bits of `v` set in its flags.
    pub fn flags(self, v: PageEntryFlags) -> (r: PageTableEntry)
        ensures
            r.bits() == or_field(self.bits(), 0, v.bits()),
    {
        proof {
            lemma_entry_bits(0, 0, v.bits(), 0);
        }
        PageTableEntry(self.0 | (v.as_u16() as u64))
    }

    /// The address of the frame that the entry maps.
    pub fn get_address(&self) -> (r: PhysicalAddress)
        ensures
            r@ == entry_address(self.bits()),
    {
        proof {
            lemma_entry_bits(0, 0, 0, 0);
        }
        let m: u64 = 0x7_ffff_ffff_ffff << 12;
        PhysicalAddress::new_unchecked(self.0 & m)
    }

    /// Replaces the address of the frame, keeping the flags and the
    /// no-execute bit. The address must fit the field and be page aligned.
    pub fn set_address(&mut self, v: PhysicalAddress)
        requires
            frame_fits(v@),
        ensures
            final(self).bits() == (old(self).bits() & !address_mask()) | v@,
    {
        proof {
            lemma_entry_bits(0, 0, 0, 0);
        }
        let m: u64 = 0x7_ffff_ffff_ffff << 12;
        self.0 = (self.0 & !m) | v.as_u64();
    }

    /// This entry with the bits of `v` set in its address field.
    pub fn address(self, v: PhysicalAddress) -> (r: PageTableEntry)
        requires
            frame_fits(v@),
        ensures
            r.bits() == self.bits() | v@,
    {
        PageTableEntry(self.0 | v.as_u64())
    }

    /// Whether the no-execute bit is set.
    pub fn is_not_executable(&self) -> (r: bool)
        ensures
            r == (field_of(self.bits(), 63, 1) == 1),
    {
        read_field(self.0, 63, 1) == 1
    }

    /// Writes the no-execute bit.
    pub fn set_not_executable(&mut self, v: bool)
        ensures
            final(self).bits() == with_field(
                old(self).bits(),
                63,
                1,
                if v {
                    1u64
                } else {
                    0u64
                },
            ),
    {
        proof {
            lemma_entry_bits(0, 0, 0, 0);
        }
        self.0 = write_field(
            self.0,
            63,
            1,
            if v {
                1
            } else {
                0
            },
        );
    }

    /// This entry with the no-execute bit set when `v` is.
    pub fn not_executable(self, v: bool) -> (r: PageTableEntry)
        ensures
            r.bits() == or_field(
                self.bits(),
                63,
                if v {
                    1u64
                } else {
                    0u64
                },
            ),
    {
        PageTableEntry(
            self.0 | ((if v {
                1u64
            } else {
                0u64
            }) << 63),
        )
    }

    /// Maps `frame` with `flags`, adding the present flag. Nothing is checked:
    /// the frame must fit the address field and be page aligned.
    pub fn map_unchecked(&mut self, frame: PhysicalAddress, flags: PageEntryFlags)
        requires
            frame_fits(frame@),
        ensures
            final(self).bits() == mapped_bits(old(self).bits(), frame@, flags.bits()),
    {
        flags.bits_fit();
        let f = flags.present(true);
        self.set_flags(f);
        self.set_address(frame);
        proof {
            lemma_entry_bits(old(self).bits(), 0, flags.bits(), frame@);
        }
    }

    /// Maps `frame` with `flags` when the entry is not present and the frame
    /// is aligned to a regular page; otherwise leaves the entry unchanged.
    /// The present flag is always added.
    pub fn map(&mut self, frame: PhysicalAddress, flags: PageEntryFlags)
        requires
            !entry_present(old(self).bits()) && aligned_to(frame@, REGULAR_PAGE_SIZE as u64)
                ==> frame@ <= 0x7_ffff_ffff_ffff,
        ensures
            !entry_present(old(self).bits()) && aligned_to(frame@, REGULAR_PAGE_SIZE as u64)
                ==> final(self).bits() == mapped_bits(old(self).bits(), frame@, flags.bits()),
            entry_present(old(self).bits()) || !aligned_to(frame@, REGULAR_PAGE_SIZE as u64)
                ==> final(self).bits() == old(self).bits(),
    {
        proof {
            lemma_flag_bits(self.bits());
        }
        if !self.get_flags().is_present() && frame.is_aligned(Alignment::regular_page()) {
            proof {
                lemma_entry_bits(0, 0, 0, frame@);
            }
            self.map_unchecked(frame, flags);
        }
    }

    /// The address of the frame the entry maps, when it is present.
    pub fn mapped(&self) -> (r: Result<PhysicalAddress, EntryError>)
        ensures
            entry_present(self.bits()) ==> (r matches Ok(a) && a@ == entry_address(self.bits())),
            !entry_present(self.bits()) ==> r == Err::<PhysicalAddress, EntryError>(
                EntryError::NoMapping,
            ),
    {
        proof {
            lemma_flag_bits(self.bits());
        }
        if self.get_flags().is_present() {
            Ok(self.get_address())
        } else {
            Err(EntryError::NoMapping)
        }
    }

    /// The virtual address of the page table this entry points to. Page
    /// tables are seen at their physical address plus the physical memory
    /// offset.
    pub fn mapped_table(&self) -> (r: Result<VirtualAddress, EntryError>)
        requires
            entry_present(self.bits()) ==> entry_address(self.bits()) + PHYSICAL_MEMORY_OFFSET
                <= u64::MAX,
        ensures
            !entry_present(self.bits()) ==> r == Err::<VirtualAddress, EntryError>(
                EntryError::NoMapping,
            ),
            entry_present(self.bits()) && !entry_points_to_table(self.bits()) ==> r == Err::<
                VirtualAddress,
                EntryError,
            >(EntryError::NotATable),
            entry_points_to_table(self.bits()) ==> (r matches Ok(a) && a@ == entry_address(
                self.bits(),
            ) + PHYSICAL_MEMORY_OFFSET),
    {
        proof {
            lemma_flag_bits(self.bits());
        }
        let pt = match self.mapped() {
            Ok(a) => a.translate(),
            Err(e) => return Err(e),
        };
        let flags = self.get_flags();
        if !flags.is_huge_page() && flags.is_table() {
            Ok(pt)
        } else {
            Err(EntryError::NotATable)
        }
    }
}

} // verus!
