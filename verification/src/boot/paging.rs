//! The page tables the boot loader builds and searches: entries whose frame
//! address lies in bits 12 to 47, and a search of the hierarchy for the first
//! page that is not mapped.
use vstd::prelude::*;

use crate::common::address_types::{
    address_from_indexes, aligned_to, PhysicalAddress, VirtualAddress,
};
use crate::common::constants::{Alignment, BIG_PAGE_SIZE, PAGE_DIRECTORY_ENTRIES, REGULAR_PAGE_SIZE};
use crate::common::enums::{PageSize, PageTableLevel};
use crate::common::error::{EntryError, TableError};

verus! {

/// The bits of an entry that hold the address of the mapped frame.
pub const ADDRESS_MASK: u64 = 0x0000_ffff_ffff_f000;

/// Whether bit `n` of `bits` is set.
pub open spec fn flag_set(bits: u64, n: u64) -> bool {
    bits & (1u64 << n) != 0
}

/// Whether the entry bits point to a page table: present, not a huge page,
/// and marked as a table.
pub open spec fn points_to_table(bits: u64) -> bool {
    flag_set(bits, 0) && !flag_set(bits, 7) && flag_set(bits, 10)
}

/// What `map_unchecked` leaves in an entry: the flags replaced by `flags`
/// with the present flag added, and the frame address in the address bits.
pub open spec fn mapped_entry_bits(old_bits: u64, frame: u64, flags: u64) -> u64 {
    ((((old_bits & ADDRESS_MASK) | flags) | 1u64) & !ADDRESS_MASK) | (frame & ADDRESS_MASK)
}

/// The bits of the usual combinations of flags.
proof fn lemma_boot_flag_facts()
    by (bit_vector)
    ensures
        ((0u64 | (1u64 << 0u64)) | (1u64 << 1u64)) | (1u64 << 10u64) == 0x403,
        ((0u64 | (1u64 << 0u64)) | (1u64 << 1u64)) | (1u64 << 7u64) == 0x83,
        (0u64 | (1u64 << 0u64)) | (1u64 << 1u64) == 0x3,
        1u64 << 0u64 == 1u64,
{
}

/// The flags of a page table entry.
#[derive(Clone, Copy, Debug)]
pub struct PageEntryFlags(u64);

impl PageEntryFlags {
    /// The raw bits of the flags.
    pub closed spec fn bits(&self) -> u64 {
        self.0
    }

    /// Flags with every bit cleared.
    pub fn new() -> (r: PageEntryFlags)
        ensures
            r.bits() == 0,
    {
        PageEntryFlags(0)
    }

    /// Flags of an entry that points to a page table: present, writable,
    /// table.
    pub fn table_flags() -> (r: PageEntryFlags)
        ensures
            r.bits() == 0x403,
    {
        let r = PageEntryFlags::new().set_chain_present().set_chain_writable().set_chain_is_table();
        proof {
            lemma_boot_flag_facts();
        }
        r
    }

    /// Flags of an entry that maps a huge page: present, writable, huge page.
    pub fn huge_page_flags() -> (r: PageEntryFlags)
        ensures
            r.bits() == 0x83,
    {
        let r = PageEntryFlags::new().set_chain_present().set_chain_writable().set_chain_huge_page();
        proof {
            lemma_boot_flag_facts();
        }
        r
    }

    /// Flags of an entry that maps a regular page: present, writable.
    pub fn regular_page_flags() -> (r: PageEntryFlags)
        ensures
            r.bits() == 0x3,
    {
        let r = PageEntryFlags::new().set_chain_present().set_chain_writable();
        proof {
            lemma_boot_flag_facts();
        }
        r
    }

    /// The raw bits of the flags.
    pub fn as_u64(&self) -> (r: u64)
        ensures
            r == self.bits(),
    {
        self.0
    }

    /// Sets the flag that says the page is present.
    pub fn set_present(&mut self)
        ensures
            final(self).bits() == old(self).bits() | (1u64 << 0u64),
    {
        self.0 = self.0 | (1u64 << 0u64);
    }

    /// This value with the flag that says the page is present set.
    pub fn set_chain_present(self) -> (r: PageEntryFlags)
        ensures
            r.bits() == self.bits() | (1u64 << 0u64),
    {
        PageEntryFlags(self.0 | (1u64 << 0u64))
    }

    /// Whether the flag that says the page is present is set.
    pub fn present(&self) -> (r: bool)
        ensures
            r == flag_set(self.bits(), 0),
    {
        self.0 & (1u64 << 0u64) != 0
    }

    /// Sets the flag that says the page is writable.
    pub fn set_writable(&mut self)
        ensures
            final(self).bits() == old(self).bits() | (1u64 << 1u64),
    {
        self.0 = self.0 | (1u64 << 1u64);
    }

    /// This value with the flag that says the page is writable set.
    pub fn set_chain_writable(self) -> (r: PageEntryFlags)
        ensures
            r.bits() == self.bits() | (1u64 << 1u64),
    {
        PageEntryFlags(self.0 | (1u64 << 1u64))
    }

    /// Whether the flag that says the page is writable is set.
    pub fn writable(&self) -> (r: bool)
        ensures
            r == flag_set(self.bits(), 1),
    {
        self.0 & (1u64 << 1u64) != 0
    }

    /// Sets the flag that says user mode may access the page.
    pub fn set_usr_access(&mut self)
        ensures
            final(self).bits() == old(self).bits() | (1u64 << 2u64),
    {
        self.0 = self.0 | (1u64 << 2u64);
    }

    /// This value with the flag that says user mode may access the page set.
    pub fn set_chain_usr_access(self) -> (r: PageEntryFlags)
        ensures
            r.bits() == self.bits() | (1u64 << 2u64),
    {
        PageEntryFlags(self.0 | (1u64 << 2u64))
    }

    /// Whether the flag that says user mode may access the page is set.
    pub fn usr_access(&self) -> (r: bool)
        ensures
            r == flag_set(self.bits(), 2),
    {
        self.0 & (1u64 << 2u64) != 0
    }

    /// Sets the flag that says writes go straight to memory.
    pub fn set_write_through_cache(&mut self)
        ensures
            final(self).bits() == old(self).bits() | (1u64 << 3u64),
    {
        self.0 = self.0 | (1u64 << 3u64);
    }

    /// This value with the flag that says writes go straight to memory set.
    pub fn set_chain_write_through_cache(self) -> (r: PageEntryFlags)
        ensures
            r.bits() == self.bits() | (1u64 << 3u64),
    {
        PageEntryFlags(self.0 | (1u64 << 3u64))
    }

    /// Whether the flag that says writes go straight to memory is set.
    pub fn write_through_cache(&self) -> (r: bool)
        ensures
            r == flag_set(self.bits(), 3),
    {
        self.0 & (1u64 << 3u64) != 0
    }

    /// Sets the flag that says caching is disabled.
    pub fn set_disable_cache(&mut self)
        ensures
            final(self).bits() == old(self).bits() | (1u64 << 4u64),
    {
        self.0 = self.0 | (1u64 << 4u64);
    }

    /// This value with the flag that says caching is disabled set.
    pub fn set_chain_disable_cache(self) -> (r: PageEntryFlags)
        ensures
            r.bits() == self.bits() | (1u64 << 4u64),
    {
        PageEntryFlags(self.0 | (1u64 << 4u64))
    }

    /// Whether the flag that says caching is disabled is set.
    pub fn disable_cache(&self) -> (r: bool)
        ensures
            r == flag_set(self.bits(), 4),
    {
        self.0 & (1u64 << 4u64) != 0
    }

    /// Sets the flag that says the entry maps a huge page.
    pub fn set_huge_page(&mut self)
        ensures
            final(self).bits() == old(self).bits() | (1u64 << 7u64),
    {
        self.0 = self.0 | (1u64 << 7u64);
    }

    /// This value with the flag that says the entry maps a huge page set.
    pub fn set_chain_huge_page(self) -> (r: PageEntryFlags)
        ensures
            r.bits() == self.bits() | (1u64 << 7u64),
    {
        PageEntryFlags(self.0 | (1u64 << 7u64))
    }

    /// Whether the flag that says the entry maps a huge page is set.
    pub fn huge_page(&self) -> (r: bool)
        ensures
            r == flag_set(self.bits(), 7),
    {
        self.0 & (1u64 << 7u64) != 0
    }

    /// Sets the flag that says the page stays cached across address space switches.
    pub fn set_global(&mut self)
        ensures
            final(self).bits() == old(self).bits() | (1u64 << 8u64),
    {
        self.0 = self.0 | (1u64 << 8u64);
    }

    /// This value with the flag that says the page stays cached across address space switches set.
    pub fn set_chain_global(self) -> (r: PageEntryFlags)
        ensures
            r.bits() == self.bits() | (1u64 << 8u64),
    {
        PageEntryFlags(self.0 | (1u64 << 8u64))
    }

    /// Whether the flag that says the page stays cached across address space switches is set.
    pub fn global(&self) -> (r: bool)
        ensures
            r == flag_set(self.bits(), 8),
    {
        self.0 & (1u64 << 8u64) != 0
    }

    /// Sets the flag that says the table is marked full.
    pub fn set_full(&mut self)
        ensures
            final(self).bits() == old(self).bits() | (1u64 << 9u64),
    {
        self.0 = self.0 | (1u64 << 9u64);
    }

    /// This value with the flag that says the table is marked full set.
    pub fn set_chain_full(self) -> (r: PageEntryFlags)
        ensures
            r.bits() == self.bits() | (1u64 << 9u64),
    {
        PageEntryFlags(self.0 | (1u64 << 9u64))
    }

    /// Whether the flag that says the table is marked full is set.
    pub fn full(&self) -> (r: bool)
        ensures
            r == flag_set(self.bits(), 9),
    {
        self.0 & (1u64 << 9u64) != 0
    }

    /// Sets the flag that says the entry points to a page table.
    pub fn set_is_table(&mut self)
        ensures
            final(self).bits() == old(self).bits() | (1u64 << 10u64),
    {
        self.0 = self.0 | (1u64 << 10u64);
    }

    /// This value with the flag that says the entry points to a page table set.
    pub fn set_chain_is_table(self) -> (r: PageEntryFlags)
        ensures
            r.bits() == self.bits() | (1u64 << 10u64),
    {
        PageEntryFlags(self.0 | (1u64 << 10u64))
    }

    /// Whether the flag that says the entry points to a page table is set.
    pub fn is_table(&self) -> (r: bool)
        ensures
            r == flag_set(self.bits(), 10),
    {
        self.0 & (1u64 << 10u64) != 0
    }

    /// Sets the flag that says the entry is at the top of the hierarchy.
    pub fn set_root_entry(&mut self)
        ensures
            final(self).bits() == old(self).bits() | (1u64 << 11u64),
    {
        self.0 = self.0 | (1u64 << 11u64);
    }

    /// This value with the flag that says the entry is at the top of the hierarchy set.
    pub fn set_chain_root_entry(self) -> (r: PageEntryFlags)
        ensures
            r.bits() == self.bits() | (1u64 << 11u64),
    {
        PageEntryFlags(self.0 | (1u64 << 11u64))
    }

    /// Whether the flag that says the entry is at the top of the hierarchy is set.
    pub fn root_entry(&self) -> (r: bool)
        ensures
            r == flag_set(self.bits(), 11),
    {
        self.0 & (1u64 << 11u64) != 0
    }

    /// Sets the flag that says the page holds data and is not executable.
    pub fn set_not_executable(&mut self)
        ensures
            final(self).bits() == old(self).bits() | (1u64 << 63u64),
    {
        self.0 = self.0 | (1u64 << 63u64);
    }

    /// This value with the flag that says the page holds data and is not executable set.
    pub fn set_chain_not_executable(self) -> (r: PageEntryFlags)
        ensures
            r.bits() == self.bits() | (1u64 << 63u64),
    {
        PageEntryFlags(self.0 | (1u64 << 63u64))
    }

    /// Whether the flag that says the page holds data and is not executable is set.
    pub fn not_executable(&self) -> (r: bool)
        ensures
            r == flag_set(self.bits(), 63),
    {
        self.0 & (1u64 << 63u64) != 0
    }

}

/// An entry of a page table.
#[derive(Clone, Copy, Debug)]
pub struct PageTableEntry(u64);

impl PageTableEntry {
    /// The raw bits of the entry.
    pub closed spec fn bits(&self) -> u64 {
        self.0
    }

    /// An entry with every bit cleared.
    pub fn empty() -> (r: PageTableEntry)
        ensures
            r.bits() == 0,
    {
        PageTableEntry(0)
    }

    /// The entry that holds `bits`.
    pub closed spec fn spec_from_bits(bits: u64) -> PageTableEntry {
        PageTableEntry(bits)
    }

    /// The entry that holds `bits`, as read from memory.
    pub fn from_bits(bits: u64) -> (r: PageTableEntry)
        ensures
            r.bits() == bits,
            r == PageTableEntry::spec_from_bits(bits),
    {
        PageTableEntry(bits)
    }

    /// Sets the flag that says the page is present.
    pub fn set_present(&mut self)
        ensures
            final(self).bits() == old(self).bits() | (1u64 << 0u64),
    {
        self.0 = self.0 | (1u64 << 0u64);
    }

    /// This value with the flag that says the page is present set.
    pub fn set_chain_present(self) -> (r: PageTableEntry)
        ensures
            r.bits() == self.bits() | (1u64 << 0u64),
    {
        PageTableEntry(self.0 | (1u64 << 0u64))
    }

    /// Whether the flag that says the page is present is set.
    pub fn present(&self) -> (r: bool)
        ensures
            r == flag_set(self.bits(), 0),
    {
        self.0 & (1u64 << 0u64) != 0
    }

    /// Sets the flag that says the page is writable.
    pub fn set_writable(&mut self)
        ensures
            final(self).bits() == old(self).bits() | (1u64 << 1u64),
    {
        self.0 = self.0 | (1u64 << 1u64);
    }

    /// This value with the flag that says the page is writable set.
    pub fn set_chain_writable(self) -> (r: PageTableEntry)
        ensures
            r.bits() == self.bits() | (1u64 << 1u64),
    {
        PageTableEntry(self.0 | (1u64 << 1u64))
    }

    /// Whether the flag that says the page is writable is set.
    pub fn writable(&self) -> (r: bool)
        ensures
            r == flag_set(self.bits(), 1),
    {
        self.0 & (1u64 << 1u64) != 0
    }

    /// Sets the flag that says user mode may access the page.
    pub fn set_usr_access(&mut self)
        ensures
            final(self).bits() == old(self).bits() | (1u64 << 2u64),
    {
        self.0 = self.0 | (1u64 << 2u64);
    }

    /// This value with the flag that says user mode may access the page set.
    pub fn set_chain_usr_access(self) -> (r: PageTableEntry)
        ensures
            r.bits() == self.bits() | (1u64 << 2u64),
    {
        PageTableEntry(self.0 | (1u64 << 2u64))
    }

    /// Whether the flag that says user mode may access the page is set.
    pub fn usr_access(&self) -> (r: bool)
        ensures
            r == flag_set(self.bits(), 2),
    {
        self.0 & (1u64 << 2u64) != 0
    }

    /// Sets the flag that says writes go straight to memory.
    pub fn set_write_through_cache(&mut self)
        ensures
            final(self).bits() == old(self).bits() | (1u64 << 3u64),
    {
        self.0 = self.0 | (1u64 << 3u64);
    }

    /// This value with the flag that says writes go straight to memory set.
    pub fn set_chain_write_through_cache(self) -> (r: PageTableEntry)
        ensures
            r.bits() == self.bits() | (1u64 << 3u64),
    {
        PageTableEntry(self.0 | (1u64 << 3u64))
    }

    /// Whether the flag that says writes go straight to memory is set.
    pub fn write_through_cache(&self) -> (r: bool)
        ensures
            r == flag_set(self.bits(), 3),
    {
        self.0 & (1u64 << 3u64) != 0
    }

    /// Sets the flag that says caching is disabled.
    pub fn set_disable_cache(&mut self)
        ensures
            final(self).bits() == old(self).bits() | (1u64 << 4u64),
    {
        self.0 = self.0 | (1u64 << 4u64);
    }

    /// This value with the flag that says caching is disabled set.
    pub fn set_chain_disable_cache(self) -> (r: PageTableEntry)
        ensures
            r.bits() == self.bits() | (1u64 << 4u64),
    {
        PageTableEntry(self.0 | (1u64 << 4u64))
    }

    /// Whether the flag that says caching is disabled is set.
    pub fn disable_cache(&self) -> (r: bool)
        ensures
            r == flag_set(self.bits(), 4),
    {
        self.0 & (1u64 << 4u64) != 0
    }

    /// Sets the flag that says the entry maps a huge page.
    pub fn set_huge_page(&mut self)
        ensures
            final(self).bits() == old(self).bits() | (1u64 << 7u64),
    {
        self.0 = self.0 | (1u64 << 7u64);
    }

    /// This value with the flag that says the entry maps a huge page set.
    pub fn set_chain_huge_page(self) -> (r: PageTableEntry)
        ensures
            r.bits() == self.bits() | (1u64 << 7u64),
    {
        PageTableEntry(self.0 | (1u64 << 7u64))
    }

    /// Whether the flag that says the entry maps a huge page is set.
    pub fn huge_page(&self) -> (r: bool)
        ensures
            r == flag_set(self.bits(), 7),
    {
        self.0 & (1u64 << 7u64) != 0
    }

    /// Sets the flag that says the page stays cached across address space switches.
    pub fn set_global(&mut self)
        ensures
            final(self).bits() == old(self).bits() | (1u64 << 8u64),
    {
        self.0 = self.0 | (1u64 << 8u64);
    }

    /// This value with the flag that says the page stays cached across address space switches set.
    pub fn set_chain_global(self) -> (r: PageTableEntry)
        ensures
            r.bits() == self.bits() | (1u64 << 8u64),
    {
        PageTableEntry(self.0 | (1u64 << 8u64))
    }

    /// Whether the flag that says the page stays cached across address space switches is set.
    pub fn global(&self) -> (r: bool)
        ensures
            r == flag_set(self.bits(), 8),
    {
        self.0 & (1u64 << 8u64) != 0
    }

    /// Sets the flag that says the table is marked full.
    pub fn set_full(&mut self)
        ensures
            final(self).bits() == old(self).bits() | (1u64 << 9u64),
    {
        self.0 = self.0 | (1u64 << 9u64);
    }

    /// This value with the flag that says the table is marked full set.
    pub fn set_chain_full(self) -> (r: PageTableEntry)
        ensures
            r.bits() == self.bits() | (1u64 << 9u64),
    {
        PageTableEntry(self.0 | (1u64 << 9u64))
    }

    /// Whether the flag that says the table is marked full is set.
    pub fn full(&self) -> (r: bool)
        ensures
            r == flag_set(self.bits(), 9),
    {
        self.0 & (1u64 << 9u64) != 0
    }

    /// Sets the flag that says the entry points to a page table.
    pub fn set_is_table(&mut self)
        ensures
            final(self).bits() == old(self).bits() | (1u64 << 10u64),
    {
        self.0 = self.0 | (1u64 << 10u64);
    }

    /// This value with the flag that says the entry points to a page table set.
    pub fn set_chain_is_table(self) -> (r: PageTableEntry)
        ensures
            r.bits() == self.bits() | (1u64 << 10u64),
    {
        PageTableEntry(self.0 | (1u64 << 10u64))
    }

    /// Whether the flag that says the entry points to a page table is set.
    pub fn is_table(&self) -> (r: bool)
        ensures
            r == flag_set(self.bits(), 10),
    {
        self.0 & (1u64 << 10u64) != 0
    }

    /// Sets the flag that says the entry is at the top of the hierarchy.
    pub fn set_root_entry(&mut self)
        ensures
            final(self).bits() == old(self).bits() | (1u64 << 11u64),
    {
        self.0 = self.0 | (1u64 << 11u64);
    }

    /// This value with the flag that says the entry is at the top of the hierarchy set.
    pub fn set_chain_root_entry(self) -> (r: PageTableEntry)
        ensures
            r.bits() == self.bits() | (1u64 << 11u64),
    {
        PageTableEntry(self.0 | (1u64 << 11u64))
    }

    /// Whether the flag that says the entry is at the top of the hierarchy is set.
    pub fn root_entry(&self) -> (r: bool)
        ensures
            r == flag_set(self.bits(), 11),
    {
        self.0 & (1u64 << 11u64) != 0
    }

    /// Sets the flag that says the page holds data and is not executable.
    pub fn set_not_executable(&mut self)
        ensures
            final(self).bits() == old(self).bits() | (1u64 << 63u64),
    {
        self.0 = self.0 | (1u64 << 63u64);
    }

    /// This value with the flag that says the page holds data and is not executable set.
    pub fn set_chain_not_executable(self) -> (r: PageTableEntry)
        ensures
            r.bits() == self.bits() | (1u64 << 63u64),
    {
        PageTableEntry(self.0 | (1u64 << 63u64))
    }

    /// Whether the flag that says the page holds data and is not executable is set.
    pub fn not_executable(&self) -> (r: bool)
        ensures
            r == flag_set(self.bits(), 63),
    {
        self.0 & (1u64 << 63u64) != 0
    }

    /// Replaces the flags of the entry with `flags`, keeping the address bits.
    pub fn set_flags(&mut self, flags: PageEntryFlags)
        ensures
            final(self).bits() == (old(self).bits() & ADDRESS_MASK) | flags.bits(),
    {
        self.0 = self.0 & ADDRESS_MASK;
        self.0 = self.0 | flags.as_u64();
    }

    /// Maps `frame` with `flags` when the entry is not present and the frame
    /// is aligned to a regular page; otherwise leaves the entry unchanged.
    /// The present flag is always added.
    pub fn map(&mut self, frame: PhysicalAddress, flags: PageEntryFlags)
        ensures
            !flag_set(old(self).bits(), 0) && aligned_to(frame@, REGULAR_PAGE_SIZE as u64)
                ==> final(self).bits() == mapped_entry_bits(old(self).bits(), frame@, flags.bits()),
            flag_set(old(self).bits(), 0) || !aligned_to(frame@, REGULAR_PAGE_SIZE as u64)
                ==> final(self).bits() == old(self).bits(),
    {
        if !self.present() && frame.is_aligned(Alignment::regular_page()) {
            self.map_unchecked(frame, flags);
        }
    }

    /// Maps `frame` with `flags` and the present flag, without looking at
    /// what the entry held or at the alignment of the frame.
    pub fn map_unchecked(&mut self, frame: PhysicalAddress, flags: PageEntryFlags)
        ensures
            final(self).bits() == mapped_entry_bits(old(self).bits(), frame@, flags.bits()),
    {
        self.set_flags(flags);
        self.set_present();
        self.0 = self.0 & !ADDRESS_MASK;
        self.0 = self.0 | (frame.as_u64() & ADDRESS_MASK);
        proof {
            lemma_boot_flag_facts();
        }
    }

    /// The address of the frame the entry maps, when it is present.
    pub fn mapped(&self) -> (r: Result<PhysicalAddress, EntryError>)
        ensures
            flag_set(self.bits(), 0) ==> (r matches Ok(a) && a@ == self.bits() & ADDRESS_MASK),
            !flag_set(self.bits(), 0) ==> r == Err::<PhysicalAddress, EntryError>(
                EntryError::NoMapping,
            ),
    {
        if self.present() {
            Ok(self.mapped_unchecked())
        } else {
            Err(EntryError::NoMapping)
        }
    }

    /// The address held in the address bits of the entry, present or not.
    pub fn mapped_unchecked(&self) -> (r: PhysicalAddress)
        ensures
            r@ == self.bits() & ADDRESS_MASK,
    {
        PhysicalAddress::new_unchecked(self.0 & ADDRESS_MASK)
    }

    /// The page table this entry points to, looked up in `memory` at the
    /// frame address (page tables are identity mapped).
    pub fn mapped_table<'a>(&self, memory: &'a TableMemory) -> (r: Result<&'a PageTable, EntryError>)
        requires
            memory.wf(),
            points_to_table(self.bits()) ==> memory.holds(self.bits() & ADDRESS_MASK),
        ensures
            !flag_set(self.bits(), 0) ==> r == Err::<&PageTable, EntryError>(EntryError::NoMapping),
            flag_set(self.bits(), 0) && !points_to_table(self.bits()) ==> r == Err::<
                &PageTable,
                EntryError,
            >(EntryError::NotATable),
            points_to_table(self.bits()) ==> (r matches Ok(t) && *t == memory.table_at(
                self.bits() & ADDRESS_MASK,
            )),
    {
        let frame = match self.mapped() {
            Ok(a) => a,
            Err(e) => return Err(e),
        };
        if !self.huge_page() && self.is_table() {
            let i = memory.position(frame.as_u64());
            match i {
                Some(i) => Ok(&memory.tables[i].1),
                None => vstd::pervasive::unreached(),
            }
        } else {
            Err(EntryError::NotATable)
        }
    }

    /// The raw bits of the entry.
    pub fn as_u64(&self) -> (r: u64)
        ensures
            r == self.bits(),
    {
        self.0
    }
}

/// A page table: 512 entries.
#[derive(Clone, Copy, Debug)]
pub struct PageTable {
    pub entries: [PageTableEntry; PAGE_DIRECTORY_ENTRIES],
}

/// The page tables that memory holds, each with the physical address it
/// sits at. Page tables are identity mapped, so an entry that points to a
/// table names it by that address.
#[derive(Clone, Debug)]
pub struct TableMemory {
    pub tables: Vec<(u64, PageTable)>,
}

impl TableMemory {
    /// No two tables sit at one address.
    pub open spec fn wf(&self) -> bool {
        forall|i: int, j: int|
            0 <= i < self.tables@.len() && 0 <= j < self.tables@.len() && i != j
                ==> #[trigger] self.tables@[i].0 != #[trigger] self.tables@[j].0
    }

    /// Whether a table sits at `addr`.
    pub open spec fn holds(&self, addr: u64) -> bool {
        exists|i: int| 0 <= i < self.tables@.len() && #[trigger] self.tables@[i].0 == addr
    }

    /// The table at `addr`.
    pub open spec fn table_at(&self, addr: u64) -> PageTable {
        self.tables@[choose|i: int| 0 <= i < self.tables@.len() && #[trigger] self.tables@[i].0
            == addr].1
    }

    /// Every table that an entry of a held table points to is held too.
    pub open spec fn closed(&self) -> bool {
        forall|i: int, k: int|
            0 <= i < self.tables@.len() && 0 <= k < 512 && points_to_table(
                #[trigger] self.tables@[i].1.entries@[k].bits(),
            ) ==> self.holds(self.tables@[i].1.entries@[k].bits() & ADDRESS_MASK)
    }

    /// The index of the table at `addr`, if memory holds one.
    pub fn position(&self, addr: u64) -> (r: Option<usize>)
        requires
            self.wf(),
        ensures
            r is None <==> !self.holds(addr),
            r matches Some(i) ==> i < self.tables@.len() && self.tables@[i as int].0 == addr
                && self.tables@[i as int].1 == self.table_at(addr),
    {
        let mut i: usize = 0;
        while i < self.tables.len()
            invariant
                i <= self.tables@.len(),
                self.wf(),
                forall|j: int| 0 <= j < i ==> #[trigger] self.tables@[j].0 != addr,
            decreases self.tables@.len() - i,
        {
            if self.tables[i].0 == addr {
                assert(self.tables@[i as int].0 == addr);
                assert(self.holds(addr));
                let ghost c = choose|j: int|
                    0 <= j < self.tables@.len() && #[trigger] self.tables@[j].0 == addr;
                assert(self.tables@[c].0 == addr);
                assert(c == i);
                return Some(i);
            }
            i = i + 1;
        }
        None
    }
}

/// Whether the search for a free page stops at an entry: it is not present,
/// or it points to a table that the page fits below.
pub open spec fn stops_at(bits: u64, level: int, page_size: PageSize) -> bool {
    !flag_set(bits, 0) || (points_to_table(bits) && !(3 - page_size.spec_as_usize() <= level))
}

/// The first index from `start` whose entry stops the search, or 512.
pub open spec fn next_stop(t: PageTable, start: int, level: int, page_size: PageSize) -> int
    decreases 512 - start,
{
    if start < 0 || start >= 512 {
        512
    } else if stops_at(t.entries@[start].bits(), level, page_size) {
        start
    } else {
        next_stop(t, start + 1, level, page_size)
    }
}

/// `n` zero indices.
pub open spec fn zero_indices(n: int) -> Seq<usize> {
    Seq::new(n as nat, |i: int| 0usize)
}

/// The table indices, from `level` down, of the first page that the search
/// from entry `start` of the table at `addr` finds unmapped. Entries that
/// point to tables are searched depth first, in order; a table that the page
/// does not fit below is passed over, as is a present entry that is no table.
pub open spec fn first_free(
    memory: TableMemory,
    addr: u64,
    level: int,
    page_size: PageSize,
    start: int,
) -> Option<Seq<usize>>
    decreases 4 - level, 512 - start,
{
    if !(0 <= level <= 3 && 0 <= start < 512) || !memory.holds(addr) {
        None
    } else {
        let bits = memory.table_at(addr).entries@[start].bits();
        if !flag_set(bits, 0) {
            Some(seq![start as usize] + zero_indices(3 - level))
        } else if points_to_table(bits) && !(3 - page_size.spec_as_usize() <= level) && level < 3 {
            match first_free(memory, bits & ADDRESS_MASK, level + 1, page_size, 0) {
                Some(rest) => Some(seq![start as usize] + rest),
                None => first_free(memory, addr, level, page_size, start + 1),
            }
        } else {
            first_free(memory, addr, level, page_size, start + 1)
        }
    }
}

/// What the search finds has an index for each level from `level` down, and
/// the indices below the level where a page of `page_size` sits are zero:
/// the search goes no deeper than that level.
proof fn lemma_first_free_shape(memory: TableMemory, addr: u64, level: int, page_size: PageSize, start: int)
    requires
        0 <= level <= 3 - page_size.spec_as_usize(),
    ensures
        first_free(memory, addr, level, page_size, start) matches Some(s) ==> {
            &&& s.len() == 4 - level
            &&& forall|k: int| 0 <= k < s.len() && level + k > 3 - page_size.spec_as_usize() ==> #[trigger] s[k] == 0
        },
    decreases 4 - level, 512 - start,
{
    if 0 <= start < 512 && memory.holds(addr) {
        let bits = memory.table_at(addr).entries@[start].bits();
        if !flag_set(bits, 0) {
        } else if points_to_table(bits) && !(3 - page_size.spec_as_usize() <= level) && level < 3 {
            lemma_first_free_shape(memory, bits & ADDRESS_MASK, level + 1, page_size, 0);
            lemma_first_free_shape(memory, addr, level, page_size, start + 1);
            match first_free(memory, bits & ADDRESS_MASK, level + 1, page_size, 0) {
                Some(rest) => {
                    let s = seq![start as usize] + rest;
                    assert forall|k: int| 0 <= k < s.len() && level + k > 3 - page_size.spec_as_usize() implies #[trigger] s[k] == 0 by {
                        assert(s[k] == rest[k - 1]);
                    }
                },
                None => {},
            }
        } else {
            lemma_first_free_shape(memory, addr, level, page_size, start + 1);
        }
    }
}

/// The address of four table indices is aligned to a page of `page_size`
/// when the indices below the level of such a page are zero.
proof fn lemma_indexes_aligned(i4: usize, i3: usize, i2: usize, i1: usize, page_size: PageSize)
    requires
        page_size.spec_as_usize() >= 1 ==> i1 == 0,
        page_size.spec_as_usize() >= 2 ==> i2 == 0,
    ensures
        aligned_to(address_from_indexes(i4, i3, i2, i1), page_size.spec_size() as u64),
{
    let (a, b, c, d) = (i4 as u64, i3 as u64, i2 as u64, i1 as u64);
    assert(((a << 39u64) | (b << 30u64) | (c << 21u64) | (d << 12u64)) & 0xfffu64 == 0) by (bit_vector);
    assert(d == 0 ==> ((a << 39u64) | (b << 30u64) | (c << 21u64) | (d << 12u64)) & 0x1f_ffffu64 == 0)
        by (bit_vector);
    assert(c == 0 && d == 0 ==> ((a << 39u64) | (b << 30u64) | (c << 21u64) | (d << 12u64)) & 0x3fff_ffffu64
        == 0) by (bit_vector);
}

/// The index `next_stop` gives is not below `start`, and, below 512, the
/// entry there stops the search.
proof fn lemma_next_stop(t: PageTable, start: int, level: int, page_size: PageSize)
    requires
        0 <= start <= 512,
    ensures
        start <= next_stop(t, start, level, page_size) <= 512,
        next_stop(t, start, level, page_size) < 512 ==> stops_at(
            t.entries@[next_stop(t, start, level, page_size)].bits(),
            level,
            page_size,
        ),
    decreases 512 - start,
{
    if start < 512 && !stops_at(t.entries@[start].bits(), level, page_size) {
        lemma_next_stop(t, start + 1, level, page_size);
    }
}

/// Entries that do not stop the search are passed over by it.
proof fn lemma_first_free_skips(
    memory: TableMemory,
    addr: u64,
    level: int,
    page_size: PageSize,
    start: int,
)
    requires
        0 <= level <= 3,
        0 <= start <= 512,
        memory.holds(addr),
    ensures
        first_free(memory, addr, level, page_size, start) == first_free(
            memory,
            addr,
            level,
            page_size,
            next_stop(memory.table_at(addr), start, level, page_size),
        ),
        start <= next_stop(memory.table_at(addr), start, level, page_size) <= 512,
    decreases 512 - start,
{
    let t = memory.table_at(addr);
    if start < 512 && !stops_at(t.entries@[start].bits(), level, page_size) {
        lemma_first_free_skips(memory, addr, level, page_size, start + 1);
    }
}

/// Whether the walk from the table at `addr`, at `level`, along the table
/// indices `idx` ends at an entry that is not present, where a page of
/// `page_size` fits, with every index after it zero: the page is free.
pub open spec fn free_at(
    memory: TableMemory,
    addr: u64,
    level: int,
    page_size: PageSize,
    idx: Seq<usize>,
) -> bool
    decreases 4 - level,
{
    if !(0 <= level <= 3) || idx.len() != 4 - level || !memory.holds(addr) || idx[0] >= 512 {
        false
    } else {
        let bits = memory.table_at(addr).entries@[idx[0] as int].bits();
        if !flag_set(bits, 0) {
            level <= 3 - page_size.spec_as_usize() && idx.drop_first() == zero_indices(3 - level)
        } else if points_to_table(bits) && level < 3 {
            free_at(memory, bits & ADDRESS_MASK, level + 1, page_size, idx.drop_first())
        } else {
            false
        }
    }
}

/// The page the search finds is free: walking the tables along its indices
/// ends at an entry that is not present, at a level whose entries cover at
/// least a page of the size searched for, and the indices below it are zero.
pub proof fn lemma_first_free_is_free(
    memory: TableMemory,
    addr: u64,
    level: int,
    page_size: PageSize,
    start: int,
)
    requires
        0 <= level <= 3 - page_size.spec_as_usize(),
        first_free(memory, addr, level, page_size, start) is Some,
    ensures
        free_at(memory, addr, level, page_size, first_free(memory, addr, level, page_size, start)->0),
    decreases 4 - level, 512 - start,
{
    let s = first_free(memory, addr, level, page_size, start)->0;
    let bits = memory.table_at(addr).entries@[start].bits();
    if !flag_set(bits, 0) {
        assert(s.drop_first() =~= zero_indices(3 - level));
    } else if points_to_table(bits) && !(3 - page_size.spec_as_usize() <= level) && level < 3 {
        match first_free(memory, bits & ADDRESS_MASK, level + 1, page_size, 0) {
            Some(rest) => {
                lemma_first_free_is_free(memory, bits & ADDRESS_MASK, level + 1, page_size, 0);
                assert(s.drop_first() =~= rest);
            },
            None => {
                lemma_first_free_is_free(memory, addr, level, page_size, start + 1);
            },
        }
    } else {
        lemma_first_free_is_free(memory, addr, level, page_size, start + 1);
    }
}

/// The table indices `a` come before or are `b`, the first index deciding.
pub open spec fn indices_le(a: Seq<usize>, b: Seq<usize>) -> bool
    decreases a.len(),
{
    if a.len() == 0 || b.len() == 0 {
        true
    } else if a[0] != b[0] {
        a[0] < b[0]
    } else {
        indices_le(a.drop_first(), b.drop_first())
    }
}

/// Every sequence of indices comes before or is itself.
proof fn lemma_indices_le_refl(a: Seq<usize>)
    ensures
        indices_le(a, a),
    decreases a.len(),
{
    if a.len() > 0 {
        lemma_indices_le_refl(a.drop_first());
    }
}

/// A free page sits at a level whose entries hold at least a page of the
/// size asked for, and each of its indices selects an entry of a table.
proof fn lemma_free_at_shape(memory: TableMemory, addr: u64, level: int, page_size: PageSize, idx: Seq<usize>)
    requires
        free_at(memory, addr, level, page_size, idx),
    ensures
        level <= 3 - page_size.spec_as_usize(),
        idx.len() == 4 - level,
        forall|k: int| 0 <= k < idx.len() ==> #[trigger] idx[k] < 512,
    decreases 4 - level,
{
    let bits = memory.table_at(addr).entries@[idx[0] as int].bits();
    if flag_set(bits, 0) {
        lemma_free_at_shape(memory, bits & ADDRESS_MASK, level + 1, page_size, idx.drop_first());
        assert forall|k: int| 0 <= k < idx.len() implies #[trigger] idx[k] < 512 by {
            if k > 0 {
                assert(idx[k] == idx.drop_first()[k - 1]);
            }
        }
    } else {
        assert forall|k: int| 0 <= k < idx.len() implies #[trigger] idx[k] < 512 by {
            if k > 0 {
                assert(idx[k] == idx.drop_first()[k - 1]);
            }
        }
    }
}

/// The search from entry `start` finds a page whenever some page from that
/// entry on is free, and the one it finds comes first.
proof fn lemma_first_free_least(
    memory: TableMemory,
    addr: u64,
    level: int,
    page_size: PageSize,
    start: int,
    idx: Seq<usize>,
)
    requires
        0 <= level <= 3 - page_size.spec_as_usize(),
        0 <= start,
        free_at(memory, addr, level, page_size, idx),
        start <= idx[0],
    ensures
        first_free(memory, addr, level, page_size, start) matches Some(s) && indices_le(s, idx),
    decreases 4 - level, 512 - start,
{
    let bits = memory.table_at(addr).entries@[start].bits();
    let s = first_free(memory, addr, level, page_size, start);
    if !flag_set(bits, 0) {
        let found = seq![start as usize] + zero_indices(3 - level);
        assert(s == Some(found));
        if idx[0] == start {
            assert(idx =~= found);
            lemma_indices_le_refl(found);
        }
    } else if points_to_table(bits) && !(3 - page_size.spec_as_usize() <= level) && level < 3 {
        let child = bits & ADDRESS_MASK;
        if idx[0] == start {
            lemma_free_at_shape(memory, addr, level, page_size, idx);
            lemma_first_free_least(memory, child, level + 1, page_size, 0, idx.drop_first());
            let rest = first_free(memory, child, level + 1, page_size, 0)->0;
            assert((seq![start as usize] + rest).drop_first() =~= rest);
        } else {
            match first_free(memory, child, level + 1, page_size, 0) {
                Some(rest) => {},
                None => {
                    lemma_first_free_least(memory, addr, level, page_size, start + 1, idx);
                },
            }
        }
    } else {
        if idx[0] == start {
            if points_to_table(bits) && level < 3 {
                lemma_free_at_shape(memory, bits & ADDRESS_MASK, level + 1, page_size, idx.drop_first());
            }
        } else {
            lemma_first_free_least(memory, addr, level, page_size, start + 1, idx);
        }
    }
}

/// With indices below 512, the address of four table indices is the sum of
/// each index times the size its entries cover.
proof fn lemma_indexes_value(i4: u64, i3: u64, i2: u64, i1: u64)
    requires
        i4 < 512,
        i3 < 512,
        i2 < 512,
        i1 < 512,
    ensures
        (i4 << 39u64) | (i3 << 30u64) | (i2 << 21u64) | (i1 << 12u64) == i4 * 0x80_0000_0000 + i3
            * 0x4000_0000 + i2 * 0x20_0000 + i1 * 0x1000,
{
    assert((i4 << 39u64) | (i3 << 30u64) | (i2 << 21u64) | (i1 << 12u64) == i4 * 0x80_0000_0000 + i3
        * 0x4000_0000 + i2 * 0x20_0000 + i1 * 0x1000) by (bit_vector)
        requires
            i4 < 512,
            i3 < 512,
            i2 < 512,
            i1 < 512,
    ;
}

/// Of two sequences of four table indices below 512, the one that comes
/// first gives the lower address.
proof fn lemma_indices_le_address(a: Seq<usize>, b: Seq<usize>)
    requires
        a.len() == 4,
        b.len() == 4,
        forall|k: int| 0 <= k < 4 ==> #[trigger] a[k] < 512,
        forall|k: int| 0 <= k < 4 ==> #[trigger] b[k] < 512,
        indices_le(a, b),
    ensures
        address_from_indexes(a[0], a[1], a[2], a[3]) <= address_from_indexes(b[0], b[1], b[2], b[3]),
{
    lemma_indexes_value(a[0] as u64, a[1] as u64, a[2] as u64, a[3] as u64);
    lemma_indexes_value(b[0] as u64, b[1] as u64, b[2] as u64, b[3] as u64);
    let (a1, b1) = (a.drop_first(), b.drop_first());
    let (a2, b2) = (a1.drop_first(), b1.drop_first());
    let (a3, b3) = (a2.drop_first(), b2.drop_first());
    assert(a1[0] == a[1] && a2[0] == a[2] && a3[0] == a[3]);
    assert(b1[0] == b[1] && b2[0] == b[2] && b3[0] == b[3]);
    assert(indices_le(a3.drop_first(), b3.drop_first()));
    assert(indices_le(a3, b3) == (a3[0] <= b3[0]));
    assert(indices_le(a2, b2) == (if a2[0] != b2[0] { a2[0] < b2[0] } else { indices_le(a3, b3) }));
    assert(indices_le(a1, b1) == (if a1[0] != b1[0] { a1[0] < b1[0] } else { indices_le(a2, b2) }));
    assert(indices_le(a, b) == (if a[0] != b[0] { a[0] < b[0] } else { indices_le(a1, b1) }));
}

/// The page the search of the hierarchy rooted at `root` finds is the
/// lowest free page: whenever some page of `page_size` is free, the search
/// finds one, at an address no higher than that page's.
pub proof fn lemma_first_free_is_lowest(memory: TableMemory, root: u64, page_size: PageSize, idx: Seq<usize>)
    requires
        free_at(memory, root, 0, page_size, idx),
    ensures
        first_free(memory, root, 0, page_size, 0) matches Some(s) && address_from_indexes(s[0], s[1], s[2], s[3])
            <= address_from_indexes(idx[0], idx[1], idx[2], idx[3]),
{
    lemma_free_at_shape(memory, root, 0, page_size, idx);
    lemma_first_free_least(memory, root, 0, page_size, 0, idx);
    lemma_first_free_shape(memory, root, 0, page_size, 0);
    let s = first_free(memory, root, 0, page_size, 0)->0;
    lemma_first_free_is_free(memory, root, 0, page_size, 0);
    lemma_free_at_shape(memory, root, 0, page_size, s);
    lemma_indices_le_address(s, idx);
}

impl PageTable {
    /// A page table with every entry cleared.
    pub fn empty() -> (r: PageTable)
        ensures
            forall|i: int| 0 <= i < 512 ==> #[trigger] r.entries@[i].bits() == 0,
    {
        PageTable { entries: [PageTableEntry::empty(); PAGE_DIRECTORY_ENTRIES] }
    }

    /// Looks from entry `start_at` for the first entry that is not present
    /// or that points to a table the page fits below. Gives its index with
    /// the table it points to, if any; `(512, None)` when there is none.
    fn fetch_table_or_empty<'a>(
        &self,
        memory: &'a TableMemory,
        start_at: usize,
        table_level: &PageTableLevel,
        page_size: &PageSize,
    ) -> (r: (usize, Option<&'a PageTable>))
        requires
            memory.wf(),
            forall|k: int|
                0 <= k < 512 && points_to_table(#[trigger] self.entries@[k].bits())
                    ==> memory.holds(self.entries@[k].bits() & ADDRESS_MASK),
        ensures
            r.0 == next_stop(*self, start_at as int, table_level.spec_as_usize() as int, *page_size),
            r.0 < 512 && flag_set(self.entries@[r.0 as int].bits(), 0) ==> (r.1 matches Some(t)
                && *t == memory.table_at(self.entries@[r.0 as int].bits() & ADDRESS_MASK)),
            r.0 < 512 && !flag_set(self.entries@[r.0 as int].bits(), 0) ==> r.1 is None,
            r.0 >= 512 ==> r.1 is None,
    {
        let mut i = start_at;
        while i < PAGE_DIRECTORY_ENTRIES
            invariant
                start_at <= i || i >= 512,
                memory.wf(),
                forall|k: int|
                    0 <= k < 512 && points_to_table(#[trigger] self.entries@[k].bits())
                        ==> memory.holds(self.entries@[k].bits() & ADDRESS_MASK),
                next_stop(*self, start_at as int, table_level.spec_as_usize() as int, *page_size)
                    == next_stop(*self, i as int, table_level.spec_as_usize() as int, *page_size),
            decreases 512 - i,
        {
            let entry = &self.entries[i];
            match entry.mapped_table(memory) {
                Ok(v) => {
                    if !page_size.exceeds(table_level) {
                        return (i, Some(v));
                    }
                },
                Err(EntryError::NoMapping) => {
                    return (i, None);
                },
                Err(EntryError::NotATable) => {},
            }
            i = i + 1;
        }
        (PAGE_DIRECTORY_ENTRIES, None)
    }

    /// The indices, from `level` down, of the first unmapped page that the
    /// search from entry `start` of this table finds.
    fn first_free_below(
        &self,
        memory: &TableMemory,
        addr: u64,
        level: &PageTableLevel,
        page_size: &PageSize,
        start: usize,
    ) -> (r: Option<Vec<usize>>)
        requires
            memory.wf(),
            memory.closed(),
            memory.holds(addr),
            *self == memory.table_at(addr),
            start <= 512,
        ensures
            match first_free(*memory, addr, level.spec_as_usize() as int, *page_size, start as int) {
                Some(s) => r matches Some(v) && v@ == s,
                None => r is None,
            },
            r matches Some(v) ==> v@.len() == 4 - level.spec_as_usize(),
        decreases 4 - level.spec_as_usize(), 512 - start,
    {
        let ghost lv = level.spec_as_usize() as int;
        proof {
            let i = choose|i: int| 0 <= i < memory.tables@.len() && #[trigger] memory.tables@[i].0 == addr;
            assert forall|k: int|
                0 <= k < 512 && points_to_table(#[trigger] self.entries@[k].bits()) implies memory.holds(
                self.entries@[k].bits() & ADDRESS_MASK) by {
                assert(points_to_table(memory.tables@[i].1.entries@[k].bits()));
            }
            lemma_first_free_skips(*memory, addr, lv, *page_size, start as int);
            lemma_next_stop(*self, start as int, lv, *page_size);
        }
        let (i, table) = self.fetch_table_or_empty(memory, start, level, page_size);
        if i >= PAGE_DIRECTORY_ENTRIES {
            return None;
        }
        match table {
            None => {
                let mut v: Vec<usize> = Vec::new();
                v.push(i);
                let n = 3 - level.as_usize();
                let mut k: usize = 0;
                while k < n
                    invariant
                        k <= n,
                        n == 3 - lv,
                        v@ == seq![i] + zero_indices(k as int),
                    decreases n - k,
                {
                    v.push(0);
                    k = k + 1;
                    assert(v@ =~= seq![i] + zero_indices(k as int));
                }
                Some(v)
            },
            Some(t) => {
                let next = match level.next() {
                    Some(l) => l,
                    None => vstd::pervasive::unreached(),
                };
                let bits = self.entries[i].as_u64();
                match t.first_free_below(memory, bits & ADDRESS_MASK, &next, page_size, 0) {
                    Some(rest) => {
                        let mut v = rest;
                        v.insert(0, i);
                        assert(v@ =~= seq![i] + rest@);
                        Some(v)
                    },
                    None => self.first_free_below(memory, addr, level, page_size, i + 1),
                }
            },
        }
    }

    /// The first page of `page_size` that no table of the hierarchy rooted
    /// at `root` maps: the tables are searched depth first, entries in
    /// order, and a free entry at any level gives the first page of the
    /// range it covers. The page is aligned to its size and is the lowest
    /// free one. Fails with `TableError::Full` when every entry of the root
    /// table is passed over, which is when no page of `page_size` is free.
    pub fn find_available_page(memory: &TableMemory, root: u64, page_size: PageSize) -> (r: Result<
        VirtualAddress,
        TableError,
    >)
        requires
            memory.wf(),
            memory.closed(),
            memory.holds(root),
        ensures
            match first_free(*memory, root, 0, page_size, 0) {
                Some(s) => r matches Ok(a) && a@ == address_from_indexes(s[0], s[1], s[2], s[3]),
                None => r == Err::<VirtualAddress, TableError>(TableError::Full),
            },
            r matches Ok(a) ==> aligned_to(a@, page_size.spec_size() as u64),
            forall|idx: Seq<usize>|
                #[trigger] free_at(*memory, root, 0, page_size, idx) ==> (r matches Ok(a) && a@
                    <= address_from_indexes(idx[0], idx[1], idx[2], idx[3])),
    {
        proof {
            assert forall|idx: Seq<usize>| #[trigger] free_at(*memory, root, 0, page_size, idx) implies (
            first_free(*memory, root, 0, page_size, 0) matches Some(s) && address_from_indexes(s[0], s[1], s[2], s[3])
                <= address_from_indexes(idx[0], idx[1], idx[2], idx[3])) by {
                lemma_first_free_is_lowest(*memory, root, page_size, idx);
            }
            lemma_first_free_shape(*memory, root, 0, page_size, 0);
            if let Some(s) = first_free(*memory, root, 0, page_size, 0) {
                assert(page_size.spec_as_usize() >= 1 ==> s[3] == 0);
                assert(page_size.spec_as_usize() >= 2 ==> s[2] == 0);
                lemma_indexes_aligned(s[0], s[1], s[2], s[3], page_size);
            }
        }
        let i = match memory.position(root) {
            Some(i) => i,
            None => vstd::pervasive::unreached(),
        };
        let table = &memory.tables[i].1;
        match table.first_free_below(memory, root, &PageTableLevel::ForthLevel, &page_size, 0) {
            Some(v) => {
                assert(v.len() == 4);
                Ok(VirtualAddress::from_indexes(v[0], v[1], v[2], v[3]))
            },
            None => Err(TableError::Full),
        }
    }
}

/// The bits of an empty entry after it maps `frame` with `flags`.
pub open spec fn fresh_entry(frame: u64, flags: u64) -> u64 {
    mapped_entry_bits(0, frame, flags)
}

/// Entry `k` of the table maps `frame` with `flags` after it was empty.
fn map_fresh(table: &mut PageTable, k: usize, frame: u64, flags: PageEntryFlags)
    requires
        k < 512,
        old(table).entries@[k as int].bits() == 0,
    ensures
        final(table).entries@ == old(table).entries@.update(
            k as int,
            PageTableEntry::spec_from_bits(fresh_entry(frame, flags.bits())),
        ),
{
    let mut e = table.entries[k];
    e.map_unchecked(PhysicalAddress::new_unchecked(frame), flags);
    table.entries[k] = e;
    assert(e == PageTableEntry::spec_from_bits(fresh_entry(frame, flags.bits())));
}

/// Fills the tables of the boot identity mapping: the first gigabyte of the
/// address space, seen both at address zero and at entry 256 of the top
/// table. Each table is cleared first. `l4` points at `l3` (entry 0) and at
/// `top_l3` (entry 256); `l3` and `top_l3` point at `l2` and `top_l2` (entry
/// 0); every entry `i` of `l2` and `top_l2` maps the huge page at `i` times
/// 2 MiB. The table addresses are those the tables sit at.
pub fn fill_identity_tables(
    l4: &mut PageTable,
    l3: &mut PageTable,
    l2: &mut PageTable,
    top_l3: &mut PageTable,
    top_l2: &mut PageTable,
    l3_addr: u64,
    l2_addr: u64,
    top_l3_addr: u64,
    top_l2_addr: u64,
)
    ensures
        forall|k: int|
            0 <= k < 512 ==> #[trigger] final(l4).entries@[k].bits() == if k == 0 {
                fresh_entry(l3_addr, 0x403)
            } else if k == 256 {
                fresh_entry(top_l3_addr, 0x403)
            } else {
                0
            },
        forall|k: int|
            0 <= k < 512 ==> #[trigger] final(l3).entries@[k].bits() == if k == 0 {
                fresh_entry(l2_addr, 0x403)
            } else {
                0
            },
        forall|k: int|
            0 <= k < 512 ==> #[trigger] final(top_l3).entries@[k].bits() == if k == 0 {
                fresh_entry(top_l2_addr, 0x403)
            } else {
                0
            },
        forall|k: int|
            0 <= k < 512 ==> #[trigger] final(l2).entries@[k].bits() == fresh_entry(
                (k * BIG_PAGE_SIZE) as u64,
                0x83,
            ),
        forall|k: int|
            0 <= k < 512 ==> #[trigger] final(top_l2).entries@[k].bits() == fresh_entry(
                (k * BIG_PAGE_SIZE) as u64,
                0x83,
            ),
{
    *l4 = PageTable::empty();
    *l3 = PageTable::empty();
    *l2 = PageTable::empty();
    *top_l3 = PageTable::empty();
    *top_l2 = PageTable::empty();
    map_fresh(l4, 0, l3_addr, PageEntryFlags::table_flags());
    map_fresh(l4, 256, top_l3_addr, PageEntryFlags::table_flags());
    map_fresh(l3, 0, l2_addr, PageEntryFlags::table_flags());
    map_fresh(top_l3, 0, top_l2_addr, PageEntryFlags::table_flags());
    let mut i: usize = 0;
    while i < PAGE_DIRECTORY_ENTRIES
        invariant
            i <= 512,
            forall|k: int|
                0 <= k < i ==> #[trigger] l2.entries@[k].bits() == fresh_entry(
                    (k * BIG_PAGE_SIZE) as u64,
                    0x83,
                ),
            forall|k: int|
                0 <= k < i ==> #[trigger] top_l2.entries@[k].bits() == fresh_entry(
                    (k * BIG_PAGE_SIZE) as u64,
                    0x83,
                ),
            forall|k: int| i <= k < 512 ==> #[trigger] l2.entries@[k].bits() == 0,
            forall|k: int| i <= k < 512 ==> #[trigger] top_l2.entries@[k].bits() == 0,
        decreases 512 - i,
    {
        assert((i as int) * (BIG_PAGE_SIZE as int) < 0x1_0000_0000) by (nonlinear_arith)
            requires
                i < 512,
                BIG_PAGE_SIZE == 0x20_0000,
        ;
        let frame = (i as u64) * (BIG_PAGE_SIZE as u64);
        map_fresh(l2, i, frame, PageEntryFlags::huge_page_flags());
        map_fresh(top_l2, i, frame, PageEntryFlags::huge_page_flags());
        i = i + 1;
    }
}

} // verus!
