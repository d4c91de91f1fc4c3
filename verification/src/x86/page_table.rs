//! Page tables of the kernel: 512 entries each, and the first tables the
//! kernel builds for itself.
use vstd::prelude::*;

use crate::common::address_types::{aligned_to, PhysicalAddress, VirtualAddress};
use crate::common::constants::{Alignment, PAGE_DIRECTORY_ENTRIES, PHYSICAL_MEMORY_OFFSET};
use crate::common::error::EntryError;
use crate::x86::entry_flags::PageEntryFlags;
use crate::x86::page_table_entry::{
    entry_address, entry_points_to_table, entry_present, frame_fits, mapped_bits, PageTableEntry,
};

verus! {

/// A page table: 512 entries.
#[derive(Clone, Copy, Debug)]
pub struct PageTable {
    pub entries: [PageTableEntry; PAGE_DIRECTORY_ENTRIES],
}

/// What the search of a table for a place to put a page found.
#[derive(Clone, Copy, Debug)]
pub enum EntryIndex {
    /// An entry that points to a table.
    Entry(PageTableEntry),
    /// The index of an entry that maps nothing.
    Index(usize),
    /// Pages of the size asked for cannot be mapped at this level.
    PageDoesNotFit,
    /// Every entry from the start maps something other than a table.
    OutOfEntries,
}

/// Whether the address of every present entry that a search from `start`
/// looks at, up to the first entry that is not present or points to a
/// table, can be seen through the physical memory offset.
pub open spec fn visited_translatable(t: PageTable, start: int) -> bool {
    forall|k: int|
        0 <= start <= k < 512 && k <= first_table_or_empty(t, start) && entry_present(
            #[trigger] t.entries@[k].bits(),
        ) ==> entry_address(t.entries@[k].bits()) + PHYSICAL_MEMORY_OFFSET <= u64::MAX
}

/// A search from `start` stops at `start` or after it.
proof fn lemma_first_table_or_empty_after(t: PageTable, start: int)
    requires
        0 <= start,
    ensures
        start <= first_table_or_empty(t, start) || start >= 512,
    decreases 512 - start,
{
    if start < 512 {
        lemma_first_table_or_empty_after(t, start + 1);
    }
}

/// The first index from `start` whose entry is not present or points to a
/// table, or 512.
pub open spec fn first_table_or_empty(t: PageTable, start: int) -> int
    decreases 512 - start,
{
    if start < 0 || start >= 512 {
        512
    } else if !entry_present(t.entries@[start].bits()) || entry_points_to_table(
        t.entries@[start].bits(),
    ) {
        start
    } else {
        first_table_or_empty(t, start + 1)
    }
}

impl PageTable {
    /// Writes an empty table at `page_table_ptr`, seen here as `table`, when
    /// the address is aligned to a regular page, and gives the address back;
    /// else leaves `table` as it was and gives `None`.
    pub fn empty_from_ptr(table: &mut PageTable, page_table_ptr: VirtualAddress) -> (r: Option<
        VirtualAddress,
    >)
        ensures
            aligned_to(page_table_ptr@, 4096) ==> r == Some(page_table_ptr) && forall|i: int|
                0 <= i < 512 ==> #[trigger] final(table).entries@[i].bits() == 0,
            !aligned_to(page_table_ptr@, 4096) ==> r is None && *final(table) == *old(table),
    {
        if !page_table_ptr.is_aligned(Alignment::regular_page()) {
            return None;
        }
        *table = PageTable::empty();
        Some(page_table_ptr)
    }

    /// A page table with every entry cleared.
    pub fn empty() -> (r: PageTable)
        ensures
            forall|i: int| 0 <= i < 512 ==> #[trigger] r.entries@[i].bits() == 0,
    {
        PageTable { entries: [PageTableEntry::new(); PAGE_DIRECTORY_ENTRIES] }
    }

    /// Looks from entry `start_at` for an entry that points to a table, or
    /// that maps nothing, when a page can be mapped at this table's level
    /// (`page_fits`, as the page size says of the level).
    pub fn try_fetch_table(&self, start_at: usize, page_fits: bool) -> (r: EntryIndex)
        requires
            page_fits ==> visited_translatable(*self, start_at as int),
        ensures
            !page_fits ==> r == EntryIndex::PageDoesNotFit,
            page_fits && first_table_or_empty(*self, start_at as int) >= 512 ==> r
                == EntryIndex::OutOfEntries,
            page_fits && first_table_or_empty(*self, start_at as int) < 512 ==> {
                let i = first_table_or_empty(*self, start_at as int);
                if entry_present(self.entries@[i].bits()) {
                    r == EntryIndex::Entry(self.entries@[i])
                } else {
                    r == EntryIndex::Index(i as usize)
                }
            },
    {
        if !page_fits {
            return EntryIndex::PageDoesNotFit;
        }
        let mut i = start_at;
        while i < PAGE_DIRECTORY_ENTRIES
            invariant
                start_at <= i || i >= 512,
                page_fits,
                visited_translatable(*self, start_at as int),
                first_table_or_empty(*self, start_at as int) == first_table_or_empty(
                    *self,
                    i as int,
                ),
            decreases 512 - i,
        {
            let entry = self.entries[i];
            proof {
                lemma_first_table_or_empty_after(*self, i as int);
            }
            match entry.mapped_table() {
                Ok(_) => {
                    return EntryIndex::Entry(entry);
                },
                Err(EntryError::NoMapping) => {
                    return EntryIndex::Index(i);
                },
                Err(EntryError::NotATable) => {},
            }
            i = i + 1;
        }
        EntryIndex::OutOfEntries
    }
}

/// Addresses aligned to a regular page have their low 12 bits clear.
proof fn lemma_page_aligned(a: u64, b: u64)
    by (bit_vector)
    ensures
        aligned_to(a, 4096) ==> a & 0xfff == 0,
        aligned_to(b, 4096) ==> b & 0xfff == 0,
        0u64 & 0xfff == 0,
{
}

/// The bits of an empty entry after it maps `frame` with `flags`.
pub open spec fn fresh_entry(frame: u64, flags: u64) -> u64 {
    mapped_bits(0, frame, flags)
}

/// Entry `k` of the table maps `frame` with `flags`, whatever it held.
fn map_fresh(table: &mut PageTable, k: usize, frame: PhysicalAddress, flags: PageEntryFlags)
    requires
        k < 512,
        frame_fits(frame@),
    ensures
        final(table).entries@.len() == 512,
        forall|j: int|
            0 <= j < 512 && j != k ==> #[trigger] final(table).entries@[j] == old(
                table,
            ).entries@[j],
        final(table).entries@[k as int].bits() == mapped_bits(
            old(table).entries@[k as int].bits(),
            frame@,
            flags.bits(),
        ),
{
    let mut e = table.entries[k];
    e.map_unchecked(frame, flags);
    table.entries[k] = e;
}

/// Builds the identity mapping of the first 2 MiB: the top table `l4` at
/// `l4_addr` points at `l3` (entry 0), which points at `l2` (entry 0), whose
/// entry 0 maps the huge page at address zero. Each table is cleared first,
/// in that order; the first table whose address is not aligned to a regular
/// page stops the work, and `false` comes back.
pub fn init_identity_tables(
    l4: &mut PageTable,
    l3: &mut PageTable,
    l2: &mut PageTable,
    l4_addr: u64,
    l3_addr: u64,
    l2_addr: u64,
) -> (r: bool)
    requires
        l3_addr <= 0x7_ffff_ffff_ffff,
        l2_addr <= 0x7_ffff_ffff_ffff,
    ensures
        r == (aligned_to(l4_addr, 4096) && aligned_to(l3_addr, 4096) && aligned_to(l2_addr, 4096)),
        !aligned_to(l4_addr, 4096) ==> *final(l4) == *old(l4),
        aligned_to(l4_addr, 4096) && !aligned_to(l3_addr, 4096) ==> *final(l3) == *old(l3),
        aligned_to(l4_addr, 4096) && aligned_to(l3_addr, 4096) && !aligned_to(l2_addr, 4096)
            ==> *final(l2) == *old(l2),
        r ==> forall|k: int|
            0 <= k < 512 ==> #[trigger] final(l4).entries@[k].bits() == if k == 0 {
                fresh_entry(l3_addr, 0x403)
            } else {
                0
            },
        r ==> forall|k: int|
            0 <= k < 512 ==> #[trigger] final(l3).entries@[k].bits() == if k == 0 {
                fresh_entry(l2_addr, 0x403)
            } else {
                0
            },
        r ==> forall|k: int|
            0 <= k < 512 ==> #[trigger] final(l2).entries@[k].bits() == if k == 0 {
                fresh_entry(0, 0x83)
            } else {
                0
            },
{
    if PageTable::empty_from_ptr(l4, VirtualAddress::new_unchecked(l4_addr)).is_none() {
        return false;
    }
    if PageTable::empty_from_ptr(l3, VirtualAddress::new_unchecked(l3_addr)).is_none() {
        return false;
    }
    if PageTable::empty_from_ptr(l2, VirtualAddress::new_unchecked(l2_addr)).is_none() {
        return false;
    }
    proof {
        lemma_page_aligned(l3_addr, l2_addr);
    }
    map_fresh(l4, 0, PhysicalAddress::new_unchecked(l3_addr), PageEntryFlags::table_flags());
    map_fresh(l3, 0, PhysicalAddress::new_unchecked(l2_addr), PageEntryFlags::table_flags());
    map_fresh(l2, 0, PhysicalAddress::new_unchecked(0), PageEntryFlags::huge_page_flags());
    true
}

/// Maps the kernel half of the address space: entry 256 of `pml4`, whatever
/// it held (only its no-execute bit is kept), points at `top_l3`, whose
/// entry 0 points at `top_l2`, whose entry 0 maps the huge page at address
/// zero as device memory. `top_l3` and `top_l2` are cleared
/// first, in that order; the first whose address is not aligned to a
/// regular page stops the work, and `false` comes back.
pub fn init_kernel_tables(
    pml4: &mut PageTable,
    top_l3: &mut PageTable,
    top_l2: &mut PageTable,
    top_l3_addr: u64,
    top_l2_addr: u64,
) -> (r: bool)
    requires
        top_l3_addr <= 0x7_ffff_ffff_ffff,
        top_l2_addr <= 0x7_ffff_ffff_ffff,
    ensures
        r == (aligned_to(top_l3_addr, 4096) && aligned_to(top_l2_addr, 4096)),
        !r ==> *final(pml4) == *old(pml4),
        !aligned_to(top_l3_addr, 4096) ==> *final(top_l3) == *old(top_l3),
        aligned_to(top_l3_addr, 4096) && !aligned_to(top_l2_addr, 4096) ==> *final(top_l2) == *old(
            top_l2,
        ),
        r ==> forall|k: int|
            0 <= k < 512 ==> #[trigger] final(pml4).entries@[k].bits() == if k == 256 {
                mapped_bits(old(pml4).entries@[256].bits(), top_l3_addr, 0x403)
            } else {
                old(pml4).entries@[k].bits()
            },
        r ==> forall|k: int|
            0 <= k < 512 ==> #[trigger] final(top_l3).entries@[k].bits() == if k == 0 {
                fresh_entry(top_l2_addr, 0x403)
            } else {
                0
            },
        r ==> forall|k: int|
            0 <= k < 512 ==> #[trigger] final(top_l2).entries@[k].bits() == if k == 0 {
                fresh_entry(0, 0x193)
            } else {
                0
            },
{
    if PageTable::empty_from_ptr(top_l3, VirtualAddress::new_unchecked(top_l3_addr)).is_none() {
        return false;
    }
    if PageTable::empty_from_ptr(top_l2, VirtualAddress::new_unchecked(top_l2_addr)).is_none() {
        return false;
    }
    proof {
        lemma_page_aligned(top_l3_addr, top_l2_addr);
    }
    map_fresh(pml4, 256, PhysicalAddress::new_unchecked(top_l3_addr), PageEntryFlags::table_flags());
    map_fresh(
        top_l3,
        0,
        PhysicalAddress::new_unchecked(top_l2_addr),
        PageEntryFlags::table_flags(),
    );
    map_fresh(top_l2, 0, PhysicalAddress::new_unchecked(0), PageEntryFlags::huge_io_page_flags());
    true
}

} // verus!
