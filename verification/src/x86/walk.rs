//! Walking the page tables of the kernel: the entries a virtual address
//! goes through, and the physical address it translates to.
use vstd::prelude::*;

use crate::common::address_types::{table_index, PhysicalAddress, VirtualAddress};
use crate::common::constants::PHYSICAL_MEMORY_OFFSET;
use crate::common::enums::PageTableLevel;
use crate::common::error::EntryError;
use crate::x86::page_table::PageTable;
use crate::x86::page_table_entry::{
    entry_address, entry_points_to_table, entry_present, PageTableEntry,
};

verus! {

/// The page tables of the kernel, each with the physical address it sits
/// at; the kernel sees a table at that address plus the physical memory
/// offset.
#[derive(Clone, Debug)]
pub struct KernelTables {
    pub tables: Vec<(u64, PageTable)>,
}

/// The level with the number `n`, the top level being 0.
pub open spec fn level_at(n: int) -> PageTableLevel {
    if n == 0 {
        PageTableLevel::ForthLevel
    } else if n == 1 {
        PageTableLevel::ThirdLevel
    } else if n == 2 {
        PageTableLevel::SecondLevel
    } else {
        PageTableLevel::FirstTable
    }
}

impl KernelTables {
    /// No two tables sit at one address.
    pub open spec fn wf(&self) -> bool {
        forall|i: int, j: int|
            0 <= i < self.tables@.len() && 0 <= j < self.tables@.len() && i != j
                ==> #[trigger] self.tables@[i].0 != #[trigger] self.tables@[j].0
    }

    /// Whether a table sits at `addr`.
    pub open spec fn holds(&self, addr: u64) -> bool {
        exists|i: int| 0 <= i < self.tables@.len() && #[trigger] self.tables@[i].0 == addr
    }

    /// The table at `addr`.
    pub open spec fn table_at(&self, addr: u64) -> PageTable {
        self.tables@[choose|i: int| 0 <= i < self.tables@.len() && #[trigger] self.tables@[i].0
            == addr].1
    }

    /// Every table that a present entry of a held table points to is held,
    /// and every present entry can be seen through the physical memory
    /// offset.
    pub open spec fn closed(&self) -> bool {
        forall|i: int, k: int|
            0 <= i < self.tables@.len() && 0 <= k < 512 && entry_present(
                #[trigger] self.tables@[i].1.entries@[k].bits(),
            ) ==> entry_address(self.tables@[i].1.entries@[k].bits()) + PHYSICAL_MEMORY_OFFSET
                <= u64::MAX && (entry_points_to_table(self.tables@[i].1.entries@[k].bits())
                ==> self.holds(entry_address(self.tables@[i].1.entries@[k].bits())))
    }

    /// The index of the table at `addr`, if one is held.
    pub fn position(&self, addr: u64) -> (r: Option<usize>)
        requires
            self.wf(),
        ensures
            r is None <==> !self.holds(addr),
            r matches Some(i) ==> i < self.tables@.len() && self.tables@[i as int].0 == addr
                && self.tables@[i as int].1 == self.table_at(addr),
    {
        let mut i: usize = 0;
        while i < self.tables.len()
            invariant
                i <= self.tables@.len(),
                self.wf(),
                forall|j: int| 0 <= j < i ==> #[trigger] self.tables@[j].0 != addr,
            decreases self.tables@.len() - i,
        {
            if self.tables[i].0 == addr {
                assert(self.tables@[i as int].0 == addr);
                assert(self.holds(addr));
                let ghost c = choose|j: int|
                    0 <= j < self.tables@.len() && #[trigger] self.tables@[j].0 == addr;
                assert(self.tables@[c].0 == addr);
                return Some(i);
            }
            i = i + 1;
        }
        None
    }
}

/// The entries the walk for `va` goes through, from the table at `addr` at
/// level `level` down: the entry `va` selects, then, when it points to a
/// table and a lower level exists, the walk of that table. A walk ends at an
/// entry that is not present, at an entry that maps a page, or at the
/// lowest level.
pub open spec fn walk_from(memory: KernelTables, addr: u64, va: u64, level: int) -> Seq<
    (PageTableLevel, PageTableEntry),
>
    decreases 4 - level,
{
    if !(0 <= level <= 3) || !memory.holds(addr) {
        seq![]
    } else {
        let e = memory.table_at(addr).entries@[table_index(va, level as usize) as int];
        if level < 3 && entry_points_to_table(e.bits()) {
            seq![(level_at(level), e)] + walk_from(memory, entry_address(e.bits()), va, level + 1)
        } else {
            seq![(level_at(level), e)]
        }
    }
}

/// The number of bits of the offset into a page mapped at `level`: 12 for
/// the lowest level, 9 more for each level above.
pub open spec fn offset_bits(level: PageTableLevel) -> u64 {
    (12 + 9 * (3 - level.spec_as_usize())) as u64
}

/// The physical address `va` translates to after the walk `w`, if any.
pub open spec fn translation(w: Seq<(PageTableLevel, PageTableEntry)>, va: u64) -> Option<u64> {
    if w.len() == 0 {
        None
    } else {
        let (level, e) = w.last();
        let translatable = match level {
            PageTableLevel::ForthLevel => false,
            PageTableLevel::ThirdLevel | PageTableLevel::SecondLevel => entry_present(e.bits())
                && e.bits() & 0x80 != 0,
            PageTableLevel::FirstTable => entry_present(e.bits()),
        };
        if translatable {
            Some((entry_address(e.bits()) + (va & (u64::MAX >> ((64 - offset_bits(level)) as u64)))) as u64)
        } else {
            None
        }
    }
}

impl VirtualAddress {
    /// The entries of the tables held in `memory` that this address goes
    /// through, from the top table at `root` down, each with its level.
    pub fn walk(&self, memory: &KernelTables, root: u64) -> (r: Vec<(PageTableLevel, PageTableEntry)>)
        requires
            memory.wf(),
            memory.closed(),
        ensures
            r@ == walk_from(*memory, root, self@, 0),
    {
        let mut r: Vec<(PageTableLevel, PageTableEntry)> = Vec::new();
        let mut table = match memory.position(root) {
            Some(i) => i,
            None => return r,
        };
        let mut level = PageTableLevel::ForthLevel;
        let ghost mut addr = root;
        loop
            invariant_except_break
                table < memory.tables@.len(),
                memory.tables@[table as int].0 == addr,
                memory.tables@[table as int].1 == memory.table_at(addr),
                memory.holds(addr),
                level == level_at(level.spec_as_usize() as int),
                r@ + walk_from(*memory, addr, self@, level.spec_as_usize() as int) == walk_from(
                    *memory,
                    root,
                    self@,
                    0,
                ),
            invariant
                memory.wf(),
                memory.closed(),
            ensures
                r@ == walk_from(*memory, root, self@, 0),
            decreases 4 - level.spec_as_usize(),
        {
            let current_level = level;
            let ghost lv = current_level.spec_as_usize() as int;
            let idx = self.index_of(current_level);
            let entry = memory.tables[table].1.entries[idx];
            r.push((current_level, entry));
            let ghost rest = walk_from(*memory, addr, self@, lv);
            proof {
                assert(memory.holds(addr));
            }
            if entry.get_flags().is_present() {
                proof {
                    let i = choose|i: int|
                        0 <= i < memory.tables@.len() && #[trigger] memory.tables@[i].0 == addr;
                    assert(memory.tables@[i].1.entries@[idx as int] == entry);
                    assert(entry_present(memory.tables@[i].1.entries@[idx as int].bits())) by {
                        lemma_present_flag(entry.bits());
                    }
                }
                match entry.mapped_table() {
                    Ok(_) => {
                        match current_level.next() {
                            Some(next) => {
                                let a = entry.get_address().as_u64();
                                let t = match memory.position(a) {
                                    Some(t) => t,
                                    None => vstd::pervasive::unreached(),
                                };
                                proof {
                                    assert(rest == seq![(current_level, entry)] + walk_from(
                                        *memory,
                                        a,
                                        self@,
                                        lv + 1,
                                    ));
                                    assert(r@ + walk_from(*memory, a, self@, lv + 1) =~= (r@.drop_last()
                                        + rest));
                                    addr = a;
                                }
                                table = t;
                                level = next;
                            },
                            None => {
                                assert(rest == seq![(current_level, entry)]);
                                assert(r@ =~= r@.drop_last() + rest);
                                break ;
                            },
                        }
                    },
                    Err(_) => {
                        assert(rest == seq![(current_level, entry)]);
                        assert(r@ =~= r@.drop_last() + rest);
                        break ;
                    },
                }
            } else {
                proof {
                    lemma_present_flag(entry.bits());
                }
                assert(rest == seq![(current_level, entry)]);
                assert(r@ =~= r@.drop_last() + rest);
                break ;
            }
        }
        r
    }

    /// The offset of this address into a page mapped at `level`: its low 12
    /// bits for the lowest level, 9 more for each level above.
    pub fn address_offset(&self, level: PageTableLevel) -> (r: u64)
        ensures
            r == self@ & (u64::MAX >> ((64 - offset_bits(level)) as u64)),
    {
        let level_number = 3 - level.as_usize() as u64;
        let mask = u64::MAX >> (64 - (12 + 9 * level_number));
        self.as_u64() & mask
    }

    /// The physical address this address translates to through the tables
    /// held in `memory` from the top table at `root`: the address of the
    /// page the walk ends at, plus the offset into the page. Gives `None`
    /// when the walk ends at an entry that maps nothing, at the top level,
    /// or at an entry of the middle levels that is no huge page.
    pub fn translate(&self, memory: &KernelTables, root: u64) -> (r: Option<PhysicalAddress>)
        requires
            memory.wf(),
            memory.closed(),
        ensures
            match translation(walk_from(*memory, root, self@, 0), self@) {
                Some(p) => r matches Some(a) && a@ == p,
                None => r is None,
            },
    {
        let w = self.walk(memory, root);
        if w.len() == 0 {
            return None;
        }
        let (level, last) = w[w.len() - 1];
        let flags = last.get_flags();
        proof {
            lemma_present_flag(last.bits());
            lemma_huge_flag(last.bits());
        }
        let translatable = match level {
            PageTableLevel::ForthLevel => {
                return None;
            },
            PageTableLevel::ThirdLevel | PageTableLevel::SecondLevel => flags.is_present()
                && flags.is_huge_page(),
            PageTableLevel::FirstTable => flags.is_present(),
        };
        if translatable {
            let a = last.get_address().as_u64();
            let off = self.address_offset(level);
            proof {
                lemma_walk_bits(last.bits(), self@, offset_bits(level));
            }
            Some(PhysicalAddress::new_unchecked(a + off))
        } else {
            None
        }
    }

    /// Whether every entry the walk of this address goes through is present.
    pub fn is_mapped(&self, memory: &KernelTables, root: u64) -> (r: bool)
        requires
            memory.wf(),
            memory.closed(),
        ensures
            r == forall|i: int|
                0 <= i < walk_from(*memory, root, self@, 0).len() ==> entry_present(
                    #[trigger] walk_from(*memory, root, self@, 0)[i].1.bits(),
                ),
    {
        let w = self.walk(memory, root);
        let mut i: usize = 0;
        while i < w.len()
            invariant
                w@ == walk_from(*memory, root, self@, 0),
                i <= w@.len(),
                forall|j: int| 0 <= j < i ==> entry_present(#[trigger] w@[j].1.bits()),
            decreases w@.len() - i,
        {
            let (_, e) = w[i];
            proof {
                lemma_present_flag(e.bits());
            }
            if !e.get_flags().is_present() {
                return false;
            }
            i = i + 1;
        }
        true
    }
}

/// The entry that `va` selects in the table at `addr` of `memory`, at
/// `level`.
pub open spec fn selected_entry(memory: KernelTables, addr: u64, va: u64, level: int) -> u64 {
    memory.table_at(addr).entries@[table_index(va, level as usize) as int].bits()
}

/// The masks of the offsets into a page of each size, and the huge page bit
/// of an entry is its bit 7.
proof fn lemma_offset_masks(b: u64)
    by (bit_vector)
    ensures
        u64::MAX >> 52u64 == 0xfffu64,
        u64::MAX >> 43u64 == 0x1f_ffffu64,
        u64::MAX >> 34u64 == 0x3fff_ffffu64,
        b & 0x80 != 0 ==> crate::common::bitfield::field_of(b, 7, 1) == 1,
{
}

/// A walk that meets a present huge page entry at the third level (a page
/// of 1 GiB) translates to the page's address plus the low 30 bits of the
/// virtual address.
pub proof fn lemma_translate_huge_page(memory: KernelTables, root: u64, va: u64)
    requires
        memory.holds(root),
        entry_points_to_table(selected_entry(memory, root, va, 0)),
        memory.holds(entry_address(selected_entry(memory, root, va, 0))),
        entry_present(selected_entry(memory, entry_address(selected_entry(memory, root, va, 0)), va, 1)),
        selected_entry(memory, entry_address(selected_entry(memory, root, va, 0)), va, 1) & 0x80 != 0,
    ensures
        translation(walk_from(memory, root, va, 0), va) matches Some(p) && p == entry_address(
            selected_entry(memory, entry_address(selected_entry(memory, root, va, 0)), va, 1),
        ) + (va & 0x3fff_ffff),
{
    let e1 = selected_entry(memory, entry_address(selected_entry(memory, root, va, 0)), va, 1);
    lemma_offset_masks(e1);
    lemma_walk_bits(e1, va, 30);
    let a1 = entry_address(selected_entry(memory, root, va, 0));
    let w = walk_from(memory, root, va, 0);
    assert(!entry_points_to_table(e1));
    assert(walk_from(memory, a1, va, 1) == seq![(PageTableLevel::ThirdLevel, memory.table_at(a1).entries@[table_index(va, 1) as int])]);
    assert(w == seq![(PageTableLevel::ForthLevel, memory.table_at(root).entries@[table_index(va, 0) as int])] + walk_from(memory, a1, va, 1));
    assert(w.last().1.bits() == e1);
    assert(w.last().0 == PageTableLevel::ThirdLevel);
}

/// A walk that meets a present huge page entry at the second level (a page
/// of 2 MiB) translates to the page's address plus the low 21 bits of the
/// virtual address.
pub proof fn lemma_translate_big_page(memory: KernelTables, root: u64, va: u64)
    requires
        memory.holds(root),
        entry_points_to_table(selected_entry(memory, root, va, 0)),
        memory.holds(entry_address(selected_entry(memory, root, va, 0))),
        entry_points_to_table(selected_entry(memory, entry_address(selected_entry(memory, root, va, 0)), va, 1)),
        memory.holds(entry_address(selected_entry(memory, entry_address(selected_entry(memory, root, va, 0)), va, 1))),
        entry_present(selected_entry(memory, entry_address(selected_entry(memory, entry_address(selected_entry(memory, root, va, 0)), va, 1)), va, 2)),
        selected_entry(memory, entry_address(selected_entry(memory, entry_address(selected_entry(memory, root, va, 0)), va, 1)), va, 2) & 0x80 != 0,
    ensures
        translation(walk_from(memory, root, va, 0), va) matches Some(p) && p == entry_address(
            selected_entry(memory, entry_address(selected_entry(memory, entry_address(selected_entry(memory, root, va, 0)), va, 1)), va, 2),
        ) + (va & 0x1f_ffff),
{
    let a1 = entry_address(selected_entry(memory, root, va, 0));
    let a2 = entry_address(selected_entry(memory, a1, va, 1));
    let e2 = selected_entry(memory, a2, va, 2);
    lemma_offset_masks(e2);
    lemma_walk_bits(e2, va, 21);
    let w = walk_from(memory, root, va, 0);
    assert(walk_from(memory, a1, va, 1) == seq![(PageTableLevel::ThirdLevel, memory.table_at(a1).entries@[table_index(va, 1) as int])] + walk_from(memory, a2, va, 2));
    assert(w.last().1.bits() == e2);
    assert(w.last().0 == PageTableLevel::SecondLevel);
}

/// A walk that meets a present entry at the lowest level (a page of 4 KiB)
/// translates to the page's address plus the low 12 bits of the virtual
/// address.
pub proof fn lemma_translate_regular_page(memory: KernelTables, root: u64, va: u64)
    requires
        memory.holds(root),
        entry_points_to_table(selected_entry(memory, root, va, 0)),
        memory.holds(entry_address(selected_entry(memory, root, va, 0))),
        entry_points_to_table(selected_entry(memory, entry_address(selected_entry(memory, root, va, 0)), va, 1)),
        memory.holds(entry_address(selected_entry(memory, entry_address(selected_entry(memory, root, va, 0)), va, 1))),
        entry_points_to_table(selected_entry(memory, entry_address(selected_entry(memory, entry_address(selected_entry(memory, root, va, 0)), va, 1)), va, 2)),
        memory.holds(entry_address(selected_entry(memory, entry_address(selected_entry(memory, entry_address(selected_entry(memory, root, va, 0)), va, 1)), va, 2))),
        entry_present(selected_entry(memory, entry_address(selected_entry(memory, entry_address(selected_entry(memory, entry_address(selected_entry(memory, root, va, 0)), va, 1)), va, 2)), va, 3)),
    ensures
        translation(walk_from(memory, root, va, 0), va) matches Some(p) && p == entry_address(
            selected_entry(memory, entry_address(selected_entry(memory, entry_address(selected_entry(memory, entry_address(selected_entry(memory, root, va, 0)), va, 1)), va, 2)), va, 3),
        ) + (va & 0xfff),
{
    let a1 = entry_address(selected_entry(memory, root, va, 0));
    let a2 = entry_address(selected_entry(memory, a1, va, 1));
    let a3 = entry_address(selected_entry(memory, a2, va, 2));
    let e3 = selected_entry(memory, a3, va, 3);
    lemma_offset_masks(e3);
    lemma_walk_bits(e3, va, 12);
    let w = walk_from(memory, root, va, 0);
    assert(walk_from(memory, a2, va, 2) == seq![(PageTableLevel::SecondLevel, memory.table_at(a2).entries@[table_index(va, 2) as int])] + walk_from(memory, a3, va, 3));
    assert(walk_from(memory, a1, va, 1) == seq![(PageTableLevel::ThirdLevel, memory.table_at(a1).entries@[table_index(va, 1) as int])] + walk_from(memory, a2, va, 2));
    assert(w.last().1.bits() == e3);
    assert(w.last().0 == PageTableLevel::FirstTable);
}

/// Every entry of a walk but the last points to a table.
proof fn lemma_walk_inner_tables(memory: KernelTables, addr: u64, va: u64, level: int)
    ensures
        forall|i: int|
            0 <= i < walk_from(memory, addr, va, level).len() - 1 ==> entry_points_to_table(
                #[trigger] walk_from(memory, addr, va, level)[i].1.bits(),
            ),
    decreases 4 - level,
{
    if 0 <= level <= 3 && memory.holds(addr) {
        let e = memory.table_at(addr).entries@[table_index(va, level as usize) as int];
        if level < 3 && entry_points_to_table(e.bits()) {
            lemma_walk_inner_tables(memory, entry_address(e.bits()), va, level + 1);
            let w = walk_from(memory, addr, va, level);
            let rest = walk_from(memory, entry_address(e.bits()), va, level + 1);
            assert forall|i: int| 0 <= i < w.len() - 1 implies entry_points_to_table(
                #[trigger] w[i].1.bits(),
            ) by {
                if i > 0 {
                    assert(w[i] == rest[i - 1]);
                }
            }
        }
    }
}

/// An address that translates is mapped: every entry its walk goes through
/// is present.
pub proof fn lemma_translated_is_mapped(memory: KernelTables, root: u64, va: u64)
    requires
        translation(walk_from(memory, root, va, 0), va) is Some,
    ensures
        forall|i: int|
            0 <= i < walk_from(memory, root, va, 0).len() ==> entry_present(
                #[trigger] walk_from(memory, root, va, 0)[i].1.bits(),
            ),
{
    lemma_walk_inner_tables(memory, root, va, 0);
    let w = walk_from(memory, root, va, 0);
    assert forall|i: int| 0 <= i < w.len() implies entry_present(#[trigger] w[i].1.bits()) by {
        if i < w.len() - 1 {
            assert(entry_points_to_table(w[i].1.bits()));
        }
    }
}

/// The bit arithmetic of a walk: the present and huge page flags of the
/// flags of an entry are its bits 0 and 7, the address and the offset of a
/// translation fit together.
proof fn lemma_walk_bits(b: u64, v: u64, l: u64)
    by (bit_vector)
    ensures
        crate::common::bitfield::field_of(crate::common::bitfield::field_of(b, 0, 12), 0, 1)
            == crate::common::bitfield::field_of(b, 0, 1),
        (crate::common::bitfield::field_of(crate::common::bitfield::field_of(b, 0, 12), 7, 1) == 1)
            == (b & 0x80 != 0),
        b & (0x7_ffff_ffff_ffffu64 << 12u64) <= 0x7fff_ffff_ffff_f000u64,
        0x7_ffff_ffff_ffffu64 << 12u64 == crate::x86::page_table_entry::address_mask(),
        l <= 39 ==> v & (u64::MAX >> ((64 - l) as u64)) < (1u64 << 39u64),
        (1u64 << 39u64) == 0x80_0000_0000u64,
{
}

/// The present flag of the flags of an entry is its bit 0.
proof fn lemma_present_flag(b: u64)
    ensures
        crate::common::bitfield::field_of(crate::common::bitfield::field_of(b, 0, 12), 0, 1)
            == crate::common::bitfield::field_of(b, 0, 1),
{
    lemma_walk_bits(b, 0, 0);
}

/// The huge page flag of the flags of an entry is its bit 7.
proof fn lemma_huge_flag(b: u64)
    ensures
        (crate::common::bitfield::field_of(crate::common::bitfield::field_of(b, 0, 12), 7, 1) == 1)
            == (b & 0x80 != 0),
{
    lemma_walk_bits(b, 0, 0);
}

} // verus!
