//! Mapping a virtual address: walking down the page tables to the level of
//! the page, making a table wherever the walk meets an entry that maps
//! nothing, and mapping the page in the entry at that level.
use vstd::prelude::*;

use crate::common::address_types::{aligned_to, table_index, PhysicalAddress, VirtualAddress};
use crate::common::bitfield::field_of;
use crate::common::constants::{sub_one, PHYSICAL_MEMORY_OFFSET};
use crate::common::enums::{PageSize, PageTableLevel};
use crate::common::error::{EntryError, MappingError};
use crate::x86::entry_flags::PageEntryFlags;
use crate::x86::page_table::PageTable;
use crate::x86::page_table_entry::{
    address_mask, entry_address, entry_points_to_table, entry_present, mapped_bits, PageTableEntry,
};
use crate::x86::walk::{level_at, offset_bits, translation, walk_from, KernelTables};

verus! {

impl PageSize {
    /// The level of the tables whose entries map pages of this size: the
    /// lowest level for regular pages, one up for each size above.
    pub fn mapping_table(&self) -> (r: usize)
        ensures
            r == 3 - self.spec_as_usize(),
            r <= 3,
    {
        3 - self.as_usize()
    }
}

/// The entry at `index` of the table held at `addr`.
pub open spec fn entry_at(memory: KernelTables, addr: u64, index: int) -> PageTableEntry {
    memory.table_at(addr).entries@[index]
}

/// The table the entry `i` of the walk prefix `prefix` from the table at
/// `addr` sits in: `addr` for the first, then the table the entry before
/// points to.
pub open spec fn prefix_table(prefix: Seq<(PageTableLevel, PageTableEntry)>, addr: u64, i: int) -> u64 {
    if i == 0 {
        addr
    } else {
        entry_address(prefix[i - 1].1.bits())
    }
}

/// The bits of the entry a page of level `k` goes in, as a map finds it
/// after the walk `w`: the walk's entry of that level when the walk reaches
/// it, else the empty entry of a new table.
pub open spec fn target_before(w: Seq<(PageTableLevel, PageTableEntry)>, k: int) -> u64 {
    if w.len() > k {
        w[k].1.bits()
    } else {
        0
    }
}

/// The number of tables a map at level `k` makes after the walk `w`: one
/// for each level from the end of the walk down to `k`.
pub open spec fn tables_needed(w: Seq<(PageTableLevel, PageTableEntry)>, k: int) -> int {
    if w.len() > k {
        0
    } else {
        k - (w.len() - 1)
    }
}

/// A map at level `k` can go through: the walk reaches that level, or ends
/// above it at an entry that maps nothing (an entry that maps a page there
/// is no table to go on in).
pub open spec fn map_defined(w: Seq<(PageTableLevel, PageTableEntry)>, k: int) -> bool {
    w.len() > k || (w.len() > 0 && !entry_present(w.last().1.bits()))
}

/// Addresses a map can make tables at: none is held yet, no two are the
/// same, and each is page aligned and can be seen through the physical
/// memory offset.
pub open spec fn fresh_usable(memory: KernelTables, fresh: Seq<u64>) -> bool {
    &&& forall|i: int|
        0 <= i < fresh.len() ==> !memory.holds(#[trigger] fresh[i]) && aligned_to(fresh[i], 4096) && fresh[i]
            + PHYSICAL_MEMORY_OFFSET <= u64::MAX
    &&& forall|i: int, j: int| 0 <= i < j < fresh.len() ==> #[trigger] fresh[i] != #[trigger] fresh[j]
}

/// The flags a page of `page_size` is mapped with when none are given:
/// present and writable, and a huge page above the lowest level.
pub open spec fn default_flags(page_size: PageSize) -> u64 {
    match page_size {
        PageSize::Regular => 0x3,
        _ => 0x83,
    }
}

/// The flags a map with `flags` uses for a page of `page_size`.
pub open spec fn map_flags(flags: Option<PageEntryFlags>, page_size: PageSize) -> u64 {
    match flags {
        Some(f) => f.bits(),
        None => default_flags(page_size),
    }
}

/// The bit arithmetic of a map: a mapped entry is present, points at its
/// frame, and points to a table with the flags of a table; the empty entry
/// maps nothing; the offset into a regular page is the low 12 bits.
proof fn lemma_map_bits(old_bits: u64, frame: u64, flags: u64, va: u64, shift: u64)
    by (bit_vector)
    ensures
        (va >> shift) & 0o777 < 512,
        frame & sub_one(4096) == 0 ==> frame & 0xfff == 0,
        (1u64 << 12u64) == 0x1000,
        field_of(mapped_bits(old_bits, frame, flags), 0, 1) == 1,
        flags < 0x1000 && frame <= 0x7_ffff_ffff_ffff && frame & 0xfff == 0 ==> mapped_bits(
            old_bits,
            frame,
            flags,
        ) & address_mask() == frame,
        frame & 0xfff == 0 ==> field_of(mapped_bits(old_bits, frame, 0x403), 10, 1) == 1 && field_of(
            mapped_bits(old_bits, frame, 0x403),
            7,
            1,
        ) == 0,
        field_of(0, 0, 1) == 0,
        va & (u64::MAX >> 52u64) == va & 0xfff,
        va & 0xfff <= 0xfff,
{
}

/// The bit arithmetic of mapping a big or huge page: the entry is present
/// and a huge page, so no table, and the offsets into such pages are the low
/// 21 or 30 bits.
proof fn lemma_large_map_bits(old_bits: u64, frame: u64, va: u64)
    by (bit_vector)
    ensures
        mapped_bits(old_bits, frame, 0x83) & 0x80 != 0,
        field_of(mapped_bits(old_bits, frame, 0x83), 7, 1) == 1,
        field_of(mapped_bits(old_bits, frame, 0x83), 0, 1) == 1,
        va & (u64::MAX >> 43u64) == va & 0x1f_ffff,
        va & (u64::MAX >> 34u64) == va & 0x3fff_ffff,
{
}

/// In a well-formed memory, the table at an index is the table held at its
/// address.
proof fn lemma_table_at(memory: KernelTables, i: int)
    requires
        memory.wf(),
        0 <= i < memory.tables@.len(),
    ensures
        memory.holds(memory.tables@[i].0),
        memory.table_at(memory.tables@[i].0) == memory.tables@[i].1,
{
    let a = memory.tables@[i].0;
    assert(memory.tables@[i].0 == a);
    let j = choose|j: int| 0 <= j < memory.tables@.len() && #[trigger] memory.tables@[j].0 == a;
    assert(memory.tables@[j].0 == a);
}

/// A walk that starts with `prefix`, through tables that another memory
/// holds with the same entries there, starts with `prefix` in that memory
/// too, and goes on from the same table.
proof fn lemma_walk_prefix(
    m: KernelTables,
    m2: KernelTables,
    addr: u64,
    va: u64,
    level: int,
    prefix: Seq<(PageTableLevel, PageTableEntry)>,
    t: u64,
)
    requires
        0 <= level,
        level + prefix.len() <= 4,
        walk_from(m, addr, va, level) == prefix + walk_from(m, t, va, level + prefix.len()),
        forall|i: int| 0 <= i < prefix.len() ==> entry_points_to_table(#[trigger] prefix[i].1.bits()),
        forall|i: int|
            0 <= i < prefix.len() ==> m2.holds(#[trigger] prefix_table(prefix, addr, i)) && entry_at(
                m2,
                prefix_table(prefix, addr, i),
                table_index(va, (level + i) as usize) as int,
            ) == prefix[i].1,
        prefix.len() == 0 ==> t == addr,
        prefix.len() > 0 ==> t == entry_address(prefix.last().1.bits()),
    ensures
        walk_from(m2, addr, va, level) == prefix + walk_from(m2, t, va, level + prefix.len()),
    decreases prefix.len(),
{
    if prefix.len() == 0 {
        assert(prefix + walk_from(m2, t, va, level) =~= walk_from(m2, t, va, level));
    } else {
        let e = prefix[0].1;
        let idx = table_index(va, level as usize) as int;
        assert(prefix_table(prefix, addr, 0) == addr);
        assert(m2.holds(addr) && entry_at(m2, addr, idx) == e);
        let w = walk_from(m, addr, va, level);
        assert(w[0] == prefix[0]);
        assert(w.len() > 0);
        assert(m.holds(addr) && level <= 3);
        assert(entry_at(m, addr, idx) == e);
        if level < 3 {
            let next = entry_address(e.bits());
            let rest = prefix.drop_first();
            let tail = walk_from(m, t, va, level + prefix.len());
            assert(w == seq![(level_at(level), e)] + walk_from(m, next, va, level + 1));
            assert(w.drop_first() =~= walk_from(m, next, va, level + 1));
            assert((prefix + tail).drop_first() =~= rest + tail);
            assert(walk_from(m, next, va, level + 1) == rest + tail);
            assert forall|i: int| 0 <= i < rest.len() implies entry_points_to_table(#[trigger] rest[i].1.bits()) by {
                assert(rest[i] == prefix[i + 1]);
            }
            assert forall|i: int| 0 <= i < rest.len() implies m2.holds(#[trigger] prefix_table(rest, next, i))
                && entry_at(m2, prefix_table(rest, next, i), table_index(va, (level + 1 + i) as usize) as int)
                == rest[i].1 by {
                assert(prefix_table(rest, next, i) == prefix_table(prefix, addr, i + 1));
                assert(rest[i] == prefix[i + 1]);
                assert(m2.holds(prefix_table(prefix, addr, i + 1)));
            }
            if rest.len() > 0 {
                assert(rest.last() == prefix.last());
            }
            lemma_walk_prefix(m, m2, next, va, level + 1, rest, t);
            assert(walk_from(m2, addr, va, level) == seq![(level_at(level), e)] + walk_from(m2, next, va, level + 1));
            assert(walk_from(m2, addr, va, level) =~= prefix + walk_from(m2, t, va, level + prefix.len()));
        } else {
            assert(w == seq![(level_at(level), e)]);
            assert(prefix.len() == 1);
            assert(walk_from(m, t, va, 4) == Seq::<(PageTableLevel, PageTableEntry)>::empty());
            assert(walk_from(m2, t, va, 4) == Seq::<(PageTableLevel, PageTableEntry)>::empty());
            assert(walk_from(m2, addr, va, level) =~= prefix + walk_from(m2, t, va, level + prefix.len()));
        }
    }
}

/// A walk from a level goes through at most the levels below it.
proof fn lemma_walk_len(m: KernelTables, addr: u64, va: u64, level: int)
    requires
        0 <= level <= 4,
    ensures
        walk_from(m, addr, va, level).len() <= 4 - level,
    decreases 4 - level,
{
    if 0 <= level <= 3 && m.holds(addr) {
        let e = m.table_at(addr).entries@[table_index(va, level as usize) as int];
        if level < 3 && entry_points_to_table(e.bits()) {
            lemma_walk_len(m, entry_address(e.bits()), va, level + 1);
        }
    }
}

/// Holding a table stays true, and its entries stay, in a memory that keeps
/// the addresses of the tables and every entry but one.
proof fn lemma_entry_kept(m: KernelTables, m2: KernelTables, addr: u64, x: int, pos: int, index: int)
    requires
        m.wf(),
        m2.wf(),
        m.holds(addr),
        0 <= pos < m.tables@.len(),
        m2.tables@.len() >= m.tables@.len(),
        forall|i: int| 0 <= i < m.tables@.len() ==> (#[trigger] m2.tables@[i]).0 == m.tables@[i].0,
        forall|i: int, y: int|
            0 <= i < m.tables@.len() && 0 <= y < 512 && !(i == pos && y == index) ==> (
            #[trigger] m2.tables@[i].1.entries@[y]) == m.tables@[i].1.entries@[y],
        0 <= x < 512,
        !(addr == m.tables@[pos].0 && x == index),
    ensures
        m2.holds(addr),
        entry_at(m2, addr, x) == entry_at(m, addr, x),
{
    let j = choose|j: int| 0 <= j < m.tables@.len() && #[trigger] m.tables@[j].0 == addr;
    lemma_table_at(m, j);
    assert(m2.tables@[j].0 == addr);
    lemma_table_at(m2, j);
    assert(m2.tables@[j].1.entries@[x] == m.tables@[j].1.entries@[x]);
}

/// A memory with one more table at a new address holds what the old one
/// held, and that address, and nothing else.
proof fn lemma_holds_after_push(m: KernelTables, m2: KernelTables, a: u64, y: u64)
    requires
        m2.tables@.len() == m.tables@.len() + 1,
        forall|i: int| 0 <= i < m.tables@.len() ==> (#[trigger] m2.tables@[i]).0 == m.tables@[i].0,
        m2.tables@[m.tables@.len() as int].0 == a,
    ensures
        m2.holds(y) <==> (m.holds(y) || y == a),
{
    if m2.holds(y) {
        let j = choose|j: int| 0 <= j < m2.tables@.len() && #[trigger] m2.tables@[j].0 == y;
        if j < m.tables@.len() {
            assert(m.tables@[j].0 == y);
        }
    }
    if m.holds(y) {
        let j = choose|j: int| 0 <= j < m.tables@.len() && #[trigger] m.tables@[j].0 == y;
        assert(m2.tables@[j].0 == y);
    }
    if y == a {
        assert(m2.tables@[m.tables@.len() as int].0 == y);
    }
}

/// The level with the number `n`.
fn level_of(n: usize) -> (r: PageTableLevel)
    requires
        n <= 3,
    ensures
        r == level_at(n as int),
        r.spec_as_usize() == n,
{
    if n == 0 {
        PageTableLevel::ForthLevel
    } else if n == 1 {
        PageTableLevel::ThirdLevel
    } else if n == 2 {
        PageTableLevel::SecondLevel
    } else {
        PageTableLevel::FirstTable
    }
}

/// `memory` with the entry at `index` of the table at position `pos` set to
/// `entry`.
fn set_entry(memory: &mut KernelTables, pos: usize, index: usize, entry: PageTableEntry)
    requires
        pos < old(memory).tables@.len(),
        index < 512,
    ensures
        final(memory).tables@.len() == old(memory).tables@.len(),
        forall|i: int|
            0 <= i < old(memory).tables@.len() ==> (#[trigger] final(memory).tables@[i]).0 == old(
                memory,
            ).tables@[i].0,
        forall|i: int, x: int|
            0 <= i < old(memory).tables@.len() && 0 <= x < 512 && !(i == pos && x == index) ==> (
            #[trigger] final(memory).tables@[i].1.entries@[x]) == old(memory).tables@[i].1.entries@[x],
        final(memory).tables@[pos as int].1.entries@[index as int] == entry,
{
    let (addr, mut table) = memory.tables[pos];
    table.entries[index] = entry;
    memory.tables.set(pos, (addr, table));
}

impl VirtualAddress {
    /// Maps this address to `address` as a page of `page_size`, through the
    /// tables held in `memory` from the top table at `root`. Where the walk
    /// down to the level of the page meets an entry that maps nothing, the
    /// last of `fresh` becomes an empty table there, pointed to with the
    /// flags of a table. The entry of that level then maps `address` with
    /// `flags`, or with the default flags of the page size, when it maps
    /// nothing yet and `address` is page aligned; otherwise it stays as it
    /// is.
    pub fn map(
        &self,
        memory: &mut KernelTables,
        root: u64,
        address: PhysicalAddress,
        flags: Option<PageEntryFlags>,
        page_size: PageSize,
        fresh: &mut Vec<u64>,
    ) -> (r: Result<(), MappingError>)
        requires
            old(memory).wf(),
            old(memory).closed(),
            old(memory).holds(root),
            map_defined(walk_from(*old(memory), root, self@, 0), 3 - page_size.spec_as_usize()),
            tables_needed(walk_from(*old(memory), root, self@, 0), 3 - page_size.spec_as_usize())
                <= old(fresh)@.len(),
            fresh_usable(*old(memory), old(fresh)@),
            aligned_to(address@, 4096) ==> address@ <= 0x7_ffff_ffff_ffff,
        ensures
            ({
                let w = walk_from(*old(memory), root, self@, 0);
                let k = 3 - page_size.spec_as_usize();
                let n = tables_needed(w, k);
                let before = target_before(w, k);
                let after = walk_from(*final(memory), root, self@, 0);
                let mapped = !entry_present(before) && aligned_to(address@, 4096);
                &&& r is Ok
                &&& final(memory).wf()
                &&& final(fresh)@ == old(fresh)@.take(old(fresh)@.len() - n)
                &&& final(memory).tables@.len() == old(memory).tables@.len() + n
                &&& forall|i: int|
                    0 <= i < old(memory).tables@.len() ==> (#[trigger] final(memory).tables@[i]).0 == old(
                        memory,
                    ).tables@[i].0
                &&& forall|i: int|
                    0 <= i < n ==> (#[trigger] final(memory).tables@[old(memory).tables@.len() + i]).0
                        == old(fresh)@[old(fresh)@.len() - 1 - i]
                &&& forall|i: int, x: int|
                    0 <= i < old(memory).tables@.len() && 0 <= x < 512 && entry_present(
                        old(memory).tables@[i].1.entries@[x].bits(),
                    ) ==> (#[trigger] final(memory).tables@[i].1.entries@[x]) == old(memory).tables@[i].1.entries@[x]
                &&& after.len() > k
                &&& forall|j: int| 0 <= j < k ==> entry_points_to_table(#[trigger] after[j].1.bits())
                &&& after[k].1.bits() == if mapped {
                    mapped_bits(before, address@, map_flags(flags, page_size))
                } else {
                    before
                }
                &&& page_size == PageSize::Regular && mapped ==> translation(after, self@) == Some(
                    (address@ + (self@ & 0xfff)) as u64,
                )
                &&& page_size == PageSize::Big && flags is None && mapped ==> translation(after, self@)
                    == Some((address@ + (self@ & 0x1f_ffff)) as u64)
                &&& page_size == PageSize::Huge && flags is None && mapped ==> translation(after, self@)
                    == Some((address@ + (self@ & 0x3fff_ffff)) as u64)
            }),
    {
        let k = page_size.mapping_table();
        let ghost w = walk_from(*memory, root, self@, 0);
        let ghost m0 = *memory;
        let ghost f0 = fresh@;
        let ghost n = tables_needed(w, k as int);
        let mut t = root;
        let mut level: usize = 0;
        let ghost mut prefix: Seq<(PageTableLevel, PageTableEntry)> = seq![];
        let ghost mut allocated = false;
        let ghost mut used: int = 0;
        assert(prefix + walk_from(*memory, t, self@, 0) =~= walk_from(*memory, root, self@, 0));
        assert(w.take(0) =~= prefix);
        assert(w.skip(0) =~= w);
        while level < k
            invariant
                k == 3 - page_size.spec_as_usize(),
                level <= k <= 3,
                w == walk_from(m0, root, self@, 0),
                n == tables_needed(w, k as int),
                map_defined(w, k as int),
                n <= f0.len(),
                m0.wf(),
                fresh_usable(m0, f0),
                memory.wf(),
                memory.closed(),
                memory.holds(t),
                prefix.len() == level,
                walk_from(*memory, root, self@, 0) == prefix + walk_from(*memory, t, self@, level as int),
                forall|i: int| 0 <= i < level ==> entry_points_to_table(#[trigger] prefix[i].1.bits()),
                forall|i: int|
                    0 <= i < level ==> memory.holds(#[trigger] prefix_table(prefix, root, i)) && entry_at(
                        *memory,
                        prefix_table(prefix, root, i),
                        table_index(self@, i as usize) as int,
                    ) == prefix[i].1,
                level == 0 ==> t == root,
                level > 0 ==> t == entry_address(prefix.last().1.bits()),
                !allocated ==> *memory == m0 && prefix == w.take(level as int) && walk_from(
                    *memory,
                    t,
                    self@,
                    level as int,
                ) == w.skip(level as int) && used == 0,
                allocated ==> w.len() <= k && used == level - (w.len() - 1) && forall|x: int|
                    0 <= x < 512 ==> (#[trigger] entry_at(*memory, t, x)).bits() == 0,
                0 <= used <= n,
                fresh@ == f0.take(f0.len() - used),
                fresh_usable(*memory, fresh@),
                memory.tables@.len() == m0.tables@.len() + used,
                forall|i: int|
                    0 <= i < m0.tables@.len() ==> (#[trigger] memory.tables@[i]).0 == m0.tables@[i].0,
                forall|i: int|
                    0 <= i < used ==> (#[trigger] memory.tables@[m0.tables@.len() + i]).0 == f0[f0.len() - 1 - i],
                forall|i: int, x: int|
                    0 <= i < m0.tables@.len() && 0 <= x < 512 && entry_present(m0.tables@[i].1.entries@[x].bits())
                        ==> (#[trigger] memory.tables@[i].1.entries@[x]) == m0.tables@[i].1.entries@[x],
            decreases k - level,
        {
            let lv = level_of(level);
            let idx = self.index_of(lv);
            let pos = match memory.position(t) {
                Some(p) => p,
                None => vstd::pervasive::unreached(),
            };
            proof {
                lemma_table_at(*memory, pos as int);
            }
            let e = memory.tables[pos].1.entries[idx];
            let ghost m = *memory;
            let ghost rest = walk_from(m, t, self@, level as int);
            proof {
                assert(entry_at(m, t, idx as int) == e);
                assert(rest[0] == (lv, e));
                lemma_map_bits(0, 0, 0, 0, 0);
                if allocated {
                    assert(entry_at(m, t, idx as int).bits() == 0);
                }
            }
            match e.mapped_table() {
                Ok(_) => {
                    let a = e.get_address().as_u64();
                    proof {
                        assert(rest == seq![(lv, e)] + walk_from(m, a, self@, level + 1));
                        let p2 = prefix.push((lv, e));
                        assert(walk_from(m, root, self@, 0) =~= p2 + walk_from(m, a, self@, level + 1));
                        assert forall|i: int| 0 <= i < level + 1 implies memory.holds(#[trigger] prefix_table(p2, root, i))
                            && entry_at(*memory, prefix_table(p2, root, i), table_index(self@, i as usize) as int)
                            == p2[i].1 by {
                            if i < level {
                                assert(prefix_table(p2, root, i) == prefix_table(prefix, root, i));
                                assert(p2[i] == prefix[i]);
                            } else {
                                assert(prefix_table(p2, root, i) == t);
                            }
                        }
                        if !allocated {
                            assert(w.skip(level as int) == rest);
                            assert(p2 =~= w.take(level + 1));
                            assert(w.skip(level + 1) =~= rest.drop_first());
                            assert(rest.drop_first() =~= walk_from(m, a, self@, level + 1));
                        }
                        prefix = p2;
                    }
                    t = a;
                },
                Err(EntryError::NoMapping) => {
                    let ghost fr = fresh@;
                    let a = match fresh.pop() {
                        Some(a) => a,
                        None => vstd::pervasive::unreached(),
                    };
                    proof {
                        if !allocated {
                            assert(rest == seq![(lv, e)]);
                            assert(w.skip(level as int).len() == 1);
                        }
                        assert(fr.last() == a);
                        assert(!m.holds(a) && aligned_to(a, 4096) && a + PHYSICAL_MEMORY_OFFSET <= u64::MAX) by {
                            assert(fr[fr.len() - 1] == a);
                        }
                        lemma_map_bits(0, a, 0, 0, 0);
                    }
                    let mut entry = e;
                    let table_flags = PageEntryFlags::table_flags();
                    entry.map(PhysicalAddress::new_unchecked(a), table_flags);
                    set_entry(memory, pos, idx, entry);
                    let ghost m1 = *memory;
                    let new_table = PageTable::empty();
                    memory.tables.push((a, new_table));
                    let ghost m2 = *memory;
                    proof {
                        let eb = mapped_bits(e.bits(), a, 0x403);
                        lemma_map_bits(e.bits(), a, 0x403, 0, 0);
                        assert(entry.bits() == eb);
                        assert(entry_present(eb) && entry_points_to_table(eb) && entry_address(eb) == a);
                        assert(m2.tables@.len() == m.tables@.len() + 1);
                        assert forall|i: int| 0 <= i < m.tables@.len() implies (#[trigger] m2.tables@[i]).0
                            == m.tables@[i].0 by {
                            assert(m2.tables@[i] == m1.tables@[i]);
                        }
                        assert forall|i: int, y: int|
                            0 <= i < m.tables@.len() && 0 <= y < 512 && !(i == pos && y == idx) implies (
                            #[trigger] m2.tables@[i].1.entries@[y]) == m.tables@[i].1.entries@[y] by {
                            assert(m2.tables@[i] == m1.tables@[i]);
                        }
                        assert(m2.tables@[m.tables@.len() as int].0 == a);
                        // The new memory is well formed: the new address is not held before.
                        assert forall|i: int, j: int|
                            0 <= i < m2.tables@.len() && 0 <= j < m2.tables@.len() && i != j implies #[trigger] m2.tables@[i].0
                                != #[trigger] m2.tables@[j].0 by {
                            if i < m.tables@.len() && j < m.tables@.len() {
                                assert(m.tables@[i].0 != m.tables@[j].0);
                            } else if i < m.tables@.len() {
                                assert(m.tables@[i].0 != a);
                            } else if j < m.tables@.len() {
                                assert(m.tables@[j].0 != a);
                            }
                        }
                        assert(m2.wf());
                        lemma_table_at(m2, pos as int);
                        lemma_table_at(m2, m.tables@.len() as int);
                        assert(entry_at(m2, t, idx as int) == entry);
                        assert(m.tables@[pos as int].0 == t);
                        assert forall|i: int| 0 <= i < level implies m2.holds(#[trigger] prefix_table(prefix, root, i))
                            && entry_at(m2, prefix_table(prefix, root, i), table_index(self@, i as usize) as int)
                            == prefix[i].1 by {
                            let ti = prefix_table(prefix, root, i);
                            let xi = table_index(self@, i as usize) as int;
                            lemma_map_bits(0, 0, 0, self@, (39 - 9 * i) as u64);
                            assert(entry_points_to_table(prefix[i].1.bits()));
                            if ti == t && xi == idx {
                                assert(entry_at(m, ti, xi) == e);
                                assert(false);
                            }
                            lemma_entry_kept(m, m2, ti, xi, pos as int, idx as int);
                        }
                        lemma_walk_prefix(m, m2, root, self@, 0, prefix, t);
                        assert(walk_from(m2, t, self@, level as int) == seq![(lv, entry)] + walk_from(m2, a, self@, level + 1));
                        let p2 = prefix.push((lv, entry));
                        assert(walk_from(m2, root, self@, 0) =~= p2 + walk_from(m2, a, self@, level + 1));
                        assert forall|i: int| 0 <= i < level + 1 implies entry_points_to_table(#[trigger] p2[i].1.bits()) by {
                            if i < level {
                                assert(p2[i] == prefix[i]);
                            }
                        }
                        assert forall|i: int| 0 <= i < level + 1 implies m2.holds(#[trigger] prefix_table(p2, root, i))
                            && entry_at(m2, prefix_table(p2, root, i), table_index(self@, i as usize) as int)
                            == p2[i].1 by {
                            if i < level {
                                assert(prefix_table(p2, root, i) == prefix_table(prefix, root, i));
                                assert(p2[i] == prefix[i]);
                            } else {
                                assert(prefix_table(p2, root, i) == t);
                            }
                        }
                        lemma_holds_after_push(m, m2, a, a);
                        assert forall|x: int| 0 <= x < 512 implies (#[trigger] entry_at(m2, a, x)).bits() == 0 by {
                            assert(m2.tables@[m.tables@.len() as int].1 == new_table);
                        }
                        assert forall|i: int, x: int|
                            0 <= i < m2.tables@.len() && 0 <= x < 512 && entry_present(
                                #[trigger] m2.tables@[i].1.entries@[x].bits(),
                            ) implies entry_address(m2.tables@[i].1.entries@[x].bits()) + PHYSICAL_MEMORY_OFFSET
                            <= u64::MAX && (entry_points_to_table(m2.tables@[i].1.entries@[x].bits())
                            ==> m2.holds(entry_address(m2.tables@[i].1.entries@[x].bits()))) by {
                            if i == m.tables@.len() {
                                assert(m2.tables@[i].1 == new_table);
                            } else if i == pos && x == idx {
                            } else {
                                let b = m.tables@[i].1.entries@[x].bits();
                                assert(m2.tables@[i].1.entries@[x] == m.tables@[i].1.entries@[x]);
                                assert(entry_present(b));
                                lemma_holds_after_push(m, m2, a, entry_address(b));
                            }
                        }
                        assert(m2.closed());
                        prefix = p2;
                        if !allocated {
                            assert(w.len() == level + 1);
                        }
                        allocated = true;
                        used = used + 1;
                        assert(fresh@ =~= f0.take(f0.len() - used));
                        assert forall|i: int| 0 <= i < fresh@.len() implies !m2.holds(#[trigger] fresh@[i]) && aligned_to(
                            fresh@[i],
                            4096,
                        ) && fresh@[i] + PHYSICAL_MEMORY_OFFSET <= u64::MAX by {
                            assert(fresh@[i] == f0[i]);
                            assert(f0[i] != f0[f0.len() - used]);
                            lemma_holds_after_push(m, m2, a, fresh@[i]);
                        }
                        assert forall|i: int, j: int| 0 <= i < j < fresh@.len() implies #[trigger] fresh@[i]
                            != #[trigger] fresh@[j] by {
                            assert(fresh@[i] == f0[i] && fresh@[j] == f0[j]);
                        }
                        assert forall|i: int| 0 <= i < m0.tables@.len() implies (#[trigger] m2.tables@[i]).0
                            == m0.tables@[i].0 by {
                            assert(m2.tables@[i].0 == m.tables@[i].0);
                        }
                        assert forall|i: int| 0 <= i < used implies (#[trigger] m2.tables@[m0.tables@.len() + i]).0
                            == f0[f0.len() - 1 - i] by {
                            if i < used - 1 {
                                assert(m2.tables@[m0.tables@.len() + i].0 == m.tables@[m0.tables@.len() + i].0);
                            }
                        }
                        assert forall|i: int, x: int|
                            0 <= i < m0.tables@.len() && 0 <= x < 512 && entry_present(m0.tables@[i].1.entries@[x].bits())
                                implies (#[trigger] m2.tables@[i].1.entries@[x]) == m0.tables@[i].1.entries@[x] by {
                            assert(m.tables@[i].1.entries@[x] == m0.tables@[i].1.entries@[x]);
                            if i == pos && x == idx {
                                assert(false);
                            }
                        }
                    }
                    t = a;
                },
                Err(EntryError::NotATable) => {
                    proof {
                        assert(!allocated);
                        assert(w.len() == level + 1);
                        assert(false);
                    }
                    vstd::pervasive::unreached()
                },
            }
            level = level + 1;
        }
        let lv = level_of(k);
        let idx = self.index_of(lv);
        let pos = match memory.position(t) {
            Some(p) => p,
            None => vstd::pervasive::unreached(),
        };
        proof {
            lemma_table_at(*memory, pos as int);
        }
        let e = memory.tables[pos].1.entries[idx];
        let chosen = match flags {
            Some(f) => f,
            None => match page_size {
                PageSize::Regular => PageEntryFlags::regular_page_flags(),
                _ => PageEntryFlags::huge_page_flags(),
            },
        };
        chosen.bits_fit();
        let ghost m = *memory;
        proof {
            lemma_map_bits(e.bits(), address@, chosen.bits(), self@, 0);
            assert(entry_at(m, t, idx as int) == e);
            let rest = walk_from(m, t, self@, k as int);
            assert(rest[0] == (lv, e));
            if !allocated {
                assert(w.skip(k as int) == rest);
                assert(w[k as int] == (lv, e));
            } else {
                assert(entry_at(m, t, idx as int).bits() == 0);
            }
            assert(target_before(w, k as int) == e.bits());
            assert(chosen.bits() == map_flags(flags, page_size));
        }
        let mut entry = e;
        entry.map(address, chosen);
        set_entry(memory, pos, idx, entry);
        let ghost m3 = *memory;
        proof {
            assert(m.tables@[pos as int].0 == t);
            assert forall|i: int, j: int|
                0 <= i < m3.tables@.len() && 0 <= j < m3.tables@.len() && i != j implies #[trigger] m3.tables@[i].0
                    != #[trigger] m3.tables@[j].0 by {
                assert(m.tables@[i].0 != m.tables@[j].0);
            }
            assert(m3.wf());
            lemma_table_at(m3, pos as int);
            assert(entry_at(m3, t, idx as int) == entry);
            assert forall|i: int| 0 <= i < k implies m3.holds(#[trigger] prefix_table(prefix, root, i))
                && entry_at(m3, prefix_table(prefix, root, i), table_index(self@, i as usize) as int)
                == prefix[i].1 by {
                let ti = prefix_table(prefix, root, i);
                let xi = table_index(self@, i as usize) as int;
                lemma_map_bits(0, 0, 0, self@, (39 - 9 * i) as u64);
                if ti == t && xi == idx {
                    assert(entry_at(m, ti, xi) == e);
                    assert(entry_present(prefix[i].1.bits()));
                    PageTableEntry::lemma_bits_equal(entry, e);
                } else {
                    lemma_entry_kept(m, m3, ti, xi, pos as int, idx as int);
                }
            }
            lemma_walk_prefix(m, m3, root, self@, 0, prefix, t);
            let after = walk_from(m3, root, self@, 0);
            let tail = walk_from(m3, t, self@, k as int);
            assert(tail[0] == (lv, entry));
            assert(after[k as int] == (lv, entry));
            assert forall|j: int| 0 <= j < k implies entry_points_to_table(#[trigger] after[j].1.bits()) by {
                assert(after[j] == prefix[j]);
            }
            assert(fresh@ =~= f0.take(f0.len() - n));
            assert forall|i: int| 0 <= i < m0.tables@.len() implies (#[trigger] m3.tables@[i]).0 == m0.tables@[i].0 by {
                assert(m3.tables@[i].0 == m.tables@[i].0);
            }
            assert forall|i: int| 0 <= i < n implies (#[trigger] m3.tables@[m0.tables@.len() + i]).0
                == f0[f0.len() - 1 - i] by {
                assert(m3.tables@[m0.tables@.len() + i].0 == m.tables@[m0.tables@.len() + i].0);
            }
            assert forall|i: int, x: int|
                0 <= i < m0.tables@.len() && 0 <= x < 512 && entry_present(m0.tables@[i].1.entries@[x].bits())
                    implies (#[trigger] m3.tables@[i].1.entries@[x]) == m0.tables@[i].1.entries@[x] by {
                assert(m.tables@[i].1.entries@[x] == m0.tables@[i].1.entries@[x]);
                if i == pos && x == idx {
                    PageTableEntry::lemma_bits_equal(entry, e);
                }
            }
            if page_size == PageSize::Regular && !entry_present(e.bits()) && aligned_to(address@, 4096) {
                lemma_walk_len(m3, root, self@, 0);
                assert(after.len() == 4);
                assert(after.last() == (PageTableLevel::FirstTable, entry));
                lemma_map_bits(e.bits(), address@, chosen.bits(), self@, 0);
                assert(entry_address(entry.bits()) == address@);
                assert(offset_bits(PageTableLevel::FirstTable) == 12);
            }
            if page_size != PageSize::Regular && flags is None && !entry_present(e.bits()) && aligned_to(
                address@,
                4096,
            ) {
                lemma_large_map_bits(e.bits(), address@, self@);
                lemma_map_bits(e.bits(), address@, chosen.bits(), self@, 0);
                assert(chosen.bits() == 0x83);
                assert(entry.bits() == mapped_bits(e.bits(), address@, 0x83));
                assert(!entry_points_to_table(entry.bits()));
                assert(tail =~= seq![(lv, entry)]);
                assert(after =~= prefix + tail);
                assert(after.last() == (lv, entry));
                assert(entry_address(entry.bits()) == address@);
            }
        }
        Ok(())
    }
}

} // verus!
