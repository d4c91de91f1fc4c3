//! The memory map the BIOS reports, made into a list of regions without
//! gaps.
use vstd::prelude::*;

use crate::common::constants::{KiB, MiB, INIT_AREA_SIZE_BYTES};
use crate::common::enums::MemoryRegionType;

verus! {

/// A region as the BIOS reports it, with its extended attributes.
#[derive(Clone, Copy, Debug)]
pub struct MemoryRegionExtended {
    pub base_address: u64,
    pub length: u64,
    pub region_type: MemoryRegionType,
    pub extended_attributes: u32,
}

/// A region of physical memory.
#[derive(Clone, Copy, Debug)]
pub struct MemoryRegion {
    pub base_address: u64,
    pub length: u64,
    pub region_type: MemoryRegionType,
}

/// Why a memory map could not be made.
#[derive(Clone, Copy, Debug, PartialEq, Eq, Structural)]
pub enum MemoryMapError {
    /// The BIOS reported no usable region.
    Empty,
    /// The regions do not fit the buffer.
    Overflow,
}

/// The region of `e`, without its extended attributes.
pub open spec fn region_of(e: MemoryRegionExtended) -> MemoryRegion {
    MemoryRegion { base_address: e.base_address, length: e.length, region_type: e.region_type }
}

/// The filler region that covers the gap between `left` and `right`, if
/// there is one.
pub open spec fn gap_between(left: MemoryRegionExtended, right: MemoryRegionExtended) -> Option<
    MemoryRegion,
> {
    if left.base_address + left.length < right.base_address {
        Some(
            MemoryRegion {
                base_address: (left.base_address + left.length) as u64,
                length: (right.base_address - (left.base_address + left.length)) as u64,
                region_type: MemoryRegionType::Filler,
            },
        )
    } else {
        None
    }
}

/// The regions the first `n` pairs of neighbours of `raw` give: each left
/// region, followed by the gap before its right neighbour when there is one.
pub open spec fn window_regions(raw: Seq<MemoryRegionExtended>, n: int) -> Seq<MemoryRegion>
    decreases n,
{
    if n <= 0 {
        seq![]
    } else {
        window_regions(raw, n - 1) + seq![region_of(raw[n - 1])] + match gap_between(
            raw[n - 1],
            raw[n],
        ) {
            Some(g) => seq![g],
            None => seq![],
        }
    }
}

/// The index of the first usable region of `raw` at `i` or after, or the
/// length of `raw` when there is none.
pub open spec fn first_usable_from(raw: Seq<MemoryRegionExtended>, i: int) -> int
    decreases raw.len() - i,
{
    if i >= raw.len() {
        raw.len() as int
    } else if raw[i].region_type == MemoryRegionType::Usable {
        i
    } else {
        first_usable_from(raw, i + 1)
    }
}

/// The index of the first usable region of `raw`, or the length of `raw`
/// when there is none.
pub open spec fn first_usable(raw: Seq<MemoryRegionExtended>) -> int {
    first_usable_from(raw, 0)
}

/// `raw` with the init area taken from the start of its region `u`.
pub open spec fn without_init_area(raw: Seq<MemoryRegionExtended>, u: int) -> Seq<MemoryRegionExtended> {
    raw.update(
        u,
        MemoryRegionExtended {
            base_address: (raw[u].base_address + INIT_AREA_SIZE_BYTES) as u64,
            length: (raw[u].length - INIT_AREA_SIZE_BYTES) as u64,
            ..raw[u]
        },
    )
}

/// The init area: the start of the region `r`.
pub open spec fn init_entry(r: MemoryRegionExtended) -> MemoryRegion {
    MemoryRegion { base_address: r.base_address, length: INIT_AREA_SIZE_BYTES, region_type: MemoryRegionType::UserEnterd }
}

/// The pairs of neighbours of `rest` that a map made in a buffer of
/// `capacity` regions reaches go in order and fit: pair `i` is reached when
/// the init area and the regions of the pairs before it fit the buffer, and
/// then its left region starts before its right one and ends within the
/// address space.
pub open spec fn reached_pairs_fit(rest: Seq<MemoryRegionExtended>, capacity: int) -> bool {
    forall|i: int|
        0 <= i < rest.len() - 1 && 1 + (#[trigger] window_regions(rest, i)).len() <= capacity ==> {
            &&& rest[i].base_address < rest[i + 1].base_address
            &&& rest[i].base_address + rest[i].length <= u64::MAX
        }
}

/// The regions of the memory map made from `raw`, which has a usable
/// region: the init area at the start of the first usable region, then,
/// with the init area taken from that region, every region with the gap
/// before its next neighbour filled, and the last region.
pub open spec fn parsed_regions(raw: Seq<MemoryRegionExtended>) -> Seq<MemoryRegion> {
    let u = first_usable(raw);
    let rest = without_init_area(raw, u);
    seq![init_entry(raw[u])] + window_regions(rest, rest.len() - 1) + seq![region_of(rest.last())]
}

/// A map can be made from `raw` in a buffer of `capacity` regions: when
/// `raw` has a usable region, the first one is longer than the init area and
/// can lose it, and then every pair of neighbours the work reaches before
/// the buffer is full goes in order and fits.
pub open spec fn parse_defined(raw: Seq<MemoryRegionExtended>, capacity: int) -> bool {
    let u = first_usable(raw);
    u < raw.len() ==> {
        &&& raw[u].length > INIT_AREA_SIZE_BYTES
        &&& raw[u].base_address + INIT_AREA_SIZE_BYTES <= u64::MAX
        &&& reached_pairs_fit(without_init_area(raw, u), capacity)
    }
}

/// The first usable region from `i` on is at `i` or after, none before it
/// is usable, and it is usable when there is one.
proof fn lemma_first_usable(raw: Seq<MemoryRegionExtended>, i: int)
    requires
        0 <= i <= raw.len(),
    ensures
        i <= first_usable_from(raw, i) <= raw.len(),
        first_usable_from(raw, i) < raw.len() ==> raw[first_usable_from(raw, i)].region_type
            == MemoryRegionType::Usable,
        forall|j: int| i <= j < first_usable_from(raw, i) ==> #[trigger] raw[j].region_type
            != MemoryRegionType::Usable,
    decreases raw.len() - i,
{
    if i < raw.len() && raw[i].region_type != MemoryRegionType::Usable {
        lemma_first_usable(raw, i + 1);
    }
}

impl MemoryRegionType {
    /// Whether this is the type of usable memory.
    pub fn is_usable(&self) -> (r: bool)
        ensures
            r == (*self == MemoryRegionType::Usable),
    {
        match self {
            MemoryRegionType::Usable => true,
            _ => false,
        }
    }
}

impl MemoryRegion {
    /// The region of `value`, without its extended attributes.
    pub fn from_extended(value: &MemoryRegionExtended) -> (r: MemoryRegion)
        ensures
            r == region_of(*value),
    {
        MemoryRegion {
            base_address: value.base_address,
            length: value.length,
            region_type: value.region_type,
        }
    }

    /// The size of the region in whole MiB, and the KiB left over.
    pub fn size_mib_kib(&self) -> (r: (u64, u64))
        ensures
            r.0 == self.length / (MiB as u64),
            r.1 == (self.length % (MiB as u64)) / (KiB as u64),
    {
        (self.length / (MiB as u64), (self.length % (MiB as u64)) / (KiB as u64))
    }
}

/// The filler region that covers the gap between `left` and `right`, if the
/// first ends before the second starts; `left` must start before `right`.
pub fn filler_entry(left: &MemoryRegionExtended, right: &MemoryRegionExtended) -> (r: Option<
    MemoryRegion,
>)
    requires
        left.base_address < right.base_address,
        left.base_address + left.length <= u64::MAX,
    ensures
        r == gap_between(*left, *right),
{
    if left.base_address + left.length < right.base_address {
        let filler_base = left.base_address + left.length;
        let length = right.base_address - filler_base;
        Some(MemoryRegion { base_address: filler_base, length, region_type: MemoryRegionType::Filler })
    } else {
        None
    }
}

/// The sum of the lengths of the regions of `regions` of type `t`.
pub open spec fn total_of(regions: Seq<MemoryRegion>, t: MemoryRegionType) -> int
    decreases regions.len(),
{
    if regions.len() == 0 {
        0
    } else {
        total_of(regions.drop_last(), t) + if regions.last().region_type == t {
            regions.last().length as int
        } else {
            0
        }
    }
}

/// A line of the report of a memory map: where a region starts and ends,
/// its type, and, for usable, reserved and filler regions, its size in MiB
/// and the KiB left over.
#[derive(Clone, Copy, Debug)]
pub struct ReportRow {
    pub base_address: u64,
    pub end_address: u64,
    pub region_type: MemoryRegionType,
    pub size: Option<(u64, u64)>,
}

/// The report of a memory map: a line per region, then the totals of the
/// usable and of the reserved memory, each in MiB and the KiB left over.
#[derive(Debug)]
pub struct MemoryReport {
    pub rows: Vec<ReportRow>,
    pub usable: (u64, u64),
    pub reserved: (u64, u64),
}

/// `bytes` in whole MiB, and the KiB left over.
pub open spec fn mib_kib(bytes: u64) -> (u64, u64) {
    (bytes / (MiB as u64), (bytes % (MiB as u64)) / (KiB as u64))
}

/// The line of the report for `region`.
pub open spec fn report_row(region: MemoryRegion) -> ReportRow {
    ReportRow {
        base_address: region.base_address,
        end_address: (region.base_address + region.length) as u64,
        region_type: region.region_type,
        size: if region.region_type == MemoryRegionType::Usable || region.region_type
            == MemoryRegionType::Reserved || region.region_type == MemoryRegionType::Filler {
            Some(mib_kib(region.length))
        } else {
            None
        },
    }
}

/// A memory map: the init area, then the regions in the order the BIOS
/// reported them, with the gaps filled; and the size of the buffer it was
/// made in.
#[derive(Clone, Debug)]
pub struct MemoryMap {
    regions: Vec<MemoryRegion>,
    capacity: usize,
}

impl MemoryMap {
    /// The number of regions the buffer the map was made in holds.
    pub closed spec fn spec_capacity(&self) -> usize {
        self.capacity
    }

    /// The number of regions the buffer the map was made in holds.
    pub fn capacity(&self) -> (r: usize)
        ensures
            r == self.spec_capacity(),
    {
        self.capacity
    }

    /// The regions of the map.
    pub closed spec fn spec_regions(&self) -> Seq<MemoryRegion> {
        self.regions@
    }

    /// The regions of the map.
    pub fn regions(&self) -> (r: &Vec<MemoryRegion>)
        ensures
            r@ == self.spec_regions(),
    {
        &self.regions
    }

    /// Makes the memory map of the regions `raw` in `buf`. The init area is
    /// taken from the start of the first usable region of `raw` (which then
    /// starts after it) and comes first; then come the regions of `raw`,
    /// each followed by the filler of the gap before the next one when
    /// there is a gap. Fails with `Empty`, changing nothing, when `raw` has
    /// no usable region, and with `Overflow` when the regions do not fit
    /// `buf`, which then holds as many of them as fit.
    pub fn parse_map(raw: &mut [MemoryRegionExtended], buf: &mut [MemoryRegion]) -> (r: Result<
        MemoryMap,
        MemoryMapError,
    >)
        requires
            parse_defined(old(raw)@, old(buf)@.len() as int),
        ensures
            first_usable(old(raw)@) == old(raw)@.len() ==> r == Err::<MemoryMap, MemoryMapError>(
                MemoryMapError::Empty,
            ) && final(raw)@ == old(raw)@ && final(buf)@ == old(buf)@,
            first_usable(old(raw)@) < old(raw)@.len() ==> {
                let parsed = parsed_regions(old(raw)@);
                &&& final(raw)@ == without_init_area(old(raw)@, first_usable(old(raw)@))
                &&& parsed.len() > old(buf)@.len() ==> r == Err::<MemoryMap, MemoryMapError>(
                    MemoryMapError::Overflow,
                )
                &&& parsed.len() <= old(buf)@.len() ==> (r matches Ok(m) && m.spec_regions() == parsed
                    && m.spec_capacity() == old(buf)@.len())
                &&& final(buf)@.len() == old(buf)@.len()
                &&& forall|i: int|
                    0 <= i < final(buf)@.len() ==> #[trigger] final(buf)@[i] == if i < parsed.len() {
                        parsed[i]
                    } else {
                        old(buf)@[i]
                    }
            },
    {
        let ghost raw0 = raw@;
        let ghost b0 = buf@;
        let n = raw.len();
        let mut u: usize = 0;
        proof {
            lemma_first_usable(raw0, 0);
        }
        while u < n && !raw[u].region_type.is_usable()
            invariant
                u <= n,
                n == raw@.len(),
                raw@ == raw0,
                first_usable_from(raw0, u as int) == first_usable(raw0),
            decreases n - u,
        {
            u = u + 1;
        }
        if u == n {
            return Err(MemoryMapError::Empty);
        }
        let mut first = raw[u];
        let init = MemoryRegion {
            base_address: first.base_address,
            length: INIT_AREA_SIZE_BYTES,
            region_type: MemoryRegionType::UserEnterd,
        };
        first.base_address = first.base_address + INIT_AREA_SIZE_BYTES;
        first.length = first.length - INIT_AREA_SIZE_BYTES;
        raw[u] = first;
        let ghost rest = raw@;
        let ghost parsed = parsed_regions(raw0);
        proof {
            assert(rest =~= without_init_area(raw0, u as int));
            assert(init == init_entry(raw0[u as int]));
            lemma_parsed_prefix(raw0, rest, init);
        }
        if buf.len() == 0 {
            return Err(MemoryMapError::Overflow);
        }
        buf[0] = init;
        let mut position: usize = 1;
        let mut w: usize = 0;
        proof {
            assert(seq![init] + window_regions(rest, 0) =~= seq![init]);
        }
        while w + 1 < n
            invariant
                n == rest.len(),
                n >= 1,
                raw@ == rest,
                reached_pairs_fit(rest, b0.len() as int),
                b0 == old(buf)@,
                parsed == seq![init] + window_regions(rest, rest.len() - 1) + seq![region_of(rest.last())],
                parsed.take((1 + window_regions(rest, rest.len() - 1).len()) as int) == seq![init] + window_regions(
                    rest,
                    rest.len() - 1,
                ),
                parsed.len() == 2 + window_regions(rest, rest.len() - 1).len(),
                w + 1 <= n,
                raw0 == old(raw)@,
                n == raw0.len(),
                (u as int) == first_usable(raw0),
                u < n,
                rest == without_init_area(raw0, u as int),
                parsed == parsed_regions(raw0),
                position == 1 + window_regions(rest, w as int).len(),
                position <= buf@.len(),
                buf@.len() == b0.len(),
                forall|i: int|
                    0 <= i < buf@.len() ==> #[trigger] buf@[i] == if i < position {
                        (seq![init] + window_regions(rest, w as int))[i]
                    } else {
                        b0[i]
                    },
            decreases n - w,
        {
            let left = raw[w];
            let right = raw[w + 1];
            let filler = filler_entry(&left, &right);
            proof {
                lemma_window_step(rest, init, parsed, w as int);
            }
            if position >= buf.len() {
                return Err(MemoryMapError::Overflow);
            }
            buf[position] = MemoryRegion::from_extended(&left);
            position = position + 1;
            match filler {
                Some(f) => {
                    if position >= buf.len() {
                        return Err(MemoryMapError::Overflow);
                    }
                    buf[position] = f;
                    position = position + 1;
                },
                None => {},
            }
            w = w + 1;
        }
        let last = raw[n - 1];
        proof {
            assert(w as int == rest.len() - 1);
            assert(parsed =~= (seq![init] + window_regions(rest, w as int)) + seq![region_of(last)]);
        }
        if position >= buf.len() {
            return Err(MemoryMapError::Overflow);
        }
        buf[position] = MemoryRegion::from_extended(&last);
        position = position + 1;
        let mut regions: Vec<MemoryRegion> = Vec::new();
        let mut k: usize = 0;
        while k < position
            invariant
                k <= position,
                position == parsed.len(),
                position <= buf@.len(),
                forall|i: int| 0 <= i < position ==> #[trigger] buf@[i] == parsed[i],
                regions@ == parsed.take(k as int),
            decreases position - k,
        {
            regions.push(buf[k]);
            k = k + 1;
            assert(regions@ =~= parsed.take(k as int));
        }
        assert(regions@ =~= parsed);
        Ok(MemoryMap { regions, capacity: buf.len() })
    }

    /// What the map reports: a line per region with its bounds, its type
    /// and, when it is usable, reserved or a filler, its size; then the
    /// totals of the usable and of the reserved memory (fillers are not
    /// reserved).
    pub fn report(&self) -> (r: MemoryReport)
        requires
            forall|i: int|
                0 <= i < self.spec_regions().len() ==> #[trigger] self.spec_regions()[i].base_address
                    + self.spec_regions()[i].length <= u64::MAX,
            total_of(self.spec_regions(), MemoryRegionType::Usable) <= u64::MAX,
            total_of(self.spec_regions(), MemoryRegionType::Reserved) <= u64::MAX,
        ensures
            r.rows@ == self.spec_regions().map_values(|region: MemoryRegion| report_row(region)),
            r.usable == mib_kib(total_of(self.spec_regions(), MemoryRegionType::Usable) as u64),
            r.reserved == mib_kib(total_of(self.spec_regions(), MemoryRegionType::Reserved) as u64),
    {
        let mut rows: Vec<ReportRow> = Vec::new();
        let mut i: usize = 0;
        while i < self.regions.len()
            invariant
                i <= self.regions@.len(),
                forall|j: int|
                    0 <= j < self.regions@.len() ==> #[trigger] self.regions@[j].base_address
                        + self.regions@[j].length <= u64::MAX,
                rows@ == self.regions@.take(i as int).map_values(
                    |region: MemoryRegion| report_row(region),
                ),
            decreases self.regions@.len() - i,
        {
            let entry = self.regions[i];
            let size = match entry.region_type {
                MemoryRegionType::Usable
                | MemoryRegionType::Reserved
                | MemoryRegionType::Filler => Some(entry.size_mib_kib()),
                _ => None,
            };
            rows.push(
                ReportRow {
                    base_address: entry.base_address,
                    end_address: entry.base_address + entry.length,
                    region_type: entry.region_type,
                    size,
                },
            );
            i = i + 1;
            assert(rows@ =~= self.regions@.take(i as int).map_values(
                |region: MemoryRegion| report_row(region),
            ));
        }
        assert(self.regions@.take(i as int) =~= self.regions@);
        let (usable, reserved) = self.totals();
        MemoryReport {
            rows,
            usable: (usable / (MiB as u64), (usable % (MiB as u64)) / (KiB as u64)),
            reserved: (reserved / (MiB as u64), (reserved % (MiB as u64)) / (KiB as u64)),
        }
    }

    /// The total lengths of the usable and of the reserved regions of the
    /// map.
    pub fn totals(&self) -> (r: (u64, u64))
        requires
            total_of(self.spec_regions(), MemoryRegionType::Usable) <= u64::MAX,
            total_of(self.spec_regions(), MemoryRegionType::Reserved) <= u64::MAX,
        ensures
            r.0 == total_of(self.spec_regions(), MemoryRegionType::Usable),
            r.1 == total_of(self.spec_regions(), MemoryRegionType::Reserved),
    {
        let mut usable: u64 = 0;
        let mut reserved: u64 = 0;
        let mut i: usize = 0;
        while i < self.regions.len()
            invariant
                i <= self.regions@.len(),
                total_of(self.regions@, MemoryRegionType::Usable) <= u64::MAX,
                total_of(self.regions@, MemoryRegionType::Reserved) <= u64::MAX,
                usable == total_of(self.regions@.take(i as int), MemoryRegionType::Usable),
                reserved == total_of(self.regions@.take(i as int), MemoryRegionType::Reserved),
            decreases self.regions@.len() - i,
        {
            let entry = self.regions[i];
            proof {
                assert(self.regions@.take(i as int + 1).drop_last() =~= self.regions@.take(i as int));
                lemma_total_prefix(self.regions@, i as int + 1, MemoryRegionType::Usable);
                lemma_total_prefix(self.regions@, i as int + 1, MemoryRegionType::Reserved);
            }
            match entry.region_type {
                MemoryRegionType::Usable => {
                    usable = usable + entry.length;
                },
                MemoryRegionType::Reserved => {
                    reserved = reserved + entry.length;
                },
                _ => {},
            }
            i = i + 1;
        }
        assert(self.regions@.take(i as int) =~= self.regions@);
        (usable, reserved)
    }
}

/// A prefix of the regions sums to no more than all of them.
proof fn lemma_total_prefix(regions: Seq<MemoryRegion>, k: int, t: MemoryRegionType)
    requires
        0 <= k <= regions.len(),
    ensures
        total_of(regions.take(k), t) <= total_of(regions, t),
    decreases regions.len() - k,
{
    if k < regions.len() {
        lemma_total_prefix(regions, k + 1, t);
        assert(regions.take(k + 1).drop_last() =~= regions.take(k));
    } else {
        assert(regions.take(k) =~= regions);
    }
}

/// The regions of a pair of neighbours extend those of the pairs before.
proof fn lemma_window_prefix(raw: Seq<MemoryRegionExtended>, n: int)
    requires
        n >= 1,
    ensures
        window_regions(raw, n).take(window_regions(raw, n - 1).len() as int) == window_regions(
            raw,
            n - 1,
        ),
        window_regions(raw, n).len() > window_regions(raw, n - 1).len(),
{
    assert(window_regions(raw, n).take(window_regions(raw, n - 1).len() as int) =~= window_regions(
        raw,
        n - 1,
    ));
}

/// More pairs of neighbours give more regions, and the same first ones.
proof fn lemma_window_grows(raw: Seq<MemoryRegionExtended>, a: int, b: int)
    requires
        0 <= a <= b,
    ensures
        window_regions(raw, a).len() <= window_regions(raw, b).len(),
        window_regions(raw, b).take(window_regions(raw, a).len() as int) == window_regions(raw, a),
    decreases b - a,
{
    if a < b {
        lemma_window_grows(raw, a, b - 1);
        if b >= 1 {
            lemma_window_prefix(raw, b);
        }
        assert(window_regions(raw, b).take(window_regions(raw, a).len() as int) =~= window_regions(
            raw,
            a,
        ));
    } else {
        assert(window_regions(raw, b).take(window_regions(raw, a).len() as int) =~= window_regions(
            raw,
            a,
        ));
    }
}

/// One more pair of neighbours adds the left region and the filler of the
/// gap after it, if any; the map starts with those regions and goes on.
proof fn lemma_window_step(
    rest: Seq<MemoryRegionExtended>,
    init: MemoryRegion,
    parsed: Seq<MemoryRegion>,
    w: int,
)
    requires
        0 <= w,
        w + 1 < rest.len(),
        parsed == seq![init] + window_regions(rest, rest.len() - 1) + seq![region_of(rest.last())],
    ensures
        seq![init] + window_regions(rest, w + 1) == seq![init] + window_regions(rest, w) + seq![
            region_of(rest[w]),
        ] + match gap_between(rest[w], rest[w + 1]) {
            Some(g) => seq![g],
            None => seq![],
        },
        parsed.len() >= window_regions(rest, w + 1).len() + 2,
        forall|i: int|
            0 <= i < 1 + window_regions(rest, w + 1).len() ==> #[trigger] parsed[i] == (seq![init]
                + window_regions(rest, w + 1))[i],
{
    lemma_window_grows(rest, w + 1, rest.len() - 1);
    let full = window_regions(rest, rest.len() - 1);
    let wb = window_regions(rest, w + 1);
    assert(seq![init] + window_regions(rest, w + 1) =~= seq![init] + window_regions(rest, w) + seq![
        region_of(rest[w]),
    ] + match gap_between(rest[w], rest[w + 1]) {
        Some(g) => seq![g],
        None => seq![],
    });
    assert forall|i: int| 0 <= i < 1 + wb.len() implies #[trigger] parsed[i] == (seq![init] + wb)[i] by {
        if i > 0 {
            assert(full.take(wb.len() as int)[i - 1] == full[i - 1]);
        }
    }
}

/// Before the last region, the map is the init area and the regions of the
/// pairs of neighbours.
proof fn lemma_parsed_prefix(raw: Seq<MemoryRegionExtended>, rest: Seq<MemoryRegionExtended>, init: MemoryRegion)
    requires
        rest.len() >= 1,
        parsed_regions(raw) == seq![init] + window_regions(rest, rest.len() - 1) + seq![region_of(rest.last())],
    ensures
        parsed_regions(raw).take((1 + window_regions(rest, rest.len() - 1).len()) as int) == seq![init] + window_regions(rest, rest.len() - 1),
        parsed_regions(raw).len() == 2 + window_regions(rest, rest.len() - 1).len(),
{
    assert(parsed_regions(raw).take((1 + window_regions(rest, rest.len() - 1).len()) as int) =~= seq![init] + window_regions(rest, rest.len() - 1));
}

} // verus!
