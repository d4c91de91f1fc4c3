//! Physical and virtual addresses of the x86-64 address space.
//!
//! Linear addresses are 48 bits wide; a canonical virtual address repeats
//! bit 47 in bits 48 to 63.
use vstd::prelude::*;

use vstd::arithmetic::power2::{lemma_pow2_pos, pow2};
use vstd::bits::low_bits_mask;

use crate::common::constants::{is_power_of_two, sub_one, Alignment, PHYSICAL_MEMORY_OFFSET};
use crate::common::enums::PageTableLevel;

verus! {

/// Addresses below this bound fit the 48 bits of the physical and linear
/// address space.
pub open spec fn address_space_bound() -> u64 {
    0x1_0000_0000_0000
}

/// `x` with bit 47 copied into bits 48 to 63.
pub open spec fn sign_extend_47(x: u64) -> u64 {
    if x & 0x8000_0000_0000 != 0 {
        x | 0xffff_0000_0000_0000
    } else {
        x
    }
}

/// A canonical address: bits 48 to 63 are copies of bit 47.
pub open spec fn is_canonical(x: u64) -> bool {
    sign_extend_47(x & 0xffff_ffff_ffff) == x
}

/// Whether `x` is aligned to the power of two `align`: its bits below
/// `align` are zero.
pub open spec fn aligned_to(x: u64, align: u64) -> bool {
    x & sub_one(align) == 0
}

/// For a power of two, alignment is divisibility.
pub proof fn lemma_aligned_to_is_divisible(x: u64, k: nat)
    requires
        k < 64,
    ensures
        aligned_to(x, pow2(k) as u64) <==> x % (pow2(k) as u64) == 0,
{
    vstd::bits::lemma_u64_low_bits_mask_is_mod(x, k);
    vstd::bits::lemma_u64_pow2_no_overflow(k);
    lemma_pow2_pos(k);
}

/// A physical address.
#[derive(Clone, Copy, Debug, PartialEq, Eq, Structural, PartialOrd, Ord)]
pub struct PhysicalAddress(u64);

/// A virtual address.
#[derive(Clone, Copy, Debug, PartialEq, Eq, Structural, PartialOrd, Ord)]
pub struct VirtualAddress(u64);

impl View for PhysicalAddress {
    type V = u64;

    closed spec fn view(&self) -> u64 {
        self.0
    }
}

impl View for VirtualAddress {
    type V = u64;

    closed spec fn view(&self) -> u64 {
        self.0
    }
}

impl From<u64> for PhysicalAddress {
    /// The physical address `value`, unchecked.
    fn from(value: u64) -> (r: PhysicalAddress) {
        PhysicalAddress(value)
    }
}

impl vstd::std_specs::convert::FromSpecImpl<u64> for PhysicalAddress {
    open spec fn obeys_from_spec() -> bool {
        true
    }

    closed spec fn from_spec(v: u64) -> PhysicalAddress {
        PhysicalAddress(v)
    }
}

impl From<PhysicalAddress> for u64 {
    /// The value of `value`.
    fn from(value: PhysicalAddress) -> (r: u64) {
        value.0
    }
}

impl vstd::std_specs::convert::FromSpecImpl<PhysicalAddress> for u64 {
    open spec fn obeys_from_spec() -> bool {
        true
    }

    closed spec fn from_spec(v: PhysicalAddress) -> u64 {
        v.0
    }
}

impl From<u64> for VirtualAddress {
    /// The virtual address `value`, unchecked.
    fn from(value: u64) -> (r: VirtualAddress) {
        VirtualAddress(value)
    }
}

impl vstd::std_specs::convert::FromSpecImpl<u64> for VirtualAddress {
    open spec fn obeys_from_spec() -> bool {
        true
    }

    closed spec fn from_spec(v: u64) -> VirtualAddress {
        VirtualAddress(v)
    }
}

/// Converting to an address and back gives the value back.
pub proof fn lemma_from_round_trip(v: u64)
    ensures
        <PhysicalAddress as vstd::std_specs::convert::FromSpec<u64>>::from_spec(v)@ == v,
        <u64 as vstd::std_specs::convert::FromSpec<PhysicalAddress>>::from_spec(
            <PhysicalAddress as vstd::std_specs::convert::FromSpec<u64>>::from_spec(v),
        ) == v,
        <VirtualAddress as vstd::std_specs::convert::FromSpec<u64>>::from_spec(v)@ == v,
{
}

impl PhysicalAddress {
    /// The address `address`, with no check of its range.
    pub fn new_unchecked(address: u64) -> (r: PhysicalAddress)
        ensures
            r@ == address,
    {
        PhysicalAddress(address)
    }

    /// The address `address` when it lies in the 48-bit physical address
    /// space, else `None`.
    pub fn new(address: u64) -> (r: Option<PhysicalAddress>)
        ensures
            r is Some <==> address < address_space_bound(),
            r matches Some(a) ==> a@ == address,
    {
        if address < 0x1_0000_0000_0000 {
            Some(PhysicalAddress(address))
        } else {
            None
        }
    }

    /// The address as a number.
    pub fn as_u64(&self) -> (r: u64)
        ensures
            r == self@,
    {
        self.0
    }

    /// Whether the address is a multiple of `alignment`.
    pub fn is_aligned(&self, alignment: Alignment) -> (r: bool)
        ensures
            r == aligned_to(self@, alignment.spec_as_u64()),
    {
        let a = alignment.as_u64();
        self.0 & (a - 1) == 0
    }

    /// The smallest multiple of `alignment` that is not below the address.
    pub fn align_up(self, alignment: Alignment) -> (r: PhysicalAddress)
        requires
            self@ + alignment.spec_as_u64() - 1 <= u64::MAX,
        ensures
            aligned_to(r@, alignment.spec_as_u64()),
            self@ <= r@ < self@ + alignment.spec_as_u64(),
    {
        PhysicalAddress(align_up_u64(self.0, alignment))
    }

    /// The largest multiple of `alignment` that is not above the address.
    pub fn align_down(self, alignment: Alignment) -> (r: PhysicalAddress)
        ensures
            aligned_to(r@, alignment.spec_as_u64()),
            r@ <= self@ < r@ + alignment.spec_as_u64(),
    {
        PhysicalAddress(align_down_u64(self.0, alignment))
    }

    /// The largest power of two that divides the address; for address zero,
    /// `2^63`.
    pub fn alignment(&self) -> (r: Alignment)
        ensures
            aligned_to(self@, r.spec_as_u64()),
            self@ != 0 ==> !aligned_to(self@, (2 * r.spec_as_u64()) as u64) || r.spec_as_u64()
                == 0x8000_0000_0000_0000u64,
            self@ == 0 ==> r.spec_as_u64() == 0x8000_0000_0000_0000u64,
    {
        largest_alignment(self.0)
    }

    /// The virtual address at which the kernel sees this physical address.
    pub fn translate(&self) -> (r: VirtualAddress)
        requires
            self@ + PHYSICAL_MEMORY_OFFSET <= u64::MAX,
        ensures
            r@ == self@ + PHYSICAL_MEMORY_OFFSET,
    {
        VirtualAddress(self.0 + PHYSICAL_MEMORY_OFFSET)
    }
}

impl VirtualAddress {
    /// The address `address`, with no check that it is canonical.
    pub fn new_unchecked(address: u64) -> (r: VirtualAddress)
        ensures
            r@ == address,
    {
        VirtualAddress(address)
    }

    /// The canonical address of the 48-bit linear address `address`: bit 47
    /// copied into bits 48 to 63. `None` when `address` does not fit 48 bits.
    pub fn new(address: u64) -> (r: Option<VirtualAddress>)
        ensures
            r is Some <==> address < address_space_bound(),
            r matches Some(a) ==> a@ == sign_extend_47(address) && is_canonical(a@),
    {
        if address < 0x1_0000_0000_0000 {
            let r = if address & 0x8000_0000_0000 != 0 {
                address | 0xffff_0000_0000_0000
            } else {
                address
            };
            proof {
                lemma_address_bits(address, 1, 0, 0, 0, 0, 0, 0);
            }
            Some(VirtualAddress(r))
        } else {
            None
        }
    }

    /// The address zero.
    pub fn null() -> (r: VirtualAddress)
        ensures
            r@ == 0,
    {
        VirtualAddress(0)
    }

    /// The address as a number.
    pub fn as_u64(&self) -> (r: u64)
        ensures
            r == self@,
    {
        self.0
    }

    /// Whether the address is a multiple of `alignment`.
    pub fn is_aligned(&self, alignment: Alignment) -> (r: bool)
        ensures
            r == aligned_to(self@, alignment.spec_as_u64()),
    {
        let a = alignment.as_u64();
        self.0 & (a - 1) == 0
    }

    /// The smallest multiple of `alignment` that is not below the address.
    pub fn align_up(self, alignment: Alignment) -> (r: VirtualAddress)
        requires
            self@ + alignment.spec_as_u64() - 1 <= u64::MAX,
        ensures
            aligned_to(r@, alignment.spec_as_u64()),
            self@ <= r@ < self@ + alignment.spec_as_u64(),
    {
        VirtualAddress(align_up_u64(self.0, alignment))
    }

    /// The largest multiple of `alignment` that is not above the address.
    pub fn align_down(self, alignment: Alignment) -> (r: VirtualAddress)
        ensures
            aligned_to(r@, alignment.spec_as_u64()),
            r@ <= self@ < r@ + alignment.spec_as_u64(),
    {
        VirtualAddress(align_down_u64(self.0, alignment))
    }

    /// The largest power of two that divides the address; for address zero,
    /// `2^63`.
    pub fn alignment(&self) -> (r: Alignment)
        ensures
            aligned_to(self@, r.spec_as_u64()),
            self@ != 0 ==> !aligned_to(self@, (2 * r.spec_as_u64()) as u64) || r.spec_as_u64()
                == 0x8000_0000_0000_0000u64,
            self@ == 0 ==> r.spec_as_u64() == 0x8000_0000_0000_0000u64,
    {
        largest_alignment(self.0)
    }
}

/// Rounds `x` up to a multiple of `alignment`.
fn align_up_u64(x: u64, alignment: Alignment) -> (r: u64)
    requires
        x + alignment.spec_as_u64() - 1 <= u64::MAX,
    ensures
        aligned_to(r, alignment.spec_as_u64()),
        x <= r < x + alignment.spec_as_u64(),
{
    let a = alignment.as_u64();
    let y = x + (a - 1);
    let r = y & !(a - 1);
    proof {
        lemma_address_bits(x, a, 0, 0, 0, 0, 0, 0);
    }
    r
}

/// Rounds `x` down to a multiple of `alignment`.
fn align_down_u64(x: u64, alignment: Alignment) -> (r: u64)
    ensures
        aligned_to(r, alignment.spec_as_u64()),
        r <= x < r + alignment.spec_as_u64(),
{
    let a = alignment.as_u64();
    let r = x & !(a - 1);
    proof {
        lemma_address_bits(x, a, 0, 0, 0, 0, 0, 0);
    }
    r
}

/// The largest power of two dividing `x`, or `2^63` for zero.
fn largest_alignment(x: u64) -> (r: Alignment)
    ensures
        aligned_to(x, r.spec_as_u64()),
        x != 0 ==> !aligned_to(x, (2 * r.spec_as_u64()) as u64) || r.spec_as_u64()
            == 0x8000_0000_0000_0000u64,
        x == 0 ==> r.spec_as_u64() == 0x8000_0000_0000_0000u64,
{
    if x == 0 {
        let r = Alignment::new(0x8000_0000_0000_0000);
        proof {
            lemma_address_bits(0, 1, 0, 0, 0, 0, 0, 0);
        }
        r.unwrap()
    } else {
        // The lowest set bit of `x`.
        proof {
            lemma_address_bits(x, 1, 0, 0, 0, 0, 0, 0);
        }
        let p = x & ((!x) + 1);
        Alignment::new(p).unwrap()
    }
}

/// The index into the table of the given level (0 for the top level, 3 for
/// the lowest) that the virtual address `va` selects.
pub open spec fn table_index(va: u64, level: usize) -> u64 {
    (va >> ((39 - 9 * level) as u64)) & 0o777
}

/// The virtual address made of the four table indices, top level first.
pub open spec fn address_from_indexes(i4: usize, i3: usize, i2: usize, i1: usize) -> u64 {
    ((i4 as u64) << 39u64) | ((i3 as u64) << 30u64) | ((i2 as u64) << 21u64) | ((i1 as u64)
        << 12u64)
}

impl VirtualAddress {
    /// The address made of the four table indices, top level first, with a
    /// zero offset in the page.
    pub fn from_indexes(i4: usize, i3: usize, i2: usize, i1: usize) -> (r: VirtualAddress)
        ensures
            r@ == address_from_indexes(i4, i3, i2, i1),
    {
        VirtualAddress(((i4 as u64) << 39) | ((i3 as u64) << 30) | ((i2 as u64) << 21) | ((i1
            as u64) << 12))
    }

    /// The address made of the four table indices, top level first.
    pub fn from_indices(indices: [usize; 4]) -> (r: VirtualAddress)
        ensures
            r@ == address_from_indexes(indices[0], indices[1], indices[2], indices[3]),
    {
        VirtualAddress::from_indexes(indices[0], indices[1], indices[2], indices[3])
    }

    /// The index into the table of `level` that this address selects.
    pub fn index_of(&self, level: PageTableLevel) -> (r: usize)
        ensures
            r == table_index(self@, level.spec_as_usize()),
            r < 512,
    {
        let shift = 39 - 9 * (level.as_usize() as u64);
        let v = self.0;
        let i = (v >> shift) & 0o777;
        proof {
            lemma_address_bits(0, 1, v, shift, 0, 0, 0, 0);
        }
        i as usize
    }

    /// The index into the `n`th table of the walk: 0 for the top level table
    /// and 3 for the lowest.
    pub fn rev_nth_index_unchecked(&self, n: usize) -> (r: usize)
        requires
            n <= 4,
        ensures
            r == table_index(self@, n),
            r < 512,
    {
        let shift = 39 - 9 * (n as u64);
        let v = self.0;
        let i = (v >> shift) & 0o777;
        proof {
            lemma_address_bits(0, 1, v, shift, 0, 0, 0, 0);
        }
        i as usize
    }

    /// The index into the `n`th table counted from the bottom: 4 for the top
    /// level table and 1 for the lowest.
    pub fn nth_pt_index_unchecked(&self, n: usize) -> (r: usize)
        requires
            n <= 4,
        ensures
            r == table_index(self@, (4 - n) as usize),
            r < 512,
    {
        let shift = 39 - 9 * (4 - (n as u64));
        let v = self.0;
        let i = (v >> shift) & 0o777;
        proof {
            lemma_address_bits(0, 1, v, shift, 0, 0, 0, 0);
        }
        i as usize
    }
}

/// The table indices of an address built from four indices are those
/// indices, and its offset in the page is zero.
pub proof fn lemma_index_of_from_indexes(i4: usize, i3: usize, i2: usize, i1: usize)
    requires
        i4 < 512,
        i3 < 512,
        i2 < 512,
        i1 < 512,
    ensures
        table_index(address_from_indexes(i4, i3, i2, i1), 0) == i4,
        table_index(address_from_indexes(i4, i3, i2, i1), 1) == i3,
        table_index(address_from_indexes(i4, i3, i2, i1), 2) == i2,
        table_index(address_from_indexes(i4, i3, i2, i1), 3) == i1,
        address_from_indexes(i4, i3, i2, i1) & 0xfff == 0,
{
    lemma_address_bits(0, 1, 0, 0, i4 as u64, i3 as u64, i2 as u64, i1 as u64);
}

/// The bit arithmetic of addresses: sign extension, rounding to a power of
/// two, the lowest set bit, table indices.
proof fn lemma_address_bits(
    x: u64,
    a: u64,
    v: u64,
    shift: u64,
    i4: u64,
    i3: u64,
    i2: u64,
    i1: u64,
)
    by (bit_vector)
    ensures
        x < 0x1_0000_0000_0000u64 ==> sign_extend_47(sign_extend_47(x) & 0xffff_ffff_ffff)
            == sign_extend_47(x),
        is_power_of_two(a) && x + a - 1 <= u64::MAX ==> aligned_to(
            ((x + (a - 1)) as u64) & !((a - 1) as u64),
            a,
        ) && x <= ((x + (a - 1)) as u64) & !((a - 1) as u64) && ((x + (a - 1)) as u64) & !((a
            - 1) as u64) < x + a,
        is_power_of_two(a) ==> aligned_to(x & !((a - 1) as u64), a) && x & !((a - 1) as u64) <= x
            && x < (x & !((a - 1) as u64)) + a,
        is_power_of_two(0x8000_0000_0000_0000u64) && aligned_to(0, 0x8000_0000_0000_0000u64),
        x != 0 ==> !x < 0xffff_ffff_ffff_ffffu64,
        x != 0 ==> is_power_of_two(x & (((!x) + 1) as u64)) && aligned_to(
            x,
            x & (((!x) + 1) as u64),
        ) && (x & (((!x) + 1) as u64) != 0x8000_0000_0000_0000u64 ==> !aligned_to(
            x,
            (2 * (x & (((!x) + 1) as u64))) as u64,
        )),
        ((v >> shift) & 0o777) < 512,
        i4 < 512 && i3 < 512 && i2 < 512 && i1 < 512 ==> ((((i4 << 39u64) | (i3 << 30u64) | (i2
            << 21u64) | (i1 << 12u64)) >> 39u64) & 0o777 == i4) && ((((i4 << 39u64) | (i3 << 30u64)
            | (i2 << 21u64) | (i1 << 12u64)) >> 30u64) & 0o777 == i3) && ((((i4 << 39u64) | (i3
            << 30u64) | (i2 << 21u64) | (i1 << 12u64)) >> 21u64) & 0o777 == i2) && ((((i4 << 39u64)
            | (i3 << 30u64) | (i2 << 21u64) | (i1 << 12u64)) >> 12u64) & 0o777 == i1) && (((i4
            << 39u64) | (i3 << 30u64) | (i2 << 21u64) | (i1 << 12u64)) & 0xfff == 0),
{
}

} // verus!
