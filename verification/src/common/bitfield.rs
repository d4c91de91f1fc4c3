//! Bit-field primitives shared by every register and descriptor layout of
//! the kernel.
//!
//! A field is described by its lowest bit `lo` and its width `w`. Values
//! are handled as `u64`; narrower registers widen to `u64`, use these
//! primitives and narrow back.
use vstd::prelude::*;

verus! {

/// The mask of the `w` lowest bits.
pub open spec fn low_mask(w: u64) -> u64 {
    ((1u64 << w) - 1u64) as u64
}

/// The value of the `w`-bit field of `x` that starts at bit `lo`.
pub open spec fn field_of(x: u64, lo: u64, w: u64) -> u64 {
    (x >> lo) & low_mask(w)
}

/// `x` with its `w`-bit field at `lo` replaced by `v`.
pub open spec fn with_field(x: u64, lo: u64, w: u64, v: u64) -> u64 {
    (x & !(low_mask(w) << lo)) | (v << lo)
}

/// A field position that fits a 64-bit word.
pub open spec fn valid_field(lo: u64, w: u64) -> bool {
    0 < w < 64 && lo + w <= 64
}

/// Two fields that share no bit.
pub open spec fn disjoint_fields(lo1: u64, w1: u64, lo2: u64, w2: u64) -> bool {
    lo1 + w1 <= lo2 || lo2 + w2 <= lo1
}

proof fn lemma_get_with_same_bv(x: u64, lo: u64, w: u64, v: u64)
    by (bit_vector)
    requires
        0 < w < 64,
        lo + w <= 64,
        v < (1u64 << w),
    ensures
        ((((x & !((((1u64 << w) - 1u64) as u64) << lo)) | (v << lo)) >> lo) & (((1u64 << w)
            - 1u64) as u64)) == v,
{
}

proof fn lemma_get_with_other_bv(x: u64, lo: u64, w: u64, v: u64, lo2: u64, w2: u64)
    by (bit_vector)
    requires
        0 < w < 64,
        lo + w <= 64,
        0 < w2 < 64,
        lo2 + w2 <= 64,
        v < (1u64 << w),
        lo + w <= lo2 || lo2 + w2 <= lo,
    ensures
        ((((x & !((((1u64 << w) - 1u64) as u64) << lo)) | (v << lo)) >> lo2) & (((1u64 << w2)
            - 1u64) as u64)) == ((x >> lo2) & (((1u64 << w2) - 1u64) as u64)),
{
}

/// Writing a field and reading it back gives the written value, and leaves
/// every field that shares no bit with it as it was.
pub proof fn lemma_with_field(x: u64, lo: u64, w: u64, v: u64)
    requires
        valid_field(lo, w),
        v <= low_mask(w),
    ensures
        field_of(with_field(x, lo, w, v), lo, w) == v,
        forall|lo2: u64, w2: u64|
            valid_field(lo2, w2) && disjoint_fields(lo, w, lo2, w2) ==> #[trigger] field_of(
                with_field(x, lo, w, v),
                lo2,
                w2,
            ) == field_of(x, lo2, w2),
{
    lemma_low_mask_bound(w);
    lemma_get_with_same_bv(x, lo, w, v);
    assert forall|lo2: u64, w2: u64|
        valid_field(lo2, w2) && disjoint_fields(lo, w, lo2, w2) implies #[trigger] field_of(
        with_field(x, lo, w, v),
        lo2,
        w2,
    ) == field_of(x, lo2, w2) by {
        lemma_get_with_other_bv(x, lo, w, v, lo2, w2);
    }
}

proof fn lemma_low_mask_bound(w: u64)
    by (bit_vector)
    requires
        0 < w < 64,
    ensures
        (((1u64 << w) - 1u64) as u64) < (1u64 << w),
        (((1u64 << w) - 1u64) as u64) + 1 == (1u64 << w),
{
}


/// `x` with the bits of `v` set in the `w`-bit field at `lo`, the other bits
/// of that field kept: what a builder does to a zero-initialised register.
pub open spec fn or_field(x: u64, lo: u64, v: u64) -> u64 {
    x | (v << lo)
}

/// Setting the bits of a field that is zero is writing the field.
pub proof fn lemma_or_field_on_zero(x: u64, lo: u64, w: u64, v: u64)
    by (bit_vector)
    requires
        0 < w < 64,
        lo + w <= 64,
        v <= (((1u64 << w) - 1u64) as u64),
        ((x >> lo) & (((1u64 << w) - 1u64) as u64)) == 0,
    ensures
        (x | (v << lo)) == ((x & !((((1u64 << w) - 1u64) as u64) << lo)) | (v << lo)),
{
}

/// The masks of every field width, and the sizes of the narrow registers.
pub proof fn lemma_masks()
    by (bit_vector)
    ensures
        low_mask(1) == 1u64,
        low_mask(2) == 3u64,
        low_mask(3) == 7u64,
        low_mask(4) == 15u64,
        low_mask(5) == 31u64,
        low_mask(6) == 63u64,
        low_mask(7) == 127u64,
        low_mask(8) == 255u64,
        low_mask(9) == 511u64,
        low_mask(10) == 1023u64,
        low_mask(11) == 2047u64,
        low_mask(12) == 4095u64,
        low_mask(13) == 8191u64,
        low_mask(14) == 16383u64,
        low_mask(15) == 32767u64,
        low_mask(16) == 65535u64,
        low_mask(17) == 131071u64,
        low_mask(18) == 262143u64,
        low_mask(19) == 524287u64,
        low_mask(20) == 1048575u64,
        low_mask(21) == 2097151u64,
        low_mask(22) == 4194303u64,
        low_mask(23) == 8388607u64,
        low_mask(24) == 16777215u64,
        low_mask(25) == 33554431u64,
        low_mask(26) == 67108863u64,
        low_mask(27) == 134217727u64,
        low_mask(28) == 268435455u64,
        low_mask(29) == 536870911u64,
        low_mask(30) == 1073741823u64,
        low_mask(31) == 2147483647u64,
        low_mask(32) == 4294967295u64,
        low_mask(33) == 8589934591u64,
        low_mask(34) == 17179869183u64,
        low_mask(35) == 34359738367u64,
        low_mask(36) == 68719476735u64,
        low_mask(37) == 137438953471u64,
        low_mask(38) == 274877906943u64,
        low_mask(39) == 549755813887u64,
        low_mask(40) == 1099511627775u64,
        low_mask(41) == 2199023255551u64,
        low_mask(42) == 4398046511103u64,
        low_mask(43) == 8796093022207u64,
        low_mask(44) == 17592186044415u64,
        low_mask(45) == 35184372088831u64,
        low_mask(46) == 70368744177663u64,
        low_mask(47) == 140737488355327u64,
        low_mask(48) == 281474976710655u64,
        low_mask(49) == 562949953421311u64,
        low_mask(50) == 1125899906842623u64,
        low_mask(51) == 2251799813685247u64,
        low_mask(52) == 4503599627370495u64,
        low_mask(53) == 9007199254740991u64,
        low_mask(54) == 18014398509481983u64,
        low_mask(55) == 36028797018963967u64,
        low_mask(56) == 72057594037927935u64,
        low_mask(57) == 144115188075855871u64,
        low_mask(58) == 288230376151711743u64,
        low_mask(59) == 576460752303423487u64,
        low_mask(60) == 1152921504606846975u64,
        low_mask(61) == 2305843009213693951u64,
        low_mask(62) == 4611686018427387903u64,
        low_mask(63) == 9223372036854775807u64,
        (1u64 << 8u64) == 256u64,
        (1u64 << 12u64) == 4096u64,
        (1u64 << 16u64) == 65536u64,
        (1u64 << 32u64) == 0x1_0000_0000u64,
{
}

/// What reading a field relies on: the mask is not zero and bounds the
/// field.
proof fn lemma_read_field_bv(x: u64, lo: u64, w: u64)
    by (bit_vector)
    requires
        w < 64,
    ensures
        (1u64 << w) >= 1,
        ((x >> lo) & (((1u64 << w) - 1u64) as u64)) <= (((1u64 << w) - 1u64) as u64),
{
}

/// Reads the `w`-bit field of `x` that starts at bit `lo`.
pub fn read_field(x: u64, lo: u64, w: u64) -> (r: u64)
    requires
        valid_field(lo, w),
    ensures
        r == field_of(x, lo, w),
        r <= low_mask(w),
{
    proof {
        lemma_read_field_bv(x, lo, w);
    }
    (x >> lo) & ((1u64 << w) - 1)
}

/// Replaces the `w`-bit field of `x` that starts at bit `lo` by `v`.
pub fn write_field(x: u64, lo: u64, w: u64, v: u64) -> (r: u64)
    requires
        valid_field(lo, w),
        v <= low_mask(w),
    ensures
        r == with_field(x, lo, w, v),
        field_of(r, lo, w) == v,
{
    proof {
        lemma_with_field(x, lo, w, v);
        lemma_read_field_bv(x, lo, w);
    }
    (x & !(((1u64 << w) - 1) << lo)) | (v << lo)
}

/// Sets the bits of `v` in the field that starts at bit `lo`.
pub fn set_field_bits(x: u64, lo: u64, v: u64) -> (r: u64)
    requires
        lo < 64,
    ensures
        r == or_field(x, lo, v),
{
    x | (v << lo)
}

/// A field write on a value of `n` bits stays within `n` bits.
pub proof fn lemma_with_field_fits(x: u64, lo: u64, w: u64, v: u64, n: u64)
    by (bit_vector)
    requires
        0 < w < 64,
        lo + w <= n,
        n < 64,
        x < (1u64 << n),
        v <= (((1u64 << w) - 1u64) as u64),
    ensures
        ((x & !((((1u64 << w) - 1u64) as u64) << lo)) | (v << lo)) < (1u64 << n),
        (x | (v << lo)) < (1u64 << n),
{
}

/// A field read of a value of `n` bits: reading above bit `n` gives zero.
pub proof fn lemma_field_of_narrow(x: u64, lo: u64, w: u64, n: u64)
    by (bit_vector)
    requires
        0 < w < 64,
        lo + w <= 64,
        n <= lo,
        n < 64,
        x < (1u64 << n),
    ensures
        ((x >> lo) & (((1u64 << w) - 1u64) as u64)) == 0,
{
}


/// Replaces a field of a 8-bit register value.
pub fn write_field_u8(x: u8, lo: u64, w: u64, v: u64) -> (r: u8)
    requires
        valid_field(lo, w),
        v <= low_mask(w),
        lo + w <= 8,
    ensures
        r as u64 == with_field(x as u64, lo, w, v),
        field_of(r as u64, lo, w) == v,
{
    proof {
        lemma_masks();
        lemma_with_field_fits(x as u64, lo, w, v, 8);
    }
    let r = write_field(x as u64, lo, w, v);
    r as u8
}

/// Sets the bits of `v` in a field of a 8-bit register value.
pub fn set_field_bits_u8(x: u8, lo: u64, w: u64, v: u64) -> (r: u8)
    requires
        valid_field(lo, w),
        v <= low_mask(w),
        lo + w <= 8,
    ensures
        r as u64 == or_field(x as u64, lo, v),
{
    proof {
        lemma_masks();
        lemma_with_field_fits(x as u64, lo, w, v, 8);
    }
    let r = set_field_bits(x as u64, lo, v);
    r as u8
}

/// Replaces a field of a 16-bit register value.
pub fn write_field_u16(x: u16, lo: u64, w: u64, v: u64) -> (r: u16)
    requires
        valid_field(lo, w),
        v <= low_mask(w),
        lo + w <= 16,
    ensures
        r as u64 == with_field(x as u64, lo, w, v),
        field_of(r as u64, lo, w) == v,
{
    proof {
        lemma_masks();
        lemma_with_field_fits(x as u64, lo, w, v, 16);
    }
    let r = write_field(x as u64, lo, w, v);
    r as u16
}

/// Sets the bits of `v` in a field of a 16-bit register value.
pub fn set_field_bits_u16(x: u16, lo: u64, w: u64, v: u64) -> (r: u16)
    requires
        valid_field(lo, w),
        v <= low_mask(w),
        lo + w <= 16,
    ensures
        r as u64 == or_field(x as u64, lo, v),
{
    proof {
        lemma_masks();
        lemma_with_field_fits(x as u64, lo, w, v, 16);
    }
    let r = set_field_bits(x as u64, lo, v);
    r as u16
}

/// Replaces a field of a 32-bit register value.
pub fn write_field_u32(x: u32, lo: u64, w: u64, v: u64) -> (r: u32)
    requires
        valid_field(lo, w),
        v <= low_mask(w),
        lo + w <= 32,
    ensures
        r as u64 == with_field(x as u64, lo, w, v),
        field_of(r as u64, lo, w) == v,
{
    proof {
        lemma_masks();
        lemma_with_field_fits(x as u64, lo, w, v, 32);
    }
    let r = write_field(x as u64, lo, w, v);
    r as u32
}

/// Sets the bits of `v` in a field of a 32-bit register value.
pub fn set_field_bits_u32(x: u32, lo: u64, w: u64, v: u64) -> (r: u32)
    requires
        valid_field(lo, w),
        v <= low_mask(w),
        lo + w <= 32,
    ensures
        r as u64 == or_field(x as u64, lo, v),
{
    proof {
        lemma_masks();
        lemma_with_field_fits(x as u64, lo, w, v, 32);
    }
    let r = set_field_bits(x as u64, lo, v);
    r as u32
}

} // verus!
