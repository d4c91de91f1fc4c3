//! What the `cpuid` instruction reports: the vendor string and the feature
//! bits.
use vstd::prelude::*;

verus! {

/// The registers `cpuid` fills.
#[derive(Clone, Copy, Debug)]
pub struct CpuidResult {
    /// EAX register.
    pub eax: u32,
    /// EBX register.
    pub ebx: u32,
    /// ECX register.
    pub ecx: u32,
    /// EDX register.
    pub edx: u32,
}

/// Byte `i` of `x`, least significant first.
pub open spec fn le_byte(x: u32, i: int) -> u8 {
    ((x >> (8 * i) as u32) & 0xff) as u8
}

/// The vendor string the processor reports: the bytes of EBX, then of EDX,
/// then of ECX, each least significant first.
pub fn get_vendor_string(result: &CpuidResult) -> (r: [u8; 12])
    ensures
        forall|i: int| 0 <= i < 4 ==> #[trigger] r@[i] == le_byte(result.ebx, i),
        forall|i: int| 0 <= i < 4 ==> #[trigger] r@[4 + i] == le_byte(result.edx, i),
        forall|i: int| 0 <= i < 4 ==> #[trigger] r@[8 + i] == le_byte(result.ecx, i),
{
    let mut vendor_string = [0u8; 12];
    let regs = [result.ebx, result.edx, result.ecx];
    let mut k: usize = 0;
    while k < 3
        invariant
            k <= 3,
            regs@ == seq![result.ebx, result.edx, result.ecx],
            forall|j: int, i: int|
                0 <= j < k && 0 <= i < 4 ==> #[trigger] vendor_string@[4 * j + i] == le_byte(
                    regs@[j],
                    i,
                ),
        decreases 3 - k,
    {
        let x = regs[k];
        let mut i: usize = 0;
        while i < 4
            invariant
                k < 3,
                i <= 4,
                x == regs@[k as int],
                regs@ == seq![result.ebx, result.edx, result.ecx],
                forall|j: int, b: int|
                    0 <= j < k && 0 <= b < 4 ==> #[trigger] vendor_string@[4 * j + b] == le_byte(
                        regs@[j],
                        b,
                    ),
                forall|b: int| 0 <= b < i ==> #[trigger] vendor_string@[4 * k + b] == le_byte(x, b),
            decreases 4 - i,
        {
            vendor_string[4 * k + i] = ((x >> (8 * i as u32)) & 0xff) as u8;
            i = i + 1;
        }
        k = k + 1;
    }
    assert forall|i: int| 0 <= i < 4 implies #[trigger] vendor_string@[4 + i] == le_byte(
        result.edx,
        i,
    ) by {
        assert(vendor_string@[4 * 1 + i] == le_byte(regs@[1], i));
    }
    assert forall|i: int| 0 <= i < 4 implies #[trigger] vendor_string@[8 + i] == le_byte(
        result.ecx,
        i,
    ) by {
        assert(vendor_string@[4 * 2 + i] == le_byte(regs@[2], i));
    }
    assert forall|i: int| 0 <= i < 4 implies #[trigger] vendor_string@[i] == le_byte(
        result.ebx,
        i,
    ) by {
        assert(vendor_string@[4 * 0 + i] == le_byte(regs@[0], i));
    }
    vendor_string
}

/// The feature bits `cpuid` reports: ECX in bits 0 to 31, EDX in bits 32 to
/// 63.
#[derive(Clone, Copy, Debug)]
pub struct CpuFeatures(pub u64);

/// The bit of EDX that reports a local APIC.
pub const APIC_EDX_BIT: u64 = 9;

impl CpuFeatures {
    /// The features that the result of the feature query reports.
    pub fn from_result(features: &CpuidResult) -> (r: CpuFeatures)
        ensures
            r.0 == ((features.edx as u64) << 32u64) | (features.ecx as u64),
    {
        CpuFeatures(((features.edx as u64) << 32) | (features.ecx as u64))
    }

    /// Whether the processor has a local APIC: bit 9 of EDX.
    pub fn has_apic(&self) -> (r: bool)
        ensures
            r == (self.0 & (1u64 << (32 + APIC_EDX_BIT)) != 0),
    {
        self.0 & (1u64 << (32 + APIC_EDX_BIT)) != 0
    }
}

} // verus!
