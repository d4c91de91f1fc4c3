//! Sizes and alignments of the x86-64 paging structures.
use vstd::prelude::*;

verus! {

/// Number of entries in a page table of any level.
pub const PAGE_DIRECTORY_ENTRIES: usize = 512;

/// Size of a regular (4 KiB) page.
pub const REGULAR_PAGE_SIZE: usize = 4096;

/// Size of a big (2 MiB) page.
pub const BIG_PAGE_SIZE: usize = REGULAR_PAGE_SIZE * PAGE_DIRECTORY_ENTRIES;

/// Size of a huge (1 GiB) page.
pub const HUGE_PAGE_SIZE: usize = BIG_PAGE_SIZE * PAGE_DIRECTORY_ENTRIES;

/// One kibibyte.
#[allow(non_upper_case_globals)]
pub const KiB: usize = 1024;

/// One mebibyte.
#[allow(non_upper_case_globals)]
pub const MiB: usize = 1024 * 1024;

/// The signature of the BIOS memory map call: the bytes `'P', 'A', 'M', 'S'`
/// read as a little-endian `u32` ("SMAP").
pub const MEMORY_MAP_MAGIC_NUMBER: u32 = 0x534d_4150;

/// The virtual address at which the kernel sees physical address zero: the
/// start of the region mapped by entry 256 of the top level table, sign
/// extended.
pub const PHYSICAL_MEMORY_OFFSET: u64 = 0xffff_8000_0000_0000;

/// The size of the area at the start of the first usable region of memory
/// that the kernel's init takes: one MiB.
pub const INIT_AREA_SIZE_BYTES: u64 = 0x10_0000;

/// A power of two.
pub open spec fn is_power_of_two(x: u64) -> bool {
    x != 0 && x & sub_one(x) == 0
}

/// `x - 1`, for `x` that is not zero.
pub open spec fn sub_one(x: u64) -> u64 {
    (x - 1) as u64
}

/// The sizes of the pages are powers of two, and so is one.
pub proof fn lemma_page_sizes_are_powers()
    by (bit_vector)
    ensures
        4096u64 & sub_one(4096u64) == 0,
        0x20_0000u64 & sub_one(0x20_0000u64) == 0,
        0x4000_0000u64 & sub_one(0x4000_0000u64) == 0,
        1u64 & sub_one(1u64) == 0,
{
}

/// The alignment of a memory block: a power of two.
#[derive(Clone, Copy, Debug, PartialEq, Eq, Structural)]
pub struct Alignment {
    value: u64,
}

impl Alignment {
    #[verifier::type_invariant]
    spec fn wf(self) -> bool {
        is_power_of_two(self.value)
    }

    /// The alignment in bytes.
    pub closed spec fn spec_as_u64(self) -> u64 {
        self.value
    }

    /// The alignment of `align` bytes, when `align` is a power of two.
    pub fn new(align: u64) -> (r: Option<Alignment>)
        ensures
            r matches Some(a) ==> a.spec_as_u64() == align,
            r is Some <==> is_power_of_two(align),
    {
        if align != 0 && align & (align - 1) == 0 {
            Some(Alignment { value: align })
        } else {
            None
        }
    }

    /// The alignment in bytes.
    #[verifier::when_used_as_spec(spec_as_u64)]
    pub fn as_u64(self) -> (r: u64)
        ensures
            r == self.spec_as_u64(),
            is_power_of_two(r),
    {
        proof {
            use_type_invariant(self);
        }
        self.value
    }

    /// The alignment of a regular page.
    pub fn regular_page() -> (r: Alignment)
        ensures
            r.spec_as_u64() == REGULAR_PAGE_SIZE as u64,
    {
        proof {
            lemma_page_sizes_are_powers();
        }
        Alignment { value: 4096 }
    }

    /// The alignment of a big page.
    pub fn big_page() -> (r: Alignment)
        ensures
            r.spec_as_u64() == BIG_PAGE_SIZE as u64,
    {
        proof {
            lemma_page_sizes_are_powers();
        }
        Alignment { value: 0x20_0000 }
    }

    /// The alignment of a huge page.
    pub fn huge_page() -> (r: Alignment)
        ensures
            r.spec_as_u64() == HUGE_PAGE_SIZE as u64,
    {
        proof {
            lemma_page_sizes_are_powers();
        }
        Alignment { value: 0x4000_0000 }
    }
}

/// The size and alignment of a memory block.
#[derive(Clone, Copy, Debug, PartialEq, Eq, Structural)]
pub struct Layout {
    size: usize,
    align: Alignment,
}

impl Layout {
    /// The size in bytes.
    pub closed spec fn spec_size(&self) -> usize {
        self.size
    }

    /// The alignment.
    pub closed spec fn spec_align(self) -> Alignment {
        self.align
    }

    /// A layout of `size` bytes aligned to `align`.
    pub fn from_size_alignment(size: usize, align: Alignment) -> (r: Layout)
        ensures
            r.spec_size() == size,
            r.spec_align() == align,
    {
        Layout { size, align }
    }

    /// The size in bytes.
    #[verifier::when_used_as_spec(spec_size)]
    pub fn size(&self) -> (r: usize)
        ensures
            r == self.spec_size(),
    {
        self.size
    }

    /// The alignment in bytes.
    pub fn align(&self) -> (r: u64)
        ensures
            r == self.spec_align().spec_as_u64(),
    {
        self.align.as_u64()
    }
}

} // verus!
