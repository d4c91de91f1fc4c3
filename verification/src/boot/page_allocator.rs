//! The page allocator of the boot stages: a bitmap with one bit per regular
//! page, in 64-bit words.
use vstd::prelude::*;

use crate::common::constants::{
    is_power_of_two, Layout, BIG_PAGE_SIZE, HUGE_PAGE_SIZE, REGULAR_PAGE_SIZE,
};

verus! {

broadcast use vstd::std_specs::bits::axiom_u64_trailing_ones;

/// Whether bit `b` of `w` is set.
pub open spec fn word_bit(w: u64, b: u64) -> bool {
    (w >> b) & 1u64 == 1u64
}

/// The number of bits of `w` below `n` that are clear.
pub open spec fn zero_bits_below(w: u64, n: nat) -> nat
    decreases n,
{
    if n == 0 {
        0
    } else {
        zero_bits_below(w, (n - 1) as nat) + if word_bit(w, (n - 1) as u64) {
            0nat
        } else {
            1nat
        }
    }
}

/// The number of clear bits in the words of `words`.
pub open spec fn free_pages(words: Seq<u64>) -> nat
    decreases words.len(),
{
    if words.len() == 0 {
        0
    } else {
        free_pages(words.drop_last()) + zero_bits_below(words.last(), 64)
    }
}

/// The index of the first word from `i` with a clear bit, or the number of
/// words.
pub open spec fn first_non_full(words: Seq<u64>, i: int) -> int
    decreases words.len() - i,
{
    if i < 0 || i >= words.len() {
        words.len() as int
    } else if words[i] != u64::MAX {
        i
    } else {
        first_non_full(words, i + 1)
    }
}

/// The word and bit of the first clear bit of `words`, if there is one.
pub open spec fn first_free(words: Seq<u64>) -> Option<(int, u64)> {
    let f = first_non_full(words, 0);
    if f < words.len() {
        Some((f, vstd::std_specs::bits::u64_trailing_ones(words[f]) as u64))
    } else {
        None
    }
}

/// The words after the first clear bit of `words` is set.
pub open spec fn after_alloc(words: Seq<u64>) -> Seq<u64> {
    match first_free(words) {
        Some((f, b)) => words.update(f, words[f] ^ (1u64 << b)),
        None => words,
    }
}

/// The page that a word and a bit of the bitmap stand for.
pub open spec fn slot(p: (int, u64)) -> int {
    p.0 * 64 + p.1
}

/// A bitmap of pages: bit `b` of word `w` stands for page `64 * w + b`.
#[derive(Debug)]
pub struct BitMap {
    map: Vec<u64>,
    size: usize,
    address: u64,
}

impl BitMap {
    /// The words of the self.inner.
    pub closed spec fn words(&self) -> Seq<u64> {
        self.map@
    }

    /// The number of words of the self.inner.
    pub closed spec fn spec_size(&self) -> usize {
        self.size
    }

    /// The address the bitmap sits at.
    pub closed spec fn spec_address(&self) -> u64 {
        self.address
    }

    /// The size of the bitmap matches its words.
    pub closed spec fn wf(&self) -> bool {
        self.map@.len() == self.size
    }

    /// A cleared bitmap at `map_address` for `memory_size` bytes of memory,
    /// which must be a power of two: one bit per regular page.
    pub fn new(map_address: u64, memory_size: usize) -> (r: BitMap)
        requires
            is_power_of_two(memory_size as u64),
        ensures
            r.wf(),
            r.spec_size() == (memory_size / REGULAR_PAGE_SIZE) / 64,
            r.words() == Seq::new(r.spec_size() as nat, |i: int| 0u64),
            r.spec_address() == map_address,
    {
        let size = (memory_size / REGULAR_PAGE_SIZE) / 64;
        let mut map: Vec<u64> = Vec::new();
        let mut i: usize = 0;
        while i < size
            invariant
                i <= size,
                map@ == Seq::new(i as nat, |k: int| 0u64),
            decreases size - i,
        {
            map.push(0);
            i = i + 1;
            assert(map@ =~= Seq::new(i as nat, |k: int| 0u64));
        }
        BitMap { map, size, address: map_address }
    }

    /// The word and the bit that the index `index` stands for: the index
    /// shifted right by 3, and its low six bits.
    fn div_mod(index: usize) -> (r: (usize, u64))
        ensures
            r.0 == index >> 3,
            r.1 == (index & 0b111111) as u64,
            r.1 < 64,
    {
        let map_index = index >> 3;
        let bit_index = (index & 0b111111) as u64;
        proof {
            lemma_bitmap_bits(0, 0, 0, index);
        }
        (map_index, bit_index)
    }

    /// Flips the bit that `index` stands for.
    pub fn set_unchecked(&mut self, index: usize)
        requires
            old(self).wf(),
            index >> 3 < old(self).spec_size(),
        ensures
            final(self).wf(),
            final(self).spec_size() == old(self).spec_size(),
            final(self).spec_address() == old(self).spec_address(),
            final(self).words() == old(self).words().update(
                (index >> 3) as int,
                old(self).words()[(index >> 3) as int] ^ (1u64 << (index & 0b111111) as u64),
            ),
    {
        let (map_index, bit_index) = BitMap::div_mod(index);
        self.set_index_bit_unchecked(map_index, bit_index);
    }

    /// Whether the bit that `index` stands for is set.
    pub fn get_unchecked(&self, index: usize) -> (r: bool)
        requires
            self.wf(),
            index >> 3 < self.spec_size(),
        ensures
            r == (self.words()[(index >> 3) as int] & (1u64 << (index & 0b111111) as u64) != 0),
    {
        let (division, bit) = BitMap::div_mod(index);
        (self.map[division] & (1u64 << bit)) != 0
    }

    /// Sets every bit of word `index`.
    pub fn set_index_unchecked(&mut self, index: usize)
        requires
            old(self).wf(),
            index < old(self).spec_size(),
        ensures
            final(self).wf(),
            final(self).spec_size() == old(self).spec_size(),
            final(self).spec_address() == old(self).spec_address(),
            final(self).words() == old(self).words().update(index as int, u64::MAX),
    {
        self.map.set(index, u64::MAX);
    }

    /// Word `index`.
    pub fn get_index_unchecked(&self, index: usize) -> (r: u64)
        requires
            self.wf(),
            index < self.spec_size(),
        ensures
            r == self.words()[index as int],
    {
        self.map[index]
    }

    /// Flips bit `bit_index` of word `map_index`.
    pub fn set_index_bit_unchecked(&mut self, map_index: usize, bit_index: u64)
        requires
            old(self).wf(),
            map_index < old(self).spec_size(),
            bit_index < 64,
        ensures
            final(self).wf(),
            final(self).spec_size() == old(self).spec_size(),
            final(self).spec_address() == old(self).spec_address(),
            final(self).words() == old(self).words().update(
                map_index as int,
                old(self).words()[map_index as int] ^ (1u64 << bit_index),
            ),
    {
        let w = self.map[map_index] ^ (1u64 << bit_index);
        self.map.set(map_index, w);
    }

    /// Whether bit `bit_index` of word `map_index` is set.
    pub fn get_bit_index_unchecked(&self, map_index: usize, bit_index: u64) -> (r: bool)
        requires
            self.wf(),
            map_index < self.spec_size(),
            bit_index < 64,
        ensures
            r == (self.words()[map_index as int] & (1u64 << bit_index) != 0),
    {
        self.map[map_index] & (1u64 << bit_index) != 0
    }
}

/// The page size a layout asks for, or `NotAPage` when it asks for none.
#[derive(Clone, Copy, Debug, PartialEq, Eq, Structural)]
pub enum PageSizeAlignment {
    Regular,
    Big,
    Huge,
    NotAPage,
}

impl PageSizeAlignment {
    /// The page size whose size and alignment are those of `layout`.
    pub fn from_layout(layout: Layout) -> (r: PageSizeAlignment)
        ensures
            r == if layout.spec_size() == REGULAR_PAGE_SIZE && layout.spec_align().spec_as_u64()
                == REGULAR_PAGE_SIZE as u64 {
                PageSizeAlignment::Regular
            } else if layout.spec_size() == BIG_PAGE_SIZE && layout.spec_align().spec_as_u64()
                == BIG_PAGE_SIZE as u64 {
                PageSizeAlignment::Big
            } else if layout.spec_size() == HUGE_PAGE_SIZE && layout.spec_align().spec_as_u64()
                == HUGE_PAGE_SIZE as u64 {
                PageSizeAlignment::Huge
            } else {
                PageSizeAlignment::NotAPage
            },
    {
        let size = layout.size();
        let align = layout.align();
        if size == REGULAR_PAGE_SIZE && align == REGULAR_PAGE_SIZE as u64 {
            PageSizeAlignment::Regular
        } else if size == BIG_PAGE_SIZE && align == BIG_PAGE_SIZE as u64 {
            PageSizeAlignment::Big
        } else if size == HUGE_PAGE_SIZE && align == HUGE_PAGE_SIZE as u64 {
            PageSizeAlignment::Huge
        } else {
            PageSizeAlignment::NotAPage
        }
    }
}

/// The number of clear bits of `w`.
fn zero_bits(w: u64) -> (r: u32)
    ensures
        r == zero_bits_below(w, 64),
        r <= 64,
{
    let mut n: u32 = 0;
    let mut b: u64 = 0;
    while b < 64
        invariant
            b <= 64,
            n == zero_bits_below(w, b as nat),
            n <= b,
        decreases 64 - b,
    {
        if (w >> b) & 1 != 1 {
            n = n + 1;
        }
        b = b + 1;
    }
    n
}

/// A page allocator over the bitmap of the pages of memory.
#[derive(Debug)]
pub struct PageAllocator {
    pub inner: BitMap,
}

impl PageAllocator {
    /// An allocator whose bitmap sits at `bitmap_address`, for
    /// `memory_size` bytes of memory, with every page free.
    pub fn from_address_size(bitmap_address: u64, memory_size: usize) -> (r: PageAllocator)
        requires
            is_power_of_two(memory_size as u64),
        ensures
            r.inner.wf(),
            r.inner.spec_size() == (memory_size / REGULAR_PAGE_SIZE) / 64,
            r.inner.words() == Seq::new(r.inner.spec_size() as nat, |i: int| 0u64),
            r.inner.spec_address() == bitmap_address,
    {
        PageAllocator { inner: BitMap::new(bitmap_address, memory_size) }
    }

    /// The address of the page of bit `bit_index` of word `map_index`.
    pub fn resolve_address(map_index: usize, bit_index: usize) -> (r: u64)
        requires
            ((map_index * 64) + bit_index) * REGULAR_PAGE_SIZE <= u64::MAX,
        ensures
            r == ((map_index * 64) + bit_index) * REGULAR_PAGE_SIZE,
    {
        (((map_index as u64) * 64) + bit_index as u64) * (REGULAR_PAGE_SIZE as u64)
    }

    /// The word and bit of the first free regular page, or `(0, -1)` when
    /// every page is taken. Only regular pages can be searched for.
    fn find_free_region(&self, alignment: PageSizeAlignment) -> (r: (usize, i32))
        requires
            self.inner.wf(),
            alignment == PageSizeAlignment::Regular,
        ensures
            match first_free(self.inner.words()) {
                Some((f, b)) => r.0 == f && r.1 == b,
                None => r == (0usize, -1i32),
            },
    {
        let mut index: usize = 0;
        while index < self.inner.size
            invariant
                self.inner.wf(),
                index <= self.inner.spec_size(),
                first_non_full(self.inner.words(), 0) == first_non_full(self.inner.words(), index as int),
            decreases self.inner.spec_size() - index,
        {
            let w = self.inner.get_index_unchecked(index);
            proof {
                vstd::std_specs::bits::axiom_u64_trailing_ones(w);
            }
            let available_bit = w.trailing_ones() as i32;
            if available_bit < 64 {
                return (index, available_bit);
            }
            index = index + 1;
        }
        (0, -1)
    }

    /// The memory, in bytes, of the pages that are free.
    pub fn available_memory(&self) -> (r: u64)
        requires
            self.inner.wf(),
            self.inner.spec_size() * 64 * REGULAR_PAGE_SIZE <= u64::MAX,
        ensures
            r == free_pages(self.inner.words()) * REGULAR_PAGE_SIZE,
    {
        let mut available_pages: u64 = 0;
        let mut i: usize = 0;
        while i < self.inner.size
            invariant
                self.inner.wf(),
                i <= self.inner.spec_size(),
                self.inner.spec_size() * 64 * REGULAR_PAGE_SIZE <= u64::MAX,
                available_pages == free_pages(self.inner.words().take(i as int)),
                available_pages <= i * 64,
            decreases self.inner.spec_size() - i,
        {
            let z = zero_bits(self.inner.get_index_unchecked(i));
            proof {
                assert(self.inner.words().take(i as int + 1).drop_last() =~= self.inner.words().take(i as int));
            }
            available_pages = available_pages + z as u64;
            i = i + 1;
        }
        assert(self.inner.words().take(i as int) =~= self.inner.words());
        available_pages * (REGULAR_PAGE_SIZE as u64)
    }

    /// Allocates a regular page: the first free page of the bitmap is marked
    /// taken and its address comes back. Gives 0 when the layout is smaller
    /// than a regular page or less aligned, or when no page is free. Other
    /// page sizes cannot be allocated.
    pub fn alloc_page(&mut self, layout: Layout) -> (r: u64)
        requires
            old(self).inner.wf(),
            old(self).inner.spec_size() * 64 * REGULAR_PAGE_SIZE <= u64::MAX,
            layout.spec_size() >= REGULAR_PAGE_SIZE && layout.spec_align().spec_as_u64()
                >= REGULAR_PAGE_SIZE ==> layout.spec_size() == REGULAR_PAGE_SIZE
                && layout.spec_align().spec_as_u64() == REGULAR_PAGE_SIZE,
        ensures
            final(self).inner.wf(),
            final(self).inner.spec_size() == old(self).inner.spec_size(),
            layout.spec_size() < REGULAR_PAGE_SIZE || layout.spec_align().spec_as_u64()
                < REGULAR_PAGE_SIZE ==> r == 0 && final(self).inner.words() == old(
                self,
            ).inner.words(),
            layout.spec_size() >= REGULAR_PAGE_SIZE && layout.spec_align().spec_as_u64()
                >= REGULAR_PAGE_SIZE ==> final(self).inner.words() == after_alloc(
                old(self).inner.words(),
            ) && match first_free(old(self).inner.words()) {
                Some((f, b)) => r == (f * 64 + b) * REGULAR_PAGE_SIZE,
                None => r == 0,
            },
    {
        if layout.size() < REGULAR_PAGE_SIZE || layout.align() < REGULAR_PAGE_SIZE as u64 {
            return 0;
        }
        proof {
            let f = first_non_full(self.inner.words(), 0);
            lemma_first_non_full_ge(self.inner.words(), 0);
            if f < self.inner.words().len() {
                vstd::std_specs::bits::axiom_u64_trailing_ones(self.inner.words()[f]);
            }
        }
        let (map_index, bit_index) = self.find_free_region(PageSizeAlignment::from_layout(layout));
        if bit_index >= 0 {
            self.inner.set_index_bit_unchecked(map_index, bit_index as u64);
            PageAllocator::resolve_address(map_index, bit_index as usize)
        } else {
            0
        }
    }
}

/// The bits below the first clear bit of a word are set, and setting that
/// bit leaves the bits below it set.
proof fn lemma_set_first_clear(w: u64, b: u64)
    requires
        b == vstd::std_specs::bits::u64_trailing_ones(w),
        b < 64,
    ensures
        vstd::std_specs::bits::u64_trailing_ones(w ^ (1u64 << b)) > b,
{
    let w2 = w ^ (1u64 << b);
    let t = vstd::std_specs::bits::u64_trailing_ones(w2) as u64;
    if t <= b {
        lemma_bitmap_bits(w, t, b, 0);
        if t < b {
            assert((w >> t) & 1u64 == 1u64);
        } else {
            assert((w >> b) & 1u64 == 0u64);
        }
    }
}

/// Flipping bit `b` of `w` sets it when it was clear and keeps the other
/// bits; the low six bits of an index are below 64.
proof fn lemma_bitmap_bits(w: u64, t: u64, b: u64, index: usize)
    by (bit_vector)
    ensures
        t < b && (w >> t) & 1u64 == 1u64 ==> ((w ^ (1u64 << b)) >> t) & 1u64 == 1u64,
        b < 64 && (w >> b) & 1u64 == 0u64 ==> ((w ^ (1u64 << b)) >> b) & 1u64 == 1u64,
        (index & 0b111111) < 64,
{
}

/// The search from a word does not end before it.
proof fn lemma_first_non_full_ge(words: Seq<u64>, i: int)
    requires
        0 <= i <= words.len(),
    ensures
        i <= first_non_full(words, i) <= words.len(),
        first_non_full(words, i) < words.len() ==> words[first_non_full(words, i)] != u64::MAX,
    decreases words.len() - i,
{
    if i < words.len() && words[i] == u64::MAX {
        lemma_first_non_full_ge(words, i + 1);
    }
}

/// The word the search starts at stays where it was when earlier words do not
/// change.
proof fn lemma_first_non_full_update(words: Seq<u64>, i: int, f: int, w: u64)
    requires
        0 <= i <= f < words.len(),
        first_non_full(words, i) == f,
    ensures
        first_non_full(words.update(f, w), i) >= f,
        w != u64::MAX ==> first_non_full(words.update(f, w), i) == f,
    decreases f - i,
{
    if i < f {
        lemma_first_non_full_update(words, i + 1, f, w);
    } else {
        lemma_first_non_full_ge(words.update(f, w), f + 1);
    }
}

/// Every bit of the full word is set.
proof fn lemma_full_word_bits(c: u64)
    by (bit_vector)
    requires
        c < 64,
    ensures
        (0xffff_ffff_ffff_ffffu64 >> c) & 1u64 == 1u64,
{
}

/// A word has no clear bit below `n` when it is full, and at least one when
/// it has a clear bit `c` below `n`.
proof fn lemma_zero_bits_below(w: u64, n: nat, c: u64)
    requires
        n <= 64,
    ensures
        w == u64::MAX ==> zero_bits_below(w, n) == 0,
        c < n && !word_bit(w, c) ==> zero_bits_below(w, n) >= 1,
    decreases n,
{
    if n > 0 {
        lemma_zero_bits_below(w, (n - 1) as nat, c);
        if w == u64::MAX {
            lemma_full_word_bits((n - 1) as u64);
        }
    }
}

/// No page is free exactly when every word is full.
proof fn lemma_free_pages_zero(words: Seq<u64>)
    ensures
        free_pages(words) == 0 <==> forall|i: int| 0 <= i < words.len() ==> #[trigger] words[i] == u64::MAX,
    decreases words.len(),
{
    if words.len() > 0 {
        let init = words.drop_last();
        lemma_free_pages_zero(init);
        let last = words.last();
        lemma_zero_bits_below(last, 64, 0);
        if last != u64::MAX {
            vstd::std_specs::bits::axiom_u64_trailing_ones(last);
            lemma_zero_bits_below(last, 64, vstd::std_specs::bits::u64_trailing_ones(last) as u64);
        }
        if forall|i: int| 0 <= i < words.len() ==> #[trigger] words[i] == u64::MAX {
            assert forall|i: int| 0 <= i < init.len() implies #[trigger] init[i] == u64::MAX by {
                assert(init[i] == words[i]);
            }
            assert(words[words.len() - 1] == u64::MAX);
        }
        if free_pages(words) == 0 {
            assert forall|i: int| 0 <= i < words.len() implies #[trigger] words[i] == u64::MAX by {
                if i < words.len() - 1 {
                    assert(init[i] == words[i]);
                }
            }
        }
    }
}

/// The search from word `i` stops at the first word from `i` that is not
/// full.
proof fn lemma_first_non_full_least(words: Seq<u64>, i: int)
    requires
        0 <= i <= words.len(),
    ensures
        forall|j: int| i <= j < first_non_full(words, i) ==> #[trigger] words[j] == u64::MAX,
    decreases words.len() - i,
{
    if i < words.len() && words[i] == u64::MAX {
        lemma_first_non_full_least(words, i + 1);
    }
}

/// The page the allocator hands out is the lowest free one: a free page is
/// found exactly when some page is free, it is the lowest clear bit of the
/// first word that is not full, and every word before that word is full.
pub proof fn lemma_first_free_is_lowest_clear_bit(words: Seq<u64>)
    ensures
        first_free(words) is None <==> forall|i: int| 0 <= i < words.len() ==> #[trigger] words[i] == u64::MAX,
        first_free(words) is None <==> free_pages(words) == 0,
        first_free(words) matches Some((f, b)) ==> {
            &&& 0 <= f < words.len()
            &&& b < 64
            &&& !word_bit(words[f], b)
            &&& forall|i: int| 0 <= i < f ==> #[trigger] words[i] == u64::MAX
            &&& forall|c: u64| c < b ==> #[trigger] word_bit(words[f], c)
        },
{
    lemma_first_non_full_ge(words, 0);
    lemma_first_non_full_least(words, 0);
    lemma_free_pages_zero(words);
    let f = first_non_full(words, 0);
    if f < words.len() {
        vstd::std_specs::bits::axiom_u64_trailing_ones(words[f]);
    } else {
        assert forall|i: int| 0 <= i < words.len() implies #[trigger] words[i] == u64::MAX by {
            assert(0 <= i < first_non_full(words, 0));
        }
    }
}

/// Flipping bit `b` of `w` keeps every other bit and sets `b` when it was
/// clear.
proof fn lemma_flip_bits(w: u64, b: u64, c: u64)
    by (bit_vector)
    requires
        b < 64,
        c < 64,
    ensures
        c != b ==> ((((w ^ (1u64 << b)) >> c) & 1u64 == 1u64) == ((w >> c) & 1u64 == 1u64)),
        (w >> b) & 1u64 != 1u64 ==> ((w ^ (1u64 << b)) >> b) & 1u64 == 1u64,
{
}

/// Setting a clear bit `b` of `w` leaves one clear bit fewer below `n` when
/// `b` is below `n`.
proof fn lemma_zero_bits_flip(w: u64, b: u64, n: nat)
    requires
        b < 64,
        n <= 64,
        !word_bit(w, b),
    ensures
        zero_bits_below(w ^ (1u64 << b), n) + (if b < n { 1nat } else { 0nat }) == zero_bits_below(w, n),
    decreases n,
{
    if n > 0 {
        lemma_zero_bits_flip(w, b, (n - 1) as nat);
        lemma_flip_bits(w, b, (n - 1) as u64);
    }
}

/// Replacing word `f` changes the count of free pages by the change in that
/// word's clear bits.
proof fn lemma_free_pages_update(words: Seq<u64>, f: int, w: u64)
    requires
        0 <= f < words.len(),
    ensures
        free_pages(words.update(f, w)) + zero_bits_below(words[f], 64) == free_pages(words)
            + zero_bits_below(w, 64),
    decreases words.len(),
{
    let u = words.update(f, w);
    if f == words.len() - 1 {
        assert(u.drop_last() =~= words.drop_last());
    } else {
        assert(u.drop_last() =~= words.drop_last().update(f, w));
        lemma_free_pages_update(words.drop_last(), f, w);
    }
}

/// An allocation takes exactly one page: once a page is allocated, one page
/// fewer is free.
pub proof fn lemma_alloc_takes_one_page(words: Seq<u64>)
    requires
        first_free(words) is Some,
    ensures
        free_pages(after_alloc(words)) + 1 == free_pages(words),
{
    let (f, b) = first_free(words)->0;
    lemma_first_non_full_ge(words, 0);
    vstd::std_specs::bits::axiom_u64_trailing_ones(words[f]);
    lemma_zero_bits_flip(words[f], b, 64);
    lemma_free_pages_update(words, f, words[f] ^ (1u64 << b));
}

/// Each allocation takes a page after the one before: the first free page
/// once a page is allocated comes later in the bitmap than that page, so two
/// allocations in a row never give the same page.
pub proof fn lemma_alloc_moves_forward(words: Seq<u64>)
    requires
        first_free(words) is Some,
    ensures
        match first_free(after_alloc(words)) {
            Some(next) => slot(next) > slot(first_free(words)->0),
            None => true,
        },
{
    let (f, b) = first_free(words)->0;
    assert(first_non_full(words, 0) == f);
    lemma_first_non_full_ge(words, 0);
    vstd::std_specs::bits::axiom_u64_trailing_ones(words[f]);
    let w2 = words[f] ^ (1u64 << b);
    lemma_set_first_clear(words[f], b);
    lemma_first_non_full_update(words, 0, f, w2);
    let after = after_alloc(words);
    assert(after == words.update(f, w2));
    match first_free(after) {
        Some((f2, b2)) => {
            if f2 == f {
                assert(after[f] == w2);
            }
        },
        None => {},
    }
}

} // verus!
