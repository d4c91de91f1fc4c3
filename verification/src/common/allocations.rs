//! Records of the allocations handed out by the boot-time bump allocator.
use vstd::prelude::*;

use crate::common::address_types::VirtualAddress;
use crate::common::constants::{Alignment, Layout};

verus! {

/// One allocation: its layout and its base address.
#[derive(Clone, Copy, Debug)]
pub struct Allocation {
    pub layout: Layout,
    pub base: VirtualAddress,
}

impl Default for Allocation {
    /// The empty allocation: zero bytes aligned to one, at address zero.
    fn default() -> (r: Allocation)
        ensures
            r.layout.spec_size() == 0,
            r.layout.spec_align().spec_as_u64() == 1,
            r.base@ == 0,
    {
        let one = Alignment::new(1);
        proof {
            crate::common::constants::lemma_page_sizes_are_powers();
        }
        Allocation {
            layout: Layout::from_size_alignment(0, one.unwrap()),
            base: VirtualAddress::null(),
        }
    }
}

impl Allocation {
    /// Whether the allocation is at address zero.
    pub fn is_null(&self) -> (r: bool)
        ensures
            r == (self.base@ == 0),
    {
        self.base.as_u64() == 0
    }
}

/// A log of up to `N` allocations; `index` counts the ones recorded.
pub struct Allocations<const N: usize> {
    allocations: [Allocation; N],
    pub index: usize,
}

impl<const N: usize> Allocations<N> {
    /// The recorded slots, in order.
    pub closed spec fn slots(&self) -> Seq<Allocation> {
        self.allocations@
    }

    /// The number of recorded allocations.
    pub closed spec fn recorded(&self) -> usize {
        self.index
    }

    /// A log with no recorded allocation.
    pub fn new() -> (r: Allocations<N>)
        ensures
            r.recorded() == 0,
            r.slots().len() == N,
    {
        Allocations { allocations: [Allocation::default();N], index: 0 }
    }

    /// Records `a` in the next slot.
    pub fn write(&mut self, a: Allocation)
        requires
            old(self).recorded() < N,
        ensures
            final(self).slots() == old(self).slots().update(old(self).recorded() as int, a),
            final(self).recorded() == old(self).recorded() + 1,
    {
        self.allocations[self.index] = a;
        self.index = self.index + 1;
    }

    /// The recorded allocations, oldest first.
    pub fn iter(&self) -> (r: Vec<Allocation>)
        ensures
            r@ == self.slots().subrange(0, vstd::math::min(self.recorded() as int, N as int)),
    {
        let end = if self.index < N {
            self.index
        } else {
            N
        };
        let mut out: Vec<Allocation> = Vec::new();
        let mut i: usize = 0;
        while i < end
            invariant
                i <= end,
                end <= N,
                end == vstd::math::min(self.index as int, N as int),
                self.allocations@.len() == N,
                out@ == self.allocations@.subrange(0, i as int),
            decreases end - i,
        {
            out.push(self.allocations[i]);
            assert(out@ =~= self.allocations@.subrange(0, (i + 1) as int));
            i = i + 1;
        }
        out
    }
}

} // verus!
