//! The kernel's global allocator: the allocator that it hands allocations
//! to, given once the kernel has one.
use vstd::prelude::*;

use crate::common::late_init::LateInit;

verus! {

/// The global allocator of the kernel, which hands every allocation to the
/// allocator `A` it was given.
pub struct GlobalAllocator<A> {
    allocator: LateInit<A>,
}

impl<A> GlobalAllocator<A> {
    /// The allocator it hands allocations to, once given.
    pub closed spec fn target(&self) -> Option<A> {
        self.allocator.value()
    }

    /// Hands later allocations to `allocator`.
    pub fn init(&mut self, allocator: A)
        ensures
            final(self).target() == Some(allocator),
    {
        self.allocator = LateInit::new(allocator);
    }

    /// The allocator it hands allocations to, once given.
    pub fn allocator(&self) -> (r: Option<&A>)
        ensures
            r matches Some(a) ==> self.target() == Some(*a),
            r is None <==> self.target() is None,
    {
        match self.allocator.value_ref() {
            Some(a) => Some(a),
            None => None,
        }
    }

    /// A global allocator with no allocator to hand allocations to yet.
    pub fn uninit() -> (r: GlobalAllocator<A>)
        ensures
            r.target() is None,
    {
        GlobalAllocator { allocator: LateInit::uninit() }
    }
}

} // verus!
