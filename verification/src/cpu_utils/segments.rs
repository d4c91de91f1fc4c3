//! Segment selectors and the task state segment, as the kernel's processor
//! utilities build them.
use vstd::prelude::*;

use crate::common::enums::{ProtectionLevel, Sections};

verus! {

/// A segment selector.
#[derive(Clone, Copy, Debug)]
pub struct SegmentSelector(u16);

impl Default for SegmentSelector {
    /// The null selector.
    fn default() -> (r: SegmentSelector)
        ensures
            r.bits() == 0,
    {
        SegmentSelector(0)
    }
}

impl SegmentSelector {
    /// The raw bits of the selector.
    pub closed spec fn bits(&self) -> u16 {
        self.0
    }

    /// This selector with the bits of the requested privilege level `rpl`
    /// set.
    pub fn set_rpl(self, rpl: ProtectionLevel) -> (r: SegmentSelector)
        ensures
            r.bits() == self.bits() | (rpl.spec_as_u8() as u16),
    {
        SegmentSelector(self.0 | (rpl.as_u8() as u16))
    }

    /// This value with the flag that says the selector indexes the local descriptor table set.
    pub fn local_descriptor_table(self) -> (r: SegmentSelector)
        ensures
            r.bits() == self.bits() | (1u16 << 2u16),
    {
        SegmentSelector(self.0 | (1u16 << 2u16))
    }

    /// Whether the flag that says the selector indexes the local descriptor table is set.
    pub fn is_local_descriptor_table(&self) -> (r: bool)
        ensures
            r == (self.bits() & (1u16 << 2u16) != 0),
    {
        self.0 & (1u16 << 2u16) != 0
    }

    /// This selector with the bits of the table index `index` set (the
    /// index shifted left by 3). A system segment takes two indices.
    pub fn set_table_index(self, index: u16) -> (r: SegmentSelector)
        ensures
            r.bits() == self.bits() | ((index << 3u16) as u16),
    {
        SegmentSelector(self.0 | (index << 3))
    }

    /// The raw bits of the selector.
    pub fn as_u16(&self) -> (r: u16)
        ensures
            r == self.bits(),
    {
        self.0
    }

    /// The selector of the kernel code segment.
    pub fn kernel_code() -> (r: SegmentSelector)
        ensures
            r.bits() == 0x8,
    {
        SegmentSelector(Sections::KernelCode.as_u16())
    }

    /// The selector of the user code segment, with privilege level 3.
    pub fn user_code() -> (r: SegmentSelector)
        ensures
            r.bits() == 0x1b,
    {
        assert(0x18u16 | 3u16 == 0x1b) by (bit_vector);
        SegmentSelector(Sections::UserCode.as_u16() | (ProtectionLevel::Ring3.as_u8() as u16))
    }
}

} // verus!
