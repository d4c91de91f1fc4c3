//! Segment selectors and the task state segment.
use vstd::prelude::*;

use crate::common::bitfield::{
    field_of, lemma_masks, lemma_with_field, lemma_with_field_fits, low_mask, or_field, read_field, set_field_bits,
    set_field_bits_u16, set_field_bits_u32, set_field_bits_u8, with_field, write_field,
    write_field_u16, write_field_u32, write_field_u8,
};
use crate::common::enums::{ProtectionLevel, Sections};

verus! {

/// A segment selector: the requested privilege level, the table bit, and the section of the table.
#[derive(Clone, Copy, Debug, PartialEq, Eq, Structural)]
pub struct SegmentSelector(u16);

impl SegmentSelector {
    /// The raw bits of the register.
    pub closed spec fn bits(&self) -> u64 {
        self.0 as u64
    }

    /// A register with every bit cleared.
    pub fn new() -> (r: SegmentSelector)
        ensures
            r.bits() == 0,
    {
        SegmentSelector(0)
    }

    /// The register that holds `bits`.
    pub fn from_bits(bits: u16) -> (r: SegmentSelector)
        ensures
            r.bits() == bits as u64,
    {
        SegmentSelector(bits)
    }

    /// The raw bits of the register.
    pub fn as_u16(&self) -> (r: u16)
        ensures
            r as u64 == self.bits(),
    {
        self.0
    }

    /// The requested privilege level field; it must hold a value that a variant of `ProtectionLevel` stands for.
    pub fn get_rpl(&self) -> (r: ProtectionLevel)
        requires
            ProtectionLevel::spec_from_u8(field_of(self.bits(), 0, 2) as u8) is Some,
        ensures
            r.spec_as_u8() as u64 == field_of(self.bits(), 0, 2),
    {
        let field = read_field(self.0 as u64, 0, 2);
        proof {
            lemma_masks();
        }
        let raw = field as u8;
        match ProtectionLevel::try_from_u8(raw) {
            Ok(v) => v,
            Err(_) => vstd::pervasive::unreached(),
        }
    }

    /// Writes the requested privilege level field, keeping every other bit.
    pub fn set_rpl(&mut self, v: ProtectionLevel)
        ensures
            final(self).bits() == with_field(old(self).bits(), 0, 2, v.spec_as_u8() as u64),
    {
        proof {
            lemma_masks();
        }
        self.0 = write_field_u16(self.0, 0, 2, v.as_u8() as u64);
    }

    /// This register with the bits of `v` set in the requested privilege level field.
    pub fn rpl(self, v: ProtectionLevel) -> (r: SegmentSelector)
        ensures
            r.bits() == or_field(self.bits(), 0, v.spec_as_u8() as u64),
    {
        proof {
            lemma_masks();
        }
        SegmentSelector(set_field_bits_u16(self.0, 0, 2, v.as_u8() as u64))
    }

    /// Whether the local descriptor table bit is set.
    pub fn is_use_ldt(&self) -> (r: bool)
        ensures
            r == (field_of(self.bits(), 2, 1) == 1),
    {
        read_field(self.0 as u64, 2, 1) == 1
    }

    /// Writes the local descriptor table field, keeping every other bit.
    pub fn set_use_ldt(&mut self, v: bool)
        ensures
            final(self).bits() == with_field(old(self).bits(), 2, 1, if v { 1u64 } else { 0u64 }),
    {
        proof {
            lemma_masks();
        }
        self.0 = write_field_u16(self.0, 2, 1, if v { 1u64 } else { 0u64 });
    }

    /// This register with the bits of `v` set in the local descriptor table field.
    pub fn use_ldt(self, v: bool) -> (r: SegmentSelector)
        ensures
            r.bits() == or_field(self.bits(), 2, if v { 1u64 } else { 0u64 }),
    {
        proof {
            lemma_masks();
        }
        SegmentSelector(set_field_bits_u16(self.0, 2, 1, if v { 1u64 } else { 0u64 }))
    }

    /// The section field; it must hold a value that a variant of `Sections` stands for.
    pub fn get_section(&self) -> (r: Sections)
        requires
            Sections::spec_from_u16(field_of(self.bits(), 3, 13) as u16) is Some,
        ensures
            r.spec_as_u16() as u64 == field_of(self.bits(), 3, 13),
    {
        let field = read_field(self.0 as u64, 3, 13);
        proof {
            lemma_masks();
        }
        let raw = field as u16;
        match Sections::try_from_u16(raw) {
            Ok(v) => v,
            Err(_) => vstd::pervasive::unreached(),
        }
    }

    /// Writes the section field, keeping every other bit.
    pub fn set_section(&mut self, v: Sections)
        ensures
            final(self).bits() == with_field(old(self).bits(), 3, 13, v.spec_as_u16() as u64),
    {
        proof {
            lemma_masks();
        }
        self.0 = write_field_u16(self.0, 3, 13, v.as_u16() as u64);
    }

    /// This register with the bits of `v` set in the section field.
    pub fn section(self, v: Sections) -> (r: SegmentSelector)
        ensures
            r.bits() == or_field(self.bits(), 3, v.spec_as_u16() as u64),
    {
        proof {
            lemma_masks();
        }
        SegmentSelector(set_field_bits_u16(self.0, 3, 13, v.as_u16() as u64))
    }


}

/// The task state segment of a 64-bit processor: the stacks it switches to
/// on an interrupt, and where its I/O permission map starts.
#[derive(Clone, Copy, Debug)]
pub struct TaskStateSegment {
    reserved0: u32,
    priv_stack_ptr: [u64; 3],
    reserved1: u64,
    int_stack_table: [u64; 7],
    reserved2: u64,
    reserved3: u16,
    io_map_offset: u16,
}

/// The size in bytes of a task state segment.
pub const TASK_STATE_SEGMENT_SIZE: u16 = 0x68;

impl TaskStateSegment {
    /// The offset of the I/O permission map from the start of the segment.
    pub closed spec fn spec_iomb(&self) -> u16 {
        self.io_map_offset
    }

    /// Every stack pointer of the segment.
    pub closed spec fn stacks(&self) -> Seq<u64> {
        self.priv_stack_ptr@ + self.int_stack_table@
    }

    /// The offset of the I/O permission map from the start of the segment.
    pub fn iomb(&self) -> (r: u16)
        ensures
            r == self.spec_iomb(),
    {
        self.io_map_offset
    }

    /// A segment with every stack pointer zero and the I/O map right after
    /// the segment, so that it holds no I/O permission.
    pub fn default() -> (r: TaskStateSegment)
        ensures
            r.spec_iomb() == TASK_STATE_SEGMENT_SIZE,
            r.stacks() == Seq::new(10, |i: int| 0u64),
    {
        let r = TaskStateSegment {
            reserved0: 0,
            priv_stack_ptr: [0u64; 3],
            reserved1: 0,
            int_stack_table: [0u64; 7],
            reserved2: 0,
            reserved3: 0,
            io_map_offset: TASK_STATE_SEGMENT_SIZE,
        };
        assert(r.stacks() =~= Seq::new(10, |i: int| 0u64));
        r
    }
}

} // verus!
