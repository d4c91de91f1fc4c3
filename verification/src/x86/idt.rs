//! The interrupt descriptor table: descriptors, the table and its register, and
//! the frame the processor pushes on an interrupt.
use vstd::prelude::*;

use crate::common::bitfield::{
    field_of, lemma_masks, lemma_with_field, lemma_with_field_fits, low_mask, or_field, read_field, set_field_bits,
    set_field_bits_u16, set_field_bits_u32, set_field_bits_u8, with_field, write_field,
    write_field_u16, write_field_u32, write_field_u8,
};
use crate::common::address_types::VirtualAddress;
use crate::common::enums::{
    Interrupt, InterruptStackTable, InterruptType, ProtectionLevel, Sections, SystemSegmentType,
};
use crate::x86::gdt::{system_descriptor, GlobalDescriptorTableLong, SystemSegmentDescriptor64};
use crate::x86::rflags::Rflags;
use crate::x86::segments::{SegmentSelector, TaskStateSegment, TASK_STATE_SEGMENT_SIZE};

verus! {

/// The attributes of an interrupt descriptor: its type, privilege level and presence.
#[derive(Clone, Copy, Debug, PartialEq, Eq, Structural)]
pub struct InterruptAttributes(u8);

impl InterruptAttributes {
    /// The raw bits of the register.
    pub closed spec fn bits(&self) -> u64 {
        self.0 as u64
    }

    /// A register with every bit cleared.
    pub fn new() -> (r: InterruptAttributes)
        ensures
            r.bits() == 0,
    {
        InterruptAttributes(0)
    }

    /// The register that holds `bits`.
    pub fn from_bits(bits: u8) -> (r: InterruptAttributes)
        ensures
            r.bits() == bits as u64,
    {
        InterruptAttributes(bits)
    }

    /// The raw bits of the register.
    pub fn as_u8(&self) -> (r: u8)
        ensures
            r as u64 == self.bits(),
    {
        self.0
    }

    /// The descriptor type field; it must hold a value that a variant of `InterruptType` stands for.
    pub fn get_int_type(&self) -> (r: InterruptType)
        requires
            InterruptType::spec_from_u8(field_of(self.bits(), 0, 4) as u8) is Some,
        ensures
            r.spec_as_u8() as u64 == field_of(self.bits(), 0, 4),
    {
        let field = read_field(self.0 as u64, 0, 4);
        proof {
            lemma_masks();
        }
        let raw = field as u8;
        match InterruptType::try_from_u8(raw) {
            Ok(v) => v,
            Err(_) => vstd::pervasive::unreached(),
        }
    }

    /// Writes the descriptor type field, keeping every other bit.
    pub fn set_int_type(&mut self, v: InterruptType)
        ensures
            final(self).bits() == with_field(old(self).bits(), 0, 4, v.spec_as_u8() as u64),
    {
        proof {
            lemma_masks();
        }
        self.0 = write_field_u8(self.0, 0, 4, v.as_u8() as u64);
    }

    /// This register with the bits of `v` set in the descriptor type field.
    pub fn int_type(self, v: InterruptType) -> (r: InterruptAttributes)
        ensures
            r.bits() == or_field(self.bits(), 0, v.spec_as_u8() as u64),
    {
        proof {
            lemma_masks();
        }
        InterruptAttributes(set_field_bits_u8(self.0, 0, 4, v.as_u8() as u64))
    }

    /// Whether the zero bit is set.
    pub fn is_zero(&self) -> (r: bool)
        ensures
            r == (field_of(self.bits(), 4, 1) == 1),
    {
        read_field(self.0 as u64, 4, 1) == 1
    }

    /// Clears the zero field.
    pub fn clear_zero(&mut self)
        ensures
            final(self).bits() == with_field(old(self).bits(), 4, 1, 0),
    {
        proof {
            assert((0u8 as u64) <= low_mask(1));
        }
        self.0 = write_field_u8(self.0, 4, 1, 0);
    }

    /// The descriptor privilege level field; it must hold a value that a variant of `ProtectionLevel` stands for.
    pub fn get_dpl(&self) -> (r: ProtectionLevel)
        requires
            ProtectionLevel::spec_from_u8(field_of(self.bits(), 5, 2) as u8) is Some,
        ensures
            r.spec_as_u8() as u64 == field_of(self.bits(), 5, 2),
    {
        let field = read_field(self.0 as u64, 5, 2);
        proof {
            lemma_masks();
        }
        let raw = field as u8;
        match ProtectionLevel::try_from_u8(raw) {
            Ok(v) => v,
            Err(_) => vstd::pervasive::unreached(),
        }
    }

    /// Writes the descriptor privilege level field, keeping every other bit.
    pub fn set_dpl(&mut self, v: ProtectionLevel)
        ensures
            final(self).bits() == with_field(old(self).bits(), 5, 2, v.spec_as_u8() as u64),
    {
        proof {
            lemma_masks();
        }
        self.0 = write_field_u8(self.0, 5, 2, v.as_u8() as u64);
    }

    /// This register with the bits of `v` set in the descriptor privilege level field.
    pub fn dpl(self, v: ProtectionLevel) -> (r: InterruptAttributes)
        ensures
            r.bits() == or_field(self.bits(), 5, v.spec_as_u8() as u64),
    {
        proof {
            lemma_masks();
        }
        InterruptAttributes(set_field_bits_u8(self.0, 5, 2, v.as_u8() as u64))
    }

    /// Whether the present bit is set.
    pub fn is_present(&self) -> (r: bool)
        ensures
            r == (field_of(self.bits(), 7, 1) == 1),
    {
        read_field(self.0 as u64, 7, 1) == 1
    }

    /// Writes the present field, keeping every other bit.
    pub fn set_present(&mut self, v: bool)
        ensures
            final(self).bits() == with_field(old(self).bits(), 7, 1, if v { 1u64 } else { 0u64 }),
    {
        proof {
            lemma_masks();
        }
        self.0 = write_field_u8(self.0, 7, 1, if v { 1u64 } else { 0u64 });
    }

    /// This register with the bits of `v` set in the present field.
    pub fn present(self, v: bool) -> (r: InterruptAttributes)
        ensures
            r.bits() == or_field(self.bits(), 7, if v { 1u64 } else { 0u64 }),
    {
        proof {
            lemma_masks();
        }
        InterruptAttributes(set_field_bits_u8(self.0, 7, 1, if v { 1u64 } else { 0u64 }))
    }


}

/// The first 8 bytes of an interrupt descriptor: bits 0 to 15 of the handler
/// address, the code segment selector, the interrupt stack table index, the
/// attributes, and bits 16 to 31 of the handler address.
pub open spec fn idt_entry_low(handler: u64, selector: u16, ist: u8, attributes: u8) -> u64 {
    (handler & 0xffff) | ((selector as u64) << 16u64) | ((ist as u64) << 32u64) | ((
    attributes as u64) << 40u64) | (((handler >> 16u64) & 0xffff) << 48u64)
}

/// The last 8 bytes of an interrupt descriptor: bits 32 to 63 of the handler
/// address, then 32 zero bits.
pub open spec fn idt_entry_high(handler: u64) -> u64 {
    handler >> 32u64
}

/// The bit arithmetic the entries of the table rely on.
proof fn lemma_idt_facts(a: u64, s: u16, i: u8, t: u8, dpl: u8, kind: u8)
    by (bit_vector)
    ensures
        or_field(0, 0, 0xe) == 0xe,
        (0u16 as u64) | ((0u16 as u64) << 16u64) | ((0u8 as u64) << 32u64) | ((0xeu8 as u64)
            << 40u64) | ((0u16 as u64) << 48u64) == 0x0000_0e00_0000_0000,
        (0u32 as u64) | ((0u32 as u64) << 32u64) == 0,
        (a as u16 as u64) | ((s as u64) << 16u64) | ((i as u64) << 32u64) | ((t as u64) << 40u64)
            | (((a >> 16u64) as u16 as u64) << 48u64) == idt_entry_low(a, s, i, t),
        ((a >> 32u64) as u32 as u64) | ((0u32 as u64) << 32u64) == idt_entry_high(a),
        dpl <= 3 && kind <= 15 ==> or_field(or_field(or_field(0, 7, 1), 5, dpl as u64), 0, kind as u64)
            == (0x80u8 | (dpl << 5u8) | kind) as u64,
        or_field(or_field(0, 0, 0), 3, 0x8) == 0x40,
{
}

/// An interrupt descriptor.
#[derive(Clone, Copy, Debug)]
pub struct InterruptDescriptorTableEntry {
    handler_offset_low: u16,
    segment_selector: SegmentSelector,
    ist: InterruptStackTable,
    attributes: InterruptAttributes,
    handler_offset_mid: u16,
    handler_offset_high: u32,
    zero: u32,
}

impl InterruptDescriptorTableEntry {
    /// The first 8 bytes of the descriptor as the processor reads them.
    pub closed spec fn value_low(&self) -> u64 {
        (self.handler_offset_low as u64) | ((self.segment_selector.bits() as u16 as u64) << 16u64)
            | ((self.ist.spec_as_u8() as u64) << 32u64) | ((self.attributes.bits() as u8 as u64)
            << 40u64) | ((self.handler_offset_mid as u64) << 48u64)
    }

    /// The last 8 bytes of the descriptor as the processor reads them.
    pub closed spec fn value_high(&self) -> u64 {
        (self.handler_offset_high as u64) | ((self.zero as u64) << 32u64)
    }

    /// The descriptor of an interrupt with no handler: not present, of the fault
    /// type, every other bit cleared.
    pub fn missing() -> (r: InterruptDescriptorTableEntry)
        ensures
            r.value_low() == 0x0000_0e00_0000_0000,
            r.value_high() == 0,
    {
        let attributes = InterruptAttributes::new().int_type(InterruptType::Fault);
        proof {
            lemma_idt_facts(0, 0, 0, 0, 0, 0);
        }
        let r = InterruptDescriptorTableEntry {
            handler_offset_low: 0,
            segment_selector: SegmentSelector::new(),
            ist: InterruptStackTable::NoStack,
            attributes,
            handler_offset_mid: 0,
            handler_offset_high: 0,
            zero: 0,
        };
        r
    }

    /// The descriptor that sends the interrupt to the handler at
    /// `handler_address`, with the stack `ist`, the `attributes`, and the
    /// code segment `segment_selector`.
    pub fn new(
        handler_address: VirtualAddress,
        ist: InterruptStackTable,
        attributes: InterruptAttributes,
        segment_selector: SegmentSelector,
    ) -> (r: InterruptDescriptorTableEntry)
        ensures
            r.value_low() == idt_entry_low(
                handler_address@,
                segment_selector.bits() as u16,
                ist.spec_as_u8(),
                attributes.bits() as u8,
            ),
            r.value_high() == idt_entry_high(handler_address@),
    {
        let a = handler_address.as_u64();
        let handler_offset_low = a as u16;
        let handler_offset_mid = (a >> 16) as u16;
        let handler_offset_high = (a >> 32) as u32;
        let r = InterruptDescriptorTableEntry {
            handler_offset_low,
            segment_selector,
            ist,
            attributes,
            handler_offset_mid,
            handler_offset_high,
            zero: 0,
        };
        let ghost s = segment_selector.bits() as u16;
        let ghost i = ist.spec_as_u8();
        let ghost t = attributes.bits() as u8;
        proof {
            lemma_idt_facts(a, s, i, t, 0, 0);
        }
        r
    }

    /// The descriptor as the processor reads it: the first and the last 8 bytes.
    pub fn as_u64_pair(&self) -> (r: (u64, u64))
        ensures
            r.0 == self.value_low(),
            r.1 == self.value_high(),
    {
        (
            (self.handler_offset_low as u64) | ((self.segment_selector.as_u16() as u64) << 16) | ((
            self.ist.as_u8() as u64) << 32) | ((self.attributes.as_u8() as u64) << 40) | ((
            self.handler_offset_mid as u64) << 48),
            (self.handler_offset_high as u64) | ((self.zero as u64) << 32),
        )
    }
}

/// The register that `lidt` loads: the size of the table less one, and its
/// address.
#[derive(Clone, Copy, Debug)]
pub struct InterruptDescriptorTableRegister {
    pub limit: u16,
    pub base: u64,
}

/// The table of the 256 interrupt descriptors.
#[derive(Clone, Copy, Debug)]
pub struct InterruptDescriptorTable {
    pub interrupts: [InterruptDescriptorTableEntry; 256],
}

/// The attributes `set_interrupt_handler` gives a descriptor: present, of
/// privilege level `dpl` and of type `handler_type`.
pub open spec fn handler_attributes(dpl: ProtectionLevel, handler_type: InterruptType) -> u8 {
    (0x80u8 | (dpl.spec_as_u8() << 5u8) | handler_type.spec_as_u8())
}

/// The fields of the first 8 bytes of a descriptor of the handler at `h`
/// with attributes `0x80 | d << 5 | t`.
proof fn lemma_handler_fields(h: u64, d: u8, t: u8)
    by (bit_vector)
    requires
        d <= 3,
        t <= 15,
    ensures
        idt_entry_low(h, 0x40, 0, 0x80u8 | (d << 5u8) | t) & 0xffff == h & 0xffff,
        (idt_entry_low(h, 0x40, 0, 0x80u8 | (d << 5u8) | t) >> 16u64) & 0xffff == 0x40,
        (idt_entry_low(h, 0x40, 0, 0x80u8 | (d << 5u8) | t) >> 32u64) & 0xff == 0,
        (idt_entry_low(h, 0x40, 0, 0x80u8 | (d << 5u8) | t) >> 40u64) & 0xf == t as u64,
        (idt_entry_low(h, 0x40, 0, 0x80u8 | (d << 5u8) | t) >> 44u64) & 1 == 0,
        (idt_entry_low(h, 0x40, 0, 0x80u8 | (d << 5u8) | t) >> 45u64) & 3 == d as u64,
        (idt_entry_low(h, 0x40, 0, 0x80u8 | (d << 5u8) | t) >> 47u64) & 1 == 1,
        idt_entry_low(h, 0x40, 0, 0x80u8 | (d << 5u8) | t) >> 48u64 == (h >> 16u64) & 0xffff,
{
}

/// The descriptor `set_interrupt_handler` writes: bits 0 to 15 and 48 to 63
/// hold bits 0 to 31 of the handler's address, bits 16 to 31 the kernel code
/// selector 0x40, bits 32 to 39 are zero (no stack switch), bits 40 to 43
/// hold the type, bit 44 is zero, bits 45 and 46 hold the privilege level
/// `dpl`, bit 47 is set (present), and the last 8 bytes hold bits 32 to 63 of
/// the address.
pub proof fn lemma_handler_descriptor(handler: u64, dpl: ProtectionLevel, handler_type: InterruptType)
    ensures
        idt_entry_low(handler, 0x40, 0, handler_attributes(dpl, handler_type)) & 0xffff == handler
            & 0xffff,
        (idt_entry_low(handler, 0x40, 0, handler_attributes(dpl, handler_type)) >> 16u64) & 0xffff
            == 0x40,
        (idt_entry_low(handler, 0x40, 0, handler_attributes(dpl, handler_type)) >> 32u64) & 0xff == 0,
        (idt_entry_low(handler, 0x40, 0, handler_attributes(dpl, handler_type)) >> 40u64) & 0xf
            == handler_type.spec_as_u8() as u64,
        (idt_entry_low(handler, 0x40, 0, handler_attributes(dpl, handler_type)) >> 44u64) & 1 == 0,
        (idt_entry_low(handler, 0x40, 0, handler_attributes(dpl, handler_type)) >> 45u64) & 3
            == dpl.spec_as_u8() as u64,
        (idt_entry_low(handler, 0x40, 0, handler_attributes(dpl, handler_type)) >> 47u64) & 1 == 1,
        idt_entry_low(handler, 0x40, 0, handler_attributes(dpl, handler_type)) >> 48u64 == (handler
            >> 16u64) & 0xffff,
        idt_entry_high(handler) == handler >> 32u64,
{
    lemma_handler_fields(handler, dpl.spec_as_u8(), handler_type.spec_as_u8());
}

impl InterruptDescriptorTable {
    /// Puts the descriptor of the task state segment `tss`, which sits at
    /// `tss_address`, in `gdt`, and gives a table whose 256 descriptors are all
    /// missing, with the selector that `ltr` loads for the task state
    /// segment. The I/O permission map of `tss` must start after the segment.
    pub fn init(gdt: &mut GlobalDescriptorTableLong, tss: &TaskStateSegment, tss_address: u64) -> (r: (
        InterruptDescriptorTable,
        SegmentSelector,
    ))
        requires
            tss.spec_iomb() >= TASK_STATE_SEGMENT_SIZE,
        ensures
            ({
                let d = system_descriptor(
                    tss_address,
                    (TASK_STATE_SEGMENT_SIZE - 1) as u32,
                    SystemSegmentType::TaskStateSegmentAvailable,
                );
                final(gdt).descriptors() == old(gdt).descriptors().take(5).push(d.0).push(d.1)
            }),
            forall|i: int|
                0 <= i < 256 ==> #[trigger] r.0.interrupts@[i].value_low() == 0x0000_0e00_0000_0000
                    && r.0.interrupts@[i].value_high() == 0,
            r.1.bits() == 0x140,
    {
        let tss_descriptor = SystemSegmentDescriptor64::new(
            tss_address,
            (TASK_STATE_SEGMENT_SIZE - 1) as u32,
            SystemSegmentType::TaskStateSegmentAvailable,
        );
        let selector = gdt.load_tss(tss_descriptor);
        let missing = InterruptDescriptorTableEntry::missing();
        let table = InterruptDescriptorTable { interrupts: [missing; 256] };
        (table, selector)
    }

    /// What `lidt` loads to use the table at `base`: its size less one (256
    /// descriptors of 16 bytes) and its address.
    pub fn register(base: u64) -> (r: InterruptDescriptorTableRegister)
        ensures
            r.limit == 4095,
            r.base == base,
    {
        InterruptDescriptorTableRegister { limit: 4095, base }
    }

    /// Sends `routine` to the handler at `handler_address`, on the current
    /// stack, in the kernel code segment, with privilege level `dpl` and the
    /// descriptor type `handler_type`. The other descriptors stay as they were.
    pub fn set_interrupt_handler(
        &mut self,
        routine: Interrupt,
        handler_address: VirtualAddress,
        dpl: ProtectionLevel,
        handler_type: InterruptType,
    )
        ensures
            forall|i: int|
                0 <= i < 256 && i != routine.spec_as_u8() ==> #[trigger] final(self).interrupts@[i]
                    == old(self).interrupts@[i],
            final(self).interrupts@[routine.spec_as_u8() as int].value_low() == idt_entry_low(
                handler_address@,
                0x40,
                0,
                handler_attributes(dpl, handler_type),
            ),
            final(self).interrupts@[routine.spec_as_u8() as int].value_high() == idt_entry_high(
                handler_address@,
            ),
            (final(self).interrupts@[routine.spec_as_u8() as int].value_low() >> 40u64) & 0xf
                == handler_type.spec_as_u8() as u64,
            (final(self).interrupts@[routine.spec_as_u8() as int].value_low() >> 45u64) & 3
                == dpl.spec_as_u8() as u64,
            (final(self).interrupts@[routine.spec_as_u8() as int].value_low() >> 47u64) & 1 == 1,
    {
        proof {
            lemma_handler_descriptor(handler_address@, dpl, handler_type);
        }
        let attributes = InterruptAttributes::new().present(true).dpl(dpl).int_type(handler_type);
        let selector = SegmentSelector::new().rpl(ProtectionLevel::Ring0).section(Sections::KernelCode);
        let entry = InterruptDescriptorTableEntry::new(
            handler_address,
            InterruptStackTable::NoStack,
            attributes,
            selector,
        );
        proof {
            let d = dpl.spec_as_u8();
            let t = handler_type.spec_as_u8();
            lemma_idt_facts(0, 0, 0, 0, d, t);
        }
        self.interrupts[routine.as_u8() as usize] = entry;
    }
}

/// The frame the processor pushes when it takes an interrupt.
#[derive(Clone, Copy, Debug)]
pub struct InterruptStackFrame {
    pub instruction_pointer: VirtualAddress,
    pub code_segment: u64,
    pub cpu_flags: Rflags,
    pub stack_pointer: VirtualAddress,
    pub stack_segment: u64,
}

} // verus!
