//! The state of the modifier keys of the PS/2 keyboard.
use vstd::prelude::*;

use crate::common::bitfield::{
    field_of, lemma_masks, lemma_with_field, lemma_with_field_fits, low_mask, or_field, read_field, set_field_bits,
    set_field_bits_u16, set_field_bits_u32, set_field_bits_u8, with_field, write_field,
    write_field_u16, write_field_u32, write_field_u8,
};

verus! {

/// Which modifier keys of the keyboard are held, and whether caps lock is on.
#[derive(Clone, Copy, Debug, PartialEq, Eq, Structural)]
pub struct KeyboardFlags(u8);

impl KeyboardFlags {
    /// The raw bits of the register.
    pub closed spec fn bits(&self) -> u64 {
        self.0 as u64
    }

    /// A register with every bit cleared.
    pub fn new() -> (r: KeyboardFlags)
        ensures
            r.bits() == 0,
    {
        KeyboardFlags(0)
    }

    /// The register that holds `bits`.
    pub fn from_bits(bits: u8) -> (r: KeyboardFlags)
        ensures
            r.bits() == bits as u64,
    {
        KeyboardFlags(bits)
    }

    /// The raw bits of the register.
    pub fn as_u8(&self) -> (r: u8)
        ensures
            r as u64 == self.bits(),
    {
        self.0
    }

    /// Whether the left shift bit is set.
    pub fn is_lshift_pressed(&self) -> (r: bool)
        ensures
            r == (field_of(self.bits(), 0, 1) == 1),
    {
        read_field(self.0 as u64, 0, 1) == 1
    }

    /// Writes the left shift field, keeping every other bit.
    pub fn set_lshift_pressed(&mut self, v: bool)
        ensures
            final(self).bits() == with_field(old(self).bits(), 0, 1, if v { 1u64 } else { 0u64 }),
    {
        proof {
            lemma_masks();
        }
        self.0 = write_field_u8(self.0, 0, 1, if v { 1u64 } else { 0u64 });
    }

    /// This register with the bits of `v` set in the left shift field.
    pub fn lshift_pressed(self, v: bool) -> (r: KeyboardFlags)
        ensures
            r.bits() == or_field(self.bits(), 0, if v { 1u64 } else { 0u64 }),
    {
        proof {
            lemma_masks();
        }
        KeyboardFlags(set_field_bits_u8(self.0, 0, 1, if v { 1u64 } else { 0u64 }))
    }

    /// Whether the right shift bit is set.
    pub fn is_rshift_pressed(&self) -> (r: bool)
        ensures
            r == (field_of(self.bits(), 1, 1) == 1),
    {
        read_field(self.0 as u64, 1, 1) == 1
    }

    /// Writes the right shift field, keeping every other bit.
    pub fn set_rshift_pressed(&mut self, v: bool)
        ensures
            final(self).bits() == with_field(old(self).bits(), 1, 1, if v { 1u64 } else { 0u64 }),
    {
        proof {
            lemma_masks();
        }
        self.0 = write_field_u8(self.0, 1, 1, if v { 1u64 } else { 0u64 });
    }

    /// This register with the bits of `v` set in the right shift field.
    pub fn rshift_pressed(self, v: bool) -> (r: KeyboardFlags)
        ensures
            r.bits() == or_field(self.bits(), 1, if v { 1u64 } else { 0u64 }),
    {
        proof {
            lemma_masks();
        }
        KeyboardFlags(set_field_bits_u8(self.0, 1, 1, if v { 1u64 } else { 0u64 }))
    }

    /// Whether the left control bit is set.
    pub fn is_lctrl_pressed(&self) -> (r: bool)
        ensures
            r == (field_of(self.bits(), 2, 1) == 1),
    {
        read_field(self.0 as u64, 2, 1) == 1
    }

    /// Writes the left control field, keeping every other bit.
    pub fn set_lctrl_pressed(&mut self, v: bool)
        ensures
            final(self).bits() == with_field(old(self).bits(), 2, 1, if v { 1u64 } else { 0u64 }),
    {
        proof {
            lemma_masks();
        }
        self.0 = write_field_u8(self.0, 2, 1, if v { 1u64 } else { 0u64 });
    }

    /// This register with the bits of `v` set in the left control field.
    pub fn lctrl_pressed(self, v: bool) -> (r: KeyboardFlags)
        ensures
            r.bits() == or_field(self.bits(), 2, if v { 1u64 } else { 0u64 }),
    {
        proof {
            lemma_masks();
        }
        KeyboardFlags(set_field_bits_u8(self.0, 2, 1, if v { 1u64 } else { 0u64 }))
    }

    /// Whether the super key bit is set.
    pub fn is_superkey_pressed(&self) -> (r: bool)
        ensures
            r == (field_of(self.bits(), 3, 1) == 1),
    {
        read_field(self.0 as u64, 3, 1) == 1
    }

    /// Writes the super key field, keeping every other bit.
    pub fn set_superkey_pressed(&mut self, v: bool)
        ensures
            final(self).bits() == with_field(old(self).bits(), 3, 1, if v { 1u64 } else { 0u64 }),
    {
        proof {
            lemma_masks();
        }
        self.0 = write_field_u8(self.0, 3, 1, if v { 1u64 } else { 0u64 });
    }

    /// This register with the bits of `v` set in the super key field.
    pub fn superkey_pressed(self, v: bool) -> (r: KeyboardFlags)
        ensures
            r.bits() == or_field(self.bits(), 3, if v { 1u64 } else { 0u64 }),
    {
        proof {
            lemma_masks();
        }
        KeyboardFlags(set_field_bits_u8(self.0, 3, 1, if v { 1u64 } else { 0u64 }))
    }

    /// Whether the caps lock bit is set.
    pub fn is_capslock_pressed(&self) -> (r: bool)
        ensures
            r == (field_of(self.bits(), 4, 1) == 1),
    {
        read_field(self.0 as u64, 4, 1) == 1
    }

    /// Writes the caps lock field, keeping every other bit.
    pub fn set_capslock_pressed(&mut self, v: bool)
        ensures
            final(self).bits() == with_field(old(self).bits(), 4, 1, if v { 1u64 } else { 0u64 }),
    {
        proof {
            lemma_masks();
        }
        self.0 = write_field_u8(self.0, 4, 1, if v { 1u64 } else { 0u64 });
    }

    /// This register with the bits of `v` set in the caps lock field.
    pub fn capslock_pressed(self, v: bool) -> (r: KeyboardFlags)
        ensures
            r.bits() == or_field(self.bits(), 4, if v { 1u64 } else { 0u64 }),
    {
        proof {
            lemma_masks();
        }
        KeyboardFlags(set_field_bits_u8(self.0, 4, 1, if v { 1u64 } else { 0u64 }))
    }


}

use crate::common::ring_buffer::RingBuffer;

/// A key event that the keyboard's interrupt handler follows: a modifier key
/// pressed or released, caps lock pressed, or any other key.
#[derive(Clone, Copy, Debug, PartialEq, Eq, Structural)]
pub enum ModifierEvent {
    LeftShift,
    ReleasedLeftShift,
    RightShift,
    ReleasedRightShift,
    LeftCtrl,
    ReleasedLeftCtrl,
    SuperKey,
    ReleasedSuperKey,
    CapsLock,
    Other,
}

/// The bits of the flags after `event`: a modifier key sets its field when
/// pressed and clears it when released, caps lock flips its field, any other
/// key leaves the flags as they are.
pub open spec fn after_event(bits: u64, event: ModifierEvent) -> u64 {
    match event {
        ModifierEvent::LeftShift => with_field(bits, 0, 1, 1),
        ModifierEvent::ReleasedLeftShift => with_field(bits, 0, 1, 0),
        ModifierEvent::RightShift => with_field(bits, 1, 1, 1),
        ModifierEvent::ReleasedRightShift => with_field(bits, 1, 1, 0),
        ModifierEvent::LeftCtrl => with_field(bits, 2, 1, 1),
        ModifierEvent::ReleasedLeftCtrl => with_field(bits, 2, 1, 0),
        ModifierEvent::SuperKey => with_field(bits, 3, 1, 1),
        ModifierEvent::ReleasedSuperKey => with_field(bits, 3, 1, 0),
        ModifierEvent::CapsLock => with_field(bits, 4, 1, if field_of(bits, 4, 1) == 1 { 0 } else { 1 }),
        ModifierEvent::Other => bits,
    }
}

/// The bit arithmetic of the key events on a byte of flags.
proof fn lemma_event_bits(b: u64)
    by (bit_vector)
    requires
        b < 0x100,
    ensures
        with_field(b, 0, 1, 1) == b | 1,
        with_field(b, 0, 1, 0) == b & 0xfe,
        with_field(b, 1, 1, 1) == b | 2,
        with_field(b, 1, 1, 0) == b & 0xfd,
        with_field(b, 2, 1, 1) == b | 4,
        with_field(b, 2, 1, 0) == b & 0xfb,
        with_field(b, 3, 1, 1) == b | 8,
        with_field(b, 3, 1, 0) == b & 0xf7,
        with_field(b, 4, 1, if field_of(b, 4, 1) == 1 { 0 } else { 1 }) == b ^ 0x10,
{
}

/// Each key event acts on its own bit of the flags and leaves the others as
/// they are: pressing left shift, right shift, left control or the super key
/// sets bit 0, 1, 2 or 3, releasing it clears that bit, caps lock flips bit
/// 4, and any other key changes nothing.
pub proof fn lemma_event_acts_on_its_bit(flags: KeyboardFlags)
    ensures
        after_event(flags.bits(), ModifierEvent::LeftShift) == flags.bits() | 1,
        after_event(flags.bits(), ModifierEvent::ReleasedLeftShift) == flags.bits() & 0xfe,
        after_event(flags.bits(), ModifierEvent::RightShift) == flags.bits() | 2,
        after_event(flags.bits(), ModifierEvent::ReleasedRightShift) == flags.bits() & 0xfd,
        after_event(flags.bits(), ModifierEvent::LeftCtrl) == flags.bits() | 4,
        after_event(flags.bits(), ModifierEvent::ReleasedLeftCtrl) == flags.bits() & 0xfb,
        after_event(flags.bits(), ModifierEvent::SuperKey) == flags.bits() | 8,
        after_event(flags.bits(), ModifierEvent::ReleasedSuperKey) == flags.bits() & 0xf7,
        after_event(flags.bits(), ModifierEvent::CapsLock) == flags.bits() ^ 0x10,
        after_event(flags.bits(), ModifierEvent::Other) == flags.bits(),
{
    lemma_event_bits(flags.bits());
}

impl KeyboardFlags {
    /// Follows `event`, as the keyboard's interrupt handler does.
    pub fn on_event(&mut self, event: ModifierEvent)
        ensures
            final(self).bits() == after_event(old(self).bits(), event),
    {
        match event {
            ModifierEvent::LeftShift => self.set_lshift_pressed(true),
            ModifierEvent::ReleasedLeftShift => self.set_lshift_pressed(false),
            ModifierEvent::RightShift => self.set_rshift_pressed(true),
            ModifierEvent::ReleasedRightShift => self.set_rshift_pressed(false),
            ModifierEvent::LeftCtrl => self.set_lctrl_pressed(true),
            ModifierEvent::ReleasedLeftCtrl => self.set_lctrl_pressed(false),
            ModifierEvent::SuperKey => self.set_superkey_pressed(true),
            ModifierEvent::ReleasedSuperKey => self.set_superkey_pressed(false),
            ModifierEvent::CapsLock => {
                let on = self.is_capslock_pressed();
                self.set_capslock_pressed(on ^ true);
            },
            ModifierEvent::Other => {},
        }
    }

    /// Whether a key reads as its shifted character: either shift is held or
    /// caps lock is on.
    pub fn shifted(&self) -> (r: bool)
        ensures
            r == (field_of(self.bits(), 0, 1) == 1 || field_of(self.bits(), 1, 1) == 1 || field_of(
                self.bits(),
                4,
                1,
            ) == 1),
    {
        self.is_lshift_pressed() || self.is_rshift_pressed() || self.is_capslock_pressed()
    }
}

/// The keyboard: the scan codes its interrupt handler kept and nobody read
/// yet, and the state of the modifier keys.
pub struct Keyboard {
    pub scan_codes: RingBuffer<u8>,
    pub flags: KeyboardFlags,
}

impl Keyboard {
    /// A keyboard that keeps its scan codes in `buffer`, with none kept yet
    /// and no modifier key held.
    pub fn new(buffer: Vec<u8>) -> (r: Keyboard)
        ensures
            r.scan_codes.wf(),
            r.scan_codes.contents() == buffer@,
            r.scan_codes.pending() == Seq::<u8>::empty(),
            r.flags.bits() == 0,
    {
        Keyboard { scan_codes: RingBuffer::new(buffer), flags: KeyboardFlags::new() }
    }

    /// What the interrupt handler does with `scan_code`, the code of
    /// `event`: keeps the code and follows the event.
    pub fn on_scan_code(&mut self, scan_code: u8, event: ModifierEvent)
        requires
            old(self).scan_codes.wf(),
            old(self).scan_codes.capacity() > 0,
        ensures
            final(self).scan_codes.wf(),
            final(self).scan_codes.capacity() == old(self).scan_codes.capacity(),
            old(self).scan_codes.pending_len() < old(self).scan_codes.capacity() - 1
                ==> final(self).scan_codes.pending() == old(self).scan_codes.pending().push(scan_code),
            old(self).scan_codes.pending_len() == old(self).scan_codes.capacity() - 1
                ==> final(self).scan_codes.pending() == Seq::<u8>::empty(),
            final(self).flags.bits() == after_event(old(self).flags.bits(), event),
    {
        self.scan_codes.write(scan_code);
        self.flags.on_event(event);
    }

    /// The oldest scan code kept and not read yet, if any.
    pub fn read_raw_scancode(&mut self) -> (r: Option<u8>)
        requires
            old(self).scan_codes.wf(),
        ensures
            final(self).scan_codes.wf(),
            final(self).flags == old(self).flags,
            old(self).scan_codes.pending().len() == 0 ==> r is None && final(self).scan_codes.pending()
                == old(self).scan_codes.pending(),
            old(self).scan_codes.pending().len() > 0 ==> r == Some(old(self).scan_codes.pending()[0])
                && final(self).scan_codes.pending() == old(self).scan_codes.pending().drop_first(),
    {
        self.scan_codes.read()
    }
}

} // verus!
