//! The VGA text screen: cells of an ASCII byte and its colours, and the
//! cursor that writes move.
use vstd::prelude::*;

use crate::common::bitfield::{
    field_of, lemma_masks, lemma_with_field, lemma_with_field_fits, low_mask, or_field, read_field, set_field_bits,
    set_field_bits_u16, set_field_bits_u32, set_field_bits_u8, with_field, write_field,
    write_field_u16, write_field_u32, write_field_u8,
};
use crate::common::enums::{Color, Port, VgaCommand};
use crate::x86::pic::{write_of, PortWrite};

verus! {

/// The colours of a cell of the VGA text buffer: the foreground in the low nibble, the background in the high one.
#[derive(Clone, Copy, Debug, PartialEq, Eq, Structural)]
pub struct ColorCode(u8);

impl ColorCode {
    /// The raw bits of the register.
    pub closed spec fn bits(&self) -> u64 {
        self.0 as u64
    }

    /// A register with every bit cleared.
    pub fn new() -> (r: ColorCode)
        ensures
            r.bits() == 0,
    {
        ColorCode(0)
    }

    /// The register that holds `bits`.
    pub fn from_bits(bits: u8) -> (r: ColorCode)
        ensures
            r.bits() == bits as u64,
    {
        ColorCode(bits)
    }

    /// The raw bits of the register.
    pub fn as_u8(&self) -> (r: u8)
        ensures
            r as u64 == self.bits(),
    {
        self.0
    }

    /// The foreground colour field; it must hold a value that a variant of `Color` stands for.
    pub fn get_foreground(&self) -> (r: Color)
        requires
            Color::spec_from_u8(field_of(self.bits(), 0, 4) as u8) is Some,
        ensures
            r.spec_as_u8() as u64 == field_of(self.bits(), 0, 4),
    {
        let field = read_field(self.0 as u64, 0, 4);
        proof {
            lemma_masks();
        }
        let raw = field as u8;
        match Color::try_from_u8(raw) {
            Ok(v) => v,
            Err(_) => vstd::pervasive::unreached(),
        }
    }

    /// Writes the foreground colour field, keeping every other bit.
    pub fn set_foreground(&mut self, v: Color)
        ensures
            final(self).bits() == with_field(old(self).bits(), 0, 4, v.spec_as_u8() as u64),
    {
        proof {
            lemma_masks();
        }
        self.0 = write_field_u8(self.0, 0, 4, v.as_u8() as u64);
    }

    /// This register with the bits of `v` set in the foreground colour field.
    pub fn foreground(self, v: Color) -> (r: ColorCode)
        ensures
            r.bits() == or_field(self.bits(), 0, v.spec_as_u8() as u64),
    {
        proof {
            lemma_masks();
        }
        ColorCode(set_field_bits_u8(self.0, 0, 4, v.as_u8() as u64))
    }

    /// The background colour field; it must hold a value that a variant of `Color` stands for.
    pub fn get_background(&self) -> (r: Color)
        requires
            Color::spec_from_u8(field_of(self.bits(), 4, 4) as u8) is Some,
        ensures
            r.spec_as_u8() as u64 == field_of(self.bits(), 4, 4),
    {
        let field = read_field(self.0 as u64, 4, 4);
        proof {
            lemma_masks();
        }
        let raw = field as u8;
        match Color::try_from_u8(raw) {
            Ok(v) => v,
            Err(_) => vstd::pervasive::unreached(),
        }
    }

    /// Writes the background colour field, keeping every other bit.
    pub fn set_background(&mut self, v: Color)
        ensures
            final(self).bits() == with_field(old(self).bits(), 4, 4, v.spec_as_u8() as u64),
    {
        proof {
            lemma_masks();
        }
        self.0 = write_field_u8(self.0, 4, 4, v.as_u8() as u64);
    }

    /// This register with the bits of `v` set in the background colour field.
    pub fn background(self, v: Color) -> (r: ColorCode)
        ensures
            r.bits() == or_field(self.bits(), 4, v.spec_as_u8() as u64),
    {
        proof {
            lemma_masks();
        }
        ColorCode(set_field_bits_u8(self.0, 4, 4, v.as_u8() as u64))
    }


}

/// The bits of white, red and yellow on black.
pub proof fn lemma_on_black_bits()
    by (bit_vector)
    ensures
        or_field(or_field(0, 0, 15), 4, 0) == 0x0f,
        or_field(or_field(0, 0, 4), 4, 0) == 0x04,
        or_field(or_field(0, 0, 14), 4, 0) == 0x0e,
{
}

impl ColorCode {
    /// White on black.
    pub fn default() -> (r: ColorCode)
        ensures
            r.bits() == 0x0f,
    {
        let r = ColorCode::new().foreground(Color::White).background(Color::Black);
        proof {
            lemma_on_black_bits();
        }
        r
    }

    /// The colour code whose bits are `bits`.
    pub closed spec fn of_bits(bits: u8) -> ColorCode {
        ColorCode(bits)
    }

    /// A colour code is the one of its bits.
    pub proof fn lemma_of_bits(c: ColorCode, bits: u8)
        ensures
            ColorCode::of_bits(bits).bits() == bits,
            c.bits() == bits ==> c == ColorCode::of_bits(bits),
    {
    }
}

/// A character cell of the VGA text buffer: an ASCII byte and its colours.
#[derive(Clone, Copy, Debug)]
pub struct ScreenChar {
    pub char: u8,
    pub color_code: ColorCode,
}

/// The line feed character.
pub const LINE_FEED: u8 = 0x0a;

/// The backspace character.
pub const BACKSPACE: u8 = 0x08;

/// The delete character.
pub const DELETE: u8 = 0x7f;

/// The space character.
pub const SPACE: u8 = 0x20;

/// A blank cell: a space, white on black.
pub open spec fn blank(c: ScreenChar) -> bool {
    c.char == SPACE && c.color_code.bits() == 0x0f
}

impl ScreenChar {
    /// The cell that shows `char` with `color`.
    pub fn new(char: u8, color: ColorCode) -> (r: ScreenChar)
        ensures
            r.char == char,
            r.color_code == color,
    {
        ScreenChar { char, color_code: color }
    }

    /// A blank cell: a space, white on black.
    pub fn default() -> (r: ScreenChar)
        ensures
            blank(r),
            r == blank_cell(),
    {
        ScreenChar { char: SPACE, color_code: ColorCode::default() }
    }
}

/// Where a write left the cursor.
#[derive(Clone, Copy, Debug, PartialEq, Eq, Structural)]
pub enum WriteInfo {
    /// Reached the end of the screen.
    EndOfScreen,
    /// Write was on the same line.
    SameLine,
    /// Went one line up
    LineUp,
    /// Went one line down
    LineDown,
}

/// The text screen: a buffer of `width` times `height` cells and the
/// position of the cursor in it.
#[derive(Clone, Debug)]
pub struct Screen {
    buffer: Vec<ScreenChar>,
    screen_position: usize,
    pub width: usize,
    pub height: usize,
}

/// The blank cell: a space, white on black.
pub closed spec fn blank_cell() -> ScreenChar {
    ScreenChar { char: SPACE, color_code: ColorCode(0x0f) }
}

/// `cells` with the cells from `from` up to `to` blank, the others unchanged.
pub open spec fn blank_range(cells: Seq<ScreenChar>, from: int, to: int) -> Seq<ScreenChar> {
    Seq::new(cells.len(), |i: int| if from <= i < to { blank_cell() } else { cells[i] })
}

/// What a screen holds: its cells, the position of its cursor, and its size.
pub struct ScreenState {
    pub cells: Seq<ScreenChar>,
    pub position: int,
    pub width: int,
    pub height: int,
}

impl ScreenState {
    /// The same screen with `cells` and the cursor at `position`.
    pub open spec fn with(self, cells: Seq<ScreenChar>, position: int) -> ScreenState {
        ScreenState { cells, position, width: self.width, height: self.height }
    }

    /// A line feed: the rest of the line from the cursor is blank, and the
    /// cursor is at the start of the next line, or on the last cell when
    /// there is no next line.
    pub open spec fn after_new_line(self) -> (ScreenState, WriteInfo) {
        let p = self.position;
        let next = p + (self.width - p % self.width);
        let cells = blank_range(self.cells, p, next);
        if next >= self.cells.len() {
            (self.with(cells, self.cells.len() - 1), WriteInfo::EndOfScreen)
        } else {
            (self.with(cells, next), WriteInfo::LineUp)
        }
    }

    /// A backspace: when the cursor is not at the start, it goes back one
    /// cell and that cell is blank; the move is a line down when it crosses
    /// to the end of the line before.
    pub open spec fn after_backspace(self) -> (ScreenState, WriteInfo) {
        let p = self.position;
        if p > 0 {
            (
                self.with(blank_range(self.cells, p - 1, p), p - 1),
                if (p - 1) % self.width == self.width - 1 {
                    WriteInfo::LineDown
                } else {
                    WriteInfo::SameLine
                },
            )
        } else {
            (self, WriteInfo::SameLine)
        }
    }

    /// Writing `c`: a line feed and a backspace or delete act as above; any
    /// other character is stored at the cursor, which advances, unless the
    /// cursor is past the end of the screen.
    pub open spec fn after_write(self, c: ScreenChar) -> (ScreenState, WriteInfo) {
        if c.char == LINE_FEED {
            self.after_new_line()
        } else if c.char == BACKSPACE || c.char == DELETE {
            self.after_backspace()
        } else if self.position < self.cells.len() {
            (
                self.with(self.cells.update(self.position, c), self.position + 1),
                if (self.position + 1) % self.width == 0 {
                    WriteInfo::LineUp
                } else {
                    WriteInfo::SameLine
                },
            )
        } else {
            (self, WriteInfo::EndOfScreen)
        }
    }
}

/// A backspace right after writing a character takes the cursor back to
/// where it was, and that cell is blank where the character was written.
pub proof fn lemma_write_then_backspace(s: ScreenState, c: ScreenChar)
    requires
        s.width > 0,
        0 <= s.position < s.cells.len(),
        c.char != LINE_FEED && c.char != BACKSPACE && c.char != DELETE,
    ensures
        s.after_write(c).0.after_backspace().0.position == s.position,
        s.after_write(c).0.after_backspace().0.cells == s.cells.update(s.position, blank_cell()),
{
    let s1 = s.after_write(c).0;
    let s2 = s1.after_backspace().0;
    assert(s2.cells =~= s.cells.update(s.position, blank_cell()));
}

impl View for Screen {
    type V = ScreenState;

    open spec fn view(&self) -> ScreenState {
        ScreenState {
            cells: self.cells(),
            position: self.position() as int,
            width: self.spec_width() as int,
            height: self.spec_height() as int,
        }
    }
}

impl Screen {
    /// The cells of the screen.
    pub closed spec fn cells(&self) -> Seq<ScreenChar> {
        self.buffer@
    }

    /// The number of cells of a line.
    pub closed spec fn spec_width(&self) -> usize {
        self.width
    }

    /// The number of lines.
    pub closed spec fn spec_height(&self) -> usize {
        self.height
    }

    /// The position of the cursor.
    pub closed spec fn position(&self) -> usize {
        self.screen_position
    }

    /// The buffer holds `width` times `height` cells, and the cursor is in
    /// it or just past its end.
    pub open spec fn wf(&self) -> bool {
        &&& self.spec_width() > 0
        &&& self.cells().len() == self.spec_width() * self.spec_height()
        &&& self.position() <= self.cells().len()
    }

    /// A screen over the cells of `buffer`, `width` by `height`, with the
    /// cursor at the top left.
    pub fn from_buffer(buffer: Vec<ScreenChar>, width: usize, height: usize) -> (r: Screen)
        requires
            width > 0,
            buffer@.len() == width * height,
        ensures
            r.wf(),
            r.cells() == buffer@,
            r.position() == 0,
            r.spec_width() == width,
            r.spec_height() == height,
    {
        Screen { buffer, screen_position: 0, width, height }
    }

    /// Writes `c` at the cursor. A line feed moves to the next line, a
    /// backspace or a delete erases the cell before the cursor, any other
    /// character is stored and the cursor advances, unless the cursor is past
    /// the end of the screen.
    pub fn write_char(&mut self, c: ScreenChar) -> (r: WriteInfo)
        requires
            old(self).wf(),
            c.char == LINE_FEED ==> old(self).position() < old(self).cells().len(),
        ensures
            final(self).wf(),
            (final(self)@, r) == old(self)@.after_write(c),
    {
        if c.char == LINE_FEED {
            self.new_line()
        } else if c.char == BACKSPACE || c.char == DELETE {
            self.backspace()
        } else {
            if self.screen_position < self.buffer.len() {
                let p = self.screen_position;
                self.buffer.set(p, c);
                self.screen_position = p + 1;
                if self.screen_position % self.width == 0 {
                    WriteInfo::LineUp
                } else {
                    WriteInfo::SameLine
                }
            } else {
                WriteInfo::EndOfScreen
            }
        }
    }

    /// Blanks the rest of the line from the cursor and moves the cursor to
    /// the start of the next line, or to the last cell when there is no next
    /// line.
    pub fn new_line(&mut self) -> (r: WriteInfo)
        requires
            old(self).wf(),
            old(self).position() < old(self).cells().len(),
        ensures
            final(self).wf(),
            (final(self)@, r) == old(self)@.after_new_line(),
    {
        let len = self.buffer.len();
        let offset = self.screen_position % self.width;
        proof {
            lemma_line_end(self.screen_position as int, self.width as int, self.height as int);
        }
        let from = self.screen_position;
        let to = self.screen_position + (self.width - offset);
        self.blank_cells(from, to);
        let new_position = to;
        if new_position >= len {
            self.screen_position = len - 1;
            WriteInfo::EndOfScreen
        } else {
            self.screen_position = new_position;
            WriteInfo::LineUp
        }
    }

    /// Erases the cell before the cursor and moves the cursor onto it, when
    /// the cursor is not at the start.
    pub fn backspace(&mut self) -> (r: WriteInfo)
        requires
            old(self).wf(),
        ensures
            final(self).wf(),
            (final(self)@, r) == old(self)@.after_backspace(),
    {
        if self.screen_position > 0 {
            self.screen_position = self.screen_position - 1;
            let p = self.screen_position;
            self.buffer.set(p, ScreenChar::default());
            assert(self.buffer@ =~= blank_range(old(self).buffer@, p as int, p + 1));
            if self.screen_position % self.width == self.width - 1 {
                return WriteInfo::LineDown;
            }
        }
        WriteInfo::SameLine
    }

    /// The position of the cursor.
    pub fn cursor(&self) -> (r: usize)
        ensures
            r == self@.position,
    {
        self.screen_position
    }

    /// The cell at `index`.
    pub fn cell(&self, index: usize) -> (r: ScreenChar)
        requires
            index < self@.cells.len(),
        ensures
            r == self@.cells[index as int],
    {
        self.buffer[index]
    }

    /// The port writes that move the hardware cursor to the cursor: the low
    /// byte of the position, then the high byte.
    pub fn cursor_position_writes(&self) -> (r: Vec<PortWrite>)
        ensures
            r@ == seq![
                write_of(Port::VgaControl, 0x0f, false),
                write_of(Port::VgaData, (self.position() & 0xff) as u8, false),
                write_of(Port::VgaControl, 0x0e, false),
                write_of(Port::VgaData, ((self.position() >> 8usize) & 0xff) as u8, false),
            ],
    {
        let p = self.screen_position;
        let mut r: Vec<PortWrite> = Vec::new();
        r.push(PortWrite { port: Port::VgaControl, value: VgaCommand::CursorOffsetLow.as_u8(), wait: false });
        r.push(PortWrite { port: Port::VgaData, value: (p & 0xff) as u8, wait: false });
        r.push(PortWrite { port: Port::VgaControl, value: VgaCommand::CursorOffsetHigh.as_u8(), wait: false });
        r.push(PortWrite { port: Port::VgaData, value: ((p >> 8) & 0xff) as u8, wait: false });
        assert(r@ =~= seq![
            write_of(Port::VgaControl, 0x0f, false),
            write_of(Port::VgaData, (self.position() & 0xff) as u8, false),
            write_of(Port::VgaControl, 0x0e, false),
            write_of(Port::VgaData, ((self.position() >> 8usize) & 0xff) as u8, false),
        ]);
        r
    }

    /// Blanks the cells from `from` to `to`.
    fn blank_cells(&mut self, from: usize, to: usize)
        requires
            old(self).wf(),
            from <= to <= old(self).cells().len(),
        ensures
            final(self).wf(),
            final(self)@ == old(self)@.with(blank_range(old(self)@.cells, from as int, to as int), old(self)@.position),
    {
        let ghost b0 = self.buffer@;
        let ghost s0 = *self;
        let mut i = from;
        while i < to
            invariant
                from <= i <= to,
                to <= self.buffer@.len(),
                self.width == s0.width,
                self.height == s0.height,
                self.screen_position == s0.screen_position,
                s0.wf(),
                s0.buffer@ == b0,
                self.buffer@ == blank_range(b0, from as int, i as int),
            decreases to - i,
        {
            self.buffer.set(i, ScreenChar::default());
            assert(self.buffer@ =~= blank_range(b0, from as int, i + 1));
            i = i + 1;
        }
        assert(self@ =~= old(self)@.with(blank_range(old(self)@.cells, from as int, to as int), old(self)@.position));
    }

    /// Blanks the last `lines` lines.
    pub fn scroll_up(&mut self, lines: usize)
        requires
            old(self).wf(),
            lines * old(self).spec_width() <= old(self).cells().len(),
        ensures
            final(self).wf(),
            final(self)@ == old(self)@.with(
                blank_range(old(self)@.cells, old(self)@.cells.len() - lines * old(self)@.width, old(self)@.cells.len() as int),
                old(self)@.position,
            ),
    {
        let len = self.buffer.len();
        let anchor = lines * self.width;
        self.blank_cells(len - anchor, len);
    }

    /// Blanks the first `lines` lines.
    pub fn scroll_down(&mut self, lines: usize)
        requires
            old(self).wf(),
            lines * old(self).spec_width() <= old(self).cells().len(),
        ensures
            final(self).wf(),
            final(self)@ == old(self)@.with(blank_range(old(self)@.cells, 0, lines * old(self)@.width), old(self)@.position),
    {
        let len = self.buffer.len();
        let anchor = lines * self.width;
        self.blank_cells(0, anchor);
    }

    /// Moves the cursor to the top left.
    pub fn reset_cursor(&mut self)
        requires
            old(self).wf(),
        ensures
            final(self).wf(),
            final(self)@ == old(self)@.with(old(self)@.cells, 0),
    {
        self.screen_position = 0;
    }

    /// Blanks every cell.
    pub fn clear(&mut self)
        requires
            old(self).wf(),
        ensures
            final(self).wf(),
            final(self)@ == old(self)@.with(blank_range(old(self)@.cells, 0, old(self)@.cells.len() as int), old(self)@.position),
    {
        let len = self.buffer.len();
        self.blank_cells(0, len);
    }
}

/// The line of a cell that is on the screen ends on the screen.
/// A cell lies on the line of the cursor, at the cursor or after it, exactly
/// when it lies from the cursor up to the start of the next line.
proof fn lemma_rest_of_line(p: int, w: int, i: int)
    requires
        w > 0,
        0 <= p,
        0 <= i,
    ensures
        p + (w - p % w) == (p / w + 1) * w,
        (p <= i && i / w == p / w) <==> (p <= i < p + (w - p % w)),
{
    assert(p == (p / w) * w + p % w && 0 <= p % w < w) by (nonlinear_arith)
        requires
            w > 0,
            0 <= p,
    ;
    assert(i == (i / w) * w + i % w && 0 <= i % w < w) by (nonlinear_arith)
        requires
            w > 0,
            0 <= i,
    ;
    let q = p / w;
    let r = i / w;
    assert(p + (w - p % w) == (q + 1) * w) by (nonlinear_arith)
        requires
            p == q * w + p % w,
    ;
    if p <= i && i < (q + 1) * w {
        assert(r == q) by (nonlinear_arith)
            requires
                w > 0,
                i == r * w + i % w,
                0 <= i % w < w,
                q * w <= i < (q + 1) * w,
        ;
    }
    if p <= i && r == q {
        assert(i < (q + 1) * w) by (nonlinear_arith)
            requires
                i == r * w + i % w,
                i % w < w,
                r == q,
        ;
    }
}

/// A line feed blanks every cell of the cursor's line from the cursor to
/// the end of the line, keeps every other cell, and puts the cursor at the
/// start of the next line (a line up), or on the last cell when the cursor
/// was on the last line (the end of the screen).
pub proof fn lemma_line_feed_blanks_rest_of_line(s: ScreenState)
    requires
        s.width > 0,
        0 <= s.position < s.cells.len(),
    ensures
        s.after_new_line().0.cells.len() == s.cells.len(),
        s.after_new_line().0.width == s.width,
        s.after_new_line().0.height == s.height,
        forall|i: int|
            0 <= i < s.cells.len() && s.position <= i && i / s.width == s.position / s.width
                ==> blank(#[trigger] s.after_new_line().0.cells[i]),
        forall|i: int|
            0 <= i < s.cells.len() && !(s.position <= i && i / s.width == s.position / s.width)
                ==> #[trigger] s.after_new_line().0.cells[i] == s.cells[i],
        (s.position / s.width + 1) * s.width < s.cells.len() ==> s.after_new_line().0.position == (
        s.position / s.width + 1) * s.width && s.after_new_line().1 == WriteInfo::LineUp,
        (s.position / s.width + 1) * s.width >= s.cells.len() ==> s.after_new_line().0.position
            == s.cells.len() - 1 && s.after_new_line().1 == WriteInfo::EndOfScreen,
{
    let t = s.after_new_line().0;
    lemma_rest_of_line(s.position, s.width, 0);
    assert forall|i: int|
        0 <= i < s.cells.len() && s.position <= i && i / s.width == s.position / s.width implies blank(
        #[trigger] t.cells[i]) by {
        lemma_rest_of_line(s.position, s.width, i);
    }
    assert forall|i: int|
        0 <= i < s.cells.len() && !(s.position <= i && i / s.width == s.position / s.width)
            implies #[trigger] t.cells[i] == s.cells[i] by {
        lemma_rest_of_line(s.position, s.width, i);
    }
}

proof fn lemma_line_end(p: int, w: int, h: int)
    requires
        w > 0,
        h >= 0,
        0 <= p < w * h,
    ensures
        p + (w - p % w) <= w * h,
        0 <= p % w < w,
{
    assert(p + (w - p % w) <= w * h) by (nonlinear_arith)
        requires
            w > 0,
            0 <= p < w * h,
    {
        let q = p / w;
        assert(p == q * w + p % w);
        assert(q < h) by {
            if q >= h {
                assert(q * w >= h * w);
            }
        }
        assert((q + 1) * w <= h * w);
    }
}

} // verus!
