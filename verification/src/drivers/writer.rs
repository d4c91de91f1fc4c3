//! A writer that puts text straight on the screen, in a colour of its own.
use vstd::prelude::*;

use crate::common::enums::Color;
use crate::drivers::generic_writer::GenericWriter;
use crate::drivers::vga::{
    blank_range, lemma_on_black_bits, ColorCode, Screen, ScreenChar, ScreenState, BACKSPACE, DELETE,
    LINE_FEED,
};

verus! {

/// The screen after writing the byte `b` in `color`: a delete or a
/// backspace erases the cell before the cursor, a line feed or a character
/// that is not a control character is written, any other byte is dropped.
pub open spec fn after_byte(screen: ScreenState, b: u8, color: ColorCode) -> ScreenState {
    if b == DELETE || b == BACKSPACE {
        screen.after_backspace().0
    } else if b >= 0x20 || b == LINE_FEED {
        screen.after_write(ScreenChar { char: b, color_code: color }).0
    } else {
        screen
    }
}

/// The screen after writing each byte of `text` in turn.
pub open spec fn after_text(screen: ScreenState, text: Seq<u8>, color: ColorCode) -> ScreenState
    decreases text.len(),
{
    if text.len() == 0 {
        screen
    } else {
        after_text(after_byte(screen, text[0], color), text.drop_first(), color)
    }
}

/// Writing `text` in turn brings no line feed while the cursor is past the
/// last cell (the screen cannot take one there).
pub open spec fn text_fits(screen: ScreenState, text: Seq<u8>, color: ColorCode) -> bool
    decreases text.len(),
{
    if text.len() == 0 {
        true
    } else {
        &&& text[0] == LINE_FEED ==> screen.position < screen.cells.len()
        &&& text_fits(after_byte(screen, text[0], color), text.drop_first(), color)
    }
}

/// The bytes of an ASCII text.
pub open spec fn ascii_bytes(text: Seq<char>) -> Seq<u8> {
    text.map_values(|c: char| c as u8)
}

/// The bytes that open a failure message: a line feed and an opening bracket.
pub open spec fn fail_open() -> Seq<u8> {
    seq![0x0au8, 0x5bu8]
}

/// The word of a failure message, with a space on each side.
pub open spec fn fail_word() -> Seq<u8> {
    seq![0x20u8, 0x46u8, 0x41u8, 0x49u8, 0x4cu8, 0x20u8]
}

/// The bytes that close the word of a failure message: a closing bracket, a
/// colon and a space.
pub open spec fn fail_close() -> Seq<u8> {
    seq![0x5du8, 0x3au8, 0x20u8]
}

/// The screen after a failure message with `message`: the opening in yellow,
/// the word in red, then the closing and the message in yellow.
pub open spec fn after_failure(screen: ScreenState, message: Seq<u8>) -> ScreenState {
    let yellow = ColorCode::of_bits(0x0e);
    let red = ColorCode::of_bits(0x04);
    after_text(after_text(after_text(screen, fail_open(), yellow), fail_word(), red), fail_close() + message, yellow)
}

/// A failure message with `message` brings no line feed while the cursor is
/// past the last cell.
pub open spec fn failure_fits(screen: ScreenState, message: Seq<u8>) -> bool {
    let yellow = ColorCode::of_bits(0x0e);
    let red = ColorCode::of_bits(0x04);
    let opened = after_text(screen, fail_open(), yellow);
    let worded = after_text(opened, fail_word(), red);
    &&& text_fits(screen, fail_open(), yellow)
    &&& text_fits(opened, fail_word(), red)
    &&& text_fits(worded, fail_close() + message, yellow)
}

/// A writer that puts text straight on a screen of `W` by `H` cells.
pub struct SimpleWriter<const W: usize, const H: usize> {
    pub color: ColorCode,
}

impl<const W: usize, const H: usize> SimpleWriter<W, H> {
    /// A writer in white on black.
    pub fn default() -> (r: Self)
        ensures
            r.color.bits() == 0x0f,
    {
        SimpleWriter { color: ColorCode::default() }
    }

    /// Writes the byte `b` in the writer's colour.
    fn put_byte(&self, screen: &mut Screen, b: u8)
        requires
            old(screen).wf(),
            b == LINE_FEED ==> old(screen)@.position < old(screen)@.cells.len(),
        ensures
            final(screen).wf(),
            final(screen)@ == after_byte(old(screen)@, b, self.color),
    {
        if b == DELETE || b == BACKSPACE {
            screen.backspace();
        } else if b >= 0x20 || b == LINE_FEED {
            screen.write_char(ScreenChar::new(b, self.color));
        }
    }

    /// Writes each byte of `text` in turn, in the writer's colour.
    fn put_bytes(&self, screen: &mut Screen, text: &[u8])
        requires
            old(screen).wf(),
            text_fits(old(screen)@, text@, self.color),
        ensures
            final(screen).wf(),
            final(screen)@ == after_text(old(screen)@, text@, self.color),
    {
        let mut i: usize = 0;
        assert(text@.skip(0) =~= text@);
        while i < text.len()
            invariant
                i <= text@.len(),
                screen.wf(),
                text_fits(screen@, text@.skip(i as int), self.color),
                after_text(old(screen)@, text@, self.color) == after_text(screen@, text@.skip(i as int), self.color),
            decreases text@.len() - i,
        {
            let b = text[i];
            proof {
                assert(text@.skip(i as int)[0] == b);
                assert(text@.skip(i as int).drop_first() =~= text@.skip(i + 1));
            }
            self.put_byte(screen, b);
            i = i + 1;
        }
        proof {
            assert(text@.skip(i as int) =~= Seq::<u8>::empty());
        }
    }

    /// Writes the ASCII character `c` in the writer's colour: a delete or a
    /// backspace erases the cell before the cursor, a line feed or a
    /// character that is not a control character is written, any other
    /// character is dropped.
    pub fn write_char(&mut self, screen: &mut Screen, c: char)
        requires
            old(screen).wf(),
            (c as u32) < 0x80,
            c == '\n' ==> old(screen)@.position < old(screen)@.cells.len(),
        ensures
            final(self).color == old(self).color,
            final(screen).wf(),
            final(screen)@ == after_byte(old(screen)@, c as u8, old(self).color),
    {
        self.put_byte(screen, c as u8);
    }

    /// Writes each character of the ASCII text `s` in turn.
    pub fn write_str(&mut self, screen: &mut Screen, s: &str)
        requires
            old(screen).wf(),
            s.is_ascii(),
            text_fits(old(screen)@, ascii_bytes(s@), old(self).color),
        ensures
            final(self).color == old(self).color,
            final(screen).wf(),
            final(screen)@ == after_text(old(screen)@, ascii_bytes(s@), old(self).color),
    {
        let bytes = s.as_bytes();
        proof {
            vstd::string::is_ascii_spec_bytes(s);
            assert(bytes@ =~= ascii_bytes(s@));
        }
        self.put_bytes(screen, bytes);
    }

    /// Writes a failure message: a new line, the word of failure in red
    /// between brackets, a colon and `message`, in yellow, which stays the
    /// writer's colour.
    pub fn panic_message(&mut self, screen: &mut Screen, message: &str)
        requires
            old(screen).wf(),
            message.is_ascii(),
            failure_fits(old(screen)@, ascii_bytes(message@)),
        ensures
            final(self).color == ColorCode::of_bits(0x0e),
            final(screen).wf(),
            final(screen)@ == after_failure(old(screen)@, ascii_bytes(message@)),
    {
        let red = ColorCode::new().foreground(Color::Red).background(Color::Black);
        let yellow = ColorCode::new().foreground(Color::Yellow).background(Color::Black);
        proof {
            lemma_on_black_bits();
            ColorCode::lemma_of_bits(red, 0x04);
            ColorCode::lemma_of_bits(yellow, 0x0e);
        }
        let open: Vec<u8> = vec![0x0a, 0x5b];
        let word: Vec<u8> = vec![0x20, 0x46, 0x41, 0x49, 0x4c, 0x20];
        let mut close: Vec<u8> = vec![0x5d, 0x3a, 0x20];
        let bytes = message.as_bytes();
        proof {
            vstd::string::is_ascii_spec_bytes(message);
            assert(bytes@ =~= ascii_bytes(message@));
        }
        let mut i: usize = 0;
        while i < bytes.len()
            invariant
                i <= bytes@.len(),
                close@ == fail_close() + bytes@.take(i as int),
            decreases bytes@.len() - i,
        {
            close.push(bytes[i]);
            assert(bytes@.take(i + 1) =~= bytes@.take(i as int).push(bytes@[i as int]));
            i = i + 1;
        }
        assert(bytes@.take(i as int) =~= bytes@);
        assert(open@ =~= fail_open());
        assert(word@ =~= fail_word());
        self.color = yellow;
        self.put_bytes(screen, open.as_slice());
        self.color = red;
        self.put_bytes(screen, word.as_slice());
        self.color = yellow;
        self.put_bytes(screen, close.as_slice());
    }

    /// The colour of the next characters.
    pub fn color(&self) -> (r: ColorCode)
        ensures
            r == self.color,
    {
        self.color
    }

    /// Sets the colour of the next characters.
    pub fn set_color(&mut self, color: ColorCode)
        ensures
            final(self).color == color,
    {
        self.color = color;
    }

    /// The position of the screen's cursor.
    pub fn write_cursor_position(&self, screen: &Screen) -> (r: usize)
        ensures
            r == screen@.position,
    {
        screen.cursor()
    }

    /// The width of the screen.
    pub fn screen_width(&self) -> (r: usize)
        ensures
            r == W,
    {
        W
    }

    /// The height of the screen.
    pub fn screen_height(&self) -> (r: usize)
        ensures
            r == H,
    {
        H
    }
}

impl<const W: usize, const H: usize> View for SimpleWriter<W, H> {
    type V = ColorCode;

    open spec fn view(&self) -> ColorCode {
        self.color
    }
}

/// The simple writer keeps nothing but its colour: each method works on the
/// screen straight away, and the cursor is the screen's.
impl<const W: usize, const H: usize> GenericWriter for SimpleWriter<W, H> {
    open spec fn update_ready(state: ColorCode, screen: ScreenState) -> bool {
        true
    }

    open spec fn after_update(state: ColorCode, screen: ScreenState) -> (ColorCode, ScreenState) {
        (state, screen)
    }

    open spec fn vga_char_ready(state: ColorCode, screen: ScreenState, c: ScreenChar) -> bool {
        c.char == LINE_FEED ==> screen.position < screen.cells.len()
    }

    open spec fn after_vga_char(state: ColorCode, screen: ScreenState, c: ScreenChar) -> (ColorCode, ScreenState) {
        (state, screen.after_write(c).0)
    }

    open spec fn cursor_ready(state: ColorCode) -> bool {
        true
    }

    open spec fn cursor_of(state: ColorCode, screen: ScreenState) -> int {
        screen.position
    }

    open spec fn set_cursor_ready(state: ColorCode, screen: ScreenState, position: usize) -> bool {
        true
    }

    open spec fn after_set_cursor(state: ColorCode, screen: ScreenState, position: usize) -> (ColorCode, ScreenState) {
        (state, screen)
    }

    open spec fn new_line_ready(state: ColorCode, screen: ScreenState) -> bool {
        screen.position < screen.cells.len()
    }

    open spec fn after_new_line(state: ColorCode, screen: ScreenState) -> (ColorCode, ScreenState) {
        (state, screen.after_new_line().0)
    }

    open spec fn backspace_ready(state: ColorCode, screen: ScreenState) -> bool {
        true
    }

    open spec fn after_backspace(state: ColorCode, screen: ScreenState) -> (ColorCode, ScreenState) {
        (state, screen.after_backspace().0)
    }

    open spec fn width() -> usize {
        W
    }

    open spec fn height() -> usize {
        H
    }

    open spec fn scroll_down_ready(state: ColorCode, screen: ScreenState, lines: usize) -> bool {
        lines * screen.width <= screen.cells.len()
    }

    open spec fn after_scroll_down(state: ColorCode, screen: ScreenState, lines: usize) -> (ColorCode, ScreenState) {
        (state, screen.with(blank_range(screen.cells, 0, lines * screen.width), screen.position))
    }

    open spec fn scroll_up_ready(state: ColorCode, screen: ScreenState, lines: usize) -> bool {
        lines * screen.width <= screen.cells.len()
    }

    open spec fn after_scroll_up(state: ColorCode, screen: ScreenState, lines: usize) -> (ColorCode, ScreenState) {
        (
            state,
            screen.with(
                blank_range(screen.cells, screen.cells.len() - lines * screen.width, screen.cells.len() as int),
                screen.position,
            ),
        )
    }

    open spec fn color_of(state: ColorCode) -> ColorCode {
        state
    }

    open spec fn with_color(state: ColorCode, color: ColorCode) -> ColorCode {
        color
    }

    open spec fn char_ready(state: ColorCode, screen: ScreenState, c: char) -> bool {
        &&& (c as u32) < 0x80
        &&& c == '\n' ==> screen.position < screen.cells.len()
    }

    open spec fn after_char(state: ColorCode, screen: ScreenState, c: char) -> (ColorCode, ScreenState) {
        (state, after_byte(screen, c as u8, state))
    }

    /// Nothing is held back: the screen already shows everything.
    fn update(&mut self, screen: &mut Screen) {
    }

    fn write_vga_char(&mut self, screen: &mut Screen, c: ScreenChar) {
        screen.write_char(c);
    }

    fn write_cursor_position(&self, screen: &Screen) -> (r: usize) {
        screen.cursor()
    }

    /// The cursor is the screen's own, so there is nothing to move.
    fn set_cursor_position(&mut self, screen: &mut Screen, position: usize) {
    }

    fn new_line(&mut self, screen: &mut Screen) {
        screen.new_line();
    }

    fn backspace(&mut self, screen: &mut Screen) {
        screen.backspace();
    }

    fn screen_width(&self) -> (r: usize) {
        W
    }

    fn screen_height(&self) -> (r: usize) {
        H
    }

    fn scroll_down(&mut self, screen: &mut Screen, lines: usize) {
        screen.scroll_down(lines);
    }

    fn scroll_up(&mut self, screen: &mut Screen, lines: usize) {
        screen.scroll_up(lines);
    }

    fn color(&self) -> (r: ColorCode) {
        self.color
    }

    fn set_color(&mut self, color: ColorCode) {
        self.color = color;
    }

    fn write_char(&mut self, screen: &mut Screen, c: char) {
        SimpleWriter::<W, H>::write_char(self, screen, c);
    }
}

} // verus!
