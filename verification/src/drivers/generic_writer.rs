//! What every writer of the screen offers, so that the kernel can hand the
//! screen from one writer to another.
use vstd::prelude::*;

use crate::drivers::vga::{ColorCode, Screen, ScreenChar, ScreenState};

verus! {

/// A writer of a screen. Each method says what it needs of the writer and
/// the screen, and what they are after it, through the spec functions of the
/// same name that each writer defines.
pub trait GenericWriter: View + Sized {
    /// `update` can bring what the writer holds to `screen`.
    spec fn update_ready(state: Self::V, screen: ScreenState) -> bool;

    /// The writer and the screen after `update`.
    spec fn after_update(state: Self::V, screen: ScreenState) -> (Self::V, ScreenState);

    /// `write_vga_char` can take `c`.
    spec fn vga_char_ready(state: Self::V, screen: ScreenState, c: ScreenChar) -> bool;

    /// The writer and the screen after `write_vga_char` with `c`.
    spec fn after_vga_char(state: Self::V, screen: ScreenState, c: ScreenChar) -> (Self::V, ScreenState);

    /// `write_cursor_position` can tell the position of the cursor.
    spec fn cursor_ready(state: Self::V) -> bool;

    /// What `write_cursor_position` tells.
    spec fn cursor_of(state: Self::V, screen: ScreenState) -> int;

    /// `set_cursor_position` can take `position`.
    spec fn set_cursor_ready(state: Self::V, screen: ScreenState, position: usize) -> bool;

    /// The writer and the screen after `set_cursor_position` with `position`.
    spec fn after_set_cursor(state: Self::V, screen: ScreenState, position: usize) -> (Self::V, ScreenState);

    /// `new_line` can go down a line.
    spec fn new_line_ready(state: Self::V, screen: ScreenState) -> bool;

    /// The writer and the screen after `new_line`.
    spec fn after_new_line(state: Self::V, screen: ScreenState) -> (Self::V, ScreenState);

    /// `backspace` can delete the last character.
    spec fn backspace_ready(state: Self::V, screen: ScreenState) -> bool;

    /// The writer and the screen after `backspace`.
    spec fn after_backspace(state: Self::V, screen: ScreenState) -> (Self::V, ScreenState);

    /// The width of the screen the writer is made for.
    spec fn width() -> usize;

    /// The height of the screen the writer is made for.
    spec fn height() -> usize;

    /// `scroll_down` can scroll by `lines`.
    spec fn scroll_down_ready(state: Self::V, screen: ScreenState, lines: usize) -> bool;

    /// The writer and the screen after `scroll_down` by `lines`.
    spec fn after_scroll_down(state: Self::V, screen: ScreenState, lines: usize) -> (Self::V, ScreenState);

    /// `scroll_up` can scroll by `lines`.
    spec fn scroll_up_ready(state: Self::V, screen: ScreenState, lines: usize) -> bool;

    /// The writer and the screen after `scroll_up` by `lines`.
    spec fn after_scroll_up(state: Self::V, screen: ScreenState, lines: usize) -> (Self::V, ScreenState);

    /// The colour of the next character.
    spec fn color_of(state: Self::V) -> ColorCode;

    /// The writer with the colour `color` for the next characters.
    spec fn with_color(state: Self::V, color: ColorCode) -> Self::V;

    /// `write_char` can take `c`.
    spec fn char_ready(state: Self::V, screen: ScreenState, c: char) -> bool;

    /// The writer and the screen after `write_char` with `c`.
    spec fn after_char(state: Self::V, screen: ScreenState, c: char) -> (Self::V, ScreenState);

    /// Brings what the writer holds to the screen.
    fn update(&mut self, screen: &mut Screen)
        requires
            old(screen).wf(),
            Self::update_ready(old(self)@, old(screen)@),
        ensures
            final(screen).wf(),
            (final(self)@, final(screen)@) == Self::after_update(old(self)@, old(screen)@),
    ;

    /// Writes a single cell.
    fn write_vga_char(&mut self, screen: &mut Screen, c: ScreenChar)
        requires
            old(screen).wf(),
            Self::vga_char_ready(old(self)@, old(screen)@, c),
        ensures
            final(screen).wf(),
            (final(self)@, final(screen)@) == Self::after_vga_char(old(self)@, old(screen)@, c),
    ;

    /// The position of the cursor.
    fn write_cursor_position(&self, screen: &Screen) -> (r: usize)
        requires
            Self::cursor_ready(self@),
        ensures
            r == Self::cursor_of(self@, screen@),
    ;

    /// Moves the cursor to `position`.
    fn set_cursor_position(&mut self, screen: &mut Screen, position: usize)
        requires
            old(screen).wf(),
            Self::set_cursor_ready(old(self)@, old(screen)@, position),
        ensures
            final(screen).wf(),
            (final(self)@, final(screen)@) == Self::after_set_cursor(old(self)@, old(screen)@, position),
    ;

    /// Goes down a line.
    fn new_line(&mut self, screen: &mut Screen)
        requires
            old(screen).wf(),
            Self::new_line_ready(old(self)@, old(screen)@),
        ensures
            final(screen).wf(),
            (final(self)@, final(screen)@) == Self::after_new_line(old(self)@, old(screen)@),
    ;

    /// Deletes the last character.
    fn backspace(&mut self, screen: &mut Screen)
        requires
            old(screen).wf(),
            Self::backspace_ready(old(self)@, old(screen)@),
        ensures
            final(screen).wf(),
            (final(self)@, final(screen)@) == Self::after_backspace(old(self)@, old(screen)@),
    ;

    /// The width of the screen.
    fn screen_width(&self) -> (r: usize)
        ensures
            r == Self::width(),
    ;

    /// The height of the screen.
    fn screen_height(&self) -> (r: usize)
        ensures
            r == Self::height(),
    ;

    /// Scrolls down by `lines`.
    fn scroll_down(&mut self, screen: &mut Screen, lines: usize)
        requires
            old(screen).wf(),
            Self::scroll_down_ready(old(self)@, old(screen)@, lines),
        ensures
            final(screen).wf(),
            (final(self)@, final(screen)@) == Self::after_scroll_down(old(self)@, old(screen)@, lines),
    ;

    /// Scrolls up by `lines`.
    fn scroll_up(&mut self, screen: &mut Screen, lines: usize)
        requires
            old(screen).wf(),
            Self::scroll_up_ready(old(self)@, old(screen)@, lines),
        ensures
            final(screen).wf(),
            (final(self)@, final(screen)@) == Self::after_scroll_up(old(self)@, old(screen)@, lines),
    ;

    /// The colour of the next character.
    fn color(&self) -> (r: ColorCode)
        ensures
            r == Self::color_of(self@),
    ;

    /// Sets the colour of the next characters.
    fn set_color(&mut self, color: ColorCode)
        ensures
            final(self)@ == Self::with_color(old(self)@, color),
    ;

    /// Writes the character `c` in the writer's colour.
    fn write_char(&mut self, screen: &mut Screen, c: char)
        requires
            old(screen).wf(),
            Self::char_ready(old(self)@, old(screen)@, c),
        ensures
            final(screen).wf(),
            (final(self)@, final(screen)@) == Self::after_char(old(self)@, old(screen)@, c),
    ;
}

/// Hands the screen from the writer `current` to the writer `next`: `next`
/// takes the position of the cursor `current` had.
pub fn set_writer<A: GenericWriter, B: GenericWriter>(current: &A, next: &mut B, screen: &mut Screen)
    requires
        old(screen).wf(),
        A::cursor_ready(current@),
        B::set_cursor_ready(old(next)@, old(screen)@, A::cursor_of(current@, old(screen)@) as usize),
    ensures
        final(screen).wf(),
        (final(next)@, final(screen)@) == B::after_set_cursor(
            old(next)@,
            old(screen)@,
            A::cursor_of(current@, old(screen)@) as usize,
        ),
{
    let cursor = current.write_cursor_position(screen);
    next.set_cursor_position(screen, cursor);
}

} // verus!
