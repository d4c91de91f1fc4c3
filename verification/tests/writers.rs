use learnix::drivers::advanced_writer::{AdvancedWriter, ROW_TABLE_ENTRIES, WRITER_BUFFER_CELLS};
use learnix::drivers::generic_writer::{set_writer, GenericWriter};
use learnix::drivers::keyboard::{Keyboard, KeyboardFlags, ModifierEvent};
use learnix::drivers::vga::{ColorCode, Screen, ScreenChar};
use learnix::drivers::writer::SimpleWriter;

fn screen() -> Screen {
    Screen::from_buffer(vec![ScreenChar::default(); 80 * 25], 80, 25)
}

#[test]
fn advanced_writer_starts_empty() {
    let w = AdvancedWriter::<80, 25>::default();
    assert_eq!((w.cursor, w.screen_start, w.line, w.line_offset, w.display_line), (0, 0, 1, 0, 0));
    assert_eq!(w.buffer.len(), WRITER_BUFFER_CELLS);
    assert_eq!(w.row_table.len(), ROW_TABLE_ENTRIES);
    assert_eq!(w.color().as_u8(), 0x0f);
    assert_eq!(w.buffer[7].char, 0);
    assert_eq!((w.screen_width(), w.screen_height()), (80, 25));
}

#[test]
fn advanced_writer_keeps_text_and_shows_it() {
    let mut s = screen();
    let mut w = AdvancedWriter::<80, 25>::default();
    w.write_char(&mut s, 'h');
    w.write_char(&mut s, 'i');
    assert_eq!((w.cursor, w.line, w.line_offset, w.row_table[1]), (2, 1, 2, 2));
    // Nothing is on the screen before an update.
    assert_eq!(s.cell(0).char, b' ');
    w.update(&mut s);
    assert_eq!((s.cell(0).char, s.cell(1).char), (b'h', b'i'));
    assert_eq!(w.screen_start, 2);
    assert_eq!(s.cursor(), 2);

    w.write_char(&mut s, '\n');
    assert_eq!((w.cursor, w.line, w.line_offset), (3, 2, 0));
    assert_eq!((w.row_table[1], w.row_table[2]), (3, 3));
    assert_eq!(w.display_line, 0);
    w.update(&mut s);
    assert_eq!(s.cursor(), 80);
    assert_eq!(w.screen_start, 3);

    // A control character other than a line feed, a backspace or a delete is dropped.
    w.write_char(&mut s, '\t');
    assert_eq!(w.cursor, 3);
}

#[test]
fn advanced_writer_backspace_steps_back() {
    let mut s = screen();
    let mut w = AdvancedWriter::<80, 25>::default();
    w.write_char(&mut s, 'a');
    w.write_char(&mut s, '\x08');
    // The backspace is kept in the buffer, and the offset goes back to the start.
    assert_eq!((w.cursor, w.line_offset, w.line), (2, 1, 1));
    assert_eq!(w.buffer[1].char, 0x08);
    w.write_char(&mut s, '\x7f');
    assert_eq!((w.cursor, w.line_offset, w.line), (3, 1, 1));
    w.backspace();
    assert_eq!((w.cursor, w.line_offset, w.line), (4, 1, 1));
}

#[test]
fn advanced_writer_backspace_at_line_start() {
    let mut s = Screen::from_buffer(vec![ScreenChar::default(); 4], 2, 2);
    let mut w = AdvancedWriter::<2, 2>::default();
    w.write_char(&mut s, 'a');
    // The stored backspace fills the line; the offset then goes to the end
    // of the line before.
    w.write_char(&mut s, '\x08');
    assert_eq!((w.cursor, w.line_offset, w.line), (2, 2, 1));
    assert_eq!((w.row_table[1], w.row_table[2]), (2, 2));
}

#[test]
fn advanced_writer_wraps_full_lines() {
    let mut s = screen();
    let mut w = AdvancedWriter::<80, 25>::default();
    for _ in 0..80 {
        w.write_char(&mut s, 'a');
    }
    assert_eq!((w.cursor, w.line, w.line_offset), (80, 2, 0));
    assert_eq!((w.row_table[1], w.row_table[2]), (80, 80));
    w.write_char(&mut s, 'b');
    assert_eq!((w.line, w.line_offset, w.row_table[2]), (2, 1, 81));
}

#[test]
fn advanced_writer_update_stops_at_end_of_screen() {
    let mut s = Screen::from_buffer(vec![ScreenChar::default(); 8], 4, 2);
    let mut w = AdvancedWriter::<4, 2>::default();
    for c in ['a', 'b', 'c', 'd', 'e', 'f', 'g', 'h', 'i', 'j'] {
        w.write_char(&mut s, c);
    }
    w.update(&mut s);
    // Eight cells were shown; the ninth reached the end of the screen.
    assert_eq!(w.screen_start, 8);
    assert_eq!((s.cell(0).char, s.cell(7).char), (b'a', b'h'));
    assert_eq!(s.cursor(), 8);
}

#[test]
fn advanced_writer_scrolls() {
    let mut s = screen();
    let mut w = AdvancedWriter::<80, 25>::default();
    w.write_char(&mut s, 'x');
    w.update(&mut s);
    assert_eq!(s.cell(0).char, b'x');
    // Scrolling up from the first line shows the first line again: the top
    // of the screen is blanked and its cursor goes back to the start.
    w.scroll_up(&mut s, 1);
    assert_eq!((w.display_line, w.screen_start), (0, 0));
    assert_eq!((s.cell(0).char, s.cursor()), (b' ', 0));
    // Nothing is written 25 lines below, so scrolling down does not move.
    w.scroll_down(&mut s, 1);
    assert_eq!(w.display_line, 0);
    for _ in 0..26 {
        w.write_char(&mut s, '\n');
    }
    assert!(w.display_line > 0);
}

#[test]
fn advanced_writer_copies_the_screen_when_nothing_was_shown() {
    let mut s = screen();
    let mut w = AdvancedWriter::<80, 25>::default();
    let mut simple = SimpleWriter::<80, 25>::default();
    simple.write_str(&mut s, "abc");
    w.set_cursor_position(&mut s, 3);
    assert_eq!(w.cursor, 3);
    assert_eq!((w.buffer[0].char, w.buffer[2].char), (b'a', b'c'));
    assert_eq!(s.cursor(), 0);
}

#[test]
fn simple_writer_writes_text() {
    let mut s = screen();
    let mut w = SimpleWriter::<80, 25>::default();
    w.write_str(&mut s, "ab\nc");
    assert_eq!((s.cell(0).char, s.cell(1).char, s.cell(80).char), (b'a', b'b', b'c'));
    assert_eq!(w.write_cursor_position(&s), 81);
    w.write_char(&mut s, '\x08');
    assert_eq!((s.cursor(), s.cell(80).char), (80, b' '));
    // Control characters other than a line feed, a backspace or a delete are dropped.
    w.write_char(&mut s, '\x07');
    assert_eq!(s.cursor(), 80);
}

#[test]
fn simple_writer_failure_message() {
    let mut s = screen();
    let mut w = SimpleWriter::<80, 25>::default();
    w.panic_message(&mut s, "boom");
    assert_eq!(s.cell(80).char, b'[');
    assert_eq!(s.cell(80).color_code.as_u8(), 0x0e);
    assert_eq!((s.cell(82).char, s.cell(82).color_code.as_u8()), (b'F', 0x04));
    assert_eq!((s.cell(87).char, s.cell(87).color_code.as_u8()), (b']', 0x0e));
    assert_eq!((s.cell(90).char, s.cell(93).char), (b'b', b'm'));
    assert_eq!(s.cursor(), 94);
    assert_eq!(w.color().as_u8(), 0x0e);
}

#[test]
fn keyboard_modifier_events() {
    let mut f = KeyboardFlags::new();
    assert!(!f.shifted());
    f.on_event(ModifierEvent::LeftShift);
    assert!(f.is_lshift_pressed());
    assert!(f.shifted());
    f.on_event(ModifierEvent::ReleasedLeftShift);
    assert!(!f.shifted());
    f.on_event(ModifierEvent::CapsLock);
    assert!(f.is_capslock_pressed() && f.shifted());
    f.on_event(ModifierEvent::CapsLock);
    assert!(!f.is_capslock_pressed());
    f.on_event(ModifierEvent::SuperKey);
    f.on_event(ModifierEvent::LeftCtrl);
    assert_eq!(f.as_u8(), 0b0_1100);
    f.on_event(ModifierEvent::Other);
    assert_eq!(f.as_u8(), 0b0_1100);
    f.on_event(ModifierEvent::ReleasedSuperKey);
    f.on_event(ModifierEvent::ReleasedLeftCtrl);
    f.on_event(ModifierEvent::RightShift);
    assert_eq!(f.as_u8(), 0b0_0010);
}

#[test]
fn keyboard_keeps_scan_codes_in_order() {
    let mut k = Keyboard::new(vec![0u8; 4]);
    assert_eq!(k.read_raw_scancode(), None);
    k.on_scan_code(0x2a, ModifierEvent::LeftShift);
    k.on_scan_code(0x1e, ModifierEvent::Other);
    assert!(k.flags.is_lshift_pressed());
    assert_eq!(k.read_raw_scancode(), Some(0x2a));
    assert_eq!(k.read_raw_scancode(), Some(0x1e));
    assert_eq!(k.read_raw_scancode(), None);
    k.on_scan_code(0xaa, ModifierEvent::ReleasedLeftShift);
    assert!(!k.flags.shifted());
}

/// Types `text` through any writer, then brings it to the screen.
fn type_through<G: GenericWriter>(w: &mut G, s: &mut Screen, text: &str) {
    for c in text.chars() {
        GenericWriter::write_char(w, s, c);
    }
    GenericWriter::update(w, s);
}

#[test]
fn writers_agree_through_the_common_interface() {
    let mut simple_screen = screen();
    let mut simple = SimpleWriter::<80, 25>::default();
    type_through(&mut simple, &mut simple_screen, "ok\nyes");
    let mut advanced_screen = screen();
    let mut advanced = AdvancedWriter::<80, 25>::default();
    type_through(&mut advanced, &mut advanced_screen, "ok\nyes");
    for i in [0usize, 1, 80, 81, 82] {
        assert_eq!(simple_screen.cell(i).char, advanced_screen.cell(i).char);
    }
    assert_eq!(simple_screen.cell(80).char, b'y');
    assert_eq!(GenericWriter::write_cursor_position(&simple, &simple_screen), 83);
    assert_eq!(GenericWriter::screen_width(&advanced), 80);
    assert_eq!(GenericWriter::screen_height(&simple), 25);
}

#[test]
fn generic_writer_colour_and_cells() {
    let mut s = screen();
    let mut w = SimpleWriter::<80, 25>::default();
    GenericWriter::set_color(&mut w, ColorCode::from_bits(0x1e));
    assert_eq!(GenericWriter::color(&w).as_u8(), 0x1e);
    GenericWriter::write_vga_char(&mut w, &mut s, ScreenChar::new(b'z', ColorCode::from_bits(0x02)));
    assert_eq!((s.cell(0).char, s.cell(0).color_code.as_u8()), (b'z', 0x02));
    GenericWriter::backspace(&mut w, &mut s);
    assert_eq!((s.cursor(), s.cell(0).char), (0, b' '));
    GenericWriter::new_line(&mut w, &mut s);
    assert_eq!(s.cursor(), 80);

    let mut a = AdvancedWriter::<80, 25>::default();
    GenericWriter::write_vga_char(&mut a, &mut s, ScreenChar::new(b'q', ColorCode::from_bits(0x02)));
    // The advanced writer keeps the cell until it is brought to the screen.
    assert_eq!((a.cursor, a.buffer[0].char), (1, b'q'));
    assert_eq!(s.cursor(), 80);
    GenericWriter::backspace(&mut a, &mut s);
    assert_eq!((a.cursor, a.buffer[1].char), (2, 0x08));
}

#[test]
fn set_writer_hands_the_cursor_over() {
    let mut s = screen();
    let mut simple = SimpleWriter::<80, 25>::default();
    simple.write_str(&mut s, "hey");
    let mut advanced = AdvancedWriter::<80, 25>::default();
    set_writer(&simple, &mut advanced, &mut s);
    // The advanced writer takes the three cells before the cursor and the
    // screen's cursor goes back to the top left.
    assert_eq!(advanced.cursor, 3);
    assert_eq!((advanced.buffer[0].char, advanced.buffer[2].char), (b'h', b'y'));
    assert_eq!(s.cursor(), 0);

    // The simple writer has no cursor of its own to move.
    let mut other = SimpleWriter::<80, 25>::default();
    set_writer(&simple, &mut other, &mut s);
    assert_eq!(s.cursor(), 0);
}
