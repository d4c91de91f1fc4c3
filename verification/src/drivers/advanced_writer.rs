//! A writer that keeps all it was given in a buffer of its own, with a table
//! of where each line of it starts, and shows a window of that buffer on the
//! screen.
use vstd::prelude::*;

use crate::drivers::generic_writer::GenericWriter;
use crate::drivers::vga::{
    blank_range, ColorCode, Screen, ScreenChar, ScreenState, WriteInfo, BACKSPACE, LINE_FEED,
};

verus! {

/// The number of cells the writer keeps: sixty-four pages of two-byte cells.
pub const WRITER_BUFFER_CELLS: usize = 0x20000;

/// The number of lines the row table follows: four pages of eight-byte entries.
pub const ROW_TABLE_ENTRIES: usize = 0x800;

/// What a writer holds.
pub struct WriterState {
    pub color: ColorCode,
    pub cursor: usize,
    pub screen_start: usize,
    pub line: usize,
    pub line_offset: usize,
    pub buffer: Seq<ScreenChar>,
    pub display_line: usize,
    pub row_table: Seq<usize>,
}

/// Writing `chars` to the screen one after the other, until a write reaches
/// the end of the screen: the screen after it, how many were written before
/// the one that reached the end, and whether no line feed came while the
/// cursor was past the last cell (the screen cannot take one there).
pub open spec fn show(screen: ScreenState, chars: Seq<ScreenChar>) -> (ScreenState, nat, bool)
    decreases chars.len(),
{
    if chars.len() == 0 {
        (screen, 0, true)
    } else if chars[0].char == LINE_FEED && screen.position >= screen.cells.len() {
        (screen, 0, false)
    } else {
        let step = screen.after_write(chars[0]);
        if step.1 == WriteInfo::EndOfScreen {
            (step.0, 0, true)
        } else {
            let rest = show(step.0, chars.drop_first());
            (rest.0, rest.1 + 1, rest.2)
        }
    }
}

impl WriterState {
    /// The cursor is in the buffer, the row table fits in a `usize`, the
    /// buffer and a line fit in one with room to spare, the offset in the line is at most a line past the
    /// cursor, and no row starts past the cursor.
    pub open spec fn wf(self, width: int) -> bool {
        &&& self.cursor <= self.buffer.len()
        &&& self.row_table.len() <= usize::MAX
        &&& width + self.buffer.len() < usize::MAX
        &&& self.line < usize::MAX
        &&& self.line_offset <= width + self.cursor
        &&& forall|i: int| 0 <= i < self.row_table.len() ==> #[trigger] self.row_table[i] <= self.cursor
    }

    /// Storing `c` at the cursor, when the buffer is not full: the cursor and
    /// the offset in the line advance, and, while the line is in the row
    /// table, the line's count grows by one and a full line starts the next
    /// one where it ends.
    pub open spec fn after_put(self, c: ScreenChar, width: int) -> WriterState {
        if self.cursor + 1 > self.buffer.len() {
            self
        } else {
            let stored = WriterState {
                buffer: self.buffer.update(self.cursor as int, c),
                cursor: (self.cursor + 1) as usize,
                line_offset: (self.line_offset + 1) as usize,
                ..self
            };
            if stored.line + 1 >= stored.row_table.len() {
                stored
            } else {
                let l = stored.line as int;
                let counted = WriterState {
                    row_table: stored.row_table.update(l, (stored.row_table[l] + 1) as usize),
                    ..stored
                };
                if counted.line_offset >= width {
                    WriterState {
                        line: (l + 1) as usize,
                        line_offset: 0,
                        row_table: counted.row_table.update(l + 1, counted.row_table[l]),
                        ..counted
                    }
                } else {
                    counted
                }
            }
        }
    }

    /// Storing each of `cells` in turn.
    pub open spec fn after_put_all(self, cells: Seq<ScreenChar>, width: int) -> WriterState
        decreases cells.len(),
    {
        if cells.len() == 0 {
            self
        } else {
            self.after_put_all(cells.drop_last(), width).after_put(cells.last(), width)
        }
    }

    /// The state a backspace starts from: the backspace stored.
    pub open spec fn backspace_stored(self, width: int) -> WriterState {
        self.after_put(ScreenChar { char: BACKSPACE, color_code: self.color }, width)
    }

    /// A backspace can step back: it is not at the start of the first line.
    pub open spec fn backspace_defined(self, width: int) -> bool {
        let s = self.backspace_stored(width);
        s.line_offset > 0 || s.line > 0
    }

    /// A backspace: stored like any cell, then the offset in the line goes
    /// back one, or to the end of the line before.
    pub open spec fn after_backspace(self, width: int) -> WriterState {
        let s = self.backspace_stored(width);
        if s.line_offset > 0 {
            WriterState { line_offset: (s.line_offset - 1) as usize, ..s }
        } else {
            WriterState { line: (s.line - 1) as usize, line_offset: width as usize, ..s }
        }
    }

    /// The line that scrolling down by `lines` would show first.
    pub open spec fn scroll_down_target(self, lines: usize) -> usize {
        self.display_line.saturating_add(lines)
    }

    /// Scrolling down by `lines` moves: something is written `height` lines
    /// below the line it would show first.
    pub open spec fn scroll_down_moves(self, lines: usize, height: int) -> bool {
        let t = self.scroll_down_target(lines) as int;
        t + height < self.row_table.len() && self.row_table[t + height] != 0
    }

    /// Scrolling down by `lines`: when it moves, the last `lines` lines of
    /// the screen are blank, its cursor at the top left, and the window
    /// starts at the target line.
    pub open spec fn after_scroll_down(self, screen: ScreenState, lines: usize, height: int) -> (
        WriterState,
        ScreenState,
    ) {
        if self.scroll_down_moves(lines, height) {
            let t = self.scroll_down_target(lines);
            (
                WriterState { display_line: t, screen_start: self.row_table[t as int], ..self },
                screen.with(
                    blank_range(screen.cells, screen.cells.len() - lines * screen.width, screen.cells.len() as int),
                    0,
                ),
            )
        } else {
            (self, screen)
        }
    }

    /// The line that scrolling up by `lines` would show first.
    pub open spec fn scroll_up_target(self, lines: usize) -> usize {
        self.display_line.saturating_sub(lines)
    }

    /// Scrolling up by `lines` moves: the target line is in the row table and
    /// is the first line or has something written.
    pub open spec fn scroll_up_moves(self, lines: usize) -> bool {
        let t = self.scroll_up_target(lines) as int;
        t < self.row_table.len() && (self.row_table[t] != 0 || t == 0)
    }

    /// Scrolling up by `lines`: when it moves, the first `lines` lines of the
    /// screen are blank, its cursor at the top left, and the window starts at
    /// the target line.
    pub open spec fn after_scroll_up(self, screen: ScreenState, lines: usize) -> (WriterState, ScreenState) {
        if self.scroll_up_moves(lines) {
            let t = self.scroll_up_target(lines);
            (
                WriterState { display_line: t, screen_start: self.row_table[t as int], ..self },
                screen.with(blank_range(screen.cells, 0, lines * screen.width), 0),
            )
        } else {
            (self, screen)
        }
    }

    /// The state a new line starts from: the line feed stored and the line
    /// advanced.
    pub open spec fn line_fed(self, width: int) -> WriterState {
        let s = self.after_put(ScreenChar { char: LINE_FEED, color_code: self.color }, width);
        WriterState { line: (s.line + 1) as usize, ..s }
    }

    /// The state after a new line, before the screen scrolls: the new line
    /// starts where the one before it ends, at offset zero.
    pub open spec fn line_started(self, width: int) -> WriterState {
        let s = self.line_fed(width);
        let l = s.line as int;
        WriterState { row_table: s.row_table.update(l, s.row_table[l - 1]), line_offset: 0, ..s }
    }

    /// A new line can be taken: the line number stays below the largest
    /// `usize`, and the scroll down by one that follows neither overflows nor
    /// blanks more than the screen.
    pub open spec fn new_line_defined(self, screen: ScreenState, width: int, height: int) -> bool {
        let s = self.after_put(ScreenChar { char: LINE_FEED, color_code: self.color }, width);
        let fed = self.line_fed(width);
        let started = self.line_started(width);
        &&& s.line + 1 < usize::MAX
        &&& fed.line < fed.row_table.len() ==> {
            &&& started.scroll_down_target(1) + height <= usize::MAX
            &&& started.scroll_down_moves(1, height) ==> screen.width <= screen.cells.len()
        }
    }

    /// A new line: the line feed is stored, the line advances and, while it
    /// is in the row table, starts where the one before ends and the window
    /// scrolls down by one.
    pub open spec fn after_new_line(self, screen: ScreenState, width: int, height: int) -> (
        WriterState,
        ScreenState,
    ) {
        let fed = self.line_fed(width);
        if fed.line >= fed.row_table.len() {
            (fed, screen)
        } else {
            self.line_started(width).after_scroll_down(screen, 1, height)
        }
    }

    /// The characters that are written but not shown yet.
    pub open spec fn unshown(self) -> Seq<ScreenChar> {
        if self.screen_start < self.cursor {
            self.buffer.subrange(self.screen_start as int, self.cursor as int)
        } else {
            Seq::empty()
        }
    }
}

/// Storing a cell keeps the writer's invariant.
proof fn lemma_put_wf(s: WriterState, c: ScreenChar, width: int)
    requires
        s.wf(width),
        width >= 0,
    ensures
        s.after_put(c, width).wf(width),
        s.after_put(c, width).row_table.len() == s.row_table.len(),
        s.after_put(c, width).buffer.len() == s.buffer.len(),
        s.after_put(c, width).color == s.color,
        s.after_put(c, width).screen_start == s.screen_start,
        s.after_put(c, width).display_line == s.display_line,
        s.after_put(c, width).cursor >= s.cursor,
        s.after_put(c, width).line >= s.line,
{
    if s.cursor + 1 <= s.buffer.len() {
        let stored = WriterState {
            buffer: s.buffer.update(s.cursor as int, c),
            cursor: (s.cursor + 1) as usize,
            line_offset: (s.line_offset + 1) as usize,
            ..s
        };
        assert(stored.wf(width)) by {
            assert forall|i: int| 0 <= i < stored.row_table.len() implies #[trigger] stored.row_table[i]
                <= stored.cursor by {
                assert(s.row_table[i] <= s.cursor);
            }
        }
        if stored.line + 1 < stored.row_table.len() {
            let l = stored.line as int;
            let counted = WriterState {
                row_table: stored.row_table.update(l, (stored.row_table[l] + 1) as usize),
                ..stored
            };
            assert(counted.wf(width)) by {
                assert forall|i: int| 0 <= i < counted.row_table.len() implies #[trigger] counted.row_table[i]
                    <= counted.cursor by {
                    assert(s.row_table[i] <= s.cursor);
                }
            }
            if counted.line_offset >= width {
                let next = WriterState {
                    line: (l + 1) as usize,
                    line_offset: 0,
                    row_table: counted.row_table.update(l + 1, counted.row_table[l]),
                    ..counted
                };
                assert(next.wf(width)) by {
                    assert forall|i: int| 0 <= i < next.row_table.len() implies #[trigger] next.row_table[i]
                        <= next.cursor by {
                        assert(counted.row_table[i] <= counted.cursor);
                        assert(counted.row_table[l] <= counted.cursor);
                    }
                }
            }
        }
    }
}

/// A writer that keeps all it was given and shows a window of it on a
/// screen of `W` by `H` cells.
pub struct AdvancedWriter<const W: usize, const H: usize> {
    pub color: ColorCode,
    pub cursor: usize,
    pub screen_start: usize,
    pub line: usize,
    pub line_offset: usize,
    pub buffer: Vec<ScreenChar>,
    pub display_line: usize,
    pub row_table: Vec<usize>,
}

impl<const W: usize, const H: usize> View for AdvancedWriter<W, H> {
    type V = WriterState;

    open spec fn view(&self) -> WriterState {
        WriterState {
            color: self.color,
            cursor: self.cursor,
            screen_start: self.screen_start,
            line: self.line,
            line_offset: self.line_offset,
            buffer: self.buffer@,
            display_line: self.display_line,
            row_table: self.row_table@,
        }
    }
}

impl<const W: usize, const H: usize> AdvancedWriter<W, H> {
    /// A writer with white on black, nothing written, on the first line, with
    /// a buffer of null cells and a row table of zeros.
    pub fn default() -> (r: Self)
        ensures
            W + WRITER_BUFFER_CELLS < usize::MAX ==> r@.wf(W as int),
            r.color.bits() == 0x0f,
            r.cursor == 0,
            r.screen_start == 0,
            r.line == 1,
            r.line_offset == 0,
            r.display_line == 0,
            r.buffer@.len() == WRITER_BUFFER_CELLS,
            forall|i: int|
                0 <= i < r.buffer@.len() ==> (#[trigger] r.buffer@[i]).char == 0 && r.buffer@[i].color_code.bits()
                    == 0,
            r.row_table@ == Seq::new(ROW_TABLE_ENTRIES as nat, |i: int| 0usize),
    {
        let null = ScreenChar::new(0, ColorCode::new());
        let mut buffer: Vec<ScreenChar> = Vec::new();
        while buffer.len() < WRITER_BUFFER_CELLS
            invariant
                buffer@.len() <= WRITER_BUFFER_CELLS,
                null.char == 0 && null.color_code.bits() == 0,
                forall|i: int| 0 <= i < buffer@.len() ==> #[trigger] buffer@[i] == null,
            decreases WRITER_BUFFER_CELLS - buffer@.len(),
        {
            buffer.push(null);
        }
        let mut row_table: Vec<usize> = Vec::new();
        while row_table.len() < ROW_TABLE_ENTRIES
            invariant
                row_table@.len() <= ROW_TABLE_ENTRIES,
                forall|i: int| 0 <= i < row_table@.len() ==> #[trigger] row_table@[i] == 0usize,
            decreases ROW_TABLE_ENTRIES - row_table@.len(),
        {
            row_table.push(0);
        }
        assert(row_table@ =~= Seq::new(ROW_TABLE_ENTRIES as nat, |i: int| 0usize));
        AdvancedWriter {
            color: ColorCode::default(),
            screen_start: 0,
            cursor: 0,
            line: 1,
            line_offset: 0,
            display_line: 0,
            buffer,
            row_table,
        }
    }

    /// Stores `c` at the cursor, when the buffer is not full, and follows the
    /// line it ends up on.
    pub fn write_vga_char(&mut self, c: ScreenChar)
        requires
            old(self)@.wf(W as int),
        ensures
            final(self)@ == old(self)@.after_put(c, W as int),
            final(self)@.wf(W as int),
    {
        proof {
            lemma_put_wf(self@, c, W as int);
        }
        if self.cursor + 1 > self.buffer.len() {
            return;
        }
        let p = self.cursor;
        self.buffer.set(p, c);
        self.cursor = p + 1;
        self.line_offset = self.line_offset + 1;
        if self.line + 1 >= self.row_table.len() {
            return;
        }
        let l = self.line;
        let count = self.row_table[l];
        self.row_table.set(l, count + 1);
        if self.line_offset >= W {
            self.line = l + 1;
            self.line_offset = 0;
            let start = self.row_table[l];
            self.row_table.set(l + 1, start);
        }
    }

    /// Stores a backspace and steps the offset in the line back one, or to
    /// the end of the line before.
    pub fn backspace(&mut self)
        requires
            old(self)@.wf(W as int),
            old(self)@.backspace_defined(W as int),
        ensures
            final(self)@ == old(self)@.after_backspace(W as int),
            final(self)@.wf(W as int),
    {
        let c = ScreenChar::new(BACKSPACE, self.color);
        self.write_vga_char(c);
        if self.line_offset > 0 {
            self.line_offset = self.line_offset - 1;
        } else {
            self.line = self.line - 1;
            self.line_offset = W;
        }
    }

    /// Scrolls the window down by `lines`, when something is written that
    /// far below it.
    pub fn scroll_down(&mut self, screen: &mut Screen, lines: usize)
        requires
            old(self)@.wf(W as int),
            old(screen).wf(),
            old(self)@.scroll_down_target(lines) + H <= usize::MAX,
            old(self)@.scroll_down_moves(lines, H as int) ==> lines * old(screen)@.width
                <= old(screen)@.cells.len(),
        ensures
            final(self)@.wf(W as int),
            final(screen).wf(),
            (final(self)@, final(screen)@) == old(self)@.after_scroll_down(old(screen)@, lines, H as int),
    {
        let new_line = self.display_line.saturating_add(lines);
        if new_line + H >= self.row_table.len() {
            return;
        }
        if self.row_table[new_line + H] != 0 {
            screen.scroll_up(lines);
            screen.reset_cursor();
            self.display_line = new_line;
            self.screen_start = self.row_table[new_line];
        }
    }

    /// Scrolls the window up by `lines`, when the line it would show first
    /// is the first one or has something written.
    pub fn scroll_up(&mut self, screen: &mut Screen, lines: usize)
        requires
            old(self)@.wf(W as int),
            old(screen).wf(),
            old(self)@.scroll_up_moves(lines) ==> lines * old(screen)@.width <= old(screen)@.cells.len(),
        ensures
            final(self)@.wf(W as int),
            final(screen).wf(),
            (final(self)@, final(screen)@) == old(self)@.after_scroll_up(old(screen)@, lines),
    {
        let new_line = self.display_line.saturating_sub(lines);
        if new_line >= self.row_table.len() {
            return;
        }
        if self.row_table[new_line] != 0 || new_line == 0 {
            screen.scroll_down(lines);
            screen.reset_cursor();
            self.display_line = new_line;
            self.screen_start = self.row_table[new_line];
        }
    }

    /// Stores a line feed, moves to the next line and, while that line is in
    /// the row table, starts it where the one before ends and scrolls the
    /// window down by one.
    pub fn new_line(&mut self, screen: &mut Screen)
        requires
            old(self)@.wf(W as int),
            old(screen).wf(),
            old(self)@.new_line_defined(old(screen)@, W as int, H as int),
        ensures
            final(self)@.wf(W as int),
            final(screen).wf(),
            (final(self)@, final(screen)@) == old(self)@.after_new_line(old(screen)@, W as int, H as int),
    {
        let c = ScreenChar::new(LINE_FEED, self.color);
        self.write_vga_char(c);
        self.line = self.line + 1;
        if self.line >= self.row_table.len() {
            return;
        }
        let l = self.line;
        let start = self.row_table[l - 1];
        self.row_table.set(l, start);
        self.line_offset = 0;
        assert(self@ == old(self)@.line_started(W as int));
        self.scroll_down(screen, 1);
    }

    /// Writes the cells that are stored but not shown yet to the screen, one
    /// after the other, until one reaches the end of the screen.
    pub fn update(&mut self, screen: &mut Screen)
        requires
            old(self)@.wf(W as int),
            old(screen).wf(),
            show(old(screen)@, old(self)@.unshown()).2,
        ensures
            final(self)@ == (WriterState {
                screen_start: (old(self).screen_start + show(old(screen)@, old(self)@.unshown()).1) as usize,
                ..old(self)@
            }),
            final(screen).wf(),
            final(screen)@ == show(old(screen)@, old(self)@.unshown()).0,
    {
        let end = self.cursor;
        let start = self.screen_start;
        let mut i = start;
        let mut stopped = false;
        let ghost all = old(self)@.unshown();
        while i < end && !stopped
            invariant
                self@ == (WriterState { screen_start: i, ..old(self)@ }),
                old(self)@.wf(W as int),
                self@.wf(W as int),
                screen.wf(),
                start <= i,
                i <= end || start > end,
                end == old(self).cursor,
                start == old(self).screen_start,
                all == old(self)@.unshown(),
                !stopped ==> {
                    let now = show(screen@, if i < end { self.buffer@.subrange(i as int, end as int) } else { Seq::empty() });
                    let whole = show(old(screen)@, all);
                    &&& now.2
                    &&& whole.0 == now.0
                    &&& whole.1 == now.1 + (i - start)
                },
                stopped ==> {
                    let whole = show(old(screen)@, all);
                    &&& whole.0 == screen@
                    &&& whole.1 == i - start
                },
            decreases end - i, if stopped { 0int } else { 1int },
        {
            let c = self.buffer[i];
            let ghost rest = self.buffer@.subrange(i as int, end as int);
            proof {
                assert(rest[0] == c);
                if i + 1 < end {
                    assert(rest.drop_first() =~= self.buffer@.subrange(i + 1, end as int));
                } else {
                    assert(rest.drop_first() =~= Seq::<ScreenChar>::empty());
                }
            }
            let info = screen.write_char(c);
            match info {
                WriteInfo::EndOfScreen => {
                    stopped = true;
                },
                _ => {
                    self.screen_start = self.screen_start + 1;
                    i = i + 1;
                },
            }
        }
    }

    /// When nothing was shown yet, stores the first `position` cells of the
    /// screen and puts the screen's cursor back at the top left.
    pub fn set_cursor_position(&mut self, screen: &mut Screen, position: usize)
        requires
            old(self)@.wf(W as int),
            old(screen).wf(),
            old(self).screen_start == 0 ==> position <= old(screen)@.cells.len(),
        ensures
            final(self)@.wf(W as int),
            final(screen).wf(),
            old(self).screen_start == 0 ==> {
                &&& final(self)@ == old(self)@.after_put_all(old(screen)@.cells.take(position as int), W as int)
                &&& final(screen)@ == old(screen)@.with(old(screen)@.cells, 0)
            },
            old(self).screen_start != 0 ==> final(self)@ == old(self)@ && final(screen)@ == old(screen)@,
    {
        if self.screen_start == 0 {
            let mut i: usize = 0;
            while i < position
                invariant
                    i <= position,
                    position <= screen@.cells.len(),
                    screen@ == old(screen)@,
                    screen.wf(),
                    self@.wf(W as int),
                    self@ == old(self)@.after_put_all(old(screen)@.cells.take(i as int), W as int),
                decreases position - i,
            {
                let c = screen.cell(i);
                proof {
                    let cells = old(screen)@.cells;
                    assert(cells.take(i + 1).drop_last() =~= cells.take(i as int));
                    assert(cells.take(i + 1).last() == c);
                }
                self.write_vga_char(c);
                i = i + 1;
            }
            screen.reset_cursor();
        }
    }

    /// Writes `c`: a line feed starts a new line, a delete or a backspace
    /// steps back, any other character that is not a control character is
    /// stored in the current colour.
    pub fn write_char(&mut self, screen: &mut Screen, c: char)
        requires
            old(self)@.wf(W as int),
            old(screen).wf(),
            (c as u32) < 0x80,
            c == '\n' ==> old(self)@.new_line_defined(old(screen)@, W as int, H as int),
            c == '\x7f' || c == '\x08' ==> old(self)@.backspace_defined(W as int),
        ensures
            final(self)@.wf(W as int),
            final(screen).wf(),
            c == '\n' ==> (final(self)@, final(screen)@) == old(self)@.after_new_line(
                old(screen)@,
                W as int,
                H as int,
            ),
            c == '\x7f' || c == '\x08' ==> final(self)@ == old(self)@.after_backspace(W as int)
                && final(screen)@ == old(screen)@,
            c != '\n' && c != '\x7f' && c != '\x08' ==> final(screen)@ == old(screen)@ && if (c as u32) >= 0x20 {
                final(self)@ == old(self)@.after_put(
                    ScreenChar { char: c as u8, color_code: old(self).color },
                    W as int,
                )
            } else {
                final(self)@ == old(self)@
            },
    {
        if c == '\n' {
            self.new_line(screen);
        } else if c == '\x7f' || c == '\x08' {
            self.backspace();
        } else if (c as u32) >= 0x20 {
            let cell = ScreenChar::new(c as u8, self.color);
            self.write_vga_char(cell);
        }
    }

    /// The colour of the next cell.
    pub fn color(&self) -> (r: ColorCode)
        ensures
            r == self.color,
    {
        self.color
    }

    /// Sets the colour of the next cells.
    pub fn set_color(&mut self, color: ColorCode)
        ensures
            final(self)@ == (WriterState { color, ..old(self)@ }),
    {
        self.color = color;
    }

    /// The width of the screen.
    pub fn screen_width(&self) -> (r: usize)
        ensures
            r == W,
    {
        W
    }

    /// The height of the screen.
    pub fn screen_height(&self) -> (r: usize)
        ensures
            r == H,
    {
        H
    }
}

/// The advanced writer works on its own buffer and brings it to the screen
/// on `update`; it needs its state to hold together (`wf`) for every method
/// that changes it.
impl<const W: usize, const H: usize> GenericWriter for AdvancedWriter<W, H> {
    open spec fn update_ready(state: WriterState, screen: ScreenState) -> bool {
        &&& state.wf(W as int)
        &&& show(screen, state.unshown()).2
    }

    open spec fn after_update(state: WriterState, screen: ScreenState) -> (WriterState, ScreenState) {
        let shown = show(screen, state.unshown());
        (WriterState { screen_start: (state.screen_start + shown.1) as usize, ..state }, shown.0)
    }

    open spec fn vga_char_ready(state: WriterState, screen: ScreenState, c: ScreenChar) -> bool {
        state.wf(W as int)
    }

    open spec fn after_vga_char(state: WriterState, screen: ScreenState, c: ScreenChar) -> (WriterState, ScreenState) {
        (state.after_put(c, W as int), screen)
    }

    /// The writer does not say where its cursor is: asking is never allowed.
    open spec fn cursor_ready(state: WriterState) -> bool {
        false
    }

    open spec fn cursor_of(state: WriterState, screen: ScreenState) -> int {
        0
    }

    open spec fn set_cursor_ready(state: WriterState, screen: ScreenState, position: usize) -> bool {
        &&& state.wf(W as int)
        &&& state.screen_start == 0 ==> position <= screen.cells.len()
    }

    open spec fn after_set_cursor(state: WriterState, screen: ScreenState, position: usize) -> (WriterState, ScreenState) {
        if state.screen_start == 0 {
            (state.after_put_all(screen.cells.take(position as int), W as int), screen.with(screen.cells, 0))
        } else {
            (state, screen)
        }
    }

    open spec fn new_line_ready(state: WriterState, screen: ScreenState) -> bool {
        &&& state.wf(W as int)
        &&& state.new_line_defined(screen, W as int, H as int)
    }

    open spec fn after_new_line(state: WriterState, screen: ScreenState) -> (WriterState, ScreenState) {
        state.after_new_line(screen, W as int, H as int)
    }

    open spec fn backspace_ready(state: WriterState, screen: ScreenState) -> bool {
        &&& state.wf(W as int)
        &&& state.backspace_defined(W as int)
    }

    open spec fn after_backspace(state: WriterState, screen: ScreenState) -> (WriterState, ScreenState) {
        (state.after_backspace(W as int), screen)
    }

    open spec fn width() -> usize {
        W
    }

    open spec fn height() -> usize {
        H
    }

    open spec fn scroll_down_ready(state: WriterState, screen: ScreenState, lines: usize) -> bool {
        &&& state.wf(W as int)
        &&& state.scroll_down_target(lines) + H <= usize::MAX
        &&& state.scroll_down_moves(lines, H as int) ==> lines * screen.width <= screen.cells.len()
    }

    open spec fn after_scroll_down(state: WriterState, screen: ScreenState, lines: usize) -> (WriterState, ScreenState) {
        state.after_scroll_down(screen, lines, H as int)
    }

    open spec fn scroll_up_ready(state: WriterState, screen: ScreenState, lines: usize) -> bool {
        &&& state.wf(W as int)
        &&& state.scroll_up_moves(lines) ==> lines * screen.width <= screen.cells.len()
    }

    open spec fn after_scroll_up(state: WriterState, screen: ScreenState, lines: usize) -> (WriterState, ScreenState) {
        state.after_scroll_up(screen, lines)
    }

    open spec fn color_of(state: WriterState) -> ColorCode {
        state.color
    }

    open spec fn with_color(state: WriterState, color: ColorCode) -> WriterState {
        WriterState { color, ..state }
    }

    open spec fn char_ready(state: WriterState, screen: ScreenState, c: char) -> bool {
        &&& state.wf(W as int)
        &&& (c as u32) < 0x80
        &&& c == '\n' ==> state.new_line_defined(screen, W as int, H as int)
        &&& c == '\x7f' || c == '\x08' ==> state.backspace_defined(W as int)
    }

    open spec fn after_char(state: WriterState, screen: ScreenState, c: char) -> (WriterState, ScreenState) {
        if c == '\n' {
            state.after_new_line(screen, W as int, H as int)
        } else if c == '\x7f' || c == '\x08' {
            (state.after_backspace(W as int), screen)
        } else if (c as u32) >= 0x20 {
            (state.after_put(ScreenChar { char: c as u8, color_code: state.color }, W as int), screen)
        } else {
            (state, screen)
        }
    }

    fn update(&mut self, screen: &mut Screen) {
        AdvancedWriter::<W, H>::update(self, screen);
    }

    /// The cell goes to the writer's buffer, not to the screen.
    fn write_vga_char(&mut self, screen: &mut Screen, c: ScreenChar) {
        AdvancedWriter::<W, H>::write_vga_char(self, c);
    }

    fn write_cursor_position(&self, screen: &Screen) -> (r: usize) {
        0
    }

    fn set_cursor_position(&mut self, screen: &mut Screen, position: usize) {
        AdvancedWriter::<W, H>::set_cursor_position(self, screen, position);
    }

    fn new_line(&mut self, screen: &mut Screen) {
        AdvancedWriter::<W, H>::new_line(self, screen);
    }

    /// The backspace goes to the writer's buffer, not to the screen.
    fn backspace(&mut self, screen: &mut Screen) {
        AdvancedWriter::<W, H>::backspace(self);
    }

    fn screen_width(&self) -> (r: usize) {
        W
    }

    fn screen_height(&self) -> (r: usize) {
        H
    }

    fn scroll_down(&mut self, screen: &mut Screen, lines: usize) {
        AdvancedWriter::<W, H>::scroll_down(self, screen, lines);
    }

    fn scroll_up(&mut self, screen: &mut Screen, lines: usize) {
        AdvancedWriter::<W, H>::scroll_up(self, screen, lines);
    }

    fn color(&self) -> (r: ColorCode) {
        self.color
    }

    fn set_color(&mut self, color: ColorCode) {
        self.color = color;
    }

    fn write_char(&mut self, screen: &mut Screen, c: char) {
        AdvancedWriter::<W, H>::write_char(self, screen, c);
    }
}

} // verus!
