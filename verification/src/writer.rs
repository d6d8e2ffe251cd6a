//! The writer: a cursor and the active colors over the character grid. It
//! writes bytes and text into the bottom row, wraps at the end of the row
//! and scrolls the display up when a new line starts.

use crate::cell::Cell;
use crate::color::{Color, ColorCode};
use crate::grid::{grid_shaped, Grid, BUFFER_HEIGHT, BUFFER_WIDTH};
use crate::laws::{
    lemma_line_advance_shifts, lemma_write_byte_reads_back, lemma_write_string_keeps_clean,
};
use crate::screen::{all_clean, blank_row, sanitize, sanitize_byte, shows, Screen, NEWLINE};
use vstd::prelude::*;
use vstd::string::StringSliceAdditionalSpecFns;

verus! {

/// Writes to the display. It owns the grid, so nothing else can write to
/// the display behind its back.
pub struct Writer {
    column_position: usize,
    color_code: ColorCode,
    buffer: Grid,
}

impl View for Writer {
    type V = Screen;

    /// The console as its users see it.
    closed spec fn view(&self) -> Screen {
        Screen {
            rows: self.buffer@,
            column: self.column_position as nat,
            color_code: self.color_code,
        }
    }
}

impl Writer {
    /// The cursor never stands further right than just past the end of the
    /// bottom row.
    #[verifier::type_invariant]
    spec fn cursor_in_row(&self) -> bool {
        self.column_position <= BUFFER_WIDTH
    }

    /// A writer over `buffer`, with the cursor at the start of the bottom
    /// row and white on black as the active colors. It shows what the
    /// display held before.
    pub fn new(buffer: Grid) -> (writer: Writer)
        ensures
            writer@ == (Screen {
                rows: buffer@,
                column: 0,
                color_code: ColorCode::new(Color::White, Color::Black),
            }),
            writer@.wf(),
    {
        proof {
            buffer.lemma_shaped();
        }
        Writer {
            column_position: 0,
            color_code: ColorCode::new(Color::White, Color::Black),
            buffer,
        }
    }

    /// The column at which the next character goes into the bottom row;
    /// `BUFFER_WIDTH` when the row is full.
    pub fn column_position(&self) -> (column: usize)
        ensures
            column == self@.column,
            column <= BUFFER_WIDTH,
            self@.wf(),
    {
        proof {
            use_type_invariant(self);
            self.buffer.lemma_shaped();
        }
        self.column_position
    }

    /// The active colors.
    pub fn color_code(&self) -> (color_code: ColorCode)
        ensures
            color_code == self@.color_code,
    {
        self.color_code
    }

    /// Makes `color_code` the active colors. What is on display stays as
    /// it is.
    pub fn set_color_code(&mut self, color_code: ColorCode)
        ensures
            final(self)@ == old(self)@.with_color(color_code),
            final(self)@.wf(),
    {
        proof {
            use_type_invariant(&*self);
            self.buffer.lemma_shaped();
        }
        self.color_code = color_code;
    }

    /// The cell on display at `row`, `col`.
    pub fn read(&self, row: usize, col: usize) -> (cell: Cell)
        requires
            row < BUFFER_HEIGHT,
            col < BUFFER_WIDTH,
        ensures
            cell == self@.rows[row as int][col as int],
    {
        self.buffer.read(row, col)
    }

    /// Writes one byte as it is: the end of a line starts a new line, any
    /// other byte is shown at the cursor, on a new line if the bottom row
    /// was full.
    pub fn write_byte(&mut self, byte: u8)
        ensures
            final(self)@ == old(self)@.write_byte(byte),
            final(self)@.wf(),
            final(self)@.color_code == old(self)@.color_code,
            byte == NEWLINE ==> final(self)@.column == 0,
            byte != NEWLINE ==> final(self)@.column == (if old(self)@.column == BUFFER_WIDTH {
                1
            } else {
                old(self)@.column + 1
            }),
            byte != NEWLINE ==> final(self)@.rows[BUFFER_HEIGHT - 1][final(self)@.column - 1]
                == shows(byte, old(self)@.color_code),
    {
        proof {
            use_type_invariant(&*self);
            self.buffer.lemma_shaped();
            lemma_line_advance_shifts(self@);
            if byte != NEWLINE {
                lemma_write_byte_reads_back(self@, byte);
            }
        }
        if byte == NEWLINE {
            self.next_line();
        } else {
            if self.column_position >= BUFFER_WIDTH {
                self.next_line();
            }
            let row = BUFFER_HEIGHT - 1;
            let col = self.column_position;
            let color_code = self.color_code;

            self.buffer.write(row, col, Cell { ascii: byte, color_code });
            self.column_position += 1;
        }
    }

    /// Writes a text, byte by byte. A byte that is neither printable nor
    /// the end of a line is written as the sentinel glyph.
    pub fn write_string(&mut self, s: &str)
        ensures
            final(self)@ == old(self)@.write_string(s.spec_bytes()),
            final(self)@.wf(),
            final(self)@.color_code == old(self)@.color_code,
            all_clean(old(self)@.rows) ==> all_clean(final(self)@.rows),
    {
        proof {
            use_type_invariant(&*self);
            self.buffer.lemma_shaped();
            if all_clean(self@.rows) {
                lemma_write_string_keeps_clean(self@, s.spec_bytes());
            }
        }
        let bytes = s.as_bytes();
        let len = bytes.len();
        let mut i: usize = 0;
        assert(sanitize(bytes@.take(0)) =~= Seq::<u8>::empty());
        while i < len
            invariant
                i <= len,
                len == bytes@.len(),
                self@ == old(self)@.write_bytes(sanitize(bytes@.take(i as int))),
                self@.wf(),
                self@.color_code == old(self)@.color_code,
            decreases len - i,
        {
            let byte = bytes[i];
            proof {
                let done = sanitize(bytes@.take(i as int));
                let next = sanitize(bytes@.take(i + 1));
                assert(next.drop_last() =~= done);
                assert(next.last() == sanitize_byte(byte));
            }
            self.write_byte(sanitize_byte(byte));
            i += 1;
        }
        assert(bytes@.take(len as int) =~= bytes@);
    }

    /// Starts a new line: moves every row up by one, empties the bottom
    /// row and puts the cursor at its start.
    fn next_line(&mut self)
        ensures
            final(self)@ == old(self)@.line_advance(),
            final(self)@.wf(),
            final(self)@.column == 0,
            final(self)@.color_code == old(self)@.color_code,
            forall|r: int|
                1 <= r < BUFFER_HEIGHT ==> final(self)@.rows[r - 1] == #[trigger] old(self)@.rows[r],
            final(self)@.rows[BUFFER_HEIGHT - 1] == blank_row(old(self)@.color_code),
    {
        proof {
            use_type_invariant(&*self);
            self.buffer.lemma_shaped();
            lemma_line_advance_shifts(self@);
        }
        let ghost before = self.buffer@;
        for row in 1..BUFFER_HEIGHT
            invariant
                self.column_position == old(self).column_position,
                self.column_position <= BUFFER_WIDTH,
                self.color_code == old(self).color_code,
                grid_shaped(before),
                grid_shaped(self.buffer@),
                forall|r: int| 0 <= r < row - 1 ==> #[trigger] self.buffer@[r] == before[r + 1],
                forall|r: int|
                    row - 1 <= r < BUFFER_HEIGHT ==> #[trigger] self.buffer@[r] == before[r],
        {
            let ghost up = row - 1;
            let ghost source = before[row as int];
            let ghost target = before[up];
            for col in 0..BUFFER_WIDTH
                invariant
                    1 <= row < BUFFER_HEIGHT,
                    up == row - 1,
                    source == before[row as int],
                    target == before[up],
                    self.column_position == old(self).column_position,
                    self.column_position <= BUFFER_WIDTH,
                    self.color_code == old(self).color_code,
                    grid_shaped(before),
                    grid_shaped(self.buffer@),
                    forall|r: int| 0 <= r < up ==> #[trigger] self.buffer@[r] == before[r + 1],
                    forall|r: int|
                        row <= r < BUFFER_HEIGHT ==> #[trigger] self.buffer@[r] == before[r],
                    forall|c: int| 0 <= c < col ==> #[trigger] self.buffer@[up][c] == source[c],
                    forall|c: int|
                        col <= c < BUFFER_WIDTH ==> #[trigger] self.buffer@[up][c] == target[c],
            {
                let cc = self.buffer.read(row, col);
                self.buffer.write(row - 1, col, cc);
            }
        }
        self.clear_row(BUFFER_HEIGHT - 1);
        self.column_position = 0;
        assert(self@.rows =~= old(self)@.line_advance().rows);
    }

    /// Empties row `row`: fills it with spaces in the active colors.
    fn clear_row(&mut self, row: usize)
        requires
            row < BUFFER_HEIGHT,
        ensures
            final(self)@ == old(self)@.clear_row(row as int),
            final(self)@.wf(),
    {
        proof {
            use_type_invariant(&*self);
            self.buffer.lemma_shaped();
        }
        let ghost before = self.buffer@;
        let blank_char = Cell::blank(self.color_code);
        for col in 0..BUFFER_WIDTH
            invariant
                row < BUFFER_HEIGHT,
                self.column_position == old(self).column_position,
                self.column_position <= BUFFER_WIDTH,
                self.color_code == old(self).color_code,
                blank_char == Cell::blank(self.color_code),
                grid_shaped(before),
                grid_shaped(self.buffer@),
                forall|r: int|
                    0 <= r < BUFFER_HEIGHT && r != row ==> #[trigger] self.buffer@[r] == before[r],
                forall|c: int| 0 <= c < col ==> #[trigger] self.buffer@[row as int][c] == blank_char,
        {
            self.buffer.write(row, col, blank_char);
        }
        assert(self.buffer@[row as int] =~= blank_row(self.color_code));
        assert(self@.rows =~= old(self)@.clear_row(row as int).rows);
    }
}

} // verus!
