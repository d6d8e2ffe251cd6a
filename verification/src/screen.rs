//! The console as a mathematical value: what is on display, where the
//! cursor stands and which colors are active, and what each way of writing
//! makes of it.

use crate::cell::Cell;
use crate::color::{Color, ColorCode};
use crate::grid::{grid_shaped, BUFFER_HEIGHT, BUFFER_WIDTH};
use vstd::prelude::*;

verus! {

/// The byte that ends a line.
pub const NEWLINE: u8 = 0x0a;

/// The glyph shown in place of a byte that the display cannot show: a
/// solid block.
pub const SENTINEL: u8 = 0xfe;

/// Whether `byte` is a printable ASCII character.
pub open spec fn is_printable(byte: u8) -> bool {
    0x20 <= byte <= 0x7e
}

/// Whether text may hold `byte` as it is: a printable character or the
/// end of a line.
pub open spec fn is_representable(byte: u8) -> bool {
    is_printable(byte) || byte == NEWLINE
}

/// The byte written for a byte of text: the byte itself where it is
/// representable, the sentinel glyph where it is not.
pub open spec fn spec_sanitize_byte(byte: u8) -> u8 {
    if is_representable(byte) {
        byte
    } else {
        SENTINEL
    }
}

/// The bytes written for the bytes of a text, one for one.
pub open spec fn sanitize(text: Seq<u8>) -> Seq<u8> {
    Seq::new(text.len(), |i: int| spec_sanitize_byte(text[i]))
}

/// The byte written for a byte of text.
#[verifier::when_used_as_spec(spec_sanitize_byte)]
pub fn sanitize_byte(byte: u8) -> (written: u8)
    ensures
        written == spec_sanitize_byte(byte),
{
    if (0x20 <= byte && byte <= 0x7e) || byte == NEWLINE {
        byte
    } else {
        SENTINEL
    }
}

/// The tag that opens the report of an error: `[ERROR] `.
pub open spec fn error_tag() -> Seq<u8> {
    seq![0x5b, 0x45, 0x52, 0x52, 0x4f, 0x52, 0x5d, 0x20]
}

/// The cell that shows `byte` in the given colors.
pub open spec fn shows(byte: u8, color_code: ColorCode) -> Cell {
    Cell { ascii: byte, color_code }
}

/// Whether a cell shows a printable character or the sentinel glyph, as
/// every cell does that a text was written to.
pub open spec fn is_clean(cell: Cell) -> bool {
    is_printable(cell.ascii) || cell.ascii == SENTINEL
}

/// Whether every cell on display is clean.
pub open spec fn all_clean(rows: Seq<Seq<Cell>>) -> bool {
    forall|r: int, c: int|
        0 <= r < BUFFER_HEIGHT && 0 <= c < BUFFER_WIDTH ==> is_clean(#[trigger] rows[r][c])
}

/// A row of empty cells in the given colors.
pub open spec fn blank_row(color_code: ColorCode) -> Seq<Cell> {
    Seq::new(BUFFER_WIDTH as nat, |col: int| Cell::blank(color_code))
}

/// The state of the console: the cells on display, the column at which the
/// next character goes into the bottom row, and the active colors.
pub struct Screen {
    pub rows: Seq<Seq<Cell>>,
    pub column: nat,
    pub color_code: ColorCode,
}

impl Screen {
    /// The display has its shape and the cursor stands in the bottom row or
    /// just past its end. A cursor at `BUFFER_WIDTH` means that the row is
    /// full and the next character starts a new one.
    pub open spec fn wf(self) -> bool {
        &&& grid_shaped(self.rows)
        &&& self.column <= BUFFER_WIDTH
    }

    /// The same console with other active colors.
    pub open spec fn with_color(self, color_code: ColorCode) -> Screen {
        Screen { color_code, ..self }
    }

    /// The same console with row `row` emptied in the active colors.
    pub open spec fn clear_row(self, row: int) -> Screen {
        Screen { rows: self.rows.update(row, blank_row(self.color_code)), ..self }
    }

    /// Starts a new line: every row moves up by one, the top row is lost,
    /// the bottom row is empty in the active colors, and the cursor stands
    /// at its start.
    pub open spec fn line_advance(self) -> Screen {
        Screen {
            rows: self.rows.drop_first().push(blank_row(self.color_code)),
            column: 0,
            color_code: self.color_code,
        }
    }

    /// Puts `byte` at the cursor in the active colors and moves the cursor
    /// one column to the right.
    pub open spec fn place(self, byte: u8) -> Screen {
        let last = BUFFER_HEIGHT - 1;
        let cell = shows(byte, self.color_code);
        Screen {
            rows: self.rows.update(last, self.rows[last].update(self.column as int, cell)),
            column: self.column + 1,
            color_code: self.color_code,
        }
    }

    /// Whether writing `byte` starts a new line: it is the end of a line,
    /// or the bottom row is full.
    pub open spec fn advances_on(self, byte: u8) -> bool {
        byte == NEWLINE || self.column >= BUFFER_WIDTH
    }

    /// Writes one byte as it is. The end of a line starts a new line and
    /// shows nothing. Any other byte goes to the cursor, after a new line
    /// was started if the bottom row was full.
    pub open spec fn write_byte(self, byte: u8) -> Screen {
        if byte == NEWLINE {
            self.line_advance()
        } else if self.column >= BUFFER_WIDTH {
            self.line_advance().place(byte)
        } else {
            self.place(byte)
        }
    }

    /// Writes bytes as they are, first to last.
    pub open spec fn write_bytes(self, bytes: Seq<u8>) -> Screen
        decreases bytes.len(),
    {
        if bytes.len() == 0 {
            self
        } else {
            self.write_bytes(bytes.drop_last()).write_byte(bytes.last())
        }
    }

    /// The number of new lines started while `bytes` are written.
    pub open spec fn line_advances(self, bytes: Seq<u8>) -> nat
        decreases bytes.len(),
    {
        if bytes.len() == 0 {
            0
        } else {
            let before = self.write_bytes(bytes.drop_last());
            let step: nat = if before.advances_on(bytes.last()) {
                1
            } else {
                0
            };
            self.line_advances(bytes.drop_last()) + step
        }
    }

    /// Writes a text: each byte that is not representable is replaced by
    /// the sentinel glyph before it is written.
    pub open spec fn write_string(self, text: Seq<u8>) -> Screen {
        self.write_bytes(sanitize(text))
    }

    /// Writes a text and ends the line.
    pub open spec fn println(self, text: Seq<u8>) -> Screen {
        self.write_string(text.push(NEWLINE))
    }

    /// Writes a text in other colors and then takes the former colors up
    /// again.
    pub open spec fn print_color(self, color_code: ColorCode, text: Seq<u8>) -> Screen {
        self.with_color(color_code).write_string(text).with_color(self.color_code)
    }

    /// Writes a text in other colors, ends the line in those colors, and
    /// then takes the former colors up again.
    pub open spec fn println_color(self, color_code: ColorCode, text: Seq<u8>) -> Screen {
        self.print_color(color_code, text.push(NEWLINE))
    }

    /// Reports an error: the tag in red on black, then the text in the
    /// active colors, then the end of the line.
    pub open spec fn error(self, text: Seq<u8>) -> Screen {
        self.print_color(ColorCode::new(Color::Red, Color::Black), error_tag()).println(text)
    }
}

} // verus!
