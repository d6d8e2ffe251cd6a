//! What holds of the console whatever is written to it.

use crate::cell::Cell;
use crate::color::ColorCode;
use crate::grid::{BUFFER_HEIGHT, BUFFER_WIDTH};
use crate::screen::{
    all_clean, blank_row, is_printable, is_representable, sanitize, shows, spec_sanitize_byte,
    Screen, NEWLINE, SENTINEL,
};
use vstd::prelude::*;

verus! {

/// Scrolling is a pure shift. After a new line was started, each row but
/// the bottom one holds what the row below it held, the bottom row is
/// empty in the active colors, and the cursor stands at its start.
pub proof fn lemma_line_advance_shifts(screen: Screen)
    requires
        screen.wf(),
    ensures
        ({
            let after = screen.line_advance();
            let last = BUFFER_HEIGHT - 1;
            &&& after.wf()
            &&& after.column == 0
            &&& after.color_code == screen.color_code
            &&& forall|r: int| 1 <= r < BUFFER_HEIGHT ==> after.rows[r - 1] == #[trigger] screen.rows[r]
            &&& after.rows[last] == blank_row(screen.color_code)
            &&& forall|c: int|
                0 <= c < BUFFER_WIDTH ==> #[trigger] after.rows[last][c] == Cell::blank(
                    screen.color_code,
                )
        }),
{
}

/// Writing the end of a line starts a new line and shows nothing else.
pub proof fn lemma_write_newline(screen: Screen)
    requires
        screen.wf(),
    ensures
        screen.write_byte(NEWLINE) == screen.line_advance(),
        screen.write_byte(NEWLINE).column == 0,
        screen.advances_on(NEWLINE),
{
}

/// A byte other than the end of a line can be read back from the cell
/// left of the cursor, in the colors that were active. Where the bottom
/// row had room, the byte went to where the cursor stood and nothing else
/// changed. Where the row was full, a new line was started first: the rows
/// moved up, the byte stands at the start of the bottom row and the rest
/// of that row is empty.
pub proof fn lemma_write_byte_reads_back(screen: Screen, byte: u8)
    requires
        screen.wf(),
        byte != NEWLINE,
    ensures
        ({
            let after = screen.write_byte(byte);
            let last = BUFFER_HEIGHT - 1;
            &&& after.wf()
            &&& after.color_code == screen.color_code
            &&& 1 <= after.column
            &&& after.rows[last][after.column - 1] == shows(byte, screen.color_code)
            &&& screen.column < BUFFER_WIDTH ==> {
                &&& !screen.advances_on(byte)
                &&& after.column == screen.column + 1
                &&& forall|r: int, c: int|
                    0 <= r < BUFFER_HEIGHT && 0 <= c < BUFFER_WIDTH && !(r == last && c
                        == screen.column) ==> #[trigger] after.rows[r][c] == screen.rows[r][c]
            }
            &&& screen.column == BUFFER_WIDTH ==> {
                &&& screen.advances_on(byte)
                &&& after.column == 1
                &&& forall|r: int|
                    1 <= r < BUFFER_HEIGHT ==> after.rows[r - 1] == #[trigger] screen.rows[r]
                &&& forall|c: int|
                    1 <= c < BUFFER_WIDTH ==> #[trigger] after.rows[last][c] == Cell::blank(
                        screen.color_code,
                    )
            }
        }),
{
    lemma_line_advance_shifts(screen);
}

/// Writing keeps the console well formed and its active colors.
pub proof fn lemma_write_bytes_wf(screen: Screen, bytes: Seq<u8>)
    requires
        screen.wf(),
    ensures
        screen.write_bytes(bytes).wf(),
        screen.write_bytes(bytes).color_code == screen.color_code,
    decreases bytes.len(),
{
    if bytes.len() > 0 {
        lemma_write_bytes_wf(screen, bytes.drop_last());
        let before = screen.write_bytes(bytes.drop_last());
        lemma_line_advance_shifts(before);
    }
}

/// Writing two runs of bytes one after the other is writing them as one.
pub proof fn lemma_write_bytes_concat(screen: Screen, first: Seq<u8>, second: Seq<u8>)
    ensures
        screen.write_bytes(first + second) == screen.write_bytes(first).write_bytes(second),
        screen.line_advances(first + second) == screen.line_advances(first) + screen.write_bytes(
            first,
        ).line_advances(second),
    decreases second.len(),
{
    if second.len() > 0 {
        lemma_write_bytes_concat(screen, first, second.drop_last());
        assert((first + second).drop_last() =~= first + second.drop_last());
    }
}

/// Writing a single byte as a run of bytes is writing that byte.
pub proof fn lemma_write_bytes_single(screen: Screen, byte: u8)
    ensures
        screen.write_bytes(seq![byte]) == screen.write_byte(byte),
        screen.line_advances(seq![byte]) == (if screen.advances_on(byte) {
            1nat
        } else {
            0nat
        }),
{
    let one = seq![byte];
    assert(one.last() == byte);
    assert(screen.write_bytes(one.drop_last()) == screen);
    assert(screen.line_advances(one.drop_last()) == 0);
}

/// Writing moves the rows above the bottom row up by one row for each new
/// line that is started, and does nothing else to them: what stood `k`
/// rows further down before `k` new lines were started stands here after.
pub proof fn lemma_write_bytes_shifts_history(screen: Screen, bytes: Seq<u8>)
    requires
        screen.wf(),
    ensures
        ({
            let after = screen.write_bytes(bytes);
            let k = screen.line_advances(bytes);
            forall|r: int|
                0 <= r && r + k < BUFFER_HEIGHT - 1 ==> #[trigger] after.rows[r] == screen.rows[r + k]
        }),
    decreases bytes.len(),
{
    if bytes.len() > 0 {
        let front = bytes.drop_last();
        let before = screen.write_bytes(front);
        let after = screen.write_bytes(bytes);
        let k = screen.line_advances(bytes);
        lemma_write_bytes_shifts_history(screen, front);
        lemma_write_bytes_wf(screen, front);
        lemma_line_advance_shifts(before);
        assert forall|r: int| 0 <= r && r + k < BUFFER_HEIGHT - 1 implies #[trigger] after.rows[r]
            == screen.rows[r + k] by {
            if before.advances_on(bytes.last()) {
                assert(after.rows[r] == before.rows[r + 1]);
            } else {
                assert(after.rows[r] == before.rows[r]);
            }
        }
    }
}

/// Bytes that fit into what is left of the bottom row go there one after
/// the other, in the active colors. No new line is started and nothing
/// else on display changes.
pub proof fn lemma_write_within_row(screen: Screen, bytes: Seq<u8>)
    requires
        screen.wf(),
        screen.column + bytes.len() <= BUFFER_WIDTH,
        forall|i: int| 0 <= i < bytes.len() ==> bytes[i] != NEWLINE,
    ensures
        ({
            let after = screen.write_bytes(bytes);
            let last = BUFFER_HEIGHT - 1;
            &&& after.wf()
            &&& after.color_code == screen.color_code
            &&& after.column == screen.column + bytes.len()
            &&& screen.line_advances(bytes) == 0
            &&& forall|r: int| 0 <= r < last ==> #[trigger] after.rows[r] == screen.rows[r]
            &&& forall|i: int|
                0 <= i < bytes.len() ==> after.rows[last][screen.column + i] == shows(
                    #[trigger] bytes[i],
                    screen.color_code,
                )
            &&& forall|c: int|
                0 <= c < BUFFER_WIDTH && !(screen.column <= c < after.column)
                    ==> #[trigger] after.rows[last][c] == screen.rows[last][c]
        }),
    decreases bytes.len(),
{
    if bytes.len() > 0 {
        let front = bytes.drop_last();
        lemma_write_within_row(screen, front);
        let before = screen.write_bytes(front);
        let after = screen.write_bytes(bytes);
        let last = BUFFER_HEIGHT - 1;
        lemma_write_byte_reads_back(before, bytes.last());
        assert(after == before.write_byte(bytes.last()));
        assert forall|i: int| 0 <= i < bytes.len() implies after.rows[last][screen.column + i]
            == shows(#[trigger] bytes[i], screen.color_code) by {
            if i < front.len() {
                assert(bytes[i] == front[i]);
            }
        }
    }
}

/// A row that is written full does not scroll. From the start of an empty
/// bottom row, exactly `BUFFER_WIDTH` printable bytes fill the row: the
/// cursor stands at `BUFFER_WIDTH`, no new line was started, the rows
/// above are as they were and the bottom row shows the bytes.
pub proof fn lemma_full_row_does_not_scroll(screen: Screen, bytes: Seq<u8>)
    requires
        screen.wf(),
        screen.column == 0,
        bytes.len() == BUFFER_WIDTH,
        forall|i: int| 0 <= i < bytes.len() ==> is_printable(bytes[i]),
    ensures
        ({
            let after = screen.write_bytes(bytes);
            let last = BUFFER_HEIGHT - 1;
            &&& after == screen.write_string(bytes)
            &&& after.column == BUFFER_WIDTH
            &&& screen.line_advances(bytes) == 0
            &&& forall|r: int| 0 <= r < last ==> #[trigger] after.rows[r] == screen.rows[r]
            &&& forall|c: int|
                0 <= c < BUFFER_WIDTH ==> after.rows[last][c] == shows(
                    #[trigger] bytes[c],
                    screen.color_code,
                )
        }),
{
    lemma_write_within_row(screen, bytes);
    lemma_sanitize_keeps_representable(bytes);
}

/// One byte more than a full row scrolls exactly once. From the start of
/// an empty bottom row, `BUFFER_WIDTH + 1` printable bytes start exactly
/// one new line: the cursor stands at 1, every row has moved up by one,
/// the row above the bottom row shows the first `BUFFER_WIDTH` bytes, and
/// the bottom row shows the last byte and is empty after it.
pub proof fn lemma_one_past_full_row_scrolls_once(screen: Screen, bytes: Seq<u8>)
    requires
        screen.wf(),
        screen.column == 0,
        bytes.len() == BUFFER_WIDTH + 1,
        forall|i: int| 0 <= i < bytes.len() ==> is_printable(bytes[i]),
    ensures
        ({
            let after = screen.write_bytes(bytes);
            let last = BUFFER_HEIGHT - 1;
            let above = BUFFER_HEIGHT - 2;
            &&& after == screen.write_string(bytes)
            &&& after.column == 1
            &&& screen.line_advances(bytes) == 1
            &&& forall|r: int| 1 <= r < last ==> after.rows[r - 1] == #[trigger] screen.rows[r]
            &&& forall|c: int|
                0 <= c < BUFFER_WIDTH ==> after.rows[above][c] == shows(
                    #[trigger] bytes[c],
                    screen.color_code,
                )
            &&& after.rows[last][0] == shows(bytes[BUFFER_WIDTH as int], screen.color_code)
            &&& forall|c: int|
                1 <= c < BUFFER_WIDTH ==> #[trigger] after.rows[last][c] == Cell::blank(
                    screen.color_code,
                )
        }),
{
    let front = bytes.drop_last();
    let before = screen.write_bytes(front);
    let after = screen.write_bytes(bytes);
    let above = BUFFER_HEIGHT - 2;
    lemma_write_within_row(screen, front);
    lemma_write_byte_reads_back(before, bytes.last());
    lemma_sanitize_keeps_representable(bytes);
    assert(after == before.write_byte(bytes.last()));
    assert forall|c: int| 0 <= c < BUFFER_WIDTH implies after.rows[above][c] == shows(
        #[trigger] bytes[c],
        screen.color_code,
    ) by {
        assert(bytes[c] == front[c]);
    }
}

/// A text of representable bytes is written as it is.
pub proof fn lemma_sanitize_keeps_representable(text: Seq<u8>)
    requires
        forall|i: int| 0 <= i < text.len() ==> is_representable(#[trigger] text[i]),
    ensures
        sanitize(text) == text,
{
}

/// What is written for a text has one byte for each byte of the text:
/// the byte itself where it is representable, and the sentinel glyph
/// exactly where it is not.
pub proof fn lemma_sanitize_bytes(text: Seq<u8>)
    ensures
        sanitize(text).len() == text.len(),
        forall|i: int|
            0 <= i < text.len() ==> {
                let written = #[trigger] sanitize(text)[i];
                &&& is_representable(text[i]) ==> written == text[i]
                &&& !is_representable(text[i]) <==> written == SENTINEL
            },
{
}

/// Printing a text in pieces is printing it as one.
pub proof fn lemma_write_string_concat(screen: Screen, first: Seq<u8>, second: Seq<u8>)
    ensures
        screen.write_string(first + second) == screen.write_string(first).write_string(second),
{
    assert(sanitize(first + second) =~= sanitize(first) + sanitize(second));
    lemma_write_bytes_concat(screen, sanitize(first), sanitize(second));
}

/// Writing a text and then the end of a line is writing the text with the
/// end of the line added to it.
pub proof fn lemma_write_string_then_newline(screen: Screen, text: Seq<u8>)
    ensures
        screen.write_string(text).write_byte(NEWLINE) == screen.write_string(text.push(NEWLINE)),
{
    let longer = sanitize(text.push(NEWLINE));
    assert(longer.drop_last() =~= sanitize(text));
}

/// Writing a text goes byte by byte: the text up to and with its byte `i`
/// is written by writing the text before that byte and then what stands
/// for the byte.
pub proof fn lemma_write_string_step(screen: Screen, text: Seq<u8>, i: int)
    requires
        0 <= i < text.len(),
    ensures
        screen.write_string(text.take(i + 1)) == screen.write_string(text.take(i)).write_byte(
            spec_sanitize_byte(text[i]),
        ),
{
    let longer = sanitize(text.take(i + 1));
    assert(longer.drop_last() =~= sanitize(text.take(i)));
    assert(longer.last() == spec_sanitize_byte(text[i]));
}

/// A byte of text that is neither printable nor the end of a line is shown
/// as the sentinel glyph, never as itself: the cell left of the cursor
/// holds the glyph, and the cursor has moved as for any character.
pub proof fn lemma_unrepresentable_shows_sentinel(screen: Screen, byte: u8)
    requires
        screen.wf(),
        !is_printable(byte),
        byte != NEWLINE,
    ensures
        ({
            let after = screen.write_string(seq![byte]);
            let last = BUFFER_HEIGHT - 1;
            &&& after == screen.write_byte(SENTINEL)
            &&& 1 <= after.column
            &&& after.column == (if screen.column == BUFFER_WIDTH {
                1
            } else {
                screen.column + 1
            })
            &&& after.rows[last][after.column - 1] == shows(SENTINEL, screen.color_code)
            &&& byte != SENTINEL ==> after.rows[last][after.column - 1].ascii != byte
        }),
{
    assert(sanitize(seq![byte]) =~= seq![SENTINEL]);
    lemma_write_bytes_single(screen, SENTINEL);
    lemma_write_byte_reads_back(screen, SENTINEL);
}

/// Writing a clean byte to a clean display leaves it clean.
proof fn lemma_write_byte_keeps_clean(screen: Screen, byte: u8)
    requires
        screen.wf(),
        all_clean(screen.rows),
        is_representable(byte) || byte == SENTINEL,
    ensures
        all_clean(screen.write_byte(byte).rows),
{
    lemma_line_advance_shifts(screen);
    if byte != NEWLINE {
        lemma_write_byte_reads_back(screen, byte);
    }
}

/// No unsanitized byte reaches the display through a text. If every cell
/// on display is clean, so is every cell after any text was written.
pub proof fn lemma_write_string_keeps_clean(screen: Screen, text: Seq<u8>)
    requires
        screen.wf(),
        all_clean(screen.rows),
    ensures
        all_clean(screen.write_string(text).rows),
    decreases text.len(),
{
    if text.len() > 0 {
        let i = text.len() - 1;
        lemma_write_string_keeps_clean(screen, text.take(i));
        lemma_write_string_step(screen, text, i);
        assert(text.take(i + 1) =~= text);
        let before = screen.write_string(text.take(i));
        lemma_write_bytes_wf(screen, sanitize(text.take(i)));
        lemma_write_byte_keeps_clean(before, spec_sanitize_byte(text[i]));
    }
}

/// Colors chosen for one text do not leak. After a text was printed in
/// other colors, the display and the cursor are as that text left them,
/// the active colors are those from before, and whatever byte is written
/// next is shown in the colors from before: a character in its cell, the
/// end of a line in the empty bottom row.
pub proof fn lemma_print_color_restores(
    screen: Screen,
    color_code: ColorCode,
    text: Seq<u8>,
    next: u8,
)
    requires
        screen.wf(),
    ensures
        ({
            let written = screen.with_color(color_code).write_string(text);
            let after = screen.print_color(color_code, text);
            let later = after.write_byte(next);
            let last = BUFFER_HEIGHT - 1;
            &&& after.wf()
            &&& after.color_code == screen.color_code
            &&& after.rows == written.rows
            &&& after.column == written.column
            &&& later.color_code == screen.color_code
            &&& next != NEWLINE ==> later.rows[last][later.column - 1] == shows(
                next,
                screen.color_code,
            )
            &&& next == NEWLINE ==> later.rows[last] == blank_row(screen.color_code)
        }),
{
    let after = screen.print_color(color_code, text);
    lemma_write_bytes_wf(screen.with_color(color_code), sanitize(text));
    lemma_line_advance_shifts(after);
    if next != NEWLINE {
        lemma_write_byte_reads_back(after, next);
    }
}

} // verus!
