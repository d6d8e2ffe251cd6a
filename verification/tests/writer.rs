use vga_buffer::cell::Cell;
use vga_buffer::color::{Color, ColorCode};
use vga_buffer::grid::{Grid, Region, BUFFER_HEIGHT, BUFFER_WIDTH};
use vga_buffer::writer::Writer;
use volatile::Volatile;

const LAST: usize = BUFFER_HEIGHT - 1;

/// Display memory in which every row shows its own letter, `a` in the top
/// row, in light gray on black.
fn lettered_region() -> &'static mut Region {
    Box::leak(Box::new(core::array::from_fn(|row| {
        core::array::from_fn(|_| Volatile::new(0x0700 | (b'a' as u16 + row as u16)))
    })))
}

fn lettered_writer() -> Writer {
    Writer::new(Grid::new(lettered_region()))
}

fn letter_of(row: usize) -> Cell {
    Cell {
        ascii: b'a' + row as u8,
        color_code: ColorCode::from_byte(0x07),
    }
}

fn white_on_black() -> ColorCode {
    ColorCode::new(Color::White, Color::Black)
}

fn white(ascii: u8) -> Cell {
    Cell {
        ascii,
        color_code: white_on_black(),
    }
}

fn row_of(writer: &Writer, row: usize) -> Vec<Cell> {
    (0..BUFFER_WIDTH).map(|col| writer.read(row, col)).collect()
}

/// Checks that the rows above those that a test wrote to have moved up by
/// `lines` rows and are otherwise as they were.
fn assert_history_scrolled_by(writer: &Writer, lines: usize) {
    for row in 0..LAST - lines {
        assert_eq!(row_of(writer, row), vec![letter_of(row + lines); BUFFER_WIDTH]);
    }
}

#[test]
fn new_writer_starts_at_column_zero_in_white_on_black() {
    let writer = lettered_writer();
    assert_eq!(writer.column_position(), 0);
    assert_eq!(writer.color_code(), white_on_black());
    assert_eq!(writer.color_code().as_byte(), 0x0F);
    assert_history_scrolled_by(&writer, 0);
    assert_eq!(row_of(&writer, LAST), vec![letter_of(LAST); BUFFER_WIDTH]);
}

#[test]
fn write_byte_is_read_back_at_the_cursor() {
    for byte in 0x20..=0x7Eu8 {
        let mut writer = lettered_writer();
        writer.write_byte(b'>');
        let column = writer.column_position();
        writer.write_byte(byte);
        assert_eq!(writer.read(LAST, column), white(byte));
        assert_eq!(writer.column_position(), column + 1);
        assert_eq!(writer.read(LAST, 0), white(b'>'));
        assert_eq!(writer.read(LAST, 2), letter_of(LAST));
        assert_history_scrolled_by(&writer, 0);
    }
}

#[test]
fn write_byte_uses_the_active_colors() {
    let mut writer = lettered_writer();
    let colors = ColorCode::new(Color::Yellow, Color::Blue);
    writer.set_color_code(colors);
    writer.write_byte(b'Z');
    assert_eq!(
        writer.read(LAST, 0),
        Cell {
            ascii: b'Z',
            color_code: colors
        }
    );
    assert_eq!(writer.read(LAST, 0).to_word(), 0x1E5A);
}

#[test]
fn write_byte_stores_any_byte_as_it_is() {
    let mut writer = lettered_writer();
    writer.write_byte(0x01);
    writer.write_byte(0xFF);
    writer.write_byte(0x00);
    assert_eq!(writer.read(LAST, 0).ascii, 0x01);
    assert_eq!(writer.read(LAST, 1).ascii, 0xFF);
    assert_eq!(writer.read(LAST, 2).ascii, 0x00);
    assert_eq!(writer.column_position(), 3);
}

#[test]
fn newline_scrolls_and_resets_the_cursor() {
    let mut writer = lettered_writer();
    writer.write_byte(b'x');
    writer.write_byte(b'y');
    writer.write_byte(b'\n');
    assert_eq!(writer.column_position(), 0);
    for row in 0..LAST - 1 {
        assert_eq!(row_of(&writer, row), vec![letter_of(row + 1); BUFFER_WIDTH]);
    }
    let mut moved_up = vec![letter_of(LAST); BUFFER_WIDTH];
    moved_up[0] = white(b'x');
    moved_up[1] = white(b'y');
    assert_eq!(row_of(&writer, LAST - 1), moved_up);
    assert_eq!(row_of(&writer, LAST), vec![white(b' '); BUFFER_WIDTH]);
}

#[test]
fn scrolling_is_a_pure_shift() {
    let mut writer = lettered_writer();
    let before: Vec<Vec<Cell>> = (0..BUFFER_HEIGHT).map(|row| row_of(&writer, row)).collect();
    let colors = ColorCode::new(Color::Black, Color::Green);
    writer.set_color_code(colors);
    writer.write_byte(b'\n');
    for row in 1..BUFFER_HEIGHT {
        assert_eq!(row_of(&writer, row - 1), before[row]);
    }
    assert_eq!(row_of(&writer, LAST), vec![Cell::blank(colors); BUFFER_WIDTH]);
    assert_eq!(writer.read(LAST, 0).to_word(), 0x2020);
    assert_eq!(writer.column_position(), 0);
    assert_eq!(writer.color_code(), colors);
}

#[test]
fn twenty_five_newlines_clear_the_display() {
    let mut writer = lettered_writer();
    for _ in 0..BUFFER_HEIGHT {
        writer.write_byte(b'\n');
    }
    for row in 0..BUFFER_HEIGHT {
        assert_eq!(row_of(&writer, row), vec![white(b' '); BUFFER_WIDTH]);
    }
}

#[test]
fn full_row_does_not_scroll() {
    let mut writer = lettered_writer();
    for i in 0..BUFFER_WIDTH {
        writer.write_byte(b'0' + (i % 10) as u8);
    }
    assert_eq!(writer.column_position(), BUFFER_WIDTH);
    assert_history_scrolled_by(&writer, 0);
    for col in 0..BUFFER_WIDTH {
        assert_eq!(writer.read(LAST, col), white(b'0' + (col % 10) as u8));
    }
}

#[test]
fn one_byte_past_a_full_row_scrolls_once() {
    let mut writer = lettered_writer();
    for i in 0..BUFFER_WIDTH + 1 {
        writer.write_byte(b'0' + (i % 10) as u8);
    }
    assert_eq!(writer.column_position(), 1);
    assert_history_scrolled_by(&writer, 1);
    for col in 0..BUFFER_WIDTH {
        assert_eq!(writer.read(LAST - 1, col), white(b'0' + (col % 10) as u8));
    }
    assert_eq!(writer.read(LAST, 0), white(b'0'));
    for col in 1..BUFFER_WIDTH {
        assert_eq!(writer.read(LAST, col), white(b' '));
    }
}

#[test]
fn eighty_one_letters_scroll_exactly_once() {
    let mut writer = lettered_writer();
    for _ in 0..81 {
        writer.write_byte(b'A');
    }
    assert_eq!(writer.column_position(), 1);
    assert_eq!(writer.read(LAST, 0), white(b'A'));
    assert_eq!(writer.read(LAST, 1), white(b' '));
    assert_eq!(row_of(&writer, LAST - 1), vec![white(b'A'); BUFFER_WIDTH]);
    assert_eq!(row_of(&writer, LAST - 2), vec![letter_of(LAST - 1); BUFFER_WIDTH]);
    assert_eq!(row_of(&writer, 0), vec![letter_of(1); BUFFER_WIDTH]);
}

#[test]
fn newline_after_a_full_row_scrolls_once_not_twice() {
    let mut writer = lettered_writer();
    for _ in 0..BUFFER_WIDTH {
        writer.write_byte(b'A');
    }
    writer.write_byte(b'\n');
    assert_eq!(writer.column_position(), 0);
    assert_eq!(row_of(&writer, LAST), vec![white(b' '); BUFFER_WIDTH]);
    assert_eq!(row_of(&writer, LAST - 1), vec![white(b'A'); BUFFER_WIDTH]);
    assert_eq!(row_of(&writer, LAST - 2), vec![letter_of(LAST - 1); BUFFER_WIDTH]);
}

#[test]
fn writing_from_mid_row_wraps_where_the_row_ends() {
    let mut writer = lettered_writer();
    for _ in 0..5 {
        writer.write_byte(b'.');
    }
    for _ in 0..BUFFER_WIDTH {
        writer.write_byte(b'A');
    }
    assert_eq!(writer.column_position(), 5);
    for col in 0..5 {
        assert_eq!(writer.read(LAST - 1, col), white(b'.'));
        assert_eq!(writer.read(LAST, col), white(b'A'));
    }
    for col in 5..BUFFER_WIDTH {
        assert_eq!(writer.read(LAST - 1, col), white(b'A'));
        assert_eq!(writer.read(LAST, col), white(b' '));
    }
}

#[test]
fn hi_newline_leaves_the_bottom_row_empty() {
    let mut writer = lettered_writer();
    writer.write_string("Hi\n");
    assert_eq!(writer.column_position(), 0);
    assert_eq!(row_of(&writer, LAST), vec![white(b' '); BUFFER_WIDTH]);
    assert_eq!(writer.read(LAST - 1, 0), white(b'H'));
    assert_eq!(writer.read(LAST - 1, 1), white(b'i'));
    assert_eq!(writer.read(LAST - 1, 2), letter_of(LAST));
    assert_eq!(row_of(&writer, 0), vec![letter_of(1); BUFFER_WIDTH]);
}

#[test]
fn write_string_writes_printable_text_as_it_is() {
    let mut writer = lettered_writer();
    writer.write_string("Hello, World! ~");
    let text = b"Hello, World! ~";
    for (col, byte) in text.iter().enumerate() {
        assert_eq!(writer.read(LAST, col), white(*byte));
    }
    assert_eq!(writer.column_position(), text.len());
    assert_eq!(writer.read(LAST, text.len()), letter_of(LAST));
}

#[test]
fn write_string_of_nothing_changes_nothing() {
    let mut writer = lettered_writer();
    writer.write_string("ab");
    writer.write_string("");
    assert_eq!(writer.column_position(), 2);
    assert_eq!(writer.read(LAST, 2), letter_of(LAST));
    assert_history_scrolled_by(&writer, 0);
}

#[test]
fn control_byte_is_shown_as_the_sentinel() {
    let mut writer = lettered_writer();
    writer.write_string("ab");
    let column = writer.column_position();
    writer.write_string("\u{1}");
    assert_eq!(writer.read(LAST, column).ascii, 0xFE);
    assert_eq!(writer.read(LAST, column), white(0xFE));
    assert_eq!(writer.column_position(), column + 1);
}

#[test]
fn write_string_replaces_what_it_cannot_show() {
    let mut writer = lettered_writer();
    writer.write_string("a\tb\rc\u{7f}d\u{0}e");
    let expected = [b'a', 0xFE, b'b', 0xFE, b'c', 0xFE, b'd', 0xFE, b'e'];
    for (col, byte) in expected.iter().enumerate() {
        assert_eq!(writer.read(LAST, col).ascii, *byte);
    }
    assert_eq!(writer.column_position(), expected.len());
}

#[test]
fn write_string_shows_one_sentinel_for_each_byte_of_a_wide_character() {
    let mut writer = lettered_writer();
    writer.write_string("h\u{e9}!");
    assert_eq!(writer.read(LAST, 0).ascii, b'h');
    assert_eq!(writer.read(LAST, 1).ascii, 0xFE);
    assert_eq!(writer.read(LAST, 2).ascii, 0xFE);
    assert_eq!(writer.read(LAST, 3).ascii, b'!');
    assert_eq!(writer.column_position(), 4);

    let mut writer = lettered_writer();
    writer.write_string("\u{20ac}");
    assert_eq!(writer.column_position(), 3);
    for col in 0..3 {
        assert_eq!(writer.read(LAST, col).ascii, 0xFE);
    }
}

#[test]
fn write_string_in_pieces_is_write_string_as_one() {
    let mut whole = lettered_writer();
    whole.write_string("first line\nsecond\u{1} line");
    let mut pieces = lettered_writer();
    pieces.write_string("first li");
    pieces.write_string("ne\nsecond");
    pieces.write_string("\u{1} line");
    assert_eq!(whole.column_position(), pieces.column_position());
    for row in 0..BUFFER_HEIGHT {
        assert_eq!(row_of(&whole, row), row_of(&pieces, row));
    }
}

#[test]
fn write_string_keeps_a_clean_display_clean() {
    let mut writer = lettered_writer();
    let mut text = String::new();
    for code in 0..0x250u32 {
        text.push(char::from_u32(code).unwrap());
    }
    writer.write_string(&text);
    for row in 0..BUFFER_HEIGHT {
        for col in 0..BUFFER_WIDTH {
            let ascii = writer.read(row, col).ascii;
            assert!((0x20..=0x7E).contains(&ascii) || ascii == 0xFE);
        }
    }
}

#[test]
fn long_text_wraps_and_scrolls() {
    let mut writer = lettered_writer();
    let text = "x".repeat(2 * BUFFER_WIDTH + 3);
    writer.write_string(&text);
    assert_eq!(writer.column_position(), 3);
    assert_eq!(row_of(&writer, LAST - 1), vec![white(b'x'); BUFFER_WIDTH]);
    assert_eq!(row_of(&writer, LAST - 2), vec![white(b'x'); BUFFER_WIDTH]);
    assert_eq!(row_of(&writer, LAST - 3), vec![letter_of(LAST - 1); BUFFER_WIDTH]);
    for col in 0..3 {
        assert_eq!(writer.read(LAST, col), white(b'x'));
    }
    for col in 3..BUFFER_WIDTH {
        assert_eq!(writer.read(LAST, col), white(b' '));
    }
}

#[test]
fn set_color_code_changes_nothing_on_display() {
    let mut writer = lettered_writer();
    writer.write_string("abc");
    let colors = ColorCode::new(Color::Red, Color::White);
    writer.set_color_code(colors);
    assert_eq!(writer.color_code(), colors);
    assert_eq!(writer.column_position(), 3);
    assert_eq!(writer.read(LAST, 0), white(b'a'));
    assert_eq!(writer.read(LAST, 3), letter_of(LAST));
}
