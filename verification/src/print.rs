//! The ways to print a text on the console: in the active colors or in
//! colors of the caller's choice, with or without an end of line, or as
//! the report of an error.

use crate::color::{Color, ColorCode};
use crate::laws::lemma_write_string_then_newline;
use crate::screen::{error_tag, NEWLINE};
use crate::writer::Writer;
use vstd::prelude::*;
use vstd::string::StringSliceAdditionalSpecFns;

verus! {

/// Prints `text` in the active colors.
pub fn _print(writer: &mut Writer, text: &str)
    ensures
        final(writer)@ == old(writer)@.write_string(text.spec_bytes()),
        final(writer)@.color_code == old(writer)@.color_code,
        final(writer)@.wf(),
{
    writer.write_string(text);
}

/// Prints `text` in the active colors and ends the line.
pub fn println(writer: &mut Writer, text: &str)
    ensures
        final(writer)@ == old(writer)@.println(text.spec_bytes()),
        final(writer)@.color_code == old(writer)@.color_code,
        final(writer)@.wf(),
{
    proof {
        lemma_write_string_then_newline(writer@, text.spec_bytes());
    }
    writer.write_string(text);
    writer.write_byte(NEWLINE);
}

/// Prints `text` in `color` on black. The colors that were active before
/// the call are active again after it.
pub fn print_color(writer: &mut Writer, color: Color, text: &str)
    ensures
        final(writer)@ == old(writer)@.print_color(
            ColorCode::new(color, Color::Black),
            text.spec_bytes(),
        ),
        final(writer)@.color_code == old(writer)@.color_code,
        final(writer)@.wf(),
{
    let saved_color = writer.color_code();
    writer.set_color_code(ColorCode::new(color, Color::Black));

    writer.write_string(text);

    writer.set_color_code(saved_color);
}

/// Prints `text` in `color` on black and ends the line, the new bottom row
/// being empty in those colors. The colors that were active before the
/// call are active again after it.
pub fn println_color(writer: &mut Writer, color: Color, text: &str)
    ensures
        final(writer)@ == old(writer)@.println_color(
            ColorCode::new(color, Color::Black),
            text.spec_bytes(),
        ),
        final(writer)@.color_code == old(writer)@.color_code,
        final(writer)@.wf(),
{
    let saved_color = writer.color_code();
    writer.set_color_code(ColorCode::new(color, Color::Black));
    proof {
        lemma_write_string_then_newline(writer@, text.spec_bytes());
    }

    writer.write_string(text);
    writer.write_byte(NEWLINE);

    writer.set_color_code(saved_color);
}

/// Reports an error: prints the tag `[ERROR] ` in red on black, then
/// `text` in the active colors, and ends the line.
pub fn error(writer: &mut Writer, text: &str)
    ensures
        final(writer)@ == old(writer)@.error(text.spec_bytes()),
        final(writer)@.color_code == old(writer)@.color_code,
        final(writer)@.wf(),
{
    let tag = "[ERROR] ";
    proof {
        reveal_strlit("[ERROR] ");
        vstd::string::is_ascii_spec_bytes(tag);
        assert(tag.spec_bytes() =~= error_tag());
    }
    print_color(writer, Color::Red, tag);
    println(writer, text);
}

} // verus!
