//! The sixteen-color palette of the text display and the attribute byte
//! that pairs a foreground color with a background color.

use vstd::prelude::*;

verus! {

/// The colors of the display's four-bit palette, in palette order.
#[derive(Debug, Clone, Copy, PartialEq, Eq, Structural)]
pub enum Color {
    Black,
    Blue,
    Green,
    Cyan,
    Red,
    Magenta,
    Brown,
    LightGray,
    DarkGray,
    LightBlue,
    LightGreen,
    LightCyan,
    LightRed,
    Pink,
    Yellow,
    White,
}

impl Color {
    /// The palette number of the color: `Black` is 0 and `White` is 15.
    pub open spec fn spec_code(self) -> u8 {
        match self {
            Color::Black => 0,
            Color::Blue => 1,
            Color::Green => 2,
            Color::Cyan => 3,
            Color::Red => 4,
            Color::Magenta => 5,
            Color::Brown => 6,
            Color::LightGray => 7,
            Color::DarkGray => 8,
            Color::LightBlue => 9,
            Color::LightGreen => 10,
            Color::LightCyan => 11,
            Color::LightRed => 12,
            Color::Pink => 13,
            Color::Yellow => 14,
            Color::White => 15,
        }
    }

    /// The palette number of the color, as the hardware numbers it.
    #[verifier::when_used_as_spec(spec_code)]
    pub fn code(self) -> (n: u8)
        ensures
            n == self.spec_code(),
            n < 16,
    {
        match self {
            Color::Black => 0,
            Color::Blue => 1,
            Color::Green => 2,
            Color::Cyan => 3,
            Color::Red => 4,
            Color::Magenta => 5,
            Color::Brown => 6,
            Color::LightGray => 7,
            Color::DarkGray => 8,
            Color::LightBlue => 9,
            Color::LightGreen => 10,
            Color::LightCyan => 11,
            Color::LightRed => 12,
            Color::Pink => 13,
            Color::Yellow => 14,
            Color::White => 15,
        }
    }
}

/// An attribute byte: the foreground color in the low four bits, the
/// background color in the high four bits.
#[derive(Debug, Clone, Copy, PartialEq, Eq, Structural)]
pub struct ColorCode(u8);

impl View for ColorCode {
    type V = u8;

    /// The attribute byte itself.
    closed spec fn view(&self) -> u8 {
        self.0
    }
}

impl ColorCode {
    /// The attribute byte for `foreground` on `background`.
    pub open spec fn encode(foreground: Color, background: Color) -> u8 {
        (16 * background.code() + foreground.code()) as u8
    }

    /// The color code with the given attribute byte.
    pub closed spec fn spec_from_byte(byte: u8) -> ColorCode {
        ColorCode(byte)
    }

    /// The color code for `foreground` on `background`.
    pub closed spec fn spec_new(foreground: Color, background: Color) -> ColorCode {
        ColorCode(Self::encode(foreground, background))
    }

    /// Pairs a foreground color with a background color.
    #[verifier::when_used_as_spec(spec_new)]
    pub fn new(foreground: Color, background: Color) -> (code: ColorCode)
        ensures
            code == Self::spec_new(foreground, background),
            code@ == Self::encode(foreground, background),
            code@ == (background.code() << 4) | foreground.code(),
    {
        let fg: u8 = foreground.code();
        let bg: u8 = background.code();
        assert((bg << 4) | fg == 16 * bg + fg) by (bit_vector)
            requires
                fg < 16,
                bg < 16,
        ;
        ColorCode((bg << 4) | fg)
    }

    /// The color code that an attribute byte read from the display stands for.
    #[verifier::when_used_as_spec(spec_from_byte)]
    pub fn from_byte(byte: u8) -> (code: ColorCode)
        ensures
            code == Self::spec_from_byte(byte),
            code@ == byte,
    {
        ColorCode(byte)
    }

    /// The attribute byte, as the display reads it.
    pub fn as_byte(self) -> (byte: u8)
        ensures
            byte == self@,
        no_unwind
    {
        self.0
    }

    /// The attribute byte of the code for a pair of colors.
    pub broadcast proof fn lemma_new_view(foreground: Color, background: Color)
        ensures
            (#[trigger] Self::spec_new(foreground, background))@ == Self::encode(
                foreground,
                background,
            ),
    {
    }

    /// A color code is its attribute byte and nothing more.
    pub broadcast proof fn lemma_byte_round_trip(code: ColorCode)
        ensures
            #[trigger] Self::spec_from_byte(code@) == code,
    {
    }

    /// Reading the byte of a code made from a byte gives that byte back.
    pub broadcast proof fn lemma_from_byte_view(byte: u8)
        ensures
            #[trigger] Self::spec_from_byte(byte)@ == byte,
    {
    }

    /// The two colors can be read back from the attribute byte: the
    /// foreground from bits 0 to 3, the background from bits 4 to 7.
    pub proof fn lemma_encode_nibbles(foreground: Color, background: Color)
        ensures
            Self::encode(foreground, background) & 0x0f == foreground.code(),
            Self::encode(foreground, background) >> 4 == background.code(),
            Self::encode(foreground, background) % 16 == foreground.code(),
            Self::encode(foreground, background) / 16 == background.code(),
    {
        let fg: u8 = foreground.code();
        let bg: u8 = background.code();
        let byte: u8 = Self::encode(foreground, background);
        assert(byte == 16 * bg + fg);
        assert(byte & 0x0f == fg && byte >> 4 == bg) by (bit_vector)
            requires
                fg < 16,
                bg < 16,
                byte == 16 * bg + fg,
        ;
    }

    /// Distinct pairs of colors have distinct attribute bytes.
    pub proof fn lemma_encode_injective(f1: Color, b1: Color, f2: Color, b2: Color)
        requires
            Self::encode(f1, b1) == Self::encode(f2, b2),
        ensures
            f1 == f2,
            b1 == b2,
    {
    }
}

} // verus!
