//! One character cell of the display, and the sixteen-bit word that the
//! display adapter keeps for it.

use crate::color::ColorCode;
use vstd::prelude::*;

verus! {

/// The byte that stands for a space.
pub const SPACE: u8 = 0x20;

/// One cell of the display: a character byte and the colors it is shown in.
#[derive(Debug, Clone, Copy, PartialEq, Eq, Structural)]
pub struct Cell {
    pub ascii: u8,
    pub color_code: ColorCode,
}

impl Cell {
    /// The empty cell: a space in the given colors.
    pub open spec fn spec_blank(color_code: ColorCode) -> Cell {
        Cell { ascii: SPACE, color_code }
    }

    /// The word of display memory that shows this cell. The adapter reads
    /// the character from the byte at the lower address and the attribute
    /// from the byte above it; in a little-endian word these are the low
    /// and the high byte.
    pub open spec fn spec_to_word(self) -> u16 {
        (256 * self.color_code@ + self.ascii) as u16
    }

    /// The cell that a word of display memory shows.
    pub open spec fn spec_from_word(word: u16) -> Cell {
        Cell { ascii: (word % 256) as u8, color_code: ColorCode::spec_from_byte((word / 256) as u8) }
    }

    /// The empty cell: a space in the given colors.
    #[verifier::when_used_as_spec(spec_blank)]
    pub fn blank(color_code: ColorCode) -> (cell: Cell)
        ensures
            cell == Self::spec_blank(color_code),
    {
        Cell { ascii: SPACE, color_code }
    }

    /// Packs the cell into its word of display memory.
    #[verifier::when_used_as_spec(spec_to_word)]
    pub fn to_word(self) -> (word: u16)
        ensures
            word == self.spec_to_word(),
            word & 0xff == self.ascii,
            word >> 8 == self.color_code@,
        no_unwind
    {
        let low: u16 = self.ascii as u16;
        let high: u16 = self.color_code.as_byte() as u16;
        assert((high << 8) | low == 256 * high + low && ((high << 8) | low) & 0xff == low && ((high
            << 8) | low) >> 8 == high) by (bit_vector)
            requires
                low < 256,
                high < 256,
        ;
        (high << 8) | low
    }

    /// Unpacks a word of display memory.
    #[verifier::when_used_as_spec(spec_from_word)]
    pub fn from_word(word: u16) -> (cell: Cell)
        ensures
            cell == Self::spec_from_word(word),
    {
        assert(word & 0xff == word % 256 && word >> 8 == word / 256) by (bit_vector);
        let low: u16 = word & 0xff;
        let high: u16 = word >> 8;
        Cell { ascii: low as u8, color_code: ColorCode::from_byte(high as u8) }
    }

    /// Packing a cell and unpacking the word gives the cell back.
    pub broadcast proof fn lemma_word_round_trip(cell: Cell)
        ensures
            #[trigger] Self::spec_from_word(cell.spec_to_word()) == cell,
    {
        broadcast use ColorCode::lemma_byte_round_trip;

    }

    /// Unpacking a word and packing the cell gives the word back: every
    /// word of display memory shows exactly one cell.
    pub broadcast proof fn lemma_cell_round_trip(word: u16)
        ensures
            #[trigger] Self::spec_from_word(word).spec_to_word() == word,
    {
        broadcast use ColorCode::lemma_from_byte_view;

    }
}

} // verus!
