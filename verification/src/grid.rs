//! The character grid: display memory seen as rows of cells, read and
//! written through volatile accesses only.

use crate::cell::Cell;
use volatile::Volatile;
use vstd::prelude::*;

verus! {

/// The number of rows of the display.
pub const BUFFER_HEIGHT: usize = 25;

/// The number of cells in a row of the display.
pub const BUFFER_WIDTH: usize = 80;

/// `volatile::Volatile`, a value that is only ever read and written by
/// volatile accesses. Verus sees nothing inside it.
#[verifier::external_type_specification]
#[verifier::external_body]
#[verifier::reject_recursive_types(T)]
pub struct ExVolatile<T: Copy>(Volatile<T>);

/// The word that a slot of display memory holds.
pub uninterp spec fn stored(slot: Volatile<u16>) -> u16;

/// `Volatile::read`. Trusted: the word read is the word that the slot
/// holds. This treats display memory as memory, which nothing but a write
/// to the slot changes.
#[verifier::external_body]
fn volatile_read(slot: &Volatile<u16>) -> (word: u16)
    ensures
        word == stored(*slot),
{
    slot.read()
}

/// `Volatile::write`. Trusted: afterwards the slot holds the word written,
/// and the call does not panic.
#[verifier::external_body]
fn volatile_write(slot: &mut Volatile<u16>, word: u16)
    ensures
        stored(*final(slot)) == word,
    no_unwind
{
    slot.write(word)
}

/// Display memory: one word for each cell, row after row.
pub type Region = [[Volatile<u16>; BUFFER_WIDTH]; BUFFER_HEIGHT];

/// The cells that a region of display memory shows, row by row.
pub open spec fn shown(region: Region) -> Seq<Seq<Cell>> {
    Seq::new(
        BUFFER_HEIGHT as nat,
        |row: int|
            Seq::new(BUFFER_WIDTH as nat, |col: int| Cell::spec_from_word(stored(region[row][col]))),
    )
}

/// Whether `cells` has the shape of the display: `BUFFER_HEIGHT` rows of
/// `BUFFER_WIDTH` cells.
pub open spec fn grid_shaped(cells: Seq<Seq<Cell>>) -> bool {
    &&& cells.len() == BUFFER_HEIGHT
    &&& forall|row: int| 0 <= row < BUFFER_HEIGHT ==> (#[trigger] cells[row]).len() == BUFFER_WIDTH
}

/// The one view of the display's memory. It holds the region exclusively,
/// for good, and touches it by volatile reads and writes only.
pub struct Grid {
    region: &'static mut Region,
}

impl View for Grid {
    type V = Seq<Seq<Cell>>;

    /// The cells on display, row by row.
    closed spec fn view(&self) -> Seq<Seq<Cell>> {
        shown(*self.region)
    }
}

impl Grid {
    /// Takes over a region of display memory.
    pub fn new(region: &'static mut Region) -> (grid: Grid)
        ensures
            grid@ == shown(*old(region)),
    {
        Grid { region }
    }

    /// Every grid has the shape of the display.
    pub proof fn lemma_shaped(&self)
        ensures
            grid_shaped(self@),
    {
    }

    /// Reads the cell at `row`, `col`.
    pub fn read(&self, row: usize, col: usize) -> (cell: Cell)
        requires
            row < BUFFER_HEIGHT,
            col < BUFFER_WIDTH,
        ensures
            cell == self@[row as int][col as int],
    {
        Cell::from_word(volatile_read(&self.region[row][col]))
    }

    /// Writes `cell` at `row`, `col` and leaves every other cell as it was.
    pub fn write(&mut self, row: usize, col: usize, cell: Cell)
        requires
            row < BUFFER_HEIGHT,
            col < BUFFER_WIDTH,
        ensures
            final(self)@ == old(self)@.update(
                row as int,
                old(self)@[row as int].update(col as int, cell),
            ),
        no_unwind
    {
        broadcast use Cell::lemma_word_round_trip;

        volatile_write(&mut self.region[row][col], cell.to_word());
        assert(self@ =~~= old(self)@.update(
            row as int,
            old(self)@[row as int].update(col as int, cell),
        ));
    }
}

} // verus!
