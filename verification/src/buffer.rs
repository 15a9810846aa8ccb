//! Typed access to the cells of the display. Each cell is two bytes of
//! device memory, the glyph and then the attribute, and every read and write
//! of one goes through a volatile access.

use vstd::prelude::*;
use volatile::Volatile;
use crate::color::ColorCode;
use crate::screen::{ScreenChar, BUFFER_HEIGHT, BUFFER_WIDTH};

verus! {

/// `volatile::Volatile`, a value in memory that is only read and written by
/// volatile accesses. Nothing inside it is visible to the verifier.
#[verifier::external_type_specification]
#[verifier::external_body]
#[verifier::reject_recursive_types(T)]
pub struct ExVolatile<T: Copy>(Volatile<T>);

/// The two bytes that a cell holds: what the last write put there, or what
/// the memory held before any write.
pub uninterp spec fn cell_bytes(cell: Volatile<[u8; 2]>) -> Seq<u8>;

/// `Volatile::read`: a volatile read of the cell. Trusted to hand back a
/// copy of the bytes that the cell holds.
#[verifier::external_body]
fn cell_read(cell: &Volatile<[u8; 2]>) -> (bytes: [u8; 2])
    ensures
        bytes@ == cell_bytes(*cell),
{
    cell.read()
}

/// `Volatile::write`: a volatile write to the cell. Trusted to leave the
/// cell holding exactly the bytes given.
#[verifier::external_body]
fn cell_write(cell: &mut Volatile<[u8; 2]>, bytes: [u8; 2])
    ensures
        cell_bytes(*final(cell)) == bytes@,
    no_unwind
{
    cell.write(bytes)
}

/// Where the display memory lies on the machine.
pub const DISPLAY_ADDRESS: usize = 0xb8000;

/// The memory of the display: `BUFFER_HEIGHT` rows of `BUFFER_WIDTH` cells,
/// top row first.
pub type Cells = [[Volatile<[u8; 2]>; BUFFER_WIDTH]; BUFFER_HEIGHT];

/// The cell that two bytes of display memory stand for.
pub open spec fn decoded(bytes: Seq<u8>) -> ScreenChar {
    ScreenChar { ascii_character: bytes[0], color_code: ColorCode(bytes[1]) }
}

/// The grid of cells that the memory `cells` holds.
pub open spec fn grid_of(cells: Cells) -> Seq<Seq<ScreenChar>> {
    Seq::new(
        BUFFER_HEIGHT as nat,
        |row: int|
            Seq::new(BUFFER_WIDTH as nat, |col: int| decoded(cell_bytes(cells[row][col]))),
    )
}

/// The accessor of the display memory. It does not own the memory, which is
/// there before and after the program, but it is the only way to it.
pub struct Buffer {
    chars: &'static mut Cells,
}

impl View for Buffer {
    type V = Seq<Seq<ScreenChar>>;

    /// The grid of cells that the memory holds.
    closed spec fn view(&self) -> Seq<Seq<ScreenChar>> {
        grid_of(*self.chars)
    }
}

impl Buffer {
    /// An accessor for the display memory behind `chars`.
    pub fn new(chars: &'static mut Cells) -> (buffer: Buffer)
        ensures
            buffer@ == grid_of(*old(chars)),
            crate::screen::is_grid(buffer@),
    {
        Buffer { chars }
    }

    /// Every buffer is a grid of the fixed size.
    pub proof fn lemma_is_grid(&self)
        ensures
            crate::screen::is_grid(self@),
    {
    }

    /// Reads the cell at `row` and `col`.
    pub fn read(&self, row: usize, col: usize) -> (cell: ScreenChar)
        requires
            row < BUFFER_HEIGHT,
            col < BUFFER_WIDTH,
        ensures
            cell == self@[row as int][col as int],
    {
        let bytes = cell_read(&self.chars[row][col]);
        ScreenChar { ascii_character: bytes[0], color_code: ColorCode(bytes[1]) }
    }

    /// Writes `cell` at `row` and `col`; no other cell changes.
    pub fn write(&mut self, row: usize, col: usize, cell: ScreenChar)
        requires
            row < BUFFER_HEIGHT,
            col < BUFFER_WIDTH,
        ensures
            final(self)@ == old(self)@.update(
                row as int,
                old(self)@[row as int].update(col as int, cell),
            ),
        no_unwind
    {
        let bytes: [u8; 2] = [cell.ascii_character, cell.color_code.0];
        cell_write(&mut self.chars[row][col], bytes);
        assert(forall|r: int, c: int|
            0 <= r < BUFFER_HEIGHT && 0 <= c < BUFFER_WIDTH && !(r == row && c == col)
                ==> self.chars[r][c] == old(self).chars[r][c]);
        assert(self@[row as int] =~= old(self)@[row as int].update(col as int, cell));
        assert(self@ =~= old(self)@.update(
            row as int,
            old(self)@[row as int].update(col as int, cell),
        ));
    }
}

} // verus!
