//! The frame buffer: the grid of cells that the display adapter reads, and the
//! only two ways this crate touches it.
//!
//! Every access goes through a volatile read or a volatile write of one whole
//! cell, so that none is dropped, merged or moved past another: the adapter
//! reads the same memory.

use vstd::prelude::*;
use volatile::Volatile;
use crate::cell::ScreenChar;
use crate::cell::lemma_cell_round_trip;

verus! {

/// The address at which the display adapter maps its text buffer.
pub const VGA_TEXT_BUFFER: usize = 0xb8000;

/// The number of rows of the grid.
pub const BUFFER_HEIGHT: usize = 25;

/// The number of columns of the grid.
pub const BUFFER_WIDTH: usize = 80;

/// `volatile::Volatile`, a cell of memory that is only read and written by
/// volatile accesses. Nothing inside it is visible here.
#[verifier::external_type_specification]
#[verifier::external_body]
#[verifier::reject_recursive_types(T)]
pub struct ExVolatile<T: Copy>(Volatile<T>);

/// The display memory as the adapter lays it out: row after row, each cell two
/// bytes, the character code first and the attribute byte second.
pub type Grid = [[Volatile<[u8; 2]>; BUFFER_WIDTH]; BUFFER_HEIGHT];

/// The two bytes that a cell of display memory holds.
pub uninterp spec fn cell_bytes(cell: Volatile<[u8; 2]>) -> Seq<u8>;

/// `Volatile::read`: one volatile read of the cell, which returns a copy of
/// the two bytes that the cell holds.
#[verifier::external_body]
fn volatile_read(cell: &Volatile<[u8; 2]>) -> (bytes: [u8; 2])
    ensures
        bytes@ == cell_bytes(*cell),
{
    cell.read()
}

/// `Volatile::write`: one volatile write, after which the cell holds the two
/// bytes given. It never panics.
#[verifier::external_body]
fn volatile_write(cell: &mut Volatile<[u8; 2]>, bytes: [u8; 2])
    ensures
        cell_bytes(*final(cell)) == bytes@,
    no_unwind
{
    cell.write(bytes)
}

/// The cells that a grid of display memory holds, as rows of cells, top row
/// first.
pub open spec fn grid_cells(grid: Grid) -> Seq<Seq<ScreenChar>> {
    Seq::new(
        BUFFER_HEIGHT as nat,
        |row: int|
            Seq::new(
                BUFFER_WIDTH as nat,
                |col: int| ScreenChar::spec_from_bytes(cell_bytes(grid@[row]@[col])),
            ),
    )
}

/// The exclusive handle to one grid of display memory.
pub struct Buffer {
    chars: &'static mut Grid,
}

impl Buffer {
    /// The cell at a position of the grid.
    pub closed spec fn cell_at(&self, row: int, col: int) -> ScreenChar {
        ScreenChar::spec_from_bytes(cell_bytes(self.chars@[row]@[col]))
    }

    /// Takes over a grid of display memory. The grid is used in place and
    /// keeps what it holds.
    pub fn new(chars: &'static mut Grid) -> (buffer: Buffer)
        ensures
            buffer@ == grid_cells(*old(chars)),
    {
        let buffer = Buffer { chars };
        proof {
            assert forall|row: int| 0 <= row < BUFFER_HEIGHT implies #[trigger] buffer@[row]
                == grid_cells(*old(chars))[row] by {
                assert(buffer@[row] =~= grid_cells(*old(chars))[row]);
            }
            assert(buffer@ =~= grid_cells(*old(chars)));
        }
        buffer
    }

    /// Reads the cell at a position by one volatile read.
    pub fn read(&self, row: usize, col: usize) -> (cell: ScreenChar)
        requires
            row < BUFFER_HEIGHT,
            col < BUFFER_WIDTH,
        ensures
            cell == self@[row as int][col as int],
    {
        ScreenChar::from_bytes(volatile_read(&self.chars[row][col]))
    }

    /// Writes the cell at a position by one volatile write. No other
    /// position changes.
    pub fn write(&mut self, row: usize, col: usize, cell: ScreenChar)
        requires
            row < BUFFER_HEIGHT,
            col < BUFFER_WIDTH,
        ensures
            final(self)@ == old(self)@.update(
                row as int,
                old(self)@[row as int].update(col as int, cell),
            ),
        no_unwind
    {
        volatile_write(&mut self.chars[row][col], cell.to_bytes());
        proof {
            lemma_cell_round_trip(cell);
            let before = old(self)@;
            let after = self@;
            let expected = before.update(row as int, before[row as int].update(col as int, cell));
            assert forall|r: int| 0 <= r < BUFFER_HEIGHT implies #[trigger] after[r]
                == expected[r] by {
                assert(after[r] =~= expected[r]);
            }
            assert(after =~= expected);
        }
    }
}

impl View for Buffer {
    type V = Seq<Seq<ScreenChar>>;

    /// The grid as rows of cells, top row first.
    open spec fn view(&self) -> Seq<Seq<ScreenChar>> {
        Seq::new(
            BUFFER_HEIGHT as nat,
            |row: int| Seq::new(BUFFER_WIDTH as nat, |col: int| self.cell_at(row, col)),
        )
    }
}

} // verus!
