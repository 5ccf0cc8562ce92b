//! The display surface: a row-major grid of cells, each behind a volatile
//! access so that no read or write of it is merged or elided.
use vstd::prelude::*;

use volatile::Volatile;

use crate::color::ColorCode;

verus! {

/// Number of rows of the grid.
pub const BUFFER_HEIGHT: usize = 25;

/// Number of columns of the grid.
pub const BUFFER_WIDTH: usize = 80;

/// Number of cells of the grid.
pub const BUFFER_CELLS: usize = BUFFER_HEIGHT * BUFFER_WIDTH;

/// One grid cell: a glyph byte followed by its attribute byte.
#[derive(Debug, Clone, Copy, PartialEq, Eq, Structural)]
pub struct ScreenChar {
    pub ascii_character: u8,
    pub color_code: ColorCode,
}

#[verifier::external_type_specification]
#[verifier::external_body]
#[verifier::reject_recursive_types(T)]
pub struct ExVolatile<T: Copy>(Volatile<T>);

/// The cell value that a volatile cell currently holds.
pub uninterp spec fn volatile_value(v: Volatile<ScreenChar>) -> ScreenChar;

/// Relies on volatile::Volatile::new: the new cell holds the given value.
#[verifier::external_body]
fn cell_new(c: ScreenChar) -> (r: Volatile<ScreenChar>)
    ensures
        volatile_value(r) == c,
{
    Volatile::new(c)
}

/// Relies on volatile::Volatile::read: returns the value the cell holds.
#[verifier::external_body]
fn cell_read(v: &Volatile<ScreenChar>) -> (r: ScreenChar)
    ensures
        r == volatile_value(*v),
{
    v.read()
}

/// Relies on volatile::Volatile::write: the cell then holds the given value.
#[verifier::external_body]
fn cell_write(v: &mut Volatile<ScreenChar>, c: ScreenChar)
    ensures
        volatile_value(*final(v)) == c,
{
    v.write(c)
}

/// The grid, stored row-major: cell (row, col) sits at `row * 80 + col`.
pub struct Buffer {
    chars: Vec<Volatile<ScreenChar>>,
}

impl View for Buffer {
    type V = Seq<ScreenChar>;

    closed spec fn view(&self) -> Seq<ScreenChar> {
        self.chars@.map_values(|v: Volatile<ScreenChar>| volatile_value(v))
    }
}

/// The position of cell (row, col) in the row-major sequence.
pub open spec fn cell_index(row: int, col: int) -> int {
    row * BUFFER_WIDTH as int + col
}

impl Buffer {
    /// The grid has its fixed size.
    pub open spec fn wf(&self) -> bool {
        self@.len() == BUFFER_CELLS
    }

    /// A grid whose every cell holds `fill`.
    pub fn filled(fill: ScreenChar) -> (r: Buffer)
        ensures
            r.wf(),
            r@ == Seq::new(BUFFER_CELLS as nat, |i: int| fill),
    {
        let mut chars: Vec<Volatile<ScreenChar>> = Vec::new();
        let mut i: usize = 0;
        while i < BUFFER_CELLS
            invariant
                i <= BUFFER_CELLS,
                chars@.len() == i,
                forall|k: int| 0 <= k < i ==> volatile_value(#[trigger] chars@[k]) == fill,
            decreases BUFFER_CELLS - i,
        {
            chars.push(cell_new(fill));
            i += 1;
        }
        let r = Buffer { chars };
        assert(r@ =~= Seq::new(BUFFER_CELLS as nat, |i: int| fill));
        r
    }

    /// The number of cells.
    pub fn len(&self) -> (r: usize)
        ensures
            r == self@.len(),
    {
        self.chars.len()
    }

    /// Reads the cell at (row, col).
    pub fn read(&self, row: usize, col: usize) -> (r: ScreenChar)
        requires
            self.wf(),
            row < BUFFER_HEIGHT,
            col < BUFFER_WIDTH,
        ensures
            r == self@[cell_index(row as int, col as int)],
    {
        cell_read(&self.chars[row * BUFFER_WIDTH + col])
    }

    /// Writes the cell at (row, col) and leaves every other cell as it was.
    pub fn write(&mut self, row: usize, col: usize, c: ScreenChar)
        requires
            old(self).wf(),
            row < BUFFER_HEIGHT,
            col < BUFFER_WIDTH,
        ensures
            final(self).wf(),
            final(self)@ == old(self)@.update(cell_index(row as int, col as int), c),
    {
        let ghost before = self@;
        cell_write(&mut self.chars[row * BUFFER_WIDTH + col], c);
        assert(self@ =~= before.update(cell_index(row as int, col as int), c));
    }
}

} // verus!
