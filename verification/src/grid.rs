//! The map of the world: a rectangular grid of cells, each a wall or empty.
//!
//! Cells are addressed by a column `cx` and a row `cy`, both counted from
//! zero. A grid has no operation that changes it. Everything outside the grid
//! counts as wall.

use vstd::prelude::*;
use crate::fixed::{floor_to_units, floor_units};

verus! {

/// What fills a cell.
#[derive(Clone, Copy, Debug, PartialEq, Eq, Structural)]
pub enum CellKind {
    Wall,
    Empty,
}

/// A grid of `width * height` cells, stored row by row.
pub struct Grid {
    width: usize,
    height: usize,
    cells: Vec<CellKind>,
}

/// Width and height of the built-in map.
pub const REFERENCE_SIZE: usize = 16;

/// The rows of the built-in map, top row first. In each row the leftmost
/// binary digit is column 0, and a 1 is a wall.
pub const REFERENCE_ROWS: [u16; 16] = [
    0b1111_1111_1111_1111,
    0b1000_0000_0000_0001,
    0b1000_0000_1111_1111,
    0b1000_0000_0000_0001,
    0b1000_0110_0000_0001,
    0b1000_0110_0000_0001,
    0b1000_0000_0000_0001,
    0b1110_0000_0000_0001,
    0b1000_0111_1001_1111,
    0b1000_0100_0000_0001,
    0b1000_0100_0000_0001,
    0b1000_0000_0000_0001,
    0b1000_0000_0000_0001,
    0b0000_0111_1111_1111,
    0b0000_0000_0000_0001,
    0b0001_1111_1111_1111,
];

/// The cell of the built-in map at column `cx` of row `cy`, for
/// `0 <= cx < 16` and `0 <= cy < 16`.
pub open spec fn reference_cell(cx: int, cy: int) -> CellKind {
    if (REFERENCE_ROWS[cy] >> ((15 - cx) as u16)) & 1 == 1 {
        CellKind::Wall
    } else {
        CellKind::Empty
    }
}

/// A row-major index stays inside the grid.
pub proof fn lemma_index_in_grid(cx: int, cy: int, width: int, height: int)
    requires
        0 <= cx < width,
        0 <= cy < height,
    ensures
        0 <= cy * width + cx < width * height,
{
    assert(0 <= cy * width && cy * width + width <= width * height) by (nonlinear_arith)
        requires
            0 <= cy < height,
            0 < width,
    ;
}

impl Grid {
    /// The number of columns.
    pub closed spec fn spec_width(&self) -> int {
        self.width as int
    }

    /// The number of rows.
    pub closed spec fn spec_height(&self) -> int {
        self.height as int
    }

    /// The cells, row by row.
    pub closed spec fn spec_cells(&self) -> Seq<CellKind> {
        self.cells@
    }

    /// There is exactly one stored cell for each place of the grid.
    pub open spec fn wf(&self) -> bool {
        &&& 0 <= self.spec_width()
        &&& 0 <= self.spec_height()
        &&& self.spec_cells().len() == self.spec_width() * self.spec_height()
    }

    /// Whether the cell `(cx, cy)` lies on the grid.
    pub open spec fn in_bounds(&self, cx: int, cy: int) -> bool {
        0 <= cx < self.spec_width() && 0 <= cy < self.spec_height()
    }

    /// The kind of the cell `(cx, cy)`: the stored cell on the grid, wall
    /// outside it.
    pub open spec fn at_spec(&self, cx: int, cy: int) -> CellKind {
        if self.in_bounds(cx, cy) {
            self.spec_cells()[cy * self.spec_width() + cx]
        } else {
            CellKind::Wall
        }
    }

    /// Whether the point with the fixed-point coordinates `(x, y)` lies in a
    /// wall or outside the grid.
    pub open spec fn is_blocking_spec(&self, x: int, y: int) -> bool {
        self.at_spec(floor_units(x), floor_units(y)) == CellKind::Wall
    }

    /// A grid of the given size from its cells, row by row. `None` when the
    /// number of cells is not `width * height`.
    pub fn new(width: usize, height: usize, cells: Vec<CellKind>) -> (made: Option<Grid>)
        ensures
            made is Some <==> cells@.len() == width * height,
            made matches Some(m) ==> {
                &&& m.wf()
                &&& m.spec_width() == width
                &&& m.spec_height() == height
                &&& m.spec_cells() == cells@
            },
    {
        let given: usize = cells.len();
        match width.checked_mul(height) {
            Some(count) => {
                if given == count {
                    Some(Grid { width, height, cells })
                } else {
                    None
                }
            },
            None => None,
        }
    }

    /// The built-in map of 16 by 16 cells.
    pub fn reference() -> (m: Grid)
        ensures
            m.wf(),
            m.spec_width() == REFERENCE_SIZE,
            m.spec_height() == REFERENCE_SIZE,
            forall|cx: int, cy: int|
                0 <= cx < REFERENCE_SIZE && 0 <= cy < REFERENCE_SIZE ==> #[trigger] m.at_spec(cx, cy)
                    == reference_cell(cx, cy),
    {
        let mut cells: Vec<CellKind> = Vec::new();
        let mut cy: usize = 0;
        while cy < REFERENCE_SIZE
            invariant
                cy <= REFERENCE_SIZE,
                cells@.len() == cy * REFERENCE_SIZE,
                forall|x: int, y: int|
                    0 <= x < REFERENCE_SIZE && 0 <= y < cy ==> cells@[y * REFERENCE_SIZE + x]
                        == reference_cell(x, y),
            decreases REFERENCE_SIZE - cy,
        {
            let mut cx: usize = 0;
            while cx < REFERENCE_SIZE
                invariant
                    cy < REFERENCE_SIZE,
                    cx <= REFERENCE_SIZE,
                    cells@.len() == cy * REFERENCE_SIZE + cx,
                    forall|x: int, y: int|
                        0 <= x < REFERENCE_SIZE && 0 <= y < cy ==> cells@[y * REFERENCE_SIZE + x]
                            == reference_cell(x, y),
                    forall|x: int|
                        0 <= x < cx ==> cells@[cy * REFERENCE_SIZE + x] == reference_cell(x, cy as int),
                decreases REFERENCE_SIZE - cx,
            {
                let shift: u16 = (15 - cx) as u16;
                let kind = if (REFERENCE_ROWS[cy] >> shift) & 1 == 1 {
                    CellKind::Wall
                } else {
                    CellKind::Empty
                };
                cells.push(kind);
                cx = cx + 1;
            }
            cy = cy + 1;
        }
        let m = Grid { width: REFERENCE_SIZE, height: REFERENCE_SIZE, cells };
        assert forall|cx: int, cy: int|
            0 <= cx < REFERENCE_SIZE && 0 <= cy < REFERENCE_SIZE implies #[trigger] m.at_spec(cx, cy)
                == reference_cell(cx, cy) by {
            assert(m.spec_cells()[cy * REFERENCE_SIZE + cx] == reference_cell(cx, cy));
        }
        m
    }

    /// The number of columns.
    pub fn width(&self) -> (w: usize)
        ensures
            w == self.spec_width(),
    {
        self.width
    }

    /// The number of rows.
    pub fn height(&self) -> (h: usize)
        ensures
            h == self.spec_height(),
    {
        self.height
    }

    /// Whether the cell `(cx, cy)` lies on the grid.
    pub fn contains(&self, cx: i128, cy: i128) -> (inside: bool)
        ensures
            inside == self.in_bounds(cx as int, cy as int),
    {
        0 <= cx && cx < self.width as i128 && 0 <= cy && cy < self.height as i128
    }

    /// The kind of the cell `(cx, cy)`: the stored cell on the grid, wall
    /// outside it.
    pub fn at(&self, cx: i128, cy: i128) -> (kind: CellKind)
        requires
            self.wf(),
        ensures
            kind == self.at_spec(cx as int, cy as int),
    {
        if self.contains(cx, cy) {
            let count: usize = self.cells.len();
            proof {
                lemma_index_in_grid(cx as int, cy as int, self.spec_width(), self.spec_height());
                assert(cy * self.width + cx < count);
                assert(0 <= cy * self.width) by (nonlinear_arith)
                    requires
                        0 <= cy,
                        0 <= self.width,
                ;
            }
            let index: usize = (cy as usize) * self.width + (cx as usize);
            self.cells[index]
        } else {
            CellKind::Wall
        }
    }

    /// Whether the point with the fixed-point coordinates `(x, y)` lies in a
    /// wall or outside the grid.
    pub fn is_blocking(&self, x: i128, y: i128) -> (blocking: bool)
        requires
            self.wf(),
        ensures
            blocking == self.is_blocking_spec(x as int, y as int),
    {
        let kind = self.at(floor_to_units(x), floor_to_units(y));
        kind == CellKind::Wall
    }
}

} // verus!
