//! The tile map: a fixed grid of open and wall cells.
//!
//! Cell values are 0 (open) and 1 (wall). World coordinates are
//! fixed-point units; a coordinate pair falls into the cell found by
//! flooring each coordinate divided by the cell edge. [`Grid::has_wall`]
//! is the single blocking test used by both player movement and the ray
//! march: any point outside the map's world extent counts as wall, and a
//! point on the far right or bottom edge, whose cell index would fall past
//! the last row or column, counts as wall too.

use vstd::prelude::*;

use crate::canvas::{fill, rect, stroke, Canvas, Color, DrawOp};
use crate::{CELL, MAP_HEIGHT, MAP_NUM_COLS, MAP_NUM_ROWS, MAP_WIDTH};

verus! {

/// The tile map.
pub struct Grid {
    pub cells: Vec<Vec<u8>>,
}

/// The built-in map: a walled border with an opening at the top, and a
/// few rooms and corridors inside.
pub open spec fn default_map() -> Seq<Seq<u8>> {
    seq![
        seq![1u8, 1, 1, 1, 1, 1, 1, 1, 1, 1, 1, 1, 0, 1, 1],
        seq![1u8, 0, 0, 0, 0, 0, 0, 0, 0, 0, 0, 0, 0, 0, 1],
        seq![1u8, 0, 0, 0, 0, 1, 0, 0, 0, 0, 0, 0, 1, 0, 1],
        seq![1u8, 1, 1, 1, 0, 0, 0, 0, 0, 0, 1, 0, 1, 0, 1],
        seq![1u8, 0, 0, 0, 0, 0, 0, 0, 0, 0, 1, 0, 1, 0, 1],
        seq![1u8, 0, 0, 0, 0, 0, 0, 0, 1, 1, 1, 1, 1, 0, 1],
        seq![1u8, 0, 0, 0, 0, 0, 0, 0, 0, 0, 0, 0, 0, 0, 1],
        seq![1u8, 0, 0, 0, 0, 0, 0, 0, 0, 0, 0, 0, 0, 0, 1],
        seq![1u8, 1, 1, 1, 1, 1, 0, 0, 0, 1, 1, 1, 1, 0, 1],
        seq![1u8, 0, 0, 0, 0, 0, 0, 0, 0, 0, 0, 0, 0, 0, 1],
        seq![1u8, 1, 1, 1, 1, 1, 1, 1, 1, 1, 1, 1, 1, 1, 1],
    ]
}

impl Grid {
    /// A well-formed grid has exactly the fixed number of rows and
    /// columns, and every cell is 0 or 1.
    pub open spec fn wf(self) -> bool {
        &&& self.cells@.len() == MAP_NUM_ROWS
        &&& forall|r: int|
            0 <= r < self.cells@.len() ==> (#[trigger] self.cells@[r])@.len() == MAP_NUM_COLS
        &&& forall|r: int, c: int|
            0 <= r < self.cells@.len() && 0 <= c < self.cells@[r]@.len() ==> (
            #[trigger] self.cells@[r]@[c]) <= 1
    }

    /// The value stored at `(row, col)`; an index past the stored rows or
    /// columns reads as wall.
    pub open spec fn spec_cell(self, row: int, col: int) -> u8 {
        if 0 <= row < self.cells@.len() && 0 <= col < self.cells@[row]@.len() {
            self.cells@[row]@[col]
        } else {
            1
        }
    }

    /// Whether the world point `(x, y)` is blocked: outside the map's
    /// world extent on any side, or inside a cell that stores a wall.
    pub open spec fn spec_has_wall(self, x: int, y: int) -> bool {
        ||| x < 0
        ||| x > MAP_WIDTH
        ||| y < 0
        ||| y > MAP_HEIGHT
        ||| self.spec_cell(y / (CELL as int), x / (CELL as int)) == 1
    }

    /// The built-in map.
    pub fn new() -> (g: Grid)
        ensures
            g.wf(),
            g.cells.deep_view() == default_map(),
    {
        let cells: Vec<Vec<u8>> = vec![
            vec![1u8, 1, 1, 1, 1, 1, 1, 1, 1, 1, 1, 1, 0, 1, 1],
            vec![1u8, 0, 0, 0, 0, 0, 0, 0, 0, 0, 0, 0, 0, 0, 1],
            vec![1u8, 0, 0, 0, 0, 1, 0, 0, 0, 0, 0, 0, 1, 0, 1],
            vec![1u8, 1, 1, 1, 0, 0, 0, 0, 0, 0, 1, 0, 1, 0, 1],
            vec![1u8, 0, 0, 0, 0, 0, 0, 0, 0, 0, 1, 0, 1, 0, 1],
            vec![1u8, 0, 0, 0, 0, 0, 0, 0, 1, 1, 1, 1, 1, 0, 1],
            vec![1u8, 0, 0, 0, 0, 0, 0, 0, 0, 0, 0, 0, 0, 0, 1],
            vec![1u8, 0, 0, 0, 0, 0, 0, 0, 0, 0, 0, 0, 0, 0, 1],
            vec![1u8, 1, 1, 1, 1, 1, 0, 0, 0, 1, 1, 1, 1, 0, 1],
            vec![1u8, 0, 0, 0, 0, 0, 0, 0, 0, 0, 0, 0, 0, 0, 1],
            vec![1u8, 1, 1, 1, 1, 1, 1, 1, 1, 1, 1, 1, 1, 1, 1],
        ];
        let g = Grid { cells };
        proof {
            assert(g.cells.deep_view() =~~= default_map());
        }
        g
    }

    /// Builds a grid from caller-supplied cells; returns the grid exactly
    /// when the rows, columns and cell values are well formed.
    pub fn from_cells(cells: Vec<Vec<u8>>) -> (r: Option<Grid>)
        ensures
            match r {
                Some(g) => g.wf() && g.cells@ == cells@,
                None => !(Grid { cells }).wf(),
            },
    {
        if cells.len() != MAP_NUM_ROWS {
            return None;
        }
        let mut row: usize = 0;
        while row < cells.len()
            invariant
                row <= cells@.len(),
                cells@.len() == MAP_NUM_ROWS,
                forall|r: int|
                    0 <= r < row ==> (#[trigger] cells@[r])@.len() == MAP_NUM_COLS,
                forall|r: int, c: int|
                    0 <= r < row && 0 <= c < cells@[r]@.len() ==> (#[trigger] cells@[r]@[c])
                        <= 1,
            decreases cells@.len() - row,
        {
            let row_cells = &cells[row];
            if row_cells.len() != MAP_NUM_COLS {
                proof {
                    assert(cells@[row as int]@.len() != MAP_NUM_COLS);
                }
                return None;
            }
            let mut col: usize = 0;
            while col < row_cells.len()
                invariant
                    col <= row_cells@.len(),
                    row < cells@.len(),
                    row_cells@ == cells@[row as int]@,
                    forall|c: int| 0 <= c < col ==> (#[trigger] row_cells@[c]) <= 1,
                decreases row_cells@.len() - col,
            {
                if row_cells[col] > 1 {
                    proof {
                        assert(cells@[row as int]@[col as int] > 1);
                    }
                    return None;
                }
                col += 1;
            }
            proof {
                assert(forall|c: int|
                    0 <= c < cells@[row as int]@.len() ==> (#[trigger] cells@[row as int]@[c])
                        <= 1);
            }
            row += 1;
        }
        Some(Grid { cells })
    }

    /// Whether the world point `(x, y)` is blocked.
    pub fn has_wall(&self, x: i64, y: i64) -> (r: bool)
        ensures
            r == self.spec_has_wall(x as int, y as int),
    {
        if x < 0 || x > MAP_WIDTH || y < 0 || y > MAP_HEIGHT {
            return true;
        }
        let row = ((y as u64) / (CELL as u64)) as usize;
        let col = ((x as u64) / (CELL as u64)) as usize;
        if row >= self.cells.len() {
            return true;
        }
        let row_cells = &self.cells[row];
        if col >= row_cells.len() {
            return true;
        }
        row_cells[col] == 1
    }
}

/// Fill colour of a cell value: walls are black, open cells white.
pub open spec fn cell_color(v: u8) -> Color {
    if v == 1 {
        Color::Black
    } else {
        Color::White
    }
}

impl Grid {
    /// The three commands that draw one cell: its square, a fill in the
    /// cell's colour, and a black outline.
    pub open spec fn spec_cell_ops(self, row: int, col: int) -> Seq<DrawOp> {
        seq![
            DrawOp::Rect {
                x: (col * CELL) as i64,
                y: (row * CELL) as i64,
                width: CELL,
                height: CELL,
            },
            DrawOp::Fill { color: cell_color(self.spec_cell(row, col)) },
            DrawOp::Stroke { color: Color::Black },
        ]
    }

    /// The commands for the first `ncols` cells of `row`, left to right.
    pub open spec fn spec_row_ops(self, row: int, ncols: int) -> Seq<DrawOp>
        decreases ncols,
    {
        if ncols <= 0 {
            Seq::empty()
        } else {
            self.spec_row_ops(row, ncols - 1) + self.spec_cell_ops(row, ncols - 1)
        }
    }

    /// The commands for the first `nrows` rows, top to bottom.
    pub open spec fn spec_rows_ops(self, nrows: int) -> Seq<DrawOp>
        decreases nrows,
    {
        if nrows <= 0 {
            Seq::empty()
        } else {
            self.spec_rows_ops(nrows - 1) + self.spec_row_ops(nrows - 1, MAP_NUM_COLS as int)
        }
    }

    /// Every command that drawing the whole map appends, in row-major
    /// order.
    pub open spec fn spec_render_ops(self) -> Seq<DrawOp> {
        self.spec_rows_ops(MAP_NUM_ROWS as int)
    }

    /// Draws the map: one outlined, colour-filled square per cell, row by
    /// row.
    pub fn render(&self, c: &mut Canvas)
        requires
            self.wf(),
        ensures
            final(c).ops@ == old(c).ops@ + self.spec_render_ops(),
    {
        let ghost ops0 = c.ops@;
        let mut row: usize = 0;
        while row < MAP_NUM_ROWS
            invariant
                self.wf(),
                row <= MAP_NUM_ROWS,
                c.ops@ == ops0 + self.spec_rows_ops(row as int),
            decreases MAP_NUM_ROWS - row,
        {
            let mut col: usize = 0;
            while col < MAP_NUM_COLS
                invariant
                    self.wf(),
                    row < MAP_NUM_ROWS,
                    col <= MAP_NUM_COLS,
                    c.ops@ == ops0 + self.spec_rows_ops(row as int) + self.spec_row_ops(
                        row as int,
                        col as int,
                    ),
                decreases MAP_NUM_COLS - col,
            {
                rect(c, (col as i64) * CELL, (row as i64) * CELL, CELL, CELL);
                if self.cells[row][col] == 1 {
                    fill(c, Color::Black);
                } else {
                    fill(c, Color::White);
                }
                stroke(c, Color::Black);
                proof {
                    assert(c.ops@ =~= ops0 + self.spec_rows_ops(row as int) + self.spec_row_ops(
                        row as int,
                        col as int + 1,
                    ));
                }
                col += 1;
            }
            proof {
                assert(c.ops@ =~= ops0 + self.spec_rows_ops(row as int + 1));
            }
            row += 1;
        }
    }
}

/// Every point outside the map's world extent is blocked.
pub proof fn lemma_wall_outside_bounds(g: Grid, x: int, y: int)
    requires
        x < 0 || x > MAP_WIDTH || y < 0 || y > MAP_HEIGHT,
    ensures
        g.spec_has_wall(x, y),
{
}

/// Inside the map's world extent, the blocking test reads exactly the
/// stored cell under the point: the row is the floor of `y` over the cell
/// edge and the column the floor of `x`.
pub proof fn lemma_wall_matches_cells(g: Grid, x: int, y: int)
    requires
        g.wf(),
        0 <= x < MAP_WIDTH,
        0 <= y < MAP_HEIGHT,
    ensures
        0 <= y / (CELL as int) < MAP_NUM_ROWS,
        0 <= x / (CELL as int) < MAP_NUM_COLS,
        g.spec_has_wall(x, y) == (g.cells@[y / (CELL as int)]@[x / (CELL as int)] == 1),
{
    let c = CELL as int;
    vstd::arithmetic::div_mod::lemma_div_pos_is_pos(x, c);
    vstd::arithmetic::div_mod::lemma_div_pos_is_pos(y, c);
    vstd::arithmetic::div_mod::lemma_multiply_divide_lt(x, c, MAP_NUM_COLS as int);
    vstd::arithmetic::div_mod::lemma_multiply_divide_lt(y, c, MAP_NUM_ROWS as int);
}

} // verus!
