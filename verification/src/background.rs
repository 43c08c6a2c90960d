//! The background colours of the GPU renderer's character cells, stored row
//! by row in one buffer.
use vstd::prelude::*;
use vstd::arithmetic::div_mod::{lemma_fundamental_div_mod_converse};

use crate::colors::RaclettuiColor;

verus! {

/// One background colour for each cell of a `rows` by `cols` grid, row by
/// row.
pub struct BackgroundGrid {
    pub rows: u32,
    pub cols: u32,
    pub bg_buffer: Vec<RaclettuiColor>,
}

/// The position in the buffer of the cell at `(row, col)` of a grid `cols`
/// cells wide.
pub open spec fn cell_index(cols: int, row: int, col: int) -> int {
    row * cols + col
}

/// Cells inside the grid have positions inside the buffer.
proof fn lemma_cell_index_bound(rows: int, cols: int, row: int, col: int)
    requires
        0 <= row < rows,
        0 <= col < cols,
    ensures
        0 <= cell_index(cols, row, col) < rows * cols,
{
    assert(0 <= row * cols + col < rows * cols) by (nonlinear_arith)
        requires
            0 <= row < rows,
            0 <= col < cols,
    ;
}

/// Distinct cells of the grid have distinct positions in the buffer.
pub proof fn lemma_cell_index_injective(cols: int, row: int, col: int, row2: int, col2: int)
    requires
        0 <= col < cols,
        0 <= col2 < cols,
        cell_index(cols, row, col) == cell_index(cols, row2, col2),
    ensures
        row == row2,
        col == col2,
{
    lemma_fundamental_div_mod_converse(row * cols + col, cols, row, col);
    lemma_fundamental_div_mod_converse(row2 * cols + col2, cols, row2, col2);
}

impl BackgroundGrid {
    /// The buffer holds one colour for each cell.
    pub open spec fn wf(&self) -> bool {
        &&& self.rows * self.cols <= u32::MAX
        &&& self.bg_buffer@.len() == self.rows * self.cols
    }

    /// The background of the cell at `(row, col)`.
    pub open spec fn bg_of(&self, row: int, col: int) -> RaclettuiColor {
        self.bg_buffer@[cell_index(self.cols as int, row, col)]
    }

    /// A `rows` by `cols` grid of transparent black backgrounds.
    pub fn new(rows: u32, cols: u32) -> (g: Self)
        requires
            rows * cols <= u32::MAX,
        ensures
            g.wf(),
            g.rows == rows,
            g.cols == cols,
            forall|row: int, col: int|
                0 <= row < rows && 0 <= col < cols ==> #[trigger] g.bg_of(row, col)@ == (
                    0u8,
                    0u8,
                    0u8,
                    0u8,
                ),
    {
        let n = rows * cols;
        let mut bg_buffer: Vec<RaclettuiColor> = Vec::new();
        for i in 0..n
            invariant
                bg_buffer@.len() == i,
                forall|k: int| 0 <= k < i ==> #[trigger] bg_buffer@[k]@ == (0u8, 0u8, 0u8, 0u8),
        {
            bg_buffer.push(RaclettuiColor::new());
        }
        let g = BackgroundGrid { rows, cols, bg_buffer };
        assert forall|row: int, col: int| 0 <= row < rows && 0 <= col < cols implies #[trigger] g.bg_of(
            row,
            col,
        )@ == (0u8, 0u8, 0u8, 0u8) by {
            lemma_cell_index_bound(rows as int, cols as int, row, col);
        }
        g
    }

    /// Sets the background of the cell at `(row, col)`.
    pub fn set_bg(&mut self, row: u32, col: u32, color: RaclettuiColor)
        requires
            old(self).wf(),
            row < old(self).rows,
            col < old(self).cols,
        ensures
            final(self).wf(),
            final(self).rows == old(self).rows,
            final(self).cols == old(self).cols,
            final(self).bg_buffer@ == old(self).bg_buffer@.update(
                cell_index(old(self).cols as int, row as int, col as int),
                color,
            ),
    {
        proof {
            lemma_cell_index_bound(self.rows as int, self.cols as int, row as int, col as int);
        }
        let idx = (row * self.cols + col) as usize;
        self.bg_buffer.set(idx, color);
    }

    /// The background of the cell at `(row, col)`.
    pub fn bg_at(&self, row: u32, col: u32) -> (c: RaclettuiColor)
        requires
            self.wf(),
            row < self.rows,
            col < self.cols,
        ensures
            c == self.bg_of(row as int, col as int),
    {
        proof {
            lemma_cell_index_bound(self.rows as int, self.cols as int, row as int, col as int);
        }
        self.bg_buffer[(row * self.cols + col) as usize]
    }
}

/// Reading a cell's background gives what was last set there, and setting
/// one cell's background leaves every other cell's as it was.
pub proof fn lemma_bg_read_after_write(
    g: BackgroundGrid,
    row: int,
    col: int,
    color: RaclettuiColor,
    row2: int,
    col2: int,
)
    requires
        g.wf(),
        0 <= row < g.rows,
        0 <= col < g.cols,
        0 <= row2 < g.rows,
        0 <= col2 < g.cols,
    ensures
        ({
            let after = g.bg_buffer@.update(cell_index(g.cols as int, row, col), color);
            &&& after[cell_index(g.cols as int, row, col)] == color
            &&& (row2 != row || col2 != col) ==> after[cell_index(g.cols as int, row2, col2)]
                == g.bg_of(row2, col2)
        }),
{
    lemma_cell_index_bound(g.rows as int, g.cols as int, row, col);
    lemma_cell_index_bound(g.rows as int, g.cols as int, row2, col2);
    if cell_index(g.cols as int, row, col) == cell_index(g.cols as int, row2, col2) {
        lemma_cell_index_injective(g.cols as int, row, col, row2, col2);
    }
}

} // verus!
