//! The character grid: rows of cells, each a character with a foreground and a
//! background colour.
use vstd::prelude::*;

verus! {

/// One character cell of the grid.
#[derive(Clone, Copy, Debug)]
pub struct Cell {
    pub ch: char,
    pub fg_color: (u8, u8, u8),
    pub bg_color: (u8, u8, u8),
}

/// The cell a fresh grid is filled with: a space, white on black.
pub open spec fn default_cell() -> Cell {
    Cell { ch: ' ', fg_color: (255u8, 255u8, 255u8), bg_color: (0u8, 0u8, 0u8) }
}

impl Cell {
    pub fn new(ch: char, fg: (u8, u8, u8), bg: (u8, u8, u8)) -> (c: Self)
        ensures
            c == (Cell { ch, fg_color: fg, bg_color: bg }),
    {
        Self { ch, fg_color: fg, bg_color: bg }
    }
}

impl Default for Cell {
    fn default() -> (c: Self)
        ensures
            c == default_cell(),
    {
        Cell { ch: ' ', fg_color: (255, 255, 255), bg_color: (0, 0, 0) }
    }
}

/// What a grid holds: its dimensions and its cells, row by row.
#[verifier::ext_equal]
pub struct GridModel {
    pub rows: nat,
    pub cols: nat,
    pub cells: Seq<Seq<Cell>>,
}

impl GridModel {
    /// `rows` rows of `cols` cells each.
    pub open spec fn wf(self) -> bool {
        &&& self.cells.len() == self.rows
        &&& forall|r: int| 0 <= r < self.rows ==> #[trigger] self.cells[r].len() == self.cols
    }

    /// A `rows` by `cols` grid of default cells.
    pub open spec fn filled(rows: nat, cols: nat) -> GridModel {
        GridModel { rows, cols, cells: Seq::new(rows, |r: int| Seq::new(cols, |c: int| default_cell())) }
    }

    /// Whether `(row, col)` is a cell of the grid.
    pub open spec fn in_bounds(self, row: int, col: int) -> bool {
        0 <= row < self.rows && 0 <= col < self.cols
    }

    /// The cell at `(row, col)`, if there is one.
    pub open spec fn cell_at(self, row: int, col: int) -> Option<Cell> {
        if self.in_bounds(row, col) {
            Some(self.cells[row][col])
        } else {
            None
        }
    }

    /// The grid with the cell at `(row, col)` replaced, where there is one.
    pub open spec fn with_cell(self, row: int, col: int, cell: Cell) -> GridModel {
        if self.in_bounds(row, col) {
            GridModel { cells: self.cells.update(row, self.cells[row].update(col, cell)), ..self }
        } else {
            self
        }
    }

    /// The grid at `rows` by `cols`: cells inside both the old and the new
    /// dimensions keep their content, the others are default cells.
    pub open spec fn resized(self, rows: nat, cols: nat) -> GridModel {
        GridModel {
            rows,
            cols,
            cells: Seq::new(
                rows,
                |r: int|
                    Seq::new(
                        cols,
                        |c: int|
                            if r < self.rows && c < self.cols {
                                self.cells[r][c]
                            } else {
                                default_cell()
                            },
                    ),
            ),
        }
    }
}

/// A grid of `rows` by `cols` cells.
pub struct Grid {
    cells: Vec<Vec<Cell>>,
    cols: usize,
    rows: usize,
}

impl View for Grid {
    type V = GridModel;

    closed spec fn view(&self) -> GridModel {
        GridModel {
            rows: self.rows as nat,
            cols: self.cols as nat,
            cells: Seq::new(self.cells@.len(), |r: int| self.cells@[r]@),
        }
    }
}

/// A row of `cols` default cells.
fn default_row(cols: usize) -> (row: Vec<Cell>)
    ensures
        row@ == Seq::new(cols as nat, |c: int| default_cell()),
{
    let mut row: Vec<Cell> = Vec::new();
    for _j in 0..cols
        invariant
            row@ == Seq::new(_j as nat, |c: int| default_cell()),
    {
        row.push(Cell::default());
    }
    row
}

impl Grid {
    #[verifier::type_invariant]
    closed spec fn inv(self) -> bool {
        self@.wf()
    }

    /// A grid of `rows` by `cols` default cells.
    pub fn new(rows: usize, cols: usize) -> (g: Self)
        ensures
            g@ == GridModel::filled(rows as nat, cols as nat),
    {
        let mut cells: Vec<Vec<Cell>> = Vec::new();
        for _i in 0..rows
            invariant
                cells@.len() == _i,
                forall|r: int|
                    0 <= r < _i ==> #[trigger] cells@[r]@ == Seq::new(
                        cols as nat,
                        |c: int| default_cell(),
                    ),
        {
            let row = default_row(cols);
            cells.push(row);
        }
        let g = Grid { cells, cols, rows };
        assert(g@.cells =~~= GridModel::filled(rows as nat, cols as nat).cells);
        g
    }

    /// Changes the dimensions to `rows` by `cols`, keeping the content of the
    /// cells inside both the old and the new dimensions.
    pub fn resize(&mut self, cols: usize, rows: usize)
        ensures
            final(self)@ == old(self)@.resized(rows as nat, cols as nat),
    {
        proof {
            use_type_invariant(&*self);
        }
        if cols == self.cols && rows == self.rows {
            assert(self@.cells =~~= self@.resized(rows as nat, cols as nat).cells);
            return ;
        }
        let ghost old_model = self@;
        let mut new_cells: Vec<Vec<Cell>> = Vec::new();
        for i in 0..rows
            invariant
                old_model == self@,
                old_model.wf(),
                new_cells@.len() == i,
                forall|r: int|
                    0 <= r < i ==> #[trigger] new_cells@[r]@ == old_model.resized(
                        rows as nat,
                        cols as nat,
                    ).cells[r],
        {
            let mut row: Vec<Cell> = Vec::new();
            for j in 0..cols
                invariant
                    old_model == self@,
                    old_model.wf(),
                    i < rows,
                    row@.len() == j,
                    forall|c: int|
                        0 <= c < j ==> #[trigger] row@[c] == old_model.resized(
                            rows as nat,
                            cols as nat,
                        ).cells[i as int][c],
            {
                if i < self.rows && j < self.cols {
                    assert(self.cells@[i as int]@ == old_model.cells[i as int]);
                    row.push(self.cells[i][j]);
                } else {
                    row.push(Cell::default());
                }
            }
            assert(row@ =~= old_model.resized(rows as nat, cols as nat).cells[i as int]);
            new_cells.push(row);
        }
        let resized = Grid { cells: new_cells, cols, rows };
        assert(resized@.cells =~~= old_model.resized(rows as nat, cols as nat).cells);
        *self = resized;
    }

    /// The cell at `(row, col)`, or `None` outside the grid.
    pub fn get_cell(&self, row: usize, col: usize) -> (c: Option<&Cell>)
        ensures
            self@.wf(),
            c == (match self@.cell_at(row as int, col as int) {
                Some(cell) => Some(&cell),
                None => None::<&Cell>,
            }),
    {
        proof {
            use_type_invariant(self);
        }
        if row < self.cells.len() {
            let row_v = &self.cells[row];
            if col < row_v.len() {
                assert(row_v@ == self@.cells[row as int]);
                Some(&row_v[col])
            } else {
                None
            }
        } else {
            None
        }
    }

    /// Puts a character and its colours at `(row, col)`; nothing changes
    /// outside the grid.
    pub fn set_cell(&mut self, row: usize, col: usize, ch: char, fg: (u8, u8, u8), bg: (u8, u8, u8))
        ensures
            final(self)@ == old(self)@.with_cell(
                row as int,
                col as int,
                Cell { ch, fg_color: fg, bg_color: bg },
            ),
    {
        proof {
            use_type_invariant(&*self);
        }
        let cell = Cell { ch, fg_color: fg, bg_color: bg };
        if col < self.cols && row < self.rows {
            let ghost old_model = self@;
            let mut taken = Grid { cells: Vec::new(), cols: 0, rows: 0 };
            std::mem::swap(&mut taken, self);
            proof {
                use_type_invariant(&taken);
            }
            let Grid { mut cells, cols, rows } = taken;
            let ghost before = cells@;
            assert(forall|r: int| 0 <= r < rows ==> #[trigger] before[r]@ == old_model.cells[r]);
            let mut row_v: Vec<Cell> = Vec::new();
            std::mem::swap(&mut row_v, &mut cells[row]);
            assert(row_v@ == old_model.cells[row as int]);
            row_v.set(col, cell);
            cells.set(row, row_v);
            assert forall|r: int| 0 <= r < rows implies #[trigger] cells@[r]@.len() == cols by {
                if r != row {
                    assert(cells@[r] == before[r]);
                }
            }
            let updated = Grid { cells, cols, rows };
            assert(updated@.cells =~~= old_model.with_cell(row as int, col as int, cell).cells);
            *self = updated;
        }
    }

    /// The number of columns. Every grid is well formed: `rows` rows of
    /// `cols` cells each.
    pub fn cols(&self) -> (n: usize)
        ensures
            n == self@.cols,
            self@.wf(),
    {
        proof {
            use_type_invariant(self);
        }
        self.cols
    }

    /// The number of rows. Every grid is well formed: `rows` rows of `cols`
    /// cells each.
    pub fn rows(&self) -> (n: usize)
        ensures
            n == self@.rows,
            self@.wf(),
    {
        proof {
            use_type_invariant(self);
        }
        self.rows
    }
}

/// A fresh grid has the dimensions it was made with and holds default cells
/// only: spaces, white on black.
pub proof fn lemma_filled(rows: nat, cols: nat, row: int, col: int)
    ensures
        GridModel::filled(rows, cols).wf(),
        GridModel::filled(rows, cols).in_bounds(row, col) ==> GridModel::filled(rows, cols).cell_at(
            row,
            col,
        ) == Some(default_cell()),
        default_cell().ch == ' ',
        default_cell().fg_color == (255u8, 255u8, 255u8),
        default_cell().bg_color == (0u8, 0u8, 0u8),
{
}

/// Reading a cell gives back what was last written there; writing one cell
/// changes no other cell and not the dimensions; writing outside the grid
/// changes nothing.
pub proof fn lemma_read_after_write(m: GridModel, row: int, col: int, cell: Cell, r2: int, c2: int)
    requires
        m.wf(),
    ensures
        m.with_cell(row, col, cell).wf(),
        m.with_cell(row, col, cell).rows == m.rows,
        m.with_cell(row, col, cell).cols == m.cols,
        m.in_bounds(row, col) ==> m.with_cell(row, col, cell).cell_at(row, col) == Some(cell),
        (r2 != row || c2 != col) ==> m.with_cell(row, col, cell).cell_at(r2, c2) == m.cell_at(r2, c2),
        !m.in_bounds(row, col) ==> m.with_cell(row, col, cell) == m,
{
    if m.in_bounds(row, col) && m.in_bounds(r2, c2) && r2 == row {
        assert(m.with_cell(row, col, cell).cells[r2] == m.cells[row].update(col, cell));
    }
}

/// Resizing keeps the grid well formed with the new dimensions, and keeps
/// every cell that lies inside both the old and the new dimensions.
pub proof fn lemma_resize_keeps_overlap(m: GridModel, rows: nat, cols: nat, row: int, col: int)
    requires
        m.wf(),
    ensures
        m.resized(rows, cols).wf(),
        m.resized(rows, cols).rows == rows,
        m.resized(rows, cols).cols == cols,
        m.in_bounds(row, col) && 0 <= row < rows && 0 <= col < cols ==> m.resized(
            rows,
            cols,
        ).cell_at(row, col) == m.cell_at(row, col),
        !m.in_bounds(row, col) && 0 <= row < rows && 0 <= col < cols ==> m.resized(
            rows,
            cols,
        ).cell_at(row, col) == Some(default_cell()),
{
}

/// Resizing to the current dimensions changes nothing, and resizing twice to
/// the same dimensions is resizing once.
pub proof fn lemma_resize_idempotent(m: GridModel, rows: nat, cols: nat)
    requires
        m.wf(),
    ensures
        m.resized(m.rows, m.cols) == m,
        m.resized(rows, cols).resized(rows, cols) == m.resized(rows, cols),
{
    assert(m.resized(m.rows, m.cols) =~~= m);
    assert(m.resized(rows, cols).resized(rows, cols) =~~= m.resized(rows, cols));
}

/// Growing a grid and shrinking it back to its old dimensions gives back the
/// grid it was.
pub proof fn lemma_grow_then_shrink(m: GridModel, rows: nat, cols: nat)
    requires
        m.wf(),
        m.rows <= rows,
        m.cols <= cols,
    ensures
        m.resized(rows, cols).resized(m.rows, m.cols) == m,
{
    assert(m.resized(rows, cols).resized(m.rows, m.cols) =~~= m);
}

} // verus!
