//! The playfield: a grid of fixed size, and the clearing of its full rows.

use vstd::prelude::*;
use crate::grid::{Cell, cells_of, rows_view, uniform, inside, assemble, grid_filled_with, grid_get, grid_set};

verus! {

/// Number of rows of the playfield.
pub const ROWS: usize = 20;

/// Number of columns of the playfield.
pub const COLS: usize = 10;

/// A row in which nothing is filled.
pub open spec fn empty_row() -> Seq<Cell> {
    Seq::new(COLS as nat, |c: int| None)
}

/// A playfield in which nothing is filled.
pub open spec fn empty_grid() -> Seq<Seq<Cell>> {
    Seq::new(ROWS as nat, |r: int| empty_row())
}

/// The grid has the playfield's fixed size.
pub open spec fn well_sized(g: Seq<Seq<Cell>>) -> bool {
    &&& g.len() == ROWS
    &&& forall|r: int| 0 <= r < g.len() ==> (#[trigger] g[r]).len() == COLS
}

/// Every cell of the row is filled.
pub open spec fn row_full(row: Seq<Cell>) -> bool {
    forall|c: int| 0 <= c < row.len() ==> (#[trigger] row[c]).is_some()
}

/// No row of the grid is full.
pub open spec fn no_full_row(g: Seq<Seq<Cell>>) -> bool {
    forall|r: int| 0 <= r < g.len() ==> !row_full(#[trigger] g[r])
}

/// The rows that are not full, in their order.
pub open spec fn survivors(g: Seq<Seq<Cell>>) -> Seq<Seq<Cell>>
    decreases g.len(),
{
    if g.len() == 0 {
        Seq::empty()
    } else if row_full(g.last()) {
        survivors(g.drop_last())
    } else {
        survivors(g.drop_last()).push(g.last())
    }
}

/// How many rows of the grid are full.
pub open spec fn full_rows(g: Seq<Seq<Cell>>) -> int {
    g.len() - survivors(g).len()
}

/// The grid after its full rows are taken out: as many empty rows on top as
/// were removed, then the rows that stay, in their order.
pub open spec fn cleared(g: Seq<Seq<Cell>>) -> Seq<Seq<Cell>> {
    Seq::new(full_rows(g) as nat, |i: int| empty_row()) + survivors(g)
}

/// The grid with one cell replaced.
pub open spec fn with_cell(g: Seq<Seq<Cell>>, row: int, column: int, cell: Cell) -> Seq<Seq<Cell>> {
    g.update(row, g[row].update(column, cell))
}

/// The playfield.
pub struct Board {
    cells: array2d::Array2D<Cell>,
}

impl Board {
    /// The rows of the playfield, top to bottom.
    pub closed spec fn view(&self) -> Seq<Seq<Cell>> {
        cells_of(self.cells)
    }

    /// The playfield has its fixed size.
    pub open spec fn wf(&self) -> bool {
        well_sized(self@)
    }

    /// An empty playfield.
    pub fn new() -> (b: Board)
        ensures
            b.wf(),
            b@ == empty_grid(),
    {
        let b = Board { cells: grid_filled_with(None, ROWS, COLS) };
        b
    }

    /// A playfield with the given rows, if there are `ROWS` of them and each
    /// has `COLS` cells.
    pub fn from_rows(rows: &Vec<Vec<Cell>>) -> (res: Option<Board>)
        ensures
            res.is_some() <==> well_sized(rows_view(rows@)),
            res.is_some() ==> res.unwrap()@ == rows_view(rows@) && res.unwrap().wf(),
    {
        if rows.len() != ROWS {
            return None;
        }
        let mut r: usize = 0;
        while r < ROWS
            invariant
                r <= ROWS,
                rows@.len() == ROWS,
                forall|i: int| 0 <= i < r ==> (#[trigger] rows@[i]).len() == COLS,
            decreases ROWS - r,
        {
            if rows[r].len() != COLS {
                proof {
                    assert(rows_view(rows@)[r as int].len() != COLS);
                }
                return None;
            }
            r += 1;
        }
        match grid_from_rows_checked(rows) {
            Some(cells) => Some(Board { cells }),
            None => None,
        }
    }

    /// The cell at a place of the playfield; nothing for a place outside it.
    pub fn get(&self, row: usize, column: usize) -> (res: Option<Cell>)
        requires
            self.wf(),
        ensures
            res == (if row < ROWS && column < COLS {
                Some(self@[row as int][column as int])
            } else {
                None
            }),
    {
        grid_get(&self.cells, row, column)
    }

    /// Writes a cell of the playfield.
    pub fn set(&mut self, row: usize, column: usize, cell: Cell)
        requires
            old(self).wf(),
            row < ROWS,
            column < COLS,
        ensures
            final(self).wf(),
            final(self)@ == with_cell(old(self)@, row as int, column as int, cell),
    {
        let res = grid_set(&mut self.cells, row, column, cell);
    }

    /// The rows of the playfield, copied out.
    pub fn to_rows(&self) -> (rows: Vec<Vec<Cell>>)
        requires
            self.wf(),
        ensures
            rows_view(rows@) == self@,
    {
        let mut rows: Vec<Vec<Cell>> = Vec::new();
        let mut r: usize = 0;
        while r < ROWS
            invariant
                r <= ROWS,
                self.wf(),
                rows@.len() == r,
                forall|i: int| 0 <= i < r ==> (#[trigger] rows@[i])@ == self@[i],
            decreases ROWS - r,
        {
            let (row, _) = self.copy_row(r);
            rows.push(row);
            r += 1;
        }
        rows
    }

    /// Whether every cell of a row is filled.
    pub fn row_is_full(&self, row: usize) -> (full: bool)
        requires
            self.wf(),
            row < ROWS,
        ensures
            full == row_full(self@[row as int]),
    {
        let (_, full) = self.copy_row(row);
        full
    }

    /// One row of the playfield, copied out, and whether it is full.
    fn copy_row(&self, r: usize) -> (res: (Vec<Cell>, bool))
        requires
            self.wf(),
            r < ROWS,
        ensures
            res.0@ == self@[r as int],
            res.1 == row_full(self@[r as int]),
    {
        let mut row: Vec<Cell> = Vec::new();
        let mut full = true;
        let mut c: usize = 0;
        while c < COLS
            invariant
                c <= COLS,
                r < ROWS,
                self.wf(),
                row@ == self@[r as int].take(c as int),
                full == row_full(row@),
            decreases COLS - c,
        {
            let cell = match grid_get(&self.cells, r, c) {
                Some(cell) => cell,
                None => {
                    proof {
                        assert(false);
                    }
                    None
                },
            };
            if cell.is_none() {
                full = false;
            }
            row.push(cell);
            proof {
                if cell.is_none() {
                    assert(row@[c as int].is_none());
                }
            }
            c += 1;
        }
        (row, full)
    }

    /// Removes every full row, lets the rows above it move down and fills up
    /// with empty rows on top. Returns how many rows were removed.
    pub fn clear_full_rows(&mut self) -> (count: u8)
        requires
            old(self).wf(),
        ensures
            final(self).wf(),
            final(self)@ == cleared(old(self)@),
            count == full_rows(old(self)@),
            0 <= count <= ROWS,
    {
        let ghost g = self@;
        let mut kept: Vec<Vec<Cell>> = Vec::new();
        let mut r: usize = 0;
        while r < ROWS
            invariant
                r <= ROWS,
                self.wf(),
                self@ == g,
                kept@.len() <= r,
                rows_view(kept@) == survivors(g.take(r as int)),
                forall|i: int| 0 <= i < kept@.len() ==> (#[trigger] kept@[i]).len() == COLS,
            decreases ROWS - r,
        {
            let (row, full) = self.copy_row(r);
            proof {
                assert(g.take(r as int + 1).drop_last() =~= g.take(r as int));
            }
            if !full {
                kept.push(row);
            }
            r += 1;
        }
        proof {
            assert(g.take(ROWS as int) =~= g);
        }
        let count: usize = ROWS - kept.len();
        let mut rows: Vec<Vec<Cell>> = Vec::new();
        let mut i: usize = 0;
        while i < count
            invariant
                i <= count,
                rows@.len() == i,
                forall|k: int| 0 <= k < i ==> (#[trigger] rows@[k])@ == empty_row(),
            decreases count - i,
        {
            rows.push(blank_row());
            i += 1;
        }
        let ghost bottom = kept@;
        rows.append(&mut kept);
        proof {
            assert(uniform(rows@)) by {
                assert forall|k: int| 0 <= k < rows@.len() implies (#[trigger] rows@[k]).len() == COLS by {
                    if k < count {
                        assert(rows@[k]@ == empty_row());
                    } else {
                        assert(rows@[k] == bottom[k - count]);
                    }
                }
            }
        }
        self.cells = assemble(rows);
        proof {
            assert(well_sized(self@)) by {
                assert forall|k: int| 0 <= k < self@.len() implies (#[trigger] self@[k]).len() == COLS by {
                    if k < count {
                        assert(rows@[k]@ == empty_row());
                    } else {
                        assert(rows@[k] == bottom[k - count]);
                    }
                }
            }
        }
        count as u8
    }
}

/// A row of `COLS` empty cells.
fn blank_row() -> (row: Vec<Cell>)
    ensures
        row@ == empty_row(),
{
    let mut row: Vec<Cell> = Vec::new();
    let mut c: usize = 0;
    while c < COLS
        invariant
            c <= COLS,
            row@.len() == c,
            forall|k: int| 0 <= k < c ==> (#[trigger] row@[k]).is_none(),
        decreases COLS - c,
    {
        row.push(None);
        c += 1;
    }
    row
}

/// Packs rows into an array where they all have the same length.
fn grid_from_rows_checked(rows: &Vec<Vec<Cell>>) -> (res: Option<array2d::Array2D<Cell>>)
    requires
        rows@.len() == ROWS,
        forall|i: int| 0 <= i < rows@.len() ==> (#[trigger] rows@[i]).len() == COLS,
    ensures
        res.is_some(),
        cells_of(res.unwrap()) == rows_view(rows@),
{
    match crate::grid::grid_from_rows(rows) {
        Ok(cells) => Some(cells),
        Err(_) => {
            proof {
                assert(false);
            }
            None
        },
    }
}

} // verus!
