//! The shape table: which cells of its square each piece fills in each orientation.

use vstd::prelude::*;
use crate::piece::{Piece, Rotation, Tetromino};
use crate::grid::{Cell, cells_of, rows_view, assemble, grid_get};

verus! {

/// A place in a pattern or on the playfield: row, then column.
pub type Place = (int, int);

impl Tetromino {
    /// The four cells that the piece fills, as rows and columns of its square,
    /// in reading order: top row first, each row left to right.
    pub open spec fn quad(self) -> (Place, Place, Place, Place) {
        match (self.piece, self.rotation) {
            (Piece::I, Rotation::Up) => ((1, 0), (1, 1), (1, 2), (1, 3)),
            (Piece::I, Rotation::Right) => ((0, 2), (1, 2), (2, 2), (3, 2)),
            (Piece::I, Rotation::Down) => ((2, 0), (2, 1), (2, 2), (2, 3)),
            (Piece::I, Rotation::Left) => ((0, 1), (1, 1), (2, 1), (3, 1)),
            (Piece::J, Rotation::Up) => ((0, 0), (1, 0), (1, 1), (1, 2)),
            (Piece::J, Rotation::Right) => ((0, 1), (0, 2), (1, 1), (2, 1)),
            (Piece::J, Rotation::Down) => ((1, 0), (1, 1), (1, 2), (2, 2)),
            (Piece::J, Rotation::Left) => ((0, 1), (1, 1), (2, 0), (2, 1)),
            (Piece::L, Rotation::Up) => ((0, 2), (1, 0), (1, 1), (1, 2)),
            (Piece::L, Rotation::Right) => ((0, 1), (1, 1), (2, 1), (2, 2)),
            (Piece::L, Rotation::Down) => ((1, 0), (1, 1), (1, 2), (2, 0)),
            (Piece::L, Rotation::Left) => ((0, 0), (0, 1), (1, 1), (2, 1)),
            (Piece::S, Rotation::Up) => ((0, 1), (0, 2), (1, 0), (1, 1)),
            (Piece::S, Rotation::Right) => ((0, 1), (1, 1), (1, 2), (2, 2)),
            (Piece::S, Rotation::Down) => ((1, 1), (1, 2), (2, 0), (2, 1)),
            (Piece::S, Rotation::Left) => ((0, 0), (1, 0), (1, 1), (2, 1)),
            (Piece::T, Rotation::Up) => ((0, 1), (1, 0), (1, 1), (1, 2)),
            (Piece::T, Rotation::Right) => ((0, 1), (1, 1), (1, 2), (2, 1)),
            (Piece::T, Rotation::Down) => ((1, 0), (1, 1), (1, 2), (2, 1)),
            (Piece::T, Rotation::Left) => ((0, 1), (1, 0), (1, 1), (2, 1)),
            (Piece::Z, Rotation::Up) => ((0, 0), (0, 1), (1, 1), (1, 2)),
            (Piece::Z, Rotation::Right) => ((0, 2), (1, 1), (1, 2), (2, 1)),
            (Piece::Z, Rotation::Down) => ((1, 0), (1, 1), (2, 1), (2, 2)),
            (Piece::Z, Rotation::Left) => ((0, 1), (1, 0), (1, 1), (2, 0)),
            (Piece::O, _) => ((0, 0), (0, 1), (1, 0), (1, 1)),
        }
    }

    /// The four filled cells as a sequence, in reading order.
    pub open spec fn cells(self) -> Seq<Place> {
        let q = self.quad();
        seq![q.0, q.1, q.2, q.3]
    }

    /// Whether the pattern fills the cell at `row` and `column`.
    pub open spec fn filled(self, row: int, column: int) -> bool {
        let q = self.quad();
        q.0 == (row, column) || q.1 == (row, column) || q.2 == (row, column) || q.3 == (row, column)
    }

    /// The pattern as rows of cells: the piece's identity where it fills a
    /// cell, nothing elsewhere.
    pub open spec fn pattern(self) -> Seq<Seq<Cell>> {
        Seq::new(
            self.piece.spec_size() as nat,
            |r: int| Seq::new(
                self.piece.spec_size() as nat,
                |c: int| if self.filled(r, c) { Some(self.piece) } else { None },
            ),
        )
    }

    /// Red, green and blue of the colour in which the piece is shown.
    pub fn to_color(&self) -> (rgb: (u8, u8, u8))
        ensures
            rgb == self.piece.spec_color(),
    {
        self.piece.to_color()
    }

    /// The four filled cells of the pattern, in reading order, found by
    /// walking the pattern row by row.
    pub fn occupied(&self) -> (out: Vec<(usize, usize)>)
        ensures
            out@.len() == 4,
            out@.map_values(|p: (usize, usize)| place_of(p)) == self.cells(),
    {
        let blocks = self.to_blocks();
        let n = self.piece.size();
        let ghost q = self.quad();
        proof {
            lemma_quad_ordered(*self);
        }
        let mut out: Vec<(usize, usize)> = Vec::new();
        let mut r: usize = 0;
        while r < n
            invariant
                r <= n <= 4,
                n == self.piece.spec_size(),
                q == self.quad(),
                cells_of(blocks) == self.pattern(),
                out@.len() <= 4,
                before(q.0, (r as int, 0)) <==> 0 < out@.len(),
                before(q.1, (r as int, 0)) <==> 1 < out@.len(),
                before(q.2, (r as int, 0)) <==> 2 < out@.len(),
                before(q.3, (r as int, 0)) <==> 3 < out@.len(),
                0 < out@.len() ==> place_of(out@[0]) == q.0,
                1 < out@.len() ==> place_of(out@[1]) == q.1,
                2 < out@.len() ==> place_of(out@[2]) == q.2,
                3 < out@.len() ==> place_of(out@[3]) == q.3,
                before(q.0, q.1) && before(q.1, q.2) && before(q.2, q.3),
                q.0.1 < n && q.1.1 < n && q.2.1 < n && q.3.1 < n,
                q.0.0 < n && q.1.0 < n && q.2.0 < n && q.3.0 < n,
            decreases n - r,
        {
            let mut c: usize = 0;
            while c < n
                invariant
                    r < n <= 4,
                    c <= n,
                    n == self.piece.spec_size(),
                    q == self.quad(),
                    cells_of(blocks) == self.pattern(),
                    out@.len() <= 4,
                    before(q.0, (r as int, c as int)) <==> 0 < out@.len(),
                    before(q.1, (r as int, c as int)) <==> 1 < out@.len(),
                    before(q.2, (r as int, c as int)) <==> 2 < out@.len(),
                    before(q.3, (r as int, c as int)) <==> 3 < out@.len(),
                    0 < out@.len() ==> place_of(out@[0]) == q.0,
                    1 < out@.len() ==> place_of(out@[1]) == q.1,
                    2 < out@.len() ==> place_of(out@[2]) == q.2,
                    3 < out@.len() ==> place_of(out@[3]) == q.3,
                    before(q.0, q.1) && before(q.1, q.2) && before(q.2, q.3),
                    q.0.1 < n && q.1.1 < n && q.2.1 < n && q.3.1 < n,
                    q.0.0 < n && q.1.0 < n && q.2.0 < n && q.3.0 < n,
                decreases n - c,
            {
                let cell = grid_get(&blocks, r, c);
                match cell {
                    Some(Some(_)) => {
                        out.push((r, c));
                    },
                    _ => {},
                }
                c += 1;
            }
            r += 1;
        }
        out
    }

    /// The occupancy pattern of the piece in its orientation.
    pub fn to_blocks(&self) -> (blocks: array2d::Array2D<Cell>)
        ensures
            cells_of(blocks) == self.pattern(),
    {
        let rows = match self.piece {
            Piece::I => rows_i(self.rotation),
            Piece::J => rows_j(self.rotation),
            Piece::L => rows_l(self.rotation),
            Piece::S => rows_s(self.rotation),
            Piece::T => rows_t(self.rotation),
            Piece::Z => rows_z(self.rotation),
            Piece::O => rows_o(self.rotation),
        };
        proof {
            assert forall|r: int| 0 <= r < rows@.len() implies (#[trigger] rows@[r])@ =~= self.pattern()[r] by {
                assert forall|c: int| 0 <= c < rows@[r]@.len() implies rows@[r]@[c] == self.pattern()[r][c] by {
                    assert(rows@[r][c] == rows@[r]@[c]);
                }
            }
        }
        assemble(rows)
    }
}

/// Whether place `a` comes before place `b` in reading order.
pub open spec fn before(a: Place, b: Place) -> bool {
    a.0 < b.0 || (a.0 == b.0 && a.1 < b.1)
}

/// A place given by machine integers, as a place.
pub open spec fn place_of(p: (usize, usize)) -> Place {
    (p.0 as int, p.1 as int)
}

/// The four filled cells of a pattern lie inside its square and stand in
/// reading order.
pub proof fn lemma_quad_ordered(t: Tetromino)
    ensures
        0 <= t.quad().0.0 < t.piece.spec_size() && 0 <= t.quad().0.1 < t.piece.spec_size(),
        0 <= t.quad().1.0 < t.piece.spec_size() && 0 <= t.quad().1.1 < t.piece.spec_size(),
        0 <= t.quad().2.0 < t.piece.spec_size() && 0 <= t.quad().2.1 < t.piece.spec_size(),
        0 <= t.quad().3.0 < t.piece.spec_size() && 0 <= t.quad().3.1 < t.piece.spec_size(),
        before(t.quad().0, t.quad().1),
        before(t.quad().1, t.quad().2),
        before(t.quad().2, t.quad().3),
{
}

/// In the orientation in which pieces enter play, no pattern reaches below
/// the third row of its square.
pub proof fn lemma_entry_rows(piece: Piece)
    ensures
        (Tetromino { piece, rotation: Rotation::Down }).quad().0.0 <= 2,
        (Tetromino { piece, rotation: Rotation::Down }).quad().1.0 <= 2,
        (Tetromino { piece, rotation: Rotation::Down }).quad().2.0 <= 2,
        (Tetromino { piece, rotation: Rotation::Down }).quad().3.0 <= 2,
        (Tetromino { piece, rotation: Rotation::Down }).quad().0.1 <= 3,
        (Tetromino { piece, rotation: Rotation::Down }).quad().1.1 <= 3,
        (Tetromino { piece, rotation: Rotation::Down }).quad().2.1 <= 3,
        (Tetromino { piece, rotation: Rotation::Down }).quad().3.1 <= 3,
{
}

/// Whether `rows` spell out the pattern of `t`.
pub open spec fn spells(rows: Seq<Vec<Cell>>, t: Tetromino) -> bool {
    &&& rows.len() == t.piece.spec_size()
    &&& forall|r: int| 0 <= r < rows.len() ==> (#[trigger] rows[r]).len() == t.piece.spec_size()
    &&& forall|r: int, c: int|
        0 <= r < t.piece.spec_size() && 0 <= c < t.piece.spec_size() ==> #[trigger] rows[r][c] == (if t.filled(
            r,
            c,
        ) {
            Some(t.piece)
        } else {
            None
        })
}

fn rows_i(rotation: Rotation) -> (rows: Vec<Vec<Cell>>)
    ensures
        spells(rows@, (Tetromino { piece: Piece::I, rotation })),
{
    let x: Cell = Some(Piece::I);
    let o: Cell = None;
    let rows = match rotation {
            Rotation::Up => vec![
                vec![o, o, o, o],
                vec![x, x, x, x],
                vec![o, o, o, o],
                vec![o, o, o, o],
            ],
            Rotation::Right => vec![
                vec![o, o, x, o],
                vec![o, o, x, o],
                vec![o, o, x, o],
                vec![o, o, x, o],
            ],
            Rotation::Down => vec![
                vec![o, o, o, o],
                vec![o, o, o, o],
                vec![x, x, x, x],
                vec![o, o, o, o],
            ],
            Rotation::Left => vec![
                vec![o, x, o, o],
                vec![o, x, o, o],
                vec![o, x, o, o],
                vec![o, x, o, o],
            ],
    };
    rows
}

fn rows_j(rotation: Rotation) -> (rows: Vec<Vec<Cell>>)
    ensures
        spells(rows@, (Tetromino { piece: Piece::J, rotation })),
{
    let x: Cell = Some(Piece::J);
    let o: Cell = None;
    let rows = match rotation {
            Rotation::Up => vec![
                vec![x, o, o],
                vec![x, x, x],
                vec![o, o, o],
            ],
            Rotation::Right => vec![
                vec![o, x, x],
                vec![o, x, o],
                vec![o, x, o],
            ],
            Rotation::Down => vec![
                vec![o, o, o],
                vec![x, x, x],
                vec![o, o, x],
            ],
            Rotation::Left => vec![
                vec![o, x, o],
                vec![o, x, o],
                vec![x, x, o],
            ],
    };
    rows
}

fn rows_l(rotation: Rotation) -> (rows: Vec<Vec<Cell>>)
    ensures
        spells(rows@, (Tetromino { piece: Piece::L, rotation })),
{
    let x: Cell = Some(Piece::L);
    let o: Cell = None;
    let rows = match rotation {
            Rotation::Up => vec![
                vec![o, o, x],
                vec![x, x, x],
                vec![o, o, o],
            ],
            Rotation::Right => vec![
                vec![o, x, o],
                vec![o, x, o],
                vec![o, x, x],
            ],
            Rotation::Down => vec![
                vec![o, o, o],
                vec![x, x, x],
                vec![x, o, o],
            ],
            Rotation::Left => vec![
                vec![x, x, o],
                vec![o, x, o],
                vec![o, x, o],
            ],
    };
    rows
}

fn rows_s(rotation: Rotation) -> (rows: Vec<Vec<Cell>>)
    ensures
        spells(rows@, (Tetromino { piece: Piece::S, rotation })),
{
    let x: Cell = Some(Piece::S);
    let o: Cell = None;
    let rows = match rotation {
            Rotation::Up => vec![
                vec![o, x, x],
                vec![x, x, o],
                vec![o, o, o],
            ],
            Rotation::Right => vec![
                vec![o, x, o],
                vec![o, x, x],
                vec![o, o, x],
            ],
            Rotation::Down => vec![
                vec![o, o, o],
                vec![o, x, x],
                vec![x, x, o],
            ],
            Rotation::Left => vec![
                vec![x, o, o],
                vec![x, x, o],
                vec![o, x, o],
            ],
    };
    rows
}

fn rows_t(rotation: Rotation) -> (rows: Vec<Vec<Cell>>)
    ensures
        spells(rows@, (Tetromino { piece: Piece::T, rotation })),
{
    let x: Cell = Some(Piece::T);
    let o: Cell = None;
    let rows = match rotation {
            Rotation::Up => vec![
                vec![o, x, o],
                vec![x, x, x],
                vec![o, o, o],
            ],
            Rotation::Right => vec![
                vec![o, x, o],
                vec![o, x, x],
                vec![o, x, o],
            ],
            Rotation::Down => vec![
                vec![o, o, o],
                vec![x, x, x],
                vec![o, x, o],
            ],
            Rotation::Left => vec![
                vec![o, x, o],
                vec![x, x, o],
                vec![o, x, o],
            ],
    };
    rows
}

fn rows_z(rotation: Rotation) -> (rows: Vec<Vec<Cell>>)
    ensures
        spells(rows@, (Tetromino { piece: Piece::Z, rotation })),
{
    let x: Cell = Some(Piece::Z);
    let o: Cell = None;
    let rows = match rotation {
            Rotation::Up => vec![
                vec![x, x, o],
                vec![o, x, x],
                vec![o, o, o],
            ],
            Rotation::Right => vec![
                vec![o, o, x],
                vec![o, x, x],
                vec![o, x, o],
            ],
            Rotation::Down => vec![
                vec![o, o, o],
                vec![x, x, o],
                vec![o, x, x],
            ],
            Rotation::Left => vec![
                vec![o, x, o],
                vec![x, x, o],
                vec![x, o, o],
            ],
    };
    rows
}

fn rows_o(rotation: Rotation) -> (rows: Vec<Vec<Cell>>)
    ensures
        spells(rows@, (Tetromino { piece: Piece::O, rotation })),
{
    let x: Cell = Some(Piece::O);
    vec![vec![x, x], vec![x, x]]
}

} // verus!
