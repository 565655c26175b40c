//! The rules of the game as a mathematical model: when a placement is
//! legal, and what each transition makes of a state.

use vstd::prelude::*;
use crate::piece::{Piece, Rotation, Tetromino};
use crate::grid::Cell;
use crate::board::{ROWS, COLS, empty_grid, well_sized, no_full_row, full_rows, cleared, with_cell};
use crate::bag::{distinct, after_draw};
use crate::piece::all_pieces;

verus! {

/// Column of the anchor of a piece that enters play.
pub const SPAWN_COLUMN: isize = 3;

/// Row of the anchor of a piece that enters play: above the playfield.
pub const SPAWN_ROW: isize = -3;

/// The most that one lock can add to the score.
pub const MAX_LINE_SCORE: u64 = 800;

/// A state of the game.
pub ghost struct GameView {
    pub board: Seq<Seq<Cell>>,
    pub piece: Tetromino,
    pub column: int,
    pub row: int,
    pub bag: Seq<Piece>,
    pub held: Option<Piece>,
    pub can_hold: bool,
    pub score: nat,
    pub game_over: bool,
}

/// What locking a piece has made of the playfield so far.
pub ghost struct Settled {
    pub board: Seq<Seq<Cell>>,
    pub lines: int,
    pub topped: bool,
}

/// Whether a piece may fill the cell at `row` and `column`: the column is on
/// the playfield, the row is not below it, and the cell is above the
/// playfield or empty.
pub open spec fn cell_free(board: Seq<Seq<Cell>>, row: int, column: int) -> bool {
    &&& 0 <= column < COLS
    &&& row < ROWS
    &&& (row < 0 || board[row][column].is_none())
}

/// Whether the piece may stand with its anchor at `column` and `row`: each of
/// its four cells is free.
pub open spec fn legal(board: Seq<Seq<Cell>>, t: Tetromino, column: int, row: int) -> bool {
    let q = t.quad();
    &&& cell_free(board, row + q.0.0, column + q.0.1)
    &&& cell_free(board, row + q.1.0, column + q.1.1)
    &&& cell_free(board, row + q.2.0, column + q.2.1)
    &&& cell_free(board, row + q.3.0, column + q.3.1)
}

/// The row at which a piece that is let fall from `row` comes to rest.
pub open spec fn landing_row(board: Seq<Seq<Cell>>, t: Tetromino, column: int, row: int) -> int
    decreases ROWS - row,
{
    if row < ROWS && legal(board, t, column, row + 1) {
        landing_row(board, t, column, row + 1)
    } else {
        row
    }
}

/// Points for the rows cleared by one lock.
pub open spec fn line_score(lines: int) -> nat {
    if lines <= 0 {
        0
    } else if lines == 1 {
        100
    } else if lines == 2 {
        300
    } else if lines == 3 {
        500
    } else {
        800
    }
}

/// Locks one cell of a piece: a cell above the playfield ends the game and
/// stops the locking; any other cell is written, and the rows that it
/// completed are cleared and counted.
pub open spec fn settle_cell(s: Settled, piece: Piece, row: int, column: int) -> Settled {
    if s.topped {
        s
    } else if row < 0 {
        Settled { topped: true, ..s }
    } else {
        let written = with_cell(s.board, row, column, Some(piece));
        Settled { board: cleared(written), lines: s.lines + full_rows(written), topped: false }
    }
}

/// Locks the first `k` cells of a piece, in reading order.
pub open spec fn settle_upto(board: Seq<Seq<Cell>>, t: Tetromino, column: int, row: int, k: int) -> Settled
    decreases k,
{
    if k <= 0 {
        Settled { board, lines: 0, topped: false }
    } else {
        settle_cell(
            settle_upto(board, t, column, row, k - 1),
            t.piece,
            row + t.cells()[k - 1].0,
            column + t.cells()[k - 1].1,
        )
    }
}

/// Locks all four cells of a piece.
pub open spec fn settle(board: Seq<Seq<Cell>>, t: Tetromino, column: int, row: int) -> Settled {
    settle_upto(board, t, column, row, 4)
}

/// The piece as it enters play.
pub open spec fn entering(piece: Piece) -> Tetromino {
    Tetromino { piece, rotation: Rotation::Down }
}

/// The state of a new game whose first piece is `first`.
pub open spec fn fresh(first: Piece) -> GameView {
    GameView {
        board: empty_grid(),
        piece: entering(first),
        column: SPAWN_COLUMN as int,
        row: SPAWN_ROW as int,
        bag: after_draw(all_pieces(), first),
        held: None,
        can_hold: true,
        score: 0,
        game_over: false,
    }
}

impl GameView {
    /// What holds of every state that a game reaches.
    pub open spec fn wf(self) -> bool {
        &&& well_sized(self.board)
        &&& no_full_row(self.board)
        &&& distinct(self.bag)
        &&& -3 <= self.column <= 9
        &&& -3 <= self.row <= 19
        &&& (!self.game_over ==> legal(self.board, self.piece, self.column, self.row))
    }

    /// Whether the score can take the points of one more lock; a game that
    /// is over takes none.
    pub open spec fn has_room(self) -> bool {
        self.game_over || self.score + MAX_LINE_SCORE <= u64::MAX
    }

    /// The state with the piece in play replaced by `piece`, entering at the top.
    pub open spec fn spawned(self, piece: Piece) -> GameView {
        GameView { piece: entering(piece), column: SPAWN_COLUMN as int, row: SPAWN_ROW as int, ..self }
    }

    /// A move by `dx` columns: made if the new placement is legal, else nothing.
    pub open spec fn shifted(self, dx: int) -> GameView {
        if !self.game_over && legal(self.board, self.piece, self.column + dx, self.row) {
            GameView { column: self.column + dx, ..self }
        } else {
            self
        }
    }

    /// A rotation by `steps` quarter turns clockwise: made if the new
    /// placement is legal, else nothing.
    pub open spec fn rotated(self, steps: int) -> GameView {
        let t = Tetromino { piece: self.piece.piece, rotation: self.piece.rotation.turned(steps) };
        if !self.game_over && legal(self.board, t, self.column, self.row) {
            GameView { piece: t, ..self }
        } else {
            self
        }
    }

    /// Whether the piece can move down by one row.
    pub open spec fn can_fall(self) -> bool {
        legal(self.board, self.piece, self.column, self.row + 1)
    }

    /// The piece is locked where it stands. If it reaches above the
    /// playfield the game is over. If not, the cleared rows are scored,
    /// holding is allowed again and `next` enters play, drawn from the bag.
    pub open spec fn locked(self, next: Piece) -> GameView {
        let s = settle(self.board, self.piece, self.column, self.row);
        if self.game_over {
            self
        } else if s.topped {
            GameView { board: s.board, game_over: true, ..self }
        } else {
            GameView {
                board: s.board,
                score: self.score + line_score(s.lines),
                can_hold: true,
                bag: after_draw(self.bag, next),
                ..self
            }.spawned(next)
        }
    }

    /// One step down: the piece falls by a row, or is locked if it cannot.
    pub open spec fn dropped(self, next: Piece) -> GameView {
        if self.game_over {
            self
        } else if self.can_fall() {
            GameView { row: self.row + 1, ..self }
        } else {
            self.locked(next)
        }
    }

    /// The piece falls as far as it can and is locked there.
    pub open spec fn hard_dropped(self, next: Piece) -> GameView {
        if self.game_over {
            self
        } else {
            GameView { row: landing_row(self.board, self.piece, self.column, self.row), ..self }.locked(next)
        }
    }

    /// The piece in play is put aside. The piece that was put aside before
    /// enters play, or `next`, drawn from the bag, if there was none. Nothing
    /// happens where holding is not allowed.
    pub open spec fn held_swap(self, next: Piece) -> GameView {
        if self.game_over || !self.can_hold {
            self
        } else {
            match self.held {
                Some(h) => GameView { held: Some(self.piece.piece), can_hold: false, ..self }.spawned(h),
                None => GameView {
                    held: Some(self.piece.piece),
                    can_hold: false,
                    bag: after_draw(self.bag, next),
                    ..self
                }.spawned(next),
            }
        }
    }

    /// Whether one step down locks the piece and brings a new one into play.
    pub open spec fn drop_spawns(self) -> bool {
        !self.can_fall() && self.lock_spawns()
    }

    /// Whether letting the piece fall all the way brings a new one into play.
    pub open spec fn hard_drop_spawns(self) -> bool {
        GameView { row: landing_row(self.board, self.piece, self.column, self.row), ..self }.lock_spawns()
    }

    /// Whether putting the piece aside draws a piece from the bag.
    pub open spec fn hold_draws(self) -> bool {
        !self.game_over && self.can_hold && self.held.is_none()
    }

    /// Whether locking the piece where it stands brings a new piece into play.
    pub open spec fn lock_spawns(self) -> bool {
        !self.game_over && !settle(self.board, self.piece, self.column, self.row).topped
    }
}

/// A legal placement has its anchor within three columns of the playfield
/// and above the floor.
pub proof fn lemma_legal_bounds(board: Seq<Seq<Cell>>, t: Tetromino, column: int, row: int)
    requires
        legal(board, t, column, row),
    ensures
        -3 <= column <= 9,
        row <= 19,
{
    crate::shape::lemma_quad_ordered(t);
}

/// A piece that enters play stands wholly above the playfield, which is
/// legal whatever the playfield holds.
pub proof fn lemma_spawn_legal(board: Seq<Seq<Cell>>, piece: Piece)
    ensures
        legal(board, entering(piece), SPAWN_COLUMN as int, SPAWN_ROW as int),
{
    crate::shape::lemma_quad_ordered(entering(piece));
    crate::shape::lemma_entry_rows(piece);
}

} // verus!
