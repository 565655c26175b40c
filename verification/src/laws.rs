//! What holds of the rules, whatever the state.

use vstd::prelude::*;
use crate::piece::{Piece, Tetromino};
use crate::grid::Cell;
use crate::board::{ROWS, COLS, well_sized, no_full_row, with_cell};
use crate::clearing::{lemma_one_cell, lemma_cleared_settled};
use crate::rules::{GameView, cell_free, legal, line_score, settle, settle_upto};
use crate::game::Action;

verus! {

/// A placement is illegal as soon as one of the piece's cells lies left or
/// right of the playfield or below its floor, whatever the playfield holds.
pub proof fn lemma_outside_is_illegal(board: Seq<Seq<Cell>>, t: Tetromino, column: int, row: int, i: int)
    requires
        0 <= i < 4,
        column + t.cells()[i].1 < 0 || column + t.cells()[i].1 >= COLS || row + t.cells()[i].0 >= ROWS,
    ensures
        !legal(board, t, column, row),
{
}

/// A cell above the playfield is free whenever its column is on the
/// playfield, whatever the playfield holds; so a placement whose cells all
/// lie above the playfield, in columns of the playfield, is legal.
pub proof fn lemma_above_is_free(board: Seq<Seq<Cell>>, t: Tetromino, column: int, row: int)
    ensures
        forall|r: int, c: int| r < 0 ==> (#[trigger] cell_free(board, r, c) <==> 0 <= c < COLS),
        (forall|i: int| 0 <= i < 4 ==> row + (#[trigger] t.cells()[i]).0 < 0 && 0 <= column + t.cells()[i].1 < COLS)
            ==> legal(board, t, column, row),
{
    if forall|i: int| 0 <= i < 4 ==> row + (#[trigger] t.cells()[i]).0 < 0 && 0 <= column + t.cells()[i].1 < COLS {
        assert(t.cells()[0] == t.quad().0);
    }
}

/// A move or a rotation whose placement is illegal changes nothing; and no
/// move or rotation changes the playfield, the score or which piece is in
/// play.
pub proof fn lemma_blocked_is_noop(v: GameView, dx: int, steps: int)
    ensures
        !legal(v.board, v.piece, v.column + dx, v.row) ==> v.shifted(dx) == v,
        !legal(
            v.board,
            (Tetromino { piece: v.piece.piece, rotation: v.piece.rotation.turned(steps) }),
            v.column,
            v.row,
        ) ==> v.rotated(steps) == v,
        v.shifted(dx).board == v.board && v.shifted(dx).piece == v.piece && v.shifted(dx).score == v.score,
        v.rotated(steps).board == v.board && v.rotated(steps).piece.piece == v.piece.piece && v.rotated(
            steps,
        ).score == v.score,
{
}

/// Locking the first `k` cells of a legally placed piece on a playfield
/// without a full row clears at most `k` rows and leaves a playfield of the
/// same size without a full row.
pub proof fn lemma_settle_upto(board: Seq<Seq<Cell>>, t: Tetromino, column: int, row: int, k: int)
    requires
        well_sized(board),
        no_full_row(board),
        legal(board, t, column, row),
        0 <= k <= 4,
    ensures
        well_sized(settle_upto(board, t, column, row, k).board),
        no_full_row(settle_upto(board, t, column, row, k).board),
        0 <= settle_upto(board, t, column, row, k).lines <= k,
    decreases k,
{
    if k > 0 {
        lemma_settle_upto(board, t, column, row, k - 1);
        let s = settle_upto(board, t, column, row, k - 1);
        let r = row + t.cells()[k - 1].0;
        let c = column + t.cells()[k - 1].1;
        if !s.topped && r >= 0 {
            lemma_one_cell(s.board, r, c, Some(t.piece));
            lemma_cleared_settled(with_cell(s.board, r, c, Some(t.piece)));
        }
    }
}

/// One lock clears no more than four rows, so it adds 0, 100, 300, 500 or
/// 800 points, by the number of rows cleared, and the score never falls.
pub proof fn lemma_lock_scores(v: GameView, next: Piece)
    requires
        v.wf(),
        !v.game_over,
    ensures
        0 <= settle(v.board, v.piece, v.column, v.row).lines <= 4,
        line_score(0) == 0 && line_score(1) == 100 && line_score(2) == 300 && line_score(3) == 500 && line_score(4)
            == 800,
        v.lock_spawns() ==> v.locked(next).score == v.score + line_score(
            settle(v.board, v.piece, v.column, v.row).lines,
        ),
        !v.lock_spawns() ==> v.locked(next).score == v.score,
        v.locked(next).score >= v.score,
        well_sized(v.locked(next).board),
{
    lemma_settle_upto(v.board, v.piece, v.column, v.row, 4);
}

/// Putting a piece aside twice with no lock in between: the second time
/// changes nothing.
pub proof fn lemma_hold_twice(v: GameView, first: Piece, second: Piece)
    ensures
        v.held_swap(first).held_swap(second) == v.held_swap(first),
{
}

/// A lock ends the game exactly when one of the piece's cells lies above
/// the playfield.
pub proof fn lemma_top_out(v: GameView, next: Piece)
    requires
        !v.game_over,
    ensures
        v.locked(next).game_over <==> (exists|i: int| 0 <= i < 4 && v.row + (#[trigger] v.piece.cells()[i]).0 < 0),
{
    reveal_with_fuel(settle_upto, 5);
    let c = v.piece.cells();
    if v.locked(next).game_over {
        if v.row + c[0].0 < 0 {
        } else if v.row + c[1].0 < 0 {
        } else if v.row + c[2].0 < 0 {
        } else {
            assert(v.row + c[3].0 < 0);
        }
    }
}

/// The score never falls, and only an action that locks the piece changes
/// the playfield or the score.
pub proof fn lemma_only_locks_change_the_board(v: GameView, action: Action, next: Piece)
    ensures
        v.acted(action, next).score >= v.score,
        !(action == Action::SoftDropOnce && !v.can_fall()) && action != Action::HardDrop ==> v.acted(
            action,
            next,
        ).board == v.board && v.acted(action, next).score == v.score,
{
}

/// Once the game is over, no action changes anything.
pub proof fn lemma_game_over_is_final(v: GameView, action: Action, next: Piece)
    requires
        v.game_over,
    ensures
        v.acted(action, next) == v,
        v.locked(next) == v,
{
}

} // verus!
