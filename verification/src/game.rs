//! The game: its state and the transitions that player and clock ask for.

use vstd::prelude::*;
use crate::piece::{Piece, Rotation, Tetromino, all_pieces};
use crate::shape::place_of;
use crate::board::{Board, ROWS, COLS, no_full_row, well_sized, with_cell};
use crate::bag::{distinct, supply, full_bag, new_rng, randomize_piece, lemma_all_pieces, lemma_without_distinct};
use crate::clearing::{lemma_one_cell, lemma_cleared_settled};
use crate::rules::{
    GameView, Settled, SPAWN_COLUMN, SPAWN_ROW, cell_free, legal, landing_row, settle_upto, fresh,
    lemma_legal_bounds, lemma_spawn_legal,
};

verus! {

/// The direction of a move or of a rotation.
#[derive(Debug, Clone, Copy, PartialEq, Eq, Structural)]
pub enum MovementType {
    Right,
    Left,
}

impl MovementType {
    /// The change of column that a move in this direction asks for.
    pub open spec fn dx(self) -> int {
        match self {
            MovementType::Right => 1,
            MovementType::Left => -1,
        }
    }

    /// The quarter turns clockwise that a rotation in this direction asks for.
    pub open spec fn turns(self) -> int {
        match self {
            MovementType::Right => 1,
            MovementType::Left => 3,
        }
    }
}

/// Whether the piece `t` may stand with its anchor at `column` and `row`.
pub fn placement_is_legal(board: &Board, t: Tetromino, column: isize, row: isize) -> (ok: bool)
    requires
        board.wf(),
    ensures
        ok == legal(board@, t, column as int, row as int),
{
    if column < -3 || column > 9 || row > 19 {
        proof {
            if legal(board@, t, column as int, row as int) {
                lemma_legal_bounds(board@, t, column as int, row as int);
            }
        }
        return false;
    }
    let cells = t.occupied();
    let mut k: usize = 0;
    while k < 4
        invariant
            k <= 4,
            -3 <= column <= 9,
            row <= 19,
            board.wf(),
            cells@.len() == 4,
            cells@.map_values(|p: (usize, usize)| place_of(p)) == t.cells(),
            forall|i: int|
                0 <= i < k ==> cell_free(
                    board@,
                    row + (#[trigger] t.cells()[i]).0,
                    column + t.cells()[i].1,
                ),
        decreases 4 - k,
    {
        let (r, c) = cells[k];
        proof {
            crate::shape::lemma_quad_ordered(t);
        }
        let abs_row: isize = r as isize + row;
        let abs_col: isize = c as isize + column;
        if abs_col < 0 || abs_col >= COLS as isize {
            return false;
        }
        if abs_row >= ROWS as isize {
            return false;
        }
        if abs_row >= 0 {
            match board.get(abs_row as usize, abs_col as usize) {
                Some(Some(_)) => {
                    return false;
                },
                _ => {},
            }
        }
        k += 1;
    }
    true
}

/// Whether some piece occurs twice in the bag.
pub fn has_repeat(bag: &Vec<Piece>) -> (repeat: bool)
    ensures
        repeat == !distinct(bag@),
{
    let mut j: usize = 0;
    while j < bag.len()
        invariant
            j <= bag@.len(),
            forall|a: int, b: int| 0 <= a < b < j ==> bag@[a] != bag@[b],
        decreases bag@.len() - j,
    {
        let mut i: usize = 0;
        while i < j
            invariant
                i <= j < bag@.len(),
                forall|a: int| 0 <= a < i ==> bag@[a] != bag@[j as int],
            decreases j - i,
        {
            if bag[i] == bag[j] {
                return true;
            }
            i += 1;
        }
        j += 1;
    }
    false
}

/// What the player or the clock can ask of the game.
#[derive(Debug, Clone, Copy, PartialEq, Eq, Structural)]
pub enum Action {
    MoveLeft,
    MoveRight,
    RotateCW,
    RotateCCW,
    SoftDropOnce,
    HardDrop,
    Hold,
}

impl GameView {
    /// The state after an action, where `next` is the piece that the action
    /// draws from the bag if it draws one.
    pub open spec fn acted(self, action: Action, next: Piece) -> GameView {
        match action {
            Action::MoveLeft => self.shifted(-1),
            Action::MoveRight => self.shifted(1),
            Action::RotateCW => self.rotated(1),
            Action::RotateCCW => self.rotated(3),
            Action::SoftDropOnce => self.dropped(next),
            Action::HardDrop => self.hard_dropped(next),
            Action::Hold => self.held_swap(next),
        }
    }

    /// Whether the action draws a piece from the bag.
    pub open spec fn draws(self, action: Action) -> bool {
        !self.game_over && match action {
            Action::SoftDropOnce => self.drop_spawns(),
            Action::HardDrop => self.hard_drop_spawns(),
            Action::Hold => self.hold_draws(),
            _ => false,
        }
    }
}

/// The state of a game.
pub struct AppState {
    board: Board,
    piece: Tetromino,
    location: (isize, isize),
    bag: Vec<Piece>,
    game_over: bool,
    score: u64,
    rng: rand::rngs::ThreadRng,
    held: Option<Piece>,
    can_hold: bool,
}

impl AppState {
    /// The state as the rules see it.
    pub closed spec fn view(&self) -> GameView {
        GameView {
            board: self.board@,
            piece: self.piece,
            column: self.location.0 as int,
            row: self.location.1 as int,
            bag: self.bag@,
            held: self.held,
            can_hold: self.can_hold,
            score: self.score as nat,
            game_over: self.game_over,
        }
    }

    /// The state is one that a game can be in.
    pub open spec fn wf(&self) -> bool {
        self@.wf()
    }

    /// A new game: an empty playfield, no points, nothing held, and a first
    /// piece drawn from a full bag.
    pub fn new() -> (state: AppState)
        ensures
            state.wf(),
            state@ == fresh(state@.piece.piece),
    {
        let mut bag = full_bag();
        let mut rng = new_rng();
        let first = randomize_piece(&mut bag, &mut rng);
        let state = AppState {
            board: Board::new(),
            piece: Tetromino { piece: first, rotation: Rotation::default() },
            location: (SPAWN_COLUMN, SPAWN_ROW),
            bag,
            game_over: false,
            score: 0,
            rng,
            held: None,
            can_hold: true,
        };
        proof {
            lemma_all_pieces(first);
            lemma_without_distinct(all_pieces(), first);
            lemma_spawn_legal(state@.board, first);
            assert(no_full_row(state@.board)) by {
                assert forall|r: int| 0 <= r < state@.board.len() implies !crate::board::row_full(
                    #[trigger] state@.board[r],
                ) by {
                    assert(state@.board[r][0].is_none());
                }
            }
        }
        state
    }

    /// Whether the piece `t` may stand with its anchor at `column` and `row`.
    pub fn is_legal(&self, t: Tetromino, column: isize, row: isize) -> (ok: bool)
        requires
            well_sized(self@.board),
        ensures
            ok == legal(self@.board, t, column as int, row as int),
    {
        placement_is_legal(&self.board, t, column, row)
    }

    /// Whether the piece in play stands legally where it is.
    pub fn piece_is_legal(&self) -> (ok: bool)
        requires
            well_sized(self@.board),
        ensures
            ok == legal(self@.board, self@.piece, self@.column, self@.row),
    {
        self.is_legal(self.piece, self.location.0, self.location.1)
    }

    /// Moves the piece one column to the side if it may stand there.
    pub fn move_piece(&mut self, movement_type: MovementType)
        requires
            old(self).wf(),
        ensures
            final(self).wf(),
            final(self)@ == old(self)@.shifted(movement_type.dx()),
    {
        if self.game_over {
            return;
        }
        let (column, row) = self.location;
        let target: isize = match movement_type {
            MovementType::Left => column - 1,
            MovementType::Right => column + 1,
        };
        if self.is_legal(self.piece, target, row) {
            proof {
                lemma_legal_bounds(self@.board, self@.piece, target as int, row as int);
            }
            self.location = (target, row);
        }
    }

    /// Turns the piece a quarter turn if it may stand so.
    pub fn rotate_piece(&mut self, rotation_type: MovementType)
        requires
            old(self).wf(),
        ensures
            final(self).wf(),
            final(self)@ == old(self)@.rotated(rotation_type.turns()),
    {
        if self.game_over {
            return;
        }
        let turned = Tetromino {
            piece: self.piece.piece,
            rotation: match rotation_type {
                MovementType::Right => self.piece.rotation.clockwise(),
                MovementType::Left => self.piece.rotation.counter_clockwise(),
            },
        };
        if self.is_legal(turned, self.location.0, self.location.1) {
            self.piece = turned;
        }
    }

    /// The row at which the piece would come to rest if it were let fall;
    /// one row above the piece where it stands illegally.
    pub fn ghost_location(&self) -> (ghost_row: isize)
        requires
            self.wf(),
        ensures
            ghost_row == (if legal(self@.board, self@.piece, self@.column, self@.row) {
                landing_row(self@.board, self@.piece, self@.column, self@.row)
            } else {
                self@.row - 1
            }),
    {
        let (column, start) = self.location;
        if !self.is_legal(self.piece, column, start) {
            return start - 1;
        }
        let mut row: isize = start;
        while self.is_legal(self.piece, column, row + 1)
            invariant
                self.wf(),
                column == self@.column,
                -3 <= row <= 19,
                legal(self@.board, self@.piece, column as int, row as int),
                landing_row(self@.board, self@.piece, column as int, row as int) == landing_row(
                    self@.board,
                    self@.piece,
                    self@.column,
                    self@.row,
                ),
            decreases 19 - row,
        {
            proof {
                lemma_legal_bounds(self@.board, self@.piece, column as int, row + 1);
            }
            row += 1;
        }
        row
    }

    /// Locks the piece where it stands, cell by cell in reading order. A cell
    /// above the playfield ends the game. If none is, the rows cleared are
    /// scored, holding is allowed again, and a new piece is drawn and enters
    /// play. Returns whether the game is over.
    pub fn lock_piece(&mut self) -> (over: bool)
        requires
            old(self).wf(),
            old(self)@.has_room(),
        ensures
            final(self).wf(),
            final(self)@ == old(self)@.locked(final(self)@.piece.piece),
            over == final(self)@.game_over,
            old(self)@.lock_spawns() ==> supply(old(self)@.bag).contains(final(self)@.piece.piece),
    {
        if self.game_over {
            return true;
        }
        let t = self.piece;
        let (column, row) = self.location;
        let cells = t.occupied();
        let ghost start = self@;
        let mut count: u8 = 0;
        let mut topped = false;
        let mut k: usize = 0;
        proof {
            crate::shape::lemma_quad_ordered(t);
        }
        while k < 4
            invariant
                k <= 4,
                start == old(self)@,
                start.wf(),
                !start.game_over,
                t == start.piece,
                column == start.column,
                row == start.row,
                self@ == (GameView { board: self@.board, ..start }),
                cells@.len() == 4,
                cells@.map_values(|p: (usize, usize)| place_of(p)) == t.cells(),
                well_sized(self@.board),
                no_full_row(self@.board),
                count <= k,
                (Settled { board: self@.board, lines: count as int, topped }) == settle_upto(
                    start.board,
                    t,
                    column as int,
                    row as int,
                    k as int,
                ),
            decreases 4 - k,
        {
            let (r, c) = cells[k];
            if !topped {
                let abs_row: isize = r as isize + row;
                let abs_col: isize = c as isize + column;
                if abs_row < 0 {
                    topped = true;
                } else {
                    proof {
                        lemma_one_cell(self@.board, abs_row as int, abs_col as int, Some(t.piece));
                        lemma_cleared_settled(with_cell(self@.board, abs_row as int, abs_col as int, Some(t.piece)));
                    }
                    self.board.set(abs_row as usize, abs_col as usize, Some(t.piece));
                    let cleared_now = self.board.clear_full_rows();
                    count = count + cleared_now;
                }
            }
            k += 1;
        }
        if topped {
            self.game_over = true;
            return true;
        }
        let points: u64 = if count == 0 {
            0
        } else if count == 1 {
            100
        } else if count == 2 {
            300
        } else if count == 3 {
            500
        } else {
            800
        };
        self.score = self.score + points;
        self.can_hold = true;
        self.spawn();
        false
    }

    /// Draws a piece from the bag and lets it enter play.
    fn spawn(&mut self)
        requires
            well_sized(old(self)@.board),
            no_full_row(old(self)@.board),
            distinct(old(self)@.bag),
        ensures
            final(self).wf(),
            final(self)@ == (GameView {
                bag: crate::bag::after_draw(old(self)@.bag, final(self)@.piece.piece),
                ..old(self)@
            }).spawned(final(self)@.piece.piece),
            supply(old(self)@.bag).contains(final(self)@.piece.piece),
    {
        let next = randomize_piece(&mut self.bag, &mut self.rng);
        self.piece = Tetromino { piece: next, rotation: Rotation::default() };
        self.location = (SPAWN_COLUMN, SPAWN_ROW);
        proof {
            lemma_all_pieces(next);
            lemma_without_distinct(supply(old(self)@.bag), next);
            lemma_spawn_legal(self@.board, next);
        }
    }

    /// One step down, as the clock or the player asks for it: the piece
    /// falls by a row, or is locked if it cannot. Returns whether it was
    /// locked.
    pub fn move_down(&mut self) -> (locked: bool)
        requires
            old(self).wf(),
            old(self)@.has_room(),
        ensures
            final(self).wf(),
            final(self)@ == old(self)@.dropped(final(self)@.piece.piece),
            locked == (!old(self)@.game_over && !old(self)@.can_fall()),
            !old(self)@.game_over && old(self)@.drop_spawns() ==> supply(old(self)@.bag).contains(
                final(self)@.piece.piece,
            ),
    {
        if self.game_over {
            return false;
        }
        let (column, row) = self.location;
        if self.is_legal(self.piece, column, row + 1) {
            proof {
                lemma_legal_bounds(self@.board, self@.piece, column as int, row + 1);
            }
            self.location = (column, row + 1);
            return false;
        }
        self.lock_piece();
        true
    }

    /// Lets the piece fall as far as it can and locks it there.
    pub fn hard_drop(&mut self)
        requires
            old(self).wf(),
            old(self)@.has_room(),
        ensures
            final(self).wf(),
            final(self)@ == old(self)@.hard_dropped(final(self)@.piece.piece),
            !old(self)@.game_over && old(self)@.hard_drop_spawns() ==> supply(old(self)@.bag).contains(
                final(self)@.piece.piece,
            ),
    {
        if self.game_over {
            return;
        }
        let mut locked = false;
        while !locked
            invariant
                self.wf(),
                old(self).wf(),
                !old(self)@.game_over,
                old(self)@.has_room(),
                !locked ==> self@ == (GameView { row: self@.row, ..old(self)@ }),
                !locked ==> landing_row(self@.board, self@.piece, self@.column, self@.row) == landing_row(
                    old(self)@.board,
                    old(self)@.piece,
                    old(self)@.column,
                    old(self)@.row,
                ),
                locked ==> self@ == old(self)@.hard_dropped(self@.piece.piece),
                locked && old(self)@.hard_drop_spawns() ==> supply(old(self)@.bag).contains(self@.piece.piece),
            decreases (if locked { 0int } else { 20 - self@.row }),
        {
            locked = self.move_down();
        }
    }

    /// Puts the piece in play aside and brings in the piece that was put
    /// aside before, or a newly drawn one if there was none. Does nothing
    /// where a piece was put aside already since the last lock.
    pub fn hold_piece(&mut self)
        requires
            old(self).wf(),
        ensures
            final(self).wf(),
            final(self)@ == old(self)@.held_swap(final(self)@.piece.piece),
            old(self)@.hold_draws() ==> supply(old(self)@.bag).contains(final(self)@.piece.piece),
    {
        if self.game_over || !self.can_hold {
            return;
        }
        let outgoing = self.piece.piece;
        match self.held {
            Some(h) => {
                self.piece = Tetromino { piece: h, rotation: Rotation::default() };
                self.location = (SPAWN_COLUMN, SPAWN_ROW);
                proof {
                    lemma_spawn_legal(self@.board, h);
                }
            },
            None => {
                self.spawn();
            },
        }
        self.held = Some(outgoing);
        self.can_hold = false;
    }

    /// Carries out an action of the player. Once the game is over nothing
    /// happens. Returns whether the game is to be shown anew.
    pub fn handle_action(&mut self, action: Action) -> (redraw: bool)
        requires
            old(self).wf(),
            action == Action::SoftDropOnce || action == Action::HardDrop ==> old(self)@.has_room(),
        ensures
            final(self).wf(),
            final(self)@ == old(self)@.acted(action, final(self)@.piece.piece),
            redraw == !old(self)@.game_over,
            old(self)@.draws(action) ==> supply(old(self)@.bag).contains(final(self)@.piece.piece),
    {
        if self.game_over {
            return false;
        }
        match action {
            Action::MoveLeft => self.move_piece(MovementType::Left),
            Action::MoveRight => self.move_piece(MovementType::Right),
            Action::RotateCW => self.rotate_piece(MovementType::Right),
            Action::RotateCCW => self.rotate_piece(MovementType::Left),
            Action::SoftDropOnce => {
                self.move_down();
            },
            Action::HardDrop => self.hard_drop(),
            Action::Hold => self.hold_piece(),
        }
        true
    }

    /// A tick of the clock: one step down while the game goes on. Returns
    /// whether the clock is to be set again.
    pub fn step_game(&mut self) -> (rearm: bool)
        requires
            old(self).wf(),
            old(self)@.has_room(),
        ensures
            final(self).wf(),
            final(self)@ == old(self)@.dropped(final(self)@.piece.piece),
            rearm == !old(self)@.game_over,
            !old(self)@.game_over && old(self)@.drop_spawns() ==> supply(old(self)@.bag).contains(
                final(self)@.piece.piece,
            ),
    {
        if !self.game_over {
            self.move_down();
            true
        } else {
            false
        }
    }

    /// A game in the given state, if that is a state that a game can be in:
    /// no full row on the playfield, no piece twice in the bag, the anchor
    /// within reach of the playfield, and the piece standing legally unless
    /// the game is over.
    pub fn from_parts(
        board: Board,
        piece: Tetromino,
        location: (isize, isize),
        bag: Vec<Piece>,
        held: Option<Piece>,
        can_hold: bool,
        score: u64,
        game_over: bool,
    ) -> (res: Option<AppState>)
        requires
            board.wf(),
        ensures
            res.is_some() <==> (GameView {
                board: board@,
                piece,
                column: location.0 as int,
                row: location.1 as int,
                bag: bag@,
                held,
                can_hold,
                score: score as nat,
                game_over,
            }).wf(),
            res.is_some() ==> res.unwrap()@ == (GameView {
                board: board@,
                piece,
                column: location.0 as int,
                row: location.1 as int,
                bag: bag@,
                held,
                can_hold,
                score: score as nat,
                game_over,
            }),
    {
        let mut r: usize = 0;
        while r < ROWS
            invariant
                r <= ROWS,
                board.wf(),
                forall|i: int| 0 <= i < r ==> !crate::board::row_full(#[trigger] board@[i]),
            decreases ROWS - r,
        {
            if board.row_is_full(r) {
                return None;
            }
            r += 1;
        }
        if has_repeat(&bag) {
            return None;
        }
        if location.0 < -3 || location.0 > 9 || location.1 < -3 || location.1 > 19 {
            return None;
        }
        if !game_over && !placement_is_legal(&board, piece, location.0, location.1) {
            return None;
        }
        let rng = new_rng();
        Some(AppState { board, piece, location, bag, game_over, score, rng, held, can_hold })
    }

    /// The playfield.
    pub fn board(&self) -> (board: &Board)
        ensures
            board@ == self@.board,
    {
        &self.board
    }

    /// The piece in play.
    pub fn piece(&self) -> (piece: Tetromino)
        ensures
            piece == self@.piece,
    {
        self.piece
    }

    /// The anchor of the piece in play: column, then row.
    pub fn location(&self) -> (location: (isize, isize))
        ensures
            location.0 == self@.column,
            location.1 == self@.row,
    {
        self.location
    }

    /// The pieces still in the bag.
    pub fn bag(&self) -> (bag: &Vec<Piece>)
        ensures
            bag@ == self@.bag,
    {
        &self.bag
    }

    /// The piece put aside, if any.
    pub fn held(&self) -> (held: Option<Piece>)
        ensures
            held == self@.held,
    {
        self.held
    }

    /// Whether the piece in play may be put aside.
    pub fn can_hold(&self) -> (can_hold: bool)
        ensures
            can_hold == self@.can_hold,
    {
        self.can_hold
    }

    /// The points so far.
    pub fn score(&self) -> (score: u64)
        ensures
            score == self@.score,
    {
        self.score
    }

    /// Whether the game is over.
    pub fn game_over(&self) -> (game_over: bool)
        ensures
            game_over == self@.game_over,
    {
        self.game_over
    }
}

} // verus!
