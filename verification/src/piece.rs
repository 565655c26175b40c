//! The seven pieces, the four orientations and the occupancy pattern of each pair.

use vstd::prelude::*;

verus! {

/// The identity of a piece.
#[derive(Debug, Clone, Copy, PartialEq, Eq, Structural)]
pub enum Piece {
    I,
    J,
    L,
    O,
    S,
    Z,
    T,
}

/// One of the four orientations, in clockwise order.
#[derive(Debug, Clone, Copy, PartialEq, Eq, Structural)]
pub enum Rotation {
    Up,
    Right,
    Down,
    Left,
}

/// A piece together with its orientation.
#[derive(Debug, Clone, Copy, PartialEq, Eq, Structural)]
pub struct Tetromino {
    pub piece: Piece,
    pub rotation: Rotation,
}

/// The seven identities in their fixed order.
pub open spec fn all_pieces() -> Seq<Piece> {
    seq![Piece::I, Piece::J, Piece::L, Piece::O, Piece::S, Piece::Z, Piece::T]
}

impl Piece {
    /// Side length of the square that holds the piece's patterns.
    pub open spec fn spec_size(self) -> int {
        match self {
            Piece::I => 4,
            Piece::O => 2,
            _ => 3,
        }
    }

    /// Red, green and blue of the colour in which the piece is shown.
    pub open spec fn spec_color(self) -> (u8, u8, u8) {
        match self {
            Piece::I => (0u8, 255u8, 255u8),
            Piece::O => (255u8, 255u8, 0u8),
            Piece::T => (128u8, 0u8, 128u8),
            Piece::S => (0u8, 255u8, 0u8),
            Piece::Z => (255u8, 0u8, 0u8),
            Piece::J => (0u8, 0u8, 255u8),
            Piece::L => (255u8, 165u8, 0u8),
        }
    }

    /// Side length of the square that holds the piece's patterns.
    pub fn size(&self) -> (n: usize)
        ensures
            n == self.spec_size(),
    {
        match *self {
            Piece::I => 4,
            Piece::O => 2,
            _ => 3,
        }
    }

    /// Red, green and blue of the colour in which the piece is shown.
    pub fn to_color(&self) -> (rgb: (u8, u8, u8))
        ensures
            rgb == self.spec_color(),
    {
        match *self {
            Piece::I => (0, 255, 255),
            Piece::O => (255, 255, 0),
            Piece::T => (128, 0, 128),
            Piece::S => (0, 255, 0),
            Piece::Z => (255, 0, 0),
            Piece::J => (0, 0, 255),
            Piece::L => (255, 165, 0),
        }
    }
}

impl Rotation {
    /// Position in the cycle Up, Right, Down, Left.
    pub open spec fn index(self) -> int {
        match self {
            Rotation::Up => 0,
            Rotation::Right => 1,
            Rotation::Down => 2,
            Rotation::Left => 3,
        }
    }

    /// The orientation at a position of the cycle.
    pub open spec fn at(i: int) -> Rotation {
        if i == 0 {
            Rotation::Up
        } else if i == 1 {
            Rotation::Right
        } else if i == 2 {
            Rotation::Down
        } else {
            Rotation::Left
        }
    }

    /// The orientation `steps` quarter turns clockwise of this one.
    pub open spec fn turned(self, steps: int) -> Rotation {
        Rotation::at((self.index() + steps) % 4)
    }

    /// The next orientation clockwise.
    pub fn clockwise(self) -> (r: Rotation)
        ensures
            r == self.turned(1),
    {
        match self {
            Rotation::Up => Rotation::Right,
            Rotation::Right => Rotation::Down,
            Rotation::Down => Rotation::Left,
            Rotation::Left => Rotation::Up,
        }
    }

    /// The next orientation counter-clockwise.
    pub fn counter_clockwise(self) -> (r: Rotation)
        ensures
            r == self.turned(3),
    {
        match self {
            Rotation::Up => Rotation::Left,
            Rotation::Left => Rotation::Down,
            Rotation::Down => Rotation::Right,
            Rotation::Right => Rotation::Up,
        }
    }
}

impl Default for Rotation {
    /// The orientation in which every piece enters play.
    fn default() -> (r: Rotation)
        ensures
            r == Rotation::Down,
    {
        Rotation::Down
    }
}

/// Turning clockwise and then counter-clockwise, or the other way round,
/// gives the orientation back, and four turns one way do too.
pub proof fn lemma_turns_cycle(r: Rotation)
    ensures
        r.turned(1).turned(3) == r,
        r.turned(3).turned(1) == r,
        r.turned(1).turned(1).turned(1).turned(1) == r,
        r.turned(3).turned(3).turned(3).turned(3) == r,
{
}

} // verus!
