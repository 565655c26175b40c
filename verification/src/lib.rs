//! A falling-block puzzle engine: the playfield, the seven pieces and their
//! shapes, the bag that deals them, and the transitions of a game.

pub mod piece;
pub mod grid;
pub mod shape;
pub mod board;
pub mod clearing;
pub mod bag;
pub mod rules;
pub mod game;
pub mod laws;
