//! The snapshot of a game that each turn is decided on.

use vstd::prelude::*;
use crate::geometry::Coord;

verus! {

/// What identifies a game. No rule reads it.
#[derive(Clone, Debug)]
pub struct Game {
    pub id: String,
    pub timeout: u32,
}

/// One snake: its cells from the head (index 0) over the neck (index 1) to
/// the tail.
#[derive(Clone, Debug)]
pub struct Battlesnake {
    pub id: String,
    pub name: String,
    pub health: u32,
    pub body: Vec<Coord>,
}

/// The board: cells (x, y) with `0 <= x < width` and `0 <= y < height`, the
/// food on it and the snakes in play.
#[derive(Clone, Debug)]
pub struct Board {
    pub height: u32,
    pub width: u32,
    pub food: Vec<Coord>,
    pub snakes: Vec<Battlesnake>,
}

} // verus!
