//! Per-turn move selection for a snake on a rectangular grid.
//!
//! The snake's own body and the board's dimensions decide which of the four
//! cardinal moves are not immediately fatal; one of those is then picked at
//! random.

pub mod geometry;
pub mod game;
pub mod safety;
pub mod choice;
pub mod logic;
