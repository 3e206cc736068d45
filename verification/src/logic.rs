//! What the snake answers to the game: its appearance, and a move for each
//! turn.

use vstd::prelude::*;
use crate::choice::choose_move;
use crate::game::{Battlesnake, Board, Game};
use crate::geometry::{Coord, Direction};
use crate::safety::{body_fault, is_safe, safe_moves, MoveError};

verus! {

/// How the snake presents itself.
#[derive(Clone, Copy, Debug, PartialEq, Eq)]
pub struct SnakeInfo {
    pub apiversion: &'static str,
    pub author: &'static str,
    pub color: &'static str,
    pub head: &'static str,
    pub tail: &'static str,
}

/// The snake's appearance: always the same record.
pub fn info() -> (i: SnakeInfo)
    ensures
        i.apiversion@ == "1"@,
        i.author@ == "plttn"@,
        i.color@ == "#888888"@,
        i.head@ == "default"@,
        i.tail@ == "default"@,
{
    SnakeInfo {
        apiversion: "1",
        author: "plttn",
        color: "#888888",
        head: "default",
        tail: "default",
    }
}

/// Called when a game begins. Nothing is kept between turns, so there is
/// nothing to set up.
pub fn start(_game: &Game, _turn: &u32, _board: &Board, _you: &Battlesnake) {
}

/// Called when a game is over. Nothing is kept between turns, so there is
/// nothing to tear down.
pub fn end(_game: &Game, _turn: &u32, _board: &Board, _you: &Battlesnake) {
}

/// Whether some direction is safe for a snake with cells `body` on a `width`
/// by `height` board.
pub open spec fn has_safe_move(width: int, height: int, body: Seq<Coord>) -> bool {
    exists|d: Direction| is_safe(width, height, body, d)
}

/// The move for this turn: one of the safe moves, picked at random.
///
/// The turn fails with `MalformedBody` or `NeckNotAligned` where the body
/// cannot be evaluated, and with `NoSafeMove` where every direction is
/// unsafe. Neither the game nor the turn number takes part in the decision.
pub fn get_move(game: &Game, _turn: &u32, board: &Board, you: &Battlesnake) -> (r: Result<
    Direction,
    MoveError,
>)
    ensures
        body_fault(you.body@) matches Some(e) ==> r == Err::<Direction, MoveError>(e),
        body_fault(you.body@) is None && !has_safe_move(
            board.width as int,
            board.height as int,
            you.body@,
        ) ==> r == Err::<Direction, MoveError>(MoveError::NoSafeMove),
        body_fault(you.body@) is None && has_safe_move(
            board.width as int,
            board.height as int,
            you.body@,
        ) ==> r is Ok && is_safe(board.width as int, board.height as int, you.body@, r->Ok_0),
{
    match safe_moves(game, board, you) {
        Ok(safe) => {
            proof {
                if safe@.len() > 0 {
                    assert(safe@.contains(safe@[0]));
                }
                if has_safe_move(board.width as int, board.height as int, you.body@) {
                    let d = choose|d: Direction|
                        is_safe(board.width as int, board.height as int, you.body@, d);
                    assert(safe@.contains(d));
                }
            }
            choose_move(&safe)
        },
        Err(e) => Err(e),
    }
}

} // verus!
