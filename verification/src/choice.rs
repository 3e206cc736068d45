//! Picking one move among the safe ones.

use vstd::prelude::*;
use crate::geometry::Direction;
use crate::safety::MoveError;

verus! {

/// Calls `rand::seq::SliceRandom::choose` on the slice of `options`, with the
/// thread's generator from `rand::thread_rng`, and copies the element that it
/// points to.
///
/// Believed, not proved: on an empty slice `choose` returns `None`; on any
/// other it returns a reference to one of the slice's elements. Which one is
/// left open, and two calls on the same slice may differ. The generator is
/// seeded from the operating system when a thread first asks for it, and
/// `rand` panics there if the system has no entropy to give.
#[verifier::external_body]
fn pick_random(options: &Vec<Direction>) -> (picked: Option<Direction>)
    ensures
        options@.len() == 0 ==> picked is None,
        options@.len() > 0 ==> picked is Some && options@.contains(picked->0),
{
    rand::seq::SliceRandom::choose(options.as_slice(), &mut rand::thread_rng()).copied()
}

/// What a pick among the safe moves means for the turn.
pub open spec fn settled(picked: Option<Direction>) -> Result<Direction, MoveError> {
    match picked {
        Some(d) => Ok(d),
        None => Err(MoveError::NoSafeMove),
    }
}

/// Turns a pick among the safe moves into the turn's outcome: the picked
/// move, or `NoSafeMove` where nothing could be picked.
pub fn settle(picked: Option<Direction>) -> (r: Result<Direction, MoveError>)
    ensures
        r == settled(picked),
{
    match picked {
        Some(d) => Ok(d),
        None => Err(MoveError::NoSafeMove),
    }
}

/// Picks one of the moves in `safe` at random, each as likely as the others.
///
/// With nothing to pick from, the turn fails with `NoSafeMove`: no direction
/// is made up. With a single move in `safe`, that move is returned.
pub fn choose_move(safe: &Vec<Direction>) -> (r: Result<Direction, MoveError>)
    ensures
        safe@.len() == 0 ==> r == Err::<Direction, MoveError>(MoveError::NoSafeMove),
        safe@.len() > 0 ==> r is Ok && safe@.contains(r->Ok_0),
        safe@.len() == 1 ==> r == Ok::<Direction, MoveError>(safe@[0]),
{
    settle(pick_random(safe))
}

} // verus!
