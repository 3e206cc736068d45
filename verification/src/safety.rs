//! The rules that make a move unsafe, and the moves that they leave.
//!
//! Three rules apply to a snake of at least two cells whose neck lies in line
//! with its head: a move back towards the neck, a move off the board from an
//! edge cell, and a move onto a cell of the snake's own body are unsafe. Each
//! rule only ever forbids, so the order in which they are applied is of no
//! consequence.

use vstd::prelude::*;
use crate::game::{Battlesnake, Board, Game};
use crate::geometry::{step, Coord, Direction, Neighbors};

verus! {

/// Why no move could be given for a turn.
#[derive(Clone, Copy, Debug, PartialEq, Eq, Structural)]
pub enum MoveError {
    /// The body has fewer than two cells, so there is no neck.
    MalformedBody,
    /// Head and neck differ in both x and y, which no single step produces.
    NeckNotAligned,
    /// Every direction is unsafe.
    NoSafeMove,
}

impl MoveError {
    /// What went wrong, in words.
    pub open spec fn text(self) -> Seq<char> {
        match self {
            MoveError::MalformedBody => "body has fewer than two cells"@,
            MoveError::NeckNotAligned => "neck is not in line with the head"@,
            MoveError::NoSafeMove => "no safe move is left"@,
        }
    }

    /// What went wrong, in words.
    pub fn message(self) -> (s: &'static str)
        ensures
            s@ == self.text(),
    {
        match self {
            MoveError::MalformedBody => "body has fewer than two cells",
            MoveError::NeckNotAligned => "neck is not in line with the head",
            MoveError::NoSafeMove => "no safe move is left",
        }
    }
}

/// Whether a step in direction `d` takes `head` towards `neck`.
pub open spec fn towards_neck(head: Coord, neck: Coord, d: Direction) -> bool {
    match d {
        Direction::Up => neck.y > head.y,
        Direction::Down => neck.y < head.y,
        Direction::Left => neck.x < head.x,
        Direction::Right => neck.x > head.x,
    }
}

/// Whether `head` stands on the edge of a `width` by `height` board that a
/// step in direction `d` would cross.
pub open spec fn off_edge(width: int, height: int, head: Coord, d: Direction) -> bool {
    match d {
        Direction::Up => head.y == height - 1,
        Direction::Down => head.y == 0,
        Direction::Left => head.x == 0,
        Direction::Right => head.x == width - 1,
    }
}

/// Whether the position one step in direction `d` from the head, `body[0]`,
/// is a cell of the body.
pub open spec fn onto_body(body: Seq<Coord>, d: Direction) -> bool {
    exists|i: int| 0 <= i < body.len() && (#[trigger] body[i])@ == step(body[0]@, d)
}

/// Whether a step in direction `d` is safe for a snake with cells `body` on a
/// `width` by `height` board: none of the three rules forbids it.
pub open spec fn is_safe(width: int, height: int, body: Seq<Coord>, d: Direction) -> bool {
    &&& !towards_neck(body[0], body[1], d)
    &&& !off_edge(width, height, body[0], d)
    &&& !onto_body(body, d)
}

/// The flags that the three rules leave for a snake with cells `body` on a
/// `width` by `height` board.
pub open spec fn rule_flags(width: int, height: int, body: Seq<Coord>) -> SafetyMap {
    SafetyMap {
        up: is_safe(width, height, body, Direction::Up),
        down: is_safe(width, height, body, Direction::Down),
        left: is_safe(width, height, body, Direction::Left),
        right: is_safe(width, height, body, Direction::Right),
    }
}

/// The safe moves for a snake with cells `body` on a `width` by `height`
/// board, in the order up, down, left, right.
pub open spec fn safe_listing(width: int, height: int, body: Seq<Coord>) -> Seq<Direction> {
    rule_flags(width, height, body).listing()
}

/// What is wrong with a body, if anything, before any rule is applied.
pub open spec fn body_fault(body: Seq<Coord>) -> Option<MoveError> {
    if body.len() < 2 {
        Some(MoveError::MalformedBody)
    } else if body[0].x != body[1].x && body[0].y != body[1].y {
        Some(MoveError::NeckNotAligned)
    } else {
        None
    }
}

/// `seq![d]` where `keep` holds, the empty sequence where it does not.
pub open spec fn only_if(keep: bool, d: Direction) -> Seq<Direction> {
    if keep {
        seq![d]
    } else {
        Seq::empty()
    }
}

/// One flag for each direction: whether a move that way is still safe.
#[derive(Clone, Copy, Debug, PartialEq, Eq, Structural)]
pub struct SafetyMap {
    pub up: bool,
    pub down: bool,
    pub left: bool,
    pub right: bool,
}

impl SafetyMap {
    /// The flag of direction `d`.
    pub open spec fn allows(self, d: Direction) -> bool {
        match d {
            Direction::Up => self.up,
            Direction::Down => self.down,
            Direction::Left => self.left,
            Direction::Right => self.right,
        }
    }

    /// The directions whose flag is set, in the order up, down, left, right.
    pub open spec fn listing(self) -> Seq<Direction> {
        only_if(self.up, Direction::Up) + only_if(self.down, Direction::Down) + only_if(
            self.left,
            Direction::Left,
        ) + only_if(self.right, Direction::Right)
    }

    /// The listing holds a direction exactly when its flag is set, and holds
    /// none twice.
    pub proof fn lemma_listing(self)
        ensures
            forall|d: Direction| self.listing().contains(d) <==> self.allows(d),
            self.listing().no_duplicates(),
            self.listing().len() <= 4,
    {
        let l = self.listing();
        let u = only_if(self.up, Direction::Up);
        let d = only_if(self.down, Direction::Down);
        let le = only_if(self.left, Direction::Left);
        let r = only_if(self.right, Direction::Right);
        assert(l == ((u + d) + le) + r);
        assert forall|x: Direction| l.contains(x) <==> self.allows(x) by {
            if self.allows(x) {
                let k: int = match x {
                    Direction::Up => 0,
                    Direction::Down => u.len() as int,
                    Direction::Left => (u.len() + d.len()) as int,
                    Direction::Right => (u.len() + d.len() + le.len()) as int,
                };
                assert(l[k] == x);
            }
        }
    }

    /// Every direction safe: the map before any rule has been applied.
    pub fn all_safe() -> (m: SafetyMap)
        ensures
            forall|d: Direction| m.allows(d),
    {
        SafetyMap { up: true, down: true, left: true, right: true }
    }

    /// The flag of direction `d`.
    pub fn get(&self, d: Direction) -> (safe: bool)
        ensures
            safe == self.allows(d),
    {
        match d {
            Direction::Up => self.up,
            Direction::Down => self.down,
            Direction::Left => self.left,
            Direction::Right => self.right,
        }
    }

    /// The map that allows what both this map and `other` allow.
    pub fn and(self, other: SafetyMap) -> (m: SafetyMap)
        ensures
            forall|d: Direction| m.allows(d) == (self.allows(d) && other.allows(d)),
    {
        SafetyMap {
            up: self.up && other.up,
            down: self.down && other.down,
            left: self.left && other.left,
            right: self.right && other.right,
        }
    }

    /// The directions whose flag is set, in the order up, down, left, right.
    pub fn safe_directions(&self) -> (v: Vec<Direction>)
        ensures
            v@ == self.listing(),
            forall|d: Direction| v@.contains(d) <==> self.allows(d),
            v@.no_duplicates(),
    {
        let mut v: Vec<Direction> = Vec::new();
        if self.up {
            v.push(Direction::Up);
        }
        if self.down {
            v.push(Direction::Down);
        }
        if self.left {
            v.push(Direction::Left);
        }
        if self.right {
            v.push(Direction::Right);
        }
        proof {
            assert(v@ =~= self.listing());
            self.lemma_listing();
        }
        v
    }
}

/// The neck rule: forbids each direction that leads from `head` towards
/// `neck`. Where the two are the same cell it forbids nothing.
pub fn neck_rule(head: Coord, neck: Coord) -> (m: SafetyMap)
    ensures
        forall|d: Direction| m.allows(d) == !towards_neck(head, neck, d),
{
    SafetyMap {
        up: !(neck.y > head.y),
        down: !(neck.y < head.y),
        left: !(neck.x < head.x),
        right: !(neck.x > head.x),
    }
}

/// The boundary rule: forbids the directions that lead off the board from a
/// head on its edge; two of them in a corner.
pub fn boundary_rule(board: &Board, head: Coord) -> (m: SafetyMap)
    ensures
        forall|d: Direction|
            m.allows(d) == !off_edge(board.width as int, board.height as int, head, d),
{
    let x: i64 = head.x as i64;
    let y: i64 = head.y as i64;
    SafetyMap {
        up: y != board.height as i64 - 1,
        down: y != 0,
        left: x != 0,
        right: x != board.width as i64 - 1,
    }
}

/// The four positions around the snake's head, one for each direction. They
/// are not held to the board: next to an edge some lie off it, below zero
/// too.
pub fn get_neighbor_coords(you: &Battlesnake) -> (n: Neighbors)
    requires
        you.body@.len() >= 1,
    ensures
        n.surrounds(you.body@[0]),
{
    let head = you.body[0];
    Neighbors {
        up: head.neighbor(Direction::Up),
        down: head.neighbor(Direction::Down),
        left: head.neighbor(Direction::Left),
        right: head.neighbor(Direction::Right),
    }
}

/// The self-collision rule: forbids each direction whose position next to
/// the head is a cell of the body, the tail included.
pub fn body_rule(you: &Battlesnake) -> (m: SafetyMap)
    requires
        you.body@.len() >= 1,
    ensures
        forall|d: Direction| m.allows(d) == !onto_body(you.body@, d),
{
    let around = get_neighbor_coords(you);
    let body = &you.body;
    let mut m = SafetyMap::all_safe();
    let mut i: usize = 0;
    while i < body.len()
        invariant
            0 <= i <= body@.len(),
            body@.len() >= 1,
            around.surrounds(body@[0]),
            forall|d: Direction| m.allows(d) == !onto_body(body@.take(i as int), d),
        decreases body@.len() - i,
    {
        let part = body[i];
        let ghost before = m;
        m = SafetyMap {
            up: m.up && !part.is_at(around.up),
            down: m.down && !part.is_at(around.down),
            left: m.left && !part.is_at(around.left),
            right: m.right && !part.is_at(around.right),
        };
        proof {
            let prev = body@.take(i as int);
            let next = body@.take(i as int + 1);
            assert forall|d: Direction| m.allows(d) == !onto_body(next, d) by {
                assert(around.at(d)@ == step(body@[0]@, d));
                assert(next[0] == body@[0]);
                assert(m.allows(d) == (before.allows(d) && part@ != step(body@[0]@, d)));
                if onto_body(next, d) {
                    let j = choose|j: int|
                        0 <= j < next.len() && (#[trigger] next[j])@ == step(next[0]@, d);
                    if j < i {
                        assert(prev[j] == next[j]);
                        assert(prev[0] == body@[0]);
                        assert(onto_body(prev, d));
                    }
                } else {
                    assert(next[i as int] == part);
                    if i > 0 && onto_body(prev, d) {
                        let j = choose|j: int|
                            0 <= j < prev.len() && (#[trigger] prev[j])@ == step(prev[0]@, d);
                        assert(next[j] == prev[j]);
                        assert(prev[0] == next[0]);
                    }
                }
            }
        }
        i += 1;
    }
    proof {
        assert(body@.take(i as int) =~= body@);
    }
    m
}

/// Applies the three rules to a snake on a board and gives the flag of each
/// direction.
///
/// A body of fewer than two cells is refused as `MalformedBody`, one whose
/// neck lies diagonally from its head as `NeckNotAligned`; every other body
/// is evaluated.
pub fn evaluate_safety(board: &Board, you: &Battlesnake) -> (r: Result<SafetyMap, MoveError>)
    ensures
        body_fault(you.body@) matches Some(e) ==> r == Err::<SafetyMap, MoveError>(e),
        body_fault(you.body@) is None ==> r is Ok && forall|d: Direction|
            r->Ok_0.allows(d) == is_safe(
                board.width as int,
                board.height as int,
                you.body@,
                d,
            ),
{
    if you.body.len() < 2 {
        return Err(MoveError::MalformedBody);
    }
    let head = you.body[0];
    let neck = you.body[1];
    if head.x != neck.x && head.y != neck.y {
        return Err(MoveError::NeckNotAligned);
    }
    let m = neck_rule(head, neck).and(boundary_rule(board, head)).and(body_rule(you));
    Ok(m)
}

/// The moves that are safe for `you` on `board`, in the order up, down,
/// left, right.
///
/// The game itself takes no part in the decision.
pub fn safe_moves(_game: &Game, board: &Board, you: &Battlesnake) -> (r: Result<
    Vec<Direction>,
    MoveError,
>)
    ensures
        body_fault(you.body@) matches Some(e) ==> r == Err::<Vec<Direction>, MoveError>(e),
        body_fault(you.body@) is None ==> r is Ok && r->Ok_0@ == safe_listing(
            board.width as int,
            board.height as int,
            you.body@,
        ),
        body_fault(you.body@) is None ==> r->Ok_0@.no_duplicates() && forall|d: Direction|
            r->Ok_0@.contains(d) <==> is_safe(
                board.width as int,
                board.height as int,
                you.body@,
                d,
            ),
{
    match evaluate_safety(board, you) {
        Ok(m) => {
            let v = m.safe_directions();
            proof {
                assert(m == rule_flags(board.width as int, board.height as int, you.body@)) by {
                    assert(m.allows(Direction::Up) == m.up);
                    assert(m.allows(Direction::Down) == m.down);
                    assert(m.allows(Direction::Left) == m.left);
                    assert(m.allows(Direction::Right) == m.right);
                }
                assert forall|d: Direction|
                    v@.contains(d) <==> is_safe(
                        board.width as int,
                        board.height as int,
                        you.body@,
                        d,
                    ) by {
                    assert(v@.contains(d) <==> m.allows(d));
                }
            }
            Ok(v)
        },
        Err(e) => Err(e),
    }
}

/// A snake never moves back onto its neck: where the neck is the cell one
/// step from the head in direction `d`, the body is in order and `d` is not
/// among its safe moves, whatever the board.
pub proof fn lemma_never_back_onto_neck(width: int, height: int, body: Seq<Coord>, d: Direction)
    requires
        body.len() >= 2,
        body[1]@ == step(body[0]@, d),
    ensures
        body_fault(body) is None,
        !is_safe(width, height, body, d),
        !safe_listing(width, height, body).contains(d),
{
    rule_flags(width, height, body).lemma_listing();
}

/// A snake never moves off the board from an edge: with the head in column 0
/// left is not among the safe moves, in the last column right is not, in row
/// 0 down is not, and in the last row up is not.
pub proof fn lemma_never_off_the_edge(width: int, height: int, body: Seq<Coord>)
    ensures
        body[0].x == 0 ==> !safe_listing(width, height, body).contains(Direction::Left),
        body[0].x == width - 1 ==> !safe_listing(width, height, body).contains(
            Direction::Right,
        ),
        body[0].y == 0 ==> !safe_listing(width, height, body).contains(Direction::Down),
        body[0].y == height - 1 ==> !safe_listing(width, height, body).contains(Direction::Up),
{
    rule_flags(width, height, body).lemma_listing();
}

/// A snake never moves onto itself: for a direction `d` among the safe
/// moves, the position that `around` records for `d` next to the head is not
/// the cell `body[i]`, for any cell of the body.
pub proof fn lemma_never_onto_own_body(
    width: int,
    height: int,
    body: Seq<Coord>,
    around: Neighbors,
    d: Direction,
    i: int,
)
    requires
        around.surrounds(body[0]),
        safe_listing(width, height, body).contains(d),
        0 <= i < body.len(),
    ensures
        around.at(d)@ != body[i]@,
{
    rule_flags(width, height, body).lemma_listing();
    assert(around.at(d)@ == step(body[0]@, d));
    if body[i]@ == step(body[0]@, d) {
        assert(onto_body(body, d));
    }
}

/// A safe move from a cell of the board leads to a cell of the board.
pub proof fn lemma_safe_move_stays_on_board(
    width: int,
    height: int,
    body: Seq<Coord>,
    d: Direction,
)
    requires
        0 <= body[0].x < width,
        0 <= body[0].y < height,
        is_safe(width, height, body, d),
    ensures
        0 <= step(body[0]@, d).0 < width,
        0 <= step(body[0]@, d).1 < height,
{
}

} // verus!
