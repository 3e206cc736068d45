//! Grid cells, the four directions, and the cells next to a head.

use vstd::prelude::*;

verus! {

/// A cell of the grid as the game reports it, zero-based from the bottom left.
#[derive(Clone, Copy, Debug, PartialEq, Eq, Structural, Hash)]
pub struct Coord {
    pub x: i32,
    pub y: i32,
}

impl View for Coord {
    type V = (int, int);

    open spec fn view(&self) -> (int, int) {
        (self.x as int, self.y as int)
    }
}

/// A position one step away from a reported cell. It has room for positions
/// that lie off the board on any side, so stepping never wraps around.
#[derive(Clone, Copy, Debug, PartialEq, Eq, Structural, Hash)]
pub struct Cell {
    pub x: i64,
    pub y: i64,
}

impl View for Cell {
    type V = (int, int);

    open spec fn view(&self) -> (int, int) {
        (self.x as int, self.y as int)
    }
}

/// One of the four moves a snake can make.
#[derive(Clone, Copy, Debug, PartialEq, Eq, Structural, Hash)]
pub enum Direction {
    Up,
    Down,
    Left,
    Right,
}

/// The position reached from `from` by one step in direction `d`.
pub open spec fn step(from: (int, int), d: Direction) -> (int, int) {
    (from.0 + d.delta().0, from.1 + d.delta().1)
}

impl Direction {
    /// The change in (x, y) that one step in this direction makes.
    pub open spec fn delta(self) -> (int, int) {
        match self {
            Direction::Up => (0, 1),
            Direction::Down => (0, -1),
            Direction::Left => (-1, 0),
            Direction::Right => (1, 0),
        }
    }

    /// The lowercase word by which this direction goes on the wire.
    pub open spec fn token(self) -> Seq<char> {
        match self {
            Direction::Up => "up"@,
            Direction::Down => "down"@,
            Direction::Left => "left"@,
            Direction::Right => "right"@,
        }
    }

    /// The change in (x, y) that one step in this direction makes.
    pub fn offset(self) -> (d: (i64, i64))
        ensures
            (d.0 as int, d.1 as int) == self.delta(),
    {
        match self {
            Direction::Up => (0, 1),
            Direction::Down => (0, -1),
            Direction::Left => (-1, 0),
            Direction::Right => (1, 0),
        }
    }

    /// The lowercase word by which this direction goes on the wire.
    pub fn as_str(self) -> (s: &'static str)
        ensures
            s@ == self.token(),
    {
        match self {
            Direction::Up => "up",
            Direction::Down => "down",
            Direction::Left => "left",
            Direction::Right => "right",
        }
    }
}

impl Coord {
    /// The position one step from this cell in direction `d`, on the board or
    /// off it.
    pub fn neighbor(self, d: Direction) -> (c: Cell)
        ensures
            c@ == step(self@, d),
    {
        let (dx, dy) = d.offset();
        Cell { x: self.x as i64 + dx, y: self.y as i64 + dy }
    }

    /// Whether this cell is the position `c`.
    pub fn is_at(self, c: Cell) -> (same: bool)
        ensures
            same == (self@ == c@),
    {
        self.x as i64 == c.x && self.y as i64 == c.y
    }
}

/// The four positions around a head, one for each direction.
#[derive(Clone, Copy, Debug, PartialEq, Eq, Structural)]
pub struct Neighbors {
    pub up: Cell,
    pub down: Cell,
    pub left: Cell,
    pub right: Cell,
}

impl Neighbors {
    /// The position recorded for direction `d`.
    pub open spec fn at(self, d: Direction) -> Cell {
        match d {
            Direction::Up => self.up,
            Direction::Down => self.down,
            Direction::Left => self.left,
            Direction::Right => self.right,
        }
    }

    /// Whether these are the four positions around `head`.
    pub open spec fn surrounds(self, head: Coord) -> bool {
        forall|d: Direction| #[trigger] self.at(d)@ == step(head@, d)
    }

    /// The position recorded for direction `d`.
    pub fn get(&self, d: Direction) -> (c: Cell)
        ensures
            c == self.at(d),
    {
        match d {
            Direction::Up => self.up,
            Direction::Down => self.down,
            Direction::Left => self.left,
            Direction::Right => self.right,
        }
    }
}

} // verus!
