//! Directions and board coordinates, with clamped motion.
use vstd::prelude::*;

verus! {

/// One of the four headings the snake can take.
#[derive(Clone, Copy, Debug, PartialEq, Eq, Structural)]
pub enum Direction {
    Up,
    Down,
    Left,
    Right,
}

impl Direction {
    /// The heading that points the other way.
    pub open spec fn opposite_spec(self) -> Direction {
        match self {
            Direction::Up => Direction::Down,
            Direction::Down => Direction::Up,
            Direction::Left => Direction::Right,
            Direction::Right => Direction::Left,
        }
    }

    /// Returns the reverse heading.
    pub fn opposite(self) -> (r: Direction)
        ensures
            r == self.opposite_spec(),
    {
        match self {
            Direction::Up => Direction::Down,
            Direction::Down => Direction::Up,
            Direction::Left => Direction::Right,
            Direction::Right => Direction::Left,
        }
    }

    /// Column offset of one cell of motion along this heading.
    pub open spec fn dx(self) -> int {
        match self {
            Direction::Left => -1,
            Direction::Right => 1,
            _ => 0,
        }
    }

    /// Row offset of one cell of motion along this heading (rows grow downwards).
    pub open spec fn dy(self) -> int {
        match self {
            Direction::Up => -1,
            Direction::Down => 1,
            _ => 0,
        }
    }
}

/// A cell of the board: column `x`, row `y`, with (0, 0) at the top left.
#[derive(Clone, Copy, Debug, PartialEq, Eq, Structural)]
pub struct Position {
    pub x: u16,
    pub y: u16,
}

/// `v` held to the range of a `u16`.
pub open spec fn clamp_u16(v: int) -> u16 {
    if v < 0 {
        0
    } else if v > u16::MAX {
        u16::MAX
    } else {
        v as u16
    }
}

/// The cell one step from `p` along `d`, where a coordinate that would leave
/// the range of a `u16` stays where it is.
pub open spec fn step_spec(p: Position, d: Direction) -> Position {
    Position { x: clamp_u16(p.x + d.dx()), y: clamp_u16(p.y + d.dy()) }
}

/// Whether `p` lies strictly inside a `width` by `height` board, off its border ring.
pub open spec fn interior(p: Position, width: int, height: int) -> bool {
    1 <= p.x <= width - 2 && 1 <= p.y <= height - 2
}

/// Whether `p` lies on the border ring of a `width` by `height` board.
pub open spec fn on_border(p: Position, width: int, height: int) -> bool {
    p.x == 0 || p.x == width - 1 || p.y == 0 || p.y == height - 1
}

impl Position {
    /// The neighbouring cell along `d`; at the edge of the coordinate range the
    /// coordinate is clamped rather than wrapped.
    pub fn step(self, d: Direction) -> (r: Position)
        ensures
            r == step_spec(self, d),
    {
        match d {
            Direction::Up => Position { x: self.x, y: self.y.saturating_sub(1) },
            Direction::Down => Position { x: self.x, y: self.y.saturating_add(1) },
            Direction::Left => Position { x: self.x.saturating_sub(1), y: self.y },
            Direction::Right => Position { x: self.x.saturating_add(1), y: self.y },
        }
    }
}

/// From a cell strictly inside the board, one step moves exactly one cell
/// along the heading, with no clamping.
pub proof fn lemma_step_from_interior(p: Position, d: Direction, width: u16, height: u16)
    requires
        interior(p, width as int, height as int),
    ensures
        step_spec(p, d).x == p.x + d.dx(),
        step_spec(p, d).y == p.y + d.dy(),
{
}

/// Motion against the edge of the coordinate range leaves that coordinate
/// where it is: up from row 0, left from column 0, down from the last row,
/// right from the last column.
pub proof fn lemma_step_clamps(p: Position)
    ensures
        p.y == 0 ==> step_spec(p, Direction::Up) == p,
        p.x == 0 ==> step_spec(p, Direction::Left) == p,
        p.y == u16::MAX ==> step_spec(p, Direction::Down) == p,
        p.x == u16::MAX ==> step_spec(p, Direction::Right) == p,
{
}

/// Headings come in opposite pairs: each heading's opposite is another
/// heading, and the opposite of that is the heading itself.
pub proof fn lemma_reverse_pairs(d: Direction)
    ensures
        d.opposite_spec() != d,
        d.opposite_spec().opposite_spec() == d,
{
}

} // verus!
