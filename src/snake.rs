//! The snake: an ordered body, head first, and a heading.
use std::collections::VecDeque;
use vstd::prelude::*;

use crate::position::{interior, step_spec, Direction, Position};

verus! {

/// The body after one step along `d`: a new head in front, the last segment gone.
pub open spec fn advanced(body: Seq<Position>, d: Direction) -> Seq<Position> {
    seq![step_spec(body[0], d)] + body.drop_last()
}

/// Whether the first segment of `body` equals any later one.
pub open spec fn bites(body: Seq<Position>) -> bool {
    exists|i: int| 1 <= i < body.len() && #[trigger] body[i] == body[0]
}

/// A snake on the board. Its body is never empty; the first segment is the head.
pub struct Snake {
    body: VecDeque<Position>,
    direction: Direction,
}

impl Snake {
    /// The body, head first.
    pub closed spec fn segments(&self) -> Seq<Position> {
        self.body@
    }

    /// The heading the snake moves along on its next step.
    pub closed spec fn heading(&self) -> Direction {
        self.direction
    }

    /// A snake always has at least its head.
    pub open spec fn wf(&self) -> bool {
        self.segments().len() >= 1
    }

    /// The first segment of the body.
    pub open spec fn head_spec(&self) -> Position {
        self.segments()[0]
    }

    /// The last segment of the body.
    pub open spec fn tail_spec(&self) -> Position {
        self.segments().last()
    }

    /// Whether the head lies on another segment of the body.
    pub open spec fn bites_itself_spec(&self) -> bool {
        bites(self.segments())
    }

    /// A snake of one segment at (`start_x`, `start_y`), heading right.
    pub fn new(start_x: u16, start_y: u16) -> (r: Snake)
        ensures
            r.wf(),
            r.segments() == seq![Position { x: start_x, y: start_y }],
            r.heading() == Direction::Right,
    {
        let mut body = VecDeque::new();
        body.push_front(Position { x: start_x, y: start_y });
        Snake { body, direction: Direction::Right }
    }

    /// Moves one cell along the heading: a new head is pushed at the front
    /// and the tail is dropped, so the length stays the same.
    pub fn move_snake(&mut self)
        requires
            old(self).wf(),
        ensures
            final(self).wf(),
            final(self).segments() == advanced(old(self).segments(), old(self).heading()),
            final(self).segments().len() == old(self).segments().len(),
            final(self).head_spec() == step_spec(old(self).head_spec(), old(self).heading()),
            final(self).heading() == old(self).heading(),
    {
        let new_head = self.body[0].step(self.direction);
        self.body.push_front(new_head);
        let _ = self.body.pop_back();
        assert(self.body@ =~= seq![new_head] + old(self).body@.drop_last());
    }

    /// Repeats the tail segment at the back, making the body one longer.
    pub fn grow(&mut self)
        requires
            old(self).wf(),
        ensures
            final(self).wf(),
            final(self).segments() == old(self).segments().push(old(self).tail_spec()),
            final(self).segments().len() == old(self).segments().len() + 1,
            final(self).head_spec() == old(self).head_spec(),
            final(self).heading() == old(self).heading(),
    {
        let tail = self.body[self.body.len() - 1];
        self.body.push_back(tail);
    }

    /// The current head.
    pub fn head(&self) -> (r: Position)
        requires
            self.wf(),
        ensures
            r == self.head_spec(),
    {
        self.body[0]
    }

    /// The number of segments.
    pub fn len(&self) -> (r: usize)
        ensures
            r == self.segments().len(),
    {
        self.body.len()
    }

    /// The segment at index `i`, counted from the head.
    pub fn segment(&self, i: usize) -> (r: Position)
        requires
            i < self.segments().len(),
        ensures
            r == self.segments()[i as int],
    {
        self.body[i]
    }

    /// The current heading.
    pub fn direction(&self) -> (r: Direction)
        ensures
            r == self.heading(),
    {
        self.direction
    }

    /// Sets the heading to `d`, whatever it was; the body does not change.
    /// Refusing a turn straight back is left to whoever reads the keys.
    pub fn set_direction(&mut self, d: Direction)
        ensures
            final(self).heading() == d,
            final(self).segments() == old(self).segments(),
    {
        self.direction = d;
    }

    /// Whether the head lies on any segment after it.
    pub fn bites_itself(&self) -> (r: bool)
        requires
            self.wf(),
        ensures
            r == self.bites_itself_spec(),
    {
        let head = self.body[0];
        let n = self.body.len();
        let mut i: usize = 1;
        while i < n
            invariant
                1 <= i <= n,
                n == self.segments().len(),
                head == self.head_spec(),
                forall|j: int| 1 <= j < i ==> self.segments()[j] != head,
            decreases n - i,
        {
            if self.body[i] == head {
                return true;
            }
            i = i + 1;
        }
        false
    }

    /// Whether some segment lies on `p`.
    pub fn occupies(&self, p: Position) -> (r: bool)
        ensures
            r == self.segments().contains(p),
    {
        let n = self.body.len();
        let mut i: usize = 0;
        while i < n
            invariant
                i <= n,
                n == self.segments().len(),
                forall|j: int| 0 <= j < i ==> self.segments()[j] != p,
            decreases n - i,
        {
            if self.body[i] == p {
                return true;
            }
            i = i + 1;
        }
        false
    }
}

/// A snake whose head is strictly inside the board moves its head exactly one
/// cell along its heading, and keeps its length.
pub proof fn lemma_advance_one_cell(s: Snake, width: u16, height: u16)
    requires
        s.wf(),
        interior(s.head_spec(), width as int, height as int),
    ensures
        advanced(s.segments(), s.heading())[0].x == s.head_spec().x + s.heading().dx(),
        advanced(s.segments(), s.heading())[0].y == s.head_spec().y + s.heading().dy(),
        advanced(s.segments(), s.heading()).len() == s.segments().len(),
{
}

} // verus!
