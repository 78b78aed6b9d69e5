//! The game: board, snake, food and score, and the decisions of one tick.
use vstd::prelude::*;

use crate::position::{interior, on_border, Direction, Position};
use crate::snake::{advanced, bites, Snake};

verus! {

/// What one tick of the game came to.
#[derive(Clone, Copy, Debug, PartialEq, Eq, Structural)]
pub enum Tick {
    /// The head hit the border ring or the body: the game is over.
    Crashed,
    /// The head reached the food: the snake grew and the score went up.
    Ate,
    /// The snake moved and nothing else happened.
    Moved,
}

/// A key press, as far as the game tells keys apart.
#[derive(Clone, Copy, Debug, PartialEq, Eq, Structural)]
pub enum Key {
    Up,
    Down,
    Left,
    Right,
    Esc,
    Other,
}

/// What a cell of the board shows.
#[derive(Clone, Copy, Debug, PartialEq, Eq, Structural)]
pub enum Cell {
    Body,
    Food,
    Wall,
    Empty,
}

/// The heading an arrow key asks for; no heading for the other keys.
pub open spec fn key_direction(k: Key) -> Option<Direction> {
    match k {
        Key::Up => Some(Direction::Up),
        Key::Down => Some(Direction::Down),
        Key::Left => Some(Direction::Left),
        Key::Right => Some(Direction::Right),
        _ => None,
    }
}

/// `s` plus one, staying at `u16::MAX` once there.
pub open spec fn score_after(s: u16) -> u16 {
    if s < u16::MAX {
        (s + 1) as u16
    } else {
        s
    }
}

/// The food cell chosen by two drawn numbers `rx`, `ry` on a `width` by
/// `height` board: each is folded into the interior range of its axis.
pub open spec fn food_from(rx: u16, ry: u16, width: u16, height: u16) -> Position {
    Position {
        x: (rx as int % (width - 2) + 1) as u16,
        y: (ry as int % (height - 2) + 1) as u16,
    }
}

/// Relies on rand::random::<u16>: one draw from the thread-local generator.
/// Nothing is promised of the value.
#[verifier::external_body]
fn random_u16() -> (r: u16) {
    rand::random::<u16>()
}

/// A running game on a `width` by `height` board whose outer ring is wall.
pub struct Game {
    pub snake: Snake,
    pub width: u16,
    pub height: u16,
    pub food: Position,
    pub score: u16,
}

impl Game {
    /// The snake has a head and the food lies strictly inside the board.
    pub open spec fn wf(&self) -> bool {
        self.snake.wf() && interior(self.food, self.width as int, self.height as int)
    }

    /// Whether the head lies on the border ring or on another segment.
    pub open spec fn collides_spec(&self) -> bool {
        on_border(self.snake.head_spec(), self.width as int, self.height as int)
            || bites(self.snake.segments())
    }

    /// What the cell `p` shows: body first, then food, then wall, else empty.
    pub open spec fn cell_spec(&self, p: Position) -> Cell {
        if self.snake.segments().contains(p) {
            Cell::Body
        } else if p == self.food {
            Cell::Food
        } else if on_border(p, self.width as int, self.height as int) {
            Cell::Wall
        } else {
            Cell::Empty
        }
    }

    /// A new game: a one-segment snake in the middle heading right, the food
    /// at a quarter of each side, score zero.
    pub fn new(width: u16, height: u16) -> (r: Game)
        requires
            width >= 4,
            height >= 4,
        ensures
            r.wf(),
            r.width == width,
            r.height == height,
            r.snake.segments() == seq![Position { x: width / 2, y: height / 2 }],
            r.snake.heading() == Direction::Right,
            r.food == (Position { x: width / 4, y: height / 4 }),
            r.score == 0,
    {
        Game {
            snake: Snake::new(width / 2, height / 2),
            width,
            height,
            food: Position { x: width / 4, y: height / 4 },
            score: 0,
        }
    }

    /// Whether the game is over: the head is on the border ring or on the body.
    pub fn check_collision(&self) -> (r: bool)
        requires
            self.wf(),
        ensures
            r == self.collides_spec(),
    {
        let head = self.snake.head();
        if head.x == 0 || head.x == self.width - 1 || head.y == 0 || head.y == self.height - 1 {
            return true;
        }
        self.snake.bites_itself()
    }

    /// Moves the food to the cell that the drawn numbers `rx`, `ry` choose.
    pub fn relocate_food(&mut self, rx: u16, ry: u16)
        requires
            old(self).wf(),
        ensures
            final(self).wf(),
            final(self).food == food_from(rx, ry, old(self).width, old(self).height),
            final(self).snake == old(self).snake,
            final(self).width == old(self).width,
            final(self).height == old(self).height,
            final(self).score == old(self).score,
    {
        let x = rx % (self.width - 2) + 1;
        let y = ry % (self.height - 2) + 1;
        self.food = Position { x, y };
    }

    /// Eats the food: the snake grows by one, the food moves to the cell that
    /// `rx`, `ry` choose, and the score goes up by one (saturating).
    pub fn eat(&mut self, rx: u16, ry: u16)
        requires
            old(self).wf(),
        ensures
            final(self).wf(),
            final(self).snake.segments() == old(self).snake.segments().push(
                old(self).snake.tail_spec(),
            ),
            final(self).snake.heading() == old(self).snake.heading(),
            final(self).food == food_from(rx, ry, old(self).width, old(self).height),
            final(self).score == score_after(old(self).score),
            final(self).width == old(self).width,
            final(self).height == old(self).height,
    {
        self.snake.grow();
        self.relocate_food(rx, ry);
        self.score = self.score.saturating_add(1);
    }

    /// If the head is on the food, eats it: the snake grows by one, the score
    /// goes up by one (saturating) and the food moves to a cell drawn at random
    /// inside the board. Returns whether the food was eaten; otherwise nothing
    /// changes.
    pub fn check_food(&mut self) -> (r: bool)
        requires
            old(self).wf(),
        ensures
            final(self).wf(),
            r == (old(self).snake.head_spec() == old(self).food),
            final(self).width == old(self).width,
            final(self).height == old(self).height,
            final(self).snake.heading() == old(self).snake.heading(),
            r ==> final(self).snake.segments() == old(self).snake.segments().push(
                old(self).snake.tail_spec(),
            ),
            r ==> final(self).score == score_after(old(self).score),
            !r ==> *final(self) == *old(self),
    {
        let head = self.snake.head();
        if head == self.food {
            let rx = random_u16();
            let ry = random_u16();
            self.eat(rx, ry);
            true
        } else {
            false
        }
    }

    /// One tick: the snake moves a cell along its heading; if the head then
    /// hits the border ring or the body the game is over; otherwise, if it
    /// reached the food, the food is eaten.
    pub fn tick(&mut self) -> (r: Tick)
        requires
            old(self).wf(),
        ensures
            final(self).wf(),
            final(self).width == old(self).width,
            final(self).height == old(self).height,
            final(self).snake.heading() == old(self).snake.heading(),
            ({
                let moved = advanced(old(self).snake.segments(), old(self).snake.heading());
                let crashed = on_border(moved[0], old(self).width as int, old(self).height as int)
                    || bites(moved);
                &&& (r == Tick::Crashed) == crashed
                &&& (r == Tick::Ate) == (!crashed && moved[0] == old(self).food)
                &&& r == Tick::Ate ==> final(self).snake.segments() == moved.push(moved.last())
                    && final(self).score == score_after(old(self).score)
                &&& r != Tick::Ate ==> final(self).snake.segments() == moved
                    && final(self).food == old(self).food
                    && final(self).score == old(self).score
            }),
    {
        self.snake.move_snake();
        if self.check_collision() {
            Tick::Crashed
        } else if self.check_food() {
            Tick::Ate
        } else {
            Tick::Moved
        }
    }

    /// Turns the snake to `d` unless `d` points straight back along its
    /// current heading; returns whether the turn was taken.
    pub fn steer(&mut self, d: Direction) -> (r: bool)
        requires
            old(self).wf(),
        ensures
            final(self).wf(),
            r == (d != old(self).snake.heading().opposite_spec()),
            final(self).snake.heading() == (if r { d } else { old(self).snake.heading() }),
            final(self).snake.segments() == old(self).snake.segments(),
            final(self).width == old(self).width,
            final(self).height == old(self).height,
            final(self).food == old(self).food,
            final(self).score == old(self).score,
    {
        if d != self.snake.direction().opposite() {
            self.snake.set_direction(d);
            true
        } else {
            false
        }
    }

    /// Handles a key press. An arrow turns the snake unless it points straight
    /// back; Esc asks to quit. Returns whether the game goes on.
    pub fn on_key(&mut self, key: Key) -> (r: bool)
        requires
            old(self).wf(),
        ensures
            final(self).wf(),
            r == (key != Key::Esc),
            final(self).snake.segments() == old(self).snake.segments(),
            final(self).snake.heading() == (match key_direction(key) {
                Some(d) => if d != old(self).snake.heading().opposite_spec() {
                    d
                } else {
                    old(self).snake.heading()
                },
                None => old(self).snake.heading(),
            }),
            final(self).width == old(self).width,
            final(self).height == old(self).height,
            final(self).food == old(self).food,
            final(self).score == old(self).score,
    {
        match key {
            Key::Esc => false,
            Key::Up => {
                self.steer(Direction::Up);
                true
            },
            Key::Down => {
                self.steer(Direction::Down);
                true
            },
            Key::Left => {
                self.steer(Direction::Left);
                true
            },
            Key::Right => {
                self.steer(Direction::Right);
                true
            },
            Key::Other => true,
        }
    }

    /// What the cell at column `x`, row `y` shows.
    pub fn cell_at(&self, x: u16, y: u16) -> (r: Cell)
        ensures
            r == self.cell_spec(Position { x, y }),
    {
        let p = Position { x, y };
        if self.snake.occupies(p) {
            Cell::Body
        } else if p == self.food {
            Cell::Food
        } else if x == 0 || x as u32 + 1 == self.width as u32 || y == 0 || y as u32 + 1
            == self.height as u32 {
            Cell::Wall
        } else {
            Cell::Empty
        }
    }

    /// The whole board, row by row from the top, each row from the left.
    pub fn frame(&self) -> (r: Vec<Vec<Cell>>)
        ensures
            r@.len() == self.height,
            forall|y: int| 0 <= y < self.height ==> #[trigger] r@[y]@.len() == self.width,
            forall|y: int, x: int|
                0 <= y < self.height && 0 <= x < self.width ==> #[trigger] r@[y]@[x]
                    == self.cell_spec(Position { x: x as u16, y: y as u16 }),
    {
        let mut rows: Vec<Vec<Cell>> = Vec::new();
        let mut y: u16 = 0;
        while y < self.height
            invariant
                y <= self.height,
                rows@.len() == y,
                forall|j: int| 0 <= j < y ==> #[trigger] rows@[j]@.len() == self.width,
                forall|j: int, i: int|
                    0 <= j < y && 0 <= i < self.width ==> #[trigger] rows@[j]@[i]
                        == self.cell_spec(Position { x: i as u16, y: j as u16 }),
            decreases self.height - y,
        {
            let mut row: Vec<Cell> = Vec::new();
            let mut x: u16 = 0;
            while x < self.width
                invariant
                    x <= self.width,
                    y < self.height,
                    row@.len() == x,
                    forall|i: int| 0 <= i < x ==> #[trigger] row@[i]
                        == self.cell_spec(Position { x: i as u16, y }),
                decreases self.width - x,
            {
                row.push(self.cell_at(x, y));
                x = x + 1;
            }
            rows.push(row);
            y = y + 1;
        }
        rows
    }

    /// The score as shown when the game ends: a hundred points per food eaten.
    pub fn display_score(&self) -> (r: u32)
        ensures
            r == self.score * 100,
    {
        self.score as u32 * 100
    }
}

/// The game is over exactly when the head lies on the border ring, or on a
/// segment at index one or more; otherwise it goes on.
pub proof fn lemma_collision_cases(g: Game)
    requires
        g.wf(),
    ensures
        on_border(g.snake.head_spec(), g.width as int, g.height as int) ==> g.collides_spec(),
        (exists|i: int|
            1 <= i < g.snake.segments().len() && #[trigger] g.snake.segments()[i]
                == g.snake.head_spec()) ==> g.collides_spec(),
        !on_border(g.snake.head_spec(), g.width as int, g.height as int) && (forall|i: int|
            1 <= i < g.snake.segments().len() ==> #[trigger] g.snake.segments()[i]
                != g.snake.head_spec()) ==> !g.collides_spec(),
{
}

/// Eating, whatever numbers were drawn: the score goes up by exactly one
/// (below the largest score), the snake by exactly one segment with its head
/// kept, and the new food lies in columns 1 to width - 2 and rows 1 to
/// height - 2.
pub proof fn lemma_eating(g: Game, rx: u16, ry: u16)
    requires
        g.wf(),
        g.score < u16::MAX,
    ensures
        score_after(g.score) == g.score + 1,
        g.snake.segments().push(g.snake.tail_spec()).len() == g.snake.segments().len() + 1,
        g.snake.segments().push(g.snake.tail_spec())[0] == g.snake.head_spec(),
        interior(food_from(rx, ry, g.width, g.height), g.width as int, g.height as int),
{
}

} // verus!
