//! The snake: an ordered body of cells and a heading.

use crate::grid::{Direction, Position};
use std::collections::VecDeque;
use vstd::prelude::*;

verus! {

/// The mathematical content of a [`Snake`]: its segments from head to tail
/// and the direction it is heading in.
pub struct SnakeView {
    pub body: Seq<Position>,
    pub direction: Direction,
}

impl SnakeView {
    /// A snake always has a head.
    pub open spec fn well_formed(self) -> bool {
        self.body.len() >= 1
    }

    /// The first segment.
    pub open spec fn head(self) -> Position {
        self.body[0]
    }

    /// The last segment.
    pub open spec fn tail(self) -> Position {
        self.body[self.body.len() - 1]
    }

    /// The head shares its cell with some other segment.
    pub open spec fn collides(self) -> bool {
        exists|i: int| 1 <= i < self.body.len() && #[trigger] self.body[i] == self.body[0]
    }

    /// The direction after asking to turn towards `d`: a reversal is ignored.
    pub open spec fn turned(self, d: Direction) -> SnakeView {
        SnakeView {
            body: self.body,
            direction: if d == self.direction.opposite() { self.direction } else { d },
        }
    }

    /// The snake after its head moved to `new_head` and its last segment
    /// was given up.
    pub open spec fn advanced(self, new_head: Position) -> SnakeView {
        SnakeView { body: seq![new_head] + self.body.drop_last(), direction: self.direction }
    }

    /// The snake with `segment` appended behind its tail.
    pub open spec fn grown(self, segment: Position) -> SnakeView {
        SnakeView { body: self.body.push(segment), direction: self.direction }
    }

    /// Every segment is adjacent to the one before it.
    pub open spec fn contiguous(self) -> bool {
        forall|i: int| 0 <= i < self.body.len() - 1 ==> (#[trigger] self.body[i]).adjacent(self.body[i + 1])
    }
}

impl SnakeView {
    /// A turn towards any direction but the reverse of the current one takes
    /// effect; a turn towards the reverse changes nothing. The body is never
    /// touched.
    pub proof fn lemma_turn(self, d: Direction)
        ensures
            d != self.direction.opposite() ==> self.turned(d).direction == d,
            d == self.direction.opposite() ==> self.turned(d) == self,
            self.turned(d).body == self.body,
    {
    }

    /// Moving keeps the length: the new head goes in front, every segment
    /// takes the place of the one before it, and the old tail is given up.
    pub proof fn lemma_advance(self, new_head: Position)
        requires
            self.well_formed(),
        ensures
            self.advanced(new_head).body.len() == self.body.len(),
            self.advanced(new_head).head() == new_head,
            forall|i: int|
                1 <= i < self.body.len() ==> #[trigger] self.advanced(new_head).body[i] == self.body[i - 1],
            self.advanced(new_head).direction == self.direction,
            self.advanced(new_head).grown(self.tail()).body == seq![new_head] + self.body,
    {
    }

    /// A snake whose segments are adjacent stays so when its head moves to a
    /// cell next to it, and also when the segment it gave up is put back.
    pub proof fn lemma_advance_keeps_contiguity(self, new_head: Position)
        requires
            self.well_formed(),
            self.contiguous(),
            new_head.adjacent(self.head()),
        ensures
            self.advanced(new_head).contiguous(),
            self.advanced(new_head).grown(self.tail()).contiguous(),
    {
        let moved = self.advanced(new_head);
        assert forall|i: int| 0 <= i < moved.body.len() - 1 implies (#[trigger] moved.body[i]).adjacent(
            moved.body[i + 1],
        ) by {
            if i > 0 {
                assert(self.body[i - 1].adjacent(self.body[i]));
            }
        }
        let regrown = moved.grown(self.tail());
        assert(regrown.body =~= seq![new_head] + self.body);
    }
}

/// A snake: its segments from head to tail, never none, and the direction
/// it is heading in.
pub struct Snake {
    body: VecDeque<Position>,
    direction: Direction,
}

impl View for Snake {
    type V = SnakeView;

    closed spec fn view(&self) -> SnakeView {
        SnakeView { body: self.body@, direction: self.direction }
    }
}

impl Snake {
    /// A snake of one segment at `start_pos`, heading right.
    pub fn new(start_pos: Position) -> (snake: Self)
        ensures
            snake@ == (SnakeView { body: seq![start_pos], direction: Direction::Right }),
            snake@.well_formed(),
    {
        let mut body = VecDeque::new();
        body.push_back(start_pos);
        let snake = Self { body, direction: Direction::Right };
        snake
    }

    /// The cell of the head.
    pub fn head(&self) -> (p: Position)
        requires
            self@.well_formed(),
        ensures
            p == self@.head(),
    {
        self.body[0]
    }

    /// The segments from head to tail.
    pub fn body(&self) -> (segments: &VecDeque<Position>)
        ensures
            segments@ == self@.body,
    {
        &self.body
    }

    /// The direction the snake is heading in.
    pub fn direction(&self) -> (d: Direction)
        ensures
            d == self@.direction,
    {
        self.direction
    }

    /// Turns the snake towards `direction`, unless that is the reverse of the
    /// direction it is heading in: a snake cannot turn back into itself.
    pub fn set_direction(&mut self, direction: Direction)
        ensures
            final(self)@ == old(self)@.turned(direction),
    {
        if direction != self.direction.opposite() {
            self.direction = direction;
        }
    }

    /// Moves the head one unit in the direction of the snake, stopping at
    /// coordinate 0, lets every segment follow, and returns the cell that the
    /// tail gave up. The board is not consulted: whether the head has left it
    /// is for the caller to decide.
    pub fn move_forward(&mut self) -> (old_tail: Position)
        requires
            old(self)@.well_formed(),
            old(self)@.direction == Direction::Down ==> old(self)@.head().y < u16::MAX,
            old(self)@.direction == Direction::Right ==> old(self)@.head().x < u16::MAX,
        ensures
            final(self)@ == old(self)@.advanced(old(self)@.head().clamped_step(old(self)@.direction)),
            old_tail == old(self)@.tail(),
            final(self)@.well_formed(),
    {
        let head = self.head();
        let new_head = match self.direction {
            Direction::Up => Position::new(head.x, head.y.saturating_sub(1)),
            Direction::Down => Position::new(head.x, head.y + 1),
            Direction::Left => Position::new(head.x.saturating_sub(1), head.y),
            Direction::Right => Position::new(head.x + 1, head.y),
        };
        self.shift_to(new_head)
    }

    /// Moves like [`Snake::move_forward`], but on a board without walls: a
    /// head that steps over an edge comes back in at the opposite one.
    pub fn move_forward_with_wrapping(&mut self, board_width: u16, board_height: u16) -> (old_tail: Position)
        requires
            old(self)@.well_formed(),
            board_width >= 1,
            board_height >= 1,
        ensures
            final(self)@ == old(self)@.advanced(
                old(self)@.head().wrapped_step(old(self)@.direction, board_width, board_height),
            ),
            old_tail == old(self)@.tail(),
            final(self)@.well_formed(),
    {
        let head = self.head();
        let new_head = match self.direction {
            Direction::Up => {
                if head.y == 0 {
                    Position::new(head.x, board_height - 1)
                } else {
                    Position::new(head.x, head.y - 1)
                }
            },
            Direction::Down => {
                if head.y >= board_height - 1 {
                    Position::new(head.x, 0)
                } else {
                    Position::new(head.x, head.y + 1)
                }
            },
            Direction::Left => {
                if head.x == 0 {
                    Position::new(board_width - 1, head.y)
                } else {
                    Position::new(head.x - 1, head.y)
                }
            },
            Direction::Right => {
                if head.x >= board_width - 1 {
                    Position::new(0, head.y)
                } else {
                    Position::new(head.x + 1, head.y)
                }
            },
        };
        self.shift_to(new_head)
    }

    /// Puts `new_head` in front and gives up the last segment.
    fn shift_to(&mut self, new_head: Position) -> (old_tail: Position)
        requires
            old(self)@.well_formed(),
        ensures
            final(self)@ == old(self)@.advanced(new_head),
            old_tail == old(self)@.tail(),
            final(self)@.well_formed(),
    {
        self.body.push_front(new_head);
        let popped = self.body.pop_back();
        assert(self@.body =~= old(self)@.advanced(new_head).body);
        match popped {
            Some(old_tail) => old_tail,
            None => new_head,
        }
    }

    /// Appends `old_tail` behind the tail. After a move this gives the snake
    /// back the cell it gave up, so that it is longer by one segment.
    pub fn grow(&mut self, old_tail: Position)
        ensures
            final(self)@ == old(self)@.grown(old_tail),
    {
        self.body.push_back(old_tail);
    }

    /// Whether the head lies on another segment of the snake.
    pub fn check_self_collision(&self) -> (hit: bool)
        requires
            self@.well_formed(),
        ensures
            hit == self@.collides(),
    {
        let head = self.head();
        let n: usize = self.body.len();
        let mut i: usize = 1;
        while i < n
            invariant
                1 <= i <= n,
                n == self.body@.len(),
                head == self.body@[0],
                forall|j: int| 1 <= j < i ==> self.body@[j] != head,
            decreases n - i,
        {
            if self.body[i] == head {
                assert(self@.body[i as int] == self@.body[0]);
                return true;
            }
            i += 1;
        }
        false
    }

    /// Whether some segment lies on `pos`.
    pub fn occupies(&self, pos: Position) -> (found: bool)
        ensures
            found == self@.body.contains(pos),
    {
        let n: usize = self.body.len();
        let mut i: usize = 0;
        while i < n
            invariant
                i <= n,
                n == self.body@.len(),
                forall|j: int| 0 <= j < i ==> self.body@[j] != pos,
            decreases n - i,
        {
            if self.body[i] == pos {
                return true;
            }
            i += 1;
        }
        false
    }

    /// The number of segments.
    pub fn len(&self) -> (n: usize)
        ensures
            n == self@.body.len(),
    {
        self.body.len()
    }

    /// Whether the snake has no segment, which no snake built here has.
    pub fn is_empty(&self) -> (empty: bool)
        ensures
            empty == (self@.body.len() == 0),
    {
        self.body.len() == 0
    }
}

} // verus!
