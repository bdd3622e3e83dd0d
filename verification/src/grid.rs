//! The grid: cells, directions and the two ways to take a step.

use vstd::prelude::*;

verus! {

/// A cell of the grid, addressed from the top-left corner.
#[derive(Debug, Clone, Copy, PartialEq, Eq, Structural)]
pub struct Position {
    pub x: u16,
    pub y: u16,
}

impl Position {
    /// The cell in column `x` of row `y`.
    pub fn new(x: u16, y: u16) -> (p: Self)
        ensures
            p == (Position { x, y }),
    {
        Self { x, y }
    }

    /// Whether the cell lies on a board of the given size.
    pub open spec fn within(self, width: u16, height: u16) -> bool {
        self.x < width && self.y < height
    }

    /// Whether two cells differ by exactly one unit along exactly one axis.
    pub open spec fn adjacent(self, other: Position) -> bool {
        ||| (self.y == other.y && (self.x - other.x == 1 || other.x - self.x == 1))
        ||| (self.x == other.x && (self.y - other.y == 1 || other.y - self.y == 1))
    }

    /// Whether two cells are neighbours on a board of `width` by `height`
    /// cells without walls: adjacent, or at the two ends of one row or column.
    pub open spec fn adjacent_on_torus(self, other: Position, width: u16, height: u16) -> bool {
        ||| self.adjacent(other)
        ||| self.y == other.y && self.x == 0 && other.x == width - 1
        ||| self.y == other.y && other.x == 0 && self.x == width - 1
        ||| self.x == other.x && self.y == 0 && other.y == height - 1
        ||| self.x == other.x && other.y == 0 && self.y == height - 1
    }

    /// One unit in direction `d`, stopping at coordinate 0. Stepping right
    /// or down from the largest coordinate has no meaning here.
    pub open spec fn clamped_step(self, d: Direction) -> Position
        recommends
            d == Direction::Down ==> self.y < u16::MAX,
            d == Direction::Right ==> self.x < u16::MAX,
    {
        match d {
            Direction::Up => Position {
                x: self.x,
                y: if self.y == 0 { 0u16 } else { (self.y - 1) as u16 },
            },
            Direction::Down => Position { x: self.x, y: (self.y + 1) as u16 },
            Direction::Left => Position {
                x: if self.x == 0 { 0u16 } else { (self.x - 1) as u16 },
                y: self.y,
            },
            Direction::Right => Position { x: (self.x + 1) as u16, y: self.y },
        }
    }

    /// One unit in direction `d` on a torus of `width` by `height` cells:
    /// leaving through one edge enters at the opposite one.
    pub open spec fn wrapped_step(self, d: Direction, width: u16, height: u16) -> Position
        recommends
            width >= 1,
            height >= 1,
    {
        match d {
            Direction::Up => Position {
                x: self.x,
                y: if self.y == 0 { (height - 1) as u16 } else { (self.y - 1) as u16 },
            },
            Direction::Down => Position {
                x: self.x,
                y: if self.y >= height - 1 { 0u16 } else { (self.y + 1) as u16 },
            },
            Direction::Left => Position {
                x: if self.x == 0 { (width - 1) as u16 } else { (self.x - 1) as u16 },
                y: self.y,
            },
            Direction::Right => Position {
                x: if self.x >= width - 1 { 0u16 } else { (self.x + 1) as u16 },
                y: self.y,
            },
        }
    }
}

impl Position {
    /// A clamped step moves exactly one unit in the direction asked for,
    /// except at coordinate 0, where a step up or left stays in place.
    pub proof fn lemma_clamped_step_moves_one_unit(self, d: Direction)
        requires
            d == Direction::Down ==> self.y < u16::MAX,
            d == Direction::Right ==> self.x < u16::MAX,
        ensures
            d == Direction::Up && self.y > 0 ==> self.clamped_step(d) == (Position {
                x: self.x,
                y: (self.y - 1) as u16,
            }),
            d == Direction::Up && self.y == 0 ==> self.clamped_step(d) == self,
            d == Direction::Down ==> self.clamped_step(d) == (Position {
                x: self.x,
                y: (self.y + 1) as u16,
            }),
            d == Direction::Left && self.x > 0 ==> self.clamped_step(d) == (Position {
                x: (self.x - 1) as u16,
                y: self.y,
            }),
            d == Direction::Left && self.x == 0 ==> self.clamped_step(d) == self,
            d == Direction::Right ==> self.clamped_step(d) == (Position {
                x: (self.x + 1) as u16,
                y: self.y,
            }),
            self.clamped_step(d) == self || self.adjacent(self.clamped_step(d)),
    {
    }

    /// On a board of `width` by `height` cells a wrapped step leaves through
    /// one edge and enters at the opposite one: left from column 0 leads to
    /// the last column, right from the last column to column 0, and likewise
    /// for rows. The other coordinate stays, and a cell of the board leads to
    /// a cell of the board.
    pub proof fn lemma_wrapped_step_wraps(self, width: u16, height: u16)
        requires
            width >= 1,
            height >= 1,
        ensures
            self.x == 0 ==> self.wrapped_step(Direction::Left, width, height) == (Position {
                x: (width - 1) as u16,
                y: self.y,
            }),
            self.x == width - 1 ==> self.wrapped_step(Direction::Right, width, height) == (Position {
                x: 0,
                y: self.y,
            }),
            self.y == 0 ==> self.wrapped_step(Direction::Up, width, height) == (Position {
                x: self.x,
                y: (height - 1) as u16,
            }),
            self.y == height - 1 ==> self.wrapped_step(Direction::Down, width, height) == (Position {
                x: self.x,
                y: 0,
            }),
            forall|d: Direction|
                self.within(width, height) ==> (#[trigger] self.wrapped_step(d, width, height)).within(
                    width,
                    height,
                ),
    {
    }

    /// On a board without walls a step from a cell of the board leads to a
    /// neighbour of that cell, or, where the board is one cell wide or high,
    /// back to the cell itself.
    pub proof fn lemma_wrapped_step_reaches_neighbour(self, d: Direction, width: u16, height: u16)
        requires
            self.within(width, height),
        ensures
            self.wrapped_step(d, width, height) == self || self.adjacent_on_torus(
                self.wrapped_step(d, width, height),
                width,
                height,
            ),
            self.wrapped_step(d, width, height) == self ==> width == 1 || height == 1,
    {
    }

    /// Away from the edges of the board a wrapped step is a clamped step.
    pub proof fn lemma_wrapped_step_inside(self, d: Direction, width: u16, height: u16)
        requires
            0 < self.x < width - 1,
            0 < self.y < height - 1,
        ensures
            self.wrapped_step(d, width, height) == self.clamped_step(d),
            self.adjacent(self.wrapped_step(d, width, height)),
    {
    }
}

/// The four ways a snake can head.
#[derive(Debug, Clone, Copy, PartialEq, Eq, Structural)]
pub enum Direction {
    Up,
    Down,
    Left,
    Right,
}

impl Direction {
    /// The reverse direction.
    pub open spec fn spec_opposite(&self) -> Direction {
        match self {
            Direction::Up => Direction::Down,
            Direction::Down => Direction::Up,
            Direction::Left => Direction::Right,
            Direction::Right => Direction::Left,
        }
    }

    /// The reverse direction.
    #[verifier::when_used_as_spec(spec_opposite)]
    pub fn opposite(&self) -> (d: Direction)
        ensures
            d == self.spec_opposite(),
    {
        match self {
            Direction::Up => Direction::Down,
            Direction::Down => Direction::Up,
            Direction::Left => Direction::Right,
            Direction::Right => Direction::Left,
        }
    }

    /// Reversing twice gives the direction back, and never the direction itself.
    pub proof fn lemma_opposite_involution(d: Direction)
        ensures
            d.opposite().opposite() == d,
            d.opposite() != d,
    {
    }
}

} // verus!
