//! Rectangles of terminal cells, and the boundary to the `ratatui` crate,
//! which computes how a frame is divided.

use ratatui::layout as tui;
use ratatui::widgets::{Block, Borders};
use vstd::prelude::*;

verus! {

/// A rectangle of terminal cells: its top-left corner and its size.
#[derive(Debug, Clone, Copy, PartialEq, Eq, Structural)]
pub struct Rect {
    pub x: u16,
    pub y: u16,
    pub width: u16,
    pub height: u16,
}

/// The direction along which an area is divided.
#[derive(Debug, Clone, Copy, PartialEq, Eq, Structural)]
pub enum Axis {
    /// Side by side, left to right.
    Horizontal,
    /// One below the other.
    Vertical,
}

/// What one part of a divided area asks for along the axis.
#[derive(Debug, Clone, Copy, PartialEq, Eq, Structural)]
pub enum Constraint {
    /// At least this many cells.
    Min(u16),
    /// This many cells.
    Length(u16),
    /// This share of the whole, in percent.
    Percentage(u16),
}

impl Rect {
    /// The right and the bottom edge are coordinates too.
    pub open spec fn valid(self) -> bool {
        self.x + self.width <= u16::MAX && self.y + self.height <= u16::MAX
    }

    /// The rectangle at `(x, y)` of the size asked for, cut down so far
    /// that its right and bottom edges stay coordinates.
    pub open spec fn bounded(x: u16, y: u16, width: u16, height: u16) -> Rect {
        Rect {
            x,
            y,
            width: if x + width > u16::MAX { (u16::MAX - x) as u16 } else { width },
            height: if y + height > u16::MAX { (u16::MAX - y) as u16 } else { height },
        }
    }

    /// What a border of one cell on every side leaves of the rectangle.
    pub open spec fn spec_inside_border(self) -> Rect {
        let right = if self.x + self.width > u16::MAX { u16::MAX as int } else { self.x + self.width };
        let bottom = if self.y + self.height > u16::MAX { u16::MAX as int } else { self.y + self.height };
        Rect {
            x: (if self.x + 1 < right { self.x + 1 } else { right }) as u16,
            y: (if self.y + 1 < bottom { self.y + 1 } else { bottom }) as u16,
            width: if self.width >= 2 { (self.width - 2) as u16 } else { 0u16 },
            height: if self.height >= 2 { (self.height - 2) as u16 } else { 0u16 },
        }
    }

    /// The rectangle at `(x, y)` of the given size, cut down where it would
    /// reach beyond the largest coordinate.
    pub fn new(x: u16, y: u16, width: u16, height: u16) -> (rect: Rect)
        ensures
            rect == Rect::bounded(x, y, width, height),
            rect.valid(),
    {
        bounded_rect(x, y, width, height)
    }

    /// The area inside a border drawn along the edges of the rectangle.
    #[verifier::when_used_as_spec(spec_inside_border)]
    pub fn inside_border(self) -> (inner: Rect)
        ensures
            inner == self.spec_inside_border(),
    {
        bordered_inner(self)
    }

    /// A valid rectangle keeps its border and what the border encloses
    /// within its own edges.
    pub proof fn lemma_inside_border(self)
        requires
            self.valid(),
        ensures
            self.inside_border().valid(),
            self.x <= self.inside_border().x,
            self.y <= self.inside_border().y,
            self.inside_border().x + self.inside_border().width <= self.x + self.width,
            self.inside_border().y + self.inside_border().height <= self.y + self.height,
            self.width >= 2 ==> self.inside_border().x == self.x + 1 && self.inside_border().width
                == self.width - 2,
            self.height >= 2 ==> self.inside_border().y == self.y + 1 && self.inside_border().height
                == self.height - 2,
    {
    }
}

/// Calls `ratatui::layout::Rect::new`, which keeps the corner and cuts the
/// width and the height down so far that `x + width` and `y + height` do not
/// exceed the largest coordinate.
#[verifier::external_body]
fn bounded_rect(x: u16, y: u16, width: u16, height: u16) -> (rect: Rect)
    ensures
        rect == Rect::bounded(x, y, width, height),
{
    let r = tui::Rect::new(x, y, width, height);
    Rect { x: r.x, y: r.y, width: r.width, height: r.height }
}

/// Calls `Block::inner` of `ratatui` on a block with all four borders and no
/// padding. The corner moves one cell right and down, but not beyond the
/// right and bottom edge; the width and the height shrink by two cells, but
/// not below zero. Sums that would exceed the largest coordinate stop there.
#[verifier::external_body]
fn bordered_inner(area: Rect) -> (inner: Rect)
    ensures
        inner == area.spec_inside_border(),
{
    let outer = tui::Rect { x: area.x, y: area.y, width: area.width, height: area.height };
    let r = Block::default().borders(Borders::ALL).inner(outer);
    Rect { x: r.x, y: r.y, width: r.width, height: r.height }
}

/// Calls `Layout::split` of `ratatui` on a layout along `axis` with the
/// given constraints and nothing else set. It returns one rectangle for each
/// constraint, in their order. Across the axis each has the position and the
/// size of `area`. Where along the axis the parts lie is decided by a
/// constraint solver and left open here.
#[verifier::external_body]
pub(crate) fn split(axis: Axis, constraints: &Vec<Constraint>, area: Rect) -> (parts: Vec<Rect>)
    ensures
        parts@.len() == constraints@.len(),
        forall|i: int|
            0 <= i < parts@.len() ==> match axis {
                Axis::Horizontal => (#[trigger] parts@[i]).y == area.y && parts@[i].height == area.height,
                Axis::Vertical => parts@[i].x == area.x && parts@[i].width == area.width,
            },
{
    let direction = match axis {
        Axis::Horizontal => tui::Direction::Horizontal,
        Axis::Vertical => tui::Direction::Vertical,
    };
    let wanted = constraints.iter().map(|c| match c {
        Constraint::Min(n) => tui::Constraint::Min(*n),
        Constraint::Length(n) => tui::Constraint::Length(*n),
        Constraint::Percentage(n) => tui::Constraint::Percentage(*n),
    });
    let outer = tui::Rect { x: area.x, y: area.y, width: area.width, height: area.height };
    let layout = tui::Layout::default().direction(direction).constraints(wanted);
    layout.split(outer).iter().map(|r| Rect { x: r.x, y: r.y, width: r.width, height: r.height }).collect()
}

} // verus!
