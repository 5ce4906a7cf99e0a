//! Screen rectangles and the inner area of a bordered pane.

use vstd::prelude::*;

verus! {

/// A rectangle of terminal cells.
#[derive(Clone, Copy, Debug, PartialEq, Eq, Structural)]
pub struct Area {
    pub x: u16,
    pub y: u16,
    pub width: u16,
    pub height: u16,
}

pub open spec fn min_int(a: int, b: int) -> int {
    if a <= b {
        a
    } else {
        b
    }
}

pub open spec fn max_int(a: int, b: int) -> int {
    if a >= b {
        a
    } else {
        b
    }
}

impl Area {
    /// Both far edges lie within the coordinate range.
    pub open spec fn on_screen(self) -> bool {
        self.x + self.width <= u16::MAX && self.y + self.height <= u16::MAX
    }

    /// Whether both far edges lie within the coordinate range.
    pub fn fits_screen(&self) -> (b: bool)
        ensures
            b == self.on_screen(),
    {
        self.width <= u16::MAX - self.x && self.height <= u16::MAX - self.y
    }
}

/// The area left inside a border of one cell on every side.
pub open spec fn spec_bordered_inner(area: Area) -> Area {
    Area {
        x: min_int(min_int(area.x + 1, u16::MAX as int), min_int(area.x + area.width, u16::MAX as int)) as u16,
        y: min_int(min_int(area.y + 1, u16::MAX as int), min_int(area.y + area.height, u16::MAX as int)) as u16,
        width: max_int(area.width - 2, 0) as u16,
        height: max_int(area.height - 2, 0) as u16,
    }
}

/// Calls `ratatui::widgets::Block::inner` on a block with all four borders and no padding.
/// The contract restates what that method computes for such a block: the origin moves one
/// cell right and down, without leaving the rectangle, and each extent shrinks by two,
/// stopping at zero.
#[verifier::external_body]
pub(crate) fn bordered_inner(area: Area) -> (inner: Area)
    ensures
        inner == spec_bordered_inner(area),
{
    let rect = ratatui::layout::Rect { x: area.x, y: area.y, width: area.width, height: area.height };
    let r = ratatui::widgets::Block::bordered().inner(rect);
    Area { x: r.x, y: r.y, width: r.width, height: r.height }
}

} // verus!
