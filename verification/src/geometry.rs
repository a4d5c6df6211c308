//! Rectangles and terminal bounds.

use vstd::prelude::*;

verus! {

/// A rectangular region of the terminal screen, in character cells.
#[derive(Clone, Copy, PartialEq, Eq, Structural, Debug)]
pub struct Rect {
    pub x: u16,
    pub y: u16,
    pub width: u16,
    pub height: u16,
}

impl Rect {
    /// The rectangle's far edges stay within the `u16` cell coordinate space,
    /// so coordinate arithmetic on it cannot overflow.
    pub open spec fn wf(self) -> bool {
        self.x + self.width <= u16::MAX && self.y + self.height <= u16::MAX
    }

    /// The cell at mathematical coordinates `(px, py)` lies inside the rectangle.
    pub open spec fn covers(self, px: int, py: int) -> bool {
        &&& self.x <= px < self.x + self.width
        &&& self.y <= py < self.y + self.height
    }

    /// Every cell of `self` is also a cell of `outer`.
    pub open spec fn within(self, outer: Rect) -> bool {
        &&& outer.x <= self.x
        &&& self.x + self.width <= outer.x + outer.width
        &&& outer.y <= self.y
        &&& self.y + self.height <= outer.y + outer.height
    }
}

/// The terminal's current drawable area, recomputed on resize.
#[derive(Clone, Copy, PartialEq, Eq, Structural, Debug)]
pub struct Bounds {
    pub width: u16,
    pub height: u16,
}

impl Bounds {
    /// The full-screen rectangle for these bounds, anchored at the origin.
    pub fn to_rect(self) -> (r: Rect)
        ensures
            r == (Rect { x: 0, y: 0, width: self.width, height: self.height }),
            r.wf(),
    {
        Rect { x: 0, y: 0, width: self.width, height: self.height }
    }
}

} // verus!
