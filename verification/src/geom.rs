//! Model-space points and axis-aligned boxes.

use vstd::prelude::*;
use crate::in_coord_range;

verus! {

/// A point in model space, in fixed-point units.
#[derive(Clone, Copy, PartialEq, Eq, Structural, Debug)]
pub struct Point {
    pub x: i64,
    pub y: i64,
}

impl Point {
    /// Both coordinates within the model's accepted range.
    pub open spec fn wf(self) -> bool {
        in_coord_range(self.x as int) && in_coord_range(self.y as int)
    }

    /// Both coordinates within the tighter range that vertex and cursor
    /// positions keep, leaving room for a handle around the point.
    pub open spec fn pos_wf(self) -> bool {
        crate::in_pos_range(self.x as int) && crate::in_pos_range(self.y as int)
    }
}

/// An origin plus a nonnegative extent; the hit-test handle of a vertex and
/// the bounding shape of a quad are both boxes of this form.
#[derive(Clone, Copy, PartialEq, Eq, Structural, Debug)]
pub struct AxisAlignedBox {
    pub origin: Point,
    pub width: i64,
    pub height: i64,
}

impl AxisAlignedBox {
    /// Origin within coordinate range and a nonnegative extent no wider than
    /// the whole range, so the far sides still fit comfortably in `i64`.
    pub open spec fn wf(self) -> bool {
        &&& self.origin.wf()
        &&& 0 <= self.width <= 2 * crate::MAX_COORD
        &&& 0 <= self.height <= 2 * crate::MAX_COORD
    }

    /// Closed-interval containment on both axes.
    pub open spec fn spec_contains(self, p: Point) -> bool {
        &&& self.origin.x <= p.x <= self.origin.x + self.width
        &&& self.origin.y <= p.y <= self.origin.y + self.height
    }

    /// Whether `p` lies in the box, boundary included.
    pub fn contains(&self, p: Point) -> (r: bool)
        requires
            self.wf(),
        ensures
            r == self.spec_contains(p),
    {
        self.origin.x <= p.x && p.x <= self.origin.x + self.width
            && self.origin.y <= p.y && p.y <= self.origin.y + self.height
    }
}

} // verus!
