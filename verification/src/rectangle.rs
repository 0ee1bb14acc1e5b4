//! Axis-aligned rectangles.

use vstd::prelude::*;

verus! {

/// An axis-aligned rectangle: the position of its lower-left corner and its
/// extent to the right and upwards.
#[derive(Clone, Copy, Debug, PartialEq, Eq, Structural)]
pub struct Rectangle {
    pub x: i32,
    pub y: i32,
    pub width: i32,
    pub height: i32,
}

/// The smaller of two integers.
pub open spec fn min_int(a: int, b: int) -> int {
    if a <= b {
        a
    } else {
        b
    }
}

/// The larger of two integers.
pub open spec fn max_int(a: int, b: int) -> int {
    if a >= b {
        a
    } else {
        b
    }
}

impl Rectangle {
    /// A rectangle is well formed when neither extent is negative.
    pub open spec fn wf(self) -> bool {
        self.width >= 0 && self.height >= 0
    }

    /// The x coordinate of the right edge.
    pub open spec fn right(self) -> int {
        self.x + self.width
    }

    /// The y coordinate of the upper edge.
    pub open spec fn upper(self) -> int {
        self.y + self.height
    }

    /// Whether the point `(px, py)` lies in the rectangle, edges included.
    pub open spec fn contains(self, px: int, py: int) -> bool {
        self.x <= px <= self.right() && self.y <= py <= self.upper()
    }

    /// Whether the point `(px / q, py / q)`, whose coordinates are
    /// fractions with the denominator `q`, lies in the rectangle, edges
    /// included.
    pub open spec fn contains_fraction(self, px: int, py: int, q: int) -> bool {
        &&& q > 0
        &&& self.x * q <= px <= self.right() * q
        &&& self.y * q <= py <= self.upper() * q
    }

    /// The coordinate `cx` pulled into the horizontal span of the rectangle.
    pub open spec fn closest_x(self, cx: int) -> int {
        max_int(self.x as int, min_int(cx, self.right()))
    }

    /// The coordinate `cy` pulled into the vertical span of the rectangle.
    pub open spec fn closest_y(self, cy: int) -> int {
        max_int(self.y as int, min_int(cy, self.upper()))
    }

    /// A rectangle of the given extent with its lower-left corner at the
    /// origin. A negative extent is refused.
    pub fn new(width: i32, height: i32) -> (r: Option<Rectangle>)
        ensures
            r.is_some() <==> (width >= 0 && height >= 0),
            r matches Some(rect) ==> rect == (Rectangle { x: 0, y: 0, width, height }),
    {
        if width < 0 || height < 0 {
            None
        } else {
            Some(Rectangle { x: 0, y: 0, width, height })
        }
    }
}

} // verus!
