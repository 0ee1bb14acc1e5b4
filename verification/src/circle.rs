//! Circles.

use vstd::prelude::*;

verus! {

/// A circle, held as the lower-left corner of the square that encloses it,
/// and its radius.
#[derive(Clone, Copy, Debug, PartialEq, Eq, Structural)]
pub struct Circle {
    pub x: i32,
    pub y: i32,
    pub r: i32,
}

impl Circle {
    /// A circle is well formed when its radius is not negative.
    pub open spec fn wf(self) -> bool {
        self.r >= 0
    }

    /// The x coordinate of the centre.
    pub open spec fn centre_x(self) -> int {
        self.x + self.r
    }

    /// The y coordinate of the centre.
    pub open spec fn centre_y(self) -> int {
        self.y + self.r
    }

    /// A circle of the given radius whose enclosing square has its lower-left
    /// corner at the origin. A negative radius is refused.
    pub fn new(r: i32) -> (c: Option<Circle>)
        ensures
            c.is_some() <==> r >= 0,
            c matches Some(circle) ==> circle == (Circle { x: 0, y: 0, r }),
    {
        if r < 0 {
            None
        } else {
            Some(Circle { x: 0, y: 0, r })
        }
    }
}

} // verus!
