//! The collision of a moving circle with rectangles.
//!
//! The test of a circle against one rectangle measures from the circle's
//! centre to the nearest point of the rectangle, which it finds by pulling
//! each coordinate of the centre into the span of the rectangle. The laws
//! at the end of the file show that this point is the nearest, and that a
//! field of rectangles loses exactly those that the circle overlaps.

use vstd::prelude::*;
use crate::rectangle::{max_int, min_int, Rectangle};

verus! {

/// Where a circle meets a rectangle, if it does.
#[derive(Clone, Copy, Debug, PartialEq, Eq, Structural)]
pub enum CollisionLocation {
    /// The circle overlaps the rectangle; the point is the rectangle's point
    /// nearest to the circle's centre.
    Hit(i32, i32),
    /// The circle does not reach the rectangle.
    Miss,
}

/// The sides on which a moving circle is in contact. The names follow the
/// circle's travel, not the rectangle: `right` means that the obstacle's
/// left edge was met, `left` that its right edge was met; `top` means that
/// its lower edge was met, `bottom` that its upper edge was met.
#[derive(Clone, Copy, Debug, PartialEq, Eq, Structural)]
pub struct CollisionDirection {
    pub top: bool,
    pub bottom: bool,
    pub left: bool,
    pub right: bool,
}

/// The squared distance between two points.
pub open spec fn distance_squared(ax: int, ay: int, bx: int, by: int) -> int {
    (ax - bx) * (ax - bx) + (ay - by) * (ay - by)
}

/// Whether a circle of radius `r` centred at `(cx, cy)` overlaps `rect`: the
/// point of the rectangle nearest to the centre is closer than `r`.
pub open spec fn overlaps(cx: int, cy: int, r: int, rect: Rectangle) -> bool {
    distance_squared(rect.closest_x(cx), rect.closest_y(cy), cx, cy) < r * r
}

/// What the collision test finds for a circle of radius `r` centred at
/// `(cx, cy)` and the rectangle `rect`. The nearest point of a rectangle to
/// a centre with `i32` coordinates has `i32` coordinates itself.
pub open spec fn probe(cx: i32, cy: i32, r: i32, rect: Rectangle) -> CollisionLocation {
    if overlaps(cx as int, cy as int, r as int, rect) {
        CollisionLocation::Hit(rect.closest_x(cx as int) as i32, rect.closest_y(cy as int) as i32)
    } else {
        CollisionLocation::Miss
    }
}

/// The sides that a contact at `(px, py)` with `rect` counts for.
pub open spec fn sides_of_contact(px: int, py: int, rect: Rectangle) -> CollisionDirection {
    CollisionDirection {
        top: py <= rect.y,
        bottom: py >= rect.upper(),
        left: px >= rect.right(),
        right: px <= rect.x,
    }
}

/// The sides on which a circle of radius `r` centred at `(cx, cy)` strikes
/// `rect`: those of the contact at the rectangle's nearest point if the
/// circle overlaps it, none if not.
pub open spec fn struck(cx: int, cy: int, r: int, rect: Rectangle) -> CollisionDirection {
    if overlaps(cx, cy, r, rect) {
        sides_of_contact(rect.closest_x(cx), rect.closest_y(cy), rect)
    } else {
        CollisionDirection::none()
    }
}

/// The sides on which the circle strikes any rectangle of `rects`.
pub open spec fn struck_among(cx: int, cy: int, r: int, rects: Seq<Rectangle>)
    -> CollisionDirection {
    CollisionDirection {
        top: exists|i: int| 0 <= i < rects.len() && (#[trigger] struck(cx, cy, r, rects[i])).top,
        bottom: exists|i: int|
            0 <= i < rects.len() && (#[trigger] struck(cx, cy, r, rects[i])).bottom,
        left: exists|i: int| 0 <= i < rects.len() && (#[trigger] struck(cx, cy, r, rects[i])).left,
        right: exists|i: int|
            0 <= i < rects.len() && (#[trigger] struck(cx, cy, r, rects[i])).right,
    }
}

/// The test that keeps a rectangle alive: the circle does not overlap it.
pub open spec fn missed_by(cx: int, cy: int, r: int) -> spec_fn(Rectangle) -> bool {
    |rect: Rectangle| !overlaps(cx, cy, r, rect)
}

impl CollisionLocation {
    /// Tests a circle of radius `r` centred at `(new_x, new_y)` against one
    /// rectangle.
    pub fn check(new_x: i32, new_y: i32, r: i32, rect: &Rectangle) -> (loc: CollisionLocation)
        ensures
            loc == probe(new_x, new_y, r, *rect),
    {
        let right: i64 = rect.x as i64 + rect.width as i64;
        let upper: i64 = rect.y as i64 + rect.height as i64;
        let nx: i64 = new_x as i64;
        let ny: i64 = new_y as i64;
        let low_x: i64 = if nx <= right { nx } else { right };
        let low_y: i64 = if ny <= upper { ny } else { upper };
        let closest_x: i64 = if rect.x as i64 >= low_x { rect.x as i64 } else { low_x };
        let closest_y: i64 = if rect.y as i64 >= low_y { rect.y as i64 } else { low_y };
        let dx: i128 = (closest_x - nx) as i128;
        let dy: i128 = (closest_y - ny) as i128;
        let radius: i128 = r as i128;
        assert(0 <= dx * dx <= 0x1_0000_0000_0000_0000) by (nonlinear_arith)
            requires
                -0x1_0000_0000 <= dx <= 0x1_0000_0000,
        ;
        assert(0 <= dy * dy <= 0x1_0000_0000_0000_0000) by (nonlinear_arith)
            requires
                -0x1_0000_0000 <= dy <= 0x1_0000_0000,
        ;
        assert(0 <= radius * radius <= 0x1_0000_0000_0000_0000) by (nonlinear_arith)
            requires
                -0x1_0000_0000 <= radius <= 0x1_0000_0000,
        ;
        let d2: i128 = dx * dx + dy * dy;
        if d2 < radius * radius {
            CollisionLocation::Hit(closest_x as i32, closest_y as i32)
        } else {
            CollisionLocation::Miss
        }
    }
}

impl CollisionDirection {
    /// No contact on any side.
    pub open spec fn none() -> CollisionDirection {
        CollisionDirection { top: false, bottom: false, left: false, right: false }
    }

    /// Whether any side is in contact.
    pub open spec fn any(self) -> bool {
        self.top || self.bottom || self.left || self.right
    }

    /// Side by side, the contacts of `self` or of `other`.
    pub open spec fn union(self, other: CollisionDirection) -> CollisionDirection {
        CollisionDirection {
            top: self.top || other.top,
            bottom: self.bottom || other.bottom,
            left: self.left || other.left,
            right: self.right || other.right,
        }
    }

    /// Classifies a contact point on `rect` by the sides it counts for. The
    /// four comparisons are independent of one another.
    pub fn from_contact(closest_x: i32, closest_y: i32, rect: &Rectangle) -> (dir:
        CollisionDirection)
        ensures
            dir == sides_of_contact(closest_x as int, closest_y as int, *rect),
    {
        let right: i64 = rect.x as i64 + rect.width as i64;
        let upper: i64 = rect.y as i64 + rect.height as i64;
        CollisionDirection {
            top: closest_y <= rect.y,
            bottom: closest_y as i64 >= upper,
            left: closest_x as i64 >= right,
            right: closest_x <= rect.x,
        }
    }

    /// Tests the circle against every rectangle of `rects`, removes those it
    /// hits and reports the sides of all the contacts together. The
    /// rectangles it misses stay, unchanged and in their order.
    pub fn check_multiple(new_x: i32, new_y: i32, r: i32, rects: &mut Vec<Rectangle>) -> (dir:
        CollisionDirection)
        ensures
            final(rects)@ == old(rects)@.filter(missed_by(new_x as int, new_y as int, r as int)),
            dir == struck_among(new_x as int, new_y as int, r as int, old(rects)@),
    {
        let mut kept: Vec<Rectangle> = Vec::new();
        let mut dir = CollisionDirection { top: false, bottom: false, left: false, right: false };
        let mut i: usize = 0;
        proof {
            reveal(Seq::filter);
            assert(rects@.take(0) =~= Seq::<Rectangle>::empty());
        }
        while i < rects.len()
            invariant
                i <= rects.len(),
                rects@ == old(rects)@,
                kept@ == rects@.take(i as int).filter(
                    missed_by(new_x as int, new_y as int, r as int),
                ),
                dir == struck_among(new_x as int, new_y as int, r as int, rects@.take(i as int)),
            decreases rects.len() - i,
        {
            let rect = rects[i];
            proof {
                let seen = rects@.take(i as int);
                let next = rects@.take(i as int + 1);
                assert(next =~= seen.push(rect));
                assert(next.drop_last() =~= seen);
                reveal(Seq::filter);
                lemma_struck_among_push(new_x as int, new_y as int, r as int, seen, rect);
            }
            match CollisionLocation::check(new_x, new_y, r, &rect) {
                CollisionLocation::Hit(closest_x, closest_y) => {
                    let sides = CollisionDirection::from_contact(closest_x, closest_y, &rect);
                    dir = CollisionDirection {
                        top: dir.top || sides.top,
                        bottom: dir.bottom || sides.bottom,
                        left: dir.left || sides.left,
                        right: dir.right || sides.right,
                    };
                },
                CollisionLocation::Miss => {
                    kept.push(rect);
                },
            }
            i += 1;
        }
        proof {
            assert(rects@.take(i as int) =~= rects@);
        }
        *rects = kept;
        dir
    }
}

/// Adding one rectangle to a field adds its contacts to those of the field.
pub proof fn lemma_struck_among_push(cx: int, cy: int, r: int, rects: Seq<Rectangle>, rect:
    Rectangle)
    ensures
        struck_among(cx, cy, r, rects.push(rect)) == struck_among(cx, cy, r, rects).union(
            struck(cx, cy, r, rect),
        ),
{
    let more = rects.push(rect);
    assert(more[rects.len() as int] == rect);
    assert forall|i: int| 0 <= i < rects.len() implies more[i] == rects[i] by {}
    assert forall|i: int| 0 <= i < rects.len() implies struck(cx, cy, r, rects[i]) == struck(
        cx,
        cy,
        r,
        #[trigger] more[i],
    ) by {}
}

/// On one axis, for fractions with the denominator `q`: of the points of
/// the span from `lo` to `lo + len`, the one that the test picks for the
/// coordinate `c` is no farther from `c` than the point `p / q`.
proof fn lemma_nearest_fraction_on_axis(c: int, lo: int, len: int, p: int, q: int)
    requires
        len >= 0,
        q > 0,
        lo * q <= p <= (lo + len) * q,
    ensures
        (max_int(lo, min_int(c, lo + len)) * q - c * q) * (max_int(lo, min_int(c, lo + len)) * q
            - c * q) <= (p - c * q) * (p - c * q),
{
    let m = max_int(lo, min_int(c, lo + len));
    let near = m * q - c * q;
    let far = p - c * q;
    if c < lo {
        assert(0 <= near) by (nonlinear_arith)
            requires
                near == m * q - c * q,
                c < m,
                q > 0,
        ;
        assert(near * near <= far * far) by (nonlinear_arith)
            requires
                0 <= near <= far,
        ;
    } else if c > lo + len {
        assert(near <= 0) by (nonlinear_arith)
            requires
                near == m * q - c * q,
                m < c,
                q > 0,
        ;
        assert(near * near <= far * far) by (nonlinear_arith)
            requires
                far <= near <= 0,
        ;
    } else {
        assert(near * near <= far * far) by (nonlinear_arith)
            requires
                near == 0,
        ;
    }
}

/// No point of the rectangle whose coordinates are fractions is nearer to
/// the circle's centre than the point that the collision test measures to.
/// Distances are compared in units of `1 / q`, squared. Every point of the
/// rectangle has points with such coordinates as near to it as one likes,
/// so none at all is nearer.
pub proof fn lemma_closest_point_is_nearest(
    cx: int,
    cy: int,
    rect: Rectangle,
    px: int,
    py: int,
    q: int,
)
    requires
        rect.wf(),
        rect.contains_fraction(px, py, q),
    ensures
        distance_squared(rect.closest_x(cx) * q, rect.closest_y(cy) * q, cx * q, cy * q)
            <= distance_squared(px, py, cx * q, cy * q),
{
    lemma_nearest_fraction_on_axis(cx, rect.x as int, rect.width as int, px, q);
    lemma_nearest_fraction_on_axis(cy, rect.y as int, rect.height as int, py, q);
}

/// The circle overlaps the rectangle exactly when some point of the
/// rectangle whose coordinates are fractions is closer to the circle's
/// centre than the radius: the distance from the centre to the rectangle
/// is less than the radius, if that is not negative.
pub proof fn lemma_overlaps_iff_within_radius(cx: int, cy: int, r: int, rect: Rectangle)
    requires
        rect.wf(),
    ensures
        overlaps(cx, cy, r, rect) <==> (exists|px: int, py: int, q: int|
            #[trigger] rect.contains_fraction(px, py, q) && distance_squared(
                px,
                py,
                cx * q,
                cy * q,
            ) < (r * q) * (r * q)),
{
    let mx = rect.closest_x(cx);
    let my = rect.closest_y(cy);
    if overlaps(cx, cy, r, rect) {
        assert(rect.contains_fraction(mx, my, 1));
        assert(distance_squared(mx, my, cx * 1, cy * 1) < (r * 1) * (r * 1));
    }
    if exists|px: int, py: int, q: int|
        #[trigger] rect.contains_fraction(px, py, q) && distance_squared(px, py, cx * q, cy * q)
            < (r * q) * (r * q) {
        let (px, py, q) = choose|px: int, py: int, q: int|
            #[trigger] rect.contains_fraction(px, py, q) && distance_squared(
                px,
                py,
                cx * q,
                cy * q,
            ) < (r * q) * (r * q);
        lemma_closest_point_is_nearest(cx, cy, rect, px, py, q);
        let d = distance_squared(mx, my, cx, cy);
        assert(distance_squared(mx * q, my * q, cx * q, cy * q) == d * (q * q))
            by (nonlinear_arith)
            requires
                d == (mx - cx) * (mx - cx) + (my - cy) * (my - cy),
                distance_squared(mx * q, my * q, cx * q, cy * q) == (mx * q - cx * q) * (mx * q
                    - cx * q) + (my * q - cy * q) * (my * q - cy * q),
        ;
        assert((r * q) * (r * q) == (r * r) * (q * q)) by (nonlinear_arith);
        assert(d < r * r) by (nonlinear_arith)
            requires
                d * (q * q) < (r * r) * (q * q),
                q > 0,
        ;
    }
}

/// The collision test reports a hit exactly when the distance from the
/// circle's centre to the rectangle is less than the radius, and it reports
/// the hit at the point of the rectangle that is nearest to the centre. The
/// distance is taken to the points whose coordinates are fractions, and
/// compared squared; the radius is not negative.
pub proof fn lemma_hit_iff_within_radius(cx: i32, cy: i32, r: i32, rect: Rectangle)
    requires
        rect.wf(),
        r >= 0,
    ensures
        probe(cx, cy, r, rect) is Hit <==> (exists|px: int, py: int, q: int|
            #[trigger] rect.contains_fraction(px, py, q) && distance_squared(
                px,
                py,
                cx * q,
                cy * q,
            ) < (r * q) * (r * q)),
        probe(cx, cy, r, rect) matches CollisionLocation::Hit(mx, my) ==> {
            &&& rect.contains(mx as int, my as int)
            &&& forall|px: int, py: int, q: int| #[trigger]
                rect.contains_fraction(px, py, q) ==> distance_squared(
                    mx * q,
                    my * q,
                    cx * q,
                    cy * q,
                ) <= distance_squared(px, py, cx * q, cy * q)
        },
{
    lemma_overlaps_iff_within_radius(cx as int, cy as int, r as int, rect);
    assert forall|px: int, py: int, q: int| #[trigger]
        rect.contains_fraction(px, py, q) implies distance_squared(
        rect.closest_x(cx as int) * q,
        rect.closest_y(cy as int) * q,
        cx * q,
        cy * q,
    ) <= distance_squared(px, py, cx * q, cy * q) by {
        lemma_closest_point_is_nearest(cx as int, cy as int, rect, px, py, q);
    }
    if probe(cx, cy, r, rect) is Hit {
        assert(rect.contains(rect.closest_x(cx as int), rect.closest_y(cy as int)));
    }
}

/// After the field has been swept, a rectangle is in it exactly when it was
/// in it before and the circle missed it.
pub proof fn lemma_survivors_are_the_missed(
    cx: int,
    cy: int,
    r: int,
    rects: Seq<Rectangle>,
    rect: Rectangle,
)
    ensures
        rects.filter(missed_by(cx, cy, r)).contains(rect) <==> (rects.contains(rect) && !overlaps(
            cx,
            cy,
            r,
            rect,
        )),
{
    let keep = missed_by(cx, cy, r);
    let kept = rects.filter(keep);
    if kept.contains(rect) {
        let i = choose|i: int| 0 <= i < kept.len() && kept[i] == rect;
        rects.lemma_filter_pred(keep, i);
        rects.lemma_filter_contains_rev(keep, rect);
    }
    if rects.contains(rect) && !overlaps(cx, cy, r, rect) {
        let i = choose|i: int| 0 <= i < rects.len() && rects[i] == rect;
        rects.lemma_filter_contains(keep, i);
    }
}

} // verus!
