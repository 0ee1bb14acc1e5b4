//! The angle of the ball, and how contacts turn it.
//!
//! Angles are whole degrees. The rules compare an angle with the quarter
//! turns only and add or subtract quarter and half turns, so that in
//! degrees they are exact.

use vstd::prelude::*;
use crate::collision::CollisionDirection;
use crate::units::REACH;

verus! {

/// A full turn, in degrees. Angle 0 points along the positive x axis and
/// angles grow counter-clockwise.
pub const FULL_TURN: i32 = 360;

/// Half a turn: pointing along the negative x axis.
pub const HALF_TURN: i32 = 180;

/// A quarter of a turn: pointing straight up.
pub const QUARTER_TURN: i32 = 90;

/// Three quarters of a turn: pointing straight down.
pub const THREE_QUARTER_TURN: i32 = 270;

/// An eighth of a turn: the diagonal up and to the right.
pub const EIGHTH_TURN: i32 = 45;

/// Three eighths of a turn: the diagonal up and to the left.
pub const THREE_EIGHTH_TURN: i32 = 135;

/// The direction and speed of the ball: what its displacement over one tick
/// is computed from.
#[derive(Clone, Copy, Debug, PartialEq, Eq, Structural)]
pub struct Heading {
    pub angle: i32,
    pub speed: i32,
}

/// How a thing would move in one tick: the displacement that belongs to its
/// speed and its angle, across and upwards.
#[derive(Clone, Copy, Debug, PartialEq, Eq, Structural)]
pub struct Travel {
    pub dx: i32,
    pub dy: i32,
}

impl Travel {
    /// A displacement that a tick can work with: no longer than `REACH`
    /// along either axis.
    pub open spec fn within_reach(self) -> bool {
        -REACH <= self.dx <= REACH && -REACH <= self.dy <= REACH
    }
}

/// An angle in normal form: from 0 up to, but not including, a full turn.
/// Every angle that a heading holds is in normal form.
pub open spec fn is_normalized(angle: int) -> bool {
    0 <= angle < FULL_TURN
}

/// An angle between the two steps of a resolution: from 0 to a full turn,
/// both included. The step for the contacts above and below turns angle 0
/// into a full turn, and the step for the contacts at the sides reads it as
/// it stands.
pub open spec fn within_a_turn(angle: int) -> bool {
    0 <= angle <= FULL_TURN
}

/// An angle within a turn in normal form: a full turn is angle 0.
pub open spec fn normalized(angle: int) -> int {
    angle % (FULL_TURN as int)
}

/// The angle with which the ball leaves the paddle. A ball travelling in
/// the upper half plane keeps its angle; one travelling down and to the
/// left is turned back by a quarter turn; one travelling down and to the
/// right is mirrored on the horizontal.
pub open spec fn paddle_deflection(angle: int) -> int {
    if angle < HALF_TURN {
        angle
    } else if angle < THREE_QUARTER_TURN {
        angle - QUARTER_TURN
    } else {
        HALF_TURN - (angle - HALF_TURN)
    }
}

/// The angle after the contacts above and below the ball are resolved.
pub open spec fn vertical_resolution(angle: int, top: bool, bottom: bool) -> int {
    if top && bottom {
        if angle <= QUARTER_TURN || angle >= THREE_QUARTER_TURN {
            0
        } else {
            HALF_TURN as int
        }
    } else if top && angle < HALF_TURN {
        HALF_TURN + (HALF_TURN - angle)
    } else if bottom && angle > HALF_TURN {
        HALF_TURN - (angle - HALF_TURN)
    } else {
        angle
    }
}

/// The angle after the contacts to the left and right of the ball are
/// resolved.
pub open spec fn horizontal_resolution(angle: int, left: bool, right: bool) -> int {
    if left && right {
        if 0 <= angle <= HALF_TURN {
            QUARTER_TURN as int
        } else {
            THREE_QUARTER_TURN as int
        }
    } else if left && QUARTER_TURN < angle < THREE_QUARTER_TURN {
        if angle <= HALF_TURN {
            angle - QUARTER_TURN
        } else {
            angle - HALF_TURN
        }
    } else if right && (angle < QUARTER_TURN || angle > THREE_QUARTER_TURN) {
        if angle < QUARTER_TURN {
            angle + QUARTER_TURN
        } else {
            angle - QUARTER_TURN
        }
    } else {
        angle
    }
}

/// The angle after all contacts are resolved: first those above and below,
/// then, on the angle that gives, those to the left and right; and the
/// result in normal form.
pub open spec fn resolution(angle: int, contact: CollisionDirection) -> int {
    normalized(
        horizontal_resolution(
            vertical_resolution(angle, contact.top, contact.bottom),
            contact.left,
            contact.right,
        ),
    )
}

/// Turns the ball's angle on contact with the paddle.
pub fn deflect_off_paddle(angle: i32) -> (turned: i32)
    requires
        is_normalized(angle as int),
    ensures
        turned == paddle_deflection(angle as int),
        is_normalized(turned as int),
{
    if angle < HALF_TURN {
        angle
    } else if angle < THREE_QUARTER_TURN {
        angle - QUARTER_TURN
    } else {
        HALF_TURN - (angle - HALF_TURN)
    }
}

/// The first step of a resolution: the contacts above and below the ball.
/// What it gives is not yet in normal form: see `within_a_turn`.
pub fn resolve_vertical(angle: i32, top: bool, bottom: bool) -> (turned: i32)
    requires
        is_normalized(angle as int),
    ensures
        turned == vertical_resolution(angle as int, top, bottom),
        within_a_turn(turned as int),
{
    if top && bottom {
        if angle <= QUARTER_TURN || angle >= THREE_QUARTER_TURN {
            0
        } else {
            HALF_TURN
        }
    } else if top && angle < HALF_TURN {
        HALF_TURN + (HALF_TURN - angle)
    } else if bottom && angle > HALF_TURN {
        HALF_TURN - (angle - HALF_TURN)
    } else {
        angle
    }
}

/// The second step of a resolution: the contacts to the left and right of
/// the ball, on the angle that the first step gave.
pub fn resolve_horizontal(angle: i32, left: bool, right: bool) -> (turned: i32)
    requires
        within_a_turn(angle as int),
    ensures
        turned == horizontal_resolution(angle as int, left, right),
        within_a_turn(turned as int),
{
    if left && right {
        if angle >= 0 && angle <= HALF_TURN {
            QUARTER_TURN
        } else {
            THREE_QUARTER_TURN
        }
    } else if left && angle > QUARTER_TURN && angle < THREE_QUARTER_TURN {
        if angle <= HALF_TURN {
            angle - QUARTER_TURN
        } else {
            angle - HALF_TURN
        }
    } else if right && (angle < QUARTER_TURN || angle > THREE_QUARTER_TURN) {
        if angle < QUARTER_TURN {
            angle + QUARTER_TURN
        } else {
            angle - QUARTER_TURN
        }
    } else {
        angle
    }
}

/// Resolves all the contacts of one tick into the ball's new angle, which
/// is in normal form.
pub fn resolve(angle: i32, contact: &CollisionDirection) -> (turned: i32)
    requires
        is_normalized(angle as int),
    ensures
        turned == resolution(angle as int, *contact),
        is_normalized(turned as int),
{
    let upright = resolve_vertical(angle, contact.top, contact.bottom);
    let turned = resolve_horizontal(upright, contact.left, contact.right);
    if turned >= FULL_TURN {
        turned - FULL_TURN
    } else {
        turned
    }
}

/// After contacts are resolved the angle is normalized, whatever the
/// contacts were.
pub proof fn lemma_resolution_normalized(angle: int, contact: CollisionDirection)
    ensures
        is_normalized(resolution(angle, contact)),
{
}

/// The normal form changes the direction of no resolution: what the two
/// steps give is the resolution, or it is a full turn and the resolution
/// is angle 0.
pub proof fn lemma_resolution_is_the_steps(angle: int, contact: CollisionDirection)
    requires
        is_normalized(angle),
    ensures
        ({
            let stepped = horizontal_resolution(
                vertical_resolution(angle, contact.top, contact.bottom),
                contact.left,
                contact.right,
            );
            resolution(angle, contact) == stepped || (stepped == FULL_TURN && resolution(
                angle,
                contact,
            ) == 0)
        }),
{
}

/// Contact with the paddle keeps a normalized angle normalized, and turns
/// none but angle 0 into angle 0.
pub proof fn lemma_paddle_deflection_normalized(angle: int)
    requires
        is_normalized(angle),
    ensures
        is_normalized(paddle_deflection(angle)),
        paddle_deflection(angle) == 0 ==> angle == 0,
{
}

/// A ball held from above and below at once leaves the vertical step along
/// the x axis: with angle 0 or half a turn.
pub proof fn lemma_pinched_vertically(angle: int)
    ensures
        vertical_resolution(angle, true, true) == 0 || vertical_resolution(angle, true, true)
            == HALF_TURN,
{
}

/// A ball held from the left and the right at once leaves straight up or
/// straight down, whatever the contacts above and below it.
pub proof fn lemma_pinched_horizontally(angle: int, contact: CollisionDirection)
    requires
        contact.left,
        contact.right,
    ensures
        resolution(angle, contact) == QUARTER_TURN || resolution(angle, contact)
            == THREE_QUARTER_TURN,
{
}

/// A ball held from above and below, with no contact at its sides, leaves
/// along the x axis.
pub proof fn lemma_pinched_vertically_only(angle: int, contact: CollisionDirection)
    requires
        contact.top,
        contact.bottom,
        !contact.left,
        !contact.right,
    ensures
        resolution(angle, contact) == 0 || resolution(angle, contact) == HALF_TURN,
{
}

/// A ball held from two opposite sides never leaves at an angle between
/// the axes.
pub proof fn lemma_pinched_leaves_along_axis(angle: int, contact: CollisionDirection)
    requires
        (contact.top && contact.bottom) || (contact.left && contact.right),
    ensures
        resolution(angle, contact) == 0 || resolution(angle, contact) == QUARTER_TURN
            || resolution(angle, contact) == HALF_TURN || resolution(angle, contact)
            == THREE_QUARTER_TURN,
{
}

} // verus!
