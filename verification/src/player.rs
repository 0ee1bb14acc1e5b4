//! The tank: how keys, drag and thrust set its velocity, and how it moves.
//!
//! The displacement that belongs to a velocity and an angle is a matter of
//! sines and cosines and is computed by the caller: `Player::update` takes a
//! function for it.

use vstd::prelude::*;
use crate::heading::Travel;
use crate::input::Input;
use crate::rectangle::{max_int, min_int};
use crate::units::{REACH, UNIT};

verus! {

/// What a held key adds to, or takes from, the tank's velocity in one tick.
pub const THRUST: i32 = 50;

/// How much of its velocity a tank loses in one tick.
pub const DRAG: i32 = 25;

/// The velocity that drag is applied down to, or up to, before the thrust
/// of the tick is added: 2 world units in a tick, either way.
pub const TOP_SPEED: i32 = 2 * UNIT;

/// How far a held key turns the tank in one tick, in thousandths of a
/// radian.
pub const TURN_RATE: i32 = 50;

/// What the displacement of the tank over one tick is computed from: its
/// velocity, which is negative when it reverses, and the angle of its hull
/// in thousandths of a radian, counter-clockwise from straight up.
#[derive(Clone, Copy, Debug, PartialEq, Eq, Structural)]
pub struct Motion {
    pub velocity: i32,
    pub angle: i32,
}

/// A tank: a hull, and a barrel that moves with it.
#[derive(Clone, Copy, Debug, PartialEq, Eq, Structural)]
pub struct Player {
    /// The lower-left corner of the hull.
    pub x: i32,
    pub y: i32,
    /// The lower-left corner of the barrel.
    pub barrel_x: i32,
    pub barrel_y: i32,
    /// How far to the right of its left edge the barrel's pivot lies.
    pub barrel_pivot: i32,
    pub acceleration: i32,
    pub velocity: i32,
    pub angular_velocity: i32,
    /// The angle of the hull, in thousandths of a radian.
    pub angle: i32,
}

impl Player {
    /// The tank can be moved within the range of the integers that hold
    /// it: its positions, its angle and its turning are within `REACH`.
    pub open spec fn in_range(self) -> bool {
        &&& -REACH <= self.x <= REACH
        &&& -REACH <= self.y <= REACH
        &&& -REACH <= self.barrel_x <= REACH
        &&& -REACH <= self.barrel_y <= REACH
        &&& -REACH <= self.angle <= REACH
        &&& -REACH <= self.angular_velocity <= REACH
    }

    /// The acceleration that the keys ask for: backward before forward.
    pub open spec fn thrust_asked(input: Input) -> int {
        if input.backward {
            -THRUST
        } else if input.forward {
            THRUST as int
        } else {
            0
        }
    }

    /// The turning that the keys ask for: left before right.
    pub open spec fn turn_asked(input: Input) -> int {
        if input.left {
            TURN_RATE as int
        } else if input.right {
            -TURN_RATE
        } else {
            0
        }
    }

    /// A velocity after one tick of drag: nearer to zero by `DRAG`, but not
    /// beyond it.
    pub open spec fn dragged(velocity: int) -> int {
        if velocity > 0 {
            max_int(velocity - DRAG, 0)
        } else if velocity < 0 {
            min_int(velocity + DRAG, 0)
        } else {
            0
        }
    }

    /// A velocity held within the top speed, either way.
    pub open spec fn capped(velocity: int) -> int {
        max_int(min_int(velocity, TOP_SPEED as int), -TOP_SPEED)
    }

    /// The tank after the keys are read: acceleration and turning as asked,
    /// and the velocity dragged, capped and then accelerated.
    pub open spec fn throttled(self, input: Input) -> Player {
        Player {
            acceleration: Self::thrust_asked(input) as i32,
            velocity: (Self::capped(Self::dragged(self.velocity as int)) + Self::thrust_asked(
                input,
            )) as i32,
            angular_velocity: Self::turn_asked(input) as i32,
            ..self
        }
    }

    /// What the tank's displacement is computed from.
    pub open spec fn motion(self) -> Motion {
        Motion { velocity: self.velocity, angle: self.angle }
    }

    /// The tank after it has moved by `travel` and turned by its angular
    /// velocity.
    pub open spec fn advanced(self, travel: Travel) -> Player {
        Player {
            x: (self.x + travel.dx) as i32,
            y: (self.y + travel.dy) as i32,
            barrel_x: (self.barrel_x + travel.dx) as i32,
            barrel_y: (self.barrel_y + travel.dy) as i32,
            angle: (self.angle + self.angular_velocity) as i32,
            ..self
        }
    }

    /// From the barrel's pivot to the pointer's place in the world, across
    /// and upwards.
    pub open spec fn aim_at(self, input: Input) -> (int, int) {
        (input.world_x - (self.barrel_x + self.barrel_pivot), input.world_y - self.barrel_y)
    }

    /// The tank at rest that `new` makes of a hull and a barrel of the given
    /// sizes.
    pub open spec fn at_rest(hull_width: int, hull_height: int, barrel_width: int) -> Player {
        Player {
            x: 0,
            y: 0,
            barrel_x: (hull_width / 2 - barrel_width / 2) as i32,
            barrel_y: (hull_height / 2) as i32,
            barrel_pivot: (barrel_width / 2) as i32,
            acceleration: 0,
            velocity: 0,
            angular_velocity: 0,
            angle: 0,
        }
    }

    /// A tank at rest whose hull has its lower-left corner at the origin.
    /// The barrel stands in the middle of the hull's width and begins at
    /// half its height; its pivot is in the middle of its own width. A
    /// negative size is refused.
    pub fn new(hull_width: i32, hull_height: i32, barrel_width: i32) -> (player: Option<Player>)
        ensures
            player.is_some() <==> (hull_width >= 0 && hull_height >= 0 && barrel_width >= 0),
            player matches Some(p) ==> p == Self::at_rest(
                hull_width as int,
                hull_height as int,
                barrel_width as int,
            ),
    {
        if hull_width < 0 || hull_height < 0 || barrel_width < 0 {
            return None;
        }
        Some(
            Player {
                x: 0,
                y: 0,
                barrel_x: hull_width / 2 - barrel_width / 2,
                barrel_y: hull_height / 2,
                barrel_pivot: barrel_width / 2,
                acceleration: 0,
                velocity: 0,
                angular_velocity: 0,
                angle: 0,
            },
        )
    }

    /// Whether the tank can be moved: see `in_range`.
    pub fn is_in_range(&self) -> (b: bool)
        ensures
            b == self.in_range(),
    {
        -REACH <= self.x && self.x <= REACH && -REACH <= self.y && self.y <= REACH && -REACH
            <= self.barrel_x && self.barrel_x <= REACH && -REACH <= self.barrel_y && self.barrel_y
            <= REACH && -REACH <= self.angle && self.angle <= REACH && -REACH
            <= self.angular_velocity && self.angular_velocity <= REACH
    }

    /// The lower-left corner of the hull.
    pub fn position(&self) -> (p: (i32, i32))
        ensures
            p == (self.x, self.y),
    {
        (self.x, self.y)
    }

    /// The first part of an update: reads the keys, and lets drag, the top
    /// speed and the thrust act on the velocity, in this order. Returns what
    /// the tank's displacement is to be computed from.
    pub fn throttle(&mut self, input: &Input) -> (motion: Motion)
        ensures
            *final(self) == old(self).throttled(*input),
            motion == final(self).motion(),
            -TOP_SPEED - THRUST <= final(self).velocity <= TOP_SPEED + THRUST,
            old(self).in_range() ==> final(self).in_range(),
    {
        if input.forward || input.backward {
            if input.forward {
                self.acceleration = THRUST;
            }
            if input.backward {
                self.acceleration = -THRUST;
            }
        } else {
            self.acceleration = 0;
        }
        if self.velocity > 0 {
            self.velocity = if self.velocity - DRAG >= 0 {
                self.velocity - DRAG
            } else {
                0
            };
        } else if self.velocity < 0 {
            self.velocity = if self.velocity + DRAG <= 0 {
                self.velocity + DRAG
            } else {
                0
            };
        }
        if self.velocity > TOP_SPEED {
            self.velocity = TOP_SPEED;
        }
        if self.velocity < -TOP_SPEED {
            self.velocity = -TOP_SPEED;
        }
        if input.left {
            self.angular_velocity = TURN_RATE;
        } else if input.right {
            self.angular_velocity = -TURN_RATE;
        } else {
            self.angular_velocity = 0;
        }
        self.velocity = self.velocity + self.acceleration;
        Motion { velocity: self.velocity, angle: self.angle }
    }

    /// The second part of an update: moves hull and barrel by `travel` and
    /// turns the hull by its angular velocity.
    pub fn advance(&mut self, travel: Travel)
        requires
            old(self).in_range(),
            travel.within_reach(),
        ensures
            *final(self) == old(self).advanced(travel),
    {
        self.x = self.x + travel.dx;
        self.y = self.y + travel.dy;
        self.barrel_x = self.barrel_x + travel.dx;
        self.barrel_y = self.barrel_y + travel.dy;
        self.angle = self.angle + self.angular_velocity;
    }

    /// From the barrel's pivot to the pointer's place in the world: what
    /// the barrel's angle is computed from.
    pub fn aim(&self, input: &Input) -> (to: (i64, i64))
        ensures
            (to.0 as int, to.1 as int) == self.aim_at(*input),
    {
        let cx: i64 = self.barrel_x as i64 + self.barrel_pivot as i64;
        let cy: i64 = self.barrel_y as i64;
        (input.world_x as i64 - cx, input.world_y as i64 - cy)
    }

    /// One whole update of the tank. `project` gives the displacement over
    /// one tick for a velocity and an angle; it is asked once, after the
    /// keys are read and before the hull turns.
    pub fn update<F: Fn(Motion) -> Travel>(&mut self, input: &Input, project: F)
        requires
            old(self).in_range(),
            forall|motion: Motion| call_requires(project, (motion,)),
            forall|motion: Motion, travel: Travel|
                call_ensures(project, (motion,), travel) ==> travel.within_reach(),
        ensures
            exists|travel: Travel|
                {
                    &&& *final(self) == #[trigger] old(self).throttled(*input).advanced(travel)
                    &&& call_ensures(project, (old(self).throttled(*input).motion(),), travel)
                },
    {
        let motion = self.throttle(input);
        let travel = project(motion);
        self.advance(travel);
        proof {
            assert(*self == old(self).throttled(*input).advanced(travel));
        }
    }
}

} // verus!
