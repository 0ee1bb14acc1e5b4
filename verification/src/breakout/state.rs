//! The state of a game as a value, and the parts of a tick as functions
//! from state to state.
//!
//! The functions are meant for states within reach (see
//! `GameState::within_reach`), where every position and speed that they
//! compute is in the range of the integers that hold the state.

use vstd::prelude::*;
use crate::breakout::config::{Config, MAX_EXTENT};
use crate::circle::Circle;
use crate::collision::{missed_by, overlaps, struck_among, CollisionDirection};
use crate::heading::{
    is_normalized, paddle_deflection, resolution, Heading, Travel, EIGHTH_TURN, QUARTER_TURN,
    THREE_EIGHTH_TURN,
};
use crate::rectangle::{min_int, Rectangle};
use crate::units::REACH;

verus! {

/// The paddle: a rectangle that moves along the floor.
#[derive(Clone, Copy, Debug, PartialEq, Eq, Structural)]
pub struct Paddle {
    pub rect: Rectangle,
}

impl Paddle {
    /// A paddle of the given shape.
    pub fn new(rect: Rectangle) -> (paddle: Paddle)
        ensures
            paddle.rect == rect,
    {
        Paddle { rect }
    }
}

/// What the player asks for in the coming tick: to move the paddle left or
/// right, and to launch the ball. The game takes each as it is given: it
/// launches in every tick for which `launch` is set.
#[derive(Clone, Copy, Debug, PartialEq, Eq, Structural)]
pub struct Input {
    pub left: bool,
    pub right: bool,
    pub launch: bool,
}

/// The code of the key that moves the paddle left, as the X Window System
/// counts its keys.
pub const KEY_LEFT: u32 = 38;

/// The code of the key that moves the paddle right.
pub const KEY_RIGHT: u32 = 40;

/// The code of the key that launches the ball.
pub const KEY_LAUNCH: u32 = 65;

/// What the window reports, as far as the game reads it.
#[derive(Clone, Copy, Debug, PartialEq, Eq, Structural)]
pub enum Event {
    /// The key with the code `code` went down (`pressed`) or up.
    KeyboardInput { pressed: bool, code: u32 },
    /// Anything else.
    Other,
}

impl Input {
    /// The input after `event`: a key of the game sets what it stands for
    /// while it is down and clears it when it goes up.
    pub open spec fn after(self, event: Event) -> Input {
        match event {
            Event::KeyboardInput { pressed, code } => {
                if code == KEY_LEFT {
                    Input { left: pressed, ..self }
                } else if code == KEY_RIGHT {
                    Input { right: pressed, ..self }
                } else if code == KEY_LAUNCH {
                    Input { launch: pressed, ..self }
                } else {
                    self
                }
            },
            Event::Other => self,
        }
    }
}

/// How the move of the ball in a tick ended.
#[derive(Clone, Copy, Debug, PartialEq, Eq, Structural)]
pub enum Outcome {
    /// The ball fell through the floor and rests on the paddle again.
    Lost,
    /// The ball met nothing that turns it and has moved on.
    Moved,
    /// The ball met a wall or a block. It has turned, but has not moved:
    /// its displacement for the heading given here is yet to be applied.
    Bounced(Heading),
}

/// The state of one game as a value: what a `Game` holds, with the blocks
/// as a sequence.
pub struct GameState {
    pub config: Config,
    pub paddle: Paddle,
    pub blocks: Seq<Rectangle>,
    pub ball: Circle,
    pub ball_speed: i32,
    pub ball_angle: i32,
    pub input: Input,
}

impl GameState {
    /// The invariant of a game: its configuration is valid, paddle and ball
    /// have the configured sizes, the paddle lies within the world's width,
    /// the speed is not negative and the angle is in normal form.
    pub open spec fn wf(self) -> bool {
        &&& self.config.valid()
        &&& self.paddle.rect.width == self.config.paddle_width
        &&& self.paddle.rect.height == self.config.paddle_height
        &&& 0 <= self.paddle.rect.x <= self.config.world_width - self.config.paddle_width
        &&& self.ball.r == self.config.ball_radius
        &&& self.ball_speed >= 0
        &&& is_normalized(self.ball_angle as int)
    }

    /// The ball is near enough, and slow enough, for a whole tick to be
    /// computed within the range of the integers that hold the state.
    pub open spec fn in_play(self) -> bool {
        &&& -(REACH - MAX_EXTENT) <= self.ball.x <= REACH - MAX_EXTENT
        &&& -(REACH - MAX_EXTENT) <= self.ball.y <= REACH - MAX_EXTENT
        &&& self.ball_speed <= REACH
    }

    /// The ball is within `REACH` of the origin and no faster than `REACH`.
    pub open spec fn within_reach(self) -> bool {
        &&& -REACH <= self.ball.x <= REACH
        &&& -REACH <= self.ball.y <= REACH
        &&& self.ball_speed <= REACH
    }

    /// The state in which a game with `config` begins: the paddle in the
    /// lower-left corner, the ball at rest on it, all blocks standing and
    /// nothing asked for.
    pub open spec fn initial(config: Config) -> GameState {
        GameState {
            config,
            paddle: Paddle {
                rect: Rectangle {
                    x: 0,
                    y: 0,
                    width: config.paddle_width,
                    height: config.paddle_height,
                },
            },
            blocks: config.field(config.block_rows as int),
            ball: Self::resting_ball(config, 0),
            ball_speed: 0,
            ball_angle: 0,
            input: Input { left: false, right: false, launch: false },
        }
    }

    /// Where the ball rests when the paddle's left end is at `paddle_x`: on
    /// the paddle's upper edge, in the middle of its width.
    pub open spec fn resting_ball(config: Config, paddle_x: int) -> Circle {
        Circle {
            x: (paddle_x + config.paddle_width / 2 - config.ball_radius) as i32,
            y: config.paddle_height,
            r: config.ball_radius,
        }
    }

    /// The ball's direction and speed.
    pub open spec fn heading(self) -> Heading {
        Heading { angle: self.ball_angle, speed: self.ball_speed }
    }

    /// How far the paddle moves in this tick: by its velocity towards the
    /// side that is asked for, left before right, but no further than the
    /// world's edge.
    pub open spec fn paddle_shift(self) -> int {
        let x = self.paddle.rect.x as int;
        let room = self.config.world_width - self.config.paddle_width - x;
        if self.input.left && x > 0 {
            -min_int(self.config.paddle_velocity as int, x)
        } else if self.input.right && room > 0 {
            min_int(self.config.paddle_velocity as int, room)
        } else {
            0
        }
    }

    /// Whether the ball rests on the paddle, and so moves with it.
    pub open spec fn docked(self) -> bool {
        self.ball.y <= self.config.paddle_height + self.config.sticky_margin
    }

    /// The angle of a launch from a paddle that moves by `shift`: straight
    /// up from a paddle at rest, else the diagonal towards the side that the
    /// paddle moves to.
    pub open spec fn launch_angle(shift: int) -> i32 {
        if shift == 0 {
            QUARTER_TURN
        } else if shift > 0 {
            EIGHTH_TURN
        } else {
            THREE_EIGHTH_TURN
        }
    }

    /// The state after the first part of a tick: the paddle has moved as
    /// asked, a resting ball has moved with it, and the ball is launched if
    /// that is asked for.
    pub open spec fn steer(self) -> GameState {
        let shift = self.paddle_shift();
        GameState {
            paddle: Paddle {
                rect: Rectangle { x: (self.paddle.rect.x + shift) as i32, ..self.paddle.rect },
            },
            ball: Circle {
                x: if self.docked() {
                    (self.ball.x + shift) as i32
                } else {
                    self.ball.x
                },
                ..self.ball
            },
            ball_angle: if self.input.launch {
                Self::launch_angle(shift)
            } else {
                self.ball_angle
            },
            ball_speed: if self.input.launch {
                self.config.launch_speed
            } else {
                self.ball_speed
            },
            ..self
        }
    }

    /// The x coordinate of the centre of the ball once it has moved by
    /// `travel`.
    pub open spec fn centre_x_after(self, travel: Travel) -> int {
        self.ball.x + travel.dx + self.ball.r
    }

    /// The y coordinate of the centre of the ball once it has moved by
    /// `travel`.
    pub open spec fn centre_y_after(self, travel: Travel) -> int {
        self.ball.y + travel.dy + self.ball.r
    }

    /// The blocks that the ball does not overlap once it has moved by
    /// `travel`.
    pub open spec fn blocks_left(self, travel: Travel) -> Seq<Rectangle> {
        self.blocks.filter(
            missed_by(self.centre_x_after(travel), self.centre_y_after(travel), self.ball.r as int),
        )
    }

    /// The walls that the ball touches or crosses once it has moved by
    /// `travel`. The floor is no wall: see `falls`.
    pub open spec fn wall_contact(self, travel: Travel) -> CollisionDirection {
        CollisionDirection {
            top: self.ball.y + travel.dy + 2 * self.ball.r >= self.config.world_height,
            bottom: false,
            left: self.ball.x + travel.dx <= 0,
            right: self.ball.x + travel.dx + 2 * self.ball.r >= self.config.world_width,
        }
    }

    /// All that turns the ball once it has moved by `travel`: the blocks
    /// that it overlaps there, and the walls.
    pub open spec fn contact(self, travel: Travel) -> CollisionDirection {
        struck_among(
            self.centre_x_after(travel),
            self.centre_y_after(travel),
            self.ball.r as int,
            self.blocks,
        ).union(self.wall_contact(travel))
    }

    /// Whether the ball touches or crosses the floor once it has moved by
    /// `travel`.
    pub open spec fn falls(self, travel: Travel) -> bool {
        self.ball.y + travel.dy <= 0
    }

    /// Whether the ball overlaps the paddle once it has moved by `travel`.
    pub open spec fn meets_paddle(self, travel: Travel) -> bool {
        overlaps(
            self.centre_x_after(travel),
            self.centre_y_after(travel),
            self.ball.r as int,
            self.paddle.rect,
        )
    }

    /// The ball's angle after the paddle has had its say.
    pub open spec fn angle_off_paddle(self, travel: Travel) -> int {
        if self.meets_paddle(travel) {
            paddle_deflection(self.ball_angle as int)
        } else {
            self.ball_angle as int
        }
    }

    /// How the second part of a tick ends for a ball that would move by
    /// `travel`.
    pub open spec fn outcome(self, travel: Travel) -> Outcome {
        if self.falls(travel) {
            Outcome::Lost
        } else if self.contact(travel).any() {
            Outcome::Bounced(
                Heading {
                    angle: resolution(self.angle_off_paddle(travel), self.contact(travel)) as i32,
                    speed: self.ball_speed,
                },
            )
        } else {
            Outcome::Moved
        }
    }

    /// The state after the second part of a tick, for a ball that would
    /// move by `travel`. The blocks that it would overlap are gone. A ball
    /// that falls comes to rest on the paddle. A ball in contact with a
    /// block or a wall turns and stays. Any other ball moves. The paddle
    /// turns a ball that would overlap it, unless it falls.
    pub open spec fn advance(self, travel: Travel) -> GameState {
        let blocks = self.blocks_left(travel);
        match self.outcome(travel) {
            Outcome::Lost => GameState {
                blocks,
                ball: Self::resting_ball(self.config, self.paddle.rect.x as int),
                ball_speed: 0,
                ..self
            },
            Outcome::Bounced(heading) => GameState { blocks, ball_angle: heading.angle, ..self },
            Outcome::Moved => GameState {
                blocks,
                ball: Circle {
                    x: (self.ball.x + travel.dx) as i32,
                    y: (self.ball.y + travel.dy) as i32,
                    ..self.ball
                },
                ball_angle: self.angle_off_paddle(travel) as i32,
                ..self
            },
        }
    }

    /// The state after the last part of a tick in which the ball bounced:
    /// the ball has moved by `travel` and is faster.
    pub open spec fn rebound(self, travel: Travel) -> GameState {
        GameState {
            ball: Circle {
                x: (self.ball.x + travel.dx) as i32,
                y: (self.ball.y + travel.dy) as i32,
                ..self.ball
            },
            ball_speed: (self.ball_speed + self.config.speed_gain) as i32,
            ..self
        }
    }

    /// The state after a whole tick. `first` is the ball's displacement for
    /// the heading that it has once the paddle is steered; `second`, which
    /// counts only if the ball bounces, is its displacement for the heading
    /// that it turns to.
    pub open spec fn tick(self, first: Travel, second: Travel) -> GameState {
        let steered = self.steer();
        match steered.outcome(first) {
            Outcome::Bounced(_) => steered.advance(first).rebound(second),
            _ => steered.advance(first),
        }
    }
}

} // verus!
