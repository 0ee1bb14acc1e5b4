//! The game as it runs: the state in memory, and the parts of a tick as
//! they are executed.

use vstd::prelude::*;
use crate::breakout::config::{Config, ConfigError, MAX_EXTENT};
use crate::breakout::state::{
    Event, GameState, Input, Outcome, Paddle, KEY_LAUNCH, KEY_LEFT, KEY_RIGHT,
};
use crate::circle::Circle;
use crate::collision::{CollisionDirection, CollisionLocation};
use crate::heading::{
    deflect_off_paddle, resolve, Heading, Travel, EIGHTH_TURN, FULL_TURN, QUARTER_TURN,
    THREE_EIGHTH_TURN,
};
use crate::rectangle::Rectangle;
use crate::units::REACH;

verus! {

/// The state of one game.
#[derive(Debug)]
pub struct Game {
    pub config: Config,
    pub paddle: Paddle,
    /// The blocks that are still standing.
    pub blocks: Vec<Rectangle>,
    pub ball: Circle,
    /// How far the ball travels in one tick.
    pub ball_speed: i32,
    /// The direction in which the ball travels, in degrees.
    pub ball_angle: i32,
    pub input: Input,
}

impl View for Game {
    type V = GameState;

    open spec fn view(&self) -> GameState {
        GameState {
            config: self.config,
            paddle: self.paddle,
            blocks: self.blocks@,
            ball: self.ball,
            ball_speed: self.ball_speed,
            ball_angle: self.ball_angle,
            input: self.input,
        }
    }
}

impl Game {
    /// The invariant of a game: see `GameState::wf`.
    pub open spec fn wf(self) -> bool {
        self@.wf()
    }

    /// Whether the invariant of a game holds of this one.
    pub fn is_wf(&self) -> (b: bool)
        ensures
            b == self.wf(),
    {
        match self.config.validate() {
            Err(_) => false,
            Ok(()) => {
                self.paddle.rect.width == self.config.paddle_width && self.paddle.rect.height
                    == self.config.paddle_height && 0 <= self.paddle.rect.x && self.paddle.rect.x
                    <= self.config.world_width - self.config.paddle_width && self.ball.r
                    == self.config.ball_radius && self.ball_speed >= 0 && 0 <= self.ball_angle
                    && self.ball_angle < FULL_TURN
            },
        }
    }

    /// Whether the game can go through a tick: see `GameState::in_play`.
    pub fn is_in_play(&self) -> (b: bool)
        ensures
            b == self@.in_play(),
    {
        -(REACH - MAX_EXTENT) <= self.ball.x && self.ball.x <= REACH - MAX_EXTENT && -(REACH
            - MAX_EXTENT) <= self.ball.y && self.ball.y <= REACH - MAX_EXTENT && self.ball_speed
            <= REACH
    }

    /// Sets up a game. A configuration with a fault is refused with that
    /// fault.
    pub fn init(config: Config) -> (r: Result<Game, ConfigError>)
        ensures
            r is Ok <==> config.valid(),
            r matches Err(e) ==> config.fault() == Some(e),
            r matches Ok(game) ==> game@ == GameState::initial(config) && game.wf()
                && game@.in_play(),
    {
        match config.validate() {
            Err(e) => {
                return Err(e);
            },
            Ok(()) => {},
        }
        let pitch: i64 = config.block_width as i64 + config.block_gap as i64;
        let rise: i64 = config.block_height as i64 + config.block_gap as i64;
        let mut blocks: Vec<Rectangle> = Vec::new();
        let mut row: i32 = 0;
        while row < config.block_rows
            invariant
                config.valid(),
                0 <= row <= config.block_rows,
                pitch == config.block_width + config.block_gap,
                rise == config.block_height + config.block_gap,
                blocks@ == config.field(row as int),
            decreases config.block_rows - row,
        {
            let count: i32 = if row % 2 == 0 {
                config.even_row_blocks
            } else {
                config.odd_row_blocks
            };
            assert(count == config.blocks_in_row(row as int));
            assert(0 <= count * pitch <= 1000 * 0x20_0000) by (nonlinear_arith)
                requires
                    0 <= count <= 1000,
                    0 <= pitch <= 0x20_0000,
            ;
            assert(0 <= row * rise <= 1000 * 0x20_0000) by (nonlinear_arith)
                requires
                    0 <= row <= 1000,
                    0 <= rise <= 0x20_0000,
            ;
            let left: i64 = (config.world_width as i64 - (count as i64 * pitch
                - config.block_gap as i64)) / 2;
            let y: i64 = config.world_height as i64 - row as i64 * rise;
            let ghost before = blocks@;
            let mut col: i32 = 0;
            proof {
                assert(config.row_of_blocks(row as int, 0) =~= Seq::<Rectangle>::empty());
                assert(before + Seq::<Rectangle>::empty() =~= before);
            }
            while col < count
                invariant
                    config.valid(),
                    0 <= row < config.block_rows,
                    0 <= col <= count,
                    count == config.blocks_in_row(row as int),
                    pitch == config.block_width + config.block_gap,
                    left == config.row_left(row as int),
                    0 <= left <= 0x10_0000,
                    y == config.world_height - row * (config.block_height + config.block_gap),
                    -0x8000_0000 <= y <= 0x10_0000,
                    0 <= count * pitch <= 1000 * 0x20_0000,
                    before == config.field(row as int),
                    blocks@ == before + config.row_of_blocks(row as int, col as int),
                decreases count - col,
            {
                assert(0 <= pitch * col <= count * pitch - pitch) by (nonlinear_arith)
                    requires
                        0 <= col < count,
                        0 <= pitch,
                ;
                let x: i64 = left + pitch * col as i64;
                assert(pitch * col == (config.block_width + config.block_gap) * col)
                    by (nonlinear_arith)
                    requires
                        pitch == config.block_width + config.block_gap,
                ;
                let block = Rectangle {
                    x: x as i32,
                    y: y as i32,
                    width: config.block_width,
                    height: config.block_height,
                };
                blocks.push(block);
                proof {
                    let done = config.row_of_blocks(row as int, col as int);
                    let more = config.row_of_blocks(row as int, col as int + 1);
                    assert(block == config.block_at(row as int, col as int));
                    assert(more =~= done.push(block));
                    assert(before + more =~= (before + done).push(block));
                }
                col += 1;
            }
            row += 1;
        }
        let ball = Circle {
            x: config.paddle_width / 2 - config.ball_radius,
            y: config.paddle_height,
            r: config.ball_radius,
        };
        let rect = Rectangle {
            x: 0,
            y: 0,
            width: config.paddle_width,
            height: config.paddle_height,
        };
        Ok(
            Game {
                config,
                paddle: Paddle::new(rect),
                blocks,
                ball,
                ball_speed: 0,
                ball_angle: 0,
                input: Input { left: false, right: false, launch: false },
            },
        )
    }

    /// Takes note of what the window reports: the keys of the game set and
    /// clear what the player asks for.
    pub fn handle_event(&mut self, event: &Event)
        ensures
            final(self)@ == (GameState { input: old(self).input.after(*event), ..old(self)@ }),
    {
        match *event {
            Event::KeyboardInput { pressed, code } => {
                if code == KEY_LEFT {
                    self.input.left = pressed;
                } else if code == KEY_RIGHT {
                    self.input.right = pressed;
                } else if code == KEY_LAUNCH {
                    self.input.launch = pressed;
                }
            },
            Event::Other => {},
        }
    }

    /// The first part of a tick: moves the paddle as asked, carries a
    /// resting ball along with it, and launches the ball if that is asked
    /// for. Returns the heading for which the ball's displacement is to be
    /// computed.
    pub fn steer(&mut self) -> (heading: Heading)
        requires
            old(self).wf(),
            old(self)@.in_play(),
        ensures
            final(self)@ == old(self)@.steer(),
            heading == final(self)@.heading(),
            final(self).wf(),
            final(self)@.within_reach(),
    {
        let x = self.paddle.rect.x;
        let room = self.config.world_width - self.config.paddle_width - x;
        let velocity = self.config.paddle_velocity;
        let delta_paddle: i32 = if self.input.left && x > 0 {
            if velocity <= x {
                -velocity
            } else {
                -x
            }
        } else if self.input.right && room > 0 {
            if velocity <= room {
                velocity
            } else {
                room
            }
        } else {
            0
        };
        self.paddle.rect.x = x + delta_paddle;
        if self.ball.y <= self.config.paddle_height + self.config.sticky_margin {
            self.ball.x = self.ball.x + delta_paddle;
        }
        if self.input.launch {
            self.ball_angle = if delta_paddle == 0 {
                QUARTER_TURN
            } else if delta_paddle > 0 {
                EIGHTH_TURN
            } else {
                THREE_EIGHTH_TURN
            };
            self.ball_speed = self.config.launch_speed;
        }
        Heading { angle: self.ball_angle, speed: self.ball_speed }
    }

    /// The second part of a tick. The ball would move by `travel`. Every
    /// block that it would overlap there is removed. If it would touch the
    /// floor, it is lost: it comes to rest on the paddle. Else the paddle, if
    /// the ball would overlap it, turns the ball; and if the ball would
    /// touch a block or a wall, it turns once more and stays where it is,
    /// to be moved by `rebound`. Else it moves by `travel`.
    pub fn advance(&mut self, travel: Travel) -> (outcome: Outcome)
        requires
            old(self).wf(),
            old(self)@.within_reach(),
            travel.within_reach(),
        ensures
            final(self)@ == old(self)@.advance(travel),
            outcome == old(self)@.outcome(travel),
            final(self).wf(),
            outcome is Bounced ==> final(self)@.within_reach(),
    {
        let r = self.ball.r;
        let new_x: i32 = self.ball.x + travel.dx;
        let new_y: i32 = self.ball.y + travel.dy;
        let mut collisions = CollisionDirection::check_multiple(
            new_x + r,
            new_y + r,
            r,
            &mut self.blocks,
        );
        if new_x + 2 * r >= self.config.world_width {
            collisions.right = true;
        }
        if new_x <= 0 {
            collisions.left = true;
        }
        if new_y + 2 * r >= self.config.world_height {
            collisions.top = true;
        }
        if new_y <= 0 {
            self.ball_speed = 0;
            self.ball.x = self.paddle.rect.x + self.config.paddle_width / 2
                - self.config.ball_radius;
            self.ball.y = self.config.paddle_height;
            return Outcome::Lost;
        }
        match CollisionLocation::check(new_x + r, new_y + r, r, &self.paddle.rect) {
            CollisionLocation::Hit(_, _) => {
                self.ball_angle = deflect_off_paddle(self.ball_angle);
            },
            CollisionLocation::Miss => {},
        }
        if collisions.top || collisions.bottom || collisions.left || collisions.right {
            self.ball_angle = resolve(self.ball_angle, &collisions);
            Outcome::Bounced(Heading { angle: self.ball_angle, speed: self.ball_speed })
        } else {
            self.ball.x = new_x;
            self.ball.y = new_y;
            Outcome::Moved
        }
    }

    /// The last part of a tick in which the ball bounced: moves the ball by
    /// `travel`, its displacement for the heading that it turned to, and
    /// makes it faster.
    pub fn rebound(&mut self, travel: Travel)
        requires
            old(self).wf(),
            old(self)@.within_reach(),
            travel.within_reach(),
        ensures
            final(self)@ == old(self)@.rebound(travel),
            final(self).wf(),
    {
        self.ball.x = self.ball.x + travel.dx;
        self.ball.y = self.ball.y + travel.dy;
        self.ball_speed = self.ball_speed + self.config.speed_gain;
    }

    /// One whole tick of the simulation. `project` gives the displacement
    /// of the ball over one tick for a heading; it is asked once for the
    /// heading that the ball has when the paddle is steered, and once more,
    /// if the ball bounces, for the heading that it turns to.
    pub fn tick<F: Fn(Heading) -> Travel>(&mut self, project: F) -> (outcome: Outcome)
        requires
            old(self).wf(),
            old(self)@.in_play(),
            forall|heading: Heading| call_requires(project, (heading,)),
            forall|heading: Heading, travel: Travel|
                call_ensures(project, (heading,), travel) ==> travel.within_reach(),
        ensures
            final(self).wf(),
            exists|first: Travel, second: Travel|
                {
                    &&& final(self)@ == #[trigger] old(self)@.tick(first, second)
                    &&& outcome == old(self)@.steer().outcome(first)
                    &&& call_ensures(project, (old(self)@.steer().heading(),), first)
                    &&& outcome matches Outcome::Bounced(heading) ==> call_ensures(
                        project,
                        (heading,),
                        second,
                    )
                },
    {
        let heading = self.steer();
        let first = project(heading);
        let outcome = self.advance(first);
        match outcome {
            Outcome::Bounced(turned) => {
                let second = project(turned);
                self.rebound(second);
                proof {
                    assert(self@ == old(self)@.tick(first, second));
                }
            },
            _ => {
                proof {
                    assert(self@ == old(self)@.tick(first, first));
                }
            },
        }
        outcome
    }
}

} // verus!
