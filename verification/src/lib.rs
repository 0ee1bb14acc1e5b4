//! Verified core of a small arcade framework: the collision geometry and
//! the bounce rules of a brick-breaking game, the throttle of a tank, the
//! layout of a tile map, and the fixed-timestep clock that drives a game.
//!
//! All quantities are integers. Lengths, positions and speeds are counted in
//! sub-units of a world unit (see [`units::UNIT`]); the angles of the ball
//! are counted in degrees, counter-clockwise from the positive x axis.
//! What needs sines and cosines, the displacement that belongs to a speed
//! and an angle, is computed by the caller and handed in.
//!
//! - [`rectangle`], [`circle`]: the shapes.
//! - [`collision`]: a circle against one rectangle, and against a field of
//!   rectangles that it breaks.
//! - [`heading`]: the angle of the ball, and how contacts turn it.
//! - [`breakout`]: the brick-breaking game, tick by tick.
//! - [`game`]: the clock that tells how many ticks are due.
//! - [`input`], [`player`], [`tilemap`]: the keys, the tank and the tiles of
//!   the tank game.

pub mod units;
pub mod rectangle;
pub mod circle;
pub mod collision;
pub mod heading;
pub mod breakout;
pub mod game;
pub mod input;
pub mod player;
pub mod tilemap;
