//! The brick-breaking game: a ball that bounces between a paddle, three
//! walls and a field of blocks.
//!
//! A tick of the game needs the displacement of the ball for its heading,
//! which is a matter of sines and cosines and is computed outside this
//! library. So a tick comes in parts: `Game::steer` moves the paddle and
//! tells the heading; `Game::advance` takes the displacement for it, sweeps
//! the blocks and turns or moves the ball; `Game::rebound` takes the
//! displacement of a ball that has turned. `Game::tick` goes through the
//! parts with a function that computes the displacements.

pub mod config;
pub mod laws;
pub mod play;
pub mod state;

pub use self::config::{
    Config, ConfigError, BALL_RADIUS, BLOCK_GAP, BLOCK_HEIGHT, BLOCK_ROWS, BLOCK_WIDTH,
    EVEN_ROW_BLOCKS, LAUNCH_SPEED, MAX_COUNT, MAX_EXTENT, ODD_ROW_BLOCKS, PADDLE_HEIGHT,
    PADDLE_VELOCITY, PADDLE_WIDTH, SPEED_GAIN, STICKY_MARGIN, WORLD_HEIGHT, WORLD_WIDTH,
};
pub use self::play::Game;
pub use self::state::{
    Event, GameState, Input, Outcome, Paddle, KEY_LAUNCH, KEY_LEFT, KEY_RIGHT,
};
