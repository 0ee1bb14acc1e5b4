//! The fixed values of a game world, their limits, and the layout of the
//! blocks.

use vstd::prelude::*;
use crate::rectangle::Rectangle;
use crate::units::UNIT;

verus! {

/// The largest extent, speed or gap that a configuration may name.
pub const MAX_EXTENT: i32 = 0x10_0000;

/// The largest number of rows, and of blocks in a row, that a configuration
/// may name.
pub const MAX_COUNT: i32 = 1000;

/// The classic world: 480 world units wide.
pub const WORLD_WIDTH: i32 = 480 * UNIT;

/// The classic world: 320 world units high.
pub const WORLD_HEIGHT: i32 = 320 * UNIT;

/// The classic paddle moves 2 world units in a tick.
pub const PADDLE_VELOCITY: i32 = 2 * UNIT;

/// The classic paddle: 64 world units wide.
pub const PADDLE_WIDTH: i32 = 64 * UNIT;

/// The classic paddle: 16 world units high.
pub const PADDLE_HEIGHT: i32 = 16 * UNIT;

/// The classic block: 32 world units wide.
pub const BLOCK_WIDTH: i32 = 32 * UNIT;

/// The classic block: 16 world units high.
pub const BLOCK_HEIGHT: i32 = 16 * UNIT;

/// The classic gap between blocks: 4 world units.
pub const BLOCK_GAP: i32 = 4 * UNIT;

/// The classic field has six rows of blocks,
pub const BLOCK_ROWS: i32 = 6;

/// eight blocks in the rows 0, 2 and 4,
pub const EVEN_ROW_BLOCKS: i32 = 8;

/// and seven in the rows 1, 3 and 5.
pub const ODD_ROW_BLOCKS: i32 = 7;

/// The classic ball: a radius of 8 world units.
pub const BALL_RADIUS: i32 = 8 * UNIT;

/// The classic ball rests on the paddle up to 2 world units above it.
pub const STICKY_MARGIN: i32 = 2 * UNIT;

/// The classic launch: 2 world units in a tick.
pub const LAUNCH_SPEED: i32 = 2 * UNIT;

/// The classic bounce adds half a world unit in a tick.
pub const SPEED_GAIN: i32 = 500;

/// The fixed values of a game world.
#[derive(Clone, Copy, Debug, PartialEq, Eq, Structural)]
pub struct Config {
    pub world_width: i32,
    pub world_height: i32,
    pub paddle_width: i32,
    pub paddle_height: i32,
    /// How far the paddle moves in one tick.
    pub paddle_velocity: i32,
    pub ball_radius: i32,
    pub block_width: i32,
    pub block_height: i32,
    /// The space between two neighbouring blocks, across and upwards.
    pub block_gap: i32,
    /// The number of rows of blocks.
    pub block_rows: i32,
    /// The number of blocks in the rows 0, 2, 4, ...
    pub even_row_blocks: i32,
    /// The number of blocks in the rows 1, 3, 5, ...
    pub odd_row_blocks: i32,
    /// How far above the paddle's upper edge the ball still counts as
    /// resting on it.
    pub sticky_margin: i32,
    /// The speed that a launch gives the ball.
    pub launch_speed: i32,
    /// What every bounce adds to the ball's speed.
    pub speed_gain: i32,
}

/// Why a configuration is refused.
#[derive(Clone, Copy, Debug, PartialEq, Eq, Structural)]
pub enum ConfigError {
    /// A value is negative.
    Negative,
    /// An extent is above `MAX_EXTENT`, or a count above `MAX_COUNT`.
    TooLarge,
    /// The paddle is wider than the world.
    PaddleTooWide,
    /// A row of blocks is wider than the world.
    RowTooWide,
}

impl Config {
    /// Whether any value is negative.
    pub open spec fn has_negative(self) -> bool {
        ||| self.world_width < 0
        ||| self.world_height < 0
        ||| self.paddle_width < 0
        ||| self.paddle_height < 0
        ||| self.paddle_velocity < 0
        ||| self.ball_radius < 0
        ||| self.block_width < 0
        ||| self.block_height < 0
        ||| self.block_gap < 0
        ||| self.block_rows < 0
        ||| self.even_row_blocks < 0
        ||| self.odd_row_blocks < 0
        ||| self.sticky_margin < 0
        ||| self.launch_speed < 0
        ||| self.speed_gain < 0
    }

    /// Whether any value is above its limit.
    pub open spec fn has_too_large(self) -> bool {
        ||| self.world_width > MAX_EXTENT
        ||| self.world_height > MAX_EXTENT
        ||| self.paddle_width > MAX_EXTENT
        ||| self.paddle_height > MAX_EXTENT
        ||| self.paddle_velocity > MAX_EXTENT
        ||| self.ball_radius > MAX_EXTENT
        ||| self.block_width > MAX_EXTENT
        ||| self.block_height > MAX_EXTENT
        ||| self.block_gap > MAX_EXTENT
        ||| self.block_rows > MAX_COUNT
        ||| self.even_row_blocks > MAX_COUNT
        ||| self.odd_row_blocks > MAX_COUNT
        ||| self.sticky_margin > MAX_EXTENT
        ||| self.launch_speed > MAX_EXTENT
        ||| self.speed_gain > MAX_EXTENT
    }

    /// The width of `count` blocks side by side with a gap between each two.
    pub open spec fn row_width(self, count: int) -> int {
        count * (self.block_width + self.block_gap) - self.block_gap
    }

    /// Whether a row of blocks is wider than the world.
    pub open spec fn has_wide_row(self) -> bool {
        ||| self.row_width(self.even_row_blocks as int) > self.world_width
        ||| self.row_width(self.odd_row_blocks as int) > self.world_width
    }

    /// The first fault of the configuration, if it has one.
    pub open spec fn fault(self) -> Option<ConfigError> {
        if self.has_negative() {
            Some(ConfigError::Negative)
        } else if self.has_too_large() {
            Some(ConfigError::TooLarge)
        } else if self.paddle_width > self.world_width {
            Some(ConfigError::PaddleTooWide)
        } else if self.has_wide_row() {
            Some(ConfigError::RowTooWide)
        } else {
            None
        }
    }

    /// A configuration is valid when it has no fault.
    pub open spec fn valid(self) -> bool {
        self.fault() is None
    }

    /// The number of blocks in the row `row`, counted from 0.
    pub open spec fn blocks_in_row(self, row: int) -> int {
        if row % 2 == 0 {
            self.even_row_blocks as int
        } else {
            self.odd_row_blocks as int
        }
    }

    /// Where the row `row` begins, so that it stands in the middle of the
    /// world's width.
    pub open spec fn row_left(self, row: int) -> int {
        (self.world_width - self.row_width(self.blocks_in_row(row))) / 2
    }

    /// The block in row `row` and column `col`. Row 0 has its lower edge on
    /// the world's upper edge, and each further row lies one block and one
    /// gap lower.
    pub open spec fn block_at(self, row: int, col: int) -> Rectangle {
        Rectangle {
            x: (self.row_left(row) + (self.block_width + self.block_gap) * col) as i32,
            y: (self.world_height - row * (self.block_height + self.block_gap)) as i32,
            width: self.block_width,
            height: self.block_height,
        }
    }

    /// The first `count` blocks of the row `row`, from the left.
    pub open spec fn row_of_blocks(self, row: int, count: int) -> Seq<Rectangle> {
        Seq::new(count as nat, |col: int| self.block_at(row, col))
    }

    /// The blocks of the first `rows` rows, row after row.
    pub open spec fn field(self, rows: int) -> Seq<Rectangle>
        decreases rows,
    {
        if rows <= 0 {
            Seq::empty()
        } else {
            self.field(rows - 1) + self.row_of_blocks(rows - 1, self.blocks_in_row(rows - 1))
        }
    }

    /// The number of blocks in the first `rows` rows.
    pub open spec fn blocks_before(self, rows: int) -> int
        decreases rows,
    {
        if rows <= 0 {
            0
        } else {
            self.blocks_before(rows - 1) + self.blocks_in_row(rows - 1)
        }
    }

    /// The world of the classic game.
    pub fn standard() -> (config: Config)
        ensures
            config.valid(),
            config.world_width == WORLD_WIDTH,
            config.world_height == WORLD_HEIGHT,
            config.paddle_width == PADDLE_WIDTH,
            config.paddle_height == PADDLE_HEIGHT,
            config.paddle_velocity == PADDLE_VELOCITY,
            config.ball_radius == BALL_RADIUS,
            config.block_width == BLOCK_WIDTH,
            config.block_height == BLOCK_HEIGHT,
            config.block_gap == BLOCK_GAP,
            config.block_rows == BLOCK_ROWS,
            config.even_row_blocks == EVEN_ROW_BLOCKS,
            config.odd_row_blocks == ODD_ROW_BLOCKS,
            config.sticky_margin == STICKY_MARGIN,
            config.launch_speed == LAUNCH_SPEED,
            config.speed_gain == SPEED_GAIN,
    {
        let config = Config {
            world_width: WORLD_WIDTH,
            world_height: WORLD_HEIGHT,
            paddle_width: PADDLE_WIDTH,
            paddle_height: PADDLE_HEIGHT,
            paddle_velocity: PADDLE_VELOCITY,
            ball_radius: BALL_RADIUS,
            block_width: BLOCK_WIDTH,
            block_height: BLOCK_HEIGHT,
            block_gap: BLOCK_GAP,
            block_rows: BLOCK_ROWS,
            even_row_blocks: EVEN_ROW_BLOCKS,
            odd_row_blocks: ODD_ROW_BLOCKS,
            sticky_margin: STICKY_MARGIN,
            launch_speed: LAUNCH_SPEED,
            speed_gain: SPEED_GAIN,
        };
        assert(config.row_width(8) == 284_000) by (nonlinear_arith)
            requires
                config.block_width == 32_000,
                config.block_gap == 4_000,
        ;
        assert(config.row_width(7) == 248_000) by (nonlinear_arith)
            requires
                config.block_width == 32_000,
                config.block_gap == 4_000,
        ;
        config
    }

    /// Looks for the first fault of the configuration.
    pub fn validate(&self) -> (r: Result<(), ConfigError>)
        ensures
            r is Ok <==> self.valid(),
            r matches Err(e) ==> self.fault() == Some(e),
    {
        if self.world_width < 0 || self.world_height < 0 || self.paddle_width < 0
            || self.paddle_height < 0 || self.paddle_velocity < 0 || self.ball_radius < 0
            || self.block_width < 0 || self.block_height < 0 || self.block_gap < 0
            || self.block_rows < 0 || self.even_row_blocks < 0 || self.odd_row_blocks < 0
            || self.sticky_margin < 0 || self.launch_speed < 0 || self.speed_gain < 0 {
            return Err(ConfigError::Negative);
        }
        if self.world_width > MAX_EXTENT || self.world_height > MAX_EXTENT || self.paddle_width
            > MAX_EXTENT || self.paddle_height > MAX_EXTENT || self.paddle_velocity > MAX_EXTENT
            || self.ball_radius > MAX_EXTENT || self.block_width > MAX_EXTENT || self.block_height
            > MAX_EXTENT || self.block_gap > MAX_EXTENT || self.block_rows > MAX_COUNT
            || self.even_row_blocks > MAX_COUNT || self.odd_row_blocks > MAX_COUNT
            || self.sticky_margin > MAX_EXTENT || self.launch_speed > MAX_EXTENT || self.speed_gain
            > MAX_EXTENT {
            return Err(ConfigError::TooLarge);
        }
        if self.paddle_width > self.world_width {
            return Err(ConfigError::PaddleTooWide);
        }
        let pitch: i64 = self.block_width as i64 + self.block_gap as i64;
        let even: i64 = self.even_row_blocks as i64;
        let odd: i64 = self.odd_row_blocks as i64;
        assert(0 <= even * pitch <= 1000 * 0x20_0000) by (nonlinear_arith)
            requires
                0 <= even <= 1000,
                0 <= pitch <= 0x20_0000,
        ;
        assert(0 <= odd * pitch <= 1000 * 0x20_0000) by (nonlinear_arith)
            requires
                0 <= odd <= 1000,
                0 <= pitch <= 0x20_0000,
        ;
        if even * pitch - self.block_gap as i64 > self.world_width as i64 || odd * pitch
            - self.block_gap as i64 > self.world_width as i64 {
            return Err(ConfigError::RowTooWide);
        }
        Ok(())
    }
}

} // verus!
