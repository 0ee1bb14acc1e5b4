//! What holds of every game: of the layout of its blocks, of its
//! invariant, and of the angle of its ball.

use vstd::prelude::*;
use crate::breakout::config::Config;
use crate::breakout::state::{GameState, Outcome};
use crate::collision::{lemma_survivors_are_the_missed, overlaps};
use crate::heading::{
    is_normalized, lemma_paddle_deflection_normalized,
    lemma_resolution_normalized, Travel, QUARTER_TURN,
};
use crate::rectangle::Rectangle;

verus! {

/// Every row of blocks stands in the middle of the world's width: the
/// space to its left is the space to its right, or one sub-unit less where
/// the two cannot be equal.
pub proof fn lemma_rows_are_centred(config: Config, row: int)
    requires
        config.valid(),
    ensures
        0 <= config.row_left(row),
        config.row_left(row) <= config.world_width - config.row_left(row) - config.row_width(
            config.blocks_in_row(row),
        ) <= config.row_left(row) + 1,
{
}

/// The field holds the blocks row after row, and each row from the left:
/// the block in row `row` and column `col` comes after all the blocks of
/// the rows before it and after `col` blocks of its own row.
pub proof fn lemma_field_is_in_reading_order(config: Config, rows: int, row: int, col: int)
    requires
        config.valid(),
        0 <= row < rows,
        0 <= col < config.blocks_in_row(row),
    ensures
        config.field(rows).len() == config.blocks_before(rows),
        0 <= config.blocks_before(row) + col < config.field(rows).len(),
        config.field(rows)[config.blocks_before(row) + col] == config.block_at(row, col),
    decreases rows,
{
    lemma_field_len(config, rows);
    lemma_field_len(config, rows - 1);
    lemma_field_len(config, row);
    if row < rows - 1 {
        lemma_field_is_in_reading_order(config, rows - 1, row, col);
    }
}

/// The field of the first `rows` rows holds as many blocks as the rows
/// have.
pub proof fn lemma_field_len(config: Config, rows: int)
    requires
        config.valid(),
    ensures
        config.field(rows).len() == config.blocks_before(rows),
        config.blocks_before(rows) >= 0,
    decreases rows,
{
    if rows > 0 {
        lemma_field_len(config, rows - 1);
    }
}

/// A tick keeps the invariant of a game: the paddle stays within the
/// world's width, the speed stays at or above zero, the angle stays in
/// normal form, and paddle and ball keep their sizes.
pub proof fn lemma_tick_keeps_invariant(state: GameState, first: Travel, second: Travel)
    requires
        state.wf(),
        state.in_play(),
        first.within_reach(),
        second.within_reach(),
    ensures
        state.steer().wf(),
        state.steer().advance(first).wf(),
        state.tick(first, second).wf(),
{
}

/// A block stands after the ball's move exactly when it stood before and
/// the ball, moved by `travel`, does not overlap it.
pub proof fn lemma_block_stands_iff_missed(state: GameState, travel: Travel, block: Rectangle)
    ensures
        state.advance(travel).blocks.contains(block) <==> (state.blocks.contains(block)
            && !overlaps(
            state.centre_x_after(travel),
            state.centre_y_after(travel),
            state.ball.r as int,
            block,
        )),
{
    lemma_survivors_are_the_missed(
        state.centre_x_after(travel),
        state.centre_y_after(travel),
        state.ball.r as int,
        state.blocks,
        block,
    );
}

/// The ball's move keeps a normalized angle normalized, whatever the ball
/// meets.
pub proof fn lemma_advance_keeps_angle_normalized(state: GameState, travel: Travel)
    requires
        is_normalized(state.ball_angle as int),
    ensures
        is_normalized(state.advance(travel).ball_angle as int),
{
    lemma_paddle_deflection_normalized(state.ball_angle as int);
    lemma_resolution_normalized(state.angle_off_paddle(travel), state.contact(travel));
}

/// A whole tick keeps a normalized angle normalized: after every tick the
/// angle of the ball is at least 0 and less than a full turn.
pub proof fn lemma_tick_keeps_angle_normalized(state: GameState, first: Travel, second: Travel)
    requires
        is_normalized(state.ball_angle as int),
    ensures
        is_normalized(state.tick(first, second).ball_angle as int),
{
    lemma_advance_keeps_angle_normalized(state.steer(), first);
}

/// A launch sets the speed to the launch speed, and from a paddle that is
/// not asked to move it sends the ball straight up.
pub proof fn lemma_launch(state: GameState)
    requires
        state.input.launch,
    ensures
        state.steer().ball_speed == state.config.launch_speed,
        !state.input.left && !state.input.right ==> state.steer().ball_angle == QUARTER_TURN,
{
}

/// A ball that falls comes to rest on the middle of the paddle, with no
/// speed, whatever its angle and speed were.
pub proof fn lemma_fallen_ball_rests(state: GameState, travel: Travel)
    requires
        state.falls(travel),
    ensures
        state.outcome(travel) == Outcome::Lost,
        state.advance(travel).ball_speed == 0,
        state.advance(travel).ball == GameState::resting_ball(
            state.config,
            state.paddle.rect.x as int,
        ),
        state.advance(travel).ball_angle == state.ball_angle,
{
}

} // verus!
