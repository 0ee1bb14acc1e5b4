use mgmm::breakout::{
    Config, ConfigError, Event, Game, Input, Outcome, Paddle, BALL_RADIUS, KEY_LAUNCH, KEY_LEFT,
    KEY_RIGHT, MAX_COUNT, MAX_EXTENT, PADDLE_HEIGHT, PADDLE_WIDTH, WORLD_HEIGHT, WORLD_WIDTH,
};
use mgmm::circle::Circle;
use mgmm::heading::{Heading, Travel};
use mgmm::rectangle::Rectangle;
use mgmm::units::{REACH, UNIT};

fn standard_game() -> Game {
    Game::init(Config::standard()).unwrap()
}

/// A game of the standard world without blocks.
fn bare_game() -> Game {
    let mut game = standard_game();
    game.blocks.clear();
    game
}

fn travel(dx: i32, dy: i32) -> Travel {
    Travel { dx, dy }
}

/// The displacement of a ball that travels along an axis or a diagonal. On
/// a diagonal each part is the speed times 0.707, rounded towards zero.
fn project(heading: Heading) -> Travel {
    let s = heading.speed;
    let d = (s as i64 * 707 / 1000) as i32;
    match heading.angle {
        0 => travel(s, 0),
        45 => travel(d, d),
        90 => travel(0, s),
        135 => travel(-d, d),
        180 => travel(-s, 0),
        225 => travel(-d, -d),
        270 => travel(0, -s),
        315 => travel(d, -d),
        other => panic!("no displacement for the angle {}", other),
    }
}

#[test]
fn standard_config_is_the_classic_world() {
    let config = Config::standard();
    assert_eq!(UNIT, 1000);
    assert_eq!(config.world_width, 480_000);
    assert_eq!(config.world_height, 320_000);
    assert_eq!(config.paddle_width, 64_000);
    assert_eq!(config.paddle_height, 16_000);
    assert_eq!(config.paddle_velocity, 2_000);
    assert_eq!(config.ball_radius, 8_000);
    assert_eq!(config.block_width, 32_000);
    assert_eq!(config.block_height, 16_000);
    assert_eq!(config.block_gap, 4_000);
    assert_eq!(config.block_rows, 6);
    assert_eq!(config.even_row_blocks, 8);
    assert_eq!(config.odd_row_blocks, 7);
    assert_eq!(config.sticky_margin, 2_000);
    assert_eq!(config.launch_speed, 2_000);
    assert_eq!(config.speed_gain, 500);
    assert_eq!(config.validate(), Ok(()));
    assert_eq!(WORLD_WIDTH, 480 * UNIT);
    assert_eq!(WORLD_HEIGHT, 320 * UNIT);
}

#[test]
fn config_with_a_negative_value_is_refused() {
    let mut config = Config::standard();
    config.block_width = -1;
    assert_eq!(config.validate(), Err(ConfigError::Negative));
    assert_eq!(Game::init(config).err(), Some(ConfigError::Negative));
    let mut config = Config::standard();
    config.ball_radius = -8_000;
    assert_eq!(config.validate(), Err(ConfigError::Negative));
    let mut config = Config::standard();
    config.block_rows = -1;
    assert_eq!(config.validate(), Err(ConfigError::Negative));
    let mut config = Config::standard();
    config.speed_gain = i32::MIN;
    assert_eq!(config.validate(), Err(ConfigError::Negative));
}

#[test]
fn config_with_a_value_above_its_limit_is_refused() {
    let mut config = Config::standard();
    config.world_width = MAX_EXTENT + 1;
    assert_eq!(config.validate(), Err(ConfigError::TooLarge));
    assert_eq!(Game::init(config).err(), Some(ConfigError::TooLarge));
    let mut config = Config::standard();
    config.block_rows = MAX_COUNT + 1;
    assert_eq!(config.validate(), Err(ConfigError::TooLarge));
    let mut config = Config::standard();
    config.world_width = MAX_EXTENT;
    config.block_rows = MAX_COUNT;
    assert_eq!(config.validate(), Ok(()));
}

#[test]
fn config_with_a_paddle_wider_than_the_world_is_refused() {
    let mut config = Config::standard();
    config.paddle_width = config.world_width + 1;
    assert_eq!(config.validate(), Err(ConfigError::PaddleTooWide));
    assert_eq!(Game::init(config).err(), Some(ConfigError::PaddleTooWide));
    config.paddle_width = config.world_width;
    assert_eq!(config.validate(), Ok(()));
}

#[test]
fn config_with_a_row_wider_than_the_world_is_refused() {
    let mut config = Config::standard();
    // 14 blocks take 14 * 36 - 4 = 500 world units
    config.even_row_blocks = 14;
    assert_eq!(config.validate(), Err(ConfigError::RowTooWide));
    assert_eq!(Game::init(config).err(), Some(ConfigError::RowTooWide));
    let mut config = Config::standard();
    config.odd_row_blocks = 14;
    assert_eq!(config.validate(), Err(ConfigError::RowTooWide));
    // 13 blocks take 13 * 36 - 4 = 464 world units
    config.odd_row_blocks = 13;
    assert_eq!(config.validate(), Ok(()));
}

#[test]
fn config_faults_are_reported_in_order() {
    let mut config = Config::standard();
    config.paddle_width = MAX_EXTENT + 1;
    config.block_gap = -1;
    assert_eq!(config.validate(), Err(ConfigError::Negative));
    config.block_gap = 4_000;
    assert_eq!(config.validate(), Err(ConfigError::TooLarge));
    config.paddle_width = config.world_width + 1;
    config.even_row_blocks = 14;
    assert_eq!(config.validate(), Err(ConfigError::PaddleTooWide));
}

#[test]
fn init_puts_the_ball_at_rest_on_the_paddle() {
    let game = standard_game();
    assert_eq!(game.paddle, Paddle::new(Rectangle { x: 0, y: 0, width: 64_000, height: 16_000 }));
    assert_eq!(game.ball, Circle { x: 24_000, y: 16_000, r: 8_000 });
    assert_eq!(game.ball_speed, 0);
    assert_eq!(game.ball_angle, 0);
    assert_eq!(game.input, Input { left: false, right: false, launch: false });
    assert_eq!(game.config, Config::standard());
    assert!(game.is_wf());
    assert!(game.is_in_play());
}

#[test]
fn init_lays_the_blocks_out_in_rows_of_eight_and_seven() {
    let game = standard_game();
    assert_eq!(game.blocks.len(), 45);
    let block = |x: i32, y: i32| Rectangle { x, y, width: 32_000, height: 16_000 };
    // row 0: eight blocks from x = 98
    assert_eq!(game.blocks[0], block(98_000, 320_000));
    assert_eq!(game.blocks[1], block(134_000, 320_000));
    assert_eq!(game.blocks[7], block(350_000, 320_000));
    // row 1: seven blocks from x = 116
    assert_eq!(game.blocks[8], block(116_000, 300_000));
    assert_eq!(game.blocks[14], block(332_000, 300_000));
    // row 2
    assert_eq!(game.blocks[15], block(98_000, 280_000));
    // row 5, the last
    assert_eq!(game.blocks[38], block(116_000, 220_000));
    assert_eq!(game.blocks[44], block(332_000, 220_000));
}

#[test]
fn init_centres_every_row() {
    let game = standard_game();
    let config = game.config;
    let mut index = 0;
    for row in 0..config.block_rows {
        let count = if row % 2 == 0 { config.even_row_blocks } else { config.odd_row_blocks };
        let first = game.blocks[index];
        let last = game.blocks[index + count as usize - 1];
        assert_eq!(first.x, config.world_width - (last.x + last.width));
        for col in 0..count {
            let b = game.blocks[index + col as usize];
            assert_eq!(b.y, config.world_height - row * (config.block_height + config.block_gap));
            assert_eq!(b.x, first.x + col * (config.block_width + config.block_gap));
        }
        index += count as usize;
    }
    assert_eq!(index, game.blocks.len());
}

#[test]
fn init_without_blocks() {
    let mut config = Config::standard();
    config.block_rows = 0;
    assert!(Game::init(config).unwrap().blocks.is_empty());
    let mut config = Config::standard();
    config.even_row_blocks = 0;
    config.odd_row_blocks = 0;
    assert!(Game::init(config).unwrap().blocks.is_empty());
    let mut config = Config::standard();
    config.even_row_blocks = 0;
    assert_eq!(Game::init(config).unwrap().blocks.len(), 21);
}

#[test]
fn handle_event_sets_and_clears_what_is_asked_for() {
    let mut game = standard_game();
    game.handle_event(&Event::KeyboardInput { pressed: true, code: KEY_LEFT });
    assert_eq!(game.input, Input { left: true, right: false, launch: false });
    game.handle_event(&Event::KeyboardInput { pressed: true, code: KEY_RIGHT });
    assert_eq!(game.input, Input { left: true, right: true, launch: false });
    game.handle_event(&Event::KeyboardInput { pressed: true, code: KEY_LAUNCH });
    assert_eq!(game.input, Input { left: true, right: true, launch: true });
    game.handle_event(&Event::KeyboardInput { pressed: false, code: KEY_LEFT });
    assert_eq!(game.input, Input { left: false, right: true, launch: true });
    game.handle_event(&Event::KeyboardInput { pressed: false, code: KEY_LAUNCH });
    game.handle_event(&Event::KeyboardInput { pressed: false, code: KEY_RIGHT });
    assert_eq!(game.input, Input { left: false, right: false, launch: false });
}

#[test]
fn handle_event_reads_the_scan_codes_of_the_game_only() {
    assert_eq!((KEY_LEFT, KEY_RIGHT, KEY_LAUNCH), (38, 40, 65));
    let mut game = standard_game();
    game.handle_event(&Event::KeyboardInput { pressed: true, code: 39 });
    game.handle_event(&Event::KeyboardInput { pressed: true, code: 0 });
    game.handle_event(&Event::Other);
    assert_eq!(game.input, Input { left: false, right: false, launch: false });
    assert_eq!(game.ball, Circle { x: 24_000, y: 16_000, r: 8_000 });
    assert_eq!(game.blocks.len(), 45);
}

#[test]
fn launch_from_a_resting_paddle_goes_straight_up() {
    let mut game = standard_game();
    assert_eq!(game.ball.x, game.paddle.rect.x + 24 * UNIT);
    assert_eq!(game.ball.y, 16 * UNIT);
    assert_eq!(game.ball.r, 8 * UNIT);
    assert_eq!(game.paddle.rect.width, 64 * UNIT);
    game.input.launch = true;
    let heading = game.steer();
    assert_eq!(heading, Heading { angle: 90, speed: 2 * UNIT });
    assert_eq!(game.ball_angle, 90);
    assert_eq!(game.ball_speed, 2_000);
    assert_eq!(game.paddle.rect.x, 0);
    assert_eq!(game.ball.x, 24_000);
}

#[test]
fn launch_from_a_moving_paddle_goes_along_the_diagonal() {
    let mut game = standard_game();
    game.input.launch = true;
    game.input.right = true;
    assert_eq!(game.steer(), Heading { angle: 45, speed: 2_000 });
    assert_eq!(game.paddle.rect.x, 2_000);
    assert_eq!(game.ball.x, 26_000);
    game.input.right = false;
    game.input.left = true;
    assert_eq!(game.steer(), Heading { angle: 135, speed: 2_000 });
    assert_eq!(game.paddle.rect.x, 0);
    assert_eq!(game.ball.x, 24_000);
}

#[test]
fn launch_from_a_paddle_held_by_the_wall_goes_straight_up() {
    let mut game = standard_game();
    game.input.launch = true;
    game.input.left = true;
    assert_eq!(game.steer(), Heading { angle: 90, speed: 2_000 });
    assert_eq!(game.paddle.rect.x, 0);
}

#[test]
fn steer_moves_the_paddle_by_its_velocity() {
    let mut game = standard_game();
    game.input.right = true;
    for step in 1..=10 {
        game.steer();
        assert_eq!(game.paddle.rect.x, 2_000 * step);
        assert_eq!(game.ball.x, 24_000 + 2_000 * step);
    }
    game.input.right = false;
    game.input.left = true;
    game.steer();
    assert_eq!(game.paddle.rect.x, 18_000);
    game.input.left = false;
    assert_eq!(game.steer(), Heading { angle: 0, speed: 0 });
    assert_eq!(game.paddle.rect.x, 18_000);
    assert_eq!(game.ball.x, 42_000);
}

#[test]
fn steer_prefers_left_unless_the_paddle_is_at_the_left_wall() {
    let mut game = standard_game();
    game.input.left = true;
    game.input.right = true;
    game.steer();
    assert_eq!(game.paddle.rect.x, 2_000);
    game.steer();
    assert_eq!(game.paddle.rect.x, 0);
}

#[test]
fn steer_stops_the_paddle_at_the_walls() {
    let mut game = standard_game();
    game.paddle.rect.x = 415_000;
    game.input.right = true;
    game.steer();
    assert_eq!(game.paddle.rect.x, 416_000);
    assert_eq!(game.ball.x, 25_000);
    game.steer();
    assert_eq!(game.paddle.rect.x, 416_000);
    assert_eq!(game.ball.x, 25_000);
    game.paddle.rect.x = 500;
    game.input.right = false;
    game.input.left = true;
    game.steer();
    assert_eq!(game.paddle.rect.x, 0);
    assert_eq!(game.ball.x, 24_500);
    assert!(game.is_wf());
}

#[test]
fn steer_carries_the_ball_only_while_it_rests() {
    let mut game = standard_game();
    game.input.right = true;
    game.ball.y = 18_000;
    game.steer();
    assert_eq!(game.ball.x, 26_000);
    game.ball.y = 18_001;
    game.steer();
    assert_eq!(game.ball.x, 26_000);
    assert_eq!(game.paddle.rect.x, 4_000);
}

#[test]
fn steer_without_launch_keeps_the_heading() {
    let mut game = standard_game();
    game.ball_angle = 225;
    game.ball_speed = 3_500;
    game.ball.y = 100_000;
    assert_eq!(game.steer(), Heading { angle: 225, speed: 3_500 });
    assert_eq!(game.ball, Circle { x: 24_000, y: 100_000, r: 8_000 });
}

#[test]
fn ball_along_the_x_axis_bounces_off_the_right_wall() {
    let mut game = bare_game();
    // the ball's centre is at x = 472: it touches the wall at x = 480
    game.ball.x = 464_000;
    game.ball.y = 100_000;
    game.ball_angle = 0;
    game.ball_speed = 2_000;
    let outcome = game.advance(travel(2_000, 0));
    assert_eq!(outcome, Outcome::Bounced(Heading { angle: 90, speed: 2_000 }));
    assert_eq!(game.ball_angle, 90);
    assert_eq!(game.ball, Circle { x: 464_000, y: 100_000, r: 8_000 });
    assert_eq!(game.ball_speed, 2_000);
    game.rebound(travel(0, 2_000));
    assert_eq!(game.ball, Circle { x: 464_000, y: 102_000, r: 8_000 });
    assert_eq!(game.ball_speed, 2_500);
    assert_eq!(game.ball_angle, 90);
}

#[test]
fn ball_touches_the_right_wall_at_exactly_the_world_width() {
    let mut game = bare_game();
    game.ball.y = 100_000;
    game.ball_speed = 1_000;
    game.ball.x = 462_000;
    assert_eq!(game.advance(travel(1_999, 0)), Outcome::Moved);
    assert_eq!(game.ball.x, 463_999);
    assert_eq!(
        game.advance(travel(1, 0)),
        Outcome::Bounced(Heading { angle: 90, speed: 1_000 })
    );
    assert_eq!(game.ball.x, 463_999);
}

#[test]
fn ball_bounces_off_the_left_wall() {
    let mut game = bare_game();
    game.ball.x = 1_000;
    game.ball.y = 100_000;
    game.ball_angle = 180;
    game.ball_speed = 2_000;
    assert_eq!(
        game.advance(travel(-1_000, 0)),
        Outcome::Bounced(Heading { angle: 90, speed: 2_000 })
    );
    game.ball_angle = 225;
    assert_eq!(
        game.advance(travel(-1_414, -1_414)),
        Outcome::Bounced(Heading { angle: 45, speed: 2_000 })
    );
    game.ball_angle = 135;
    assert_eq!(
        game.advance(travel(-1_414, 1_414)),
        Outcome::Bounced(Heading { angle: 45, speed: 2_000 })
    );
}

#[test]
fn ball_bounces_off_the_ceiling() {
    let mut game = bare_game();
    game.ball.x = 200_000;
    game.ball.y = 303_000;
    game.ball_angle = 90;
    game.ball_speed = 2_000;
    assert_eq!(game.advance(travel(0, 999)), Outcome::Moved);
    assert_eq!(game.ball.y, 303_999);
    assert_eq!(
        game.advance(travel(0, 1)),
        Outcome::Bounced(Heading { angle: 270, speed: 2_000 })
    );
    assert_eq!(game.ball_angle, 270);
}

#[test]
fn ball_along_the_x_axis_that_grazes_the_ceiling_keeps_to_the_x_axis() {
    let mut game = bare_game();
    game.ball.x = 200_000;
    game.ball.y = 304_000;
    game.ball_angle = 0;
    game.ball_speed = 2_000;
    assert_eq!(
        game.advance(travel(2_000, 0)),
        Outcome::Bounced(Heading { angle: 0, speed: 2_000 })
    );
    assert_eq!(game.ball_angle, 0);
    assert!(game.is_wf());
}

#[test]
fn ball_that_slid_along_the_ceiling_turns_up_at_the_right_wall() {
    // the same direction of travel bounces the same way, however the ball
    // came by it
    let mut game = bare_game();
    game.ball.x = 200_000;
    game.ball.y = 304_000;
    game.ball_angle = 0;
    game.ball_speed = 2_000;
    game.advance(travel(2_000, 0));
    game.ball.x = 463_000;
    game.ball.y = 100_000;
    assert_eq!(
        game.advance(travel(2_000, 0)),
        Outcome::Bounced(Heading { angle: 90, speed: 2_000 })
    );
}

#[test]
fn ball_along_the_x_axis_in_the_upper_right_corner_turns_down() {
    let mut game = bare_game();
    game.ball.x = 463_000;
    game.ball.y = 304_000;
    game.ball_angle = 0;
    game.ball_speed = 2_000;
    assert_eq!(
        game.advance(travel(2_000, 0)),
        Outcome::Bounced(Heading { angle: 270, speed: 2_000 })
    );
}

#[test]
fn ball_in_the_upper_right_corner_turns_down() {
    let mut game = bare_game();
    game.ball.x = 463_000;
    game.ball.y = 303_000;
    game.ball_angle = 45;
    game.ball_speed = 2_000;
    assert_eq!(
        game.advance(travel(1_414, 1_414)),
        Outcome::Bounced(Heading { angle: 225, speed: 2_000 })
    );
}

#[test]
fn fallen_ball_comes_to_rest_on_the_paddle() {
    for &(angle, speed) in [(270, 7_000), (225, 1), (315, 500_000), (0, 0), (90, 2_000)].iter() {
        let mut game = standard_game();
        game.paddle.rect.x = 100_000;
        game.ball.x = 300_000;
        game.ball.y = 5_000;
        game.ball_angle = angle;
        game.ball_speed = speed;
        assert_eq!(game.advance(travel(3_000, -5_000)), Outcome::Lost);
        assert_eq!(game.ball_speed, 0);
        assert_eq!(game.ball.x, 100_000 + PADDLE_WIDTH / 2 - BALL_RADIUS);
        assert_eq!(game.ball.y, PADDLE_HEIGHT);
        assert_eq!(game.ball, Circle { x: 124_000, y: 16_000, r: 8_000 });
        assert_eq!(game.ball_angle, angle);
        assert_eq!(game.blocks.len(), 45);
    }
}

#[test]
fn ball_just_above_the_floor_is_not_lost() {
    let mut game = bare_game();
    game.ball.x = 300_000;
    game.ball.y = 5_000;
    game.ball_angle = 270;
    game.ball_speed = 4_999;
    assert_eq!(game.advance(travel(0, -4_999)), Outcome::Moved);
    assert_eq!(game.ball.y, 1);
    assert_eq!(game.advance(travel(0, -1)), Outcome::Lost);
    assert_eq!(game.ball, Circle { x: 24_000, y: 16_000, r: 8_000 });
}

#[test]
fn fallen_ball_does_not_bounce_off_the_wall() {
    let mut game = bare_game();
    game.ball.x = -5_000;
    game.ball.y = 1_000;
    game.ball_angle = 225;
    game.ball_speed = 3_000;
    assert_eq!(game.advance(travel(-2_000, -2_000)), Outcome::Lost);
    assert_eq!(game.ball_angle, 225);
    assert_eq!(game.ball_speed, 0);
}

#[test]
fn paddle_turns_a_falling_ball() {
    let mut game = bare_game();
    game.paddle.rect.x = 100_000;
    // the ball comes down onto the middle of the paddle
    game.ball.x = 124_000;
    game.ball.y = 17_000;
    game.ball_speed = 2_000;
    game.ball_angle = 270;
    assert_eq!(game.advance(travel(0, -2_000)), Outcome::Moved);
    assert_eq!(game.ball_angle, 90);
    assert_eq!(game.ball, Circle { x: 124_000, y: 15_000, r: 8_000 });
    assert_eq!(game.ball_speed, 2_000);
    game.ball.y = 17_000;
    game.ball_angle = 225;
    assert_eq!(game.advance(travel(-1_414, -1_414)), Outcome::Moved);
    assert_eq!(game.ball_angle, 135);
    game.ball.y = 17_000;
    game.ball_angle = 315;
    assert_eq!(game.advance(travel(1_414, -1_414)), Outcome::Moved);
    assert_eq!(game.ball_angle, 45);
}

#[test]
fn paddle_leaves_a_rising_ball_alone() {
    let mut game = bare_game();
    game.ball_speed = 2_000;
    game.ball_angle = 135;
    game.ball.x = 30_000;
    assert_eq!(game.advance(travel(-1_414, 1_414)), Outcome::Moved);
    assert_eq!(game.ball_angle, 135);
    assert_eq!(game.ball, Circle { x: 28_586, y: 17_414, r: 8_000 });
}

#[test]
fn paddle_out_of_reach_does_not_turn_the_ball() {
    let mut game = bare_game();
    game.ball.x = 300_000;
    game.ball.y = 17_000;
    game.ball_speed = 2_000;
    game.ball_angle = 270;
    assert_eq!(game.advance(travel(0, -2_000)), Outcome::Moved);
    assert_eq!(game.ball_angle, 270);
}

#[test]
fn ball_breaks_the_block_above_it() {
    let mut game = standard_game();
    // under the first block of the lowest row, which spans 116..148 by 220..236
    game.ball.x = 124_000;
    game.ball.y = 203_000;
    game.ball_angle = 90;
    game.ball_speed = 2_000;
    assert_eq!(game.advance(travel(0, 999)), Outcome::Moved);
    assert_eq!(game.blocks.len(), 45);
    assert_eq!(game.ball.y, 203_999);
    // the centre is now 8.001 below the block; one more step and it overlaps
    let outcome = game.advance(travel(0, 2));
    assert_eq!(outcome, Outcome::Bounced(Heading { angle: 270, speed: 2_000 }));
    assert_eq!(game.blocks.len(), 44);
    let gone = Rectangle { x: 116_000, y: 220_000, width: 32_000, height: 16_000 };
    assert!(!game.blocks.contains(&gone));
    assert_eq!(game.ball.y, 203_999);
    game.rebound(travel(0, -2_000));
    assert_eq!(game.ball.y, 201_999);
    assert_eq!(game.ball_speed, 2_500);
}

#[test]
fn advance_leaves_the_blocks_it_misses_as_they_are() {
    let mut game = standard_game();
    let before = game.blocks.clone();
    game.ball.x = 124_000;
    game.ball.y = 204_000;
    game.ball_angle = 90;
    game.ball_speed = 2_000;
    game.advance(travel(0, 2_000));
    let mut expected = before.clone();
    expected.remove(38);
    assert_eq!(game.blocks, expected);
}

#[test]
fn ball_between_two_blocks_breaks_both() {
    let mut game = standard_game();
    // under the gap between the first two blocks of the lowest row
    game.ball.x = 142_000;
    game.ball.y = 200_000;
    game.ball_angle = 90;
    game.ball_speed = 6_000;
    let outcome = game.advance(travel(0, 6_000));
    // top from both, left from the one, right from the other
    assert_eq!(outcome, Outcome::Bounced(Heading { angle: 270, speed: 6_000 }));
    assert_eq!(game.blocks.len(), 43);
}

#[test]
fn blocks_are_broken_even_when_the_ball_falls() {
    let mut game = bare_game();
    game.blocks.push(Rectangle { x: 300_000, y: -10_000, width: 32_000, height: 16_000 });
    game.blocks.push(Rectangle { x: 100_000, y: 100_000, width: 32_000, height: 16_000 });
    game.ball.x = 308_000;
    game.ball.y = 2_000;
    game.ball_speed = 3_000;
    game.ball_angle = 270;
    assert_eq!(game.advance(travel(0, -3_000)), Outcome::Lost);
    assert_eq!(
        game.blocks,
        vec![Rectangle { x: 100_000, y: 100_000, width: 32_000, height: 16_000 }]
    );
}

#[test]
fn rebound_moves_the_ball_and_adds_to_its_speed() {
    let mut game = bare_game();
    game.ball.x = 100_000;
    game.ball.y = 100_000;
    game.ball_speed = 2_000;
    game.ball_angle = 225;
    game.rebound(travel(-1_414, -1_414));
    assert_eq!(game.ball, Circle { x: 98_586, y: 98_586, r: 8_000 });
    assert_eq!(game.ball_speed, 2_500);
    assert_eq!(game.ball_angle, 225);
    game.rebound(travel(0, 0));
    assert_eq!(game.ball_speed, 3_000);
}

#[test]
fn tick_launches_and_moves_the_ball() {
    let mut game = standard_game();
    game.input.launch = true;
    assert_eq!(game.tick(project), Outcome::Moved);
    assert_eq!(game.ball, Circle { x: 24_000, y: 18_000, r: 8_000 });
    assert_eq!(game.ball_angle, 90);
    assert_eq!(game.ball_speed, 2_000);
    game.input.launch = false;
    assert_eq!(game.tick(project), Outcome::Moved);
    assert_eq!(game.ball.y, 20_000);
}

#[test]
fn tick_asks_for_the_displacement_of_the_new_heading_after_a_bounce() {
    let mut game = bare_game();
    game.ball.x = 463_000;
    game.ball.y = 100_000;
    game.ball_angle = 0;
    game.ball_speed = 2_000;
    let outcome = game.tick(project);
    assert_eq!(outcome, Outcome::Bounced(Heading { angle: 90, speed: 2_000 }));
    // moved up by the old speed, not to the right
    assert_eq!(game.ball, Circle { x: 463_000, y: 102_000, r: 8_000 });
    assert_eq!(game.ball_speed, 2_500);
    assert_eq!(game.tick(project), Outcome::Moved);
    assert_eq!(game.ball, Circle { x: 463_000, y: 104_500, r: 8_000 });
}

#[test]
fn tick_equals_its_three_parts() {
    let mut whole = standard_game();
    let mut parts = standard_game();
    whole.input.launch = true;
    parts.input.launch = true;
    whole.input.right = true;
    parts.input.right = true;
    for round in 0..400 {
        if round == 1 {
            whole.input.launch = false;
            parts.input.launch = false;
        }
        if !whole.is_in_play() {
            break;
        }
        let outcome = whole.tick(project);
        let heading = parts.steer();
        let found = parts.advance(project(heading));
        if let Outcome::Bounced(turned) = found {
            parts.rebound(project(turned));
        }
        assert_eq!(outcome, found);
        assert_eq!(whole.ball, parts.ball);
        assert_eq!(whole.paddle, parts.paddle);
        assert_eq!(whole.blocks, parts.blocks);
        assert_eq!(whole.ball_angle, parts.ball_angle);
        assert_eq!(whole.ball_speed, parts.ball_speed);
    }
}

#[test]
fn a_game_played_for_a_while_keeps_its_invariant() {
    let mut game = standard_game();
    game.input.launch = true;
    game.input.right = true;
    let mut blocks = game.blocks.len();
    let mut bounces = 0;
    for round in 0..3_000 {
        if round == 1 {
            game.input.launch = false;
        }
        if round % 300 == 0 {
            game.input.right = !game.input.right;
            game.input.left = !game.input.right;
        }
        assert!(game.is_in_play());
        let speed = game.ball_speed;
        match game.tick(project) {
            Outcome::Lost => {
                assert_eq!(game.ball_speed, 0);
                assert_eq!(game.ball.y, PADDLE_HEIGHT);
                game.input.launch = true;
            }
            Outcome::Moved => {
                if !game.input.launch {
                    assert_eq!(game.ball_speed, speed);
                }
                game.input.launch = false;
            }
            Outcome::Bounced(_) => {
                bounces += 1;
                assert_eq!(game.ball_speed, if game.input.launch { 2_500 } else { speed + 500 });
                game.input.launch = false;
            }
        }
        assert!(game.is_wf());
        assert!(0 <= game.paddle.rect.x && game.paddle.rect.x <= 416_000);
        assert!(0 <= game.ball_angle && game.ball_angle < 360);
        assert_eq!(game.ball_angle % 45, 0);
        assert!(game.blocks.len() <= blocks);
        blocks = game.blocks.len();
    }
    assert!(bounces > 0);
    assert!(blocks < 45);
}

#[test]
fn is_wf_finds_a_broken_invariant() {
    let mut game = standard_game();
    assert!(game.is_wf());
    game.paddle.rect.x = -1;
    assert!(!game.is_wf());
    game.paddle.rect.x = 416_001;
    assert!(!game.is_wf());
    game.paddle.rect.x = 416_000;
    assert!(game.is_wf());
    game.ball_speed = -1;
    assert!(!game.is_wf());
    game.ball_speed = 0;
    game.ball_angle = 360;
    assert!(!game.is_wf());
    game.ball_angle = -1;
    assert!(!game.is_wf());
    game.ball_angle = 359;
    assert!(game.is_wf());
    game.ball.r = 7_999;
    assert!(!game.is_wf());
    game.ball.r = 8_000;
    game.paddle.rect.width = 63_000;
    assert!(!game.is_wf());
    game.paddle.rect.width = 64_000;
    game.config.world_width = -1;
    assert!(!game.is_wf());
}

#[test]
fn is_in_play_holds_up_to_the_reach() {
    let mut game = standard_game();
    game.ball.x = REACH - MAX_EXTENT;
    game.ball.y = -(REACH - MAX_EXTENT);
    game.ball_speed = REACH;
    assert!(game.is_in_play());
    game.ball.x = REACH - MAX_EXTENT + 1;
    assert!(!game.is_in_play());
    game.ball.x = 0;
    game.ball.y = -(REACH - MAX_EXTENT) - 1;
    assert!(!game.is_in_play());
    game.ball.y = 0;
    game.ball_speed = REACH + 1;
    assert!(!game.is_in_play());
}

#[test]
fn a_tick_at_the_edge_of_the_reach_stays_in_range() {
    let mut game = bare_game();
    game.ball.x = REACH - MAX_EXTENT;
    game.ball.y = REACH - MAX_EXTENT;
    game.ball_speed = REACH;
    game.ball_angle = 45;
    game.input.right = true;
    let outcome = game.tick(|_| travel(REACH, REACH));
    assert_eq!(outcome, Outcome::Bounced(Heading { angle: 225, speed: REACH }));
    assert_eq!(game.ball.x, 2 * REACH - MAX_EXTENT);
    assert_eq!(game.ball_speed, REACH + 500);
}
