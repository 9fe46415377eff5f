//! Scenario and edge-case tests for the pong core.
//!
//! Positions are in milliunits (thousandths of a unit), velocities in units
//! per second, elapsed times in milliseconds.

use pong::field::{BALL_X_EXIT, BALL_Y_BOUND, PADDLE_Y_BOUND};
use pong::input::{input_decoder, Inputs, PaddleInputs};
use pong::systems::{
    ball_limiter, ball_limiter_horizontal, ball_limiter_vertical, ball_paddle_collider, frame,
    handle_inputs, integrate, movement, paddle_controller, paddle_limiter,
};
use pong::world::{Ball, Paddle, Player, Vec2, World};

fn ball_at(x: i64, y: i64, vx: i64, vy: i64) -> Ball {
    Ball { pos: Vec2 { x, y }, vel: Vec2 { x: vx, y: vy } }
}

fn paddle_at(side: Player, x: i64, y: i64) -> Paddle {
    Paddle { side, pos: Vec2 { x, y }, vel: Vec2 { x: 0, y: 0 } }
}

fn keys(left_up: bool, left_down: bool, right_up: bool, right_down: bool) -> Inputs {
    let mut inputs = Inputs::default();
    input_decoder(&mut inputs, left_up, left_down, right_up, right_down);
    inputs
}

// --- input snapshot ---

#[test]
fn default_inputs_all_false() {
    let inputs = Inputs::default();
    assert!(!inputs.left.up);
    assert!(!inputs.left.down);
    assert!(!inputs.right.up);
    assert!(!inputs.right.down);
}

#[test]
fn input_decoder_overwrites_every_field() {
    let mut inputs = Inputs {
        left: PaddleInputs::new(true, true),
        right: PaddleInputs::new(true, true),
    };
    input_decoder(&mut inputs, false, true, false, false);
    assert!(!inputs.left.up);
    assert!(inputs.left.down);
    assert!(!inputs.right.up);
    assert!(!inputs.right.down);
}

// --- paddle controller ---

#[test]
fn controller_up_sets_positive_velocity() {
    let mut paddle = paddle_at(Player::Left, -500_000, 0);
    paddle_controller(&mut paddle, &keys(true, false, false, false), 400);
    assert_eq!(paddle.vel.y, 400);
    assert_eq!(paddle.vel.x, 0);
}

#[test]
fn controller_down_sets_negative_velocity() {
    let mut paddle = paddle_at(Player::Right, 500_000, 0);
    paddle_controller(&mut paddle, &keys(false, false, false, true), 400);
    assert_eq!(paddle.vel.y, -400);
}

#[test]
fn controller_reads_own_side_only() {
    let mut paddle = paddle_at(Player::Right, 500_000, 0);
    paddle_controller(&mut paddle, &keys(true, false, false, false), 400);
    assert_eq!(paddle.vel.y, 0);
}

#[test]
fn controller_overwrites_last_frame() {
    let mut paddle = paddle_at(Player::Left, -500_000, 0);
    paddle.vel.y = 400;
    paddle_controller(&mut paddle, &keys(false, false, false, false), 400);
    assert_eq!(paddle.vel.y, 0);
}

#[test]
fn both_keys_pressed_cancel_to_zero() {
    let mut paddle = paddle_at(Player::Left, -500_000, 0);
    paddle_controller(&mut paddle, &keys(true, true, false, false), 400);
    assert_eq!(paddle.vel.y, 0);
}

// --- integrator ---

#[test]
fn integrator_advances_exactly() {
    let mut pos = Vec2 { x: 3, y: -4 };
    integrate(&mut pos, Vec2 { x: 5, y: 7 }, 9);
    assert_eq!(pos.x, 48);
    assert_eq!(pos.y, 59);
}

#[test]
fn integrator_zero_elapsed_is_identity() {
    let mut pos = Vec2 { x: 123, y: -456 };
    integrate(&mut pos, Vec2 { x: 999, y: -999 }, 0);
    assert_eq!(pos.x, 123);
    assert_eq!(pos.y, -456);
}

// --- paddle limiter ---

#[test]
fn paddle_limiter_clamps_high() {
    let mut paddle = paddle_at(Player::Left, -500_000, PADDLE_Y_BOUND + 1);
    paddle_limiter(&mut paddle);
    assert_eq!(paddle.pos.y, PADDLE_Y_BOUND);
}

#[test]
fn paddle_limiter_clamps_low() {
    let mut paddle = paddle_at(Player::Left, -500_000, -PADDLE_Y_BOUND - 77_000);
    paddle_limiter(&mut paddle);
    assert_eq!(paddle.pos.y, -PADDLE_Y_BOUND);
}

#[test]
fn paddle_limiter_keeps_inside_position() {
    let mut paddle = paddle_at(Player::Right, 500_000, 12_345);
    paddle_limiter(&mut paddle);
    assert_eq!(paddle.pos.y, 12_345);
}

// --- ball limiter ---

#[test]
fn ball_bounces_off_top() {
    let mut ball = ball_at(0, BALL_Y_BOUND + 48_000, 150, 150);
    ball_limiter(&mut ball);
    assert_eq!(ball.pos.y, BALL_Y_BOUND);
    assert_eq!(ball.vel.y, -150);
    assert_eq!(ball.pos.x, 0);
    assert_eq!(ball.vel.x, 150);
}

#[test]
fn ball_bounces_off_bottom() {
    let mut ball = ball_at(10_000, -BALL_Y_BOUND - 1, 150, -150);
    ball_limiter(&mut ball);
    assert_eq!(ball.pos.y, -BALL_Y_BOUND);
    assert_eq!(ball.vel.y, 150);
}

#[test]
fn ball_inside_bounds_keeps_velocity_sign() {
    let mut ball = ball_at(10_000, 20_000, 150, -150);
    ball_limiter(&mut ball);
    assert_eq!(ball.pos.x, 10_000);
    assert_eq!(ball.pos.y, 20_000);
    assert_eq!(ball.vel.x, 150);
    assert_eq!(ball.vel.y, -150);
}

#[test]
fn ball_exactly_on_bound_is_untouched() {
    let mut ball = ball_at(0, BALL_Y_BOUND, 150, 150);
    ball_limiter(&mut ball);
    assert_eq!(ball.pos.y, BALL_Y_BOUND);
    assert_eq!(ball.vel.y, 150);
}

#[test]
fn ball_exit_right_recenters_and_reverses() {
    // One milliunit beyond a whole unit past the bound: x = 649 units.
    let mut ball = ball_at(649_000, 5_000, 100, 100);
    ball_limiter(&mut ball);
    assert_eq!(ball.pos.x, 0);
    assert_eq!(ball.pos.y, 0);
    assert_eq!(ball.vel.x, -100);
    assert_eq!(ball.vel.y, 100);
}

#[test]
fn ball_exit_left_recenters_and_reverses() {
    let mut ball = ball_at(-BALL_X_EXIT - 1, -30_000, -250, 40);
    ball_limiter(&mut ball);
    assert_eq!(ball.pos.x, 0);
    assert_eq!(ball.pos.y, 0);
    assert_eq!(ball.vel.x, 250);
    assert_eq!(ball.vel.y, 40);
}

#[test]
fn ball_exactly_at_exit_bound_stays() {
    let mut ball = ball_at(BALL_X_EXIT, 0, 100, 100);
    ball_limiter(&mut ball);
    assert_eq!(ball.pos.x, BALL_X_EXIT);
    assert_eq!(ball.vel.x, 100);
}

#[test]
fn ball_five_second_step_bounces_vertically() {
    // Ball at the centre, velocity (150, 150), five whole seconds: the move
    // reaches (750, 750) units; the vertical step clamps to 352 units and
    // inverts the vertical velocity.
    let mut ball = ball_at(0, 0, 150, 150);
    let vel = ball.vel;
    integrate(&mut ball.pos, vel, 5_000);
    assert_eq!(ball.pos.x, 750_000);
    assert_eq!(ball.pos.y, 750_000);
    ball_limiter_vertical(&mut ball);
    assert_eq!(ball.pos.y, BALL_Y_BOUND);
    assert_eq!(ball.pos.y, 352_000);
    assert_eq!(ball.vel.y, -150);
    // Having also fully left the field on the right, the horizontal step then
    // recenters it and reverses the horizontal velocity.
    ball_limiter_horizontal(&mut ball);
    assert_eq!(ball.pos.x, 0);
    assert_eq!(ball.pos.y, 0);
    assert_eq!(ball.vel.x, -150);
    assert_eq!(ball.vel.y, -150);
}

// --- ball-paddle collider ---

#[test]
fn collider_flips_horizontal_velocity_once() {
    // Overlap under the corner-based test: the paddle position counts as a
    // corner, so a ball just left of it and slightly below overlaps.
    let ball_start = ball_at(490_000, 0, 100, 30);
    let paddle = paddle_at(Player::Right, 500_000, 0);
    let mut ball = ball_start;
    ball_paddle_collider(&mut ball, &paddle);
    assert_eq!(ball.vel.x, -100);
    assert_eq!(ball.vel.y, 30);
    assert_eq!(ball.pos.x, ball_start.pos.x);
    assert_eq!(ball.pos.y, ball_start.pos.y);
}

#[test]
fn collider_no_overlap_no_flip() {
    let paddle = paddle_at(Player::Right, 500_000, 0);
    let mut ball = ball_at(400_000, 0, 100, 0);
    ball_paddle_collider(&mut ball, &paddle);
    assert_eq!(ball.vel.x, 100);
}

#[test]
fn collider_test_is_asymmetric() {
    // The ball sits above the paddle position by less than the ball diameter:
    // inside under the corner-based bounds, although a centred test would
    // judge otherwise far above the paddle's visual top edge.
    let paddle = paddle_at(Player::Right, 500_000, 0);
    let mut ball = ball_at(500_000, 15_999, 100, 0);
    ball_paddle_collider(&mut ball, &paddle);
    assert_eq!(ball.vel.x, -100);
    // At exactly the diameter above, the strict bound excludes it.
    let mut ball_above = ball_at(500_000, 16_000, 100, 0);
    ball_paddle_collider(&mut ball_above, &paddle);
    assert_eq!(ball_above.vel.x, 100);
}

#[test]
fn collider_still_overlapping_flips_again() {
    // No de-penetration is performed: a ball still overlapping at the next
    // evaluation flips back — the known, accepted edge case.
    let paddle = paddle_at(Player::Right, 500_000, 0);
    let mut ball = ball_at(490_000, 0, 100, 0);
    ball_paddle_collider(&mut ball, &paddle);
    assert_eq!(ball.vel.x, -100);
    ball_paddle_collider(&mut ball, &paddle);
    assert_eq!(ball.vel.x, 100);
}

// --- scenarios over whole systems ---

#[test]
fn left_paddle_driven_up_for_one_second() {
    // Left paddle level with the centre, "up" held, one second at 600 units
    // per second: velocity 600, position 600 units before the limiter, then
    // clamped to the band edge (360 - 32 = 328 units).
    let mut world = World::new();
    handle_inputs(&mut world, &keys(true, false, false, false), 600);
    assert_eq!(world.left.vel.y, 600);
    movement(&mut world, 1_000);
    assert_eq!(world.left.pos.y, 600_000);
    paddle_limiter(&mut world.left);
    assert_eq!(world.left.pos.y, PADDLE_Y_BOUND);
    assert_eq!(world.left.pos.y, 328_000);
}

#[test]
fn initial_world_layout() {
    let world = World::new();
    assert_eq!(world.ball.pos.x, 0);
    assert_eq!(world.ball.pos.y, 0);
    assert_eq!(world.ball.vel.x, 100);
    assert_eq!(world.ball.vel.y, 100);
    assert!(matches!(world.left.side, Player::Left));
    assert!(matches!(world.right.side, Player::Right));
    assert_eq!(world.left.pos.x, -500_000);
    assert_eq!(world.right.pos.x, 500_000);
    assert_eq!(world.left.pos.y, 0);
    assert_eq!(world.right.pos.y, 0);
    assert_eq!(world.left.vel.x, 0);
    assert_eq!(world.left.vel.y, 0);
    assert_eq!(world.right.vel.x, 0);
    assert_eq!(world.right.vel.y, 0);
}

#[test]
fn frame_with_no_keys_moves_only_the_ball() {
    let mut world = World::new();
    frame(&mut world, &Inputs::default(), 16);
    assert_eq!(world.ball.pos.x, 1_600);
    assert_eq!(world.ball.pos.y, 1_600);
    assert_eq!(world.ball.vel.x, 100);
    assert_eq!(world.ball.vel.y, 100);
    assert_eq!(world.left.pos.y, 0);
    assert_eq!(world.right.pos.y, 0);
}

#[test]
fn frame_moves_paddle_under_held_key() {
    // The frame's own speed constant is 400 units per second; 16 ms under a
    // held "down" key moves the right paddle by 6.4 units.
    let mut world = World::new();
    frame(&mut world, &keys(false, false, false, true), 16);
    assert_eq!(world.right.vel.y, -400);
    assert_eq!(world.right.pos.y, -6_400);
    assert_eq!(world.left.pos.y, 0);
}

#[test]
fn frames_keep_paddle_inside_band() {
    // Two whole seconds upward at 400 units per second would reach 800 units;
    // each frame clamps, so the paddle ends at the band edge.
    let mut world = World::new();
    let up = keys(true, false, true, false);
    frame(&mut world, &up, 1_000);
    frame(&mut world, &up, 1_000);
    assert_eq!(world.left.pos.y, PADDLE_Y_BOUND);
    assert_eq!(world.right.pos.y, PADDLE_Y_BOUND);
}
