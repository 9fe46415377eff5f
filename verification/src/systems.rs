//! The per-frame systems and their specifications.
//!
//! Each system is a pure per-entity transformation; its contract equates the
//! entity's model after the call with a spec transition function of the model
//! before it.  `frame` runs one whole frame in a fixed order.

use vstd::prelude::*;

use crate::field::{
    BALL_DIAMETER, BALL_X_EXIT, BALL_Y_BOUND, ELAPSED_MS_MAX, PADDLE_HEIGHT, PADDLE_SPEED,
    PADDLE_WIDTH, PADDLE_X_OFFSET, PADDLE_Y_BOUND, VELOCITY_LIMIT,
};
use crate::input::{Inputs, PaddleInputs};
use crate::world::{
    Ball, BallModel, Paddle, PaddleModel, Player, Vec2, World, WorldModel, world_wf,
};

verus! {

// ---------------------------------------------------------------------------
// Spec transitions
// ---------------------------------------------------------------------------

/// Vertical velocity the controller assigns for one key pair: zero, then the
/// speed added while "up" is held and subtracted while "down" is held.  Both
/// keys held cancel to zero by design.
pub open spec fn paddle_input_velocity(i: PaddleInputs, speed: int) -> int {
    (if i.up {
        speed
    } else {
        0
    }) - (if i.down {
        speed
    } else {
        0
    })
}

/// The key pair that belongs to a paddle's side.
pub open spec fn side_inputs(side: Player, inputs: Inputs) -> PaddleInputs {
    match side {
        Player::Left => inputs.left,
        Player::Right => inputs.right,
    }
}

/// Paddle Controller: sets the vertical velocity from the snapshot, leaves
/// everything else alone.
pub open spec fn controller_step(p: PaddleModel, inputs: Inputs, speed: int) -> PaddleModel {
    PaddleModel { vel_y: paddle_input_velocity(side_inputs(p.side, inputs), speed), ..p }
}

/// Integrator on a paddle: position advances by velocity times elapsed time,
/// exactly.
pub open spec fn moved_paddle(p: PaddleModel, dt: int) -> PaddleModel {
    PaddleModel { pos_x: p.pos_x + p.vel_x * dt, pos_y: p.pos_y + p.vel_y * dt, ..p }
}

/// Integrator on the ball.
pub open spec fn moved_ball(b: BallModel, dt: int) -> BallModel {
    BallModel { pos_x: b.pos_x + b.vel_x * dt, pos_y: b.pos_y + b.vel_y * dt, ..b }
}

/// A value clamped to `[-bound, bound]`.
pub open spec fn clamped(v: int, bound: int) -> int {
    if v > bound {
        bound
    } else if v < -bound {
        -bound
    } else {
        v
    }
}

/// Paddle Limiter: the paddle stops at the wall; its velocity is untouched.
pub open spec fn limited_paddle(p: PaddleModel) -> PaddleModel {
    PaddleModel { pos_y: clamped(p.pos_y, PADDLE_Y_BOUND as int), ..p }
}

/// Ball Limiter, vertical step: each bound is checked in turn; past a bound
/// the position is clamped to it and the vertical velocity inverted.
pub open spec fn ball_bounced_vertical(b: BallModel) -> BallModel {
    let b1 = if b.pos_y > BALL_Y_BOUND {
        BallModel { pos_y: BALL_Y_BOUND as int, vel_y: -b.vel_y, ..b }
    } else {
        b
    };
    if b1.pos_y < -BALL_Y_BOUND {
        BallModel { pos_y: -BALL_Y_BOUND as int, vel_y: -b1.vel_y, ..b1 }
    } else {
        b1
    }
}

/// True when the ball has fully left the field on either side.
pub open spec fn ball_exits_horizontal(b: BallModel) -> bool {
    b.pos_x > BALL_X_EXIT || b.pos_x < -BALL_X_EXIT
}

/// Ball Limiter, horizontal step: a ball that fully left the field is put
/// back at the centre with its horizontal direction inverted; the vertical
/// velocity is untouched.
pub open spec fn ball_recentered_horizontal(b: BallModel) -> BallModel {
    if ball_exits_horizontal(b) {
        BallModel { pos_x: 0, pos_y: 0, vel_x: -b.vel_x, ..b }
    } else {
        b
    }
}

/// Ball Limiter: the vertical step, then the horizontal step.
pub open spec fn limited_ball(b: BallModel) -> BallModel {
    ball_recentered_horizontal(ball_bounced_vertical(b))
}

/// The collision boundary between ball and paddle.  The paddle's position is
/// treated as a corner, not the centre, although paddles are drawn centred:
/// the test is deliberately asymmetric and is part of the rules.
pub open spec fn ball_overlaps_paddle(b: BallModel, p: PaddleModel) -> bool {
    &&& b.pos_x < p.pos_x + PADDLE_WIDTH
    &&& b.pos_x + BALL_DIAMETER > p.pos_x
    &&& b.pos_y > p.pos_y - PADDLE_HEIGHT
    &&& b.pos_y - BALL_DIAMETER < p.pos_y
}

/// Ball-Paddle Collider against one paddle: on overlap the ball's horizontal
/// velocity is inverted, once per evaluation; the position is not corrected
/// (no de-penetration).  A ball still overlapping next frame flips again — a
/// known, accepted edge case.
pub open spec fn collided_ball(b: BallModel, p: PaddleModel) -> BallModel {
    if ball_overlaps_paddle(b, p) {
        BallModel { vel_x: -b.vel_x, ..b }
    } else {
        b
    }
}

// ---------------------------------------------------------------------------
// Executable systems
// ---------------------------------------------------------------------------

/// Paddle Controller for one paddle: selects the key pair of the paddle's
/// side and sets the vertical velocity accordingly.  The horizontal velocity
/// and the position are untouched.
pub fn paddle_controller(paddle: &mut Paddle, inputs: &Inputs, speed: i64)
    requires
        0 <= speed,
    ensures
        final(paddle)@ == controller_step(old(paddle)@, *inputs, speed as int),
{
    let input = match paddle.side {
        Player::Left => inputs.left,
        Player::Right => inputs.right,
    };
    paddle.vel.y = 0;
    if input.up {
        paddle.vel.y = paddle.vel.y + speed;
    }
    if input.down {
        paddle.vel.y = paddle.vel.y - speed;
    }
}

/// Paddle Controller over the whole world: both paddles, the ball untouched.
pub fn handle_inputs(world: &mut World, inputs: &Inputs, speed: i64)
    requires
        0 <= speed,
    ensures
        final(world)@.left == controller_step(old(world)@.left, *inputs, speed as int),
        final(world)@.right == controller_step(old(world)@.right, *inputs, speed as int),
        final(world)@.ball == old(world)@.ball,
{
    paddle_controller(&mut world.left, inputs, speed);
    paddle_controller(&mut world.right, inputs, speed);
}

/// Integrator for one position: adds velocity times elapsed time, exactly,
/// on each axis.  Holds for every elapsed time and every velocity whose step
/// fits in the machine integers.
pub fn integrate(pos: &mut Vec2, vel: Vec2, dt: i64)
    requires
        i64::MIN <= vel.x * dt <= i64::MAX,
        i64::MIN <= old(pos).x + vel.x * dt <= i64::MAX,
        i64::MIN <= vel.y * dt <= i64::MAX,
        i64::MIN <= old(pos).y + vel.y * dt <= i64::MAX,
    ensures
        final(pos).x == old(pos).x + vel.x * dt,
        final(pos).y == old(pos).y + vel.y * dt,
{
    pos.x = pos.x + vel.x * dt;
    pos.y = pos.y + vel.y * dt;
}

/// True when every integration step of this world over `dt` stays inside
/// `i64`.
pub open spec fn move_fits(pos_x: int, pos_y: int, vel_x: int, vel_y: int, dt: int) -> bool {
    &&& i64::MIN <= vel_x * dt <= i64::MAX
    &&& i64::MIN <= pos_x + vel_x * dt <= i64::MAX
    &&& i64::MIN <= vel_y * dt <= i64::MAX
    &&& i64::MIN <= pos_y + vel_y * dt <= i64::MAX
}

/// `move_fits` for all three moving entities.
pub open spec fn world_move_fits(w: WorldModel, dt: int) -> bool {
    &&& move_fits(w.ball.pos_x, w.ball.pos_y, w.ball.vel_x, w.ball.vel_y, dt)
    &&& move_fits(w.left.pos_x, w.left.pos_y, w.left.vel_x, w.left.vel_y, dt)
    &&& move_fits(w.right.pos_x, w.right.pos_y, w.right.vel_x, w.right.vel_y, dt)
}

/// Integrator over the whole world: every entity with a position and a
/// velocity advances by velocity times elapsed time.
pub fn movement(world: &mut World, dt: i64)
    requires
        world_move_fits(old(world)@, dt as int),
    ensures
        final(world)@.ball == moved_ball(old(world)@.ball, dt as int),
        final(world)@.left == moved_paddle(old(world)@.left, dt as int),
        final(world)@.right == moved_paddle(old(world)@.right, dt as int),
{
    let ball_vel = world.ball.vel;
    let left_vel = world.left.vel;
    let right_vel = world.right.vel;
    integrate(&mut world.ball.pos, ball_vel, dt);
    integrate(&mut world.left.pos, left_vel, dt);
    integrate(&mut world.right.pos, right_vel, dt);
}

/// Paddle Limiter: clamps the paddle's vertical position to the play band.
/// No velocity change on clamp — the paddle simply stops at the wall.
pub fn paddle_limiter(paddle: &mut Paddle)
    ensures
        final(paddle)@ == limited_paddle(old(paddle)@),
        -PADDLE_Y_BOUND <= final(paddle)@.pos_y <= PADDLE_Y_BOUND,
{
    if paddle.pos.y > PADDLE_Y_BOUND {
        paddle.pos.y = PADDLE_Y_BOUND;
    }
    if paddle.pos.y < -PADDLE_Y_BOUND {
        paddle.pos.y = -PADDLE_Y_BOUND;
    }
}

/// Ball Limiter, vertical step: past either vertical bound the position is
/// clamped to that bound and the vertical velocity inverted; inside the
/// bounds nothing changes, in particular the velocity keeps its sign.
pub fn ball_limiter_vertical(ball: &mut Ball)
    requires
        old(ball).vel.y != i64::MIN,
    ensures
        final(ball)@ == ball_bounced_vertical(old(ball)@),
        old(ball)@.pos_y > BALL_Y_BOUND ==> final(ball)@.pos_y == BALL_Y_BOUND
            && final(ball)@.vel_y == -old(ball)@.vel_y,
        old(ball)@.pos_y < -BALL_Y_BOUND ==> final(ball)@.pos_y == -BALL_Y_BOUND
            && final(ball)@.vel_y == -old(ball)@.vel_y,
        -BALL_Y_BOUND <= old(ball)@.pos_y <= BALL_Y_BOUND ==> final(ball)@ == old(ball)@,
{
    if ball.pos.y > BALL_Y_BOUND {
        ball.pos.y = BALL_Y_BOUND;
        ball.vel.y = -ball.vel.y;
    }
    if ball.pos.y < -BALL_Y_BOUND {
        ball.pos.y = -BALL_Y_BOUND;
        ball.vel.y = -ball.vel.y;
    }
}

/// Ball Limiter, horizontal step: a ball fully beyond either side is put back
/// at the field centre and its horizontal velocity inverted; the vertical
/// velocity is untouched.
pub fn ball_limiter_horizontal(ball: &mut Ball)
    requires
        old(ball).vel.x != i64::MIN,
    ensures
        final(ball)@ == ball_recentered_horizontal(old(ball)@),
        ball_exits_horizontal(old(ball)@) ==> final(ball)@.pos_x == 0 && final(ball)@.pos_y == 0
            && final(ball)@.vel_x == -old(ball)@.vel_x && final(ball)@.vel_y == old(
            ball,
        )@.vel_y,
        !ball_exits_horizontal(old(ball)@) ==> final(ball)@ == old(ball)@,
{
    if ball.pos.x > BALL_X_EXIT || ball.pos.x < -BALL_X_EXIT {
        ball.pos.x = 0;
        ball.pos.y = 0;
        ball.vel.x = -ball.vel.x;
    }
}

/// Ball Limiter: the vertical step, then the horizontal step, each axis
/// judged independently on the position the frame's movement produced.
pub fn ball_limiter(ball: &mut Ball)
    requires
        old(ball).vel.x != i64::MIN,
        old(ball).vel.y != i64::MIN,
    ensures
        final(ball)@ == limited_ball(old(ball)@),
{
    ball_limiter_vertical(ball);
    ball_limiter_horizontal(ball);
}

/// Ball-Paddle Collider against one paddle: on overlap — the asymmetric,
/// corner-based test of `ball_overlaps_paddle` — the ball's horizontal
/// velocity is inverted exactly once; position and vertical velocity are
/// untouched.
pub fn ball_paddle_collider(ball: &mut Ball, paddle: &Paddle)
    requires
        old(ball).vel.x != i64::MIN,
    ensures
        final(ball)@ == collided_ball(old(ball)@, paddle@),
        ball_overlaps_paddle(old(ball)@, paddle@) ==> final(ball)@.vel_x == -old(ball)@.vel_x,
        !ball_overlaps_paddle(old(ball)@, paddle@) ==> final(ball)@ == old(ball)@,
{
    let overlap = (ball.pos.x as i128) < (paddle.pos.x as i128) + (PADDLE_WIDTH as i128)
        && (ball.pos.x as i128) + (BALL_DIAMETER as i128) > (paddle.pos.x as i128)
        && (ball.pos.y as i128) > (paddle.pos.y as i128) - (PADDLE_HEIGHT as i128)
        && (ball.pos.y as i128) - (BALL_DIAMETER as i128) < (paddle.pos.y as i128);
    if overlap {
        ball.vel.x = -ball.vel.x;
    }
}

/// One whole frame of the world model, in frame order: controller,
/// integrator, paddle limiter, ball limiter, then the collider against the
/// left and the right paddle.
pub open spec fn frame_step(w: WorldModel, inputs: Inputs, dt: int) -> WorldModel {
    let stirred = WorldModel {
        left: controller_step(w.left, inputs, PADDLE_SPEED as int),
        right: controller_step(w.right, inputs, PADDLE_SPEED as int),
        ball: w.ball,
    };
    let moved = WorldModel {
        left: moved_paddle(stirred.left, dt),
        right: moved_paddle(stirred.right, dt),
        ball: moved_ball(stirred.ball, dt),
    };
    let limited = WorldModel {
        left: limited_paddle(moved.left),
        right: limited_paddle(moved.right),
        ball: limited_ball(moved.ball),
    };
    WorldModel {
        ball: collided_ball(collided_ball(limited.ball, limited.left), limited.right),
        ..limited
    }
}

/// Both keys of one pair held at once cancel to a vertical velocity of zero —
/// intended behaviour, not an error.
pub proof fn lemma_both_keys_cancel(i: PaddleInputs, speed: int)
    requires
        i.up,
        i.down,
    ensures
        paddle_input_velocity(i, speed) == 0,
{
}

/// A velocity within `VELOCITY_LIMIT` over an elapsed time within
/// `ELAPSED_MS_MAX` gives an integration step within the product of the two
/// limits.
pub proof fn lemma_step_bound(v: int, dt: int)
    requires
        -VELOCITY_LIMIT <= v <= VELOCITY_LIMIT,
        0 <= dt <= ELAPSED_MS_MAX,
    ensures
        -(VELOCITY_LIMIT * ELAPSED_MS_MAX) <= v * dt <= VELOCITY_LIMIT * ELAPSED_MS_MAX,
{
    assert(-(VELOCITY_LIMIT * ELAPSED_MS_MAX) <= v * dt <= VELOCITY_LIMIT * ELAPSED_MS_MAX)
        by (nonlinear_arith)
        requires
            -VELOCITY_LIMIT <= v <= VELOCITY_LIMIT,
            0 <= dt <= ELAPSED_MS_MAX,
    ;
}

/// In a well-formed world every integration step over an elapsed time within
/// `ELAPSED_MS_MAX` stays inside `i64`, whatever the controller just set the
/// paddle velocities to (any magnitude up to `VELOCITY_LIMIT`).
pub proof fn lemma_world_move_fits(w: WorldModel, dt: int)
    requires
        0 <= dt <= ELAPSED_MS_MAX,
        -BALL_X_EXIT <= w.ball.pos_x <= BALL_X_EXIT,
        -BALL_Y_BOUND <= w.ball.pos_y <= BALL_Y_BOUND,
        -VELOCITY_LIMIT <= w.ball.vel_x <= VELOCITY_LIMIT,
        -VELOCITY_LIMIT <= w.ball.vel_y <= VELOCITY_LIMIT,
        -PADDLE_X_OFFSET <= w.left.pos_x <= PADDLE_X_OFFSET,
        -PADDLE_Y_BOUND <= w.left.pos_y <= PADDLE_Y_BOUND,
        -VELOCITY_LIMIT <= w.left.vel_x <= VELOCITY_LIMIT,
        -VELOCITY_LIMIT <= w.left.vel_y <= VELOCITY_LIMIT,
        -PADDLE_X_OFFSET <= w.right.pos_x <= PADDLE_X_OFFSET,
        -PADDLE_Y_BOUND <= w.right.pos_y <= PADDLE_Y_BOUND,
        -VELOCITY_LIMIT <= w.right.vel_x <= VELOCITY_LIMIT,
        -VELOCITY_LIMIT <= w.right.vel_y <= VELOCITY_LIMIT,
    ensures
        world_move_fits(w, dt),
{
    lemma_step_bound(w.ball.vel_x, dt);
    lemma_step_bound(w.ball.vel_y, dt);
    lemma_step_bound(w.left.vel_x, dt);
    lemma_step_bound(w.left.vel_y, dt);
    lemma_step_bound(w.right.vel_x, dt);
    lemma_step_bound(w.right.vel_y, dt);
}

/// One whole frame: the input snapshot has already been decoded; the
/// controller, the integrator, both limiters and the collider run in that
/// order.  The world invariant is preserved.
pub fn frame(world: &mut World, inputs: &Inputs, dt: i64)
    requires
        world_wf(old(world)@),
        0 <= dt <= ELAPSED_MS_MAX,
    ensures
        final(world)@ == frame_step(old(world)@, *inputs, dt as int),
        world_wf(final(world)@),
{
    handle_inputs(world, inputs, PADDLE_SPEED);
    proof {
        lemma_world_move_fits(world@, dt as int);
    }
    movement(world, dt);
    paddle_limiter(&mut world.left);
    paddle_limiter(&mut world.right);
    ball_limiter(&mut world.ball);
    let left = world.left;
    let right = world.right;
    ball_paddle_collider(&mut world.ball, &left);
    ball_paddle_collider(&mut world.ball, &right);
}

} // verus!
