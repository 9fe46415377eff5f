//! The simulated world and its mathematical model.
//!
//! The world holds exactly one ball and one paddle per side for the lifetime
//! of the process.  Each executable type has a ghost model over unbounded
//! integers (its view); every system's contract is stated over these models.

use vstd::prelude::*;

use crate::field::{
    BALL_START_SPEED, BALL_X_EXIT, BALL_Y_BOUND, PADDLE_X_OFFSET, PADDLE_Y_BOUND, VELOCITY_LIMIT,
};

verus! {

/// Which side a paddle defends.
#[derive(Clone, Copy, Debug)]
pub enum Player {
    Left,
    Right,
}

/// A planar vector.  As a position it is in milliunits; as a velocity, in
/// units per second.
#[derive(Clone, Copy, Debug)]
pub struct Vec2 {
    pub x: i64,
    pub y: i64,
}

/// The single ball: centre position in milliunits, velocity in units per
/// second.
#[derive(Clone, Copy, Debug)]
pub struct Ball {
    pub pos: Vec2,
    pub vel: Vec2,
}

/// One paddle: the side it defends, centre position in milliunits, velocity
/// in units per second.  Paddles never move horizontally.
#[derive(Clone, Copy, Debug)]
pub struct Paddle {
    pub side: Player,
    pub pos: Vec2,
    pub vel: Vec2,
}

/// The whole simulation state.
#[derive(Clone, Copy, Debug)]
pub struct World {
    pub ball: Ball,
    pub left: Paddle,
    pub right: Paddle,
}

/// Model of the ball over unbounded integers.
pub ghost struct BallModel {
    pub pos_x: int,
    pub pos_y: int,
    pub vel_x: int,
    pub vel_y: int,
}

/// Model of one paddle over unbounded integers.
pub ghost struct PaddleModel {
    pub side: Player,
    pub pos_x: int,
    pub pos_y: int,
    pub vel_x: int,
    pub vel_y: int,
}

/// Model of the whole world.
pub ghost struct WorldModel {
    pub ball: BallModel,
    pub left: PaddleModel,
    pub right: PaddleModel,
}

impl View for Ball {
    type V = BallModel;

    open spec fn view(&self) -> BallModel {
        BallModel {
            pos_x: self.pos.x as int,
            pos_y: self.pos.y as int,
            vel_x: self.vel.x as int,
            vel_y: self.vel.y as int,
        }
    }
}

impl View for Paddle {
    type V = PaddleModel;

    open spec fn view(&self) -> PaddleModel {
        PaddleModel {
            side: self.side,
            pos_x: self.pos.x as int,
            pos_y: self.pos.y as int,
            vel_x: self.vel.x as int,
            vel_y: self.vel.y as int,
        }
    }
}

impl View for World {
    type V = WorldModel;

    open spec fn view(&self) -> WorldModel {
        WorldModel { ball: self.ball@, left: self.left@, right: self.right@ }
    }
}

/// A well-formed ball sits inside the play field (once the limiter has run)
/// and moves no faster than `VELOCITY_LIMIT` on either axis.
pub open spec fn ball_wf(b: BallModel) -> bool {
    &&& -BALL_X_EXIT <= b.pos_x <= BALL_X_EXIT
    &&& -BALL_Y_BOUND <= b.pos_y <= BALL_Y_BOUND
    &&& -VELOCITY_LIMIT <= b.vel_x <= VELOCITY_LIMIT
    &&& -VELOCITY_LIMIT <= b.vel_y <= VELOCITY_LIMIT
}

/// A well-formed paddle defends the given side, stands at the given fixed
/// horizontal position, never moves horizontally, stays inside the vertical
/// band and moves no faster than `VELOCITY_LIMIT`.
pub open spec fn paddle_wf(p: PaddleModel, side: Player, pos_x: int) -> bool {
    &&& p.side == side
    &&& p.pos_x == pos_x
    &&& -PADDLE_Y_BOUND <= p.pos_y <= PADDLE_Y_BOUND
    &&& p.vel_x == 0
    &&& -VELOCITY_LIMIT <= p.vel_y <= VELOCITY_LIMIT
}

/// The world invariant: one ball inside the field, one paddle per side at its
/// fixed horizontal station.  Established at startup and preserved by every
/// frame.
pub open spec fn world_wf(w: WorldModel) -> bool {
    &&& ball_wf(w.ball)
    &&& paddle_wf(w.left, Player::Left, -PADDLE_X_OFFSET as int)
    &&& paddle_wf(w.right, Player::Right, PADDLE_X_OFFSET as int)
}

/// The startup world: ball at the centre moving diagonally up-right, paddles
/// level with the centre on each side, at rest.
pub open spec fn initial_world() -> WorldModel {
    WorldModel {
        ball: BallModel {
            pos_x: 0,
            pos_y: 0,
            vel_x: BALL_START_SPEED as int,
            vel_y: BALL_START_SPEED as int,
        },
        left: PaddleModel {
            side: Player::Left,
            pos_x: -PADDLE_X_OFFSET as int,
            pos_y: 0,
            vel_x: 0,
            vel_y: 0,
        },
        right: PaddleModel {
            side: Player::Right,
            pos_x: PADDLE_X_OFFSET as int,
            pos_y: 0,
            vel_x: 0,
            vel_y: 0,
        },
    }
}

impl World {
    /// Builds the startup world.
    pub fn new() -> (w: World)
        ensures
            w@ == initial_world(),
            world_wf(w@),
    {
        World {
            ball: Ball {
                pos: Vec2 { x: 0, y: 0 },
                vel: Vec2 { x: BALL_START_SPEED, y: BALL_START_SPEED },
            },
            left: Paddle {
                side: Player::Left,
                pos: Vec2 { x: -PADDLE_X_OFFSET, y: 0 },
                vel: Vec2 { x: 0, y: 0 },
            },
            right: Paddle {
                side: Player::Right,
                pos: Vec2 { x: PADDLE_X_OFFSET, y: 0 },
                vel: Vec2 { x: 0, y: 0 },
            },
        }
    }
}

} // verus!
