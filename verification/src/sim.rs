//! The simulation context: the fixed cast of one ball, two paddles and a
//! score pair, and the frame function that runs the stages in their
//! load-bearing order — velocity correction before position integration,
//! scoring after it.

use vstd::prelude::*;

use crate::geom::Vec2;
use crate::model::Ball;
use crate::model::Field;
use crate::model::InputState;
use crate::model::Paddle;
use crate::model::Scores;
use crate::model::Side;
use crate::model::BALL_SIZE;
use crate::model::DT_LIMIT_MS;
use crate::model::MOTION_SLACK;
use crate::model::PADDLE_HEIGHT;
use crate::model::PADDLE_WALL_OFFSET;
use crate::model::PADDLE_WIDTH;
use crate::model::SERVE_VELOCITY_X;
use crate::model::SERVE_VELOCITY_Y;
use crate::stages::ball_move;
use crate::stages::ball_paddle_bounce;
use crate::stages::ball_wall_bounce;
use crate::stages::bumped_score;
use crate::stages::deflected_vx;
use crate::stages::left_scored;
use crate::stages::moved;
use crate::stages::paddle_hit;
use crate::stages::paddle_move;
use crate::stages::paddle_moved_y;
use crate::stages::right_scored;
use crate::stages::score_update;
use crate::stages::wall_bounced_vy;
use crate::stages::wall_bounced_y;

verus! {

/// The whole mutable state of one session.
#[derive(Clone, Copy, PartialEq, Eq, Structural, Debug)]
pub struct Sim {
    pub field: Field,
    pub ball: Ball,
    pub left_paddle: Paddle,
    pub right_paddle: Paddle,
    pub scores: Scores,
}

impl Sim {
    /// The session invariant: the entities are well formed, each paddle
    /// keeps its side and sits within the field vertically, and the ball
    /// is within the side boundaries horizontally and at most one clamped
    /// motion step past a wall vertically.
    pub open spec fn wf(self) -> bool {
        &&& self.field.wf()
        &&& self.ball.wf()
        &&& self.left_paddle.wf()
        &&& self.right_paddle.wf()
        &&& self.left_paddle.side == Side::Left
        &&& self.right_paddle.side == Side::Right
        &&& -self.field.half_w() <= self.ball.pos.x as int <= self.field.half_w()
        &&& -(self.field.half_h() + MOTION_SLACK) <= self.ball.pos.y as int
            <= self.field.half_h() + MOTION_SLACK
        &&& -self.field.half_h() <= self.left_paddle.pos.y as int <= self.field.half_h()
        &&& -self.field.half_h() <= self.right_paddle.pos.y as int <= self.field.half_h()
    }

    /// A fresh session on `field`: paddles centered vertically near their
    /// walls, the ball at the center with the serve velocity, both scores
    /// zero.
    pub fn new(field: Field) -> (s: Sim)
        requires
            field.wf(),
        ensures
            s.wf(),
            s.field == field,
            s.ball.pos == (Vec2 { x: 0, y: 0 }),
            s.ball.vel == (Vec2 { x: SERVE_VELOCITY_X, y: SERVE_VELOCITY_Y }),
            s.ball.size == (Vec2 { x: BALL_SIZE, y: BALL_SIZE }),
            s.left_paddle.side == Side::Left,
            s.left_paddle.pos.x as int == -field.half_w() + PADDLE_WALL_OFFSET,
            s.left_paddle.pos.y == 0,
            s.left_paddle.size == (Vec2 { x: PADDLE_WIDTH, y: PADDLE_HEIGHT }),
            s.right_paddle.side == Side::Right,
            s.right_paddle.pos.x as int == field.half_w() - PADDLE_WALL_OFFSET,
            s.right_paddle.pos.y == 0,
            s.right_paddle.size == (Vec2 { x: PADDLE_WIDTH, y: PADDLE_HEIGHT }),
            s.scores.left == 0,
            s.scores.right == 0,
    {
        let half_w = field.width / 2;
        Sim {
            field,
            ball: Ball {
                pos: Vec2 { x: 0, y: 0 },
                vel: Vec2 { x: SERVE_VELOCITY_X, y: SERVE_VELOCITY_Y },
                size: Vec2 { x: BALL_SIZE, y: BALL_SIZE },
            },
            left_paddle: Paddle {
                side: Side::Left,
                pos: Vec2 { x: -half_w + PADDLE_WALL_OFFSET, y: 0 },
                size: Vec2 { x: PADDLE_WIDTH, y: PADDLE_HEIGHT },
            },
            right_paddle: Paddle {
                side: Side::Right,
                pos: Vec2 { x: half_w - PADDLE_WALL_OFFSET, y: 0 },
                size: Vec2 { x: PADDLE_WIDTH, y: PADDLE_HEIGHT },
            },
            scores: Scores { left: 0, right: 0 },
        }
    }
}

/// The ball's state after the collision and motion stages of one frame,
/// before scoring, as `(pos_x, pos_y, vel_x, vel_y)`: the wall stage
/// corrects the vertical position and velocity, both paddles are tested
/// against the corrected position (left first), and the corrected
/// velocity is then integrated over the clamped elapsed time.
pub open spec fn frame_ball(s: Sim, dt_ms: u64) -> (int, int, int, int) {
    let h = s.field.height as int;
    let x0 = s.ball.pos.x as int;
    let y0 = s.ball.pos.y as int;
    let y1 = wall_bounced_y(y0, h);
    let vy1 = wall_bounced_vy(y0, s.ball.vel.y as int, h);
    let hit_left = paddle_hit(x0, y1, s.ball.size, s.left_paddle);
    let vx1 = deflected_vx(s.ball.vel.x as int, s.left_paddle.side, hit_left);
    let hit_right = paddle_hit(x0, y1, s.ball.size, s.right_paddle);
    let vx2 = deflected_vx(vx1, s.right_paddle.side, hit_right);
    (moved(x0, vx2, dt_ms), moved(y1, vy1, dt_ms), vx2, vy1)
}

impl Sim {
    /// One frame of the simulation: wall bounce, paddle bounce (left,
    /// then right), ball motion, paddle motion, scoring.  The ball and
    /// the scores end exactly as `frame_ball` followed by the scoring
    /// rule dictates; each paddle moves by its held keys and is clamped
    /// to the field.
    pub fn tick(&mut self, input: InputState, dt_ms: u64)
        requires
            old(self).wf(),
            dt_ms <= DT_LIMIT_MS,
        ensures
            final(self).wf(),
            final(self).field == old(self).field,
            final(self).ball.size == old(self).ball.size,
            final(self).left_paddle.side == old(self).left_paddle.side,
            final(self).left_paddle.size == old(self).left_paddle.size,
            final(self).left_paddle.pos.x == old(self).left_paddle.pos.x,
            final(self).left_paddle.pos.y as int == paddle_moved_y(
                old(self).left_paddle.pos.y as int,
                input.left_up,
                input.left_down,
                dt_ms,
                old(self).field.height as int,
            ),
            final(self).right_paddle.side == old(self).right_paddle.side,
            final(self).right_paddle.size == old(self).right_paddle.size,
            final(self).right_paddle.pos.x == old(self).right_paddle.pos.x,
            final(self).right_paddle.pos.y as int == paddle_moved_y(
                old(self).right_paddle.pos.y as int,
                input.right_up,
                input.right_down,
                dt_ms,
                old(self).field.height as int,
            ),
            ({
                let fb = frame_ball(*old(self), dt_ms);
                let w = old(self).field.width as int;
                &&& left_scored(fb.0, w) ==> {
                    &&& final(self).ball.pos == (Vec2 { x: 0, y: 0 })
                    &&& final(self).ball.vel == (Vec2 { x: SERVE_VELOCITY_X, y: SERVE_VELOCITY_Y })
                    &&& final(self).scores.left as int == bumped_score(old(self).scores.left)
                    &&& final(self).scores.right == old(self).scores.right
                }
                &&& right_scored(fb.0, w) ==> {
                    &&& final(self).ball.pos == (Vec2 { x: 0, y: 0 })
                    &&& final(self).ball.vel == (Vec2 { x: SERVE_VELOCITY_X, y: SERVE_VELOCITY_Y })
                    &&& final(self).scores.right as int == bumped_score(old(self).scores.right)
                    &&& final(self).scores.left == old(self).scores.left
                }
                &&& !left_scored(fb.0, w) && !right_scored(fb.0, w) ==> {
                    &&& final(self).ball.pos.x as int == fb.0
                    &&& final(self).ball.pos.y as int == fb.1
                    &&& final(self).ball.vel.x as int == fb.2
                    &&& final(self).ball.vel.y as int == fb.3
                    &&& final(self).scores == old(self).scores
                }
            }),
    {
        ball_wall_bounce(&mut self.ball, &self.field);
        ball_paddle_bounce(&mut self.ball, &self.left_paddle);
        ball_paddle_bounce(&mut self.ball, &self.right_paddle);
        ball_move(&mut self.ball, dt_ms);
        paddle_move(&mut self.left_paddle, input.left_up, input.left_down, dt_ms, &self.field);
        paddle_move(&mut self.right_paddle, input.right_up, input.right_down, dt_ms, &self.field);
        score_update(&mut self.ball, &mut self.scores, &self.field);
    }
}

} // verus!
