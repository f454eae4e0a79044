//! The per-frame stages of the simulation: wall reflection, paddle
//! reflection, ball motion, paddle motion and scoring.  Each stage's
//! contract pins the whole new state down as a function of the old one,
//! through the spec functions defined beside it.

use vstd::prelude::*;

use crate::geom::boxes_collide;
use crate::geom::boxes_overlap;
use crate::geom::clamp_i64;
use crate::geom::clamped;
use crate::geom::spans_overlap;
use crate::geom::Vec2;
use crate::geom::COORD_LIMIT;
use crate::geom::POS_LIMIT;
use crate::geom::VEL_LIMIT;
use crate::model::Ball;
use crate::model::Field;
use crate::model::Paddle;
use crate::model::Scores;
use crate::model::Side;
use crate::model::DT_CLAMP_MS;
use crate::model::DT_LIMIT_MS;
use crate::model::MOTION_SLACK;
use crate::model::PADDLE_SPEED;
use crate::model::SERVE_VELOCITY_X;
use crate::model::SERVE_VELOCITY_Y;

verus! {

/// The elapsed time the ball's motion uses: `dt_ms` clamped to
/// `DT_CLAMP_MS`.
pub open spec fn clamped_dt(dt_ms: u64) -> int {
    if dt_ms > DT_CLAMP_MS {
        DT_CLAMP_MS as int
    } else {
        dt_ms as int
    }
}

/// The ball's vertical position after the wall stage: clamped onto the
/// field's vertical extent.
pub open spec fn wall_bounced_y(y: int, h: int) -> int {
    clamped(y, -(h / 2), h / 2)
}

/// The ball's vertical velocity after the wall stage: negated only when
/// the ball is beyond a wall and still moving toward it, so a ball already
/// reflected earlier in the same frame is left alone.
pub open spec fn wall_bounced_vy(y: int, vy: int, h: int) -> int {
    if y < -(h / 2) && vy < 0 {
        -vy
    } else if y > h / 2 && vy > 0 {
        -vy
    } else {
        vy
    }
}

/// The ball's horizontal velocity after testing one paddle: on overlap it
/// is negated only when the ball moves toward that paddle's side, so a
/// ball already moving away keeps its course instead of oscillating inside
/// the paddle.
pub open spec fn deflected_vx(vx: int, side: Side, hit: bool) -> int {
    if hit {
        match side {
            Side::Left => if vx < 0 { -vx } else { vx },
            Side::Right => if vx > 0 { -vx } else { vx },
        }
    } else {
        vx
    }
}

/// Whether a ball box centered at `(bx, by)` with size `b_size` overlaps
/// `paddle`'s box.  The coordinates are taken as mathematical integers so
/// the frame-level spec can feed in an already-corrected position.
pub open spec fn paddle_hit(bx: int, by: int, b_size: Vec2, paddle: Paddle) -> bool {
    &&& spans_overlap(bx, b_size.x as int, paddle.pos.x as int, paddle.size.x as int)
    &&& spans_overlap(by, b_size.y as int, paddle.pos.y as int, paddle.size.y as int)
}

/// One component of integrated motion: position plus velocity times the
/// clamped elapsed time.
pub open spec fn moved(p: int, v: int, dt_ms: u64) -> int {
    p + v * clamped_dt(dt_ms)
}

/// The movement direction a pair of held keys asks for: up minus down.
pub open spec fn key_movement(up_held: bool, down_held: bool) -> int {
    (if up_held { 1int } else { 0int }) - (if down_held { 1int } else { 0int })
}

/// A paddle's vertical position after one motion step: the requested
/// movement integrated over the raw elapsed time, then clamped to the
/// field's vertical extent.
pub open spec fn paddle_moved_y(y: int, up_held: bool, down_held: bool, dt_ms: u64, h: int) -> int {
    clamped(y + key_movement(up_held, down_held) * PADDLE_SPEED * dt_ms as int, -(h / 2), h / 2)
}

/// The ball has left the field past the right boundary, so the left player
/// scores.
pub open spec fn left_scored(x: int, w: int) -> bool {
    x > w / 2
}

/// The ball has left the field past the left boundary, so the right player
/// scores.
pub open spec fn right_scored(x: int, w: int) -> bool {
    x < -(w / 2)
}

/// A score counter after one more point: wraps only at the representable
/// maximum.
pub open spec fn bumped_score(c: u16) -> int {
    if c == 0xffff {
        0int
    } else {
        c + 1
    }
}

/// Wall-bounce stage: clamp the ball's vertical position onto the field
/// and reflect its vertical velocity on wall contact.  The velocity is
/// negated only while it still points out of the field, which makes the
/// stage idempotent within a frame.
pub fn ball_wall_bounce(ball: &mut Ball, field: &Field)
    requires
        old(ball).wf(),
        field.wf(),
    ensures
        final(ball).wf(),
        final(ball).size == old(ball).size,
        final(ball).pos.x == old(ball).pos.x,
        final(ball).vel.x == old(ball).vel.x,
        final(ball).pos.y as int == wall_bounced_y(old(ball).pos.y as int, field.height as int),
        final(ball).vel.y as int == wall_bounced_vy(
            old(ball).pos.y as int,
            old(ball).vel.y as int,
            field.height as int,
        ),
        -field.half_h() <= final(ball).pos.y as int <= field.half_h(),
{
    let half_h = field.height / 2;
    if ball.pos.y < -half_h {
        ball.pos.y = -half_h;
        if ball.vel.y < 0 {
            ball.vel.y = -ball.vel.y;
        }
    }
    if ball.pos.y > half_h {
        ball.pos.y = half_h;
        if ball.vel.y > 0 {
            ball.vel.y = -ball.vel.y;
        }
    }
}

/// Paddle-bounce stage for one paddle: on bounding-box overlap, reflect
/// the ball's horizontal velocity toward the open field, but only when the
/// ball still moves toward the paddle's side.
pub fn ball_paddle_bounce(ball: &mut Ball, paddle: &Paddle)
    requires
        old(ball).wf(),
        paddle.wf(),
        -POS_LIMIT <= old(ball).pos.x <= POS_LIMIT,
        -POS_LIMIT <= old(ball).pos.y <= POS_LIMIT,
    ensures
        final(ball).wf(),
        final(ball).size == old(ball).size,
        final(ball).pos == old(ball).pos,
        final(ball).vel.y == old(ball).vel.y,
        final(ball).vel.x as int == deflected_vx(
            old(ball).vel.x as int,
            paddle.side,
            boxes_overlap(old(ball).pos, old(ball).size, paddle.pos, paddle.size),
        ),
{
    if boxes_collide(ball.pos, ball.size, paddle.pos, paddle.size) {
        match paddle.side {
            Side::Left => {
                if ball.vel.x < 0 {
                    ball.vel.x = -ball.vel.x;
                }
            },
            Side::Right => {
                if ball.vel.x > 0 {
                    ball.vel.x = -ball.vel.x;
                }
            },
        }
    }
}

/// Ball-motion stage: integrate the ball's position from its velocity and
/// the elapsed time, clamped to `DT_CLAMP_MS` so a stalled frame cannot
/// tunnel the ball through a paddle or wall.
pub fn ball_move(ball: &mut Ball, dt_ms: u64)
    requires
        old(ball).wf(),
        -COORD_LIMIT <= old(ball).pos.x <= COORD_LIMIT,
        -COORD_LIMIT <= old(ball).pos.y <= COORD_LIMIT,
    ensures
        final(ball).wf(),
        final(ball).size == old(ball).size,
        final(ball).vel == old(ball).vel,
        final(ball).pos.x as int == moved(old(ball).pos.x as int, old(ball).vel.x as int, dt_ms),
        final(ball).pos.y as int == moved(old(ball).pos.y as int, old(ball).vel.y as int, dt_ms),
        -POS_LIMIT <= final(ball).pos.x <= POS_LIMIT,
        -POS_LIMIT <= final(ball).pos.y <= POS_LIMIT,
        old(ball).pos.x - MOTION_SLACK <= final(ball).pos.x <= old(ball).pos.x + MOTION_SLACK,
        old(ball).pos.y - MOTION_SLACK <= final(ball).pos.y <= old(ball).pos.y + MOTION_SLACK,
{
    let elapsed: i64 = if dt_ms > DT_CLAMP_MS {
        DT_CLAMP_MS as i64
    } else {
        dt_ms as i64
    };
    assert(
        -VEL_LIMIT * (DT_CLAMP_MS as int) <= ball.vel.x as int * elapsed as int
            <= VEL_LIMIT * (DT_CLAMP_MS as int)
    ) by (nonlinear_arith)
        requires
            -VEL_LIMIT <= ball.vel.x <= VEL_LIMIT,
            0 <= elapsed <= DT_CLAMP_MS,
    ;
    assert(
        -VEL_LIMIT * (DT_CLAMP_MS as int) <= ball.vel.y as int * elapsed as int
            <= VEL_LIMIT * (DT_CLAMP_MS as int)
    ) by (nonlinear_arith)
        requires
            -VEL_LIMIT <= ball.vel.y <= VEL_LIMIT,
            0 <= elapsed <= DT_CLAMP_MS,
    ;
    ball.pos.x = ball.pos.x + ball.vel.x * elapsed;
    ball.pos.y = ball.pos.y + ball.vel.y * elapsed;
}

/// Paddle-motion stage: integrate the paddle's vertical position from the
/// held keys and the raw elapsed time, then clamp it to the field's
/// vertical extent.  Only the ball clamps elapsed time; the paddle does
/// not, it is clamped positionally instead.
pub fn paddle_move(paddle: &mut Paddle, up_held: bool, down_held: bool, dt_ms: u64, field: &Field)
    requires
        old(paddle).wf(),
        field.wf(),
        dt_ms <= DT_LIMIT_MS,
    ensures
        final(paddle).wf(),
        final(paddle).side == old(paddle).side,
        final(paddle).size == old(paddle).size,
        final(paddle).pos.x == old(paddle).pos.x,
        final(paddle).pos.y as int == paddle_moved_y(
            old(paddle).pos.y as int,
            up_held,
            down_held,
            dt_ms,
            field.height as int,
        ),
        -field.half_h() <= final(paddle).pos.y as int <= field.half_h(),
{
    let mut movement: i64 = 0;
    if up_held {
        movement = movement + 1;
    }
    if down_held {
        movement = movement - 1;
    }
    assert(movement as int == key_movement(up_held, down_held));
    let step: i64 = movement * PADDLE_SPEED;
    assert(
        -(PADDLE_SPEED as int) * (DT_LIMIT_MS as int) <= step as int * (dt_ms as int)
            <= (PADDLE_SPEED as int) * (DT_LIMIT_MS as int)
    ) by (nonlinear_arith)
        requires
            -PADDLE_SPEED <= step <= PADDLE_SPEED,
            0 <= dt_ms <= DT_LIMIT_MS,
    ;
    let half_h = field.height / 2;
    let lifted: i64 = paddle.pos.y + step * (dt_ms as i64);
    paddle.pos.y = clamp_i64(lifted, -half_h, half_h);
}

/// Scoring stage: when the ball has left the field past a side boundary,
/// credit the opposite player, re-center the ball and restore the serve
/// velocity.  At most one side can be past its boundary in a frame; inside
/// the field nothing changes.
pub fn score_update(ball: &mut Ball, scores: &mut Scores, field: &Field)
    requires
        old(ball).wf(),
        field.wf(),
    ensures
        final(ball).wf(),
        final(ball).size == old(ball).size,
        left_scored(old(ball).pos.x as int, field.width as int) ==> {
            &&& final(ball).pos == (Vec2 { x: 0, y: 0 })
            &&& final(ball).vel == (Vec2 { x: SERVE_VELOCITY_X, y: SERVE_VELOCITY_Y })
            &&& final(scores).left as int == bumped_score(old(scores).left)
            &&& final(scores).right == old(scores).right
        },
        right_scored(old(ball).pos.x as int, field.width as int) ==> {
            &&& final(ball).pos == (Vec2 { x: 0, y: 0 })
            &&& final(ball).vel == (Vec2 { x: SERVE_VELOCITY_X, y: SERVE_VELOCITY_Y })
            &&& final(scores).right as int == bumped_score(old(scores).right)
            &&& final(scores).left == old(scores).left
        },
        !left_scored(old(ball).pos.x as int, field.width as int)
            && !right_scored(old(ball).pos.x as int, field.width as int) ==> {
            &&& *final(ball) == *old(ball)
            &&& *final(scores) == *old(scores)
        },
{
    let half_w = field.width / 2;
    if ball.pos.x > half_w {
        ball.vel = Vec2 { x: SERVE_VELOCITY_X, y: SERVE_VELOCITY_Y };
        ball.pos = Vec2 { x: 0, y: 0 };
        scores.left = if scores.left == 0xffff {
            0
        } else {
            scores.left + 1
        };
    } else if ball.pos.x < -half_w {
        ball.vel = Vec2 { x: SERVE_VELOCITY_X, y: SERVE_VELOCITY_Y };
        ball.pos = Vec2 { x: 0, y: 0 };
        scores.right = if scores.right == 0xffff {
            0
        } else {
            scores.right + 1
        };
    }
}

} // verus!
