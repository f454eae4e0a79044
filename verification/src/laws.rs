//! Laws of the simulation that relate several stage applications: wall
//! reflection and its idempotence, the directional paddle bounce, and the
//! paddle's clamped climb to the top wall.

use vstd::prelude::*;

use crate::model::Side;
use crate::model::PADDLE_SPEED;
use crate::stages::deflected_vx;
use crate::stages::left_scored;
use crate::stages::paddle_moved_y;
use crate::stages::right_scored;
use crate::stages::wall_bounced_vy;
use crate::stages::wall_bounced_y;

verus! {

/// Wall reflection: a ball driven past a wall with nonzero vertical
/// velocity is, after one wall-bounce application, exactly on that wall,
/// and its vertical velocity has the sign that moves it back into the
/// field.
pub proof fn lemma_wall_reflection(y: int, vy: int, h: int)
    requires
        0 < h,
        vy != 0,
        y < -(h / 2) || y > h / 2,
    ensures
        y < -(h / 2) ==> wall_bounced_y(y, h) == -(h / 2) && wall_bounced_vy(y, vy, h) > 0,
        y > h / 2 ==> wall_bounced_y(y, h) == h / 2 && wall_bounced_vy(y, vy, h) < 0,
{
}

/// Wall idempotence: applying the wall-bounce stage a second time to an
/// already-corrected state changes nothing — the clamp is stable and the
/// velocity is never flipped twice.
pub proof fn lemma_wall_idempotent(y: int, vy: int, h: int)
    requires
        0 < h,
    ensures
        wall_bounced_y(wall_bounced_y(y, h), h) == wall_bounced_y(y, h),
        wall_bounced_vy(wall_bounced_y(y, h), wall_bounced_vy(y, vy, h), h)
            == wall_bounced_vy(y, vy, h),
{
}

/// Paddle bounce directionality: on overlap, a ball already moving away
/// from the paddle's side is left unchanged, and one moving toward it is
/// reflected to move away; without overlap nothing changes.
pub proof fn lemma_paddle_bounce_direction(vx: int, side: Side, hit: bool)
    ensures
        !hit ==> deflected_vx(vx, side, hit) == vx,
        hit && side == Side::Left && vx > 0 ==> deflected_vx(vx, side, hit) == vx,
        hit && side == Side::Left && vx < 0 ==> deflected_vx(vx, side, hit) == -vx
            && deflected_vx(vx, side, hit) > 0,
        hit && side == Side::Right && vx < 0 ==> deflected_vx(vx, side, hit) == vx,
        hit && side == Side::Right && vx > 0 ==> deflected_vx(vx, side, hit) == -vx
            && deflected_vx(vx, side, hit) < 0,
{
}

/// Reflection only negates a sign, it never zeroes: a nonzero velocity
/// component stays nonzero through the wall and paddle stages.
pub proof fn lemma_reflection_never_zeroes(y: int, v: int, h: int, side: Side, hit: bool)
    requires
        v != 0,
    ensures
        wall_bounced_vy(y, v, h) != 0,
        deflected_vx(v, side, hit) != 0,
{
}

/// At most one side can score in a frame: the ball cannot be past both
/// side boundaries at once.
pub proof fn lemma_score_exclusive(x: int, w: int)
    requires
        0 < w,
    ensures
        !(left_scored(x, w) && right_scored(x, w)),
{
}

/// One paddle-motion step with the up key held: the paddle never passes
/// the top wall, never moves down, and lands exactly on the top wall as
/// soon as the unclamped step would reach it.
pub proof fn lemma_paddle_clamp_step(y: int, dt_ms: u64, h: int)
    requires
        0 < h,
        -(h / 2) <= y <= h / 2,
    ensures
        paddle_moved_y(y, true, false, dt_ms, h) <= h / 2,
        paddle_moved_y(y, true, false, dt_ms, h) >= y,
        y + PADDLE_SPEED * dt_ms as int >= h / 2 ==> paddle_moved_y(y, true, false, dt_ms, h)
            == h / 2,
{
}

/// A paddle's vertical position after a whole run of frames, the up key
/// held throughout, each frame with its own elapsed time.
pub open spec fn driven_up_y(y: int, dts: Seq<u64>, h: int) -> int
    decreases dts.len(),
{
    if dts.len() == 0 {
        y
    } else {
        driven_up_y(
            paddle_moved_y(y, true, false, dts[0], h),
            dts.subrange(1, dts.len() as int),
            h,
        )
    }
}

/// Sustained upward drive stays within the field: over any run of frames
/// with the up key held, the paddle's position remains in
/// `[-h/2, h/2]` and never decreases.
pub proof fn lemma_paddle_drive_bounded(y: int, dts: Seq<u64>, h: int)
    requires
        0 < h,
        -(h / 2) <= y <= h / 2,
    ensures
        y <= driven_up_y(y, dts, h) <= h / 2,
        -(h / 2) <= driven_up_y(y, dts, h),
    decreases dts.len(),
{
    if dts.len() > 0 {
        lemma_paddle_clamp_step(y, dts[0], h);
        lemma_paddle_drive_bounded(
            paddle_moved_y(y, true, false, dts[0], h),
            dts.subrange(1, dts.len() as int),
            h,
        );
    }
}

/// The total upward displacement a run of frames asks for, before
/// clamping.
pub open spec fn driven_up_total(dts: Seq<u64>) -> int
    decreases dts.len(),
{
    if dts.len() == 0 {
        0int
    } else {
        PADDLE_SPEED * dts[0] as int + driven_up_total(dts.subrange(1, dts.len() as int))
    }
}

/// The requested displacement of an upward run is never negative.
pub proof fn lemma_driven_up_total_nonneg(dts: Seq<u64>)
    ensures
        driven_up_total(dts) >= 0,
    decreases dts.len(),
{
    if dts.len() > 0 {
        lemma_driven_up_total_nonneg(dts.subrange(1, dts.len() as int));
    }
}

/// Paddle clamp: a paddle driven upward for enough simulated time — any
/// run of frames whose requested displacement covers its distance to the
/// top wall — ends exactly on the top wall, and by `lemma_paddle_drive_bounded`
/// it never exceeds it on the way.
pub proof fn lemma_paddle_reaches_top(y: int, dts: Seq<u64>, h: int)
    requires
        0 < h,
        -(h / 2) <= y <= h / 2,
        driven_up_total(dts) >= h / 2 - y,
    ensures
        driven_up_y(y, dts, h) == h / 2,
    decreases dts.len(),
{
    if dts.len() == 0 {
        assert(y == h / 2);
    } else {
        lemma_paddle_clamp_step(y, dts[0], h);
        let y1 = paddle_moved_y(y, true, false, dts[0], h);
        let rest = dts.subrange(1, dts.len() as int);
        if y + PADDLE_SPEED * dts[0] as int >= h / 2 {
            lemma_driven_up_total_nonneg(rest);
            lemma_paddle_reaches_top(y1, rest, h);
        } else {
            assert(y1 == y + PADDLE_SPEED * dts[0] as int);
            lemma_paddle_reaches_top(y1, rest, h);
        }
    }
}

} // verus!
