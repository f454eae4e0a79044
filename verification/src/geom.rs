//! Integer plane geometry: vectors, clamping, and the axis-aligned
//! bounding-box overlap test shared by the collision stages.

use vstd::prelude::*;

verus! {

/// A two-dimensional integer vector.
///
/// Coordinates and sizes are measured in milliunits (one thousandth of a
/// world unit); velocities in milliunits per millisecond, which is
/// numerically the same as world units per second.
#[derive(Clone, Copy, PartialEq, Eq, Structural, Debug)]
pub struct Vec2 {
    pub x: i64,
    pub y: i64,
}

/// Largest coordinate magnitude the overlap test accepts; positions stay
/// far below `i64` range so half-extent sums cannot overflow.
pub const POS_LIMIT: i64 = 2_000_000_000_000_000;

/// Largest coordinate magnitude the motion stage accepts as input; one
/// clamped step of motion keeps the result under `POS_LIMIT`.
pub const COORD_LIMIT: i64 = 1_000_000_000_000_000;

/// Largest velocity magnitude of a well-formed ball.
pub const VEL_LIMIT: i64 = 1_000_000_000_000;

/// Largest extent of the field and of any entity's bounding box.
pub const DIM_LIMIT: i64 = 1_000_000_000;

/// `v` forced into the interval `[lo, hi]`.
pub open spec fn clamped(v: int, lo: int, hi: int) -> int {
    if v < lo {
        lo
    } else if v > hi {
        hi
    } else {
        v
    }
}

/// Clamp `v` into `[lo, hi]`.
pub fn clamp_i64(v: i64, lo: i64, hi: i64) -> (r: i64)
    requires
        lo <= hi,
    ensures
        r == clamped(v as int, lo as int, hi as int),
{
    if v < lo {
        lo
    } else if v > hi {
        hi
    } else {
        v
    }
}

/// Strict overlap of two one-dimensional spans given by their centers and
/// lengths.  Half-extents are `len / 2`; spans that merely touch do not
/// overlap.
pub open spec fn spans_overlap(a_center: int, a_len: int, b_center: int, b_len: int) -> bool {
    &&& a_center - a_len / 2 < b_center + b_len / 2
    &&& a_center + a_len / 2 > b_center - b_len / 2
}

/// Strict overlap of two axis-aligned boxes given by center and size.
pub open spec fn boxes_overlap(a_pos: Vec2, a_size: Vec2, b_pos: Vec2, b_size: Vec2) -> bool {
    &&& spans_overlap(a_pos.x as int, a_size.x as int, b_pos.x as int, b_size.x as int)
    &&& spans_overlap(a_pos.y as int, a_size.y as int, b_pos.y as int, b_size.y as int)
}

/// Axis-aligned bounding-box overlap test between two boxes given by their
/// centers and sizes.
pub fn boxes_collide(a_pos: Vec2, a_size: Vec2, b_pos: Vec2, b_size: Vec2) -> (r: bool)
    requires
        -POS_LIMIT <= a_pos.x <= POS_LIMIT,
        -POS_LIMIT <= a_pos.y <= POS_LIMIT,
        -POS_LIMIT <= b_pos.x <= POS_LIMIT,
        -POS_LIMIT <= b_pos.y <= POS_LIMIT,
        0 < a_size.x <= DIM_LIMIT,
        0 < a_size.y <= DIM_LIMIT,
        0 < b_size.x <= DIM_LIMIT,
        0 < b_size.y <= DIM_LIMIT,
    ensures
        r == boxes_overlap(a_pos, a_size, b_pos, b_size),
{
    let a_half_x = a_size.x / 2;
    let a_half_y = a_size.y / 2;
    let b_half_x = b_size.x / 2;
    let b_half_y = b_size.y / 2;
    (a_pos.x - a_half_x < b_pos.x + b_half_x) && (a_pos.x + a_half_x > b_pos.x - b_half_x)
        && (a_pos.y - a_half_y < b_pos.y + b_half_y) && (a_pos.y + a_half_y > b_pos.y - b_half_y)
}

} // verus!
