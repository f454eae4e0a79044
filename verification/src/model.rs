//! The entities of the simulation: field, paddles, ball, score counters and
//! the per-frame input snapshot, with their well-formedness invariants and
//! the fixed gameplay constants.

use vstd::prelude::*;

use crate::geom::Vec2;
use crate::geom::DIM_LIMIT;
use crate::geom::VEL_LIMIT;

verus! {

/// Upper bound on the elapsed time the ball's motion stage uses for one
/// frame, in milliseconds.  Longer stalls are clamped so a single frame
/// cannot move the ball far enough to tunnel through a paddle or wall.
pub const DT_CLAMP_MS: u64 = 200;

/// Largest elapsed time a single frame may report, in milliseconds.  The
/// paddle stage integrates the raw elapsed time, so it needs this bound to
/// keep its arithmetic in range.
pub const DT_LIMIT_MS: u64 = 1_000_000_000;

/// Paddle speed, in milliunits per millisecond (world units per second).
pub const PADDLE_SPEED: i64 = 256;

/// Horizontal component of the serve velocity the ball gets at session
/// start and after each score.
pub const SERVE_VELOCITY_X: i64 = 256;

/// Vertical component of the serve velocity.
pub const SERVE_VELOCITY_Y: i64 = 256;

/// Largest distance, in milliunits, a well-formed ball can travel in one
/// clamped motion step: `VEL_LIMIT` times `DT_CLAMP_MS`.
pub const MOTION_SLACK: i64 = 200_000_000_000_000;

/// Side length of the ball's bounding box, in milliunits (8 world units).
pub const BALL_SIZE: i64 = 8_000;

/// Width of a paddle's bounding box, in milliunits (30 world units).
pub const PADDLE_WIDTH: i64 = 30_000;

/// Height of a paddle's bounding box, in milliunits (240 world units).
pub const PADDLE_HEIGHT: i64 = 240_000;

/// Distance from a side boundary to its paddle's center, in milliunits
/// (35 world units).
pub const PADDLE_WALL_OFFSET: i64 = 35_000;

/// Which side of the field a paddle defends.  Fixed at creation.
#[derive(Clone, Copy, PartialEq, Eq, Structural, Debug)]
pub enum Side {
    Left,
    Right,
}

/// Immutable per-session play-field configuration.  The field spans
/// `x in [-width/2, width/2]` and `y in [-height/2, height/2]`.
#[derive(Clone, Copy, PartialEq, Eq, Structural, Debug)]
pub struct Field {
    pub width: i64,
    pub height: i64,
}

impl Field {
    /// Dimensions are strictly positive and small enough for the stages'
    /// arithmetic.
    pub open spec fn wf(self) -> bool {
        &&& 0 < self.width <= DIM_LIMIT
        &&& 0 < self.height <= DIM_LIMIT
    }

    /// The x coordinate of the right boundary; the left boundary is its
    /// negation.
    pub open spec fn half_w(self) -> int {
        self.width as int / 2
    }

    /// The y coordinate of the top wall; the bottom wall is its negation.
    pub open spec fn half_h(self) -> int {
        self.height as int / 2
    }
}

/// The ball: center position, velocity and bounding-box size.
#[derive(Clone, Copy, PartialEq, Eq, Structural, Debug)]
pub struct Ball {
    pub pos: Vec2,
    pub vel: Vec2,
    pub size: Vec2,
}

impl Ball {
    /// The bounding box is strictly positive and the velocity within the
    /// range the motion stage's arithmetic supports.
    pub open spec fn wf(self) -> bool {
        &&& 0 < self.size.x <= DIM_LIMIT
        &&& 0 < self.size.y <= DIM_LIMIT
        &&& -VEL_LIMIT <= self.vel.x <= VEL_LIMIT
        &&& -VEL_LIMIT <= self.vel.y <= VEL_LIMIT
    }
}

/// A paddle: its side, center position (x fixed per side, y mutable) and
/// bounding-box size.
#[derive(Clone, Copy, PartialEq, Eq, Structural, Debug)]
pub struct Paddle {
    pub side: Side,
    pub pos: Vec2,
    pub size: Vec2,
}

impl Paddle {
    /// The bounding box is strictly positive and the position within the
    /// range the collision stage's arithmetic supports.
    pub open spec fn wf(self) -> bool {
        &&& 0 < self.size.x <= DIM_LIMIT
        &&& 0 < self.size.y <= DIM_LIMIT
        &&& -DIM_LIMIT <= self.pos.x <= DIM_LIMIT
        &&& -DIM_LIMIT <= self.pos.y <= DIM_LIMIT
    }
}

/// The pair of score counters.  Unsigned; they wrap only at the
/// representable maximum.
#[derive(Clone, Copy, PartialEq, Eq, Structural, Debug)]
pub struct Scores {
    pub left: u16,
    pub right: u16,
}

impl Default for Scores {
    /// A fresh session starts at zero for both players.
    fn default() -> (s: Scores)
        ensures
            s.left == 0,
            s.right == 0,
    {
        Scores { left: 0, right: 0 }
    }
}

/// Snapshot of the held movement keys for one frame, one up/down pair per
/// paddle side.  Produced by the input collaborator outside the core.
#[derive(Clone, Copy, PartialEq, Eq, Structural, Debug)]
pub struct InputState {
    pub left_up: bool,
    pub left_down: bool,
    pub right_up: bool,
    pub right_down: bool,
}

impl InputState {
    /// A frame in which no movement key is held.
    pub fn released() -> (i: InputState)
        ensures
            i == (InputState { left_up: false, left_down: false, right_up: false, right_down: false }),
    {
        InputState { left_up: false, left_down: false, right_up: false, right_down: false }
    }
}

} // verus!
