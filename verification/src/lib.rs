//! Verified core of a two-player Pong simulation.
//!
//! The library covers the per-frame state transitions of the game: ball
//! motion, wall and paddle reflection, paddle motion with clamping, and
//! scoring.  All quantities are integers in a fixed-point world: positions
//! and sizes are measured in milliunits (one thousandth of a world unit),
//! velocities in milliunits per millisecond (numerically the same as world
//! units per second), and time in milliseconds.  Windowing, rendering and
//! input-device polling are outside the core; a driver hands the simulation
//! plain key states and elapsed time each frame.

pub mod geom;
pub mod laws;
pub mod model;
pub mod sim;
pub mod stages;
