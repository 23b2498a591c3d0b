//! Core logic of a small 2D space shooter: fixed-point kinematics with
//! screen wrap-around, bullet time-to-live, an asteroid splitting policy,
//! and a current/previous screen state machine.
//!
//! All coordinates, velocities, angles and timestamps are integers in
//! milli-units (one unit of the rendered world is 1000 here), so that the
//! frame rules can be stated and checked exactly.

pub mod angle;
pub mod asteroid;
pub mod bullet;
pub mod fixed;
pub mod geom;
pub mod screen;
pub mod ship;
pub mod world;
