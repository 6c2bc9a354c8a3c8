//! A flocking simulation in fixed-point arithmetic.
//!
//! Every quantity (a coordinate, a speed, a range, a factor) is an integer
//! count of millionths: the integer `1_000_000` stands for `1.0`.  One tick
//! takes a frozen flock and gives the next one; each agent's new state is
//! computed from the frozen flock alone.

pub mod agent;
pub mod control;
pub mod estimate;
pub mod fixed;
pub mod force;
pub mod motion;
pub mod params;
pub mod root;
pub mod simulation;
pub mod spawn;
pub mod speed;
