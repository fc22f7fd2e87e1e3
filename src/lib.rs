//! Inverse kinematics of a six-legged parallel manipulator (a Stewart
//! platform), computed exactly in fixed-point integer arithmetic.
//!
//! Lengths are integers in one unit of the caller's choosing (for example
//! micrometres). Directions and quaternion components are fixed-point numbers
//! in which `geometry::ONE` stands for 1.0.
pub mod geometry;
pub mod isqrt;
pub mod laws;
pub mod stewart;
