//! Latency-compensating input prediction.
//!
//! The crate extrapolates recent pointer-motion and scroll samples forward in
//! time, so that a host input pipeline can hand a renderer the position an
//! input is expected to reach once sampling and rendering latency have passed.
//!
//! All quantities are fixed-point integers: timestamps are nanoseconds and
//! motion deltas are millionths of an input unit, so the whole computation is
//! exact integer arithmetic with proved bounds.

pub mod boundary;
pub mod num;
pub mod predictor;
pub mod tracker;
