//! A small numeric service for measuring call overhead across a foreign
//! function boundary: a checked sum of two 64-bit integers, and a bracket that
//! times a piece of work on the monotonic clock.
//!
//! Every function here is stateless and keeps nothing of its arguments after it
//! returns.

pub mod arith;
pub mod timing;

pub use arith::{sum_as_i64, SumError};
pub use timing::with_timing;
