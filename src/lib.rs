//! A packed vector of four single-precision lanes, each held as its
//! IEEE-754 bit pattern, with the lane-exact part of its algebra verified:
//! construction, memory movement, lane access, bitwise operations,
//! sign manipulation and floating-point equality.
pub mod lanes;
pub mod laws;
pub mod power;
pub mod vec4f;

pub use vec4f::Vec4f;
pub use power::{nan_vec, pow_start, pow_plan, pow_step, PowPlan, PowStep, ONE, QUIET_NAN};
