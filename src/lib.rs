//! Geometry helpers for 2D/3D vector math.
//!
//! The vector types themselves carry 64-bit floating-point components; the
//! part of their logic that is decided by comparisons alone lives here, over
//! integer order keys, and is verified.
mod axis;
mod motion;
mod order;
mod scalar;

pub use axis::{
    Axis, axis_key, least_aligned, least_aligned_axis, lemma_least_aligned_is_first_minimum,
};
pub use motion::{
    lemma_coincident_reaches_target, lemma_negative_reach_only_coincident, reaches_target,
    reaches_target_spec,
};
pub use order::{key_at_most, key_below};
pub use scalar::{Bound, bound_key, clamp_bound, clamp_bound_spec, lemma_clamp_within_bounds};
