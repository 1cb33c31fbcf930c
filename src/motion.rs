//! When a move towards a target reaches it.
//!
//! A point moving towards a target by at most `max_distance` lands on the
//! target when the two already coincide, or when `max_distance` is not
//! negative and the squared distance is at most `max_distance` squared. The
//! test is stated here over order keys (see `order`) of the squared
//! distance, of `max_distance` and of its square. A negative `max_distance`
//! never reaches a target that is elsewhere: the move then goes away from it.
use vstd::prelude::*;

use crate::order::{at_most, key_at_most};

verus! {

/// A move reaches its target: the squared distance has key `kdist_sq`,
/// `max_distance` has key `kmax`, and its square has key `kmax_sq`.
pub open spec fn reaches_target_spec(
    kdist_sq: Option<i64>,
    kmax: Option<i64>,
    kmax_sq: Option<i64>,
) -> bool {
    kdist_sq == Some(0i64) || (key_at_most(Some(0i64), kmax) && key_at_most(kdist_sq, kmax_sq))
}

/// Whether a move lands on its target instead of stepping towards it.
pub fn reaches_target(kdist_sq: Option<i64>, kmax: Option<i64>, kmax_sq: Option<i64>) -> (r: bool)
    ensures
        r == reaches_target_spec(kdist_sq, kmax, kmax_sq),
{
    let coincide = match kdist_sq {
        Some(k) => k == 0,
        None => false,
    };
    coincide || (at_most(Some(0), kmax) && at_most(kdist_sq, kmax_sq))
}

/// A point that coincides with its target reaches it, whatever the maximal
/// distance, negative or unordered ones included.
pub proof fn lemma_coincident_reaches_target(kmax: Option<i64>, kmax_sq: Option<i64>)
    ensures
        reaches_target_spec(Some(0i64), kmax, kmax_sq),
{
}

/// A negative maximal distance reaches only a target that coincides with
/// the point.
pub proof fn lemma_negative_reach_only_coincident(
    kdist_sq: Option<i64>,
    kmax: i64,
    kmax_sq: Option<i64>,
)
    requires
        kmax < 0,
    ensures
        reaches_target_spec(kdist_sq, Some(kmax), kmax_sq) <==> kdist_sq == Some(0i64),
{
}

} // verus!
