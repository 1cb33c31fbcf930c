//! Which argument `clamp(value, min, max)` returns.
//!
//! Clamping returns one of its three arguments, chosen by two comparisons:
//! `min` when `value` is below it, and then `max` when the value kept so far
//! is above it. The choice is stated here over order keys (see `order`).
use vstd::prelude::*;

use crate::order::{below, key_at_most, key_below};

verus! {

/// The argument that a clamp returns.
#[derive(Clone, Copy, Debug, PartialEq, Eq, Structural)]
pub enum Bound {
    Value,
    Min,
    Max,
}

/// The key of the argument `b` among `kv`, `kmin`, `kmax`.
pub open spec fn bound_key(b: Bound, kv: Option<i64>, kmin: Option<i64>, kmax: Option<i64>) -> Option<
    i64,
> {
    match b {
        Bound::Value => kv,
        Bound::Min => kmin,
        Bound::Max => kmax,
    }
}

/// The argument returned by a clamp of a value with key `kv` to the bounds
/// with keys `kmin` and `kmax`: `min` replaces the value when the value is
/// below it, and `max` then replaces what was kept when it is below that.
pub open spec fn clamp_bound_spec(kv: Option<i64>, kmin: Option<i64>, kmax: Option<i64>) -> Bound {
    if key_below(kv, kmin) {
        if key_below(kmax, kmin) {
            Bound::Max
        } else {
            Bound::Min
        }
    } else if key_below(kmax, kv) {
        Bound::Max
    } else {
        Bound::Value
    }
}

/// Chooses the argument that a clamp returns, from the keys of the value
/// and of the two bounds.
pub fn clamp_bound(kv: Option<i64>, kmin: Option<i64>, kmax: Option<i64>) -> (r: Bound)
    ensures
        r == clamp_bound_spec(kv, kmin, kmax),
{
    let mut pick = Bound::Value;
    let mut kept = kv;
    if below(kv, kmin) {
        pick = Bound::Min;
        kept = kmin;
    }
    if below(kmax, kept) {
        pick = Bound::Max;
    }
    pick
}

/// For ordered bounds with `min <= max` and an ordered value, the clamped
/// result lies in `[min, max]`; a value already inside is returned itself.
pub proof fn lemma_clamp_within_bounds(v: i64, lo: i64, hi: i64)
    requires
        lo <= hi,
    ensures
        ({
            let b = clamp_bound_spec(Some(v), Some(lo), Some(hi));
            let k = bound_key(b, Some(v), Some(lo), Some(hi));
            &&& key_at_most(Some(lo), k)
            &&& key_at_most(k, Some(hi))
            &&& lo <= v <= hi ==> b == Bound::Value
        }),
{
}

} // verus!
