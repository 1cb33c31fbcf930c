//! Order keys.
//!
//! A key stands for a number by its place in the order: `Some(k)` for a
//! value whose key `k` compares as the value does (a zero of either sign has
//! key `0`, negative values negative keys), `None` for a value that is
//! ordered against nothing (a NaN). Comparisons on keys are then those on the
//! values: a `None` key is below, above and equal to nothing.
use vstd::prelude::*;

verus! {

/// `a` is strictly below `b`.
pub open spec fn key_below(a: Option<i64>, b: Option<i64>) -> bool {
    a is Some && b is Some && a->0 < b->0
}

/// `a` is below or equal to `b`.
pub open spec fn key_at_most(a: Option<i64>, b: Option<i64>) -> bool {
    a is Some && b is Some && a->0 <= b->0
}

pub fn below(a: Option<i64>, b: Option<i64>) -> (r: bool)
    ensures
        r == key_below(a, b),
{
    match (a, b) {
        (Some(x), Some(y)) => x < y,
        _ => false,
    }
}

pub fn at_most(a: Option<i64>, b: Option<i64>) -> (r: bool)
    ensures
        r == key_at_most(a, b),
{
    match (a, b) {
        (Some(x), Some(y)) => x <= y,
        _ => false,
    }
}

} // verus!
