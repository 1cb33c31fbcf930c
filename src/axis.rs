//! Choice of the cardinal axis least aligned with a 3D vector.
//!
//! A vector perpendicular to `v` is the cross product of `v` with the
//! cardinal axis along which `v` has the smallest absolute component. The
//! choice is made from the magnitudes alone, so it is stated here over
//! order keys of the magnitudes (see `order`).
use vstd::prelude::*;

use crate::order::{below, key_below};

verus! {

/// One of the three cardinal axes of 3D space.
#[derive(Clone, Copy, Debug, PartialEq, Eq, Structural)]
pub enum Axis {
    X,
    Y,
    Z,
}

/// The magnitude key of the component along `axis`.
pub open spec fn axis_key(axis: Axis, kx: Option<i64>, ky: Option<i64>, kz: Option<i64>) -> Option<
    i64,
> {
    match axis {
        Axis::X => kx,
        Axis::Y => ky,
        Axis::Z => kz,
    }
}

/// The cardinal axis least aligned with a vector whose component magnitudes
/// have keys `kx`, `ky`, `kz`: X is the first candidate, Y replaces it when
/// `ky` is below `kx`, and Z then replaces the candidate when `kz` is below
/// the candidate's key. Ties keep the earlier axis.
pub open spec fn least_aligned(kx: Option<i64>, ky: Option<i64>, kz: Option<i64>) -> Axis {
    if key_below(ky, kx) {
        if key_below(kz, ky) {
            Axis::Z
        } else {
            Axis::Y
        }
    } else if key_below(kz, kx) {
        Axis::Z
    } else {
        Axis::X
    }
}

/// Picks the cardinal axis least aligned with a vector whose component
/// magnitudes have keys `kx`, `ky`, `kz`, by two comparisons in turn.
pub fn least_aligned_axis(kx: Option<i64>, ky: Option<i64>, kz: Option<i64>) -> (r: Axis)
    ensures
        r == least_aligned(kx, ky, kz),
{
    let mut axis = Axis::X;
    let mut min = kx;
    if below(ky, min) {
        axis = Axis::Y;
        min = ky;
    }
    if below(kz, min) {
        axis = Axis::Z;
    }
    axis
}

/// When every magnitude is ordered, the chosen axis has the smallest
/// magnitude, and no earlier axis has one as small: the first minimum in the
/// order X, Y, Z. In particular an axis whose magnitude exceeds another's is
/// never chosen.
pub proof fn lemma_least_aligned_is_first_minimum(kx: i64, ky: i64, kz: i64)
    ensures
        ({
            let r = least_aligned(Some(kx), Some(ky), Some(kz));
            let m = axis_key(r, Some(kx), Some(ky), Some(kz))->0;
            &&& m <= kx
            &&& m <= ky
            &&& m <= kz
            &&& r == Axis::Y ==> m < kx
            &&& r == Axis::Z ==> m < kx && m < ky
        }),
{
}

} // verus!
