use rmath::{least_aligned_axis, Axis};

fn key(c: f64) -> Option<i64> {
    let m = c.abs();
    if m.is_nan() {
        None
    } else {
        Some(m.to_bits() as i64)
    }
}

fn axis_of(x: f64, y: f64, z: f64) -> Axis {
    least_aligned_axis(key(x), key(y), key(z))
}

#[test]
fn perpendicular_of_z_vector_avoids_z_axis() {
    let a = axis_of(0.0, 0.0, 5.0);
    assert_ne!(a, Axis::Z);
    assert_eq!(a, Axis::X);
}

#[test]
fn smallest_x_picks_x() {
    assert_eq!(axis_of(0.5, 2.0, 3.0), Axis::X);
}

#[test]
fn smallest_y_picks_y() {
    assert_eq!(axis_of(4.0, -1.0, 3.0), Axis::Y);
}

#[test]
fn smallest_z_picks_z() {
    assert_eq!(axis_of(4.0, 3.0, -0.25), Axis::Z);
    assert_eq!(axis_of(2.0, 7.0, 1.0), Axis::Z);
}

#[test]
fn ties_keep_the_earlier_axis() {
    assert_eq!(axis_of(1.0, 1.0, 1.0), Axis::X);
    assert_eq!(axis_of(3.0, 1.0, 1.0), Axis::Y);
    assert_eq!(axis_of(1.0, 3.0, 1.0), Axis::X);
    assert_eq!(axis_of(-2.0, 2.0, 5.0), Axis::X);
}

#[test]
fn signed_zero_counts_as_zero() {
    assert_eq!(axis_of(0.0, -0.0, 1.0), Axis::X);
    assert_eq!(axis_of(1.0, -0.0, 0.0), Axis::Y);
}

#[test]
fn magnitude_compares_not_sign() {
    assert_eq!(axis_of(-9.0, 3.0, -4.0), Axis::Y);
}

#[test]
fn infinite_magnitudes_order_last() {
    assert_eq!(axis_of(f64::INFINITY, 1.0e300, f64::NEG_INFINITY), Axis::Y);
}

#[test]
fn unordered_magnitude_is_never_below() {
    assert_eq!(axis_of(f64::NAN, 1.0, 0.5), Axis::X);
    assert_eq!(axis_of(3.0, f64::NAN, 1.0), Axis::Z);
    assert_eq!(axis_of(3.0, 1.0, f64::NAN), Axis::Y);
}

#[test]
fn keys_without_floats() {
    assert_eq!(least_aligned_axis(Some(7), Some(7), Some(6)), Axis::Z);
    assert_eq!(least_aligned_axis(None, None, None), Axis::X);
    assert_eq!(least_aligned_axis(Some(0), None, Some(0)), Axis::X);
}
