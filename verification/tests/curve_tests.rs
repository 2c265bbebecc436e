//! Curves: endpoints, monotonicity, and the smooth minimum.

use noiz::curves::{CubicSMin, Curve, Linear, SampleDerivative, SmoothMin, Smoothstep};
use noiz::fixed::FP_ONE;

#[test]
fn smoothstep_fixes_endpoints() {
    assert_eq!(Smoothstep.sample_unchecked(0), 0);
    assert_eq!(Smoothstep.sample_unchecked(FP_ONE), FP_ONE);
}

#[test]
fn smoothstep_is_monotone_on_probe_points() {
    // Twenty evenly spaced probe points across the unit interval.
    let mut previous = -1i64;
    for i in 0..20i64 {
        let t = i * FP_ONE / 19;
        let v = Smoothstep.sample_unchecked(t);
        assert!(v >= previous);
        assert!(0 <= v && v <= FP_ONE);
        previous = v;
    }
}

#[test]
fn smoothstep_midpoint_is_exact() {
    // At one half the curve passes through one half exactly.
    assert_eq!(Smoothstep.sample_unchecked(FP_ONE / 2), FP_ONE / 2);
}

#[test]
fn smoothstep_is_flat_at_endpoints() {
    let (v0, d0) = Smoothstep.sample_with_derivative_unchecked(0);
    let (v1, d1) = Smoothstep.sample_with_derivative_unchecked(FP_ONE);
    assert_eq!(v0, 0);
    assert_eq!(d0, 0);
    assert_eq!(v1, FP_ONE);
    assert_eq!(d1, 0);
}

#[test]
fn linear_is_identity() {
    assert_eq!(Linear.sample_unchecked(0), 0);
    assert_eq!(Linear.sample_unchecked(12345), 12345);
    assert_eq!(Linear.sample_unchecked(FP_ONE), FP_ONE);
    let (v, d) = Linear.sample_with_derivative_unchecked(777);
    assert_eq!(v, 777);
    assert_eq!(d, FP_ONE);
}

#[test]
fn cubic_smin_is_plain_min_for_wide_gaps() {
    let radius = FP_ONE / 4;
    // The gap is at least four radii, so the plain minimum comes back.
    let a = 2 * FP_ONE;
    let b = 0;
    assert_eq!(CubicSMin::smin(a, b, radius), b);
    assert_eq!(CubicSMin::smin(b, a, radius), b);
}

#[test]
fn cubic_smin_dips_below_min_near_equality() {
    let radius = FP_ONE / 4;
    let a = FP_ONE;
    let b = FP_ONE;
    // Equal arguments blend fully: the dip is exactly the blend radius.
    let blended = CubicSMin::smin(a, b, radius);
    assert_eq!(blended, FP_ONE - radius);
    // A gap under four radii still dips below the plain minimum.
    let near = CubicSMin::smin(FP_ONE, FP_ONE + radius, radius);
    assert!(near < FP_ONE);
}
