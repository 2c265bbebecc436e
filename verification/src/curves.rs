//! Curves: scalar remapping functions over the unit interval.
//!
//! A curve maps a fixed-point value in `[0, 1]` to a fixed-point value in
//! `[0, 1]`, hits both endpoints exactly, and is what the interpolating
//! noise functions blend with.

use vstd::prelude::*;

use crate::fixed::{floor_div, lemma_floor_div_mono, lemma_floor_div_range, lemma_mul_le, FP_ONE};

verus! {

/// A scalar remapping function over the unit interval.
///
/// Every curve fixes its endpoints — `0` maps to `0` and `1` maps to `1`,
/// exactly — so interpolation driven by a curve agrees across cell
/// boundaries.
pub trait Curve: Sized {
    /// The value the curve takes at `t`.
    spec fn sample_spec(&self, t: i64) -> i64;

    /// Samples the curve at `t` in `[0, 1]`.
    fn sample_unchecked(&self, t: i64) -> (r: i64)
        requires
            0 <= t <= FP_ONE,
        ensures
            r == self.sample_spec(t),
            0 <= r <= FP_ONE,
            t == 0 ==> r == 0,
            t == FP_ONE ==> r == FP_ONE,
    ;

    /// The curve's bounds and endpoints, at the specification level.
    proof fn lemma_sample_props(&self, t: i64)
        requires
            0 <= t <= FP_ONE,
        ensures
            0 <= self.sample_spec(t) <= FP_ONE,
            self.sample_spec(0) == 0,
            self.sample_spec(FP_ONE) == FP_ONE,
    ;
}

/// Linear interpolation: the curve that keeps `t` as it is.
#[derive(Clone, Copy, PartialEq, Eq, Structural, Debug)]
pub struct Linear;

impl Default for Linear {
    /// There is only one `Linear`.
    fn default() -> (r: Self)
        ensures
            r == Linear,
    {
        Linear
    }
}

impl Curve for Linear {
    open spec fn sample_spec(&self, t: i64) -> i64 {
        t
    }

    fn sample_unchecked(&self, t: i64) -> (r: i64) {
        t
    }

    proof fn lemma_sample_props(&self, t: i64) {
    }
}

/// What [`Smoothstep`] computes: `t * t * (3 - 2 * t)`, evaluated in one
/// rounding step so the whole curve is monotone.
pub open spec fn smoothstep_spec(t: i64) -> i64 {
    ((t * t * (3 * FP_ONE - 2 * t)) / (FP_ONE as int * FP_ONE as int)) as i64
}

/// Smoothstep interpolation: flat at both endpoints, monotone in between.
#[derive(Clone, Copy, PartialEq, Eq, Structural, Debug)]
pub struct Smoothstep;

impl Default for Smoothstep {
    /// There is only one `Smoothstep`.
    fn default() -> (r: Self)
        ensures
            r == Smoothstep,
    {
        Smoothstep
    }
}

/// The numerator of the smoothstep formula never exceeds the cube of the
/// unit, so the curve stays within the unit interval.
proof fn lemma_smoothstep_numerator_bounds(t: int)
    requires
        0 <= t <= FP_ONE,
    ensures
        0 <= t * t * (3 * FP_ONE - 2 * t),
        t * t * (3 * FP_ONE - 2 * t) <= FP_ONE as int * FP_ONE as int * FP_ONE as int,
{
    let k = FP_ONE as int;
    assert(0 <= t * t * (3 * k - 2 * t) && t * t * (3 * k - 2 * t) <= k * k * k)
        by (nonlinear_arith)
        requires
            0 <= t <= k,
            k == 65536,
        {
            assert((k - t) * (k - t) * (k + 2 * t) >= 0);
            assert(k * k * k - t * t * (3 * k - 2 * t) == (k - t) * (k - t) * (k + 2 * t));
        }
}

/// The numerator of the smoothstep formula is monotone over the unit interval.
proof fn lemma_smoothstep_numerator_mono(t1: int, t2: int)
    requires
        0 <= t1 <= t2 <= FP_ONE,
    ensures
        t1 * t1 * (3 * FP_ONE - 2 * t1) <= t2 * t2 * (3 * FP_ONE - 2 * t2),
{
    let k = FP_ONE as int;
    assert(t1 * t1 * (3 * k - 2 * t1) <= t2 * t2 * (3 * k - 2 * t2)) by (nonlinear_arith)
        requires
            0 <= t1 <= t2 <= k,
        {
            assert(t2 * t2 * (3 * k - 2 * t2) - t1 * t1 * (3 * k - 2 * t1) == (t2 - t1) * (3 * k
                * (t1 + t2) - 2 * (t1 * t1 + t1 * t2 + t2 * t2)));
            assert(t1 * t1 <= k * t1);
            assert(t2 * t2 <= k * t2);
            assert(2 * (t1 * t2) <= k * t1 + k * t2);
        }
}

impl Curve for Smoothstep {
    open spec fn sample_spec(&self, t: i64) -> i64 {
        smoothstep_spec(t)
    }

    fn sample_unchecked(&self, t: i64) -> (r: i64) {
        proof {
            lemma_mul_le(t as int, t as int, FP_ONE as int, FP_ONE as int);
            lemma_smoothstep_numerator_bounds(t as int);
            lemma_floor_div_range(
                t as int * t as int * (3 * FP_ONE - 2 * t as int),
                FP_ONE as int * FP_ONE as int,
                0,
                FP_ONE as int,
            );
            if t == FP_ONE {
                assert(t as int * t as int * (3 * FP_ONE - 2 * t as int) == FP_ONE as int
                    * FP_ONE as int * FP_ONE as int) by (nonlinear_arith)
                    requires
                        t == FP_ONE,
                ;
            }
        }
        let a: i64 = t * t;
        let b: i64 = 3 * FP_ONE - 2 * t;
        proof {
            lemma_mul_le(a as int, b as int, 0x1_0000_0000, 3 * FP_ONE as int);
        }
        floor_div(a * b, FP_ONE * FP_ONE)
    }

    proof fn lemma_sample_props(&self, t: i64) {
        lemma_smoothstep_monotone(0, t);
        lemma_smoothstep_monotone(t, FP_ONE);
    }
}

/// Law: smoothstep is monotone on the whole unit interval — not merely at
/// probe points — and fixes both endpoints.
pub proof fn lemma_smoothstep_monotone(t1: i64, t2: i64)
    requires
        0 <= t1 <= t2 <= FP_ONE,
    ensures
        smoothstep_spec(t1) <= smoothstep_spec(t2),
        smoothstep_spec(0) == 0,
        smoothstep_spec(FP_ONE) == FP_ONE,
{
    let k = FP_ONE as int;
    lemma_smoothstep_numerator_bounds(t1 as int);
    lemma_smoothstep_numerator_bounds(t2 as int);
    lemma_floor_div_range(t1 as int * t1 as int * (3 * k - 2 * t1 as int), k * k, 0, k);
    lemma_floor_div_range(t2 as int * t2 as int * (3 * k - 2 * t2 as int), k * k, 0, k);
    lemma_smoothstep_numerator_mono(t1 as int, t2 as int);
    lemma_floor_div_mono(
        t1 as int * t1 as int * (3 * k - 2 * t1 as int),
        t2 as int * t2 as int * (3 * k - 2 * t2 as int),
        k * k,
    );
    assert(0int * 0int * (3 * k - 2 * 0int) == 0) by (nonlinear_arith);
    assert(0int / (k * k) == 0) by (nonlinear_arith)
        requires
            k == 65536,
    ;
    assert(k * k * (3 * k - 2 * k) == k * k * k) by (nonlinear_arith);
    assert((k * k * k) / (k * k) == k) by (nonlinear_arith)
        requires
            k == 65536,
    ;
}

/// A [`Curve`] that can also report its slope, for gradient propagation.
pub trait SampleDerivative: Curve {
    /// The slope of the curve at `t`, as a fixed-point value.
    spec fn derivative_spec(&self, t: i64) -> i64;

    /// Samples the curve and its slope at `t` in `[0, 1]`.
    fn sample_with_derivative_unchecked(&self, t: i64) -> (r: (i64, i64))
        requires
            0 <= t <= FP_ONE,
        ensures
            r.0 == self.sample_spec(t),
            0 <= r.0 <= FP_ONE,
            r.1 == self.derivative_spec(t),
            -2 * FP_ONE <= r.1 <= 2 * FP_ONE,
    ;
}

impl SampleDerivative for Linear {
    open spec fn derivative_spec(&self, t: i64) -> i64 {
        FP_ONE
    }

    fn sample_with_derivative_unchecked(&self, t: i64) -> (r: (i64, i64)) {
        (t, FP_ONE)
    }
}

/// What the slope of [`Smoothstep`] is: `6 * t * (1 - t)`, at most one and
/// a half at the middle of the interval.
pub open spec fn smoothstep_derivative_spec(t: i64) -> i64 {
    ((6 * t * (FP_ONE - t)) / (FP_ONE as int)) as i64
}

impl SampleDerivative for Smoothstep {
    open spec fn derivative_spec(&self, t: i64) -> i64 {
        smoothstep_derivative_spec(t)
    }

    fn sample_with_derivative_unchecked(&self, t: i64) -> (r: (i64, i64)) {
        let value = self.sample_unchecked(t);
        proof {
            let k = FP_ONE as int;
            assert(0 <= 6 * (t as int) * (k - t as int) && 6 * (t as int) * (k - t as int) <= 2 * k
                * k) by (nonlinear_arith)
                requires
                    0 <= t as int <= k,
                {
                    assert((k - 2 * t as int) * (k - 2 * t as int) >= 0);
                }
            lemma_floor_div_range(6 * (t as int) * (k - t as int), k, 0, 2 * k);
        }
        let slope = floor_div(6 * t * (FP_ONE - t), FP_ONE);
        (value, slope)
    }
}

/// Represents a way to smoothly take the minimum between two numbers.
pub trait SmoothMin {
    /// The value `smin` computes.
    spec fn smin_spec(a: i64, b: i64, blend_radius: i64) -> i64;

    /// Takes a smooth minimum between `a` and `b`. The `blend_radius`
    /// denotes how close `a` and `b` must be to be smoothed together: when
    /// they differ by at least four radii the plain minimum comes back
    /// unchanged.
    fn smin(a: i64, b: i64, blend_radius: i64) -> (r: i64)
        requires
            -0x4000_0000 <= a <= 0x4000_0000,
            -0x4000_0000 <= b <= 0x4000_0000,
            1 <= blend_radius <= 0x4000_0000,
        ensures
            r == Self::smin_spec(a, b, blend_radius),
            (if a - b >= 0 { a - b } else { b - a }) >= 4 * blend_radius ==> r == (if a <= b {
                a
            } else {
                b
            }),
    ;
}

/// A way to produce a smooth minimum quickly, blending with a cubic falloff
/// of the gap between its arguments.
#[derive(Clone, Copy, PartialEq, Eq, Structural, Debug)]
pub struct CubicSMin;

/// What [`CubicSMin::smin`] computes: the plain minimum, pulled further down
/// by a cubic bump that fades to nothing once the gap reaches four radii.
pub open spec fn cubic_smin_spec(a: int, b: int, blend_radius: int) -> int {
    let k = 4 * blend_radius;
    let diff = if a - b >= 0 { a - b } else { b - a };
    let hraw = if k - diff > 0 { k - diff } else { 0 };
    let h = (hraw * FP_ONE) / k;
    let low = if a <= b { a } else { b };
    low - ((h * h) / FP_ONE as int * blend_radius) / FP_ONE as int
}

impl SmoothMin for CubicSMin {
    open spec fn smin_spec(a: i64, b: i64, blend_radius: i64) -> i64 {
        cubic_smin_spec(a as int, b as int, blend_radius as int) as i64
    }

    fn smin(a: i64, b: i64, blend_radius: i64) -> (r: i64) {
        let k: i64 = 4 * blend_radius;
        let diff: i64 = if a - b >= 0 { a - b } else { b - a };
        let hraw: i64 = if k - diff > 0 { k - diff } else { 0 };
        proof {
            lemma_floor_div_range(hraw as int * FP_ONE, k as int, 0, FP_ONE as int);
            if hraw == 0 {
                assert(0int / k as int == 0) by (nonlinear_arith)
                    requires
                        1 <= k,
                ;
            }
        }
        let h: i64 = floor_div(hraw * FP_ONE, k);
        proof {
            if hraw == 0 {
                assert(h == 0);
            }
            lemma_mul_le(h as int, h as int, FP_ONE as int, FP_ONE as int);
            lemma_floor_div_range(h as int * h as int, FP_ONE as int, 0, FP_ONE as int);
        }
        let hh: i64 = floor_div(h * h, FP_ONE);
        proof {
            if hraw == 0 {
                assert(hh == 0);
            }
            lemma_mul_le(hh as int, blend_radius as int, FP_ONE as int, 0x4000_0000);
            lemma_mul_le(hh as int, blend_radius as int, FP_ONE as int, blend_radius as int);
            lemma_floor_div_range(
                hh as int * blend_radius as int,
                FP_ONE as int,
                0,
                blend_radius as int,
            );
        }
        let dip: i64 = floor_div(hh * blend_radius, FP_ONE);
        proof {
            if hraw == 0 {
                assert(hh as int * blend_radius as int == 0) by (nonlinear_arith)
                    requires
                        hh == 0,
                ;
                assert(dip == 0);
            }
        }
        let low: i64 = if a <= b { a } else { b };
        low - dip
    }
}

} // verus!
