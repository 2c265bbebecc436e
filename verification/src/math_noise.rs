//! Pointwise adapters: noise functions that remap a scalar result.

use vstd::prelude::*;

use crate::curves::Curve;
use crate::fixed::{fp_div, fp_div_spec, fp_mul, fp_mul_spec, floor_div, FP_ONE, FP_FACTOR_MAX};
use crate::rng::NoiseRng;
use crate::NoiseFunction;

verus! {

/// The domain bound of the power adapters: wide enough for any layered
/// noise value, narrow enough that repeated squaring stays in range.
pub const POW_INPUT_MAX: i64 = 1048576;

/// A [`NoiseFunction`] that maps values from `[-1, 1]` to `[0, 1]`.
#[derive(Clone, Copy, PartialEq, Eq, Structural, Debug, Default)]
pub struct SNormToUNorm;

impl NoiseFunction<i64> for SNormToUNorm {
    type Output = i64;

    open spec fn in_domain(&self, input: i64, rng: NoiseRng) -> bool {
        -FP_ONE <= input <= FP_ONE
    }

    open spec fn eval_spec(&self, input: i64, rng: NoiseRng) -> (i64, NoiseRng) {
        (((input + FP_ONE) / 2) as i64, rng)
    }

    fn evaluate(&self, input: i64, seeds: &mut NoiseRng) -> (out: i64) {
        (input + FP_ONE) / 2
    }
}

/// A [`NoiseFunction`] that maps values from `[0, 1]` to `[-1, 1]`.
#[derive(Clone, Copy, PartialEq, Eq, Structural, Debug, Default)]
pub struct UNormToSNorm;

impl NoiseFunction<i64> for UNormToSNorm {
    type Output = i64;

    open spec fn in_domain(&self, input: i64, rng: NoiseRng) -> bool {
        0 <= input <= FP_ONE
    }

    open spec fn eval_spec(&self, input: i64, rng: NoiseRng) -> (i64, NoiseRng) {
        ((2 * input - FP_ONE) as i64, rng)
    }

    fn evaluate(&self, input: i64, seeds: &mut NoiseRng) -> (out: i64) {
        2 * input - FP_ONE
    }
}

/// A [`NoiseFunction`] that raises the input to the second power.
#[derive(Clone, Copy, PartialEq, Eq, Structural, Debug, Default)]
pub struct Pow2;

impl NoiseFunction<i64> for Pow2 {
    type Output = i64;

    open spec fn in_domain(&self, input: i64, rng: NoiseRng) -> bool {
        -POW_INPUT_MAX <= input <= POW_INPUT_MAX
    }

    open spec fn eval_spec(&self, input: i64, rng: NoiseRng) -> (i64, NoiseRng) {
        (fp_mul_spec(input as int, input as int) as i64, rng)
    }

    fn evaluate(&self, input: i64, seeds: &mut NoiseRng) -> (out: i64) {
        fp_mul(input, input)
    }
}

/// A [`NoiseFunction`] that raises the input to the third power.
#[derive(Clone, Copy, PartialEq, Eq, Structural, Debug, Default)]
pub struct Pow3;

impl NoiseFunction<i64> for Pow3 {
    type Output = i64;

    open spec fn in_domain(&self, input: i64, rng: NoiseRng) -> bool {
        -POW_INPUT_MAX <= input <= POW_INPUT_MAX
    }

    open spec fn eval_spec(&self, input: i64, rng: NoiseRng) -> (i64, NoiseRng) {
        (fp_mul_spec(fp_mul_spec(input as int, input as int), input as int) as i64, rng)
    }

    fn evaluate(&self, input: i64, seeds: &mut NoiseRng) -> (out: i64) {
        let squared = fp_mul(input, input);
        proof {
            lemma_pow_step_bounds(input as int);
        }
        fp_mul(squared, input)
    }
}

/// A [`NoiseFunction`] that raises the input to the fourth power.
#[derive(Clone, Copy, PartialEq, Eq, Structural, Debug, Default)]
pub struct Pow4;

impl NoiseFunction<i64> for Pow4 {
    type Output = i64;

    open spec fn in_domain(&self, input: i64, rng: NoiseRng) -> bool {
        -POW_INPUT_MAX <= input <= POW_INPUT_MAX
    }

    open spec fn eval_spec(&self, input: i64, rng: NoiseRng) -> (i64, NoiseRng) {
        let squared = fp_mul_spec(input as int, input as int);
        (fp_mul_spec(squared, squared) as i64, rng)
    }

    fn evaluate(&self, input: i64, seeds: &mut NoiseRng) -> (out: i64) {
        let squared = fp_mul(input, input);
        proof {
            lemma_pow_step_bounds(input as int);
        }
        fp_mul(squared, squared)
    }
}

/// The square of a bounded value, scaled down by the unit, stays bounded.
proof fn lemma_pow_step_bounds(v: int)
    requires
        -POW_INPUT_MAX <= v <= POW_INPUT_MAX,
    ensures
        -POW_INPUT_MAX * POW_INPUT_MAX <= v * v,
        v * v <= POW_INPUT_MAX * POW_INPUT_MAX,
        -FP_FACTOR_MAX <= fp_mul_spec(v, v) <= FP_FACTOR_MAX,
{
    assert(0 <= v * v <= POW_INPUT_MAX * POW_INPUT_MAX) by (nonlinear_arith)
        requires
            -POW_INPUT_MAX <= v <= POW_INPUT_MAX,
    ;
    crate::fixed::lemma_floor_div_range(v * v, FP_ONE as int, 0, FP_FACTOR_MAX as int);
}

/// A [`NoiseFunction`] that brings more positive numbers closer to zero.
/// Negative inputs are out of its domain; nonnegative inputs produce
/// results in `(0, 1]`.
#[derive(Clone, Copy, PartialEq, Eq, Structural, Debug, Default)]
pub struct PositiveApproachZero;

impl NoiseFunction<i64> for PositiveApproachZero {
    type Output = i64;

    open spec fn in_domain(&self, input: i64, rng: NoiseRng) -> bool {
        0 <= input <= 0xFFFF_0000
    }

    open spec fn eval_spec(&self, input: i64, rng: NoiseRng) -> (i64, NoiseRng) {
        (fp_div_spec(FP_ONE as int, input + FP_ONE) as i64, rng)
    }

    fn evaluate(&self, input: i64, seeds: &mut NoiseRng) -> (out: i64) {
        fp_div(FP_ONE, input + FP_ONE)
    }
}

/// A [`NoiseFunction`] that takes the absolute value of its input.
#[derive(Clone, Copy, PartialEq, Eq, Structural, Debug, Default)]
pub struct Abs;

impl NoiseFunction<i64> for Abs {
    type Output = i64;

    open spec fn in_domain(&self, input: i64, rng: NoiseRng) -> bool {
        input > i64::MIN
    }

    open spec fn eval_spec(&self, input: i64, rng: NoiseRng) -> (i64, NoiseRng) {
        (if input >= 0 { input } else { (-input) as i64 }, rng)
    }

    fn evaluate(&self, input: i64, seeds: &mut NoiseRng) -> (out: i64) {
        if input >= 0 { input } else { -input }
    }
}

/// What [`Inverse`] computes: the fixed-point reciprocal, with the sign
/// handled symmetrically.
pub open spec fn inverse_spec(v: int) -> int {
    if v > 0 {
        fp_div_spec(FP_ONE as int, v)
    } else {
        -fp_div_spec(FP_ONE as int, -v)
    }
}

/// A [`NoiseFunction`] that divides one by its input.
#[derive(Clone, Copy, PartialEq, Eq, Structural, Debug, Default)]
pub struct Inverse;

impl NoiseFunction<i64> for Inverse {
    type Output = i64;

    open spec fn in_domain(&self, input: i64, rng: NoiseRng) -> bool {
        input != 0 && -0x10000_0000 <= input <= 0x10000_0000
    }

    open spec fn eval_spec(&self, input: i64, rng: NoiseRng) -> (i64, NoiseRng) {
        (inverse_spec(input as int) as i64, rng)
    }

    fn evaluate(&self, input: i64, seeds: &mut NoiseRng) -> (out: i64) {
        if input > 0 {
            fp_div(FP_ONE, input)
        } else {
            -fp_div(FP_ONE, -input)
        }
    }
}

/// A [`NoiseFunction`] that subtracts its input from one.
#[derive(Clone, Copy, PartialEq, Eq, Structural, Debug, Default)]
pub struct ReverseUNorm;

impl NoiseFunction<i64> for ReverseUNorm {
    type Output = i64;

    open spec fn in_domain(&self, input: i64, rng: NoiseRng) -> bool {
        0 <= input <= FP_ONE
    }

    open spec fn eval_spec(&self, input: i64, rng: NoiseRng) -> (i64, NoiseRng) {
        ((FP_ONE - input) as i64, rng)
    }

    fn evaluate(&self, input: i64, seeds: &mut NoiseRng) -> (out: i64) {
        FP_ONE - input
    }
}

/// A [`NoiseFunction`] that negates its input.
#[derive(Clone, Copy, PartialEq, Eq, Structural, Debug, Default)]
pub struct Negate;

impl NoiseFunction<i64> for Negate {
    type Output = i64;

    open spec fn in_domain(&self, input: i64, rng: NoiseRng) -> bool {
        input > i64::MIN
    }

    open spec fn eval_spec(&self, input: i64, rng: NoiseRng) -> (i64, NoiseRng) {
        ((-input) as i64, rng)
    }

    fn evaluate(&self, input: i64, seeds: &mut NoiseRng) -> (out: i64) {
        -input
    }
}

/// A [`NoiseFunction`] that produces a billowing effect for signed values:
/// fold to the positive side, then re-center.
pub type Billow = (Abs, UNormToSNorm);

/// A [`NoiseFunction`] that wraps values over the inner bound back around
/// from zero: the remainder of the input by the bound.
#[derive(Clone, Copy, PartialEq, Eq, Structural, Debug)]
pub struct Wrapped(pub i64);

impl NoiseFunction<i64> for Wrapped {
    type Output = i64;

    open spec fn in_domain(&self, input: i64, rng: NoiseRng) -> bool {
        1 <= self.0 <= 0x1_0000_0000_0000 && -0x7ffe_0000_0000_0000 <= input
            <= 0x7ffe_0000_0000_0000
    }

    open spec fn eval_spec(&self, input: i64, rng: NoiseRng) -> (i64, NoiseRng) {
        ((input as int % self.0 as int) as i64, rng)
    }

    fn evaluate(&self, input: i64, seeds: &mut NoiseRng) -> (out: i64) {
        let q = floor_div(input, self.0);
        proof {
            let n = input as int;
            let d = self.0 as int;
            assert(d * (n / d) == n - (n % d) && 0 <= (n % d) && (n % d) < d)
                by (nonlinear_arith)
                requires
                    d >= 1,
            ;
        }
        input - q * self.0
    }
}

/// What [`PingPong`] computes for a strength `s`: stretch the shifted input
/// by `s`, wrap it into two units, and reflect the upper unit back down.
pub open spec fn ping_pong_spec(input: int, s: int) -> int {
    let t = fp_mul_spec(input + FP_ONE, s);
    let q = t - 2 * FP_ONE * (t / (2 * FP_ONE as int));
    if q < FP_ONE {
        q
    } else {
        2 * FP_ONE - q
    }
}

/// A [`NoiseFunction`] that produces a ping-ponging effect for values in
/// `[0, 1]`. The inner value is the fixed-point strength of the ping pong.
#[derive(Clone, Copy, PartialEq, Eq, Structural, Debug)]
pub struct PingPong(pub i64);

impl Default for PingPong {
    /// The default ping pong has unit strength.
    fn default() -> (r: Self)
        ensures
            r == PingPong(FP_ONE),
    {
        PingPong(FP_ONE)
    }
}

impl NoiseFunction<i64> for PingPong {
    type Output = i64;

    open spec fn in_domain(&self, input: i64, rng: NoiseRng) -> bool {
        -FP_ONE <= input <= FP_FACTOR_MAX - FP_ONE && 0 <= self.0 <= FP_FACTOR_MAX
    }

    open spec fn eval_spec(&self, input: i64, rng: NoiseRng) -> (i64, NoiseRng) {
        (ping_pong_spec(input as int, self.0 as int) as i64, rng)
    }

    fn evaluate(&self, input: i64, seeds: &mut NoiseRng) -> (out: i64) {
        let t = fp_mul(input + FP_ONE, self.0);
        proof {
            crate::fixed::lemma_mul_le(
                (input + FP_ONE) as int,
                self.0 as int,
                FP_FACTOR_MAX as int,
                FP_FACTOR_MAX as int,
            );
            crate::fixed::lemma_floor_div_range(
                (input + FP_ONE) * self.0 as int,
                FP_ONE as int,
                0,
                0x7fff_0000_0000,
            );
        }
        let m = floor_div(t, 2 * FP_ONE);
        let q = t - 2 * FP_ONE * m;
        if q < FP_ONE {
            q
        } else {
            2 * FP_ONE - q
        }
    }
}

/// A [`NoiseFunction`] that samples some [`Curve`] directly.
#[derive(Clone, Copy, PartialEq, Eq, Structural, Debug, Default)]
pub struct NoiseCurve<C>(pub C);

impl<C: Curve> NoiseFunction<i64> for NoiseCurve<C> {
    type Output = i64;

    open spec fn in_domain(&self, input: i64, rng: NoiseRng) -> bool {
        0 <= input <= FP_ONE
    }

    open spec fn eval_spec(&self, input: i64, rng: NoiseRng) -> (i64, NoiseRng) {
        (self.0.sample_spec(input), rng)
    }

    fn evaluate(&self, input: i64, seeds: &mut NoiseRng) -> (out: i64) {
        self.0.sample_unchecked(input)
    }
}

/// A [`NoiseFunction`] that samples some [`Curve`] after clamping the input
/// into the curve's unit domain.
#[derive(Clone, Copy, PartialEq, Eq, Structural, Debug, Default)]
pub struct NoiseCurveClamped<C>(pub C);

/// The input a clamped curve actually samples at.
pub open spec fn clamp_unit_spec(input: i64) -> i64 {
    if input < 0 {
        0
    } else if input > FP_ONE {
        FP_ONE
    } else {
        input
    }
}

impl<C: Curve> NoiseFunction<i64> for NoiseCurveClamped<C> {
    type Output = i64;

    open spec fn in_domain(&self, input: i64, rng: NoiseRng) -> bool {
        true
    }

    open spec fn eval_spec(&self, input: i64, rng: NoiseRng) -> (i64, NoiseRng) {
        (self.0.sample_spec(clamp_unit_spec(input)), rng)
    }

    fn evaluate(&self, input: i64, seeds: &mut NoiseRng) -> (out: i64) {
        let t = if input < 0 {
            0
        } else if input > FP_ONE {
            FP_ONE
        } else {
            input
        };
        self.0.sample_unchecked(t)
    }
}

} // verus!
