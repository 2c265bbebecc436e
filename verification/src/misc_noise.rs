//! A grab bag of combinators that have no better place to be.

use vstd::prelude::*;

use crate::fixed::{fp_mul, fp_mul_spec, FP_ONE, FP_FACTOR_MAX};
use crate::rng::NoiseRng;
use crate::segments::WithGradient;
use crate::vectors::Vec2;
use crate::NoiseFunction;

verus! {

/// A [`NoiseFunction`] that wraps an inner scalar noise function and
/// produces a vector whose elements are independently sourced from it,
/// reseeding the generator between elements. This is the standard way to
/// synthesize warp-offset vectors from a scalar noise.
#[derive(Clone, Copy, PartialEq, Eq, Structural, Debug, Default)]
pub struct RandomElements<N>(pub N);

impl<N: NoiseFunction<Vec2, Output = i64>> NoiseFunction<Vec2> for RandomElements<N> {
    type Output = Vec2;

    open spec fn in_domain(&self, input: Vec2, rng: NoiseRng) -> bool {
        let rng_x = self.0.eval_spec(input, rng).1.re_seed_spec();
        self.0.in_domain(input, rng) && self.0.in_domain(input, rng_x)
    }

    open spec fn eval_spec(&self, input: Vec2, rng: NoiseRng) -> (Vec2, NoiseRng) {
        let (x, rng1) = self.0.eval_spec(input, rng);
        let (y, rng2) = self.0.eval_spec(input, rng1.re_seed_spec());
        (Vec2 { x, y }, rng2.re_seed_spec())
    }

    fn evaluate(&self, input: Vec2, seeds: &mut NoiseRng) -> (out: Vec2) {
        let x = self.0.evaluate(input, seeds);
        seeds.re_seed();
        let y = self.0.evaluate(input, seeds);
        seeds.re_seed();
        Vec2 { x, y }
    }
}

/// A [`NoiseFunction`] that pushes its input by an offset calculated by an
/// inner noise function, scaled by a strength factor: domain warping.
#[derive(Clone, Copy, PartialEq, Eq, Structural, Debug)]
pub struct Offset<N> {
    /// The inner noise function producing the offset vector.
    pub offseter: N,
    /// The offset's fixed-point strength multiplier.
    pub offset_strength: i64,
}

impl<N: Default> Default for Offset<N> {
    /// The default offset warps at unit strength.
    fn default() -> (r: Self)
        ensures
            r.offset_strength == FP_ONE,
    {
        Offset { offseter: N::default(), offset_strength: FP_ONE }
    }
}

impl<N: NoiseFunction<Vec2, Output = Vec2>> NoiseFunction<Vec2> for Offset<N> {
    type Output = Vec2;

    open spec fn in_domain(&self, input: Vec2, rng: NoiseRng) -> bool {
        let raw = self.offset_eval(input, rng).0;
        &&& self.offseter.in_domain(input, rng)
        &&& -FP_FACTOR_MAX <= self.offset_strength <= FP_FACTOR_MAX
        &&& raw.bounded_by(FP_FACTOR_MAX as int)
        &&& i64::MIN <= input.x + raw.scale_spec(self.offset_strength as int).x <= i64::MAX
        &&& i64::MIN <= input.y + raw.scale_spec(self.offset_strength as int).y <= i64::MAX
    }

    open spec fn eval_spec(&self, input: Vec2, rng: NoiseRng) -> (Vec2, NoiseRng) {
        let (raw, rng1) = self.offset_eval(input, rng);
        let shifted = raw.scale_spec(self.offset_strength as int);
        (
            Vec2 {
                x: (input.x + shifted.x) as i64,
                y: (input.y + shifted.y) as i64,
            },
            rng1,
        )
    }

    fn evaluate(&self, input: Vec2, seeds: &mut NoiseRng) -> (out: Vec2) {
        let raw = self.offseter.evaluate(input, seeds);
        let shifted = raw.scale(self.offset_strength);
        input.add(shifted)
    }
}

impl<N: NoiseFunction<Vec2, Output = Vec2>> Offset<N> {
    /// The inner evaluation feeding the offset.
    pub open spec fn offset_eval(&self, input: Vec2, rng: NoiseRng) -> (Vec2, NoiseRng) {
        self.offseter.eval_spec(input, rng)
    }
}

/// A [`NoiseFunction`] that scales (multiplies) its input by a fixed-point
/// factor.
#[derive(Clone, Copy, PartialEq, Eq, Structural, Debug, Default)]
pub struct Scaled<T>(pub T);

impl NoiseFunction<Vec2> for Scaled<i64> {
    type Output = Vec2;

    open spec fn in_domain(&self, input: Vec2, rng: NoiseRng) -> bool {
        input.bounded_by(FP_FACTOR_MAX as int) && -FP_FACTOR_MAX <= self.0 <= FP_FACTOR_MAX
    }

    open spec fn eval_spec(&self, input: Vec2, rng: NoiseRng) -> (Vec2, NoiseRng) {
        (input.scale_spec(self.0 as int), rng)
    }

    fn evaluate(&self, input: Vec2, seeds: &mut NoiseRng) -> (out: Vec2) {
        input.scale(self.0)
    }
}

impl NoiseFunction<i64> for Scaled<i64> {
    type Output = i64;

    open spec fn in_domain(&self, input: i64, rng: NoiseRng) -> bool {
        -FP_FACTOR_MAX <= input <= FP_FACTOR_MAX && -FP_FACTOR_MAX <= self.0 <= FP_FACTOR_MAX
    }

    open spec fn eval_spec(&self, input: i64, rng: NoiseRng) -> (i64, NoiseRng) {
        (fp_mul_spec(input as int, self.0 as int) as i64, rng)
    }

    fn evaluate(&self, input: i64, seeds: &mut NoiseRng) -> (out: i64) {
        fp_mul(input, self.0)
    }
}

/// A [`NoiseFunction`] that translates (adds to) its input by a fixed
/// offset.
#[derive(Clone, Copy, PartialEq, Eq, Structural, Debug, Default)]
pub struct Translated<T>(pub T);

impl NoiseFunction<Vec2> for Translated<Vec2> {
    type Output = Vec2;

    open spec fn in_domain(&self, input: Vec2, rng: NoiseRng) -> bool {
        i64::MIN <= input.x + self.0.x <= i64::MAX && i64::MIN <= input.y + self.0.y <= i64::MAX
    }

    open spec fn eval_spec(&self, input: Vec2, rng: NoiseRng) -> (Vec2, NoiseRng) {
        (Vec2 { x: (input.x + self.0.x) as i64, y: (input.y + self.0.y) as i64 }, rng)
    }

    fn evaluate(&self, input: Vec2, seeds: &mut NoiseRng) -> (out: Vec2) {
        input.add(self.0)
    }
}

/// A [`NoiseFunction`] that always returns a constant.
#[derive(Clone, Copy, PartialEq, Eq, Structural, Debug, Default)]
pub struct Constant<T>(pub T);

impl<I, T: Copy> NoiseFunction<I> for Constant<T> {
    type Output = T;

    open spec fn in_domain(&self, input: I, rng: NoiseRng) -> bool {
        true
    }

    open spec fn eval_spec(&self, input: I, rng: NoiseRng) -> (T, NoiseRng) {
        (self.0, rng)
    }

    fn evaluate(&self, input: I, seeds: &mut NoiseRng) -> (out: T) {
        self.0
    }
}

/// The widest value either factor of a mask may take.
pub const MASK_VALUE_MAX: i64 = 1048576;

/// A [`NoiseFunction`] that multiplies the results of two noise functions
/// evaluated at the same input: masking, for edge and feature effects.
#[derive(Clone, Copy, PartialEq, Eq, Structural, Debug, Default)]
pub struct Masked<N, M>(pub N, pub M);

impl<
    I: Copy,
    N: NoiseFunction<I, Output = i64>,
    M: NoiseFunction<I, Output = i64>,
> NoiseFunction<I> for Masked<N, M> {
    type Output = i64;

    open spec fn in_domain(&self, input: I, rng: NoiseRng) -> bool {
        let (a, rng1) = self.1.eval_spec(input, rng);
        let (b, rng2) = self.0.eval_spec(input, rng1);
        &&& self.1.in_domain(input, rng)
        &&& self.0.in_domain(input, rng1)
        &&& -MASK_VALUE_MAX <= a <= MASK_VALUE_MAX
        &&& -MASK_VALUE_MAX <= b <= MASK_VALUE_MAX
    }

    open spec fn eval_spec(&self, input: I, rng: NoiseRng) -> (i64, NoiseRng) {
        let (a, rng1) = self.1.eval_spec(input, rng);
        let (b, rng2) = self.0.eval_spec(input, rng1);
        (fp_mul_spec(a as int, b as int) as i64, rng2)
    }

    fn evaluate(&self, input: I, seeds: &mut NoiseRng) -> (out: i64) {
        let a = self.1.evaluate(input, seeds);
        let b = self.0.evaluate(input, seeds);
        fp_mul(a, b)
    }
}

/// A [`NoiseFunction`] that multiplies two distinct results of one inner
/// noise function at the same input.
#[derive(Clone, Copy, PartialEq, Eq, Structural, Debug, Default)]
pub struct SelfMasked<N>(pub N);

impl<I: Copy, N: NoiseFunction<I, Output = i64>> NoiseFunction<I> for SelfMasked<N> {
    type Output = i64;

    open spec fn in_domain(&self, input: I, rng: NoiseRng) -> bool {
        let (a, rng1) = self.0.eval_spec(input, rng);
        let (b, rng2) = self.0.eval_spec(input, rng1);
        &&& self.0.in_domain(input, rng)
        &&& self.0.in_domain(input, rng1)
        &&& -MASK_VALUE_MAX <= a <= MASK_VALUE_MAX
        &&& -MASK_VALUE_MAX <= b <= MASK_VALUE_MAX
    }

    open spec fn eval_spec(&self, input: I, rng: NoiseRng) -> (i64, NoiseRng) {
        let (a, rng1) = self.0.eval_spec(input, rng);
        let (b, rng2) = self.0.eval_spec(input, rng1);
        (fp_mul_spec(a as int, b as int) as i64, rng2)
    }

    fn evaluate(&self, input: I, seeds: &mut NoiseRng) -> (out: i64) {
        let a = self.0.evaluate(input, seeds);
        let b = self.0.evaluate(input, seeds);
        fp_mul(a, b)
    }
}

/// A [`NoiseFunction`] that changes the seed of an inner noise function
/// based on another noise function's output, so layers of the inner noise
/// seem to peel back on each other as the peeler's value climbs.
#[derive(Clone, Copy, PartialEq, Eq, Structural, Debug)]
pub struct Peeled<N, P> {
    /// The noise function that determines where to peel the seed.
    pub peeler: P,
    /// The inner noise function.
    pub noise: N,
    /// How many layers to peel off, as a fixed-point factor.
    pub layers: i64,
}

impl<N: Default, P: Default> Default for Peeled<N, P> {
    /// The default peels two layers.
    fn default() -> (r: Self)
        ensures
            r.layers == 2 * FP_ONE,
    {
        Peeled { peeler: P::default(), noise: N::default(), layers: 2 * FP_ONE }
    }
}

/// The layer index a peeled sample falls into, as the bits handed to the
/// generator branch.
pub open spec fn peeled_layer_spec<I, P: NoiseFunction<I, Output = i64>>(
    peeler: P,
    layers: i64,
    input: I,
    rng: NoiseRng,
) -> u32 {
    let peel = peeler.eval_spec(input, rng).0;
    (fp_mul_spec(peel as int, layers as int) / (FP_ONE as int)) as u32
}

impl<I: Copy, N: NoiseFunction<I>, P: NoiseFunction<I, Output = i64>> NoiseFunction<I> for Peeled<
    N,
    P,
> {
    type Output = N::Output;

    open spec fn in_domain(&self, input: I, rng: NoiseRng) -> bool {
        let (peel, rng1) = self.peeler.eval_spec(input, rng);
        &&& self.peeler.in_domain(input, rng)
        &&& 0 <= peel <= FP_ONE
        &&& 0 <= self.layers <= FP_FACTOR_MAX
        &&& self.noise.in_domain(
            input,
            NoiseRng(rng1.rand_u32_spec(peeled_layer_spec(self.peeler, self.layers, input, rng))),
        )
    }

    open spec fn eval_spec(&self, input: I, rng: NoiseRng) -> (N::Output, NoiseRng) {
        let (peel, rng1) = self.peeler.eval_spec(input, rng);
        let branched = NoiseRng(
            rng1.rand_u32_spec(peeled_layer_spec(self.peeler, self.layers, input, rng)),
        );
        (self.noise.eval_spec(input, branched).0, rng1)
    }

    fn evaluate(&self, input: I, seeds: &mut NoiseRng) -> (out: N::Output) {
        let peel = self.peeler.evaluate(input, seeds);
        proof {
            crate::fixed::lemma_fp_mul_unit_bounds(
                self.layers as int,
                peel as int,
                0,
                FP_FACTOR_MAX as int,
            );
            crate::fixed::lemma_floor_div_range(
                fp_mul_spec(peel as int, self.layers as int),
                FP_ONE as int,
                0,
                0x10000,
            );
        }
        let raw = fp_mul(peel, self.layers);
        let layer = #[verifier::truncate] (crate::fixed::floor_div(raw, FP_ONE) as u32);
        let mut layered = seeds.branch(layer);
        self.noise.evaluate(input, &mut layered)
    }
}

/// A [`NoiseFunction`] that only reseeds the generator and passes its input
/// through, to make back-to-back uses of one function disjoint.
#[derive(Clone, Copy, PartialEq, Eq, Structural, Debug, Default)]
pub struct ExtraRng;

impl<T> NoiseFunction<T> for ExtraRng {
    type Output = T;

    open spec fn in_domain(&self, input: T, rng: NoiseRng) -> bool {
        true
    }

    open spec fn eval_spec(&self, input: T, rng: NoiseRng) -> (T, NoiseRng) {
        (input, rng.re_seed_spec())
    }

    fn evaluate(&self, input: T, seeds: &mut NoiseRng) -> (out: T) {
        seeds.re_seed();
        input
    }
}

/// A [`NoiseFunction`] that keeps its input in the layout best suited for
/// wide arithmetic. In two dimensions there is only one layout, so this
/// passes the vector through.
#[derive(Clone, Copy, PartialEq, Eq, Structural, Debug, Default)]
pub struct Aligned;

impl NoiseFunction<Vec2> for Aligned {
    type Output = Vec2;

    open spec fn in_domain(&self, input: Vec2, rng: NoiseRng) -> bool {
        true
    }

    open spec fn eval_spec(&self, input: Vec2, rng: NoiseRng) -> (Vec2, NoiseRng) {
        (input, rng)
    }

    fn evaluate(&self, input: Vec2, seeds: &mut NoiseRng) -> (out: Vec2) {
        input
    }
}

/// A [`NoiseFunction`] that keeps its input in the most compact layout. In
/// two dimensions there is only one layout, so this passes the vector
/// through.
#[derive(Clone, Copy, PartialEq, Eq, Structural, Debug, Default)]
pub struct DisAligned;

impl NoiseFunction<Vec2> for DisAligned {
    type Output = Vec2;

    open spec fn in_domain(&self, input: Vec2, rng: NoiseRng) -> bool {
        true
    }

    open spec fn eval_spec(&self, input: Vec2, rng: NoiseRng) -> (Vec2, NoiseRng) {
        (input, rng)
    }

    fn evaluate(&self, input: Vec2, seeds: &mut NoiseRng) -> (out: Vec2) {
        input
    }
}

/// A [`NoiseFunction`] that pairs its input with a stated gradient. The
/// gradient is arbitrary: this is an escape hatch for compositions that
/// want a gradient where none was computed.
#[derive(Clone, Copy, PartialEq, Eq, Structural, Debug, Default)]
pub struct WithGradientOf<G>(pub G);

impl<T, G: Copy> NoiseFunction<T> for WithGradientOf<G> {
    type Output = WithGradient<T, G>;

    open spec fn in_domain(&self, input: T, rng: NoiseRng) -> bool {
        true
    }

    open spec fn eval_spec(&self, input: T, rng: NoiseRng) -> (WithGradient<T, G>, NoiseRng) {
        (WithGradient { value: input, gradient: self.0 }, rng)
    }

    fn evaluate(&self, input: T, seeds: &mut NoiseRng) -> (out: WithGradient<T, G>) {
        WithGradient { value: input, gradient: self.0 }
    }
}

/// A [`NoiseFunction`] that remaps a scalar input by passing it through a
/// [`Curve`](crate::curves::Curve). When `clamp` is set the input is first
/// clamped into the curve's unit domain; otherwise the input must already
/// lie in it.
#[derive(Clone, Copy, PartialEq, Eq, Structural, Debug)]
pub struct RemapCurve<C> {
    /// The curve to sample with.
    pub curve: C,
    /// Whether to clamp the input into the unit domain first.
    pub clamp: bool,
}

impl<C: Default> Default for RemapCurve<C> {
    /// The default remapping clamps.
    fn default() -> (r: Self)
        ensures
            r.clamp == true,
    {
        RemapCurve { curve: C::default(), clamp: true }
    }
}

impl<C> RemapCurve<C> {
    /// Wraps a curve for clamped remapping.
    pub fn from_curve(curve: C) -> (r: Self)
        ensures
            r.curve == curve,
            r.clamp == true,
    {
        RemapCurve { curve, clamp: true }
    }
}

impl<C: crate::curves::Curve> NoiseFunction<i64> for RemapCurve<C> {
    type Output = i64;

    open spec fn in_domain(&self, input: i64, rng: NoiseRng) -> bool {
        self.clamp || (0 <= input <= FP_ONE)
    }

    open spec fn eval_spec(&self, input: i64, rng: NoiseRng) -> (i64, NoiseRng) {
        let t = if self.clamp {
            crate::math_noise::clamp_unit_spec(input)
        } else {
            input
        };
        (self.curve.sample_spec(t), rng)
    }

    fn evaluate(&self, input: i64, seeds: &mut NoiseRng) -> (out: i64) {
        let t = if self.clamp {
            if input < 0 {
                0
            } else if input > FP_ONE {
                FP_ONE
            } else {
                input
            }
        } else {
            input
        };
        self.curve.sample_unchecked(t)
    }
}

} // verus!
