//! A composable procedural-noise evaluation library.
//!
//! A noise function is a stateless value that, given an input and a seeded
//! random number generator, deterministically produces an output. Noise
//! functions chain into pipelines, layer into fractal sums, and partition
//! their domain into cells; every public operation carries a contract that
//! pins its result down to a mathematical specification, so determinism and
//! the bounds of each noise family are proved rather than sampled.
//!
//! All scalars are fixed-point `i64` values (see [`fixed`]): the library
//! computes over integers only, and the contracts speak of exact integer
//! arithmetic.

pub mod builder;
pub mod cell_noise;
pub mod curves;
pub mod fixed;
pub mod layering;
pub mod math_noise;
pub mod merging;
pub mod misc_noise;
pub mod point_interpolations;
pub mod rng;
pub mod segments;
pub mod vectors;

use vstd::prelude::*;

use crate::fixed::{fp_div, fp_div_spec, FP_ONE, FP_FACTOR_MAX};
use crate::rng::NoiseRng;
use crate::vectors::Vec2;

verus! {

/// Represents a simple noise function with an input `I` and an output.
///
/// Evaluation is deterministic: the output and the generator state left
/// behind are a pure function (`eval_spec`) of the input and the generator
/// state handed in.
pub trait NoiseFunction<I>: Sized {
    /// The output of the function.
    type Output;

    /// The inputs (and generator states) this function is specified for.
    spec fn in_domain(&self, input: I, rng: NoiseRng) -> bool;

    /// The output and final generator state of an evaluation.
    spec fn eval_spec(&self, input: I, rng: NoiseRng) -> (Self::Output, NoiseRng);

    /// Evaluates the function at `input`.
    fn evaluate(&self, input: I, seeds: &mut NoiseRng) -> (out: Self::Output)
        requires
            self.in_domain(input, *old(seeds)),
        ensures
            (out, *final(seeds)) == self.eval_spec(input, *old(seeds)),
    ;
}

impl<I, T0: NoiseFunction<I>, T1: NoiseFunction<T0::Output>> NoiseFunction<I> for (T0, T1) {
    type Output = T1::Output;

    open spec fn in_domain(&self, input: I, rng: NoiseRng) -> bool {
        self.0.in_domain(input, rng) && self.1.in_domain(
            self.0.eval_spec(input, rng).0,
            self.0.eval_spec(input, rng).1,
        )
    }

    open spec fn eval_spec(&self, input: I, rng: NoiseRng) -> (T1::Output, NoiseRng) {
        self.1.eval_spec(self.0.eval_spec(input, rng).0, self.0.eval_spec(input, rng).1)
    }

    fn evaluate(&self, input: I, seeds: &mut NoiseRng) -> (out: T1::Output) {
        let mid = self.0.evaluate(input, seeds);
        self.1.evaluate(mid, seeds)
    }
}

impl<I, T0: NoiseFunction<I>, T1: NoiseFunction<T0::Output>, T2: NoiseFunction<T1::Output>>
    NoiseFunction<I> for (T0, T1, T2)
{
    type Output = T2::Output;

    open spec fn in_domain(&self, input: I, rng: NoiseRng) -> bool {
        let (m0, r0) = self.0.eval_spec(input, rng);
        let (m1, r1) = self.1.eval_spec(m0, r0);
        self.0.in_domain(input, rng) && self.1.in_domain(m0, r0) && self.2.in_domain(m1, r1)
    }

    open spec fn eval_spec(&self, input: I, rng: NoiseRng) -> (T2::Output, NoiseRng) {
        let (m0, r0) = self.0.eval_spec(input, rng);
        let (m1, r1) = self.1.eval_spec(m0, r0);
        self.2.eval_spec(m1, r1)
    }

    fn evaluate(&self, input: I, seeds: &mut NoiseRng) -> (out: T2::Output) {
        let m0 = self.0.evaluate(input, seeds);
        let m1 = self.1.evaluate(m0, seeds);
        self.2.evaluate(m1, seeds)
    }
}

impl<
    I,
    T0: NoiseFunction<I>,
    T1: NoiseFunction<T0::Output>,
    T2: NoiseFunction<T1::Output>,
    T3: NoiseFunction<T2::Output>,
> NoiseFunction<I> for (T0, T1, T2, T3) {
    type Output = T3::Output;

    open spec fn in_domain(&self, input: I, rng: NoiseRng) -> bool {
        let (m0, r0) = self.0.eval_spec(input, rng);
        let (m1, r1) = self.1.eval_spec(m0, r0);
        let (m2, r2) = self.2.eval_spec(m1, r1);
        self.0.in_domain(input, rng) && self.1.in_domain(m0, r0) && self.2.in_domain(m1, r1)
            && self.3.in_domain(m2, r2)
    }

    open spec fn eval_spec(&self, input: I, rng: NoiseRng) -> (T3::Output, NoiseRng) {
        let (m0, r0) = self.0.eval_spec(input, rng);
        let (m1, r1) = self.1.eval_spec(m0, r0);
        let (m2, r2) = self.2.eval_spec(m1, r1);
        self.3.eval_spec(m2, r2)
    }

    fn evaluate(&self, input: I, seeds: &mut NoiseRng) -> (out: T3::Output) {
        let m0 = self.0.evaluate(input, seeds);
        let m1 = self.1.evaluate(m0, seeds);
        let m2 = self.2.evaluate(m1, seeds);
        self.3.evaluate(m2, seeds)
    }
}

/// An input whose coordinate can be scaled by a fixed-point frequency.
pub trait ScalableInput: Sized + Copy {
    /// Whether scaling by `f` stays within this input's machine range.
    spec fn scalable(self, f: int) -> bool;

    /// The scaled input.
    spec fn scaled_spec(self, f: int) -> Self;

    /// Scales the coordinate by the fixed-point factor `f`.
    fn scaled(self, f: i64) -> (r: Self)
        requires
            self.scalable(f as int),
        ensures
            r == self.scaled_spec(f as int),
    ;
}

impl ScalableInput for Vec2 {
    open spec fn scalable(self, f: int) -> bool {
        self.bounded_by(FP_FACTOR_MAX as int) && -FP_FACTOR_MAX <= f <= FP_FACTOR_MAX
    }

    open spec fn scaled_spec(self, f: int) -> Vec2 {
        self.scale_spec(f)
    }

    fn scaled(self, f: i64) -> (r: Vec2) {
        self.scale(f)
    }
}

impl ScalableInput for i64 {
    open spec fn scalable(self, f: int) -> bool {
        -FP_FACTOR_MAX <= self <= FP_FACTOR_MAX && -FP_FACTOR_MAX <= f <= FP_FACTOR_MAX
    }

    open spec fn scaled_spec(self, f: int) -> i64 {
        fixed::fp_mul_spec(self as int, f) as i64
    }

    fn scaled(self, f: i64) -> (r: i64) {
        fixed::fp_mul(self, f)
    }
}

/// Specifies that this noise is configurable.
pub trait ConfigurableNoise: Sized {
    /// The stored seed.
    spec fn seed_of(&self) -> u32;

    /// The stored fixed-point frequency.
    spec fn frequency_of(&self) -> i64;

    /// Sets the seed of the noise as a `u32`.
    fn set_seed(&mut self, seed: u32)
        ensures
            final(self).seed_of() == seed,
            final(self).frequency_of() == old(self).frequency_of(),
    ;

    /// Gets the seed of the noise as a `u32`.
    fn get_seed(&mut self) -> (r: u32)
        ensures
            *final(self) == *old(self),
            r == old(self).seed_of(),
    ;

    /// Sets the scale of the noise via its fixed-point frequency.
    fn set_frequency(&mut self, frequency: i64)
        ensures
            final(self).frequency_of() == frequency,
            final(self).seed_of() == old(self).seed_of(),
    ;

    /// Gets the scale of the noise via its fixed-point frequency.
    fn get_frequency(&mut self) -> (r: i64)
        ensures
            *final(self) == *old(self),
            r == old(self).frequency_of(),
    ;

    /// Sets the scale of the noise via its fixed-point period, the
    /// reciprocal of the frequency.
    fn set_period(&mut self, period: i64)
        requires
            1 <= period <= 0x10000_0000,
        ensures
            final(self).frequency_of() == fp_div_spec(FP_ONE as int, period as int),
            final(self).seed_of() == old(self).seed_of(),
    ;

    /// Gets the scale of the noise via its fixed-point period.
    fn get_period(&mut self) -> (r: i64)
        requires
            1 <= old(self).frequency_of() <= 0x10000_0000,
        ensures
            *final(self) == *old(self),
            r == fp_div_spec(FP_ONE as int, old(self).frequency_of() as int),
    ;
}

/// Indicates that this noise is samplable by type `I`.
pub trait Sampleable<I>: Sized {
    /// Represents the raw result of the sample.
    type Result;

    /// The locations this noise is specified for.
    spec fn sample_ok(&self, loc: I) -> bool;

    /// The raw result and leftover generator state of a sample: a pure
    /// function of the stored configuration and the location alone.
    spec fn sample_raw_spec(&self, loc: I) -> (Self::Result, NoiseRng);

    /// Samples the noise at `loc`, returning the raw result and the
    /// generator state left over by the sample.
    fn sample_raw(&self, loc: I) -> (r: (Self::Result, NoiseRng))
        requires
            self.sample_ok(loc),
        ensures
            r == self.sample_raw_spec(loc),
    ;

    /// Samples the noise at `loc` for a result of type `T`: a convenience
    /// over [`SampleableFor`] for callers that name the result type at the
    /// call.
    fn sample_for<T>(&self, loc: I) -> (r: T) where Self: SampleableFor<I, T>
        requires
            self.sample_for_ok(loc),
        ensures
            r == self.sample_spec(loc),
    ;
}

/// Indicates that this noise is samplable by type `I` for type `T`.
pub trait SampleableFor<I, T>: Sized {
    /// The locations this noise is specified for.
    spec fn sample_for_ok(&self, loc: I) -> bool;

    /// The finished result of a sample.
    spec fn sample_spec(&self, loc: I) -> T;

    /// Samples the noise at `loc` for a result of type `T`.
    fn sample(&self, loc: I) -> (r: T)
        requires
            self.sample_for_ok(loc),
        ensures
            r == self.sample_spec(loc),
    ;
}

/// A version of [`Sampleable`] with one virtual entry point carrying the same
/// contract as [`SampleableFor::sample`], for callers that select a noise
/// kind at run time rather than inlining the statically typed path.
pub trait DynamicSampleable<I, T>: ConfigurableNoise + SampleableFor<I, T> {
    /// The same as [`SampleableFor::sample`], through a dynamic entry point.
    fn sample_dyn(&self, loc: I) -> (r: T)
        requires
            self.sample_for_ok(loc),
        ensures
            r == self.sample_spec(loc),
    ;
}

/// This is the standard end interface of a [`NoiseFunction`]: it owns the
/// function, a seed, and a fixed-point frequency applied to every location.
#[derive(Clone, Copy, PartialEq, Eq, Structural, Debug)]
pub struct Noise<N> {
    /// The [`NoiseFunction`] powering this noise.
    pub noise: N,
    /// The seed of the noise.
    pub seed: NoiseRng,
    /// The fixed-point frequency, or scale, of the noise.
    pub frequency: i64,
}

impl<N> Noise<N> {
    /// Wraps a noise function with seed `0` and unit frequency.
    pub fn from_fn(noise: N) -> (r: Noise<N>)
        ensures
            r.noise == noise,
            r.seed == NoiseRng(0),
            r.frequency == FP_ONE,
    {
        Noise { noise, seed: NoiseRng(0), frequency: FP_ONE }
    }
}

impl<N: Default> Default for Noise<N> {
    /// The default noise: a default function, seed `0`, unit frequency.
    fn default() -> (r: Self)
        ensures
            r.seed == NoiseRng(0),
            r.frequency == FP_ONE,
    {
        Noise { noise: N::default(), seed: NoiseRng(0), frequency: FP_ONE }
    }
}

impl<N> ConfigurableNoise for Noise<N> {
    open spec fn seed_of(&self) -> u32 {
        self.seed.0
    }

    open spec fn frequency_of(&self) -> i64 {
        self.frequency
    }

    fn set_seed(&mut self, seed: u32) {
        self.seed = NoiseRng(seed);
    }

    fn get_seed(&mut self) -> (r: u32) {
        self.seed.0
    }

    fn set_frequency(&mut self, frequency: i64) {
        self.frequency = frequency;
    }

    fn get_frequency(&mut self) -> (r: i64) {
        self.frequency
    }

    fn set_period(&mut self, period: i64) {
        let f = fp_div(FP_ONE, period);
        self.frequency = f;
    }

    fn get_period(&mut self) -> (r: i64) {
        fp_div(FP_ONE, self.frequency)
    }
}

impl<I: ScalableInput, N: NoiseFunction<I>> Sampleable<I> for Noise<N> {
    type Result = N::Output;

    open spec fn sample_ok(&self, loc: I) -> bool {
        loc.scalable(self.frequency as int) && self.noise.in_domain(
            loc.scaled_spec(self.frequency as int),
            self.seed,
        )
    }

    open spec fn sample_raw_spec(&self, loc: I) -> (N::Output, NoiseRng) {
        self.noise.eval_spec(loc.scaled_spec(self.frequency as int), self.seed)
    }

    fn sample_raw(&self, loc: I) -> (r: (N::Output, NoiseRng)) {
        let mut seeds = self.seed;
        let result = self.noise.evaluate(loc.scaled(self.frequency), &mut seeds);
        (result, seeds)
    }

    fn sample_for<T>(&self, loc: I) -> (r: T) where Self: SampleableFor<I, T> {
        self.sample(loc)
    }
}

impl<I: ScalableInput, T, N: NoiseFunction<I, Output = T>> SampleableFor<I, T> for Noise<N> {
    open spec fn sample_for_ok(&self, loc: I) -> bool {
        Sampleable::sample_ok(self, loc)
    }

    open spec fn sample_spec(&self, loc: I) -> T {
        Sampleable::sample_raw_spec(self, loc).0
    }

    fn sample(&self, loc: I) -> (r: T) {
        let (result, _rng) = self.sample_raw(loc);
        result
    }
}

impl<I: ScalableInput, T, N: NoiseFunction<I, Output = T>> DynamicSampleable<I, T> for Noise<N> {
    fn sample_dyn(&self, loc: I) -> (r: T) {
        self.sample(loc)
    }
}

/// An interface of a noise that allows a follow-up action in another
/// [`NoiseFunction`]: the wrapped noise produces the raw result, and the
/// adapter finishes it with the leftover generator state.
#[derive(Clone, Copy, PartialEq, Eq, Structural, Debug, Default)]
pub struct AdaptiveNoise<N, A> {
    /// The noise driving the initial result.
    pub noise: Noise<N>,
    /// The adapter finalizing the result.
    pub adapter: A,
}

impl<N, A> ConfigurableNoise for AdaptiveNoise<N, A> {
    open spec fn seed_of(&self) -> u32 {
        self.noise.seed.0
    }

    open spec fn frequency_of(&self) -> i64 {
        self.noise.frequency
    }

    fn set_seed(&mut self, seed: u32) {
        self.noise.set_seed(seed);
    }

    fn get_seed(&mut self) -> (r: u32) {
        self.noise.get_seed()
    }

    fn set_frequency(&mut self, frequency: i64) {
        self.noise.set_frequency(frequency);
    }

    fn get_frequency(&mut self) -> (r: i64) {
        self.noise.get_frequency()
    }

    fn set_period(&mut self, period: i64) {
        self.noise.set_period(period);
    }

    fn get_period(&mut self) -> (r: i64) {
        self.noise.get_period()
    }
}

impl<I: ScalableInput, N: NoiseFunction<I>, A> Sampleable<I> for AdaptiveNoise<N, A> {
    type Result = N::Output;

    open spec fn sample_ok(&self, loc: I) -> bool {
        self.noise.sample_ok(loc)
    }

    open spec fn sample_raw_spec(&self, loc: I) -> (N::Output, NoiseRng) {
        Sampleable::sample_raw_spec(&self.noise, loc)
    }

    fn sample_raw(&self, loc: I) -> (r: (N::Output, NoiseRng)) {
        self.noise.sample_raw(loc)
    }

    fn sample_for<T>(&self, loc: I) -> (r: T) where Self: SampleableFor<I, T> {
        self.sample(loc)
    }
}

impl<
    I: ScalableInput,
    T,
    N: NoiseFunction<I, Output = T>,
    A: NoiseFunction<T, Output = T>,
> SampleableFor<I, T> for AdaptiveNoise<N, A> {
    open spec fn sample_for_ok(&self, loc: I) -> bool {
        let raw = Sampleable::sample_raw_spec(&self.noise, loc);
        Sampleable::sample_ok(&self.noise, loc) && self.adapter.in_domain(raw.0, raw.1)
    }

    open spec fn sample_spec(&self, loc: I) -> T {
        let raw = Sampleable::sample_raw_spec(&self.noise, loc);
        self.adapter.eval_spec(raw.0, raw.1).0
    }

    fn sample(&self, loc: I) -> (r: T) {
        let (result, rng) = self.noise.sample_raw(loc);
        let mut seeds = rng;
        self.adapter.evaluate(result, &mut seeds)
    }
}

impl<
    I: ScalableInput,
    T,
    N: NoiseFunction<I, Output = T>,
    A: NoiseFunction<T, Output = T>,
> DynamicSampleable<I, T> for AdaptiveNoise<N, A> {
    fn sample_dyn(&self, loc: I) -> (r: T) {
        self.sample(loc)
    }
}

/// Law: sampling is deterministic. Two samples of the same noise at the same
/// location resolve to the same pure specification, so their results and the
/// generator states they leave behind are identical, bit for bit.
pub proof fn lemma_sampling_deterministic<I, S: Sampleable<I>>(noise: &S, loc1: I, loc2: I)
    requires
        loc1 == loc2,
    ensures
        noise.sample_raw_spec(loc1) == noise.sample_raw_spec(loc2),
{
}

} // verus!
