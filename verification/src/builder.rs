//! A builder API for composing noise: optional, but often more readable
//! than writing the nested composition types by hand.

use vstd::prelude::*;

use crate::layering::{
    DomainWarp, FractalOctaves, LayeredNoise, Normed, NoiseOperation, NoiseResultContext,
    NoiseWeightsSettings, Octave, Persistence, PERSISTENCE_MAX, TOTAL_WEIGHT_MAX,
};
use crate::math_noise::{SNormToUNorm, UNormToSNorm};
use crate::misc_noise::{Masked, Scaled};
use crate::rng::NoiseRng;
use crate::Noise;

verus! {

/// Enables chaining tuples together, like an append operation. Short
/// pipelines stay flat tuples; longer ones nest, which the pipeline
/// composition handles just as well.
pub trait TupleChainable<T>: Sized {
    /// The chained type.
    type ChainOutput;

    /// What chaining produces.
    spec fn chain_spec(self, next: T) -> Self::ChainOutput;

    /// Chains `next` onto these elements.
    fn chain(self, next: T) -> (r: Self::ChainOutput)
        ensures
            r == self.chain_spec(next),
    ;
}

/// Unnests a single-element tuple and leaves other tuples untouched.
pub trait Unnest: Sized {
    /// The unnested type.
    type UnnestOutput;

    /// What unnesting produces.
    spec fn unnest_spec(self) -> Self::UnnestOutput;

    /// Removes the nesting.
    fn unnest(self) -> (r: Self::UnnestOutput)
        ensures
            r == self.unnest_spec(),
    ;
}

impl<T2> TupleChainable<T2> for () {
    type ChainOutput = (T2,);

    open spec fn chain_spec(self, next: T2) -> (T2,) {
        (next,)
    }

    fn chain(self, next: T2) -> (r: (T2,)) {
        (next,)
    }
}

impl<T0, T2> TupleChainable<T2> for (T0,) {
    type ChainOutput = (T0, T2);

    open spec fn chain_spec(self, next: T2) -> (T0, T2) {
        (self.0, next)
    }

    fn chain(self, next: T2) -> (r: (T0, T2)) {
        (self.0, next)
    }
}

impl<T0, T1, T2> TupleChainable<T2> for (T0, T1) {
    type ChainOutput = (T0, T1, T2);

    open spec fn chain_spec(self, next: T2) -> (T0, T1, T2) {
        (self.0, self.1, next)
    }

    fn chain(self, next: T2) -> (r: (T0, T1, T2)) {
        (self.0, self.1, next)
    }
}

impl<T0, T1, T2, T3> TupleChainable<T3> for (T0, T1, T2) {
    type ChainOutput = (T0, T1, T2, T3);

    open spec fn chain_spec(self, next: T3) -> (T0, T1, T2, T3) {
        (self.0, self.1, self.2, next)
    }

    fn chain(self, next: T3) -> (r: (T0, T1, T2, T3)) {
        (self.0, self.1, self.2, next)
    }
}

impl<T0, T1, T2, T3, T4> TupleChainable<T4> for (T0, T1, T2, T3) {
    type ChainOutput = ((T0, T1, T2, T3), T4);

    open spec fn chain_spec(self, next: T4) -> ((T0, T1, T2, T3), T4) {
        (self, next)
    }

    fn chain(self, next: T4) -> (r: ((T0, T1, T2, T3), T4)) {
        (self, next)
    }
}

impl Unnest for () {
    type UnnestOutput = ();

    open spec fn unnest_spec(self) -> () {
        self
    }

    fn unnest(self) -> (r: ()) {
        self
    }
}

impl<T> Unnest for (T,) {
    type UnnestOutput = T;

    open spec fn unnest_spec(self) -> T {
        self.0
    }

    fn unnest(self) -> (r: T) {
        self.0
    }
}

impl<T0, T1> Unnest for (T0, T1) {
    type UnnestOutput = (T0, T1);

    open spec fn unnest_spec(self) -> (T0, T1) {
        self
    }

    fn unnest(self) -> (r: (T0, T1)) {
        self
    }
}

impl<T0, T1, T2> Unnest for (T0, T1, T2) {
    type UnnestOutput = (T0, T1, T2);

    open spec fn unnest_spec(self) -> (T0, T1, T2) {
        self
    }

    fn unnest(self) -> (r: (T0, T1, T2)) {
        self
    }
}

impl<T0, T1, T2, T3> Unnest for (T0, T1, T2, T3) {
    type UnnestOutput = (T0, T1, T2, T3);

    open spec fn unnest_spec(self) -> (T0, T1, T2, T3) {
        self
    }

    fn unnest(self) -> (r: (T0, T1, T2, T3)) {
        self
    }
}

/// A builder for pipelines of noise functions.
#[derive(Clone, Copy, PartialEq, Eq, Structural, Debug)]
pub struct NoiseBuilder<T>(pub T);

impl NoiseBuilder<()> {
    /// Creates a new, empty builder.
    pub fn new() -> (r: Self)
        ensures
            r == NoiseBuilder(()),
    {
        NoiseBuilder(())
    }
}

impl<T1> NoiseBuilder<T1> {
    /// Chains the pipeline with another noise function.
    pub fn chain<T2>(self, other: T2) -> (r: NoiseBuilder<T1::ChainOutput>) where
        T1: TupleChainable<T2>,

        ensures
            r.0 == self.0.chain_spec(other),
    {
        NoiseBuilder(self.0.chain(other))
    }

    /// Chains the pipeline with another noise function's default value.
    pub fn chain_default<T2: Default>(self) -> (r: NoiseBuilder<T1::ChainOutput>) where
        T1: TupleChainable<T2>,

        ensures
            exists|d: T2| r.0 == #[trigger] self.0.chain_spec(d),
    {
        NoiseBuilder(self.0.chain(T2::default()))
    }

    /// Masks the pipeline so far with another noise function: the two are
    /// evaluated at the same input and their results multiplied.
    pub fn mask<T2>(self, other: T2) -> (r: NoiseBuilder<(Masked<T1::UnnestOutput, T2>,)>) where
        T1: Unnest,

        ensures
            r.0 == (Masked(self.0.unnest_spec(), other),),
    {
        NoiseBuilder((Masked(self.0.unnest(), other),))
    }

    /// Scales the pipeline's input by a fixed-point factor.
    pub fn scale(self, scale: i64) -> (r: NoiseBuilder<T1::ChainOutput>) where
        T1: TupleChainable<Scaled<i64>>,

        ensures
            r.0 == self.0.chain_spec(Scaled(scale)),
    {
        self.chain(Scaled(scale))
    }

    /// Remaps the pipeline's signed output into the unit interval.
    pub fn unorm(self) -> (r: NoiseBuilder<T1::ChainOutput>) where
        T1: TupleChainable<SNormToUNorm>,

        ensures
            r.0 == self.0.chain_spec(SNormToUNorm),
    {
        self.chain(SNormToUNorm)
    }

    /// Remaps the pipeline's unit-interval output into a signed one.
    pub fn snorm(self) -> (r: NoiseBuilder<T1::ChainOutput>) where
        T1: TupleChainable<UNormToSNorm>,

        ensures
            r.0 == self.0.chain_spec(UNormToSNorm),
    {
        self.chain(UNormToSNorm)
    }

    /// Creates a configured noise from the builder.
    pub fn get_noise(self, seed: u32, frequency: i64) -> (r: Noise<T1::UnnestOutput>) where
        T1: Unnest,

        ensures
            r.noise == self.0.unnest_spec(),
            r.seed == NoiseRng(seed),
            r.frequency == frequency,
    {
        let noise = self.0.unnest();
        Noise { noise, seed: NoiseRng(seed), frequency }
    }

    /// Creates a default-configured noise from the builder.
    pub fn get_noise_default(self) -> (r: Noise<T1::UnnestOutput>) where
        T1: Unnest,

        ensures
            r.noise == self.0.unnest_spec(),
            r.seed == NoiseRng(0),
            r.frequency == crate::fixed::FP_ONE,
    {
        Noise::from_fn(self.0.unnest())
    }

    /// Gets the underlying noise function.
    pub fn get_noise_fn(self) -> (r: T1::UnnestOutput) where
        T1: Unnest,

        ensures
            r == self.0.unnest_spec(),
    {
        self.0.unnest()
    }
}

/// A builder for layered noise.
#[derive(Clone, Copy, PartialEq, Eq, Structural, Debug)]
pub struct LayeredBuilder<R, W, N> {
    /// The result context settings.
    pub result_settings: R,
    /// The weight settings.
    pub weight_settings: W,
    /// The chained noise operations so far.
    pub noise: N,
}

impl<R: NoiseResultContext, W: NoiseWeightsSettings> LayeredBuilder<R, W, ()> {
    /// Constructs a builder from result and weight settings and an empty
    /// operation list.
    pub fn new(result_settings: R, weight_settings: W) -> (r: Self)
        ensures
            r.result_settings == result_settings,
            r.weight_settings == weight_settings,
            r.noise == (),
    {
        LayeredBuilder { result_settings, weight_settings, noise: () }
    }
}

impl LayeredBuilder<Normed, Persistence, ()> {
    /// Constructs a builder for normalized layering with the given
    /// fixed-point persistence.
    pub fn normed(persistence: i64) -> (r: Self)
        requires
            0 <= persistence <= PERSISTENCE_MAX,
        ensures
            r.result_settings == (Normed { total_weights: 0 }),
            r.weight_settings == Persistence(persistence),
            r.noise == (),
    {
        LayeredBuilder {
            result_settings: Normed { total_weights: 0 },
            weight_settings: Persistence(persistence),
            noise: (),
        }
    }
}

impl<R, W, N> LayeredBuilder<R, W, N> {
    /// Adds a simple octave layer to the layered noise.
    pub fn octave<N2>(self, octave: N2) -> (r: LayeredBuilder<R, W, N::ChainOutput>) where
        N: TupleChainable<Octave<N2>>,

        ensures
            r.result_settings == self.result_settings,
            r.weight_settings == self.weight_settings,
            r.noise == self.noise.chain_spec(Octave(octave)),
    {
        LayeredBuilder {
            result_settings: self.result_settings,
            weight_settings: self.weight_settings,
            noise: self.noise.chain(Octave(octave)),
        }
    }

    /// Adds a fractal layer: the given noise repeated `amount` times, the
    /// working location scaled by `lacunarity` between repetitions.
    pub fn fractal<N2>(self, noise: N2, lacunarity: i64, amount: u32) -> (r: LayeredBuilder<
        R,
        W,
        N::ChainOutput,
    >) where N: TupleChainable<FractalOctaves<Octave<N2>>>,
        ensures
            r.result_settings == self.result_settings,
            r.weight_settings == self.weight_settings,
            r.noise == self.noise.chain_spec(
                FractalOctaves { octave: Octave(noise), lacunarity, octaves: amount },
            ),
    {
        LayeredBuilder {
            result_settings: self.result_settings,
            weight_settings: self.weight_settings,
            noise: self.noise.chain(
                FractalOctaves { octave: Octave(noise), lacunarity, octaves: amount },
            ),
        }
    }

    /// Adds a domain-warping layer: the warper's displacement, scaled by
    /// `strength`, shifts the working location for the layers that follow.
    pub fn warp<T>(self, warper: T, strength: i64) -> (r: LayeredBuilder<
        R,
        W,
        N::ChainOutput,
    >) where N: TupleChainable<DomainWarp<T>>,
        ensures
            r.result_settings == self.result_settings,
            r.weight_settings == self.weight_settings,
            r.noise == self.noise.chain_spec(DomainWarp { warper, strength }),
    {
        LayeredBuilder {
            result_settings: self.result_settings,
            weight_settings: self.weight_settings,
            noise: self.noise.chain(DomainWarp { warper, strength }),
        }
    }

    /// Creates the underlying layered noise function, running the prepare
    /// pass.
    pub fn get_noise_fn(self) -> (r: LayeredNoise<R, W, N::UnnestOutput>) where
        N: Unnest,
        N::UnnestOutput: NoiseOperation<R, W::Weights>,
        R: NoiseResultContext,
        W: NoiseWeightsSettings,

        requires
            self.noise.unnest_spec().op_wf(),
            self.result_settings.context_wf(),
            self.weight_settings.settings_wf(),
            self.result_settings.total_weight() + self.noise.unnest_spec().weight_sum(
                self.weight_settings.start_weights_spec(),
            ) <= TOTAL_WEIGHT_MAX,
        ensures
            r.noise == self.noise.unnest_spec(),
            r.weight_settings == self.weight_settings,
            r.result_context == self.noise.unnest_spec().prepared(
                self.result_settings,
                self.weight_settings.start_weights_spec(),
            ),
            r.result_context.context_wf(),
    {
        let noise = self.noise.unnest();
        LayeredNoise::new(self.result_settings, self.weight_settings, noise)
    }
}

} // verus!
