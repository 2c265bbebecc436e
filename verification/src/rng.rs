//! The deterministic random number generator driving all noise.
//!
//! `NoiseRng` is a seeded integer mixer: the same seed and input always give
//! the same output, and reseeding is itself a pure function of the state, so
//! every sample of a noise function is reproducible.

use vstd::prelude::*;

use crate::fixed::FP_ONE;
use crate::vectors::{IVec2, IVec3, IVec4, UVec2, UVec3, UVec4};
use crate::NoiseFunction;

verus! {

/// The multiplier of the mixer: a large prime with an even bit distribution.
pub const RNG_KEY: u32 = 249222277;

/// The coefficient that folds a second coordinate into a collapsed input.
pub const RNG_COEFF_Y: u32 = 189221569;

/// The coefficient that folds a third coordinate into a collapsed input.
pub const RNG_COEFF_Z: u32 = 139217773;

/// The coefficient that folds a fourth coordinate into a collapsed input.
pub const RNG_COEFF_W: u32 = 149243933;

/// A seeded deterministic random number generator.
/// This stores the running seed of the generator.
#[derive(Clone, Copy, PartialEq, Eq, Structural, Debug)]
pub struct NoiseRng(pub u32);

/// Something that can be collapsed into a single `u32` and fed to [`NoiseRng`].
pub trait NoiseRngInput: Sized {
    /// The value this input collapses to.
    spec fn collapse_spec(self) -> u32;

    /// Collapses this value into a single `u32` to be put through the generator.
    fn collapse_for_rng(self) -> (r: u32)
        ensures
            r == self.collapse_spec(),
    ;
}

impl NoiseRng {
    /// The state after one reseed: the seed multiplied (wrapping) by the key.
    pub open spec fn re_seed_spec(self) -> NoiseRng {
        NoiseRng(self.0.wrapping_mul(RNG_KEY))
    }

    /// The value `rand_u32` produces from this state for a collapsed input.
    pub open spec fn rand_u32_spec(self, input: u32) -> u32 {
        (input.wrapping_mul(RNG_KEY) ^ input ^ self.0).wrapping_mul(RNG_KEY)
    }

    /// Deterministically changes the seed significantly.
    pub fn re_seed(&mut self)
        ensures
            *final(self) == old(self).re_seed_spec(),
    {
        self.0 = self.0.wrapping_mul(RNG_KEY);
    }

    /// Creates a generator that operates independently of this one and of
    /// branches made with other `branch_id`s. The state itself is unchanged.
    pub fn branch(&mut self, branch_id: u32) -> (r: NoiseRng)
        ensures
            *final(self) == *old(self),
            r == NoiseRng(old(self).rand_u32_spec(branch_id)),
    {
        let id = self.rand_u32(branch_id);
        NoiseRng(id)
    }

    /// Based on `input`, generates a random `u32`.
    pub fn rand_u32<T: NoiseRngInput>(&self, input: T) -> (r: u32)
        ensures
            r == self.rand_u32_spec(input.collapse_spec()),
    {
        let i = input.collapse_for_rng();
        let a = i.wrapping_mul(RNG_KEY);
        (a ^ i ^ self.0).wrapping_mul(RNG_KEY)
    }
}

/// The high sixteen bits of a word never exceed sixteen bits' worth.
pub proof fn lemma_high_bits_bound(x: u32)
    ensures
        x >> 16 < 65536,
{
    assert(x >> 16 < 65536) by (bit_vector);
}

/// The low sixteen bits of a word never exceed sixteen bits' worth.
pub proof fn lemma_low_bits_bound(x: u32)
    ensures
        x & 0xFFFF < 65536,
{
    assert(x & 0xFFFF < 65536) by (bit_vector);
}

/// The fixed-point value in `[0, 1)` carried by the high bits of a word.
pub open spec fn unorm_from_bits_spec(bits: u32) -> i64 {
    (bits >> 16) as i64
}

/// The fixed-point value in `[-1, 1)` carried by the high bits of a word.
pub open spec fn snorm_from_bits_spec(bits: u32) -> i64 {
    (2 * ((bits >> 16) as i64) - FP_ONE) as i64
}

/// Maps the high bits of a word to a fixed-point value in `[0, 1)`.
pub fn unorm_from_bits(bits: u32) -> (r: i64)
    ensures
        r == unorm_from_bits_spec(bits),
        0 <= r < FP_ONE,
{
    proof {
        lemma_high_bits_bound(bits);
    }
    (bits >> 16) as i64
}

/// Maps the high bits of a word to a fixed-point value in `[-1, 1)`.
pub fn snorm_from_bits(bits: u32) -> (r: i64)
    ensures
        r == snorm_from_bits_spec(bits),
        -FP_ONE <= r < FP_ONE,
{
    proof {
        lemma_high_bits_bound(bits);
    }
    2 * ((bits >> 16) as i64) - FP_ONE
}

impl NoiseRngInput for u32 {
    open spec fn collapse_spec(self) -> u32 {
        self
    }

    fn collapse_for_rng(self) -> (r: u32) {
        self
    }
}

impl NoiseRngInput for UVec2 {
    open spec fn collapse_spec(self) -> u32 {
        self.x.wrapping_add(self.y.wrapping_mul(RNG_COEFF_Y))
    }

    fn collapse_for_rng(self) -> (r: u32) {
        self.x.wrapping_add(self.y.wrapping_mul(RNG_COEFF_Y))
    }
}

impl NoiseRngInput for IVec2 {
    open spec fn collapse_spec(self) -> u32 {
        (self.x as u32).wrapping_add((self.y as u32).wrapping_mul(RNG_COEFF_Y))
    }

    fn collapse_for_rng(self) -> (r: u32) {
        let ux = #[verifier::truncate] (self.x as u32);
        let uy = #[verifier::truncate] (self.y as u32);
        ux.wrapping_add(uy.wrapping_mul(RNG_COEFF_Y))
    }
}

impl NoiseRngInput for UVec3 {
    open spec fn collapse_spec(self) -> u32 {
        self.x.wrapping_add(self.y.wrapping_mul(RNG_COEFF_Y)).wrapping_add(
            self.z.wrapping_mul(RNG_COEFF_Z),
        )
    }

    fn collapse_for_rng(self) -> (r: u32) {
        self.x.wrapping_add(self.y.wrapping_mul(RNG_COEFF_Y)).wrapping_add(
            self.z.wrapping_mul(RNG_COEFF_Z),
        )
    }
}

impl NoiseRngInput for UVec4 {
    open spec fn collapse_spec(self) -> u32 {
        self.x.wrapping_add(self.y.wrapping_mul(RNG_COEFF_Y)).wrapping_add(
            self.z.wrapping_mul(RNG_COEFF_Z),
        ).wrapping_add(self.w.wrapping_mul(RNG_COEFF_W))
    }

    fn collapse_for_rng(self) -> (r: u32) {
        self.x.wrapping_add(self.y.wrapping_mul(RNG_COEFF_Y)).wrapping_add(
            self.z.wrapping_mul(RNG_COEFF_Z),
        ).wrapping_add(self.w.wrapping_mul(RNG_COEFF_W))
    }
}

impl NoiseRngInput for IVec3 {
    open spec fn collapse_spec(self) -> u32 {
        UVec3 { x: self.x as u32, y: self.y as u32, z: self.z as u32 }.collapse_spec()
    }

    fn collapse_for_rng(self) -> (r: u32) {
        let ux = #[verifier::truncate] (self.x as u32);
        let uy = #[verifier::truncate] (self.y as u32);
        let uz = #[verifier::truncate] (self.z as u32);
        UVec3 { x: ux, y: uy, z: uz }.collapse_for_rng()
    }
}

impl NoiseRngInput for IVec4 {
    open spec fn collapse_spec(self) -> u32 {
        UVec4 {
            x: self.x as u32,
            y: self.y as u32,
            z: self.z as u32,
            w: self.w as u32,
        }.collapse_spec()
    }

    fn collapse_for_rng(self) -> (r: u32) {
        let ux = #[verifier::truncate] (self.x as u32);
        let uy = #[verifier::truncate] (self.y as u32);
        let uz = #[verifier::truncate] (self.z as u32);
        let uw = #[verifier::truncate] (self.w as u32);
        UVec4 { x: ux, y: uy, z: uz, w: uw }.collapse_for_rng()
    }
}

/// A [`NoiseFunction`] that turns any collapsible input into a fully random `u32`.
#[derive(Clone, Copy, PartialEq, Eq, Structural, Debug)]
pub struct Random;

impl<T: NoiseRngInput> NoiseFunction<T> for Random {
    type Output = u32;

    open spec fn in_domain(&self, input: T, rng: NoiseRng) -> bool {
        true
    }

    open spec fn eval_spec(&self, input: T, rng: NoiseRng) -> (u32, NoiseRng) {
        (rng.rand_u32_spec(input.collapse_spec()), rng)
    }

    fn evaluate(&self, input: T, seeds: &mut NoiseRng) -> (out: u32) {
        seeds.rand_u32(input)
    }
}

/// A [`NoiseFunction`] that turns a random `u32` into a fixed-point value in `[0, 1)`.
#[derive(Clone, Copy, PartialEq, Eq, Structural, Debug)]
pub struct UValue;

impl NoiseFunction<u32> for UValue {
    type Output = i64;

    open spec fn in_domain(&self, input: u32, rng: NoiseRng) -> bool {
        true
    }

    open spec fn eval_spec(&self, input: u32, rng: NoiseRng) -> (i64, NoiseRng) {
        (unorm_from_bits_spec(input), rng)
    }

    fn evaluate(&self, input: u32, seeds: &mut NoiseRng) -> (out: i64) {
        unorm_from_bits(input)
    }
}

/// A [`NoiseFunction`] that turns a random `u32` into a fixed-point value in `[-1, 1)`.
#[derive(Clone, Copy, PartialEq, Eq, Structural, Debug)]
pub struct IValue;

impl NoiseFunction<u32> for IValue {
    type Output = i64;

    open spec fn in_domain(&self, input: u32, rng: NoiseRng) -> bool {
        true
    }

    open spec fn eval_spec(&self, input: u32, rng: NoiseRng) -> (i64, NoiseRng) {
        (snorm_from_bits_spec(input), rng)
    }

    fn evaluate(&self, input: u32, seeds: &mut NoiseRng) -> (out: i64) {
        snorm_from_bits(input)
    }
}

/// A generator whose raw per-point values can be interpolated linearly, with a
/// single finishing map applied once at the end instead of once per point.
pub trait FastRandomMixed {
    /// The raw, interpolation-friendly value produced for some random bits.
    spec fn raw_value_spec(&self, random: u32) -> i64;

    /// The finishing map from a blended raw value to the final domain.
    spec fn finish_spec(&self, post_mix: i64) -> i64;

    /// Produces the raw value for some random bits. The raw domain is `[0, 1)`.
    fn evaluate(&self, random: u32, seeds: &mut NoiseRng) -> (r: i64)
        ensures
            r == self.raw_value_spec(random),
            *final(seeds) == *old(seeds),
            0 <= r < FP_ONE,
    ;

    /// Finishes the evaluation, mapping a blended raw value to the final domain.
    fn finish_value(&self, post_mix: i64) -> (r: i64)
        requires
            0 <= post_mix <= FP_ONE,
        ensures
            r == self.finish_spec(post_mix),
            -FP_ONE <= r <= FP_ONE,
    ;

    /// The raw value always lies in `[0, 1)`, as a fact about the
    /// specification itself.
    proof fn lemma_raw_value_bounded(&self, random: u32)
        ensures
            0 <= self.raw_value_spec(random) < FP_ONE,
    ;

    /// The finished value always lies in `[-1, 1]`, as a fact about the
    /// specification itself.
    proof fn lemma_finish_bounded(&self, post_mix: i64)
        requires
            0 <= post_mix <= FP_ONE,
        ensures
            -FP_ONE <= self.finish_spec(post_mix) <= FP_ONE,
    ;

    /// The constant slope of [`FastRandomMixed::finish_value`], as a fixed-point value.
    fn finishing_derivative(&self) -> (r: i64)
        ensures
            1 <= r <= 2 * FP_ONE,
            forall|a: i64, b: i64|
                #![trigger self.finish_spec(a), self.finish_spec(b)]
                0 <= a <= FP_ONE && 0 <= b <= FP_ONE ==> FP_ONE * (self.finish_spec(a)
                    - self.finish_spec(b)) == r * (a - b),
    ;
}

impl FastRandomMixed for UValue {
    open spec fn raw_value_spec(&self, random: u32) -> i64 {
        unorm_from_bits_spec(random)
    }

    open spec fn finish_spec(&self, post_mix: i64) -> i64 {
        post_mix
    }

    fn evaluate(&self, random: u32, seeds: &mut NoiseRng) -> (r: i64) {
        unorm_from_bits(random)
    }

    proof fn lemma_raw_value_bounded(&self, random: u32) {
        lemma_high_bits_bound(random);
    }

    proof fn lemma_finish_bounded(&self, post_mix: i64) {
    }

    fn finish_value(&self, post_mix: i64) -> (r: i64) {
        post_mix
    }

    fn finishing_derivative(&self) -> (r: i64) {
        FP_ONE
    }
}

impl FastRandomMixed for IValue {
    open spec fn raw_value_spec(&self, random: u32) -> i64 {
        unorm_from_bits_spec(random)
    }

    open spec fn finish_spec(&self, post_mix: i64) -> i64 {
        (2 * post_mix - FP_ONE) as i64
    }

    fn evaluate(&self, random: u32, seeds: &mut NoiseRng) -> (r: i64) {
        unorm_from_bits(random)
    }

    proof fn lemma_raw_value_bounded(&self, random: u32) {
        lemma_high_bits_bound(random);
    }

    proof fn lemma_finish_bounded(&self, post_mix: i64) {
    }

    fn finish_value(&self, post_mix: i64) -> (r: i64) {
        2 * post_mix - FP_ONE
    }

    fn finishing_derivative(&self) -> (r: i64) {
        2 * FP_ONE
    }
}

} // verus!
