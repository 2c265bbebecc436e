//! The pointwise adapters, combinators, merging, and the builder API.

use noiz::builder::{LayeredBuilder, NoiseBuilder};
use noiz::cell_noise::{MixCellGradients, MixCellValues, QuickGradients};
use noiz::curves::Smoothstep;
use noiz::fixed::FP_ONE;
use noiz::math_noise::{
    Abs, Inverse, Negate, PingPong, Pow2, Pow3, Pow4, PositiveApproachZero, ReverseUNorm,
    SNormToUNorm, UNormToSNorm,
};
use noiz::merging::{Max, MaxOrder, Mergeable, Merged, Merger, Min, MinOrder, Weighted};
use noiz::misc_noise::{Constant, ExtraRng, Masked, Offset, Peeled, RandomElements, Scaled, SelfMasked};
use noiz::rng::{NoiseRng, UValue};
use noiz::segments::Grid;
use noiz::vectors::Vec2;
use noiz::{
    AdaptiveNoise, ConfigurableNoise, DynamicSampleable, Noise, NoiseFunction, Sampleable,
    SampleableFor,
};

#[test]
fn scalar_adapters_compute_their_formulas() {
    let mut rng = NoiseRng(0);
    assert_eq!(SNormToUNorm.evaluate(-FP_ONE, &mut rng), 0);
    assert_eq!(SNormToUNorm.evaluate(FP_ONE, &mut rng), FP_ONE);
    assert_eq!(SNormToUNorm.evaluate(0, &mut rng), FP_ONE / 2);
    assert_eq!(UNormToSNorm.evaluate(0, &mut rng), -FP_ONE);
    assert_eq!(UNormToSNorm.evaluate(FP_ONE, &mut rng), FP_ONE);
    assert_eq!(Pow2.evaluate(FP_ONE / 2, &mut rng), FP_ONE / 4);
    assert_eq!(Pow3.evaluate(FP_ONE / 2, &mut rng), FP_ONE / 8);
    assert_eq!(Pow4.evaluate(FP_ONE / 2, &mut rng), FP_ONE / 16);
    assert_eq!(Abs.evaluate(-12345, &mut rng), 12345);
    assert_eq!(Negate.evaluate(777, &mut rng), -777);
    assert_eq!(ReverseUNorm.evaluate(FP_ONE / 4, &mut rng), 3 * FP_ONE / 4);
    // One over (one plus one) is one half.
    assert_eq!(PositiveApproachZero.evaluate(FP_ONE, &mut rng), FP_ONE / 2);
    // One over two is one half, symmetric in sign.
    assert_eq!(Inverse.evaluate(2 * FP_ONE, &mut rng), FP_ONE / 2);
    assert_eq!(Inverse.evaluate(-2 * FP_ONE, &mut rng), -FP_ONE / 2);
}

#[test]
fn ping_pong_folds_over_the_top() {
    let mut rng = NoiseRng(0);
    let pp = PingPong(FP_ONE);
    // Rising to the top of the unit...
    assert_eq!(pp.evaluate(0, &mut rng), FP_ONE);
    // ...and reflected back down past it.
    assert_eq!(pp.evaluate(-FP_ONE, &mut rng), 0);
    assert_eq!(pp.evaluate(FP_ONE / 2, &mut rng), FP_ONE / 2);
    for i in 0..50i64 {
        let v = pp.evaluate(i * 3000 - FP_ONE, &mut rng);
        assert!(0 <= v && v <= FP_ONE);
    }
}

#[test]
fn masking_multiplies_and_constants_stand_still() {
    let mut rng = NoiseRng(5);
    let masked = Masked(Constant(FP_ONE / 2), Constant(FP_ONE / 2));
    let v = masked.evaluate(Vec2::new(0, 0), &mut rng);
    assert_eq!(v, FP_ONE / 4);
    let self_masked = SelfMasked(Constant(-FP_ONE / 2));
    let w = self_masked.evaluate(Vec2::new(0, 0), &mut rng);
    assert_eq!(w, FP_ONE / 4);
    let c: i64 = Constant(999i64).evaluate(Vec2::new(1, 2), &mut rng);
    assert_eq!(c, 999);
}

#[test]
fn extra_rng_changes_downstream_randomness() {
    let noise_plain = Noise {
        noise: MixCellValues { cells: Grid, noise: UValue, curve: Smoothstep },
        seed: NoiseRng(17),
        frequency: FP_ONE,
    };
    let noise_reseeded = Noise {
        noise: (ExtraRng, MixCellValues { cells: Grid, noise: UValue, curve: Smoothstep }),
        seed: NoiseRng(17),
        frequency: FP_ONE,
    };
    let loc = Vec2::new(123456, 654321);
    let a: i64 = noise_plain.sample(loc);
    let b: i64 = noise_reseeded.sample(loc);
    assert_ne!(a, b);
}

#[test]
fn random_elements_make_a_vector_from_scalar_noise() {
    let noise = Noise {
        noise: RandomElements(MixCellGradients {
            cells: Grid,
            gradients: QuickGradients,
            curve: Smoothstep,
        }),
        seed: NoiseRng(8),
        frequency: FP_ONE / 8,
    };
    let v: Vec2 = noise.sample(Vec2::new(3 * FP_ONE, 5 * FP_ONE + 77));
    // The two elements come from differently seeded evaluations.
    assert!(-FP_ONE <= v.x && v.x <= FP_ONE);
    assert!(-FP_ONE <= v.y && v.y <= FP_ONE);
    assert_ne!(v.x, v.y);
}

#[test]
fn scaled_contracts_the_domain() {
    let mut rng = NoiseRng(0);
    let s = Scaled(FP_ONE / 2);
    let v: Vec2 = s.evaluate(Vec2::new(4 * FP_ONE, -2 * FP_ONE), &mut rng);
    assert_eq!(v, Vec2::new(2 * FP_ONE, -FP_ONE));
}

#[test]
fn mergers_pick_and_average() {
    let vals: Vec<i64> = vec![FP_ONE / 2, FP_ONE / 8, 3 * FP_ONE / 4];
    assert_eq!(Min(()).merge(&vals), FP_ONE / 8);
    assert_eq!(Max(()).merge(&vals), 3 * FP_ONE / 4);
    assert_eq!(MinOrder(()).merge(&vals), FP_ONE / 8);
    assert_eq!(MaxOrder(()).merge(&vals), 3 * FP_ONE / 4);
    // The unit weigher returns each value's relative share; the combined
    // output of a single value is the whole share.
    let lone: Vec<i64> = vec![FP_ONE / 3];
    assert_eq!(Weighted(()).merge(&lone), FP_ONE);
    let merged = Merged(Min(()));
    assert_eq!(merged.get(&vals), FP_ONE / 8);
    assert_eq!(vals.perform_merge(&Max(())), 3 * FP_ONE / 4);
}

#[test]
fn builder_pipelines_match_hand_composition() {
    let built = NoiseBuilder::new()
        .chain(MixCellGradients { cells: Grid, gradients: QuickGradients, curve: Smoothstep })
        .unorm()
        .get_noise(21, FP_ONE / 16);
    let hand = Noise {
        noise: (
            MixCellGradients { cells: Grid, gradients: QuickGradients, curve: Smoothstep },
            SNormToUNorm,
        ),
        seed: NoiseRng(21),
        frequency: FP_ONE / 16,
    };
    for i in 0..20i64 {
        let loc = Vec2::new(i * 55555, 3 - i * 77777);
        let a: i64 = built.sample(loc);
        let b: i64 = hand.sample(loc);
        assert_eq!(a, b);
        assert!(0 <= a && a <= FP_ONE);
    }
}

#[test]
fn layered_builder_matches_hand_layering() {
    let built = LayeredBuilder::normed(FP_ONE / 2)
        .fractal(
            MixCellGradients { cells: Grid, gradients: QuickGradients, curve: Smoothstep },
            2 * FP_ONE,
            4,
        )
        .get_noise_fn();
    let noise = Noise { noise: built, seed: NoiseRng(2), frequency: FP_ONE / 8 };
    let v: i64 = noise.sample(Vec2::new(12 * FP_ONE + 5, 9 * FP_ONE - 3));
    assert!(-FP_ONE <= v && v <= FP_ONE);
}

#[test]
fn configuration_round_trips() {
    let mut noise = Noise {
        noise: Constant(0i64),
        seed: NoiseRng(0),
        frequency: FP_ONE,
    };
    noise.set_seed(99);
    assert_eq!(noise.get_seed(), 99);
    noise.set_frequency(FP_ONE / 4);
    assert_eq!(noise.get_frequency(), FP_ONE / 4);
    // The period is the reciprocal of the frequency.
    noise.set_period(32 * FP_ONE);
    assert_eq!(noise.get_frequency(), FP_ONE / 32);
    assert_eq!(noise.get_period(), 32 * FP_ONE);
}

#[test]
fn dynamic_sampling_matches_static_sampling() {
    let noise = Noise {
        noise: MixCellValues { cells: Grid, noise: UValue, curve: Smoothstep },
        seed: NoiseRng(4),
        frequency: FP_ONE / 4,
    };
    let loc = Vec2::new(7 * FP_ONE + 9, FP_ONE - 2);
    let a: i64 = noise.sample(loc);
    let b: i64 = noise.sample_dyn(loc);
    assert_eq!(a, b);
    let c: i64 = noise.sample_for(loc);
    assert_eq!(a, c);
    let (raw, _leftover) = noise.sample_raw(loc);
    assert_eq!(a, raw);
}

#[test]
fn adaptive_noise_applies_its_adapter() {
    let plain = Noise {
        noise: MixCellGradients { cells: Grid, gradients: QuickGradients, curve: Smoothstep },
        seed: NoiseRng(31),
        frequency: FP_ONE / 8,
    };
    let adaptive = AdaptiveNoise { noise: plain, adapter: SNormToUNorm };
    let loc = Vec2::new(5 * FP_ONE + 123, 2 * FP_ONE + 456);
    let raw: i64 = plain.sample(loc);
    let finished: i64 = adaptive.sample(loc);
    assert_eq!(finished, (raw + FP_ONE) / 2);
    assert_eq!(finished, adaptive.sample_dyn(loc));
}

#[test]
fn peeled_noise_switches_seeds_between_layers() {
    // A peeler that returns zero picks layer zero; one that returns the
    // whole unit picks a later layer, so the inner noise reseeds.
    let base = MixCellValues { cells: Grid, noise: UValue, curve: Smoothstep };
    let low = Noise {
        noise: Peeled { peeler: Constant(0i64), noise: base, layers: 2 * FP_ONE },
        seed: NoiseRng(6),
        frequency: FP_ONE,
    };
    let high = Noise {
        noise: Peeled { peeler: Constant(FP_ONE), noise: base, layers: 2 * FP_ONE },
        seed: NoiseRng(6),
        frequency: FP_ONE,
    };
    let loc = Vec2::new(111111, 222222);
    let a: i64 = low.sample(loc);
    let b: i64 = high.sample(loc);
    assert_ne!(a, b);
    assert_eq!(a, low.sample(loc));
}

#[test]
fn domain_warp_shifts_the_working_location() {
    let base = MixCellGradients { cells: Grid, gradients: QuickGradients, curve: Smoothstep };
    let flat = LayeredBuilder::normed(FP_ONE / 2).octave(base).get_noise_fn();
    let warped = LayeredBuilder::normed(FP_ONE / 2)
        .warp(Constant(Vec2::new(3 * FP_ONE, -2 * FP_ONE)), FP_ONE)
        .octave(base)
        .get_noise_fn();
    let loc = Vec2::new(7 * FP_ONE + 31, 4 * FP_ONE + 77);
    let shifted_loc = Vec2::new(loc.x + 3 * FP_ONE, loc.y - 2 * FP_ONE);
    let at_shift: i64 = Noise { noise: flat, seed: NoiseRng(9), frequency: FP_ONE }
        .sample(shifted_loc);
    let via_warp: i64 = Noise { noise: warped, seed: NoiseRng(9), frequency: FP_ONE }
        .sample(loc);
    assert_eq!(via_warp, at_shift);
}

#[test]
fn offset_warps_the_input_of_a_pipeline() {
    // Offsetting by a constant vector is sampling at the shifted location.
    let base = MixCellValues { cells: Grid, noise: UValue, curve: Smoothstep };
    let warped = Noise {
        noise: (
            Offset { offseter: Constant(Vec2::new(FP_ONE, FP_ONE)), offset_strength: FP_ONE },
            base,
        ),
        seed: NoiseRng(12),
        frequency: FP_ONE,
    };
    let plain = Noise { noise: base, seed: NoiseRng(12), frequency: FP_ONE };
    let loc = Vec2::new(4 * FP_ONE + 9, 6 * FP_ONE + 5);
    let a: i64 = warped.sample(loc);
    let b: i64 = plain.sample(Vec2::new(loc.x + FP_ONE, loc.y + FP_ONE));
    assert_eq!(a, b);
}

#[test]
fn wrapped_folds_values_back_around() {
    let mut rng = NoiseRng(0);
    let w = noiz::math_noise::Wrapped(FP_ONE);
    assert_eq!(w.evaluate(FP_ONE + 5, &mut rng), 5);
    assert_eq!(w.evaluate(5, &mut rng), 5);
    assert_eq!(w.evaluate(-3, &mut rng), FP_ONE - 3);
    assert_eq!(w.evaluate(3 * FP_ONE, &mut rng), 0);
}
