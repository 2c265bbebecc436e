//! The fractal layering engine: weight lockstep, normalization, and the
//! fractal-sum scenario.

use noiz::cell_noise::{MixCellGradients, QuickGradients};
use noiz::curves::Smoothstep;
use noiz::fixed::FP_ONE;
use noiz::layering::{
    FractalOctaves, LayeredNoise, Normed, NoiseWeights, Octave, Persistence, PersistenceWeights,
    PERSISTENCE_START_WEIGHT,
};
use noiz::rng::NoiseRng;
use noiz::segments::Grid;
use noiz::vectors::Vec2;
use noiz::{Noise, SampleableFor};

type Perlin = MixCellGradients<Grid, Smoothstep, QuickGradients>;

fn perlin() -> Perlin {
    MixCellGradients { cells: Grid, gradients: QuickGradients, curve: Smoothstep }
}

#[test]
fn persistence_weights_decay_geometrically() {
    let mut weights = PersistenceWeights {
        persistence: Persistence(FP_ONE / 2),
        next: PERSISTENCE_START_WEIGHT,
    };
    let w0 = weights.next_weight();
    let w1 = weights.next_weight();
    let w2 = weights.next_weight();
    assert_eq!(w0, PERSISTENCE_START_WEIGHT);
    assert_eq!(w1, PERSISTENCE_START_WEIGHT / 2);
    assert_eq!(w2, PERSISTENCE_START_WEIGHT / 4);
}

#[test]
fn prepare_and_evaluate_consume_the_same_weights() {
    // Run the weight generator once for the prepare pass and once for the
    // evaluate pass: the draws must match, count for count.
    let settings = Persistence(FP_ONE / 2);
    let mut prepare_pass = PersistenceWeights {
        persistence: settings,
        next: PERSISTENCE_START_WEIGHT,
    };
    let mut evaluate_pass = PersistenceWeights {
        persistence: settings,
        next: PERSISTENCE_START_WEIGHT,
    };
    let mut prepared_total = 0i64;
    let mut consumed_total = 0i64;
    for _ in 0..8 {
        prepared_total += prepare_pass.next_weight();
    }
    for _ in 0..8 {
        consumed_total += evaluate_pass.next_weight();
    }
    assert_eq!(prepared_total, consumed_total);
    // The total the layered constructor registers is that same sum.
    let layered = LayeredNoise::new(
        Normed { total_weights: 0 },
        settings,
        FractalOctaves { octave: Octave(perlin()), lacunarity: 2 * FP_ONE, octaves: 8 },
    );
    assert_eq!(layered.result_context.total_weights, prepared_total);
}

#[test]
fn single_octave_normalization_is_the_identity() {
    // One octave at any persistence: the layered sample equals the raw
    // octave sample, because the weight cancels.
    let layered = LayeredNoise::new(
        Normed { total_weights: 0 },
        Persistence(3 * FP_ONE / 4),
        (Octave(perlin()),),
    );
    let layered_noise = Noise {
        noise: layered,
        seed: NoiseRng(42),
        frequency: FP_ONE / 32,
    };
    let raw_noise = Noise {
        noise: perlin(),
        seed: NoiseRng(42),
        frequency: FP_ONE / 32,
    };
    for i in 0..40i64 {
        let loc = Vec2::new(i * 70001, 13 * i * 999 + 17);
        let a: i64 = layered_noise.sample(loc);
        let b: i64 = raw_noise.sample(loc);
        assert_eq!(a, b);
    }
}

#[test]
fn zero_octaves_is_a_legal_identity() {
    // An empty operation list must not panic; it finishes to zero.
    let layered = LayeredNoise::new(Normed { total_weights: 0 }, Persistence(FP_ONE / 2), ());
    let noise = Noise { noise: layered, seed: NoiseRng(0), frequency: FP_ONE };
    let v: i64 = noise.sample(Vec2::new(12345, 67890));
    assert_eq!(v, 0);
}

#[test]
fn fractal_sum_is_bounded_and_smoother_than_one_octave() {
    // Eight octaves, persistence one half, lacunarity two, normalized,
    // gradient noise, seed 42, frequency one thirty-second: every output
    // lies within a whisker of the unit range, and averaging makes the
    // field's spread smaller than a single octave's.
    let fractal = Noise {
        noise: LayeredNoise::new(
            Normed { total_weights: 0 },
            Persistence(FP_ONE / 2),
            FractalOctaves { octave: Octave(perlin()), lacunarity: 2 * FP_ONE, octaves: 8 },
        ),
        seed: NoiseRng(42),
        frequency: FP_ONE / 32,
    };
    let single = Noise {
        noise: perlin(),
        seed: NoiseRng(42),
        frequency: FP_ONE / 32,
    };

    let mut fractal_samples: Vec<f64> = Vec::new();
    let mut single_samples: Vec<f64> = Vec::new();
    let limit = 1.05 * FP_ONE as f64;
    for ix in 0..64i64 {
        for iy in 0..64i64 {
            let loc = Vec2::new(ix * FP_ONE, iy * FP_ONE);
            let f: i64 = fractal.sample(loc);
            let s: i64 = single.sample(loc);
            assert!((f as f64).abs() <= limit);
            assert!((s as f64).abs() <= limit);
            fractal_samples.push(f as f64);
            single_samples.push(s as f64);
        }
    }
    let spread = |samples: &Vec<f64>| {
        let n = samples.len() as f64;
        let mean: f64 = samples.iter().sum::<f64>() / n;
        let var: f64 = samples.iter().map(|v| (v - mean) * (v - mean)).sum::<f64>() / n;
        var.sqrt()
    };
    let fractal_spread = spread(&fractal_samples);
    let single_spread = spread(&single_samples);
    assert!(fractal_spread < single_spread);
}
