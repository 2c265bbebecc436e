//! Value noise over the orthogonal grid: the midpoint blend and the
//! cell-boundary continuity scenarios.

use noiz::cell_noise::MixCellValues;
use noiz::curves::Smoothstep;
use noiz::fixed::FP_ONE;
use noiz::rng::{unorm_from_bits, NoiseRng, UValue};
use noiz::segments::{lerp, Grid};
use noiz::vectors::{IVec2, Vec2};
use noiz::{Noise, SampleableFor};

fn value_noise(seed: u32, frequency: i64) -> Noise<MixCellValues<Grid, Smoothstep, UValue>> {
    Noise {
        noise: MixCellValues { cells: Grid, noise: UValue, curve: Smoothstep },
        seed: NoiseRng(seed),
        frequency,
    }
}

#[test]
fn sampling_twice_is_bit_identical() {
    let noise = value_noise(123, FP_ONE / 32);
    for i in 0..50i64 {
        let loc = Vec2::new(i * 1000 - 20000, 7 * i * 999);
        let a: i64 = noise.sample(loc);
        let b: i64 = noise.sample(loc);
        assert_eq!(a, b);
    }
}

#[test]
fn midpoint_is_the_bilinear_blend_of_the_corners() {
    // Seed zero, frequency one thirty-second: the location (16, 16) lands
    // in the middle of cell (0, 0)-(1, 1).
    let seed = NoiseRng(0);
    let noise = value_noise(0, FP_ONE / 32);
    let sampled: i64 = noise.sample(Vec2::new(16 * FP_ONE, 16 * FP_ONE));

    // The four corner values straight from the per-point generator.
    let v00 = unorm_from_bits(seed.rand_u32(IVec2::new(0, 0)));
    let v01 = unorm_from_bits(seed.rand_u32(IVec2::new(0, 1)));
    let v10 = unorm_from_bits(seed.rand_u32(IVec2::new(1, 0)));
    let v11 = unorm_from_bits(seed.rand_u32(IVec2::new(1, 1)));

    // Smoothstep of one half is one half, so the blend weights are (.5, .5).
    let half = FP_ONE / 2;
    let low = lerp(v00, v01, half);
    let high = lerp(v10, v11, half);
    let expected = lerp(low, high, half);
    assert_eq!(sampled, expected);
}

#[test]
fn value_noise_is_continuous_across_cell_boundaries() {
    // Period thirty-two: the raw coordinate 32 sits exactly on a cell
    // boundary. Samples a hair on either side must nearly agree.
    let noise = value_noise(77, FP_ONE / 32);
    for row in 0..8i64 {
        let y = row * 11 * FP_ONE / 3 + 5;
        let just_left: i64 = noise.sample(Vec2::new(32 * FP_ONE - 16, y));
        let just_right: i64 = noise.sample(Vec2::new(32 * FP_ONE + 16, y));
        let gap = (just_left - just_right).abs();
        // A thousandth of the unit, as the continuity scenario allows.
        assert!(gap < FP_ONE / 1000);
    }
}

#[test]
fn value_noise_stays_in_the_unit_interval() {
    let noise = value_noise(9001, FP_ONE / 16);
    let mut worst = 0i64;
    for ix in 0..100i64 {
        for iy in 0..100i64 {
            let v: i64 = noise.sample(Vec2::new(ix * 31013, iy * 47111));
            assert!(0 <= v && v <= FP_ONE);
            if v > worst {
                worst = v;
            }
        }
    }
    // The field actually moves: some sample climbs above one half.
    assert!(worst > FP_ONE / 2);
}
