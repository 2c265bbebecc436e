//! The deterministic generator and the per-point value sources.

use noiz::fixed::FP_ONE;
use noiz::rng::{
    snorm_from_bits, unorm_from_bits, IValue, NoiseRng, NoiseRngInput, Random, UValue,
};
use noiz::vectors::{IVec2, UVec2};
use noiz::NoiseFunction;

#[test]
fn rand_u32_is_deterministic() {
    let rng = NoiseRng(42);
    let a = rng.rand_u32(12345u32);
    let b = rng.rand_u32(12345u32);
    assert_eq!(a, b);
    let rng_again = NoiseRng(42);
    assert_eq!(rng_again.rand_u32(12345u32), a);
}

#[test]
fn rand_u32_differs_for_close_inputs() {
    let rng = NoiseRng(7);
    let a = rng.rand_u32(1000u32);
    let b = rng.rand_u32(1001u32);
    assert_ne!(a, b);
    // Avalanching: outputs of neighboring inputs are not neighbors.
    let gap = if a > b { a - b } else { b - a };
    assert!(gap > 1000);
}

#[test]
fn re_seed_changes_state_deterministically() {
    let mut a = NoiseRng(99);
    let mut b = NoiseRng(99);
    a.re_seed();
    b.re_seed();
    assert_eq!(a, b);
    assert_ne!(a, NoiseRng(99));
}

#[test]
fn branch_leaves_parent_unchanged() {
    let mut rng = NoiseRng(5);
    let child = rng.branch(3);
    assert_eq!(rng, NoiseRng(5));
    assert_ne!(child, rng);
}

#[test]
fn vector_collapse_mixes_both_coordinates() {
    let rng = NoiseRng(0);
    let a = rng.rand_u32(UVec2 { x: 1, y: 2 });
    let b = rng.rand_u32(UVec2 { x: 2, y: 1 });
    assert_ne!(a, b);
    let c = IVec2::new(-1, 3).collapse_for_rng();
    let d = IVec2::new(3, -1).collapse_for_rng();
    assert_ne!(c, d);
}

#[test]
fn unorm_and_snorm_values_stay_in_range() {
    let mut rng = NoiseRng(1);
    for input in 0..1000u32 {
        let h = rng.rand_u32(input);
        let u = unorm_from_bits(h);
        assert!(0 <= u && u < FP_ONE);
        let s = snorm_from_bits(h);
        assert!(-FP_ONE <= s && s < FP_ONE);
        rng.re_seed();
    }
}

#[test]
fn value_sources_agree_with_bit_maps() {
    let mut seeds = NoiseRng(3);
    let h = Random.evaluate(77u32, &mut seeds);
    let mut seeds2 = NoiseRng(0);
    let u = UValue.evaluate(h, &mut seeds2);
    assert_eq!(u, unorm_from_bits(h));
    let s = IValue.evaluate(h, &mut seeds2);
    assert_eq!(s, snorm_from_bits(h));
    assert_eq!(s, 2 * u - FP_ONE);
}
