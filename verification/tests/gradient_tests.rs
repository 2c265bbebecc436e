//! Gradient generators, gradient noise, and kernel blending.

use noiz::cell_noise::{
    BlendCellGradients, BlendCellValues, GradientGenerator, MixCellGradients, QualityGradients,
    QuickGradients, RandomGradients, SimplecticBlend,
};
use noiz::curves::Smoothstep;
use noiz::fixed::FP_ONE;
use noiz::rng::{NoiseRng, IValue};
use noiz::segments::{Grid, Voronoi};
use noiz::vectors::Vec2;
use noiz::{Noise, SampleableFor};

#[test]
fn quick_gradient_dots_stay_strictly_inside_the_unit() {
    // Offsets with components strictly inside the unit give dot products
    // strictly inside it, for every seed bucket.
    let offsets = [
        Vec2::new(FP_ONE - 1, FP_ONE - 1),
        Vec2::new(-(FP_ONE - 1), FP_ONE / 3),
        Vec2::new(12345, -54321),
        Vec2::new(0, 0),
    ];
    for bucket in 0..4u32 {
        let seed = bucket << 30;
        for off in offsets {
            let dot = QuickGradients.get_gradient_dot(seed, off);
            assert!(-FP_ONE < dot && dot < FP_ONE);
        }
    }
}

#[test]
fn gradients_are_unit_length_vectors() {
    for i in 0..64u32 {
        let seed = i.wrapping_mul(0x9E3779B9);
        for (gx, gy) in [
            {
                let g = QuickGradients.get_gradient(seed);
                (g.x, g.y)
            },
            {
                let g = RandomGradients.get_gradient(seed);
                (g.x, g.y)
            },
            {
                let g = QualityGradients.get_gradient(seed);
                (g.x, g.y)
            },
        ] {
            let len = ((gx as f64).powi(2) + (gy as f64).powi(2)).sqrt() / FP_ONE as f64;
            assert!((len - 1.0).abs() < 0.01);
        }
    }
}

#[test]
fn gradient_noise_is_zero_on_the_lattice() {
    // On lattice points every corner offset is axis-aligned with the
    // sample, and the interpolation weights vanish, so the value is the
    // nearest corner's dot with a zero offset: zero.
    let noise = Noise {
        noise: MixCellGradients { cells: Grid, gradients: QuickGradients, curve: Smoothstep },
        seed: NoiseRng(1234),
        frequency: FP_ONE,
    };
    for i in 0..10i64 {
        let v: i64 = noise.sample(Vec2::new(i * FP_ONE, (i - 4) * FP_ONE));
        assert_eq!(v, 0);
    }
}

#[test]
fn gradient_noise_stays_in_the_signed_unit_interval() {
    let noise = Noise {
        noise: MixCellGradients { cells: Grid, gradients: QuickGradients, curve: Smoothstep },
        seed: NoiseRng(77),
        frequency: FP_ONE / 32,
    };
    let mut extreme = 0i64;
    for i in 0..2000i64 {
        let v: i64 = noise.sample(Vec2::new(i * 50021, i * 31013 + 11));
        assert!(-FP_ONE <= v && v <= FP_ONE);
        if v.abs() > extreme {
            extreme = v.abs();
        }
    }
    // The field actually moves.
    assert!(extreme > FP_ONE / 8);
}

#[test]
fn blended_noise_values_are_finite_and_reproducible() {
    let values = Noise {
        noise: BlendCellValues { cells: Voronoi, noise: IValue, blender: SimplecticBlend },
        seed: NoiseRng(5),
        frequency: FP_ONE / 8,
    };
    let gradients = Noise {
        noise: BlendCellGradients {
            cells: Grid,
            gradients: QuickGradients,
            blender: SimplecticBlend,
        },
        seed: NoiseRng(5),
        frequency: FP_ONE / 8,
    };
    for i in 0..200i64 {
        let loc = Vec2::new(i * 90001 - 800000, 13 * i * 4321);
        let a: i64 = values.sample(loc);
        let b: i64 = gradients.sample(loc);
        assert_eq!(a, values.sample(loc));
        assert_eq!(b, gradients.sample(loc));
        // The kernel caps each of at most sixteen contributions.
        assert!(a.abs() <= 16 * FP_ONE);
        assert!(b.abs() <= 448 * FP_ONE);
    }
}
