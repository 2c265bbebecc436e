//! Worley (cellular) noise: range bounds and distance monotonicity.

use noiz::cell_noise::{
    ChebyshevLength, DistanceToEdge, EuclideanLength, LengthFunction, ManhatanLength, PerCell,
    PerLeastDistances, PerNearestPoint, WorleyAverage, WorleyDifference, WorleyPointDistance,
    WorleyRatio, WorleySecondPointDistance,
};
use noiz::fixed::FP_ONE;
use noiz::rng::{NoiseRng, UValue};
use noiz::segments::{DomainSegment, Grid, Segmenter, Voronoi};
use noiz::vectors::Vec2;
use noiz::{Noise, SampleableFor};

fn worley(seed: u32) -> Noise<PerLeastDistances<Voronoi, EuclideanLength, WorleyPointDistance>> {
    Noise {
        noise: PerLeastDistances {
            cells: Voronoi,
            length_mode: EuclideanLength,
            worley_mode: WorleyPointDistance,
        },
        seed: NoiseRng(seed),
        frequency: FP_ONE,
    }
}

#[test]
fn worley_outputs_stay_in_the_unit_interval() {
    // All modes, all metrics, many coordinates: never outside [0, 1].
    let n1 = worley(5);
    let n2 = Noise {
        noise: PerLeastDistances {
            cells: Voronoi,
            length_mode: ManhatanLength,
            worley_mode: WorleySecondPointDistance,
        },
        seed: NoiseRng(6),
        frequency: FP_ONE,
    };
    let n3 = Noise {
        noise: PerLeastDistances {
            cells: Voronoi,
            length_mode: ChebyshevLength,
            worley_mode: WorleyDifference,
        },
        seed: NoiseRng(7),
        frequency: FP_ONE,
    };
    let n4 = Noise {
        noise: PerLeastDistances {
            cells: Voronoi,
            length_mode: EuclideanLength,
            worley_mode: WorleyAverage,
        },
        seed: NoiseRng(8),
        frequency: FP_ONE,
    };
    let n5 = Noise {
        noise: PerLeastDistances {
            cells: Voronoi,
            length_mode: EuclideanLength,
            worley_mode: WorleyRatio,
        },
        seed: NoiseRng(9),
        frequency: FP_ONE,
    };
    for i in 0..300i64 {
        let loc = Vec2::new(i * 31013 - 4000000, i * 17 * 999 + 123);
        let a: i64 = n1.sample(loc);
        let b: i64 = n2.sample(loc);
        let c: i64 = n3.sample(loc);
        let d: i64 = n4.sample(loc);
        let e: i64 = n5.sample(loc);
        for v in [a, b, c, d, e] {
            assert!(0 <= v && v <= FP_ONE);
        }
    }
}

#[test]
fn worley_distance_grows_walking_away_from_the_feature_point() {
    // Find the feature point of the cell around the origin, then walk away
    // from it: the nearest-distance mode must not decrease while that point
    // stays the nearest.
    let seed = NoiseRng(42);
    let noise = worley(42);

    let cell = Voronoi.segment(Vec2::new(FP_ONE / 2, FP_ONE / 2));
    let points = cell.iter_points(seed);
    // The jittered point anchored in the home cell, in absolute coordinates.
    let home = &points[4];
    let feature = Vec2::new(FP_ONE / 2 - home.offset.x, FP_ONE / 2 - home.offset.y);

    let mut previous = -1i64;
    for step in 0..10i64 {
        let loc = Vec2::new(feature.x + step * 400, feature.y);
        // Stop if the walk left the starting cell.
        if Voronoi.segment(loc).floored != cell.floored {
            break;
        }
        // Stop if another point has become the nearest.
        let here = Voronoi.segment(loc).iter_points(seed);
        let mut nearest = 0usize;
        let mut nearest_sq = i64::MAX;
        for (i, p) in here.iter().enumerate() {
            let sq = p.offset.x * p.offset.x + p.offset.y * p.offset.y;
            if sq < nearest_sq {
                nearest_sq = sq;
                nearest = i;
            }
        }
        if here[nearest].rough_id != home.rough_id {
            break;
        }
        let v: i64 = noise.sample(loc);
        assert!(v >= previous);
        previous = v;
    }
    assert!(previous >= 0);
}

#[test]
fn per_cell_jumps_only_at_cell_boundaries() {
    let noise = Noise {
        noise: PerCell { cells: Grid, noise: UValue },
        seed: NoiseRng(3),
        frequency: FP_ONE,
    };
    // Inside one cell the value is constant.
    let a: i64 = noise.sample(Vec2::new(100, 200));
    let b: i64 = noise.sample(Vec2::new(50000, 60000));
    assert_eq!(a, b);
    // In the neighboring cell it generally is not.
    let c: i64 = noise.sample(Vec2::new(FP_ONE + 100, 200));
    assert_ne!(a, c);
}

#[test]
fn per_nearest_point_matches_the_home_cell_at_the_feature_point() {
    // Sampling exactly at a feature point takes that point's value.
    let seed = NoiseRng(11);
    let cell = Voronoi.segment(Vec2::new(FP_ONE / 2, FP_ONE / 2));
    let points = cell.iter_points(seed);
    let home = &points[4];
    let feature = Vec2::new(FP_ONE / 2 - home.offset.x, FP_ONE / 2 - home.offset.y);

    let noise = Noise {
        noise: PerNearestPoint { cells: Voronoi, length_mode: EuclideanLength, noise: UValue },
        seed: NoiseRng(11),
        frequency: FP_ONE,
    };
    let v: i64 = noise.sample(feature);
    let expected = noiz::rng::unorm_from_bits(home.rough_id);
    assert_eq!(v, expected);
}

#[test]
fn length_functions_agree_on_axis_vectors() {
    let v = Vec2::new(FP_ONE, 0);
    assert_eq!(EuclideanLength.length_of(v), FP_ONE);
    assert_eq!(ManhatanLength.length_of(v), FP_ONE);
    assert_eq!(ChebyshevLength.length_of(v), FP_ONE);
    // On the diagonal they split: crow flight, taxicab, greatest axis.
    let d = Vec2::new(3 * FP_ONE / 4, FP_ONE);
    let e = EuclideanLength.length_of(d);
    assert_eq!(e, FP_ONE * 5 / 4);
    assert_eq!(ManhatanLength.length_of(d), FP_ONE * 7 / 4);
    assert_eq!(ChebyshevLength.length_of(d), FP_ONE);
}

#[test]
fn distance_to_edge_vanishes_on_a_region_boundary() {
    // Halfway between two feature points, the distance to their shared
    // boundary is next to nothing; at the nearest feature point itself it
    // is as large as anywhere in the region.
    let seed = NoiseRng(23);
    let noise = Noise {
        noise: DistanceToEdge { cells: Voronoi, length_mode: EuclideanLength },
        seed: NoiseRng(23),
        frequency: FP_ONE,
    };

    let cell = Voronoi.segment(Vec2::new(FP_ONE / 2, FP_ONE / 2));
    let points = cell.iter_points(seed);
    let home = &points[4];
    let feature = Vec2::new(FP_ONE / 2 - home.offset.x, FP_ONE / 2 - home.offset.y);

    // Find the nearest other feature point, in absolute coordinates.
    let mut other = feature;
    let mut best_sq = i64::MAX;
    for (i, p) in points.iter().enumerate() {
        if i != 4 {
            let px = FP_ONE / 2 - p.offset.x;
            let py = FP_ONE / 2 - p.offset.y;
            let dx = px - feature.x;
            let dy = py - feature.y;
            let sq = dx * dx + dy * dy;
            if sq < best_sq {
                best_sq = sq;
                other = Vec2::new(px, py);
            }
        }
    }
    let midpoint = Vec2::new((feature.x + other.x) / 2, (feature.y + other.y) / 2);
    let at_boundary: i64 = noise.sample(midpoint);
    let at_feature: i64 = noise.sample(feature);
    assert!(0 <= at_boundary && at_boundary <= FP_ONE);
    assert!(0 <= at_feature && at_feature <= FP_ONE);
    assert!(at_boundary < FP_ONE / 64);
    assert!(at_feature > at_boundary);
}
