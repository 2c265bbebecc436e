//! Noise functions composed from a cell partitioner, a per-point generator,
//! and a blending or interpolation strategy.

use vstd::prelude::*;

use crate::curves::Curve;
use crate::fixed::{
    fp_mul, fp_mul_spec, fp_div, fp_div_spec, floor_div, lemma_floor_div_mono, FP_HALF,
    lemma_floor_div_range, lemma_fp_mul_unit_bounds, lemma_mul_le, lemma_sqrt_floor_le,
    lemma_sqrt_floor_mono, isqrt, sqrt_floor_spec, FP_ONE,
};
use crate::rng::{FastRandomMixed, NoiseRng};
use crate::segments::{
    interp2_spec, lemma_interp2_bounds, DomainSegment, GridSquare, SegmentedPoint, Segmenter,
    WorleyDomainCell,
};
use crate::vectors::{IVec2, Vec2};
use crate::NoiseFunction;

verus! {

/// A [`NoiseFunction`] that sharply jumps between values for different cells
/// of a [`Segmenter`] `P`, where each value comes from a noise function on
/// the cell's rough identity.
#[derive(Clone, Copy, PartialEq, Eq, Structural, Debug, Default)]
pub struct PerCell<P, N> {
    /// The [`Segmenter`].
    pub cells: P,
    /// The noise function evaluated on the cell identity.
    pub noise: N,
}

impl<P: Segmenter<Vec2>, N: NoiseFunction<u32>> NoiseFunction<Vec2> for PerCell<P, N> {
    type Output = N::Output;

    open spec fn in_domain(&self, input: Vec2, rng: NoiseRng) -> bool {
        self.cells.segment_ok(input) && self.noise.in_domain(
            self.cells.segment_spec(input).rough_id_spec(rng),
            rng,
        )
    }

    open spec fn eval_spec(&self, input: Vec2, rng: NoiseRng) -> (N::Output, NoiseRng) {
        self.noise.eval_spec(self.cells.segment_spec(input).rough_id_spec(rng), rng)
    }

    fn evaluate(&self, input: Vec2, seeds: &mut NoiseRng) -> (out: N::Output) {
        let cell = self.cells.segment(input);
        let id = cell.rough_id(*seeds);
        self.noise.evaluate(id, seeds)
    }
}

/// Represents some function on a vector that computes a version of its
/// length. The `length_ordering` form is cheaper and orders vectors the
/// same way the true length does.
pub trait LengthFunction: Sized {
    /// The order-preserving stand-in for the length.
    spec fn length_ordering_spec(&self, vec: Vec2) -> i64;

    /// The length itself, as a fixed-point value.
    spec fn length_of_spec(&self, vec: Vec2) -> i64;

    /// The greatest length a vector with components bounded by the argument
    /// can have.
    spec fn max_spec(&self, element_max: i64) -> i64;

    /// If no component of a vector exceeds `element_max` in magnitude, its
    /// length will not exceed this value.
    fn max_for_element_max(&self, element_max: i64) -> (r: i64)
        requires
            1 <= element_max <= 4 * FP_ONE,
        ensures
            r == self.max_spec(element_max),
            1 <= r <= 0x10000_0000,
    ;

    /// A measure that orders vectors as their lengths do.
    fn length_ordering(&self, vec: Vec2) -> (r: i64)
        requires
            vec.bounded_by(4 * FP_ONE as int),
        ensures
            r == self.length_ordering_spec(vec),
            0 <= r,
    ;

    /// Computes the length of `vec`. Always nonnegative.
    fn length_of(&self, vec: Vec2) -> (r: i64)
        requires
            vec.bounded_by(4 * FP_ONE as int),
        ensures
            r == self.length_of_spec(vec),
            0 <= r,
    ;

    /// Componentwise bounds cap the length at the stated maximum.
    proof fn lemma_length_bounded(&self, vec: Vec2, element_max: i64)
        requires
            vec.bounded_by(element_max as int),
            1 <= element_max <= 4 * FP_ONE,
        ensures
            0 <= self.length_of_spec(vec) <= self.max_spec(element_max),
            1 <= self.max_spec(element_max) <= 0x10000_0000,
    ;

    /// The ordering measure orders true lengths.
    proof fn lemma_ordering_consistent(&self, a: Vec2, b: Vec2)
        requires
            a.bounded_by(4 * FP_ONE as int),
            b.bounded_by(4 * FP_ONE as int),
            self.length_ordering_spec(a) <= self.length_ordering_spec(b),
        ensures
            self.length_of_spec(a) <= self.length_of_spec(b),
    ;
}

/// A [`LengthFunction`] for as-the-crow-flies length.
#[derive(Clone, Copy, PartialEq, Eq, Structural, Debug, Default)]
pub struct EuclideanLength;

/// A [`LengthFunction`] for rectilinear (taxicab) length.
#[derive(Clone, Copy, PartialEq, Eq, Structural, Debug, Default)]
pub struct ManhatanLength;

/// A [`LengthFunction`] that evenly combines [`EuclideanLength`] and
/// [`ManhatanLength`].
#[derive(Clone, Copy, PartialEq, Eq, Structural, Debug, Default)]
pub struct HybridLength;

/// A [`LengthFunction`] for Chebyshev length: the greatest single axis.
#[derive(Clone, Copy, PartialEq, Eq, Structural, Debug, Default)]
pub struct ChebyshevLength;

/// The magnitude of a fixed-point value.
pub open spec fn abs_spec(v: int) -> int {
    if v >= 0 {
        v
    } else {
        -v
    }
}

/// The squared magnitudes of a vector's components, in raw (twice-scaled)
/// fixed-point units.
pub open spec fn raw_len_sq_spec(vec: Vec2) -> int {
    vec.x * vec.x + vec.y * vec.y
}

/// A doubled square of a bounded value stays under the hybrid length's cap.
proof fn lemma_hybrid_square_bound(m: int)
    requires
        0 <= m <= 4 * FP_ONE,
    ensures
        0 <= 2 * m * m,
        2 * m * m == 2 * (m * m),
        2 * m * m < (32 * FP_ONE as int + 1) * FP_ONE as int,
{
    assert(0 <= 2 * m * m && 2 * m * m == 2 * (m * m) && 2 * m * m < (32 * FP_ONE as int + 1)
        * FP_ONE as int) by (nonlinear_arith)
        requires
            0 <= m <= 4 * FP_ONE,
            FP_ONE == 65536,
    ;
}

/// The concrete caps on component squares for vectors within four units.
proof fn lemma_vec_sq_4k(vec: Vec2)
    requires
        vec.bounded_by(4 * FP_ONE as int),
    ensures
        0 <= vec.x * vec.x <= 0x10_0000_0000,
        0 <= vec.y * vec.y <= 0x10_0000_0000,
        0 <= raw_len_sq_spec(vec) <= 0x20_0000_0000,
{
    let m = 4 * FP_ONE as int;
    assert(0 <= vec.x * vec.x <= 0x10_0000_0000 && 0 <= vec.y * vec.y <= 0x10_0000_0000 && 0
        <= vec.x * vec.x + vec.y * vec.y <= 0x20_0000_0000) by (nonlinear_arith)
        requires
            -m <= vec.x <= m,
            -m <= vec.y <= m,
            m == 262144,
    ;
}

/// Squares of bounded components are bounded, and their sum is nonnegative.
proof fn lemma_raw_len_sq_bounds(vec: Vec2, m: int)
    requires
        vec.bounded_by(m),
        0 <= m,
    ensures
        0 <= vec.x * vec.x <= m * m,
        0 <= vec.y * vec.y <= m * m,
        0 <= raw_len_sq_spec(vec) <= 2 * (m * m),
{
    assert(0 <= vec.x * vec.x <= m * m && 0 <= vec.y * vec.y <= m * m && 0 <= vec.x * vec.x
        + vec.y * vec.y <= 2 * (m * m)) by (nonlinear_arith)
        requires
            -m <= vec.x <= m,
            -m <= vec.y <= m,
            0 <= m,
    ;
}

impl LengthFunction for EuclideanLength {
    open spec fn length_ordering_spec(&self, vec: Vec2) -> i64 {
        raw_len_sq_spec(vec) as i64
    }

    open spec fn length_of_spec(&self, vec: Vec2) -> i64 {
        sqrt_floor_spec(raw_len_sq_spec(vec)) as i64
    }

    open spec fn max_spec(&self, element_max: i64) -> i64 {
        ((element_max * 92682) / (FP_ONE as int) + 1) as i64
    }

    fn max_for_element_max(&self, element_max: i64) -> (r: i64) {
        proof {
            lemma_floor_div_range(element_max as int * 92682, FP_ONE as int, 0, 0x8000_0000);
        }
        floor_div(element_max * 92682, FP_ONE) + 1
    }

    fn length_ordering(&self, vec: Vec2) -> (r: i64) {
        proof {
            lemma_vec_sq_4k(vec);
        }
        vec.x * vec.x + vec.y * vec.y
    }

    fn length_of(&self, vec: Vec2) -> (r: i64) {
        proof {
            lemma_vec_sq_4k(vec);
        }
        let sq: i64 = vec.x * vec.x + vec.y * vec.y;
        let root = isqrt(sq as u64);
        root as i64
    }

    proof fn lemma_length_bounded(&self, vec: Vec2, element_max: i64) {
        let m = element_max as int;
        let k = FP_ONE as int;
        let n = raw_len_sq_spec(vec);
        let b = (m * 92682) / k + 1;
        lemma_raw_len_sq_bounds(vec, m);
        lemma_floor_div_range(m * 92682, k, 0, 0x8000_0000);
        assert(b * k > m * 92682);
        assert(n <= b * b) by (nonlinear_arith)
            requires
                n <= 2 * (m * m),
                b * k > m * 92682,
                0 <= m,
                0 <= b,
                k == 65536,
            {
                assert((b * k) * (b * k) >= (m * 92682 + 1) * (m * 92682 + 1));
                assert((m * 92682) * (m * 92682) >= (2 * m * m) * (k * k));
            }
        lemma_sqrt_floor_le(n, b);
        crate::fixed::lemma_sqrt_floor_exists(n);
        let w = choose|r: int| #[trigger] crate::fixed::is_sqrt_floor(n, r);
        crate::fixed::lemma_sqrt_floor_is(n, w);
    }

    proof fn lemma_ordering_consistent(&self, a: Vec2, b: Vec2) {
        lemma_vec_sq_4k(a);
        lemma_vec_sq_4k(b);
        lemma_sqrt_floor_mono(raw_len_sq_spec(a), raw_len_sq_spec(b));
        assert(0x80000 * 0x80000 == 0x40_0000_0000int) by (nonlinear_arith);
        lemma_sqrt_floor_le(raw_len_sq_spec(a), 0x80000);
        lemma_sqrt_floor_le(raw_len_sq_spec(b), 0x80000);
    }
}

impl LengthFunction for ManhatanLength {
    open spec fn length_ordering_spec(&self, vec: Vec2) -> i64 {
        (abs_spec(vec.x as int) + abs_spec(vec.y as int)) as i64
    }

    open spec fn length_of_spec(&self, vec: Vec2) -> i64 {
        self.length_ordering_spec(vec)
    }

    open spec fn max_spec(&self, element_max: i64) -> i64 {
        (2 * element_max) as i64
    }

    fn max_for_element_max(&self, element_max: i64) -> (r: i64) {
        2 * element_max
    }

    fn length_ordering(&self, vec: Vec2) -> (r: i64) {
        let ax = if vec.x >= 0 { vec.x } else { -vec.x };
        let ay = if vec.y >= 0 { vec.y } else { -vec.y };
        ax + ay
    }

    fn length_of(&self, vec: Vec2) -> (r: i64) {
        self.length_ordering(vec)
    }

    proof fn lemma_length_bounded(&self, vec: Vec2, element_max: i64) {
    }

    proof fn lemma_ordering_consistent(&self, a: Vec2, b: Vec2) {
    }
}

impl LengthFunction for ChebyshevLength {
    open spec fn length_ordering_spec(&self, vec: Vec2) -> i64 {
        if abs_spec(vec.x as int) >= abs_spec(vec.y as int) {
            abs_spec(vec.x as int) as i64
        } else {
            abs_spec(vec.y as int) as i64
        }
    }

    open spec fn length_of_spec(&self, vec: Vec2) -> i64 {
        self.length_ordering_spec(vec)
    }

    open spec fn max_spec(&self, element_max: i64) -> i64 {
        element_max
    }

    fn max_for_element_max(&self, element_max: i64) -> (r: i64) {
        element_max
    }

    fn length_ordering(&self, vec: Vec2) -> (r: i64) {
        let ax = if vec.x >= 0 { vec.x } else { -vec.x };
        let ay = if vec.y >= 0 { vec.y } else { -vec.y };
        if ax >= ay { ax } else { ay }
    }

    fn length_of(&self, vec: Vec2) -> (r: i64) {
        self.length_ordering(vec)
    }

    proof fn lemma_length_bounded(&self, vec: Vec2, element_max: i64) {
    }

    proof fn lemma_ordering_consistent(&self, a: Vec2, b: Vec2) {
    }
}

impl LengthFunction for HybridLength {
    open spec fn length_ordering_spec(&self, vec: Vec2) -> i64 {
        (raw_len_sq_spec(vec) / (FP_ONE as int) + abs_spec(vec.x as int) + abs_spec(
            vec.y as int,
        )) as i64
    }

    open spec fn length_of_spec(&self, vec: Vec2) -> i64 {
        self.length_ordering_spec(vec)
    }

    open spec fn max_spec(&self, element_max: i64) -> i64 {
        ((2 * element_max * element_max) / (FP_ONE as int) + 2 * element_max) as i64
    }

    fn max_for_element_max(&self, element_max: i64) -> (r: i64) {
        proof {
            lemma_hybrid_square_bound(element_max as int);
            lemma_floor_div_range(
                2 * element_max as int * element_max as int,
                FP_ONE as int,
                0,
                32 * FP_ONE as int,
            );
        }
        floor_div(2 * element_max * element_max, FP_ONE) + 2 * element_max
    }

    fn length_ordering(&self, vec: Vec2) -> (r: i64) {
        proof {
            lemma_vec_sq_4k(vec);
            lemma_floor_div_range(raw_len_sq_spec(vec), FP_ONE as int, 0, 32 * FP_ONE as int);
        }
        let sq = floor_div(vec.x * vec.x + vec.y * vec.y, FP_ONE);
        let ax = if vec.x >= 0 { vec.x } else { -vec.x };
        let ay = if vec.y >= 0 { vec.y } else { -vec.y };
        sq + ax + ay
    }

    fn length_of(&self, vec: Vec2) -> (r: i64) {
        self.length_ordering(vec)
    }

    proof fn lemma_length_bounded(&self, vec: Vec2, element_max: i64) {
        let m = element_max as int;
        let k = FP_ONE as int;
        lemma_raw_len_sq_bounds(vec, m);
        lemma_hybrid_square_bound(m);
        assert(raw_len_sq_spec(vec) <= 2 * m * m) by (nonlinear_arith)
            requires
                raw_len_sq_spec(vec) <= 2 * (m * m),
        ;
        lemma_floor_div_mono(raw_len_sq_spec(vec), 2 * m * m, k);
        lemma_floor_div_range(2 * m * m, k, 0, 32 * FP_ONE as int);
        lemma_floor_div_range(raw_len_sq_spec(vec), k, 0, 32 * FP_ONE as int);
    }

    proof fn lemma_ordering_consistent(&self, a: Vec2, b: Vec2) {
    }
}

/// Represents a way to compute Worley (cellular) noise: a function of the
/// distances from the sample point to its two nearest lattice points.
/// Results are fixed-point values in `[0, 1]`.
pub trait WorleyMode: Sized {
    /// The value this mode produces for the given distances and their
    /// normalization bounds.
    spec fn evaluate_worley_spec(
        &self,
        nearest: i64,
        max_nearest: i64,
        next_nearest: i64,
        max_next_nearest: i64,
    ) -> i64;

    /// Evaluates this mode for the distances to the `nearest` and
    /// `next_nearest` points, each normalized by its stated maximum.
    fn evaluate_worley(
        &self,
        nearest: i64,
        max_nearest: i64,
        next_nearest: i64,
        max_next_nearest: i64,
    ) -> (r: i64)
        requires
            0 <= nearest <= max_nearest,
            0 <= next_nearest <= max_next_nearest,
            nearest <= next_nearest,
            1 <= max_nearest <= 0x10000_0000,
            1 <= max_next_nearest <= 0x10000_0000,
        ensures
            r == self.evaluate_worley_spec(nearest, max_nearest, next_nearest, max_next_nearest),
            0 <= r <= FP_ONE,
    ;

    /// The mode's specification itself stays within the unit interval under
    /// the same conditions on its arguments.
    proof fn lemma_spec_bounded(
        &self,
        nearest: i64,
        max_nearest: i64,
        next_nearest: i64,
        max_next_nearest: i64,
    )
        requires
            0 <= nearest <= max_nearest,
            0 <= next_nearest <= max_next_nearest,
            nearest <= next_nearest,
            1 <= max_nearest <= 0x10000_0000,
            1 <= max_next_nearest <= 0x10000_0000,
        ensures
            0 <= self.evaluate_worley_spec(nearest, max_nearest, next_nearest, max_next_nearest)
                <= FP_ONE,
    ;
}

/// The unit-interval bound of a normalized distance quotient.
proof fn lemma_unorm_ratio_bound(a: int, b: int)
    requires
        0 <= a <= b,
        1 <= b,
    ensures
        0 <= fp_div_spec(a, b) <= FP_ONE,
{
    lemma_mul_le(a, FP_ONE as int, b, FP_ONE as int);
    lemma_floor_div_range(a * FP_ONE, b, 0, FP_ONE as int);
}

/// A unit-interval quotient: `a` over `b`, with `a` at most `b`.
fn unorm_ratio(a: i64, b: i64) -> (r: i64)
    requires
        0 <= a <= b,
        1 <= b <= 0x10000_0000,
    ensures
        r == fp_div_spec(a as int, b as int),
        0 <= r <= FP_ONE,
{
    proof {
        lemma_floor_div_range(a as int * FP_ONE, b as int, 0, FP_ONE as int);
    }
    fp_div(a, b)
}

/// A [`WorleyMode`] that returns the normalized distance to the nearest
/// point. This is traditional Worley noise.
#[derive(Clone, Copy, PartialEq, Eq, Structural, Debug, Default)]
pub struct WorleyPointDistance;

impl WorleyMode for WorleyPointDistance {
    open spec fn evaluate_worley_spec(
        &self,
        nearest: i64,
        max_nearest: i64,
        next_nearest: i64,
        max_next_nearest: i64,
    ) -> i64 {
        fp_div_spec(nearest as int, max_nearest as int) as i64
    }

    fn evaluate_worley(
        &self,
        nearest: i64,
        max_nearest: i64,
        next_nearest: i64,
        max_next_nearest: i64,
    ) -> (r: i64) {
        unorm_ratio(nearest, max_nearest)
    }

    proof fn lemma_spec_bounded(
        &self,
        nearest: i64,
        max_nearest: i64,
        next_nearest: i64,
        max_next_nearest: i64,
    ) {
        lemma_unorm_ratio_bound(nearest as int, max_nearest as int);
    }
}

/// A [`WorleyMode`] that returns the normalized distance to the second
/// nearest point.
#[derive(Clone, Copy, PartialEq, Eq, Structural, Debug, Default)]
pub struct WorleySecondPointDistance;

impl WorleyMode for WorleySecondPointDistance {
    open spec fn evaluate_worley_spec(
        &self,
        nearest: i64,
        max_nearest: i64,
        next_nearest: i64,
        max_next_nearest: i64,
    ) -> i64 {
        fp_div_spec(next_nearest as int, max_next_nearest as int) as i64
    }

    fn evaluate_worley(
        &self,
        nearest: i64,
        max_nearest: i64,
        next_nearest: i64,
        max_next_nearest: i64,
    ) -> (r: i64) {
        unorm_ratio(next_nearest, max_next_nearest)
    }

    proof fn lemma_spec_bounded(
        &self,
        nearest: i64,
        max_nearest: i64,
        next_nearest: i64,
        max_next_nearest: i64,
    ) {
        lemma_unorm_ratio_bound(next_nearest as int, max_next_nearest as int);
    }
}

/// A [`WorleyMode`] that returns the normalized gap between the two nearest
/// points' distances.
#[derive(Clone, Copy, PartialEq, Eq, Structural, Debug, Default)]
pub struct WorleyDifference;

impl WorleyMode for WorleyDifference {
    open spec fn evaluate_worley_spec(
        &self,
        nearest: i64,
        max_nearest: i64,
        next_nearest: i64,
        max_next_nearest: i64,
    ) -> i64 {
        fp_div_spec(next_nearest - nearest, max_next_nearest as int) as i64
    }

    fn evaluate_worley(
        &self,
        nearest: i64,
        max_nearest: i64,
        next_nearest: i64,
        max_next_nearest: i64,
    ) -> (r: i64) {
        unorm_ratio(next_nearest - nearest, max_next_nearest)
    }

    proof fn lemma_spec_bounded(
        &self,
        nearest: i64,
        max_nearest: i64,
        next_nearest: i64,
        max_next_nearest: i64,
    ) {
        lemma_unorm_ratio_bound(next_nearest - nearest, max_next_nearest as int);
    }
}

/// A [`WorleyMode`] that averages the two normalized distances.
#[derive(Clone, Copy, PartialEq, Eq, Structural, Debug, Default)]
pub struct WorleyAverage;

impl WorleyMode for WorleyAverage {
    open spec fn evaluate_worley_spec(
        &self,
        nearest: i64,
        max_nearest: i64,
        next_nearest: i64,
        max_next_nearest: i64,
    ) -> i64 {
        ((fp_div_spec(nearest as int, max_nearest as int) + fp_div_spec(
            next_nearest as int,
            max_next_nearest as int,
        )) / 2) as i64
    }

    fn evaluate_worley(
        &self,
        nearest: i64,
        max_nearest: i64,
        next_nearest: i64,
        max_next_nearest: i64,
    ) -> (r: i64) {
        let a = unorm_ratio(nearest, max_nearest);
        let b = unorm_ratio(next_nearest, max_next_nearest);
        (a + b) / 2
    }

    proof fn lemma_spec_bounded(
        &self,
        nearest: i64,
        max_nearest: i64,
        next_nearest: i64,
        max_next_nearest: i64,
    ) {
        lemma_unorm_ratio_bound(nearest as int, max_nearest as int);
        lemma_unorm_ratio_bound(next_nearest as int, max_next_nearest as int);
    }
}

/// A [`WorleyMode`] that multiplies the two normalized distances.
#[derive(Clone, Copy, PartialEq, Eq, Structural, Debug, Default)]
pub struct WorleyProduct;

impl WorleyMode for WorleyProduct {
    open spec fn evaluate_worley_spec(
        &self,
        nearest: i64,
        max_nearest: i64,
        next_nearest: i64,
        max_next_nearest: i64,
    ) -> i64 {
        fp_mul_spec(
            fp_div_spec(nearest as int, max_nearest as int),
            fp_div_spec(next_nearest as int, max_next_nearest as int),
        ) as i64
    }

    fn evaluate_worley(
        &self,
        nearest: i64,
        max_nearest: i64,
        next_nearest: i64,
        max_next_nearest: i64,
    ) -> (r: i64) {
        let a = unorm_ratio(nearest, max_nearest);
        let b = unorm_ratio(next_nearest, max_next_nearest);
        proof {
            lemma_fp_mul_unit_bounds(a as int, b as int, 0, FP_ONE as int);
        }
        fp_mul(a, b)
    }

    proof fn lemma_spec_bounded(
        &self,
        nearest: i64,
        max_nearest: i64,
        next_nearest: i64,
        max_next_nearest: i64,
    ) {
        lemma_unorm_ratio_bound(nearest as int, max_nearest as int);
        lemma_unorm_ratio_bound(next_nearest as int, max_next_nearest as int);
        lemma_fp_mul_unit_bounds(
            fp_div_spec(nearest as int, max_nearest as int),
            fp_div_spec(next_nearest as int, max_next_nearest as int),
            0,
            FP_ONE as int,
        );
    }
}

/// A [`WorleyMode`] that returns the ratio between the two nearest points'
/// distances. When the second distance degenerates to zero — both points
/// coincide with the sample — the ratio is taken to be one.
#[derive(Clone, Copy, PartialEq, Eq, Structural, Debug, Default)]
pub struct WorleyRatio;

impl WorleyMode for WorleyRatio {
    open spec fn evaluate_worley_spec(
        &self,
        nearest: i64,
        max_nearest: i64,
        next_nearest: i64,
        max_next_nearest: i64,
    ) -> i64 {
        if next_nearest == 0 {
            FP_ONE
        } else {
            fp_div_spec(nearest as int, next_nearest as int) as i64
        }
    }

    fn evaluate_worley(
        &self,
        nearest: i64,
        max_nearest: i64,
        next_nearest: i64,
        max_next_nearest: i64,
    ) -> (r: i64) {
        if next_nearest == 0 {
            FP_ONE
        } else {
            unorm_ratio(nearest, next_nearest)
        }
    }

    proof fn lemma_spec_bounded(
        &self,
        nearest: i64,
        max_nearest: i64,
        next_nearest: i64,
        max_next_nearest: i64,
    ) {
        if next_nearest != 0 {
            lemma_unorm_ratio_bound(nearest as int, next_nearest as int);
        }
    }
}

/// The nearest of the first `k` points by a length ordering, ties going to
/// the earliest point, exactly as a forward scan finds it.
pub open spec fn nearest_upto<L: LengthFunction>(
    l: L,
    pts: Seq<SegmentedPoint<Vec2>>,
    k: int,
) -> SegmentedPoint<Vec2>
    decreases k,
{
    if k <= 1 {
        pts[0]
    } else {
        let prev = nearest_upto(l, pts, k - 1);
        if l.length_ordering_spec(pts[k - 1].offset) < l.length_ordering_spec(prev.offset) {
            pts[k - 1]
        } else {
            prev
        }
    }
}

/// The nearest point is one of the points, and none of them orders below it.
pub proof fn lemma_nearest_upto_props<L: LengthFunction>(
    l: L,
    pts: Seq<SegmentedPoint<Vec2>>,
    k: int,
)
    requires
        1 <= k <= pts.len(),
    ensures
        exists|i: int| 0 <= i < k && nearest_upto(l, pts, k) == #[trigger] pts[i],
        forall|j: int|
            0 <= j < k ==> l.length_ordering_spec(nearest_upto(l, pts, k).offset)
                <= l.length_ordering_spec(#[trigger] pts[j].offset),
    decreases k,
{
    if k == 1 {
        assert(nearest_upto(l, pts, 1) == pts[0]);
    } else {
        lemma_nearest_upto_props(l, pts, k - 1);
        assert(nearest_upto(l, pts, k) == pts[k - 1] || nearest_upto(l, pts, k) == nearest_upto(
            l,
            pts,
            k - 1,
        ));
    }
}

/// The two nearest of the first `k` points (`k` at least two) by a length
/// ordering, in order, exactly as a forward scan finds them.
pub open spec fn least_two_upto<L: LengthFunction>(
    l: L,
    pts: Seq<SegmentedPoint<Vec2>>,
    k: int,
) -> (SegmentedPoint<Vec2>, SegmentedPoint<Vec2>)
    decreases k,
{
    if k <= 2 {
        if l.length_ordering_spec(pts[1].offset) < l.length_ordering_spec(pts[0].offset) {
            (pts[1], pts[0])
        } else {
            (pts[0], pts[1])
        }
    } else {
        let (best, second) = least_two_upto(l, pts, k - 1);
        let p = pts[k - 1];
        if l.length_ordering_spec(p.offset) < l.length_ordering_spec(best.offset) {
            (p, best)
        } else if l.length_ordering_spec(p.offset) < l.length_ordering_spec(second.offset) {
            (best, p)
        } else {
            (best, second)
        }
    }
}

/// Both of the two nearest points are points of the cell, they are ordered,
/// and the nearest really is nearest.
pub proof fn lemma_least_two_props<L: LengthFunction>(
    l: L,
    pts: Seq<SegmentedPoint<Vec2>>,
    k: int,
)
    requires
        2 <= k <= pts.len(),
    ensures
        exists|i: int| 0 <= i < k && least_two_upto(l, pts, k).0 == #[trigger] pts[i],
        exists|i: int| 0 <= i < k && least_two_upto(l, pts, k).1 == #[trigger] pts[i],
        l.length_ordering_spec(least_two_upto(l, pts, k).0.offset) <= l.length_ordering_spec(
            least_two_upto(l, pts, k).1.offset,
        ),
        forall|j: int|
            0 <= j < k ==> l.length_ordering_spec(least_two_upto(l, pts, k).0.offset)
                <= l.length_ordering_spec(#[trigger] pts[j].offset),
    decreases k,
{
    if k == 2 {
        assert(least_two_upto(l, pts, 2).0 == pts[0] || least_two_upto(l, pts, 2).0 == pts[1]);
    } else {
        lemma_least_two_props(l, pts, k - 1);
        let (best, second) = least_two_upto(l, pts, k - 1);
        let p = pts[k - 1];
        if l.length_ordering_spec(p.offset) < l.length_ordering_spec(best.offset) {
            assert(least_two_upto(l, pts, k).0 == p && least_two_upto(l, pts, k).1 == best);
        } else if l.length_ordering_spec(p.offset) < l.length_ordering_spec(second.offset) {
            assert(least_two_upto(l, pts, k).0 == best && least_two_upto(l, pts, k).1 == p);
        } else {
            assert(least_two_upto(l, pts, k).0 == best && least_two_upto(l, pts, k).1 == second);
        }
    }
}

/// A [`NoiseFunction`] that sharply jumps between values for different
/// nearby points: each sample takes the value of the nearest point of its
/// cell, producing hard-edged cellular regions.
#[derive(Clone, Copy, PartialEq, Eq, Structural, Debug, Default)]
pub struct PerNearestPoint<P, L, N> {
    /// The [`Segmenter`].
    pub cells: P,
    /// The [`LengthFunction`] deciding which point is nearest.
    pub length_mode: L,
    /// The noise function evaluated on the nearest point's identity.
    pub noise: N,
}

impl<
    P: Segmenter<Vec2, Segment: WorleyDomainCell>,
    L: LengthFunction,
    N: NoiseFunction<u32>,
> NoiseFunction<Vec2> for PerNearestPoint<P, L, N> {
    type Output = N::Output;

    open spec fn in_domain(&self, input: Vec2, rng: NoiseRng) -> bool {
        let pts = self.cells.segment_spec(input).points_spec(rng);
        &&& self.cells.segment_ok(input)
        &&& self.cells.segment_spec(input).cell_wf()
        &&& self.noise.in_domain(
            nearest_upto(self.length_mode, pts, pts.len() as int).rough_id,
            rng,
        )
    }

    open spec fn eval_spec(&self, input: Vec2, rng: NoiseRng) -> (N::Output, NoiseRng) {
        let pts = self.cells.segment_spec(input).points_spec(rng);
        self.noise.eval_spec(nearest_upto(self.length_mode, pts, pts.len() as int).rough_id, rng)
    }

    fn evaluate(&self, input: Vec2, seeds: &mut NoiseRng) -> (out: N::Output) {
        let cell = self.cells.segment(input);
        let ghost pts = cell.points_spec(*seeds);
        proof {
            cell.lemma_points_shape(*seeds);
        }
        let points = cell.iter_points(*seeds);
        let mut best = points[0];
        let mut best_ord = self.length_mode.length_ordering(best.offset);
        let mut i: usize = 1;
        while i < points.len()
            invariant
                1 <= i <= points.len(),
                points@ == pts,
                2 <= pts.len() <= 16,
                forall|j: int|
                    0 <= j < pts.len() ==> (#[trigger] pts[j]).offset.bounded_by(
                        2 * FP_ONE as int,
                    ),
                best == nearest_upto(self.length_mode, pts, i as int),
                best_ord == self.length_mode.length_ordering_spec(best.offset),
            decreases points.len() - i,
        {
            let p = points[i];
            let ord = self.length_mode.length_ordering(p.offset);
            if ord < best_ord {
                best = p;
                best_ord = ord;
            }
            i += 1;
        }
        self.noise.evaluate(best.rough_id, seeds)
    }
}

/// A [`NoiseFunction`] that partitions space into cells, finds the
/// distances to the two nearest points of the cell by a [`LengthFunction`],
/// and hands those distances to a [`WorleyMode`]. The result always lands
/// in the unit interval.
#[derive(Clone, Copy, PartialEq, Eq, Structural, Debug, Default)]
pub struct PerLeastDistances<P, L, W> {
    /// The [`Segmenter`].
    pub cells: P,
    /// The [`LengthFunction`].
    pub length_mode: L,
    /// The [`WorleyMode`].
    pub worley_mode: W,
}

impl<P: Segmenter<Vec2, Segment: WorleyDomainCell>, L: LengthFunction, W: WorleyMode>
    PerLeastDistances<P, L, W> {
    /// The value a sample at `input` produces: the chosen Worley mode over
    /// the true lengths of the two nearest points, each normalized by the
    /// cell's stated bound.
    pub open spec fn worley_value_spec(&self, input: Vec2, rng: NoiseRng) -> i64 {
        let cell = self.cells.segment_spec(input);
        let pts = cell.points_spec(rng);
        let pair = least_two_upto(self.length_mode, pts, pts.len() as int);
        self.worley_mode.evaluate_worley_spec(
            self.length_mode.length_of_spec(pair.0.offset),
            self.length_mode.max_spec(cell.nearest_bound_spec()),
            self.length_mode.length_of_spec(pair.1.offset),
            self.length_mode.max_spec(cell.next_nearest_bound_spec()),
        )
    }

    /// Law: Worley noise is bounded. Whatever the mode, the metric and the
    /// cell, the value of a sample lies in the unit interval.
    pub proof fn lemma_worley_value_bounded(&self, input: Vec2, rng: NoiseRng)
        requires
            self.cells.segment_ok(input),
            self.cells.segment_spec(input).cell_wf(),
        ensures
            0 <= self.worley_value_spec(input, rng) <= FP_ONE,
    {
        let cell = self.cells.segment_spec(input);
        let pts = cell.points_spec(rng);
        let pair = least_two_upto(self.length_mode, pts, pts.len() as int);
        cell.lemma_points_shape(rng);
        lemma_least_two_props(self.length_mode, pts, pts.len() as int);
        self.lemma_worley_args(input, rng);
        let d1 = self.length_mode.length_of_spec(pair.0.offset);
        let m1 = self.length_mode.max_spec(cell.nearest_bound_spec());
        let d2 = self.length_mode.length_of_spec(pair.1.offset);
        let m2 = self.length_mode.max_spec(cell.next_nearest_bound_spec());
        self.worley_mode.lemma_spec_bounded(d1, m1, d2, m2);
    }

    /// The distances handed to the Worley mode satisfy its contract: both
    /// are within their normalization bounds and ordered.
    proof fn lemma_worley_args(&self, input: Vec2, rng: NoiseRng)
        requires
            self.cells.segment_ok(input),
            self.cells.segment_spec(input).cell_wf(),
        ensures
            ({
                let cell = self.cells.segment_spec(input);
                let pts = cell.points_spec(rng);
                let pair = least_two_upto(self.length_mode, pts, pts.len() as int);
                let d1 = self.length_mode.length_of_spec(pair.0.offset);
                let m1 = self.length_mode.max_spec(cell.nearest_bound_spec());
                let d2 = self.length_mode.length_of_spec(pair.1.offset);
                let m2 = self.length_mode.max_spec(cell.next_nearest_bound_spec());
                &&& 0 <= d1 <= m1
                &&& 0 <= d2 <= m2
                &&& d1 <= d2
                &&& 1 <= m1 <= 0x10000_0000
                &&& 1 <= m2 <= 0x10000_0000
            }),
    {
        let cell = self.cells.segment_spec(input);
        let pts = cell.points_spec(rng);
        let pair = least_two_upto(self.length_mode, pts, pts.len() as int);
        cell.lemma_points_shape(rng);
        lemma_least_two_props(self.length_mode, pts, pts.len() as int);
        let i0 = choose|i: int| 0 <= i < pts.len() && pair.0 == #[trigger] pts[i];
        let i1 = choose|i: int| 0 <= i < pts.len() && pair.1 == #[trigger] pts[i];
        self.length_mode.lemma_length_bounded(pair.0.offset, cell.nearest_bound_spec());
        self.length_mode.lemma_length_bounded(pair.1.offset, cell.next_nearest_bound_spec());
        self.length_mode.lemma_ordering_consistent(pair.0.offset, pair.1.offset);
    }
}

impl<P: Segmenter<Vec2, Segment: WorleyDomainCell>, L: LengthFunction, W: WorleyMode>
    NoiseFunction<Vec2> for PerLeastDistances<P, L, W> {
    type Output = i64;

    open spec fn in_domain(&self, input: Vec2, rng: NoiseRng) -> bool {
        self.cells.segment_ok(input)
    }

    open spec fn eval_spec(&self, input: Vec2, rng: NoiseRng) -> (i64, NoiseRng) {
        (self.worley_value_spec(input, rng), rng)
    }

    fn evaluate(&self, input: Vec2, seeds: &mut NoiseRng) -> (out: i64) {
        let cell = self.cells.segment(input);
        let ghost pts = cell.points_spec(*seeds);
        proof {
            cell.lemma_points_shape(*seeds);
        }
        let points = cell.iter_points(*seeds);
        let mut best = points[0];
        let mut best_ord = self.length_mode.length_ordering(best.offset);
        let mut second = points[1];
        let mut second_ord = self.length_mode.length_ordering(second.offset);
        if second_ord < best_ord {
            let tmp = best;
            best = second;
            second = tmp;
            let tmp_ord = best_ord;
            best_ord = second_ord;
            second_ord = tmp_ord;
        }
        let mut i: usize = 2;
        while i < points.len()
            invariant
                2 <= i <= points.len(),
                points@ == pts,
                2 <= pts.len() <= 16,
                forall|j: int|
                    0 <= j < pts.len() ==> (#[trigger] pts[j]).offset.bounded_by(
                        2 * FP_ONE as int,
                    ),
                (best, second) == least_two_upto(self.length_mode, pts, i as int),
                best_ord == self.length_mode.length_ordering_spec(best.offset),
                second_ord == self.length_mode.length_ordering_spec(second.offset),
            decreases points.len() - i,
        {
            let p = points[i];
            let ord = self.length_mode.length_ordering(p.offset);
            if ord < best_ord {
                second = best;
                second_ord = best_ord;
                best = p;
                best_ord = ord;
            } else if ord < second_ord {
                second = p;
                second_ord = ord;
            }
            i += 1;
        }
        proof {
            self.lemma_worley_args(input, *seeds);
            lemma_least_two_props(self.length_mode, pts, pts.len() as int);
            let i0 = choose|i: int| 0 <= i < pts.len() && least_two_upto(
                self.length_mode,
                pts,
                pts.len() as int,
            ).0 == #[trigger] pts[i];
            let i1 = choose|i: int| 0 <= i < pts.len() && least_two_upto(
                self.length_mode,
                pts,
                pts.len() as int,
            ).1 == #[trigger] pts[i];
            assert(pts[i0].offset.bounded_by(2 * FP_ONE as int));
            assert(pts[i1].offset.bounded_by(2 * FP_ONE as int));
        }
        let d1 = self.length_mode.length_of(best.offset);
        let m1 = self.length_mode.max_for_element_max(cell.nearest_1d_point_always_within());
        let d2 = self.length_mode.length_of(second.offset);
        let m2 = self.length_mode.max_for_element_max(cell.next_nearest_1d_point_always_within());
        self.worley_mode.evaluate_worley(d1, m1, d2, m2)
    }
}

/// A [`NoiseFunction`] that mixes values sourced from a [`FastRandomMixed`]
/// generator by a [`Curve`] within a grid square: classic value noise.
/// The raw per-point values are interpolated and the generator's finishing
/// map is applied once at the end.
#[derive(Clone, Copy, PartialEq, Eq, Structural, Debug, Default)]
pub struct MixCellValues<P, C, N> {
    /// The [`Segmenter`].
    pub cells: P,
    /// The [`FastRandomMixed`] generator.
    pub noise: N,
    /// The [`Curve`].
    pub curve: C,
}

impl<
    P: Segmenter<Vec2, Segment = GridSquare<Vec2, IVec2>>,
    C: Curve,
    N: FastRandomMixed,
> MixCellValues<P, C, N> {
    /// The raw corner values of the square containing `input`: the
    /// generator's interpolation-friendly value at each corner identity.
    pub open spec fn raw_values_spec(&self, input: Vec2, rng: NoiseRng) -> Seq<i64> {
        let pts = self.cells.segment_spec(input).points_spec(rng);
        Seq::new(4, |i: int| self.noise.raw_value_spec(pts[i].rough_id))
    }

    /// The finished value of a sample at `input`.
    pub open spec fn mix_value_spec(&self, input: Vec2, rng: NoiseRng) -> i64 {
        let cell = self.cells.segment_spec(input);
        self.noise.finish_spec(
            interp2_spec(
                self.raw_values_spec(input, rng),
                self.curve.sample_spec(cell.offset.x) as int,
                self.curve.sample_spec(cell.offset.y) as int,
            ) as i64,
        )
    }
}

impl<
    P: Segmenter<Vec2, Segment = GridSquare<Vec2, IVec2>>,
    C: Curve,
    N: FastRandomMixed,
> NoiseFunction<Vec2> for MixCellValues<P, C, N> {
    type Output = i64;

    open spec fn in_domain(&self, input: Vec2, rng: NoiseRng) -> bool {
        self.cells.segment_ok(input)
    }

    open spec fn eval_spec(&self, input: Vec2, rng: NoiseRng) -> (i64, NoiseRng) {
        (self.mix_value_spec(input, rng), rng)
    }

    fn evaluate(&self, input: Vec2, seeds: &mut NoiseRng) -> (out: i64) {
        let cell = self.cells.segment(input);
        let corners = cell.corners(*seeds);
        let v0 = self.noise.evaluate(corners[0].rough_id, seeds);
        let v1 = self.noise.evaluate(corners[1].rough_id, seeds);
        let v2 = self.noise.evaluate(corners[2].rough_id, seeds);
        let v3 = self.noise.evaluate(corners[3].rough_id, seeds);
        let values = [v0, v1, v2, v3];
        proof {
            assert(values@ =~= self.raw_values_spec(input, *old(seeds)));
        }
        let raw = cell.interpolate_within(&values, &self.curve);
        self.noise.finish_value(raw)
    }
}

/// Law: value noise is continuous across a cell boundary. Two horizontally
/// adjacent squares share their two middle corners, and the identities of
/// those corners hash lattice coordinates alone; so the left square
/// interpolated at the far edge of its first axis produces exactly the
/// value the right square produces at its near edge, for any height.
#[verifier::rlimit(100)]
pub proof fn lemma_mix_cell_values_continuous<N: FastRandomMixed>(
    noise: N,
    left: GridSquare<Vec2, IVec2>,
    right: GridSquare<Vec2, IVec2>,
    rng: NoiseRng,
    my: int,
)
    requires
        left.cell_wf(),
        right.cell_wf(),
        right.floored.x == left.floored.x + 1,
        right.floored.y == left.floored.y,
        0 <= my <= FP_ONE,
    ensures
        noise.finish_spec(
            interp2_spec(
                Seq::new(4, |i: int| noise.raw_value_spec(left.points_spec(rng)[i].rough_id)),
                FP_ONE as int,
                my,
            ) as i64,
        ) == noise.finish_spec(
            interp2_spec(
                Seq::new(4, |i: int| noise.raw_value_spec(right.points_spec(rng)[i].rough_id)),
                0,
                my,
            ) as i64,
        ),
{
    let lv = Seq::new(4, |i: int| noise.raw_value_spec(left.points_spec(rng)[i].rough_id));
    let rv = Seq::new(4, |i: int| noise.raw_value_spec(right.points_spec(rng)[i].rough_id));
    assert forall|i: int| 0 <= i < 4 implies 0 <= #[trigger] lv[i] <= 0x4000_0000 by {
        noise.lemma_raw_value_bounded(left.points_spec(rng)[i].rough_id);
    }
    assert forall|i: int| 0 <= i < 4 implies 0 <= #[trigger] rv[i] <= 0x4000_0000 by {
        noise.lemma_raw_value_bounded(right.points_spec(rng)[i].rough_id);
    }
    assert(left.corner_id_spec(rng, 1, 0) == right.corner_id_spec(rng, 0, 0));
    assert(left.corner_id_spec(rng, 1, 1) == right.corner_id_spec(rng, 0, 1));
    assert(lv[2] == rv[0]);
    assert(lv[3] == rv[1]);
    crate::segments::lemma_grid_interpolation_continuous(lv, rv, my);
}

/// This trait facilitates generating gradient vectors and computing their
/// dot products with offsets.
pub trait GradientGenerator: Sized {
    /// The gradient chosen for a seed.
    spec fn gradient_spec(&self, seed: u32) -> Vec2;

    /// The dot product of that gradient with an offset.
    spec fn dot_spec(&self, seed: u32, offset: Vec2) -> i64;

    /// Gets the gradient used in [`get_gradient_dot`](Self::get_gradient_dot).
    fn get_gradient(&self, seed: u32) -> (r: Vec2)
        ensures
            r == self.gradient_spec(seed),
            r.bounded_by(FP_ONE as int),
    ;

    /// Gets the dot product of `offset` with the gradient for this seed.
    fn get_gradient_dot(&self, seed: u32, offset: Vec2) -> (r: i64)
        requires
            offset.bounded_by(2 * FP_ONE as int),
        ensures
            r == self.dot_spec(seed, offset),
            -4 * FP_ONE <= r <= 4 * FP_ONE,
    ;
}

/// The top two bits of a seed select among four directions.
proof fn lemma_two_bit_index(seed: u32)
    ensures
        seed >> 30 < 4,
{
    assert(seed >> 30 < 4) by (bit_vector);
}

/// The top four bits of a seed select among sixteen directions.
proof fn lemma_four_bit_index(seed: u32)
    ensures
        seed >> 28 < 16,
{
    assert(seed >> 28 < 16) by (bit_vector);
}

/// A simple [`GradientGenerator`] that maps seeds directly to one of four
/// axis-aligned unit gradients. This is the fastest provided generator, and
/// its dot products need no multiplication at all.
#[derive(Clone, Copy, PartialEq, Eq, Structural, Debug, Default)]
pub struct QuickGradients;

impl GradientGenerator for QuickGradients {
    open spec fn gradient_spec(&self, seed: u32) -> Vec2 {
        let ix = seed >> 30;
        if ix == 0 {
            Vec2 { x: 0, y: (-FP_ONE) as i64 }
        } else if ix == 1 {
            Vec2 { x: 0, y: FP_ONE }
        } else if ix == 2 {
            Vec2 { x: (-FP_ONE) as i64, y: 0 }
        } else {
            Vec2 { x: FP_ONE, y: 0 }
        }
    }

    open spec fn dot_spec(&self, seed: u32, offset: Vec2) -> i64 {
        let ix = seed >> 30;
        if ix == 0 {
            (-offset.y) as i64
        } else if ix == 1 {
            offset.y
        } else if ix == 2 {
            (-offset.x) as i64
        } else {
            offset.x
        }
    }

    fn get_gradient(&self, seed: u32) -> (r: Vec2) {
        proof {
            lemma_two_bit_index(seed);
        }
        let ix = seed >> 30;
        if ix == 0 {
            Vec2 { x: 0, y: -FP_ONE }
        } else if ix == 1 {
            Vec2 { x: 0, y: FP_ONE }
        } else if ix == 2 {
            Vec2 { x: -FP_ONE, y: 0 }
        } else {
            Vec2 { x: FP_ONE, y: 0 }
        }
    }

    fn get_gradient_dot(&self, seed: u32, offset: Vec2) -> (r: i64) {
        proof {
            lemma_two_bit_index(seed);
        }
        let ix = seed >> 30;
        if ix == 0 {
            -offset.y
        } else if ix == 1 {
            offset.y
        } else if ix == 2 {
            -offset.x
        } else {
            offset.x
        }
    }
}

/// Law: gradient dot products are bounded by the offset. For the
/// axis-aligned gradients, an offset whose components lie within the unit
/// interval on both sides yields a dot product within it too, and strictly
/// within it when the components are strict.
pub proof fn lemma_quick_gradient_dot_in_unit(seed: u32, offset: Vec2)
    requires
        offset.bounded_by(FP_ONE as int),
    ensures
        -FP_ONE <= QuickGradients.dot_spec(seed, offset) <= FP_ONE,
        -FP_ONE < offset.x < FP_ONE && -FP_ONE < offset.y < FP_ONE ==> -FP_ONE
            < QuickGradients.dot_spec(seed, offset) < FP_ONE,
{
}

/// A medium-quality [`GradientGenerator`] that normalizes a random square
/// vector onto the circle. The distribution is denser toward the diagonals
/// because the square is normalized onto the circle.
#[derive(Clone, Copy, PartialEq, Eq, Structural, Debug, Default)]
pub struct RandomGradients;

/// The gradient [`RandomGradients`] picks: a vector with random components,
/// normalized; a degenerate zero vector falls back to the first axis.
pub open spec fn random_gradient_spec(seed: u32) -> Vec2 {
    let x = crate::rng::snorm_from_bits_spec(seed);
    let y = (2 * ((seed & 0xFFFF) as i64) - FP_ONE) as i64;
    let len = sqrt_floor_spec(x * x + y * y);
    if len == 0 {
        Vec2 { x: FP_ONE, y: 0 }
    } else {
        Vec2 {
            x: ((x * FP_ONE) / len) as i64,
            y: ((y * FP_ONE) / len) as i64,
        }
    }
}

/// The components of a vector never exceed its length, so normalizing by
/// the floor of the length keeps each normalized component within the unit.
proof fn lemma_normalize_component(c: int, len: int, sq: int)
    requires
        0 <= sq,
        c * c <= sq,
        crate::fixed::is_sqrt_floor(sq, len),
        1 <= len,
    ensures
        -FP_ONE <= (c * FP_ONE) / len <= FP_ONE,
{
    assert(-len <= c <= len) by (nonlinear_arith)
        requires
            c * c <= sq,
            sq < (len + 1) * (len + 1),
            0 <= len,
    ;
    lemma_mul_le(abs_spec(c), FP_ONE as int, len, FP_ONE as int);
    lemma_floor_div_range(c * FP_ONE, len, -FP_ONE as int, FP_ONE as int);
}

impl GradientGenerator for RandomGradients {
    open spec fn gradient_spec(&self, seed: u32) -> Vec2 {
        random_gradient_spec(seed)
    }

    open spec fn dot_spec(&self, seed: u32, offset: Vec2) -> i64 {
        (fp_mul_spec(random_gradient_spec(seed).x as int, offset.x as int) + fp_mul_spec(
            random_gradient_spec(seed).y as int,
            offset.y as int,
        )) as i64
    }

    fn get_gradient(&self, seed: u32) -> (r: Vec2) {
        let x = crate::rng::snorm_from_bits(seed);
        proof {
            crate::rng::lemma_low_bits_bound(seed);
        }
        let y = 2 * ((seed & 0xFFFF) as i64) - FP_ONE;
        proof {
            lemma_vec_sq_4k(Vec2 { x, y });
        }
        let sq: i64 = x * x + y * y;
        let len = isqrt(sq as u64);
        if len == 0 {
            Vec2 { x: FP_ONE, y: 0 }
        } else {
            proof {
                crate::fixed::lemma_sqrt_floor_is(sq as int, len as int);
                lemma_normalize_component(x as int, len as int, sq as int);
                lemma_normalize_component(y as int, len as int, sq as int);
            }
            let gx = floor_div(x * FP_ONE, len as i64);
            let gy = floor_div(y * FP_ONE, len as i64);
            Vec2 { x: gx, y: gy }
        }
    }

    fn get_gradient_dot(&self, seed: u32, offset: Vec2) -> (r: i64) {
        let g = self.get_gradient(seed);
        proof {
            lemma_dot_term_bounds(g.x as int, offset.x as int);
            lemma_dot_term_bounds(g.y as int, offset.y as int);
        }
        fp_mul(g.x, offset.x) + fp_mul(g.y, offset.y)
    }
}

/// One term of a gradient dot product stays within twice the unit when the
/// gradient component is within the unit and the offset within two units.
proof fn lemma_dot_term_bounds(g: int, c: int)
    requires
        -FP_ONE <= g <= FP_ONE,
        -2 * FP_ONE <= c <= 2 * FP_ONE,
    ensures
        -2 * FP_ONE <= fp_mul_spec(g, c) <= 2 * FP_ONE,
{
    assert(-(2 * FP_ONE as int * FP_ONE) <= g * c <= 2 * FP_ONE as int * FP_ONE)
        by (nonlinear_arith)
        requires
            -FP_ONE <= g <= FP_ONE,
            -2 * FP_ONE <= c <= 2 * FP_ONE,
    ;
    lemma_floor_div_range(g * c, FP_ONE as int, -2 * FP_ONE as int, 2 * FP_ONE as int);
}

/// A high-quality [`GradientGenerator`] that distributes gradients over
/// sixteen evenly spaced directions of the circle.
#[derive(Clone, Copy, PartialEq, Eq, Structural, Debug, Default)]
pub struct QualityGradients;

/// The gradient [`QualityGradients`] picks: one of sixteen unit vectors at
/// evenly spaced angles, selected by the seed's top bits.
pub open spec fn quality_gradient_spec(seed: u32) -> Vec2 {
    let ix = seed >> 28;
    if ix == 0 {
        Vec2 { x: 65536, y: 0 }
    } else if ix == 1 {
        Vec2 { x: 60547, y: 25080 }
    } else if ix == 2 {
        Vec2 { x: 46341, y: 46341 }
    } else if ix == 3 {
        Vec2 { x: 25080, y: 60547 }
    } else if ix == 4 {
        Vec2 { x: 0, y: 65536 }
    } else if ix == 5 {
        Vec2 { x: (-25080) as i64, y: 60547 }
    } else if ix == 6 {
        Vec2 { x: (-46341) as i64, y: 46341 }
    } else if ix == 7 {
        Vec2 { x: (-60547) as i64, y: 25080 }
    } else if ix == 8 {
        Vec2 { x: (-65536) as i64, y: 0 }
    } else if ix == 9 {
        Vec2 { x: (-60547) as i64, y: (-25080) as i64 }
    } else if ix == 10 {
        Vec2 { x: (-46341) as i64, y: (-46341) as i64 }
    } else if ix == 11 {
        Vec2 { x: (-25080) as i64, y: (-60547) as i64 }
    } else if ix == 12 {
        Vec2 { x: 0, y: (-65536) as i64 }
    } else if ix == 13 {
        Vec2 { x: 25080, y: (-60547) as i64 }
    } else if ix == 14 {
        Vec2 { x: 46341, y: (-46341) as i64 }
    } else {
        Vec2 { x: 60547, y: (-25080) as i64 }
    }
}

impl GradientGenerator for QualityGradients {
    open spec fn gradient_spec(&self, seed: u32) -> Vec2 {
        quality_gradient_spec(seed)
    }

    open spec fn dot_spec(&self, seed: u32, offset: Vec2) -> i64 {
        (fp_mul_spec(quality_gradient_spec(seed).x as int, offset.x as int) + fp_mul_spec(
            quality_gradient_spec(seed).y as int,
            offset.y as int,
        )) as i64
    }

    fn get_gradient(&self, seed: u32) -> (r: Vec2) {
        proof {
            lemma_four_bit_index(seed);
        }
        let ix = seed >> 28;
        if ix == 0 {
            Vec2 { x: 65536, y: 0 }
        } else if ix == 1 {
            Vec2 { x: 60547, y: 25080 }
        } else if ix == 2 {
            Vec2 { x: 46341, y: 46341 }
        } else if ix == 3 {
            Vec2 { x: 25080, y: 60547 }
        } else if ix == 4 {
            Vec2 { x: 0, y: 65536 }
        } else if ix == 5 {
            Vec2 { x: -25080, y: 60547 }
        } else if ix == 6 {
            Vec2 { x: -46341, y: 46341 }
        } else if ix == 7 {
            Vec2 { x: -60547, y: 25080 }
        } else if ix == 8 {
            Vec2 { x: -65536, y: 0 }
        } else if ix == 9 {
            Vec2 { x: -60547, y: -25080 }
        } else if ix == 10 {
            Vec2 { x: -46341, y: -46341 }
        } else if ix == 11 {
            Vec2 { x: -25080, y: -60547 }
        } else if ix == 12 {
            Vec2 { x: 0, y: -65536 }
        } else if ix == 13 {
            Vec2 { x: 25080, y: -60547 }
        } else if ix == 14 {
            Vec2 { x: 46341, y: -46341 }
        } else {
            Vec2 { x: 60547, y: -25080 }
        }
    }

    fn get_gradient_dot(&self, seed: u32, offset: Vec2) -> (r: i64) {
        let g = self.get_gradient(seed);
        proof {
            lemma_dot_term_bounds(g.x as int, offset.x as int);
            lemma_dot_term_bounds(g.y as int, offset.y as int);
        }
        fp_mul(g.x, offset.x) + fp_mul(g.y, offset.y)
    }
}

/// A [`NoiseFunction`] that interpolates gradient dot products sourced from
/// a [`GradientGenerator`] by a [`Curve`] within a grid square: classic
/// gradient (Perlin-style) noise.
#[derive(Clone, Copy, PartialEq, Eq, Structural, Debug, Default)]
pub struct MixCellGradients<P, C, G> {
    /// The [`Segmenter`].
    pub cells: P,
    /// The [`GradientGenerator`].
    pub gradients: G,
    /// The [`Curve`].
    pub curve: C,
}

impl<
    P: Segmenter<Vec2, Segment = GridSquare<Vec2, IVec2>>,
    C: Curve,
    G: GradientGenerator,
> MixCellGradients<P, C, G> {
    /// The corner dot products of the square containing `input`.
    pub open spec fn corner_dots_spec(&self, input: Vec2, rng: NoiseRng) -> Seq<i64> {
        let pts = self.cells.segment_spec(input).points_spec(rng);
        Seq::new(4, |i: int| self.gradients.dot_spec(pts[i].rough_id, pts[i].offset))
    }

    /// The value of a sample at `input`: the corner dot products blended by
    /// the curve.
    pub open spec fn mix_gradients_spec(&self, input: Vec2, rng: NoiseRng) -> i64 {
        let cell = self.cells.segment_spec(input);
        interp2_spec(
            self.corner_dots_spec(input, rng),
            self.curve.sample_spec(cell.offset.x) as int,
            self.curve.sample_spec(cell.offset.y) as int,
        ) as i64
    }
}

impl<
    P: Segmenter<Vec2, Segment = GridSquare<Vec2, IVec2>>,
    C: Curve,
    G: GradientGenerator,
> NoiseFunction<Vec2> for MixCellGradients<P, C, G> {
    type Output = i64;

    open spec fn in_domain(&self, input: Vec2, rng: NoiseRng) -> bool {
        self.cells.segment_ok(input)
    }

    open spec fn eval_spec(&self, input: Vec2, rng: NoiseRng) -> (i64, NoiseRng) {
        (self.mix_gradients_spec(input, rng), rng)
    }

    fn evaluate(&self, input: Vec2, seeds: &mut NoiseRng) -> (out: i64) {
        let cell = self.cells.segment(input);
        proof {
            cell.lemma_points_shape(*seeds);
        }
        let corners = cell.corners(*seeds);
        let d0 = self.gradients.get_gradient_dot(corners[0].rough_id, corners[0].offset);
        let d1 = self.gradients.get_gradient_dot(corners[1].rough_id, corners[1].offset);
        let d2 = self.gradients.get_gradient_dot(corners[2].rough_id, corners[2].offset);
        let d3 = self.gradients.get_gradient_dot(corners[3].rough_id, corners[3].offset);
        let values = [d0, d1, d2, d3];
        proof {
            assert(values@ =~= self.corner_dots_spec(input, *old(seeds)));
        }
        cell.interpolate_within(&values, &self.curve)
    }
}

/// Law: gradient noise stays within the unit interval. With the
/// axis-aligned gradient table, every corner dot product of a grid square
/// lies within the unit interval, and so does anything interpolated from
/// them.
pub proof fn lemma_mix_cell_gradients_bounded<
    P: Segmenter<Vec2, Segment = GridSquare<Vec2, IVec2>>,
    C: Curve,
>(noise: MixCellGradients<P, C, QuickGradients>, input: Vec2, rng: NoiseRng, mx: int, my: int)
    requires
        noise.cells.segment_ok(input),
        noise.cells.segment_spec(input).cell_wf(),
        0 <= mx <= FP_ONE,
        0 <= my <= FP_ONE,
    ensures
        -FP_ONE <= interp2_spec(noise.corner_dots_spec(input, rng), mx, my) <= FP_ONE,
{
    let cell = noise.cells.segment_spec(input);
    let pts = cell.points_spec(rng);
    let dots = noise.corner_dots_spec(input, rng);
    cell.lemma_points_shape(rng);
    assert forall|i: int| 0 <= i < 4 implies -FP_ONE <= #[trigger] dots[i] <= FP_ONE by {
        assert(pts[i].offset.bounded_by(FP_ONE as int));
        lemma_quick_gradient_dot_in_unit(pts[i].rough_id, pts[i].offset);
    }
    lemma_interp2_bounds(dots, mx, my, -FP_ONE as int, FP_ONE as int);
}

/// The running sum of a sequence of weighed contributions.
pub open spec fn sum_weighed(s: Seq<i64>) -> int
    decreases s.len(),
{
    if s.len() == 0 {
        0
    } else {
        sum_weighed(s.drop_last()) + s.last()
    }
}

/// A bounded sequence has a bounded sum.
pub proof fn lemma_sum_weighed_bound(s: Seq<i64>, m: int)
    requires
        0 <= m,
        forall|i: int| 0 <= i < s.len() ==> -m <= #[trigger] s[i] <= m,
    ensures
        -(s.len() * m) <= sum_weighed(s) <= s.len() * m,
    decreases s.len(),
{
    if s.len() == 0 {
    } else {
        lemma_sum_weighed_bound(s.drop_last(), m);
        assert((s.len() - 1) * m + m == s.len() * m) by (nonlinear_arith);
    }
}

/// Allows blending the contributions of a cell's points into one value.
pub trait Blender: Sized {
    /// The weighed form of one contribution.
    spec fn weigh_spec(&self, value: i64, offset: Vec2) -> i64;

    /// The counterweight applied to a collected dot-product blend.
    spec fn counter_spec(&self, value: i64) -> i64;

    /// The combination of all weighed contributions.
    spec fn collect_spec(&self, weighed: Seq<i64>) -> i64;

    /// Weighs `value` by the offset of the sample point from the point that
    /// generated the value; the weight never exceeds one.
    fn weigh_value(&self, value: i64, offset: Vec2) -> (r: i64)
        requires
            -4 * FP_ONE <= value <= 4 * FP_ONE,
            offset.bounded_by(2 * FP_ONE as int),
        ensures
            r == self.weigh_spec(value, offset),
            -4 * FP_ONE <= r <= 4 * FP_ONE,
    ;

    /// When the value was a dot product with the offset, the blend is
    /// already attenuated; this counteracts that attenuation.
    fn counter_dot_product(&self, value: i64) -> (r: i64)
        requires
            -64 * FP_ONE <= value <= 64 * FP_ONE,
        ensures
            r == self.counter_spec(value),
            -448 * FP_ONE <= r <= 448 * FP_ONE,
    ;

    /// Combines the weighed contributions into one value.
    fn collect_weighted(&self, weighed: &Vec<i64>) -> (r: i64)
        requires
            weighed@.len() <= 16,
            forall|i: int| 0 <= i < weighed@.len() ==> -4 * FP_ONE <= #[trigger] weighed@[i] <= 4
                * FP_ONE,
        ensures
            r == self.collect_spec(weighed@),
            -64 * FP_ONE <= r <= 64 * FP_ONE,
    ;
}

/// The kernel weight of a point at squared distance `d2` (in fixed-point
/// units): a quartic falloff that reaches zero at squared distance one
/// half, as simplex-style blending uses.
pub open spec fn simplex_weight_spec(d2: int) -> i64 {
    let wu = if crate::fixed::FP_HALF - d2 > 0 {
        2 * (crate::fixed::FP_HALF - d2)
    } else {
        0
    };
    fp_mul_spec(fp_mul_spec(wu, wu), fp_mul_spec(wu, wu)) as i64
}

/// The kernel weight always lands in the unit interval.
pub proof fn lemma_simplex_weight_bounds(d2: int)
    requires
        0 <= d2,
    ensures
        0 <= simplex_weight_spec(d2) <= FP_ONE,
{
    let wu = if crate::fixed::FP_HALF - d2 > 0 {
        2 * (crate::fixed::FP_HALF - d2)
    } else {
        0
    };
    assert(0 <= wu <= FP_ONE);
    lemma_fp_mul_unit_bounds(wu, wu, 0, FP_ONE as int);
    lemma_fp_mul_unit_bounds(fp_mul_spec(wu, wu), fp_mul_spec(wu, wu), 0, FP_ONE as int);
}

/// The multiplier that counteracts the kernel's dot-product attenuation for
/// simplex-style blending, as a fixed-point value.
pub const SIMPLEX_COUNTER: i64 = 408943;

/// A [`Blender`] with the simplex quartic falloff kernel.
#[derive(Clone, Copy, PartialEq, Eq, Structural, Debug, Default)]
pub struct SimplecticBlend;

impl Blender for SimplecticBlend {
    open spec fn weigh_spec(&self, value: i64, offset: Vec2) -> i64 {
        fp_mul_spec(
            value as int,
            simplex_weight_spec(raw_len_sq_spec(offset) / (FP_ONE as int)) as int,
        ) as i64
    }

    open spec fn counter_spec(&self, value: i64) -> i64 {
        fp_mul_spec(value as int, SIMPLEX_COUNTER as int) as i64
    }

    open spec fn collect_spec(&self, weighed: Seq<i64>) -> i64 {
        sum_weighed(weighed) as i64
    }

    fn weigh_value(&self, value: i64, offset: Vec2) -> (r: i64) {
        proof {
            lemma_vec_sq_4k(offset);
            lemma_floor_div_range(raw_len_sq_spec(offset), FP_ONE as int, 0, 32 * FP_ONE as int);
        }
        let sq: i64 = offset.x * offset.x + offset.y * offset.y;
        let d2 = floor_div(sq, FP_ONE);
        let wu: i64 = if FP_HALF - d2 > 0 {
            2 * (FP_HALF - d2)
        } else {
            0
        };
        proof {
            lemma_fp_mul_unit_bounds(wu as int, wu as int, 0, FP_ONE as int);
        }
        let s = fp_mul(wu, wu);
        proof {
            lemma_fp_mul_unit_bounds(s as int, s as int, 0, FP_ONE as int);
        }
        let w = fp_mul(s, s);
        proof {
            lemma_fp_mul_unit_bounds(value as int, w as int, -4 * FP_ONE as int, 4 * FP_ONE as int);
        }
        fp_mul(value, w)
    }

    fn counter_dot_product(&self, value: i64) -> (r: i64) {
        proof {
            assert(-(448 * FP_ONE as int * FP_ONE) <= value as int * SIMPLEX_COUNTER <= 448
                * FP_ONE as int * FP_ONE) by (nonlinear_arith)
                requires
                    -64 * FP_ONE <= value <= 64 * FP_ONE,
                    SIMPLEX_COUNTER == 408943,
                    FP_ONE == 65536,
            ;
            lemma_floor_div_range(
                value as int * SIMPLEX_COUNTER,
                FP_ONE as int,
                -448 * FP_ONE as int,
                448 * FP_ONE as int,
            );
        }
        fp_mul(value, SIMPLEX_COUNTER)
    }

    fn collect_weighted(&self, weighed: &Vec<i64>) -> (r: i64) {
        let mut sum: i64 = 0;
        let mut i: usize = 0;
        while i < weighed.len()
            invariant
                0 <= i <= weighed@.len() <= 16,
                forall|j: int| 0 <= j < weighed@.len() ==> -4 * FP_ONE <= #[trigger] weighed@[j]
                    <= 4 * FP_ONE,
                sum == sum_weighed(weighed@.take(i as int)),
                -262144 * (i as int) <= sum <= 262144 * (i as int),
            decreases weighed@.len() - i,
        {
            proof {
                assert(weighed@.take(i as int + 1).drop_last() =~= weighed@.take(i as int));
                assert(weighed@.take(i as int + 1).last() == weighed@[i as int]);
                assert(-4 * FP_ONE <= weighed@[i as int] <= 4 * FP_ONE);
                assert(4 * FP_ONE == 262144);
            }
            sum = sum + weighed[i];
            i += 1;
        }
        proof {
            assert(weighed@.take(weighed@.len() as int) =~= weighed@);
            lemma_sum_weighed_bound(weighed@, 4 * FP_ONE as int);
        }
        sum
    }
}

/// A [`NoiseFunction`] that blends values sourced from a
/// [`FastRandomMixed`] generator by a [`Blender`] over all the points of a
/// cell, each contribution weighed by its offset.
#[derive(Clone, Copy, PartialEq, Eq, Structural, Debug, Default)]
pub struct BlendCellValues<P, B, N> {
    /// The [`Segmenter`].
    pub cells: P,
    /// The [`FastRandomMixed`] generator.
    pub noise: N,
    /// The [`Blender`].
    pub blender: B,
}

impl<
    P: Segmenter<Vec2, Segment: WorleyDomainCell>,
    B: Blender,
    N: FastRandomMixed,
> BlendCellValues<P, B, N> {
    /// The weighed contributions of all points of the cell at `input`.
    pub open spec fn weighed_values_spec(&self, input: Vec2, rng: NoiseRng) -> Seq<i64> {
        let pts = self.cells.segment_spec(input).points_spec(rng);
        Seq::new(
            pts.len(),
            |i: int|
                self.blender.weigh_spec(
                    self.noise.finish_spec(self.noise.raw_value_spec(pts[i].rough_id)),
                    pts[i].offset,
                ),
        )
    }
}

impl<
    P: Segmenter<Vec2, Segment: WorleyDomainCell>,
    B: Blender,
    N: FastRandomMixed,
> NoiseFunction<Vec2> for BlendCellValues<P, B, N> {
    type Output = i64;

    open spec fn in_domain(&self, input: Vec2, rng: NoiseRng) -> bool {
        self.cells.segment_ok(input)
    }

    open spec fn eval_spec(&self, input: Vec2, rng: NoiseRng) -> (i64, NoiseRng) {
        (self.blender.collect_spec(self.weighed_values_spec(input, rng)), rng)
    }

    fn evaluate(&self, input: Vec2, seeds: &mut NoiseRng) -> (out: i64) {
        let cell = self.cells.segment(input);
        let ghost pts = cell.points_spec(*seeds);
        proof {
            cell.lemma_points_shape(*seeds);
        }
        let points = cell.iter_points(*seeds);
        let ghost target = self.weighed_values_spec(input, *old(seeds));
        let mut weighed: Vec<i64> = Vec::new();
        let mut i: usize = 0;
        while i < points.len()
            invariant
                0 <= i <= points.len(),
                points@ == pts,
                pts.len() <= 16,
                forall|j: int| 0 <= j < pts.len() ==> (#[trigger] pts[j]).offset.bounded_by(
                    2 * FP_ONE as int,
                ),
                *seeds == *old(seeds),
                target == self.weighed_values_spec(input, *old(seeds)),
                pts == self.cells.segment_spec(input).points_spec(*old(seeds)),
                weighed@ =~= target.take(i as int),
                forall|j: int| 0 <= j < weighed@.len() ==> -4 * FP_ONE
                    <= #[trigger] weighed@[j] <= 4 * FP_ONE,
            decreases points.len() - i,
        {
            let p = points[i];
            let raw = self.noise.evaluate(p.rough_id, seeds);
            let value = self.noise.finish_value(raw);
            let w = self.blender.weigh_value(value, p.offset);
            weighed.push(w);
            proof {
                assert(weighed@ =~= target.take(i as int + 1));
            }
            i += 1;
        }
        proof {
            assert(weighed@ =~= target);
        }
        self.blender.collect_weighted(&weighed)
    }
}

/// A [`NoiseFunction`] that blends gradient dot products sourced from a
/// [`GradientGenerator`] by a [`Blender`] over all the points of a cell:
/// simplex-style gradient noise.
#[derive(Clone, Copy, PartialEq, Eq, Structural, Debug, Default)]
pub struct BlendCellGradients<P, B, G> {
    /// The [`Segmenter`].
    pub cells: P,
    /// The [`GradientGenerator`].
    pub gradients: G,
    /// The [`Blender`].
    pub blender: B,
}

impl<
    P: Segmenter<Vec2, Segment: WorleyDomainCell>,
    B: Blender,
    G: GradientGenerator,
> BlendCellGradients<P, B, G> {
    /// The weighed dot-product contributions of all points of the cell.
    pub open spec fn weighed_dots_spec(&self, input: Vec2, rng: NoiseRng) -> Seq<i64> {
        let pts = self.cells.segment_spec(input).points_spec(rng);
        Seq::new(
            pts.len(),
            |i: int|
                self.blender.weigh_spec(
                    self.gradients.dot_spec(pts[i].rough_id, pts[i].offset),
                    pts[i].offset,
                ),
        )
    }
}

impl<
    P: Segmenter<Vec2, Segment: WorleyDomainCell>,
    B: Blender,
    G: GradientGenerator,
> NoiseFunction<Vec2> for BlendCellGradients<P, B, G> {
    type Output = i64;

    open spec fn in_domain(&self, input: Vec2, rng: NoiseRng) -> bool {
        self.cells.segment_ok(input)
    }

    open spec fn eval_spec(&self, input: Vec2, rng: NoiseRng) -> (i64, NoiseRng) {
        (
            self.blender.counter_spec(
                self.blender.collect_spec(self.weighed_dots_spec(input, rng)),
            ),
            rng,
        )
    }

    fn evaluate(&self, input: Vec2, seeds: &mut NoiseRng) -> (out: i64) {
        let cell = self.cells.segment(input);
        let ghost pts = cell.points_spec(*seeds);
        proof {
            cell.lemma_points_shape(*seeds);
        }
        let points = cell.iter_points(*seeds);
        let ghost target = self.weighed_dots_spec(input, *old(seeds));
        let mut weighed: Vec<i64> = Vec::new();
        let mut i: usize = 0;
        while i < points.len()
            invariant
                0 <= i <= points.len(),
                points@ == pts,
                pts.len() <= 16,
                forall|j: int| 0 <= j < pts.len() ==> (#[trigger] pts[j]).offset.bounded_by(
                    2 * FP_ONE as int,
                ),
                *seeds == *old(seeds),
                target == self.weighed_dots_spec(input, *old(seeds)),
                pts == self.cells.segment_spec(input).points_spec(*old(seeds)),
                weighed@ =~= target.take(i as int),
                forall|j: int| 0 <= j < weighed@.len() ==> -4 * FP_ONE
                    <= #[trigger] weighed@[j] <= 4 * FP_ONE,
            decreases points.len() - i,
        {
            let p = points[i];
            let dot = self.gradients.get_gradient_dot(p.rough_id, p.offset);
            let w = self.blender.weigh_value(dot, p.offset);
            weighed.push(w);
            proof {
                assert(weighed@ =~= target.take(i as int + 1));
            }
            i += 1;
        }
        proof {
            assert(weighed@ =~= target);
        }
        let collected = self.blender.collect_weighted(&weighed);
        self.blender.counter_dot_product(collected)
    }
}

/// The sentinel standing for "no edge found yet": far beyond any real
/// edge distance a cell can produce.
pub const EDGE_NONE: i64 = 0x40_0000_0000_0000;

/// The fixed-point distance from the sample point to the perpendicular
/// bisector between the nearest point and another point, measured as the
/// crow flies. Both arguments are offsets from the sample. A coincident
/// point yields the sentinel: there is no edge between a point and itself.
pub open spec fn edge_dist_spec(nearest: Vec2, other: Vec2) -> int {
    let tox = nearest.x - other.x;
    let toy = nearest.y - other.y;
    let tsq = tox * tox + toy * toy;
    if tsq == 0 {
        EDGE_NONE as int
    } else {
        abs_spec(tsq / 2 - (tox * nearest.x + toy * nearest.y)) / sqrt_floor_spec(tsq)
    }
}

/// The least edge distance among the first `k` points of a cell.
pub open spec fn min_edge_upto(nearest: Vec2, pts: Seq<SegmentedPoint<Vec2>>, k: int) -> int
    decreases k,
{
    if k <= 0 {
        EDGE_NONE as int
    } else {
        let prev = min_edge_upto(nearest, pts, k - 1);
        let here = edge_dist_spec(nearest, pts[k - 1].offset);
        if here < prev {
            here
        } else {
            prev
        }
    }
}

/// Every edge distance of a bounded cell stays within the sentinel — a
/// coincident pair hits it exactly — and all the products the formula
/// takes stay within machine range.
proof fn lemma_edge_dist_bounds(nearest: Vec2, other: Vec2)
    requires
        nearest.bounded_by(2 * FP_ONE as int),
        other.bounded_by(2 * FP_ONE as int),
    ensures
        0 <= edge_dist_spec(nearest, other) <= EDGE_NONE,
        0 <= (nearest.x - other.x) * (nearest.x - other.x) <= 0x1_0000_0000_0000,
        0 <= (nearest.y - other.y) * (nearest.y - other.y) <= 0x1_0000_0000_0000,
        -0x1_0000_0000_0000 <= (nearest.x - other.x) * nearest.x <= 0x1_0000_0000_0000,
        -0x1_0000_0000_0000 <= (nearest.y - other.y) * nearest.y <= 0x1_0000_0000_0000,
{
    let tox = nearest.x - other.x;
    let toy = nearest.y - other.y;
    let tsq = tox * tox + toy * toy;
    assert(0 <= tox * tox <= 0x1_0000_0000_0000 && 0 <= toy * toy <= 0x1_0000_0000_0000
        && -0x1_0000_0000_0000 <= tox * nearest.x <= 0x1_0000_0000_0000
        && -0x1_0000_0000_0000 <= toy * nearest.y <= 0x1_0000_0000_0000) by (nonlinear_arith)
        requires
            -4 * FP_ONE <= tox <= 4 * FP_ONE,
            -4 * FP_ONE <= toy <= 4 * FP_ONE,
            -2 * FP_ONE <= nearest.x <= 2 * FP_ONE,
            -2 * FP_ONE <= nearest.y <= 2 * FP_ONE,
            FP_ONE == 65536,
    ;
    if tsq != 0 {
        crate::fixed::lemma_sqrt_floor_exists(tsq);
        let w = choose|r: int| #[trigger] crate::fixed::is_sqrt_floor(tsq, r);
        crate::fixed::lemma_sqrt_floor_is(tsq, w);
        assert(sqrt_floor_spec(tsq) >= 1) by (nonlinear_arith)
            requires
                crate::fixed::is_sqrt_floor(tsq, sqrt_floor_spec(tsq)),
                tsq >= 1,
        ;
        let num = abs_spec(tsq / 2 - (tox * nearest.x + toy * nearest.y));
        assert(num < EDGE_NONE);
        lemma_mul_le(num, 1, num, sqrt_floor_spec(tsq));
        assert(num < (EDGE_NONE - 1 + 1) * sqrt_floor_spec(tsq)) by (nonlinear_arith)
            requires
                num * 1 <= num * sqrt_floor_spec(tsq),
                1 <= sqrt_floor_spec(tsq),
                0 <= num < EDGE_NONE,
        ;
        lemma_floor_div_range(num, sqrt_floor_spec(tsq), 0, EDGE_NONE - 1);
    }
}

/// A [`NoiseFunction`] that partitions space into cells and finds the
/// distance from the sample point to the nearest boundary between the
/// nearest point's region and any neighbor's — the outline of the cell.
/// The result is normalized by the cell's stated bound into the unit
/// interval, clamping at one. The geometry is that of straight-line
/// distance, so the length mode is fixed to [`EuclideanLength`]; a
/// coincident pair of points is skipped rather than dividing by zero.
#[derive(Clone, Copy, PartialEq, Eq, Structural, Debug, Default)]
pub struct DistanceToEdge<P, L = EuclideanLength> {
    /// The [`Segmenter`].
    pub cells: P,
    /// The [`LengthFunction`] the distances are measured by.
    pub length_mode: L,
}

impl<P: Segmenter<Vec2, Segment: WorleyDomainCell>> DistanceToEdge<P, EuclideanLength> {
    /// The normalized distance to the nearest region boundary at `input`.
    pub open spec fn edge_value_spec(&self, input: Vec2, rng: NoiseRng) -> i64 {
        let cell = self.cells.segment_spec(input);
        let pts = cell.points_spec(rng);
        let nearest = nearest_upto(EuclideanLength, pts, pts.len() as int).offset;
        let least = min_edge_upto(nearest, pts, pts.len() as int);
        let bound = cell.nearest_bound_spec() as int;
        if least >= bound {
            FP_ONE
        } else {
            ((least * FP_ONE) / bound) as i64
        }
    }
}

impl<P: Segmenter<Vec2, Segment: WorleyDomainCell>> NoiseFunction<Vec2> for DistanceToEdge<
    P,
    EuclideanLength,
> {
    type Output = i64;

    open spec fn in_domain(&self, input: Vec2, rng: NoiseRng) -> bool {
        self.cells.segment_ok(input)
    }

    open spec fn eval_spec(&self, input: Vec2, rng: NoiseRng) -> (i64, NoiseRng) {
        (self.edge_value_spec(input, rng), rng)
    }

    fn evaluate(&self, input: Vec2, seeds: &mut NoiseRng) -> (out: i64) {
        let cell = self.cells.segment(input);
        let ghost pts = cell.points_spec(*seeds);
        proof {
            cell.lemma_points_shape(*seeds);
        }
        let points = cell.iter_points(*seeds);
        let mut best = points[0];
        let mut best_ord = EuclideanLength.length_ordering(best.offset);
        let mut i: usize = 1;
        while i < points.len()
            invariant
                1 <= i <= points.len(),
                points@ == pts,
                2 <= pts.len() <= 16,
                forall|j: int|
                    0 <= j < pts.len() ==> (#[trigger] pts[j]).offset.bounded_by(
                        2 * FP_ONE as int,
                    ),
                best == nearest_upto(EuclideanLength, pts, i as int),
                best_ord == EuclideanLength.length_ordering_spec(best.offset),
            decreases points.len() - i,
        {
            let p = points[i];
            let ord = EuclideanLength.length_ordering(p.offset);
            if ord < best_ord {
                best = p;
                best_ord = ord;
            }
            i += 1;
        }
        proof {
            lemma_nearest_upto_props(EuclideanLength, pts, pts.len() as int);
            let ni = choose|j: int|
                0 <= j < pts.len() && nearest_upto(EuclideanLength, pts, pts.len() as int)
                    == #[trigger] pts[j];
            assert(pts[ni].offset.bounded_by(2 * FP_ONE as int));
        }
        let nearest = best.offset;
        let mut least: i64 = EDGE_NONE;
        let mut i: usize = 0;
        while i < points.len()
            invariant
                0 <= i <= points.len(),
                points@ == pts,
                2 <= pts.len() <= 16,
                forall|j: int|
                    0 <= j < pts.len() ==> (#[trigger] pts[j]).offset.bounded_by(
                        2 * FP_ONE as int,
                    ),
                nearest.bounded_by(2 * FP_ONE as int),
                least == min_edge_upto(nearest, pts, i as int),
                0 <= least <= EDGE_NONE,
            decreases points.len() - i,
        {
            let p = points[i];
            proof {
                lemma_edge_dist_bounds(nearest, p.offset);
            }
            let tox = nearest.x - p.offset.x;
            let toy = nearest.y - p.offset.y;
            let tsq: i64 = tox * tox + toy * toy;
            if tsq != 0 {
                let raw = tsq / 2 - (tox * nearest.x + toy * nearest.y);
                let num = if raw >= 0 { raw } else { -raw };
                let len = isqrt(tsq as u64);
                proof {
                    crate::fixed::lemma_sqrt_floor_is(tsq as int, len as int);
                    assert(len >= 1) by (nonlinear_arith)
                        requires
                            (len as int) * (len as int) <= tsq as int,
                            (tsq as int) < ((len as int) + 1) * ((len as int) + 1),
                            tsq >= 1,
                    ;
                }
                let d = floor_div(num, len as i64);
                if d < least {
                    least = d;
                }
            }
            i += 1;
        }
        let bound = cell.nearest_1d_point_always_within();
        if least >= bound {
            FP_ONE
        } else {
            proof {
                lemma_floor_div_range(least as int * FP_ONE, bound as int, 0, FP_ONE as int);
            }
            fp_div(least, bound)
        }
    }
}

} // verus!
