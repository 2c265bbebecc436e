//! Interpolating arbitrary per-point noise within a segment.

use vstd::prelude::*;

use crate::curves::Curve;
use crate::rng::NoiseRng;
use crate::segments::{interp2_spec, GridSquare, SegmentedPoint, Segmenter};
use crate::vectors::{IVec2, Vec2};
use crate::NoiseFunction;

verus! {

/// A [`NoiseFunction`] that interpolates values sourced from an arbitrary
/// noise function over segmented points, blending them by a [`Curve`]
/// within the grid square of a [`Segmenter`]. Unlike the value-noise
/// mixer, the per-point noise here consumes the generator, point by point.
#[derive(Clone, Copy, PartialEq, Eq, Structural, Debug, Default)]
pub struct SmoothSegment<S, C, N> {
    /// The [`Segmenter`].
    pub segment: S,
    /// The noise function evaluated at each segmented point.
    pub noise: N,
    /// The [`Curve`].
    pub curve: C,
}

impl<
    S: Segmenter<Vec2, Segment = GridSquare<Vec2, IVec2>>,
    C: Curve,
    N: NoiseFunction<SegmentedPoint<Vec2>, Output = i64>,
> SmoothSegment<S, C, N> {
    /// The four corner values and the generator state they leave behind:
    /// the noise consumes the generator corner by corner.
    pub open spec fn corner_chain_spec(&self, input: Vec2, rng: NoiseRng) -> (
        Seq<i64>,
        NoiseRng,
    ) {
        let pts = crate::segments::DomainSegment::points_spec(
            &self.segment.segment_spec(input),
            rng,
        );
        let (v0, r1) = self.noise.eval_spec(pts[0], rng);
        let (v1, r2) = self.noise.eval_spec(pts[1], r1);
        let (v2, r3) = self.noise.eval_spec(pts[2], r2);
        let (v3, r4) = self.noise.eval_spec(pts[3], r3);
        (seq![v0, v1, v2, v3], r4)
    }
}

impl<
    S: Segmenter<Vec2, Segment = GridSquare<Vec2, IVec2>>,
    C: Curve,
    N: NoiseFunction<SegmentedPoint<Vec2>, Output = i64>,
> NoiseFunction<Vec2> for SmoothSegment<S, C, N> {
    type Output = i64;

    open spec fn in_domain(&self, input: Vec2, rng: NoiseRng) -> bool {
        let pts = crate::segments::DomainSegment::points_spec(
            &self.segment.segment_spec(input),
            rng,
        );
        let (v0, r1) = self.noise.eval_spec(pts[0], rng);
        let (v1, r2) = self.noise.eval_spec(pts[1], r1);
        let (v2, r3) = self.noise.eval_spec(pts[2], r2);
        &&& self.segment.segment_ok(input)
        &&& self.noise.in_domain(pts[0], rng)
        &&& self.noise.in_domain(pts[1], r1)
        &&& self.noise.in_domain(pts[2], r2)
        &&& self.noise.in_domain(pts[3], r3)
        &&& forall|i: int|
            0 <= i < 4 ==> -0x4000_0000 <= #[trigger] self.corner_chain_spec(input, rng).0[i]
                <= 0x4000_0000
    }

    open spec fn eval_spec(&self, input: Vec2, rng: NoiseRng) -> (i64, NoiseRng) {
        let cell = self.segment.segment_spec(input);
        let (values, rng_after) = self.corner_chain_spec(input, rng);
        (
            interp2_spec(
                values,
                self.curve.sample_spec(cell.offset.x) as int,
                self.curve.sample_spec(cell.offset.y) as int,
            ) as i64,
            rng_after,
        )
    }

    fn evaluate(&self, input: Vec2, seeds: &mut NoiseRng) -> (out: i64) {
        let cell = self.segment.segment(input);
        let corners = cell.corners(*seeds);
        let v0 = self.noise.evaluate(corners[0], seeds);
        let v1 = self.noise.evaluate(corners[1], seeds);
        let v2 = self.noise.evaluate(corners[2], seeds);
        let v3 = self.noise.evaluate(corners[3], seeds);
        let values = [v0, v1, v2, v3];
        proof {
            assert(values@ =~= self.corner_chain_spec(input, *old(seeds)).0);
        }
        cell.interpolate_within(&values, &self.curve)
    }
}

} // verus!
