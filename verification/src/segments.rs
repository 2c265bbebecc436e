//! Partitioning a continuous domain into segments (cells).
//!
//! A segmenter maps a continuous coordinate to a cell: a lattice-aligned
//! region exposing a stable rough identity, a fixed set of nearby lattice
//! points, and — for grid squares — a curve-driven interpolation routine.
//! Point identities derive from lattice coordinates alone, which is what
//! makes interpolation agree across cell boundaries.

use vstd::prelude::*;

use crate::curves::{Curve, SampleDerivative};
use crate::fixed::{floor_div, fp_mul, fp_mul_spec, lemma_fp_mul_unit_bounds, FP_ONE};
use crate::rng::{lemma_high_bits_bound, lemma_low_bits_bound, NoiseRng, NoiseRngInput};
use crate::vectors::{IVec2, Vec2};

verus! {

/// The largest coordinate magnitude a segmenter accepts: wide enough for any
/// frequency-scaled sample location.
pub const COORD_MAX: i64 = 3000000000;

/// The largest lattice coordinate a well-formed cell can hold.
pub const LATTICE_MAX: i64 = 0x1_0000_0000;

/// A value carried together with its gradient.
#[derive(Clone, Copy, PartialEq, Eq, Structural, Debug)]
pub struct WithGradient<T, G> {
    /// The value itself.
    pub value: T,
    /// The gradient of the value.
    pub gradient: G,
}

/// Represents a point in some domain `T` that is relevant to a particular
/// segment of that domain.
#[derive(Clone, Copy, PartialEq, Eq, Structural, Debug)]
pub struct SegmentedPoint<T> {
    /// Identifies this point roughly from others; the ids are deterministic
    /// per lattice point, so the same point gets the same id from every
    /// segment that touches it.
    pub rough_id: u32,
    /// The offset from this point to the sample location.
    pub offset: T,
}

/// Represents a portion of some larger domain and a position within it.
pub trait DomainSegment: Sized {
    /// The larger, full domain this is a segment of.
    type Full;

    /// Whether this segment is well formed (lattice coordinates in range,
    /// the in-cell offset inside the unit cell).
    spec fn cell_wf(&self) -> bool;

    /// The rough identity of the segment for a given generator.
    spec fn rough_id_spec(&self, rng: NoiseRng) -> u32;

    /// The points relevant to this segment, in their fixed order.
    spec fn points_spec(&self, rng: NoiseRng) -> Seq<SegmentedPoint<Self::Full>>;

    /// Identifies this segment roughly from others per `rng`; rough means
    /// the ids are not necessarily unique.
    fn rough_id(&self, rng: NoiseRng) -> (r: u32)
        requires
            self.cell_wf(),
        ensures
            r == self.rough_id_spec(rng),
    ;

    /// All the points relevant to this segment.
    fn iter_points(&self, rng: NoiseRng) -> (r: Vec<SegmentedPoint<Self::Full>>)
        requires
            self.cell_wf(),
        ensures
            r@ == self.points_spec(rng),
    ;
}

/// A [`DomainSegment`] whose points all stay within stated per-axis bounds,
/// which Worley (cellular) noise uses to normalize distances into `[0, 1]`.
pub trait WorleyDomainCell: DomainSegment<Full = Vec2> {
    /// The per-axis bound on the offset of the nearest point.
    spec fn nearest_bound_spec(&self) -> i64;

    /// The per-axis bound on the offset of the second-nearest point.
    spec fn next_nearest_bound_spec(&self) -> i64;

    /// The greatest per-axis offset the nearest point can have.
    fn nearest_1d_point_always_within(&self) -> (r: i64)
        ensures
            r == self.nearest_bound_spec(),
    ;

    /// The greatest per-axis offset the second-nearest point can have.
    fn next_nearest_1d_point_always_within(&self) -> (r: i64)
        ensures
            r == self.next_nearest_bound_spec(),
    ;

    /// The shape guarantees of the cell: there are at least two points and
    /// at most sixteen, and every point's offset respects the stated bounds.
    proof fn lemma_points_shape(&self, rng: NoiseRng)
        requires
            self.cell_wf(),
        ensures
            2 <= self.points_spec(rng).len() <= 16,
            1 <= self.nearest_bound_spec() <= 2 * FP_ONE,
            self.nearest_bound_spec() <= self.next_nearest_bound_spec() <= 2 * FP_ONE,
            forall|i: int|
                0 <= i < self.points_spec(rng).len() ==> (#[trigger] self.points_spec(
                    rng,
                )[i]).offset.bounded_by(self.nearest_bound_spec() as int),
    ;
}

/// Represents a type that can segment some domain `T`.
pub trait Segmenter<T>: Sized {
    /// The [`DomainSegment`] this segmenter produces.
    type Segment: DomainSegment<Full = T>;

    /// The coordinates this segmenter is specified for.
    spec fn segment_ok(&self, full: T) -> bool;

    /// The segment a coordinate falls into.
    spec fn segment_spec(&self, full: T) -> Self::Segment;

    /// Constructs the segment containing the location `full`.
    fn segment(&self, full: T) -> (r: Self::Segment)
        requires
            self.segment_ok(full),
        ensures
            r == self.segment_spec(full),
            r.cell_wf(),
    ;

    /// The segment of an acceptable coordinate is well formed, as a fact
    /// about the specification itself.
    proof fn lemma_segment_wf(&self, full: T)
        requires
            self.segment_ok(full),
        ensures
            self.segment_spec(full).cell_wf(),
    ;
}

/// Linear interpolation between two fixed-point values.
pub open spec fn lerp_spec(a: int, b: int, t: int) -> int {
    a + fp_mul_spec(b - a, t)
}

/// Linearly interpolates from `a` (at `t == 0`, exactly) to `b` (at
/// `t == 1`, exactly), never leaving the interval between them.
pub fn lerp(a: i64, b: i64, t: i64) -> (r: i64)
    requires
        -0x4000_0000 <= a <= 0x4000_0000,
        -0x4000_0000 <= b <= 0x4000_0000,
        0 <= t <= FP_ONE,
    ensures
        r == lerp_spec(a as int, b as int, t as int),
        a <= b ==> a <= r <= b,
        b <= a ==> b <= r <= a,
        t == 0 ==> r == a,
        t == FP_ONE ==> r == b,
{
    proof {
        lemma_lerp_range(a as int, b as int, t as int);
    }
    a + fp_mul(b - a, t)
}

/// Interpolation stays within the interval of its endpoints and hits them
/// exactly at the ends of the unit interval.
pub proof fn lemma_lerp_range(a: int, b: int, t: int)
    requires
        -0x4000_0000 <= a <= 0x4000_0000,
        -0x4000_0000 <= b <= 0x4000_0000,
        0 <= t <= FP_ONE,
    ensures
        a <= b ==> a <= lerp_spec(a, b, t) <= b,
        b <= a ==> b <= lerp_spec(a, b, t) <= a,
        t == 0 ==> lerp_spec(a, b, t) == a,
        t == FP_ONE ==> lerp_spec(a, b, t) == b,
{
    if a <= b {
        lemma_fp_mul_unit_bounds(b - a, t, 0, b - a);
    } else {
        lemma_fp_mul_unit_bounds(b - a, t, b - a, 0);
    }
    assert((b - a) * 0 == 0) by (nonlinear_arith);
    if t == FP_ONE {
        assert(((b - a) * FP_ONE) / (FP_ONE as int) == b - a) by (nonlinear_arith);
    }
}

/// Tensor-product interpolation over the four corners of a grid square:
/// first along the second axis on both edges, then along the first axis.
/// The corner order is the one `GridSquare` enumerates.
pub open spec fn interp2_spec(v: Seq<i64>, mx: int, my: int) -> int {
    lerp_spec(
        lerp_spec(v[0] as int, v[1] as int, my),
        lerp_spec(v[2] as int, v[3] as int, my),
        mx,
    )
}

/// Tensor-product interpolation never leaves an interval containing all
/// four corner values.
pub proof fn lemma_interp2_bounds(v: Seq<i64>, mx: int, my: int, lo: int, hi: int)
    requires
        v.len() == 4,
        -0x4000_0000 <= lo <= hi <= 0x4000_0000,
        forall|i: int| 0 <= i < 4 ==> lo <= #[trigger] v[i] <= hi,
        0 <= mx <= FP_ONE,
        0 <= my <= FP_ONE,
    ensures
        lo <= interp2_spec(v, mx, my) <= hi,
{
    lemma_lerp_range(v[0] as int, v[1] as int, my);
    lemma_lerp_range(v[2] as int, v[3] as int, my);
    lemma_lerp_range(
        lerp_spec(v[0] as int, v[1] as int, my),
        lerp_spec(v[2] as int, v[3] as int, my),
        mx,
    );
}

/// Represents a grid square: the cell of an orthogonal unit grid.
#[derive(Clone, Copy, PartialEq, Eq, Structural, Debug)]
pub struct GridSquare<F, I> {
    /// The least corner of this grid square, in lattice coordinates.
    pub floored: I,
    /// The positive offset from [`floored`](Self::floored) to the sample
    /// point, inside the unit cell.
    pub offset: F,
}

/// A [`Segmenter`] that produces [`GridSquare`]s of an orthogonal unit grid.
#[derive(Clone, Copy, PartialEq, Eq, Structural, Debug, Default)]
pub struct Grid;

impl GridSquare<Vec2, IVec2> {
    /// The identity of the corner displaced from the least corner by
    /// `(dx, dy)` whole cells: a pure function of the lattice coordinates.
    pub open spec fn corner_id_spec(&self, rng: NoiseRng, dx: int, dy: int) -> u32 {
        rng.rand_u32_spec(
            IVec2 { x: (self.floored.x + dx) as i64, y: (self.floored.y + dy) as i64 }
                .collapse_spec(),
        )
    }

    /// The segmented point at the corner displaced by `(dx, dy)`: its id,
    /// and the offset from the corner to the sample point.
    pub open spec fn corner_point_spec(&self, rng: NoiseRng, dx: int, dy: int) -> SegmentedPoint<
        Vec2,
    > {
        SegmentedPoint {
            rough_id: self.corner_id_spec(rng, dx, dy),
            offset: Vec2 {
                x: (self.offset.x - dx * FP_ONE) as i64,
                y: (self.offset.y - dy * FP_ONE) as i64,
            },
        }
    }

    /// The segmented point at one corner of this square.
    fn point_at_offset(&self, rng: NoiseRng, dx: i64, dy: i64) -> (r: SegmentedPoint<Vec2>)
        requires
            self.cell_wf(),
            0 <= dx <= 1,
            0 <= dy <= 1,
        ensures
            r == self.corner_point_spec(rng, dx as int, dy as int),
    {
        let corner = IVec2 { x: self.floored.x + dx, y: self.floored.y + dy };
        let rough_id = rng.rand_u32(corner);
        SegmentedPoint {
            rough_id,
            offset: Vec2 { x: self.offset.x - dx * FP_ONE, y: self.offset.y - dy * FP_ONE },
        }
    }

    /// The four corners of this square, in the fixed order: low-low,
    /// low-high, high-low, high-high.
    pub fn corners(&self, rng: NoiseRng) -> (r: [SegmentedPoint<Vec2>; 4])
        requires
            self.cell_wf(),
        ensures
            r@ == self.points_spec(rng),
    {
        let r = [
            self.point_at_offset(rng, 0, 0),
            self.point_at_offset(rng, 0, 1),
            self.point_at_offset(rng, 1, 0),
            self.point_at_offset(rng, 1, 1),
        ];
        proof {
            assert(r@ =~= self.points_spec(rng));
        }
        r
    }

    /// Interpolates between the corner `values` of this square according to
    /// some [`Curve`], blending along each axis in turn. The result never
    /// leaves the interval spanned by the corner values.
    pub fn interpolate_within<C: Curve>(&self, values: &[i64; 4], curve: &C) -> (r: i64)
        requires
            self.cell_wf(),
            forall|i: int| 0 <= i < 4 ==> -0x4000_0000 <= #[trigger] values@[i] <= 0x4000_0000,
        ensures
            r == interp2_spec(
                values@,
                curve.sample_spec(self.offset.x) as int,
                curve.sample_spec(self.offset.y) as int,
            ),
            (forall|i: int| 0 <= i < 4 ==> 0 <= #[trigger] values@[i] <= FP_ONE) ==> 0 <= r
                <= FP_ONE,
            (forall|i: int| 0 <= i < 4 ==> -4 * FP_ONE <= #[trigger] values@[i] <= 4 * FP_ONE)
                ==> -4 * FP_ONE <= r <= 4 * FP_ONE,
    {
        let mix_x = curve.sample_unchecked(self.offset.x);
        let mix_y = curve.sample_unchecked(self.offset.y);
        proof {
            if forall|i: int| 0 <= i < 4 ==> 0 <= #[trigger] values@[i] <= FP_ONE {
                lemma_interp2_bounds(values@, mix_x as int, mix_y as int, 0, FP_ONE as int);
            }
            if forall|i: int|
                0 <= i < 4 ==> -4 * FP_ONE <= #[trigger] values@[i] <= 4 * FP_ONE {
                lemma_interp2_bounds(
                    values@,
                    mix_x as int,
                    mix_y as int,
                    -4 * FP_ONE as int,
                    4 * FP_ONE as int,
                );
            }
        }
        let mix_x2 = mix_x;
        let low_edge = lerp(values[0], values[1], mix_y);
        let high_edge = lerp(values[2], values[3], mix_y);
        lerp(low_edge, high_edge, mix_x2)
    }

    /// The gradient of [`interpolate_within`](Self::interpolate_within) with
    /// respect to the sample location, by the chain rule through the curve.
    pub open spec fn interpolation_gradient_spec(
        &self,
        values: Seq<i64>,
        mx: int,
        my: int,
        dmx: int,
        dmy: int,
    ) -> Vec2 {
        Vec2 {
            x: fp_mul_spec(
                lerp_spec(values[2] - values[0], values[3] - values[1], my),
                dmx,
            ) as i64,
            y: fp_mul_spec(
                lerp_spec(values[1] - values[0], values[3] - values[2], mx),
                dmy,
            ) as i64,
        }
    }

    /// Calculates the gradient vector of the interpolation of `values` over
    /// this square: along each axis, the interpolated difference of the
    /// opposing edge values times the curve's slope on that axis.
    pub fn interpolation_gradient<C: SampleDerivative>(&self, values: &[i64; 4], curve: &C) -> (r:
        Vec2)
        requires
            self.cell_wf(),
            forall|i: int| 0 <= i < 4 ==> -0x2000_0000 <= #[trigger] values@[i] <= 0x2000_0000,
        ensures
            r == self.interpolation_gradient_spec(
                values@,
                curve.sample_spec(self.offset.x) as int,
                curve.sample_spec(self.offset.y) as int,
                curve.derivative_spec(self.offset.x) as int,
                curve.derivative_spec(self.offset.y) as int,
            ),
    {
        let (mx, dmx) = curve.sample_with_derivative_unchecked(self.offset.x);
        let (my, dmy) = curve.sample_with_derivative_unchecked(self.offset.y);
        let diff_x = lerp(values[2] - values[0], values[3] - values[1], my);
        let diff_y = lerp(values[1] - values[0], values[3] - values[2], mx);
        let gx = fp_mul(diff_x, dmx);
        let gy = fp_mul(diff_y, dmy);
        Vec2 { x: gx, y: gy }
    }
}

impl DomainSegment for GridSquare<Vec2, IVec2> {
    type Full = Vec2;

    open spec fn cell_wf(&self) -> bool {
        &&& -LATTICE_MAX <= self.floored.x <= LATTICE_MAX
        &&& -LATTICE_MAX <= self.floored.y <= LATTICE_MAX
        &&& 0 <= self.offset.x < FP_ONE
        &&& 0 <= self.offset.y < FP_ONE
    }

    open spec fn rough_id_spec(&self, rng: NoiseRng) -> u32 {
        rng.rand_u32_spec(self.floored.collapse_spec())
    }

    open spec fn points_spec(&self, rng: NoiseRng) -> Seq<SegmentedPoint<Vec2>> {
        seq![
            self.corner_point_spec(rng, 0, 0),
            self.corner_point_spec(rng, 0, 1),
            self.corner_point_spec(rng, 1, 0),
            self.corner_point_spec(rng, 1, 1),
        ]
    }

    fn rough_id(&self, rng: NoiseRng) -> (r: u32) {
        rng.rand_u32(self.floored)
    }

    fn iter_points(&self, rng: NoiseRng) -> (r: Vec<SegmentedPoint<Vec2>>) {
        let corners = self.corners(rng);
        let mut points = Vec::new();
        points.push(corners[0]);
        points.push(corners[1]);
        points.push(corners[2]);
        points.push(corners[3]);
        proof {
            assert(points@ =~= self.points_spec(rng));
        }
        points
    }
}

impl GridSquare<Vec2, IVec2> {
    /// Each corner's offset stays within one cell of the sample on each axis.
    pub proof fn lemma_corner_bounded(&self, rng: NoiseRng, dx: int, dy: int)
        requires
            self.cell_wf(),
            0 <= dx <= 1,
            0 <= dy <= 1,
        ensures
            self.corner_point_spec(rng, dx, dy).offset.bounded_by(FP_ONE as int),
    {
    }
}

impl WorleyDomainCell for GridSquare<Vec2, IVec2> {
    open spec fn nearest_bound_spec(&self) -> i64 {
        FP_ONE
    }

    open spec fn next_nearest_bound_spec(&self) -> i64 {
        FP_ONE
    }

    fn nearest_1d_point_always_within(&self) -> (r: i64) {
        FP_ONE
    }

    fn next_nearest_1d_point_always_within(&self) -> (r: i64) {
        FP_ONE
    }

    proof fn lemma_points_shape(&self, rng: NoiseRng) {
        assert forall|i: int| 0 <= i < self.points_spec(rng).len() implies (
        #[trigger] self.points_spec(rng)[i]).offset.bounded_by(
            self.nearest_bound_spec() as int,
        ) by {
            if i == 0 {
                self.lemma_corner_bounded(rng, 0, 0);
            } else if i == 1 {
                self.lemma_corner_bounded(rng, 0, 1);
            } else if i == 2 {
                self.lemma_corner_bounded(rng, 1, 0);
            } else {
                self.lemma_corner_bounded(rng, 1, 1);
            }
        }
    }
}

/// The floored cell of an in-range coordinate is well formed.
pub proof fn lemma_grid_cell_wf(full: Vec2)
    requires
        full.bounded_by(COORD_MAX as int),
    ensures
        -LATTICE_MAX <= full.x as int / FP_ONE as int <= LATTICE_MAX,
        -LATTICE_MAX <= full.y as int / FP_ONE as int <= LATTICE_MAX,
        0 <= full.x - (full.x as int / FP_ONE as int) * FP_ONE < FP_ONE,
        0 <= full.y - (full.y as int / FP_ONE as int) * FP_ONE < FP_ONE,
{
    crate::fixed::lemma_floor_div_range(full.x as int, FP_ONE as int, -LATTICE_MAX as int, LATTICE_MAX as int);
    crate::fixed::lemma_floor_div_range(full.y as int, FP_ONE as int, -LATTICE_MAX as int, LATTICE_MAX as int);
    lemma_floor_mod_range(full.x as int);
    lemma_floor_mod_range(full.y as int);
}

/// The remainder a floored cell leaves is the in-cell offset: nonnegative
/// and under one unit.
proof fn lemma_floor_mod_range(n: int)
    ensures
        0 <= n - (n / FP_ONE as int) * FP_ONE < FP_ONE,
{
    assert(0 <= n - (n / 65536int) * 65536 < 65536) by (nonlinear_arith);
}

/// What `Grid` floors a coordinate to.
pub open spec fn grid_cell_spec(full: Vec2) -> GridSquare<Vec2, IVec2> {
    let fx = full.x as int / FP_ONE as int;
    let fy = full.y as int / FP_ONE as int;
    GridSquare {
        floored: IVec2 { x: fx as i64, y: fy as i64 },
        offset: Vec2 { x: (full.x - fx * FP_ONE) as i64, y: (full.y - fy * FP_ONE) as i64 },
    }
}

impl Segmenter<Vec2> for Grid {
    type Segment = GridSquare<Vec2, IVec2>;

    open spec fn segment_ok(&self, full: Vec2) -> bool {
        full.bounded_by(COORD_MAX as int)
    }

    open spec fn segment_spec(&self, full: Vec2) -> GridSquare<Vec2, IVec2> {
        grid_cell_spec(full)
    }

    fn segment(&self, full: Vec2) -> (r: GridSquare<Vec2, IVec2>) {
        proof {
            lemma_grid_cell_wf(full);
        }
        let fx = floor_div(full.x, FP_ONE);
        let fy = floor_div(full.y, FP_ONE);
        let floored = IVec2 { x: fx, y: fy };
        let offset = Vec2 { x: full.x - fx * FP_ONE, y: full.y - fy * FP_ONE };
        GridSquare { floored, offset }
    }

    proof fn lemma_segment_wf(&self, full: Vec2) {
        lemma_grid_cell_wf(full);
    }
}

/// A [`Segmenter`] that jitters each lattice point by a per-point random
/// displacement inside its cell, for Worley (cellular) effects.
#[derive(Clone, Copy, PartialEq, Eq, Structural, Debug, Default)]
pub struct Voronoi;

/// The cell of a [`Voronoi`] segmenter: a grid square whose relevant points
/// are the jittered lattice points of the surrounding three-by-three
/// neighborhood.
#[derive(Clone, Copy, PartialEq, Eq, Structural, Debug)]
pub struct VoronoiCell {
    /// The least corner of the home grid square, in lattice coordinates.
    pub floored: IVec2,
    /// The positive offset from the least corner to the sample point.
    pub offset: Vec2,
}

impl VoronoiCell {
    /// The jittered point anchored at the lattice point displaced by
    /// `(dx, dy)` whole cells: its identity hashes the lattice coordinates
    /// alone, and its jitter comes from that same hash, so neighboring
    /// cells see the same point in the same place.
    pub open spec fn jittered_point_spec(&self, rng: NoiseRng, dx: int, dy: int) -> SegmentedPoint<
        Vec2,
    > {
        let h = rng.rand_u32_spec(
            IVec2 { x: (self.floored.x + dx) as i64, y: (self.floored.y + dy) as i64 }
                .collapse_spec(),
        );
        let jx = (h >> 16) as i64;
        let jy = (h & 0xFFFF) as i64;
        SegmentedPoint {
            rough_id: h,
            offset: Vec2 {
                x: (self.offset.x - (dx * FP_ONE + jx)) as i64,
                y: (self.offset.y - (dy * FP_ONE + jy)) as i64,
            },
        }
    }

    /// Every jittered point of the neighborhood stays within two cells of
    /// the sample on each axis.
    pub proof fn lemma_jittered_point_bounded(&self, rng: NoiseRng, dx: int, dy: int)
        requires
            self.cell_wf(),
            -1 <= dx <= 1,
            -1 <= dy <= 1,
        ensures
            self.jittered_point_spec(rng, dx, dy).offset.bounded_by(2 * FP_ONE as int),
    {
        let h = rng.rand_u32_spec(
            IVec2 { x: (self.floored.x + dx) as i64, y: (self.floored.y + dy) as i64 }
                .collapse_spec(),
        );
        lemma_high_bits_bound(h);
        lemma_low_bits_bound(h);
    }

    /// The jittered point for one neighborhood slot.
    fn jittered_point(&self, rng: NoiseRng, dx: i64, dy: i64) -> (r: SegmentedPoint<Vec2>)
        requires
            self.cell_wf(),
            -1 <= dx <= 1,
            -1 <= dy <= 1,
        ensures
            r == self.jittered_point_spec(rng, dx as int, dy as int),
            r.offset.bounded_by(2 * FP_ONE as int),
    {
        let lattice = IVec2 { x: self.floored.x + dx, y: self.floored.y + dy };
        let h = rng.rand_u32(lattice);
        proof {
            lemma_high_bits_bound(h);
            lemma_low_bits_bound(h);
        }
        let jx = (h >> 16) as i64;
        let jy = (h & 0xFFFF) as i64;
        SegmentedPoint {
            rough_id: h,
            offset: Vec2 {
                x: self.offset.x - (dx * FP_ONE + jx),
                y: self.offset.y - (dy * FP_ONE + jy),
            },
        }
    }
}

impl DomainSegment for VoronoiCell {
    type Full = Vec2;

    open spec fn cell_wf(&self) -> bool {
        &&& -LATTICE_MAX <= self.floored.x <= LATTICE_MAX
        &&& -LATTICE_MAX <= self.floored.y <= LATTICE_MAX
        &&& 0 <= self.offset.x < FP_ONE
        &&& 0 <= self.offset.y < FP_ONE
    }

    open spec fn rough_id_spec(&self, rng: NoiseRng) -> u32 {
        rng.rand_u32_spec(self.floored.collapse_spec())
    }

    open spec fn points_spec(&self, rng: NoiseRng) -> Seq<SegmentedPoint<Vec2>> {
        seq![
            self.jittered_point_spec(rng, -1, -1),
            self.jittered_point_spec(rng, -1, 0),
            self.jittered_point_spec(rng, -1, 1),
            self.jittered_point_spec(rng, 0, -1),
            self.jittered_point_spec(rng, 0, 0),
            self.jittered_point_spec(rng, 0, 1),
            self.jittered_point_spec(rng, 1, -1),
            self.jittered_point_spec(rng, 1, 0),
            self.jittered_point_spec(rng, 1, 1),
        ]
    }

    fn rough_id(&self, rng: NoiseRng) -> (r: u32) {
        rng.rand_u32(self.floored)
    }

    fn iter_points(&self, rng: NoiseRng) -> (r: Vec<SegmentedPoint<Vec2>>) {
        let mut points = Vec::new();
        points.push(self.jittered_point(rng, -1, -1));
        points.push(self.jittered_point(rng, -1, 0));
        points.push(self.jittered_point(rng, -1, 1));
        points.push(self.jittered_point(rng, 0, -1));
        points.push(self.jittered_point(rng, 0, 0));
        points.push(self.jittered_point(rng, 0, 1));
        points.push(self.jittered_point(rng, 1, -1));
        points.push(self.jittered_point(rng, 1, 0));
        points.push(self.jittered_point(rng, 1, 1));
        proof {
            assert(points@ =~= self.points_spec(rng));
        }
        points
    }
}

impl WorleyDomainCell for VoronoiCell {
    open spec fn nearest_bound_spec(&self) -> i64 {
        (2 * FP_ONE) as i64
    }

    open spec fn next_nearest_bound_spec(&self) -> i64 {
        (2 * FP_ONE) as i64
    }

    fn nearest_1d_point_always_within(&self) -> (r: i64) {
        2 * FP_ONE
    }

    fn next_nearest_1d_point_always_within(&self) -> (r: i64) {
        2 * FP_ONE
    }

    #[verifier::rlimit(50)]
    proof fn lemma_points_shape(&self, rng: NoiseRng) {
        assert forall|i: int| 0 <= i < self.points_spec(rng).len() implies (
        #[trigger] self.points_spec(rng)[i]).offset.bounded_by(
            self.nearest_bound_spec() as int,
        ) by {
            if i == 0 {
                self.lemma_jittered_point_bounded(rng, -1, -1);
            } else if i == 1 {
                self.lemma_jittered_point_bounded(rng, -1, 0);
            } else if i == 2 {
                self.lemma_jittered_point_bounded(rng, -1, 1);
            } else if i == 3 {
                self.lemma_jittered_point_bounded(rng, 0, -1);
            } else if i == 4 {
                self.lemma_jittered_point_bounded(rng, 0, 0);
            } else if i == 5 {
                self.lemma_jittered_point_bounded(rng, 0, 1);
            } else if i == 6 {
                self.lemma_jittered_point_bounded(rng, 1, -1);
            } else if i == 7 {
                self.lemma_jittered_point_bounded(rng, 1, 0);
            } else {
                self.lemma_jittered_point_bounded(rng, 1, 1);
            }
        }
    }
}

impl Segmenter<Vec2> for Voronoi {
    type Segment = VoronoiCell;

    open spec fn segment_ok(&self, full: Vec2) -> bool {
        full.bounded_by(COORD_MAX as int)
    }

    open spec fn segment_spec(&self, full: Vec2) -> VoronoiCell {
        let cell = grid_cell_spec(full);
        VoronoiCell { floored: cell.floored, offset: cell.offset }
    }

    fn segment(&self, full: Vec2) -> (r: VoronoiCell) {
        proof {
            lemma_grid_cell_wf(full);
        }
        let fx = floor_div(full.x, FP_ONE);
        let fy = floor_div(full.y, FP_ONE);
        let floored = IVec2 { x: fx, y: fy };
        let offset = Vec2 { x: full.x - fx * FP_ONE, y: full.y - fy * FP_ONE };
        VoronoiCell { floored, offset }
    }

    proof fn lemma_segment_wf(&self, full: Vec2) {
        lemma_grid_cell_wf(full);
    }
}

/// Law: grid interpolation is continuous across a vertical cell boundary.
/// A square interpolated at the far edge of its first axis and the square
/// one cell over interpolated at its near edge blend the two shared corner
/// values the same way, so the two interpolations agree exactly — provided
/// the corner values are shared, which holds whenever they derive from the
/// point identities, since those hash lattice coordinates alone.
pub proof fn lemma_grid_interpolation_continuous(
    left: Seq<i64>,
    right: Seq<i64>,
    my: int,
)
    requires
        left.len() == 4,
        right.len() == 4,
        forall|i: int| 0 <= i < 4 ==> -0x4000_0000 <= #[trigger] left[i] <= 0x4000_0000,
        forall|i: int| 0 <= i < 4 ==> -0x4000_0000 <= #[trigger] right[i] <= 0x4000_0000,
        left[2] == right[0],
        left[3] == right[1],
        0 <= my <= FP_ONE,
    ensures
        interp2_spec(left, FP_ONE as int, my) == interp2_spec(right, 0, my),
{
    lemma_lerp_range(left[0] as int, left[1] as int, my);
    lemma_lerp_range(left[2] as int, left[3] as int, my);
    lemma_lerp_range(
        lerp_spec(left[0] as int, left[1] as int, my),
        lerp_spec(left[2] as int, left[3] as int, my),
        FP_ONE as int,
    );
    lemma_lerp_range(right[0] as int, right[1] as int, my);
    lemma_lerp_range(right[2] as int, right[3] as int, my);
    lemma_lerp_range(
        lerp_spec(right[0] as int, right[1] as int, my),
        lerp_spec(right[2] as int, right[3] as int, my),
        0,
    );
}

} // verus!
