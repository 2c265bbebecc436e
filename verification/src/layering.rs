//! Layering noise on top of noise: fractal octave composition.
//!
//! A layered noise walks an ordered set of operations twice. The prepare
//! pass runs once, at construction: every operation draws its weights and
//! registers them with the result context, so the total expected weight is
//! known before the first sample. The evaluate pass runs per sample: the
//! same operations draw the same weights — the weight generator restarts
//! from the same state — and fold their contributions into a result that
//! normalizes by the precomputed total. The contracts tie both passes to
//! one shared weight specification, so the lockstep cannot drift.

use vstd::prelude::*;

use crate::fixed::{floor_div, fp_mul_spec, lemma_floor_div_range, lemma_mul_le, FP_ONE};
use crate::rng::NoiseRng;
use crate::vectors::Vec2;
use crate::{NoiseFunction, ScalableInput};

verus! {

/// The greatest weight a single octave may carry.
pub const WEIGHT_MAX: i64 = 0x100_0000_0000;

/// The greatest total weight a result context may register.
pub const TOTAL_WEIGHT_MAX: i64 = 0x1000_0000_0000;

/// The greatest magnitude an octave's contribution value may have.
pub const LAYER_VALUE_MAX: i64 = 262144;

/// Specifies that this generates configurable weights for layers of noise.
/// Drawing a weight is a pure step: the weight drawn and the state left
/// behind are functions of the state alone.
pub trait NoiseWeights: Sized {
    /// Whether the state is within its working range.
    spec fn weights_wf(&self) -> bool;

    /// The weight the next draw returns.
    spec fn weight_now(&self) -> i64;

    /// The state after one draw.
    spec fn advanced(&self) -> Self;

    /// Generates the weight of the next layer of noise.
    fn next_weight(&mut self) -> (r: i64)
        requires
            old(self).weights_wf(),
        ensures
            r == old(self).weight_now(),
            *final(self) == old(self).advanced(),
            final(self).weights_wf(),
            0 <= r <= WEIGHT_MAX,
    ;

    /// The facts `next_weight` promises, at the specification level.
    proof fn lemma_weight_step(&self)
        requires
            self.weights_wf(),
        ensures
            0 <= self.weight_now() <= WEIGHT_MAX,
            self.advanced().weights_wf(),
    ;
}

/// Provides a user-facing view of some [`NoiseWeights`]: the settings from
/// which each pass restarts its weight generator.
pub trait NoiseWeightsSettings: Sized {
    /// The kind of [`NoiseWeights`] produced by these settings.
    type Weights: NoiseWeights;

    /// Whether the settings are within their working range.
    spec fn settings_wf(&self) -> bool;

    /// The starting generator state.
    spec fn start_weights_spec(&self) -> Self::Weights;

    /// Prepares a new [`NoiseWeights`] for another pass. Every pass gets
    /// the same starting state, which is what keeps the prepare and
    /// evaluate passes in lockstep.
    fn start_weights(&self) -> (r: Self::Weights)
        requires
            self.settings_wf(),
        ensures
            r == self.start_weights_spec(),
            r.weights_wf(),
    ;
}

/// This represents the context of some noise result: the state precomputed
/// once, before sampling, that each sample's accumulator starts from.
pub trait NoiseResultContext: Sized {
    /// The type that actually accumulates the result based on this context.
    type Result: NoiseResult;

    /// Whether the context is within its working range.
    spec fn context_wf(&self) -> bool;

    /// The total weight registered so far.
    spec fn total_weight(&self) -> i64;

    /// The context after registering one more expected weight.
    spec fn with_expected(&self, weight: i64) -> Self;

    /// The accumulator a fresh sample starts from.
    spec fn start_result_spec(&self) -> Self::Result;

    /// Informs the context that this much weight is expected, so the total
    /// is precomputed before any sampling.
    fn expect_weight(&mut self, weight: i64)
        requires
            old(self).context_wf(),
            0 <= weight <= WEIGHT_MAX,
            old(self).total_weight() + weight <= TOTAL_WEIGHT_MAX,
        ensures
            *final(self) == old(self).with_expected(weight),
            final(self).context_wf(),
            final(self).total_weight() == old(self).total_weight() + weight,
    ;

    /// Based on this context, creates a result that can start accumulating.
    fn start_result(&self) -> (r: Self::Result)
        requires
            self.context_wf(),
        ensures
            r == self.start_result_spec(),
            r.result_wf(),
            r.consumed_weight() == 0,
    ;
}

/// Represents a working result of a noise sample.
pub trait NoiseResult: Sized {
    /// The type the result finishes to.
    type Output;

    /// Whether the accumulator is within its working range.
    spec fn result_wf(&self) -> bool;

    /// The weight of the contributions folded in so far.
    spec fn consumed_weight(&self) -> int;

    /// The accumulator after adding weight that was never registered.
    spec fn with_unexpected(&self, weight: i64) -> Self;

    /// What finishing produces from a generator state.
    spec fn finish_spec(&self, rng: NoiseRng) -> (Self::Output, NoiseRng);

    /// Informs the result that `weight` will be included even though it was
    /// not registered during the prepare pass.
    fn add_unexpected_weight_to_total(&mut self, weight: i64)
        requires
            old(self).result_wf(),
            0 <= weight <= WEIGHT_MAX,
        ensures
            *final(self) == old(self).with_unexpected(weight),
            final(self).result_wf(),
            final(self).consumed_weight() == old(self).consumed_weight(),
    ;

    /// Collapses all accumulated contributions into a finished product.
    fn finish(self, rng: &mut NoiseRng) -> (r: Self::Output)
        requires
            self.result_wf(),
        ensures
            (r, *final(rng)) == self.finish_spec(*old(rng)),
    ;
}

/// Specifies that this [`NoiseResult`] can include values of type `V`.
pub trait NoiseResultFor<V>: NoiseResult {
    /// The values this accumulator accepts.
    spec fn value_ok(&self, value: V) -> bool;

    /// Whether this much more weight still fits under the registered total.
    spec fn room_for(&self, amount: int) -> bool;

    /// The accumulator after folding in one weighted contribution.
    spec fn with_value(&self, value: V, weight: i64) -> Self;

    /// Includes `value` in the final result at this `weight`. The weight
    /// must have been registered (or added as unexpected) beforehand.
    fn include_value(&mut self, value: V, weight: i64)
        requires
            old(self).result_wf(),
            old(self).value_ok(value),
            0 <= weight <= WEIGHT_MAX,
            old(self).room_for(weight as int),
        ensures
            *final(self) == old(self).with_value(value, weight),
            final(self).result_wf(),
            final(self).consumed_weight() == old(self).consumed_weight() + weight,
    ;

    /// The facts `include_value` promises, at the specification level.
    proof fn lemma_with_value(&self, value: V, weight: i64)
        requires
            self.result_wf(),
            self.value_ok(value),
            0 <= weight <= WEIGHT_MAX,
            self.room_for(weight as int),
        ensures
            self.with_value(value, weight).result_wf(),
            self.with_value(value, weight).consumed_weight() == self.consumed_weight() + weight,
    ;
}

/// A [`NoiseFunction`] whose scalar output always stays within the layer
/// value range, which lets it serve as an octave of a layered noise.
pub trait BoundedNoise<I>: NoiseFunction<I, Output = i64> {
    /// The output bound, at the specification level.
    proof fn lemma_output_bounded(&self, input: I, rng: NoiseRng)
        requires
            self.in_domain(input, rng),
        ensures
            -LAYER_VALUE_MAX <= self.eval_spec(input, rng).0 <= LAYER_VALUE_MAX,
    ;
}

/// An operation that contributes to some layered noise result. `R` is how
/// the result is collected; `W` is how each layer is weighted. The prepare
/// pass and the evaluate pass both walk the operation, and both are
/// specified by the same weight fold, so weight `i` of one pass is weight
/// `i` of the other.
pub trait NoiseOperation<R: NoiseResultContext, W: NoiseWeights>: Sized {
    /// Whether the operation's own configuration is within range.
    spec fn op_wf(&self) -> bool;

    /// The weight state after this operation has drawn all its weights.
    spec fn weights_after(&self, w: W) -> W;

    /// The total weight this operation draws, starting from `w`.
    spec fn weight_sum(&self, w: W) -> int;

    /// The context after this operation's prepare pass.
    spec fn prepared(&self, ctx: R, w: W) -> R;

    /// The weight drawn is never negative.
    proof fn lemma_weight_sum_nonneg(&self, w: W)
        requires
            self.op_wf(),
            w.weights_wf(),
        ensures
            self.weight_sum(w) >= 0,
            self.weights_after(w).weights_wf(),
    ;

    /// Prepares the result context for this noise: a dry run that draws the
    /// weights and registers each with the context.
    fn prepare(&self, result_context: &mut R, weights: &mut W)
        requires
            self.op_wf(),
            old(result_context).context_wf(),
            old(weights).weights_wf(),
            old(result_context).total_weight() + self.weight_sum(*old(weights))
                <= TOTAL_WEIGHT_MAX,
        ensures
            *final(result_context) == self.prepared(*old(result_context), *old(weights)),
            *final(weights) == self.weights_after(*old(weights)),
            final(result_context).context_wf(),
            final(weights).weights_wf(),
            final(result_context).total_weight() == old(result_context).total_weight()
                + self.weight_sum(*old(weights)),
    ;
}

/// Specifies that this [`NoiseOperation`] can be evaluated on type `I`.
pub trait NoiseOperationFor<I, R: NoiseResultContext, W: NoiseWeights>: NoiseOperation<
    R,
    W,
> {
    /// The states this operation is specified for: every inner noise
    /// function is in its domain and the accumulator has room for every
    /// weight the operation will draw.
    spec fn do_ok(&self, seeds: NoiseRng, loc: I, result: R::Result, w: W) -> bool;

    /// The state after the operation: generator, working location,
    /// accumulator and weight state together.
    spec fn applied(&self, seeds: NoiseRng, loc: I, result: R::Result, w: W) -> (
        NoiseRng,
        I,
        R::Result,
        W,
    );

    /// The evaluate pass consumes exactly the weight the prepare pass
    /// registered, and advances the weight state the same way.
    proof fn lemma_applied_accounting(&self, seeds: NoiseRng, loc: I, result: R::Result, w: W)
        requires
            self.op_wf(),
            result.result_wf(),
            w.weights_wf(),
            self.do_ok(seeds, loc, result, w),
        ensures
            self.applied(seeds, loc, result, w).2.consumed_weight() == result.consumed_weight()
                + self.weight_sum(w),
            self.applied(seeds, loc, result, w).3 == self.weights_after(w),
            self.applied(seeds, loc, result, w).2.result_wf(),
            self.applied(seeds, loc, result, w).3.weights_wf(),
    ;

    /// Performs the noise operation: evaluates the wrapped noise at the
    /// working location and folds the weighted contribution into `result`.
    fn do_noise_op(
        &self,
        seeds: &mut NoiseRng,
        working_loc: &mut I,
        result: &mut R::Result,
        weights: &mut W,
    )
        requires
            self.op_wf(),
            old(result).result_wf(),
            old(weights).weights_wf(),
            self.do_ok(*old(seeds), *old(working_loc), *old(result), *old(weights)),
        ensures
            (*final(seeds), *final(working_loc), *final(result), *final(weights)) == self.applied(
                *old(seeds),
                *old(working_loc),
                *old(result),
                *old(weights),
            ),
            final(result).result_wf(),
            final(weights).weights_wf(),
    ;
}

/// A [`NoiseWeightsSettings`] for geometrically decaying weights. Values
/// greater than one make later octaves weigh more; values less than one
/// make earlier octaves weigh more; exactly one weighs all equally.
#[derive(Clone, Copy, PartialEq, Eq, Structural, Debug)]
pub struct Persistence(pub i64);

/// The starting weight of a persistence sequence: large, to keep precision
/// when many octaves are summed and later divided by the total.
pub const PERSISTENCE_START_WEIGHT: i64 = 65536000;

/// The greatest persistence factor accepted: sixteen.
pub const PERSISTENCE_MAX: i64 = 1048576;

/// The [`NoiseWeights`] for [`Persistence`]: each draw returns the running
/// weight and multiplies it by the persistence factor, capping at the
/// weight range so the sequence stays within machine bounds.
#[derive(Clone, Copy, PartialEq, Eq, Structural, Debug)]
pub struct PersistenceWeights {
    /// The decay factor.
    pub persistence: Persistence,
    /// The weight the next draw returns.
    pub next: i64,
}

impl NoiseWeights for PersistenceWeights {
    open spec fn weights_wf(&self) -> bool {
        0 <= self.next <= WEIGHT_MAX && 0 <= self.persistence.0 <= PERSISTENCE_MAX
    }

    open spec fn weight_now(&self) -> i64 {
        self.next
    }

    open spec fn advanced(&self) -> PersistenceWeights {
        let stepped = fp_mul_spec(self.next as int, self.persistence.0 as int);
        PersistenceWeights {
            persistence: self.persistence,
            next: if stepped > WEIGHT_MAX {
                WEIGHT_MAX
            } else {
                stepped as i64
            },
        }
    }

    fn next_weight(&mut self) -> (r: i64) {
        let result = self.next;
        proof {
            lemma_mul_le(
                self.next as int,
                self.persistence.0 as int,
                WEIGHT_MAX as int,
                PERSISTENCE_MAX as int,
            );
            lemma_floor_div_range(
                self.next as int * self.persistence.0 as int,
                FP_ONE as int,
                0,
                0x100_0000_0000_0000,
            );
        }
        let stepped = floor_div(self.next * self.persistence.0, FP_ONE);
        self.next = if stepped > WEIGHT_MAX {
            WEIGHT_MAX
        } else {
            stepped
        };
        result
    }

    proof fn lemma_weight_step(&self) {
        lemma_mul_le(
            self.next as int,
            self.persistence.0 as int,
            WEIGHT_MAX as int,
            PERSISTENCE_MAX as int,
        );
        lemma_floor_div_range(
            self.next as int * self.persistence.0 as int,
            FP_ONE as int,
            0,
            0x100_0000_0000_0000,
        );
    }
}

impl NoiseWeightsSettings for Persistence {
    type Weights = PersistenceWeights;

    open spec fn settings_wf(&self) -> bool {
        0 <= self.0 <= PERSISTENCE_MAX
    }

    open spec fn start_weights_spec(&self) -> PersistenceWeights {
        PersistenceWeights { persistence: *self, next: PERSISTENCE_START_WEIGHT }
    }

    fn start_weights(&self) -> (r: PersistenceWeights) {
        PersistenceWeights { persistence: *self, next: PERSISTENCE_START_WEIGHT }
    }
}

/// This will normalize the collected contributions into a weighted average.
/// This is a good default for most layered noise.
#[derive(Clone, Copy, PartialEq, Eq, Structural, Debug)]
pub struct Normed {
    /// The total expected weight, registered by the prepare pass.
    pub total_weights: i64,
}

impl Default for Normed {
    /// A fresh context with no weight registered yet.
    fn default() -> (r: Self)
        ensures
            r == (Normed { total_weights: 0 }),
    {
        Normed { total_weights: 0 }
    }
}

/// The in-progress result of a [`Normed`] layering: the weighted running
/// total, the registered total, and (as ghost state) the weight consumed.
#[derive(Clone, Copy)]
pub struct NormedResult {
    /// The total expected weight.
    pub total_weights: i64,
    /// The running weighted sum of contributions.
    pub running_total: i64,
    /// How much weight has been folded in so far.
    pub consumed: Ghost<int>,
}

impl NoiseResultContext for Normed {
    type Result = NormedResult;

    open spec fn context_wf(&self) -> bool {
        0 <= self.total_weights <= TOTAL_WEIGHT_MAX
    }

    open spec fn total_weight(&self) -> i64 {
        self.total_weights
    }

    open spec fn with_expected(&self, weight: i64) -> Normed {
        Normed { total_weights: (self.total_weights + weight) as i64 }
    }

    open spec fn start_result_spec(&self) -> NormedResult {
        NormedResult { total_weights: self.total_weights, running_total: 0, consumed: Ghost(0) }
    }

    fn expect_weight(&mut self, weight: i64) {
        self.total_weights = self.total_weights + weight;
    }

    fn start_result(&self) -> (r: NormedResult) {
        NormedResult { total_weights: self.total_weights, running_total: 0, consumed: Ghost(0) }
    }
}

/// What a [`NormedResult`] finishes to: the running total divided by the
/// registered total weight, or zero when nothing was registered.
pub open spec fn normed_finish_spec(total_weights: i64, running_total: i64) -> i64 {
    if total_weights <= 0 {
        0
    } else {
        ((running_total * FP_ONE) / (total_weights as int)) as i64
    }
}

impl NoiseResult for NormedResult {
    type Output = i64;

    open spec fn result_wf(&self) -> bool {
        &&& 0 <= self.total_weights <= TOTAL_WEIGHT_MAX
        &&& 0 <= self.consumed@ <= self.total_weights
        &&& -4 * self.consumed@ <= self.running_total <= 4 * self.consumed@
    }

    open spec fn consumed_weight(&self) -> int {
        self.consumed@
    }

    open spec fn with_unexpected(&self, weight: i64) -> NormedResult {
        NormedResult {
            total_weights: if self.total_weights + weight <= TOTAL_WEIGHT_MAX {
                (self.total_weights + weight) as i64
            } else {
                TOTAL_WEIGHT_MAX
            },
            running_total: self.running_total,
            consumed: self.consumed,
        }
    }

    open spec fn finish_spec(&self, rng: NoiseRng) -> (i64, NoiseRng) {
        (normed_finish_spec(self.total_weights, self.running_total), rng)
    }

    fn add_unexpected_weight_to_total(&mut self, weight: i64) {
        if self.total_weights + weight <= TOTAL_WEIGHT_MAX {
            self.total_weights = self.total_weights + weight;
        } else {
            self.total_weights = TOTAL_WEIGHT_MAX;
        }
    }

    fn finish(self, rng: &mut NoiseRng) -> (r: i64) {
        if self.total_weights <= 0 {
            0
        } else {
            proof {
                assert(-0x4000_0000_0000_0000 <= self.running_total as int * FP_ONE
                    <= 0x4000_0000_0000_0000) by (nonlinear_arith)
                    requires
                        -4 * TOTAL_WEIGHT_MAX <= self.running_total <= 4 * TOTAL_WEIGHT_MAX,
                        FP_ONE == 65536,
                        TOTAL_WEIGHT_MAX == 0x1000_0000_0000,
                ;
            }
            floor_div(self.running_total * FP_ONE, self.total_weights)
        }
    }
}

impl NoiseResultFor<i64> for NormedResult {
    open spec fn value_ok(&self, value: i64) -> bool {
        -LAYER_VALUE_MAX <= value <= LAYER_VALUE_MAX
    }

    open spec fn room_for(&self, amount: int) -> bool {
        self.consumed@ + amount <= self.total_weights
    }

    open spec fn with_value(&self, value: i64, weight: i64) -> NormedResult {
        NormedResult {
            total_weights: self.total_weights,
            running_total: (self.running_total + fp_mul_spec(value as int, weight as int)) as i64,
            consumed: Ghost(self.consumed@ + weight),
        }
    }

    fn include_value(&mut self, value: i64, weight: i64) {
        proof {
            lemma_contribution_bounds(value as int, weight as int);
        }
        let contribution = floor_div(value * weight, FP_ONE);
        self.running_total = self.running_total + contribution;
        self.consumed = Ghost(self.consumed@ + weight);
    }

    proof fn lemma_with_value(&self, value: i64, weight: i64) {
        lemma_contribution_bounds(value as int, weight as int);
    }
}

/// A weighted contribution stays within four times its weight, because the
/// value itself stays within four units.
proof fn lemma_contribution_bounds(value: int, weight: int)
    requires
        -LAYER_VALUE_MAX <= value <= LAYER_VALUE_MAX,
        0 <= weight <= WEIGHT_MAX,
    ensures
        -0x1000_0000_0000_0000 <= value * weight <= 0x1000_0000_0000_0000,
        -4 * weight <= fp_mul_spec(value, weight) <= 4 * weight,
{
    assert(-(4 * weight * FP_ONE) <= value * weight <= 4 * weight * FP_ONE
        && -0x1000_0000_0000_0000 <= value * weight <= 0x1000_0000_0000_0000)
        by (nonlinear_arith)
        requires
            -LAYER_VALUE_MAX <= value <= LAYER_VALUE_MAX,
            0 <= weight <= WEIGHT_MAX,
            LAYER_VALUE_MAX == 4 * FP_ONE,
            FP_ONE == 65536,
            WEIGHT_MAX == 0x100_0000_0000,
    ;
    lemma_floor_div_range(value * weight, FP_ONE as int, -4 * weight, 4 * weight);
}

/// Represents a [`NoiseOperationFor`] that contributes one octave to the
/// result via a noise function.
#[derive(Clone, Copy, PartialEq, Eq, Structural, Debug, Default)]
pub struct Octave<T>(pub T);

impl<T, R: NoiseResultContext, W: NoiseWeights> NoiseOperation<R, W> for Octave<T> {
    open spec fn op_wf(&self) -> bool {
        true
    }

    open spec fn weights_after(&self, w: W) -> W {
        w.advanced()
    }

    open spec fn weight_sum(&self, w: W) -> int {
        w.weight_now() as int
    }

    open spec fn prepared(&self, ctx: R, w: W) -> R {
        ctx.with_expected(w.weight_now())
    }

    proof fn lemma_weight_sum_nonneg(&self, w: W) {
        w.lemma_weight_step();
    }

    fn prepare(&self, result_context: &mut R, weights: &mut W) {
        let w = weights.next_weight();
        result_context.expect_weight(w);
    }
}

impl<
    T: BoundedNoise<Vec2>,
    R: NoiseResultContext<Result: NoiseResultFor<i64>>,
    W: NoiseWeights,
> NoiseOperationFor<Vec2, R, W> for Octave<T> {
    open spec fn do_ok(&self, seeds: NoiseRng, loc: Vec2, result: R::Result, w: W) -> bool {
        &&& self.0.in_domain(loc, seeds)
        &&& result.value_ok(self.0.eval_spec(loc, seeds).0)
        &&& result.room_for(w.weight_now() as int)
    }

    open spec fn applied(&self, seeds: NoiseRng, loc: Vec2, result: R::Result, w: W) -> (
        NoiseRng,
        Vec2,
        R::Result,
        W,
    ) {
        let (value, seeds_mid) = self.0.eval_spec(loc, seeds);
        (
            seeds_mid.re_seed_spec(),
            loc,
            result.with_value(value, w.weight_now()),
            w.advanced(),
        )
    }

    proof fn lemma_applied_accounting(&self, seeds: NoiseRng, loc: Vec2, result: R::Result, w: W) {
        w.lemma_weight_step();
        result.lemma_with_value(self.0.eval_spec(loc, seeds).0, w.weight_now());
    }

    fn do_noise_op(
        &self,
        seeds: &mut NoiseRng,
        working_loc: &mut Vec2,
        result: &mut R::Result,
        weights: &mut W,
    ) {
        let octave_result = self.0.evaluate(*working_loc, seeds);
        let w = weights.next_weight();
        result.include_value(octave_result, w);
        seeds.re_seed();
    }
}

/// Represents a [`NoiseOperationFor`] that repeats an inner operation a
/// fixed number of times, scaling the working location by the lacunarity
/// factor between repetitions, so each successive octave samples at a
/// higher frequency.
#[derive(Clone, Copy, PartialEq, Eq, Structural, Debug)]
pub struct FractalOctaves<T> {
    /// The operation to repeat.
    pub octave: T,
    /// The frequency multiplier applied between octaves.
    pub lacunarity: i64,
    /// The number of times to do this octave.
    pub octaves: u32,
}

/// The weight state after `n` repetitions of an operation.
pub open spec fn fractal_weights_after<T: NoiseOperation<R, W>, R: NoiseResultContext, W: NoiseWeights>(
    op: T,
    w: W,
    n: int,
) -> W
    decreases n,
{
    if n <= 0 {
        w
    } else {
        fractal_weights_after(op, op.weights_after(w), n - 1)
    }
}

/// The total weight drawn by `n` repetitions of an operation.
pub open spec fn fractal_weight_sum<T: NoiseOperation<R, W>, R: NoiseResultContext, W: NoiseWeights>(
    op: T,
    w: W,
    n: int,
) -> int
    decreases n,
{
    if n <= 0 {
        0
    } else {
        op.weight_sum(w) + fractal_weight_sum(op, op.weights_after(w), n - 1)
    }
}

/// The context after `n` prepare passes of an operation.
pub open spec fn fractal_prepared<T: NoiseOperation<R, W>, R: NoiseResultContext, W: NoiseWeights>(
    op: T,
    ctx: R,
    w: W,
    n: int,
) -> R
    decreases n,
{
    if n <= 0 {
        ctx
    } else {
        fractal_prepared(op, op.prepared(ctx, w), op.weights_after(w), n - 1)
    }
}

/// The sum of `n` draws is nonnegative, and the weight state stays well
/// formed throughout.
proof fn lemma_fractal_weight_sum_nonneg<T: NoiseOperation<R, W>, R: NoiseResultContext, W: NoiseWeights>(
    op: T,
    w: W,
    n: int,
)
    requires
        op.op_wf(),
        w.weights_wf(),
    ensures
        fractal_weight_sum(op, w, n) >= 0,
        fractal_weights_after(op, w, n).weights_wf(),
    decreases n,
{
    if n <= 0 {
    } else {
        op.lemma_weight_sum_nonneg(w);
        lemma_fractal_weight_sum_nonneg(op, op.weights_after(w), n - 1);
    }
}

impl<T: NoiseOperation<R, W>, R: NoiseResultContext, W: NoiseWeights> NoiseOperation<R, W>
    for FractalOctaves<T> {
    open spec fn op_wf(&self) -> bool {
        &&& self.octave.op_wf()
        &&& 0 <= self.lacunarity <= crate::fixed::FP_FACTOR_MAX
        &&& 1 <= self.octaves <= 64
    }

    open spec fn weights_after(&self, w: W) -> W {
        fractal_weights_after(self.octave, w, self.octaves as int)
    }

    open spec fn weight_sum(&self, w: W) -> int {
        fractal_weight_sum(self.octave, w, self.octaves as int)
    }

    open spec fn prepared(&self, ctx: R, w: W) -> R {
        fractal_prepared(self.octave, ctx, w, self.octaves as int)
    }

    proof fn lemma_weight_sum_nonneg(&self, w: W) {
        lemma_fractal_weight_sum_nonneg(self.octave, w, self.octaves as int);
    }

    fn prepare(&self, result_context: &mut R, weights: &mut W) {
        let ghost ctx0 = *result_context;
        let ghost w0 = *weights;
        let ghost n = self.octaves as int;
        let mut i: u32 = 0;
        while i < self.octaves
            invariant
                0 <= i <= self.octaves,
                self.op_wf(),
                result_context.context_wf(),
                weights.weights_wf(),
                fractal_prepared(self.octave, *result_context, *weights, n - i) == fractal_prepared(
                    self.octave,
                    ctx0,
                    w0,
                    n,
                ),
                fractal_weights_after(self.octave, *weights, n - i) == fractal_weights_after(
                    self.octave,
                    w0,
                    n,
                ),
                result_context.total_weight() + fractal_weight_sum(self.octave, *weights, n - i)
                    == ctx0.total_weight() + fractal_weight_sum(self.octave, w0, n),
                ctx0.total_weight() + fractal_weight_sum(self.octave, w0, n) <= TOTAL_WEIGHT_MAX,
                n == self.octaves as int,
            decreases self.octaves - i,
        {
            proof {
                self.octave.lemma_weight_sum_nonneg(*weights);
                lemma_fractal_weight_sum_nonneg(
                    self.octave,
                    self.octave.weights_after(*weights),
                    n - i - 1,
                );
            }
            self.octave.prepare(result_context, weights);
            i += 1;
        }
    }
}

/// The state reached by the repetitions after the first: scale the
/// location, apply the operation, and repeat.
pub open spec fn fractal_tail_applied<
    T: NoiseOperationFor<Vec2, R, W>,
    R: NoiseResultContext,
    W: NoiseWeights,
>(op: T, lacunarity: i64, state: (NoiseRng, Vec2, R::Result, W), m: int) -> (
    NoiseRng,
    Vec2,
    R::Result,
    W,
)
    decreases m,
{
    if m <= 0 {
        state
    } else {
        let scaled = state.1.scaled_spec(lacunarity as int);
        fractal_tail_applied(
            op,
            lacunarity,
            op.applied(state.0, scaled, state.2, state.3),
            m - 1,
        )
    }
}

/// Whether the repetitions after the first stay within specification.
pub open spec fn fractal_tail_ok<
    T: NoiseOperationFor<Vec2, R, W>,
    R: NoiseResultContext,
    W: NoiseWeights,
>(op: T, lacunarity: i64, state: (NoiseRng, Vec2, R::Result, W), m: int) -> bool
    decreases m,
{
    if m <= 0 {
        true
    } else {
        let scaled = state.1.scaled_spec(lacunarity as int);
        &&& state.1.scalable(lacunarity as int)
        &&& op.do_ok(state.0, scaled, state.2, state.3)
        &&& fractal_tail_ok(
            op,
            lacunarity,
            op.applied(state.0, scaled, state.2, state.3),
            m - 1,
        )
    }
}

/// The tail repetitions account their weights exactly, by induction over
/// the inner operation's own accounting.
proof fn lemma_fractal_tail_accounting<
    T: NoiseOperationFor<Vec2, R, W>,
    R: NoiseResultContext,
    W: NoiseWeights,
>(op: T, lacunarity: i64, state: (NoiseRng, Vec2, R::Result, W), m: int)
    requires
        op.op_wf(),
        state.2.result_wf(),
        state.3.weights_wf(),
        fractal_tail_ok(op, lacunarity, state, m),
    ensures
        fractal_tail_applied(op, lacunarity, state, m).2.consumed_weight()
            == state.2.consumed_weight() + fractal_weight_sum(op, state.3, m),
        fractal_tail_applied(op, lacunarity, state, m).3 == fractal_weights_after(
            op,
            state.3,
            m,
        ),
        fractal_tail_applied(op, lacunarity, state, m).2.result_wf(),
        fractal_tail_applied(op, lacunarity, state, m).3.weights_wf(),
    decreases m,
{
    if m <= 0 {
    } else {
        let scaled = state.1.scaled_spec(lacunarity as int);
        op.lemma_applied_accounting(state.0, scaled, state.2, state.3);
        lemma_fractal_tail_accounting(
            op,
            lacunarity,
            op.applied(state.0, scaled, state.2, state.3),
            m - 1,
        );
    }
}

impl<
    T: NoiseOperationFor<Vec2, R, W>,
    R: NoiseResultContext,
    W: NoiseWeights,
> NoiseOperationFor<Vec2, R, W> for FractalOctaves<T> {
    open spec fn do_ok(&self, seeds: NoiseRng, loc: Vec2, result: R::Result, w: W) -> bool {
        &&& self.octave.do_ok(seeds, loc, result, w)
        &&& fractal_tail_ok(
            self.octave,
            self.lacunarity,
            self.octave.applied(seeds, loc, result, w),
            self.octaves as int - 1,
        )
    }

    open spec fn applied(&self, seeds: NoiseRng, loc: Vec2, result: R::Result, w: W) -> (
        NoiseRng,
        Vec2,
        R::Result,
        W,
    ) {
        fractal_tail_applied(
            self.octave,
            self.lacunarity,
            self.octave.applied(seeds, loc, result, w),
            self.octaves as int - 1,
        )
    }

    proof fn lemma_applied_accounting(&self, seeds: NoiseRng, loc: Vec2, result: R::Result, w: W) {
        self.octave.lemma_applied_accounting(seeds, loc, result, w);
        lemma_fractal_tail_accounting(
            self.octave,
            self.lacunarity,
            self.octave.applied(seeds, loc, result, w),
            self.octaves as int - 1,
        );
    }

    fn do_noise_op(
        &self,
        seeds: &mut NoiseRng,
        working_loc: &mut Vec2,
        result: &mut R::Result,
        weights: &mut W,
    ) {
        let ghost s0 = (*old(seeds), *old(working_loc), *old(result), *old(weights));
        self.octave.do_noise_op(seeds, working_loc, result, weights);
        let ghost s1 = self.octave.applied(s0.0, s0.1, s0.2, s0.3);
        let ghost n = self.octaves as int;
        let mut i: u32 = 1;
        while i < self.octaves
            invariant
                1 <= i <= self.octaves,
                self.op_wf(),
                result.result_wf(),
                weights.weights_wf(),
                fractal_tail_applied(
                    self.octave,
                    self.lacunarity,
                    (*seeds, *working_loc, *result, *weights),
                    n - i,
                ) == fractal_tail_applied(self.octave, self.lacunarity, s1, n - 1),
                fractal_tail_ok(
                    self.octave,
                    self.lacunarity,
                    (*seeds, *working_loc, *result, *weights),
                    n - i,
                ),
                n == self.octaves as int,
            decreases self.octaves - i,
        {
            let scaled = working_loc.scaled(self.lacunarity);
            *working_loc = scaled;
            self.octave.do_noise_op(seeds, working_loc, result, weights);
            i += 1;
        }
    }
}

/// Represents a [`NoiseFunction`] built from layers of noise operations.
#[derive(Clone, Copy, PartialEq, Eq, Structural, Debug)]
pub struct LayeredNoise<R, W, N> {
    /// The result context, already prepared: it knows the total weight.
    pub result_context: R,
    /// The weight settings each sample restarts from.
    pub weight_settings: W,
    /// The ordered noise operations.
    pub noise: N,
}

impl<R: NoiseResultContext, W: NoiseWeightsSettings, N: NoiseOperation<R, W::Weights>>
    LayeredNoise<R, W, N> {
    /// Constructs a layered noise from these values, running the prepare
    /// pass once so the total expected weight is known before the first
    /// sample.
    pub fn new(result_settings: R, weight_settings: W, noise: N) -> (r: Self)
        requires
            noise.op_wf(),
            result_settings.context_wf(),
            weight_settings.settings_wf(),
            result_settings.total_weight() + noise.weight_sum(
                weight_settings.start_weights_spec(),
            ) <= TOTAL_WEIGHT_MAX,
        ensures
            r.noise == noise,
            r.weight_settings == weight_settings,
            r.result_context == noise.prepared(
                result_settings,
                weight_settings.start_weights_spec(),
            ),
            r.result_context.context_wf(),
            r.result_context.total_weight() == result_settings.total_weight() + noise.weight_sum(
                weight_settings.start_weights_spec(),
            ),
    {
        let mut result_context = result_settings;
        let mut weights = weight_settings.start_weights();
        noise.prepare(&mut result_context, &mut weights);
        LayeredNoise { result_context, weight_settings, noise }
    }
}

impl<
    R: NoiseResultContext,
    W: NoiseWeightsSettings,
    N: NoiseOperationFor<Vec2, R, W::Weights>,
> NoiseFunction<Vec2> for LayeredNoise<R, W, N> {
    type Output = <R::Result as NoiseResult>::Output;

    open spec fn in_domain(&self, input: Vec2, rng: NoiseRng) -> bool {
        &&& self.noise.op_wf()
        &&& self.weight_settings.settings_wf()
        &&& self.result_context.context_wf()
        &&& self.result_context.start_result_spec().result_wf()
        &&& self.weight_settings.start_weights_spec().weights_wf()
        &&& self.noise.do_ok(
            rng,
            input,
            self.result_context.start_result_spec(),
            self.weight_settings.start_weights_spec(),
        )
    }

    open spec fn eval_spec(&self, input: Vec2, rng: NoiseRng) -> (
        <R::Result as NoiseResult>::Output,
        NoiseRng,
    ) {
        let state = self.noise.applied(
            rng,
            input,
            self.result_context.start_result_spec(),
            self.weight_settings.start_weights_spec(),
        );
        state.2.finish_spec(state.0)
    }

    fn evaluate(&self, input: Vec2, seeds: &mut NoiseRng) -> (out: <R::Result as NoiseResult>::Output) {
        let mut weights = self.weight_settings.start_weights();
        let mut result = self.result_context.start_result();
        let mut working_loc = input;
        self.noise.do_noise_op(seeds, &mut working_loc, &mut result, &mut weights);
        result.finish(seeds)
    }
}

/// Law: layering conserves weight. For a layered noise whose context was
/// prepared from a fresh total, the evaluate pass consumes exactly the
/// weight the prepare pass registered — the weights match draw for draw,
/// so their sums match too.
pub proof fn lemma_layered_weight_conservation<
    R: NoiseResultContext,
    W: NoiseWeightsSettings,
    N: NoiseOperationFor<Vec2, R, W::Weights>,
>(layered: LayeredNoise<R, W, N>, input: Vec2, rng: NoiseRng)
    requires
        layered.in_domain(input, rng),
    ensures
        ({
            let state = layered.noise.applied(
                rng,
                input,
                layered.result_context.start_result_spec(),
                layered.weight_settings.start_weights_spec(),
            );
            state.2.consumed_weight()
                == layered.result_context.start_result_spec().consumed_weight()
                + layered.noise.weight_sum(layered.weight_settings.start_weights_spec())
        }),
{
    layered.noise.lemma_applied_accounting(
        rng,
        input,
        layered.result_context.start_result_spec(),
        layered.weight_settings.start_weights_spec(),
    );
}

/// Law: normalization is the identity on a single octave. A normalized
/// result that registered one weight and folded in one contribution at
/// that same weight finishes to exactly that contribution's value — the
/// weight cancels — for the canonical starting weight.
pub proof fn lemma_normed_single_octave_identity(value: i64, rng: NoiseRng)
    requires
        -LAYER_VALUE_MAX <= value <= LAYER_VALUE_MAX,
    ensures
        ({
            let ctx = Normed { total_weights: 0 }.with_expected(PERSISTENCE_START_WEIGHT);
            let accumulated = ctx.start_result_spec().with_value(
                value,
                PERSISTENCE_START_WEIGHT,
            );
            accumulated.finish_spec(rng) == (value, rng)
        }),
{
    let w = PERSISTENCE_START_WEIGHT as int;
    let k = FP_ONE as int;
    assert((value as int * w) / k == 1000 * value) by (nonlinear_arith)
        requires
            w == 65536000,
            k == 65536,
    ;
    assert((1000 * value as int * k) / w == value) by (nonlinear_arith)
        requires
            w == 65536000,
            k == 65536,
            -262144 <= value <= 262144,
    ;
}

/// Law: a normalized result is bounded. Whatever the contributions were,
/// the finished value of a well-formed normalized accumulator stays within
/// four units, because every contribution was bounded by four times its
/// weight.
pub proof fn lemma_normed_finish_bounded(result: NormedResult, rng: NoiseRng)
    requires
        result.result_wf(),
    ensures
        -4 * FP_ONE <= result.finish_spec(rng).0 <= 4 * FP_ONE,
{
    if result.total_weights > 0 {
        let t = result.total_weights as int;
        let k = FP_ONE as int;
        assert(-4 * k * t <= result.running_total as int * k <= 4 * k * t) by (nonlinear_arith)
            requires
                -4 * t <= result.running_total <= 4 * t,
                k == 65536,
                t >= 1,
        ;
        lemma_floor_div_range(result.running_total as int * k, t, -4 * k, 4 * k);
    }
}

impl<I, T0: NoiseFunction<I>, T1: BoundedNoise<T0::Output>> BoundedNoise<I> for (T0, T1) {
    proof fn lemma_output_bounded(&self, input: I, rng: NoiseRng) {
        let (mid, r1) = self.0.eval_spec(input, rng);
        self.1.lemma_output_bounded(mid, r1);
    }
}

impl BoundedNoise<i64> for crate::math_noise::SNormToUNorm {
    proof fn lemma_output_bounded(&self, input: i64, rng: NoiseRng) {
    }
}

impl BoundedNoise<i64> for crate::math_noise::UNormToSNorm {
    proof fn lemma_output_bounded(&self, input: i64, rng: NoiseRng) {
    }
}

impl<
    P: crate::segments::Segmenter<
        Vec2,
        Segment = crate::segments::GridSquare<Vec2, crate::vectors::IVec2>,
    >,
    C: crate::curves::Curve,
    N: crate::rng::FastRandomMixed,
> BoundedNoise<Vec2> for crate::cell_noise::MixCellValues<P, C, N> {
    proof fn lemma_output_bounded(&self, input: Vec2, rng: NoiseRng) {
        let cell = self.cells.segment_spec(input);
        let raws = self.raw_values_spec(input, rng);
        self.cells.lemma_segment_wf(input);
        self.curve.lemma_sample_props(cell.offset.x);
        self.curve.lemma_sample_props(cell.offset.y);
        assert forall|i: int| 0 <= i < 4 implies 0 <= #[trigger] raws[i] <= FP_ONE by {
            self.noise.lemma_raw_value_bounded(
                crate::segments::DomainSegment::points_spec(&cell, rng)[i].rough_id,
            );
        }
        crate::segments::lemma_interp2_bounds(
            raws,
            self.curve.sample_spec(cell.offset.x) as int,
            self.curve.sample_spec(cell.offset.y) as int,
            0,
            FP_ONE as int,
        );
        self.noise.lemma_finish_bounded(
            crate::segments::interp2_spec(
                raws,
                self.curve.sample_spec(cell.offset.x) as int,
                self.curve.sample_spec(cell.offset.y) as int,
            ) as i64,
        );
    }
}

impl<
    P: crate::segments::Segmenter<
        Vec2,
        Segment = crate::segments::GridSquare<Vec2, crate::vectors::IVec2>,
    >,
    C: crate::curves::Curve,
> BoundedNoise<Vec2> for crate::cell_noise::MixCellGradients<
    P,
    C,
    crate::cell_noise::QuickGradients,
> {
    proof fn lemma_output_bounded(&self, input: Vec2, rng: NoiseRng) {
        let cell = self.cells.segment_spec(input);
        self.cells.lemma_segment_wf(input);
        self.curve.lemma_sample_props(cell.offset.x);
        self.curve.lemma_sample_props(cell.offset.y);
        crate::cell_noise::lemma_mix_cell_gradients_bounded(
            *self,
            input,
            rng,
            self.curve.sample_spec(cell.offset.x) as int,
            self.curve.sample_spec(cell.offset.y) as int,
        );
    }
}

impl<R: NoiseResultContext, W: NoiseWeights, T0: NoiseOperation<R, W>> NoiseOperation<R, W>
    for (T0,) {
    open spec fn op_wf(&self) -> bool {
        self.0.op_wf()
    }

    open spec fn weights_after(&self, w: W) -> W {
        self.0.weights_after(w)
    }

    open spec fn weight_sum(&self, w: W) -> int {
        self.0.weight_sum(w)
    }

    open spec fn prepared(&self, ctx: R, w: W) -> R {
        self.0.prepared(ctx, w)
    }

    proof fn lemma_weight_sum_nonneg(&self, w: W) {
        self.0.lemma_weight_sum_nonneg(w);
    }

    fn prepare(&self, result_context: &mut R, weights: &mut W) {
        self.0.prepare(result_context, weights);
    }
}

impl<I, R: NoiseResultContext, W: NoiseWeights, T0: NoiseOperationFor<I, R, W>>
    NoiseOperationFor<I, R, W> for (T0,) {
    open spec fn do_ok(&self, seeds: NoiseRng, loc: I, result: R::Result, w: W) -> bool {
        self.0.do_ok(seeds, loc, result, w)
    }

    open spec fn applied(&self, seeds: NoiseRng, loc: I, result: R::Result, w: W) -> (
        NoiseRng,
        I,
        R::Result,
        W,
    ) {
        self.0.applied(seeds, loc, result, w)
    }

    proof fn lemma_applied_accounting(&self, seeds: NoiseRng, loc: I, result: R::Result, w: W) {
        self.0.lemma_applied_accounting(seeds, loc, result, w);
    }

    fn do_noise_op(
        &self,
        seeds: &mut NoiseRng,
        working_loc: &mut I,
        result: &mut R::Result,
        weights: &mut W,
    ) {
        self.0.do_noise_op(seeds, working_loc, result, weights);
    }
}

impl<
    R: NoiseResultContext,
    W: NoiseWeights,
    T0: NoiseOperation<R, W>,
    T1: NoiseOperation<R, W>,
> NoiseOperation<R, W> for (T0, T1) {
    open spec fn op_wf(&self) -> bool {
        self.0.op_wf() && self.1.op_wf()
    }

    open spec fn weights_after(&self, w: W) -> W {
        self.1.weights_after(self.0.weights_after(w))
    }

    open spec fn weight_sum(&self, w: W) -> int {
        self.0.weight_sum(w) + self.1.weight_sum(self.0.weights_after(w))
    }

    open spec fn prepared(&self, ctx: R, w: W) -> R {
        self.1.prepared(self.0.prepared(ctx, w), self.0.weights_after(w))
    }

    proof fn lemma_weight_sum_nonneg(&self, w: W) {
        self.0.lemma_weight_sum_nonneg(w);
        self.1.lemma_weight_sum_nonneg(self.0.weights_after(w));
    }

    fn prepare(&self, result_context: &mut R, weights: &mut W) {
        proof {
            self.0.lemma_weight_sum_nonneg(*weights);
            self.1.lemma_weight_sum_nonneg(self.0.weights_after(*weights));
        }
        self.0.prepare(result_context, weights);
        self.1.prepare(result_context, weights);
    }
}

impl<
    I,
    R: NoiseResultContext,
    W: NoiseWeights,
    T0: NoiseOperationFor<I, R, W>,
    T1: NoiseOperationFor<I, R, W>,
> NoiseOperationFor<I, R, W> for (T0, T1) {
    open spec fn do_ok(&self, seeds: NoiseRng, loc: I, result: R::Result, w: W) -> bool {
        let mid = self.0.applied(seeds, loc, result, w);
        self.0.do_ok(seeds, loc, result, w) && self.1.do_ok(mid.0, mid.1, mid.2, mid.3)
    }

    open spec fn applied(&self, seeds: NoiseRng, loc: I, result: R::Result, w: W) -> (
        NoiseRng,
        I,
        R::Result,
        W,
    ) {
        let mid = self.0.applied(seeds, loc, result, w);
        self.1.applied(mid.0, mid.1, mid.2, mid.3)
    }

    proof fn lemma_applied_accounting(&self, seeds: NoiseRng, loc: I, result: R::Result, w: W) {
        let mid = self.0.applied(seeds, loc, result, w);
        self.0.lemma_applied_accounting(seeds, loc, result, w);
        self.1.lemma_applied_accounting(mid.0, mid.1, mid.2, mid.3);
    }

    fn do_noise_op(
        &self,
        seeds: &mut NoiseRng,
        working_loc: &mut I,
        result: &mut R::Result,
        weights: &mut W,
    ) {
        self.0.do_noise_op(seeds, working_loc, result, weights);
        self.1.do_noise_op(seeds, working_loc, result, weights);
    }
}

impl<R: NoiseResultContext, W: NoiseWeights> NoiseOperation<R, W> for () {
    open spec fn op_wf(&self) -> bool {
        true
    }

    open spec fn weights_after(&self, w: W) -> W {
        w
    }

    open spec fn weight_sum(&self, w: W) -> int {
        0
    }

    open spec fn prepared(&self, ctx: R, w: W) -> R {
        ctx
    }

    proof fn lemma_weight_sum_nonneg(&self, w: W) {
    }

    fn prepare(&self, result_context: &mut R, weights: &mut W) {
    }
}

impl<I, R: NoiseResultContext, W: NoiseWeights> NoiseOperationFor<I, R, W> for () {
    open spec fn do_ok(&self, seeds: NoiseRng, loc: I, result: R::Result, w: W) -> bool {
        true
    }

    open spec fn applied(&self, seeds: NoiseRng, loc: I, result: R::Result, w: W) -> (
        NoiseRng,
        I,
        R::Result,
        W,
    ) {
        (seeds, loc, result, w)
    }

    proof fn lemma_applied_accounting(&self, seeds: NoiseRng, loc: I, result: R::Result, w: W) {
    }

    fn do_noise_op(
        &self,
        seeds: &mut NoiseRng,
        working_loc: &mut I,
        result: &mut R::Result,
        weights: &mut W,
    ) {
    }
}

/// A [`NoiseOperationFor`] that warps the domain: it evaluates an inner
/// noise function that returns a displacement vector and adds it, scaled by
/// a strength factor, to the working location — before the operations that
/// follow in the same layer. It draws no weight and contributes no value.
#[derive(Clone, Copy, PartialEq, Eq, Structural, Debug)]
pub struct DomainWarp<T> {
    /// The noise function producing the displacement.
    pub warper: T,
    /// The fixed-point strength of the displacement.
    pub strength: i64,
}

impl<T, R: NoiseResultContext, W: NoiseWeights> NoiseOperation<R, W> for DomainWarp<T> {
    open spec fn op_wf(&self) -> bool {
        -crate::fixed::FP_FACTOR_MAX <= self.strength <= crate::fixed::FP_FACTOR_MAX
    }

    open spec fn weights_after(&self, w: W) -> W {
        w
    }

    open spec fn weight_sum(&self, w: W) -> int {
        0
    }

    open spec fn prepared(&self, ctx: R, w: W) -> R {
        ctx
    }

    proof fn lemma_weight_sum_nonneg(&self, w: W) {
    }

    fn prepare(&self, result_context: &mut R, weights: &mut W) {
    }
}

impl<
    T: NoiseFunction<Vec2, Output = Vec2>,
    R: NoiseResultContext,
    W: NoiseWeights,
> NoiseOperationFor<Vec2, R, W> for DomainWarp<T> {
    open spec fn do_ok(&self, seeds: NoiseRng, loc: Vec2, result: R::Result, w: W) -> bool {
        let off = self.warper.eval_spec(loc, seeds).0;
        let shifted = off.scale_spec(self.strength as int);
        &&& self.warper.in_domain(loc, seeds)
        &&& off.bounded_by(crate::fixed::FP_FACTOR_MAX as int)
        &&& i64::MIN <= loc.x + shifted.x <= i64::MAX
        &&& i64::MIN <= loc.y + shifted.y <= i64::MAX
    }

    open spec fn applied(&self, seeds: NoiseRng, loc: Vec2, result: R::Result, w: W) -> (
        NoiseRng,
        Vec2,
        R::Result,
        W,
    ) {
        let (off, seeds_after) = self.warper.eval_spec(loc, seeds);
        let shifted = off.scale_spec(self.strength as int);
        (
            seeds_after,
            Vec2 { x: (loc.x + shifted.x) as i64, y: (loc.y + shifted.y) as i64 },
            result,
            w,
        )
    }

    proof fn lemma_applied_accounting(&self, seeds: NoiseRng, loc: Vec2, result: R::Result, w: W) {
    }

    fn do_noise_op(
        &self,
        seeds: &mut NoiseRng,
        working_loc: &mut Vec2,
        result: &mut R::Result,
        weights: &mut W,
    ) {
        let off = self.warper.evaluate(*working_loc, seeds);
        let shifted = off.scale(self.strength);
        let moved = working_loc.add(shifted);
        *working_loc = moved;
    }
}

} // verus!
