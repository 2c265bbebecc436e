//! Merging several noise values into one.

use vstd::prelude::*;

use crate::fixed::{floor_div, fp_div_spec, lemma_floor_div_range, FP_ONE};

verus! {

/// Defines a type that can order values of `I` by mapping each to a number.
pub trait Orderer<I>: Sized {
    /// The values this orderer is specified for.
    spec fn order_ok(&self, value: I) -> bool;

    /// The ordering number of a value.
    spec fn ordering_of_spec(&self, value: I) -> i64;

    /// The final output derived from an ordering number.
    spec fn relative_spec(&self, ordering: i64) -> i64;

    /// Maps the value to a number for its ordering.
    fn ordering_of(&self, value: &I) -> (r: i64)
        requires
            self.order_ok(*value),
        ensures
            r == self.ordering_of_spec(*value),
            0 <= r <= 0x1_0000_0000,
    ;

    /// Maps an ordering number to an output. This is useful when the final
    /// order is slower to compute than one that merely preserves it.
    fn relative_ordering(&self, ordering: i64) -> (r: i64)
        requires
            0 <= ordering <= 0x1_0000_0000,
        ensures
            r == self.relative_spec(ordering),
    ;
}

/// Defines a type that can weigh values of `I` relative to other weights.
pub trait WeightFactorer<I>: Sized {
    /// The values this factorer is specified for.
    spec fn weigh_ok(&self, value: I) -> bool;

    /// The weight of a value.
    spec fn weight_of_spec(&self, value: I) -> i64;

    /// The output of weighing a value at a relative weight.
    spec fn weigh_value_spec(&self, value: I, relative_weight: i64) -> i64;

    /// Calculates the weight of the given value.
    fn weight_of(&self, value: &I) -> (r: i64)
        requires
            self.weigh_ok(*value),
        ensures
            r == self.weight_of_spec(*value),
            0 <= r <= 0x1_0000_0000,
    ;

    /// Given a value and its relative weight in the unit interval, converts
    /// the value to the output.
    fn weigh_value(&self, value: I, relative_weight: i64) -> (r: i64)
        requires
            self.weigh_ok(value),
            0 <= relative_weight <= FP_ONE,
        ensures
            r == self.weigh_value_spec(value, relative_weight),
            -FP_ONE <= r <= FP_ONE,
    ;
}

/// The unit orderer: a fixed-point value in the unit interval orders and
/// outputs as itself.
impl Orderer<i64> for () {
    open spec fn order_ok(&self, value: i64) -> bool {
        0 <= value <= FP_ONE
    }

    open spec fn ordering_of_spec(&self, value: i64) -> i64 {
        value
    }

    open spec fn relative_spec(&self, ordering: i64) -> i64 {
        ordering
    }

    fn ordering_of(&self, value: &i64) -> (r: i64) {
        *value
    }

    fn relative_ordering(&self, ordering: i64) -> (r: i64) {
        ordering
    }
}

/// The unit weigher: a fixed-point value in the unit interval weighs as
/// itself, and weighing returns the relative weight.
impl WeightFactorer<i64> for () {
    open spec fn weigh_ok(&self, value: i64) -> bool {
        0 <= value <= FP_ONE
    }

    open spec fn weight_of_spec(&self, value: i64) -> i64 {
        value
    }

    open spec fn weigh_value_spec(&self, value: i64, relative_weight: i64) -> i64 {
        relative_weight
    }

    fn weight_of(&self, value: &i64) -> (r: i64) {
        *value
    }

    fn weigh_value(&self, value: i64, relative_weight: i64) -> (r: i64) {
        relative_weight
    }
}

/// Allows merging any number of values of `I` into one output.
pub trait Merger<I>: Sized {
    /// The merged output.
    type Output;

    /// The inputs this merger is specified for.
    spec fn merge_ok(&self, vals: Seq<I>) -> bool;

    /// The merged result.
    spec fn merge_spec(&self, vals: Seq<I>) -> Self::Output;

    /// Merges the values into one output.
    fn merge(&self, vals: &Vec<I>) -> (r: Self::Output)
        requires
            self.merge_ok(vals@),
        ensures
            r == self.merge_spec(vals@),
    ;
}

/// The value among the first `k` with the least ordering number, ties going
/// to the earliest, exactly as a forward scan selects it.
pub open spec fn least_upto<T: Orderer<I>, I>(orderer: T, vals: Seq<I>, k: int) -> I
    decreases k,
{
    if k <= 1 {
        vals[0]
    } else {
        let prev = least_upto(orderer, vals, k - 1);
        if orderer.ordering_of_spec(vals[k - 1]) < orderer.ordering_of_spec(prev) {
            vals[k - 1]
        } else {
            prev
        }
    }
}

/// The value among the first `k` with the greatest ordering number, ties
/// going to the earliest.
pub open spec fn greatest_upto<T: Orderer<I>, I>(orderer: T, vals: Seq<I>, k: int) -> I
    decreases k,
{
    if k <= 1 {
        vals[0]
    } else {
        let prev = greatest_upto(orderer, vals, k - 1);
        if orderer.ordering_of_spec(vals[k - 1]) > orderer.ordering_of_spec(prev) {
            vals[k - 1]
        } else {
            prev
        }
    }
}

/// The selected least value is one of the values, and no value orders
/// below it.
pub proof fn lemma_least_upto_props<T: Orderer<I>, I>(orderer: T, vals: Seq<I>, k: int)
    requires
        1 <= k <= vals.len(),
    ensures
        exists|i: int| 0 <= i < k && least_upto(orderer, vals, k) == #[trigger] vals[i],
        forall|j: int|
            0 <= j < k ==> orderer.ordering_of_spec(least_upto(orderer, vals, k))
                <= orderer.ordering_of_spec(#[trigger] vals[j]),
    decreases k,
{
    if k == 1 {
        assert(least_upto(orderer, vals, 1) == vals[0]);
    } else {
        lemma_least_upto_props(orderer, vals, k - 1);
        assert(least_upto(orderer, vals, k) == vals[k - 1] || least_upto(orderer, vals, k)
            == least_upto(orderer, vals, k - 1));
    }
}

/// The selected greatest value is one of the values, and no value orders
/// above it.
pub proof fn lemma_greatest_upto_props<T: Orderer<I>, I>(orderer: T, vals: Seq<I>, k: int)
    requires
        1 <= k <= vals.len(),
    ensures
        exists|i: int| 0 <= i < k && greatest_upto(orderer, vals, k) == #[trigger] vals[i],
        forall|j: int|
            0 <= j < k ==> orderer.ordering_of_spec(greatest_upto(orderer, vals, k))
                >= orderer.ordering_of_spec(#[trigger] vals[j]),
    decreases k,
{
    if k == 1 {
        assert(greatest_upto(orderer, vals, 1) == vals[0]);
    } else {
        lemma_greatest_upto_props(orderer, vals, k - 1);
        assert(greatest_upto(orderer, vals, k) == vals[k - 1] || greatest_upto(orderer, vals, k)
            == greatest_upto(orderer, vals, k - 1));
    }
}

/// A merger that selects the value with the least ordering number.
#[derive(Clone, Copy, PartialEq, Eq, Structural, Debug, Default)]
pub struct Min<T>(pub T);

impl<I: Copy, T: Orderer<I>> Merger<I> for Min<T> {
    type Output = I;

    open spec fn merge_ok(&self, vals: Seq<I>) -> bool {
        1 <= vals.len() <= 64 && forall|i: int|
            0 <= i < vals.len() ==> self.0.order_ok(#[trigger] vals[i])
    }

    open spec fn merge_spec(&self, vals: Seq<I>) -> I {
        least_upto(self.0, vals, vals.len() as int)
    }

    fn merge(&self, vals: &Vec<I>) -> (r: I) {
        let mut best: I = vals[0];
        let mut best_ord = self.0.ordering_of(&best);
        let mut i: usize = 1;
        while i < vals.len()
            invariant
                1 <= i <= vals@.len() <= 64,
                forall|j: int| 0 <= j < vals@.len() ==> self.0.order_ok(#[trigger] vals@[j]),
                best == least_upto(self.0, vals@, i as int),
                best_ord == self.0.ordering_of_spec(best),
            decreases vals@.len() - i,
        {
            let ord = self.0.ordering_of(&vals[i]);
            if ord < best_ord {
                best = vals[i];
                best_ord = ord;
            }
            i += 1;
        }
        best
    }
}

/// A merger that selects the output of the least ordering number.
#[derive(Clone, Copy, PartialEq, Eq, Structural, Debug, Default)]
pub struct MinOrder<T>(pub T);

impl<I: Copy, T: Orderer<I>> Merger<I> for MinOrder<T> {
    type Output = i64;

    open spec fn merge_ok(&self, vals: Seq<I>) -> bool {
        1 <= vals.len() <= 64 && forall|i: int|
            0 <= i < vals.len() ==> self.0.order_ok(#[trigger] vals[i])
    }

    open spec fn merge_spec(&self, vals: Seq<I>) -> i64 {
        self.0.relative_spec(
            self.0.ordering_of_spec(least_upto(self.0, vals, vals.len() as int)),
        )
    }

    fn merge(&self, vals: &Vec<I>) -> (r: i64) {
        let mut best: I = vals[0];
        let mut best_ord = self.0.ordering_of(&best);
        let mut i: usize = 1;
        while i < vals.len()
            invariant
                1 <= i <= vals@.len() <= 64,
                forall|j: int| 0 <= j < vals@.len() ==> self.0.order_ok(#[trigger] vals@[j]),
                best == least_upto(self.0, vals@, i as int),
                best_ord == self.0.ordering_of_spec(best),
                0 <= best_ord <= 0x1_0000_0000,
            decreases vals@.len() - i,
        {
            let ord = self.0.ordering_of(&vals[i]);
            if ord < best_ord {
                best = vals[i];
                best_ord = ord;
            }
            i += 1;
        }
        self.0.relative_ordering(best_ord)
    }
}

/// A merger that selects the value with the greatest ordering number.
#[derive(Clone, Copy, PartialEq, Eq, Structural, Debug, Default)]
pub struct Max<T>(pub T);

impl<I: Copy, T: Orderer<I>> Merger<I> for Max<T> {
    type Output = I;

    open spec fn merge_ok(&self, vals: Seq<I>) -> bool {
        1 <= vals.len() <= 64 && forall|i: int|
            0 <= i < vals.len() ==> self.0.order_ok(#[trigger] vals[i])
    }

    open spec fn merge_spec(&self, vals: Seq<I>) -> I {
        greatest_upto(self.0, vals, vals.len() as int)
    }

    fn merge(&self, vals: &Vec<I>) -> (r: I) {
        let mut best: I = vals[0];
        let mut best_ord = self.0.ordering_of(&best);
        let mut i: usize = 1;
        while i < vals.len()
            invariant
                1 <= i <= vals@.len() <= 64,
                forall|j: int| 0 <= j < vals@.len() ==> self.0.order_ok(#[trigger] vals@[j]),
                best == greatest_upto(self.0, vals@, i as int),
                best_ord == self.0.ordering_of_spec(best),
            decreases vals@.len() - i,
        {
            let ord = self.0.ordering_of(&vals[i]);
            if ord > best_ord {
                best = vals[i];
                best_ord = ord;
            }
            i += 1;
        }
        best
    }
}

/// A merger that selects the output of the greatest ordering number.
#[derive(Clone, Copy, PartialEq, Eq, Structural, Debug, Default)]
pub struct MaxOrder<T>(pub T);

impl<I: Copy, T: Orderer<I>> Merger<I> for MaxOrder<T> {
    type Output = i64;

    open spec fn merge_ok(&self, vals: Seq<I>) -> bool {
        1 <= vals.len() <= 64 && forall|i: int|
            0 <= i < vals.len() ==> self.0.order_ok(#[trigger] vals[i])
    }

    open spec fn merge_spec(&self, vals: Seq<I>) -> i64 {
        self.0.relative_spec(
            self.0.ordering_of_spec(greatest_upto(self.0, vals, vals.len() as int)),
        )
    }

    fn merge(&self, vals: &Vec<I>) -> (r: i64) {
        let mut best: I = vals[0];
        let mut best_ord = self.0.ordering_of(&best);
        let mut i: usize = 1;
        while i < vals.len()
            invariant
                1 <= i <= vals@.len() <= 64,
                forall|j: int| 0 <= j < vals@.len() ==> self.0.order_ok(#[trigger] vals@[j]),
                best == greatest_upto(self.0, vals@, i as int),
                best_ord == self.0.ordering_of_spec(best),
                0 <= best_ord <= 0x1_0000_0000,
            decreases vals@.len() - i,
        {
            let ord = self.0.ordering_of(&vals[i]);
            if ord > best_ord {
                best = vals[i];
                best_ord = ord;
            }
            i += 1;
        }
        self.0.relative_ordering(best_ord)
    }
}

/// The sum of the weights of the first `k` values.
pub open spec fn weights_total_upto<T: WeightFactorer<I>, I>(
    factorer: T,
    vals: Seq<I>,
    k: int,
) -> int
    decreases k,
{
    if k <= 0 {
        0
    } else {
        weights_total_upto(factorer, vals, k - 1) + factorer.weight_of_spec(vals[k - 1])
    }
}

/// The sum of the weighed outputs of the first `k` values, each weighed by
/// its share of the (nonzero) total.
pub open spec fn weighed_sum_upto<T: WeightFactorer<I>, I>(
    factorer: T,
    vals: Seq<I>,
    total: i64,
    k: int,
) -> int
    decreases k,
{
    if k <= 0 {
        0
    } else {
        weighed_sum_upto(factorer, vals, total, k - 1) + factorer.weigh_value_spec(
            vals[k - 1],
            fp_div_spec(factorer.weight_of_spec(vals[k - 1]) as int, total as int) as i64,
        )
    }
}

/// Partial weight totals of acceptable values stay within range.
proof fn lemma_weights_total_bounds<T: WeightFactorer<I>, I>(factorer: T, vals: Seq<I>, k: int)
    requires
        0 <= k <= vals.len() <= 64,
        forall|i: int|
            0 <= i < vals.len() ==> 0 <= #[trigger] factorer.weight_of_spec(vals[i])
                <= 0x1_0000_0000,
    ensures
        0 <= weights_total_upto(factorer, vals, k) <= k * 0x1_0000_0000,
    decreases k,
{
    if k > 0 {
        lemma_weights_total_bounds(factorer, vals, k - 1);
    }
}

/// Every single weight is at most the total of all of them.
proof fn lemma_weights_total_dominates<T: WeightFactorer<I>, I>(factorer: T, vals: Seq<I>, k: int)
    requires
        0 <= k <= vals.len() <= 64,
        forall|i: int|
            0 <= i < vals.len() ==> 0 <= #[trigger] factorer.weight_of_spec(vals[i])
                <= 0x1_0000_0000,
    ensures
        forall|j: int|
            0 <= j < k ==> #[trigger] factorer.weight_of_spec(vals[j]) <= weights_total_upto(
                factorer,
                vals,
                k,
            ),
    decreases k,
{
    if k > 0 {
        lemma_weights_total_dominates(factorer, vals, k - 1);
        lemma_weights_total_bounds(factorer, vals, k - 1);
    }
}

/// A merger that merges values by assigning each a share of the total
/// weight. When the total weight is zero every share is zero.
#[derive(Clone, Copy, PartialEq, Eq, Structural, Debug, Default)]
pub struct Weighted<T>(pub T);

/// The weighted merge: each value weighed by its share of the total, or
/// zero when the total weight degenerates to zero.
pub open spec fn weighted_merge_spec<T: WeightFactorer<I>, I>(factorer: T, vals: Seq<I>) -> i64 {
    let total = weights_total_upto(factorer, vals, vals.len() as int);
    if total <= 0 {
        0
    } else {
        weighed_sum_upto(factorer, vals, total as i64, vals.len() as int) as i64
    }
}

impl<I: Copy, T: WeightFactorer<I>> Merger<I> for Weighted<T> {
    type Output = i64;

    open spec fn merge_ok(&self, vals: Seq<I>) -> bool {
        &&& 1 <= vals.len() <= 64
        &&& forall|i: int| 0 <= i < vals.len() ==> self.0.weigh_ok(#[trigger] vals[i])
        &&& forall|i: int|
            0 <= i < vals.len() ==> 0 <= #[trigger] self.0.weight_of_spec(vals[i])
                <= 0x1_0000_0000
    }

    open spec fn merge_spec(&self, vals: Seq<I>) -> i64 {
        weighted_merge_spec(self.0, vals)
    }

    fn merge(&self, vals: &Vec<I>) -> (r: i64) {
        let mut total: i64 = 0;
        let mut i: usize = 0;
        while i < vals.len()
            invariant
                0 <= i <= vals@.len() <= 64,
                forall|j: int| 0 <= j < vals@.len() ==> self.0.weigh_ok(#[trigger] vals@[j]),
                forall|j: int|
                    0 <= j < vals@.len() ==> 0 <= #[trigger] self.0.weight_of_spec(vals@[j])
                        <= 0x1_0000_0000,
                total == weights_total_upto(self.0, vals@, i as int),
                0 <= total <= 0x1_0000_0000 * (i as int),
            decreases vals@.len() - i,
        {
            let w = self.0.weight_of(&vals[i]);
            proof {
                assert((i as int) * 0x1_0000_0000 + 0x1_0000_0000 == (i as int + 1)
                    * 0x1_0000_0000) by (nonlinear_arith);
            }
            total = total + w;
            i += 1;
        }
        if total <= 0 {
            return 0;
        }
        proof {
            lemma_weights_total_dominates(self.0, vals@, vals@.len() as int);
        }
        let mut sum: i64 = 0;
        let mut i: usize = 0;
        while i < vals.len()
            invariant
                0 <= i <= vals@.len() <= 64,
                forall|j: int| 0 <= j < vals@.len() ==> self.0.weigh_ok(#[trigger] vals@[j]),
                forall|j: int|
                    0 <= j < vals@.len() ==> 0 <= #[trigger] self.0.weight_of_spec(vals@[j])
                        <= 0x1_0000_0000,
                1 <= total <= 0x1_0000_0000_0000,
                total == weights_total_upto(self.0, vals@, vals@.len() as int),
                forall|j: int|
                    0 <= j < vals@.len() ==> #[trigger] self.0.weight_of_spec(vals@[j]) <= total,
                sum == weighed_sum_upto(self.0, vals@, total, i as int),
                -65536 * (i as int) <= sum <= 65536 * (i as int),
            decreases vals@.len() - i,
        {
            let w = self.0.weight_of(&vals[i]);
            proof {
                lemma_floor_div_range(w as int * FP_ONE, total as int, 0, FP_ONE as int);
            }
            let relative = floor_div(w * FP_ONE, total);
            let local = self.0.weigh_value(vals[i], relative);
            sum = sum + local;
            i += 1;
        }
        sum
    }
}

/// Marks a collection as being able to be merged: it exposes its parts and
/// hands them to any compatible [`Merger`].
pub trait Mergeable: Sized {
    /// The kind of part handed to the merger.
    type Part;

    /// The parts this collection holds, in order.
    spec fn parts_spec(&self) -> Seq<Self::Part>;

    /// Performs the merge with the given compatible merger.
    fn perform_merge<M: Merger<Self::Part>>(&self, merger: &M) -> (r: M::Output)
        requires
            merger.merge_ok(self.parts_spec()),
        ensures
            r == merger.merge_spec(self.parts_spec()),
    ;
}

impl<I> Mergeable for Vec<I> {
    type Part = I;

    open spec fn parts_spec(&self) -> Seq<I> {
        self@
    }

    fn perform_merge<M: Merger<I>>(&self, merger: &M) -> (r: M::Output) {
        merger.merge(self)
    }
}

/// A combinator that applies a [`Merger`] to a collection of values.
#[derive(Clone, Copy, PartialEq, Eq, Structural, Debug, Default)]
pub struct Merged<M>(pub M);

impl<M> Merged<M> {
    /// Merges `input` with the wrapped merger.
    pub fn get<I>(&self, input: &Vec<I>) -> (r: M::Output) where M: Merger<I>
        requires
            self.0.merge_ok(input@),
        ensures
            r == self.0.merge_spec(input@),
    {
        self.0.merge(input)
    }
}

} // verus!
