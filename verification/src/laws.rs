//! Laws that relate the nodes to one another.
//!
//! A law about the arithmetic of samples holds for every sample type whose
//! operators have the algebraic property that the law names. The whole numbers
//! of Rust have all of them, as the last lemma here shows for `i64`.
use crate::noise_fns::cache::Memo;
use crate::noise_fns::combiners::{Add, Max, Min, Multiply};
use crate::noise_fns::modifiers::control_points::{ascending, first_above};
use crate::noise_fns::modifiers::{Clamp, ControlPoint, Negate};
use crate::noise_fns::transformers::TransformerArgs;
use crate::noise_fns::NoiseFn;
use crate::scalar::{
    addition_commutes, at_most, below, multiplication_commutes, negation_undoes_itself,
    totally_ordered, Scalar,
};
use core::marker::PhantomData;
use vstd::prelude::*;
use vstd::std_specs::ops::MulSpec;

verus! {

/// Sampling is deterministic: whatever two samplings of one noise function at one
/// point return, it is the same sample. The two results are given as `get`
/// describes them, each as the value of the function at the point.
pub proof fn lemma_one_sample_per_point<T, F: NoiseFn<T, DIM>, const DIM: usize>(
    f: F,
    point: [T; DIM],
    first: F::Sample,
    second: F::Sample,
)
    requires
        f.value(point) == Some(first),
        f.value(point) == Some(second),
    ensures
        first == second,
{
}

/// A memo that remembers a sample for a point recalls that sample for that very
/// point: the second of two successive samplings of a cache at one point is
/// answered from memory.
pub proof fn lemma_same_point_is_recalled<T: Copy + PartialEq, V: Copy, const DIM: usize>(
    point: [T; DIM],
    sample: V,
)
    ensures
        (Memo { entry: Some((point, sample)) }).recalled(point) == Some(sample),
{
}

/// A memo that remembers a sample for one point recalls nothing for any other:
/// a cache that is asked for a new point turns to its source.
pub proof fn lemma_other_point_is_not_recalled<T: Copy + PartialEq, V: Copy, const DIM: usize>(
    known: [T; DIM],
    sample: V,
    point: [T; DIM],
)
    requires
        known != point,
    ensures
        (Memo { entry: Some((known, sample)) }).recalled(point) is None,
{
}

/// A memo that remembers nothing recalls nothing: the first sampling of a cache
/// turns to its source.
pub proof fn lemma_empty_memo_recalls_nothing<T: Copy + PartialEq, V: Copy, const DIM: usize>(
    point: [T; DIM],
)
    ensures
        (Memo::<T, V, DIM> { entry: None }).recalled(point) is None,
{
}

/// How arguments expand to the four axes: one value goes to every axis, and a
/// list fills the axes from `x` on and leaves the rest to `default`.
pub proof fn lemma_expansion<V: Copy>(s: V, a: V, b: V, c: V, d: V, default: V)
    ensures
        TransformerArgs::<V>::expanded(s, default) == seq![s, s, s, s],
        TransformerArgs::<V>::expanded([a], default) == seq![a, default, default, default],
        TransformerArgs::<V>::expanded([a, b], default) == seq![a, b, default, default],
        TransformerArgs::<V>::expanded([a, b, c], default) == seq![a, b, c, default],
        TransformerArgs::<V>::expanded([a, b, c, d], default) == seq![a, b, c, d],
{
}

/// The sum of two noise functions does not depend on their order.
pub proof fn lemma_add_commutes<T, F, G, const DIM: usize>(f: F, g: G, point: [T; DIM]) where
    T: Copy,
    F: NoiseFn<T, DIM, Sample = G::Sample>,
    G: NoiseFn<T, DIM>,
    G::Sample: Scalar,

    requires
        addition_commutes::<G::Sample>(),
    ensures
        (Add::<T, F, G, DIM> { source1: f, source2: g, phantom: PhantomData }).value(point) == (Add::<
            T,
            G,
            F,
            DIM,
        > { source1: g, source2: f, phantom: PhantomData }).value(point),
{
}

/// The product of two noise functions does not depend on their order.
pub proof fn lemma_multiply_commutes<T, F, G, const DIM: usize>(f: F, g: G, point: [T; DIM]) where
    T: Copy,
    F: NoiseFn<T, DIM, Sample = G::Sample>,
    G: NoiseFn<T, DIM>,
    G::Sample: Scalar,

    requires
        multiplication_commutes::<G::Sample>(),
    ensures
        (Multiply::<T, F, G, DIM> { source1: f, source2: g, phantom: PhantomData }).value(point)
            == (Multiply::<T, G, F, DIM> { source1: g, source2: f, phantom: PhantomData }).value(
            point,
        ),
{
}

/// The larger of two noise functions does not depend on their order.
pub proof fn lemma_max_commutes<T, F, G, const DIM: usize>(f: F, g: G, point: [T; DIM]) where
    T: Copy,
    F: NoiseFn<T, DIM, Sample = G::Sample>,
    G: NoiseFn<T, DIM>,
    G::Sample: Scalar,

    requires
        totally_ordered::<G::Sample>(),
    ensures
        (Max::<T, F, G, DIM> { source1: f, source2: g, phantom: PhantomData }).value(point) == (Max::<
            T,
            G,
            F,
            DIM,
        > { source1: g, source2: f, phantom: PhantomData }).value(point),
{
}

/// The smaller of two noise functions does not depend on their order.
pub proof fn lemma_min_commutes<T, F, G, const DIM: usize>(f: F, g: G, point: [T; DIM]) where
    T: Copy,
    F: NoiseFn<T, DIM, Sample = G::Sample>,
    G: NoiseFn<T, DIM>,
    G::Sample: Scalar,

    requires
        totally_ordered::<G::Sample>(),
    ensures
        (Min::<T, F, G, DIM> { source1: f, source2: g, phantom: PhantomData }).value(point) == (Min::<
            T,
            G,
            F,
            DIM,
        > { source1: g, source2: f, phantom: PhantomData }).value(point),
{
}

/// Negating a noise function twice gives the function back, at every point at
/// which the double negation can be sampled.
pub proof fn lemma_negate_twice<T, F, const DIM: usize>(f: F, point: [T; DIM]) where
    F: NoiseFn<T, DIM>,
    F::Sample: Scalar,

    requires
        negation_undoes_itself::<F::Sample>(),
        (Negate::<T, Negate<T, F, DIM>, DIM> {
            source: Negate { source: f, phantom: PhantomData },
            phantom: PhantomData,
        }).value(point) is Some,
    ensures
        (Negate::<T, Negate<T, F, DIM>, DIM> {
            source: Negate { source: f, phantom: PhantomData },
            phantom: PhantomData,
        }).value(point) == f.value(point),
{
}

/// A clamp whose bounds are in order yields only samples within its bounds.
pub proof fn lemma_clamp_within_bounds<T, F, const DIM: usize>(node: Clamp<T, F, DIM>, point: [T; DIM]) where
    F: NoiseFn<T, DIM>,
    F::Sample: Scalar,

    requires
        totally_ordered::<F::Sample>(),
        at_most(node.lower, node.upper),
        node.value(point) is Some,
    ensures
        at_most(node.lower, node.value(point).unwrap()),
        at_most(node.value(point).unwrap(), node.upper),
{
}

/// `first_above` splits the control points: up to it no input lies above `v`, and
/// the input at it does.
pub proof fn lemma_first_above_splits<V: Scalar>(points: Seq<ControlPoint<V>>, v: V)
    ensures
        0 <= first_above(points, v) <= points.len(),
        forall|j: int| 0 <= j < first_above(points, v) ==> !below(v, #[trigger] points[j].input),
        first_above(points, v) < points.len() ==> below(v, points[first_above(points, v)].input),
    decreases points.len(),
{
    if points.len() > 0 && !below(v, points[0].input) {
        let rest = points.skip(1);
        lemma_first_above_splits(rest, v);
        assert forall|j: int| 0 <= j < first_above(points, v) implies !below(
            v,
            #[trigger] points[j].input,
        ) by {
            if j > 0 {
                assert(points[j] == rest[j - 1]);
            }
        }
    }
}

/// In ascending control points each input lies below all that follow it.
pub proof fn lemma_ascending_throughout<V: Scalar>(points: Seq<ControlPoint<V>>, i: int, j: int)
    requires
        totally_ordered::<V>(),
        ascending(points),
        0 <= i < j < points.len(),
    ensures
        below(points[i].input, points[j].input),
    decreases j - i,
{
    if i + 1 < j {
        lemma_ascending_throughout(points, i, j - 1);
        assert(below(points[j - 1].input, points[j].input));
    }
}

/// A sample splits ascending control points in two: the inputs of the points
/// before `first_above` lie at or below the sample, those of the points from
/// `first_above` on lie above it. So the two points between which a sample
/// within the range of the inputs is interpolated bracket it.
pub proof fn lemma_segment_brackets<V: Scalar>(points: Seq<ControlPoint<V>>, v: V, i: int)
    requires
        totally_ordered::<V>(),
        ascending(points),
        0 <= i < points.len(),
    ensures
        i < first_above(points, v) ==> at_most(points[i].input, v),
        i >= first_above(points, v) ==> below(v, points[i].input),
{
    lemma_first_above_splits(points, v);
    let at = first_above(points, v);
    if i > at {
        lemma_ascending_throughout(points, at, i);
    }
}

/// The 64-bit whole numbers are totally ordered, their sums and products
/// commute, and their negation undoes itself.
pub proof fn lemma_i64_is_lawful()
    ensures
        totally_ordered::<i64>(),
        addition_commutes::<i64>(),
        multiplication_commutes::<i64>(),
        negation_undoes_itself::<i64>(),
{
    assert forall|a: i64, b: i64| #[trigger] a.mul_req(b) == b.mul_req(a) && a.mul_spec(b) == b.mul_spec(a) by {
        assert(a * b == b * a) by (nonlinear_arith);
    }
}

} // verus!
