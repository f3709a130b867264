//! Nodes that combine the outputs of two sources.
use crate::interpolate::{larger, larger_value, smaller, smaller_value};
use crate::noise_fns::NoiseFn;
use crate::scalar::{product, sum, Scalar};
use core::marker::PhantomData;
use vstd::prelude::*;

verus! {

/// A node that yields the sum of the outputs of its two sources.
pub struct Add<T, Source1, Source2, const DIM: usize> {
    /// The first summand.
    pub source1: Source1,
    /// The second summand.
    pub source2: Source2,
    /// Ties the node to its coordinate type.
    pub phantom: PhantomData<T>,
}

impl<T, Source1, Source2, const DIM: usize> Add<T, Source1, Source2, DIM> {
    /// The sum of `source1` and `source2`.
    pub fn new(source1: Source1, source2: Source2) -> (node: Self)
        ensures
            node.source1 == source1,
            node.source2 == source2,
    {
        Add { source1, source2, phantom: PhantomData }
    }
}

impl<T, Source1, Source2, const DIM: usize> NoiseFn<T, DIM> for Add<T, Source1, Source2, DIM> where
    T: Copy,
    Source1: NoiseFn<T, DIM>,
    Source2: NoiseFn<T, DIM, Sample = Source1::Sample>,
    Source1::Sample: Scalar,
 {
    type Sample = Source1::Sample;

    open spec fn value(&self, point: [T; DIM]) -> Option<Source1::Sample> {
        sum(self.source1.value(point), self.source2.value(point))
    }

    fn get(&self, point: [T; DIM]) -> (sample: Source1::Sample) {
        self.source1.get(point) + self.source2.get(point)
    }
}

/// A node that yields the product of the outputs of its two sources.
pub struct Multiply<T, Source1, Source2, const DIM: usize> {
    /// The first factor.
    pub source1: Source1,
    /// The second factor.
    pub source2: Source2,
    /// Ties the node to its coordinate type.
    pub phantom: PhantomData<T>,
}

impl<T, Source1, Source2, const DIM: usize> Multiply<T, Source1, Source2, DIM> {
    /// The product of `source1` and `source2`.
    pub fn new(source1: Source1, source2: Source2) -> (node: Self)
        ensures
            node.source1 == source1,
            node.source2 == source2,
    {
        Multiply { source1, source2, phantom: PhantomData }
    }
}

impl<T, Source1, Source2, const DIM: usize> NoiseFn<T, DIM> for Multiply<
    T,
    Source1,
    Source2,
    DIM,
> where
    T: Copy,
    Source1: NoiseFn<T, DIM>,
    Source2: NoiseFn<T, DIM, Sample = Source1::Sample>,
    Source1::Sample: Scalar,
 {
    type Sample = Source1::Sample;

    open spec fn value(&self, point: [T; DIM]) -> Option<Source1::Sample> {
        product(self.source1.value(point), self.source2.value(point))
    }

    fn get(&self, point: [T; DIM]) -> (sample: Source1::Sample) {
        self.source1.get(point) * self.source2.get(point)
    }
}

/// A node that yields the larger of the outputs of its two sources. An output
/// that is no number gives way to one that is.
pub struct Max<T, Source1, Source2, const DIM: usize> {
    /// The first source.
    pub source1: Source1,
    /// The second source.
    pub source2: Source2,
    /// Ties the node to its coordinate type.
    pub phantom: PhantomData<T>,
}

impl<T, Source1, Source2, const DIM: usize> Max<T, Source1, Source2, DIM> {
    /// The larger of `source1` and `source2`.
    pub fn new(source1: Source1, source2: Source2) -> (node: Self)
        ensures
            node.source1 == source1,
            node.source2 == source2,
    {
        Max { source1, source2, phantom: PhantomData }
    }
}

impl<T, Source1, Source2, const DIM: usize> NoiseFn<T, DIM> for Max<T, Source1, Source2, DIM> where
    T: Copy,
    Source1: NoiseFn<T, DIM>,
    Source2: NoiseFn<T, DIM, Sample = Source1::Sample>,
    Source1::Sample: Scalar,
 {
    type Sample = Source1::Sample;

    open spec fn value(&self, point: [T; DIM]) -> Option<Source1::Sample> {
        match (self.source1.value(point), self.source2.value(point)) {
            (Some(a), Some(b)) => larger_value(a, b),
            _ => None,
        }
    }

    fn get(&self, point: [T; DIM]) -> (sample: Source1::Sample) {
        larger(self.source1.get(point), self.source2.get(point))
    }
}

/// A node that yields the smaller of the outputs of its two sources. An output
/// that is no number gives way to one that is.
pub struct Min<T, Source1, Source2, const DIM: usize> {
    /// The first source.
    pub source1: Source1,
    /// The second source.
    pub source2: Source2,
    /// Ties the node to its coordinate type.
    pub phantom: PhantomData<T>,
}

impl<T, Source1, Source2, const DIM: usize> Min<T, Source1, Source2, DIM> {
    /// The smaller of `source1` and `source2`.
    pub fn new(source1: Source1, source2: Source2) -> (node: Self)
        ensures
            node.source1 == source1,
            node.source2 == source2,
    {
        Min { source1, source2, phantom: PhantomData }
    }
}

impl<T, Source1, Source2, const DIM: usize> NoiseFn<T, DIM> for Min<T, Source1, Source2, DIM> where
    T: Copy,
    Source1: NoiseFn<T, DIM>,
    Source2: NoiseFn<T, DIM, Sample = Source1::Sample>,
    Source1::Sample: Scalar,
 {
    type Sample = Source1::Sample;

    open spec fn value(&self, point: [T; DIM]) -> Option<Source1::Sample> {
        match (self.source1.value(point), self.source2.value(point)) {
            (Some(a), Some(b)) => smaller_value(a, b),
            _ => None,
        }
    }

    fn get(&self, point: [T; DIM]) -> (sample: Source1::Sample) {
        smaller(self.source1.get(point), self.source2.get(point))
    }
}

} // verus!
