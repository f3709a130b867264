//! The negation of a source.
use crate::noise_fns::NoiseFn;
use crate::scalar::{negated, negation, Scalar};
use core::marker::PhantomData;
use vstd::prelude::*;

verus! {

/// A node that yields the negated output of its source.
pub struct Negate<T, Source, const DIM: usize> {
    /// The function whose output is negated.
    pub source: Source,
    /// Ties the node to its coordinate type.
    pub phantom: PhantomData<T>,
}

impl<T, Source, const DIM: usize> Negate<T, Source, DIM> {
    /// The negation of `source`.
    pub fn new(source: Source) -> (node: Self)
        ensures
            node.source == source,
    {
        Negate { source, phantom: PhantomData }
    }
}

impl<T, Source, const DIM: usize> NoiseFn<T, DIM> for Negate<T, Source, DIM> where
    Source: NoiseFn<T, DIM>,
    Source::Sample: Scalar,
 {
    type Sample = Source::Sample;

    open spec fn value(&self, point: [T; DIM]) -> Option<Source::Sample> {
        negation(self.source.value(point))
    }

    fn get(&self, point: [T; DIM]) -> (sample: Source::Sample) {
        negated(self.source.get(point))
    }
}

} // verus!
