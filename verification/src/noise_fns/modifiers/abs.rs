//! The absolute value of a source.
use crate::interpolate::{magnitude, magnitude_value};
use crate::noise_fns::NoiseFn;
use crate::scalar::Scalar;
use core::marker::PhantomData;
use vstd::prelude::*;

verus! {

/// A node that yields the absolute value of the output of its source.
pub struct Abs<T, Source, const DIM: usize> {
    /// The function whose output is made non-negative.
    pub source: Source,
    /// Ties the node to its coordinate type.
    pub phantom: PhantomData<T>,
}

impl<T, Source, const DIM: usize> Abs<T, Source, DIM> {
    /// The absolute value of `source`.
    pub fn new(source: Source) -> (node: Self)
        ensures
            node.source == source,
    {
        Abs { source, phantom: PhantomData }
    }
}

impl<T, Source, const DIM: usize> NoiseFn<T, DIM> for Abs<T, Source, DIM> where
    Source: NoiseFn<T, DIM>,
    Source::Sample: Scalar,
 {
    type Sample = Source::Sample;

    open spec fn value(&self, point: [T; DIM]) -> Option<Source::Sample> {
        match self.source.value(point) {
            Some(v) => magnitude_value(v),
            None => None,
        }
    }

    fn get(&self, point: [T; DIM]) -> (sample: Source::Sample) {
        magnitude(self.source.get(point))
    }
}

} // verus!
