//! Keeping the output of a source within bounds.
use crate::error::ConfigError;
use crate::interpolate::{clamped, clamped_value};
use crate::noise_fns::NoiseFn;
use crate::scalar::{at_most, number, ordered, whole, Scalar};
use core::marker::PhantomData;
use vstd::prelude::*;

verus! {

/// A node that keeps the output of its source within `[lower, upper]`.
pub struct Clamp<T, Source, const DIM: usize> where Source: NoiseFn<T, DIM> {
    /// The function whose output is clamped.
    pub source: Source,
    /// The least sample that the node yields.
    pub lower: Source::Sample,
    /// The greatest sample that the node yields.
    pub upper: Source::Sample,
    /// Ties the node to its coordinate type.
    pub phantom: PhantomData<T>,
}

impl<T, Source, const DIM: usize> Clamp<T, Source, DIM> where
    Source: NoiseFn<T, DIM>,
    Source::Sample: Scalar,
 {
    /// A clamp of `source` to `[-1, 1]`.
    pub fn new(source: Source) -> (node: Self)
        ensures
            node.source == source,
            whole::<Source::Sample>(-1i8) matches Some(low) ==> node.lower == low,
            whole::<Source::Sample>(1) matches Some(high) ==> node.upper == high,
    {
        Clamp { source, lower: number(-1), upper: number(1), phantom: PhantomData }
    }

    /// Sets the bounds to `[lower, upper]`. The bounds are refused, with
    /// `InvertedBounds`, unless `lower <= upper`.
    pub fn set_bounds(self, lower: Source::Sample, upper: Source::Sample) -> (r: Result<
        Self,
        ConfigError,
    >)
        ensures
            r matches Ok(node) ==> node == (Clamp { lower, upper, ..self }),
            r matches Err(e) ==> e == ConfigError::InvertedBounds,
            ordered::<Source::Sample>() ==> (r is Ok <==> at_most(lower, upper)),
    {
        if lower <= upper {
            Ok(Clamp { lower, upper, ..self })
        } else {
            Err(ConfigError::InvertedBounds)
        }
    }
}

impl<T, Source, const DIM: usize> NoiseFn<T, DIM> for Clamp<T, Source, DIM> where
    Source: NoiseFn<T, DIM>,
    Source::Sample: Scalar,
 {
    type Sample = Source::Sample;

    open spec fn value(&self, point: [T; DIM]) -> Option<Source::Sample> {
        match self.source.value(point) {
            Some(v) => clamped_value(v, self.lower, self.upper),
            None => None,
        }
    }

    fn get(&self, point: [T; DIM]) -> (sample: Source::Sample) {
        clamped(self.source.get(point), self.lower, self.upper)
    }
}

} // verus!
