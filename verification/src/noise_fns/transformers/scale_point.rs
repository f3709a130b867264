//! Stretching the point.
use crate::noise_fns::transformers::coordinates::Coordinates;
use crate::noise_fns::NoiseFn;
use crate::scalar::{number, whole, Scalar};
use vstd::prelude::*;

verus! {

/// A node that multiplies each coordinate of the point by a fixed factor before
/// it samples its source.
pub struct ScalePoint<Source, T> {
    /// The function that is sampled at the stretched point.
    pub source: Source,
    /// The factors along `x`, `y`, `z` and `u`.
    pub scale: [T; 4],
}

impl<Source, T: Scalar> ScalePoint<Source, T> {
    /// `source` with the factor 1 along every axis.
    pub fn new(source: Source) -> (node: Self)
        ensures
            node.source == source,
            whole::<T>(1) matches Some(one) ==> node.scale@ == seq![one, one, one, one],
    {
        let one: T = number(1);
        ScalePoint { source, scale: [one, one, one, one] }
    }

    /// Sets the factors along all four axes.
    pub fn set_all_scales(self, x: T, y: T, z: T, u: T) -> (node: Self)
        ensures
            node.source == self.source,
            node.scale@ == seq![x, y, z, u],
    {
        ScalePoint { source: self.source, scale: [x, y, z, u] }
    }
}

impl<Source, T, const DIM: usize> NoiseFn<T, DIM> for ScalePoint<Source, T> where
    T: Scalar,
    Source: NoiseFn<T, DIM>,
    [T; DIM]: Coordinates<T>,
 {
    type Sample = Source::Sample;

    open spec fn value(&self, point: [T; DIM]) -> Option<Source::Sample> {
        match point.scaled(self.scale@) {
            Some(stretched) => self.source.value(stretched),
            None => None,
        }
    }

    fn get(&self, point: [T; DIM]) -> (sample: Source::Sample) {
        self.source.get(point.scale(&self.scale))
    }
}

} // verus!
