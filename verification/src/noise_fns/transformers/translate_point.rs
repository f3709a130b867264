//! Moving the point.
use crate::noise_fns::transformers::coordinates::Coordinates;
use crate::noise_fns::NoiseFn;
use crate::scalar::{number, whole, Scalar};
use vstd::prelude::*;

verus! {

/// A node that moves the point by a fixed offset before it samples its source.
pub struct TranslatePoint<Source, T> {
    /// The function that is sampled at the moved point.
    pub source: Source,
    /// The offsets along `x`, `y`, `z` and `u`.
    pub translation: [T; 4],
}

impl<Source, T: Scalar> TranslatePoint<Source, T> {
    /// `source` with the offset 0 along every axis.
    pub fn new(source: Source) -> (node: Self)
        ensures
            node.source == source,
            whole::<T>(0) matches Some(zero) ==> node.translation@ == seq![zero, zero, zero, zero],
    {
        let zero: T = number(0);
        TranslatePoint { source, translation: [zero, zero, zero, zero] }
    }

    /// Sets the offsets along all four axes.
    pub fn set_all_translations(self, x: T, y: T, z: T, u: T) -> (node: Self)
        ensures
            node.source == self.source,
            node.translation@ == seq![x, y, z, u],
    {
        TranslatePoint { source: self.source, translation: [x, y, z, u] }
    }
}

impl<Source, T, const DIM: usize> NoiseFn<T, DIM> for TranslatePoint<Source, T> where
    T: Scalar,
    Source: NoiseFn<T, DIM>,
    [T; DIM]: Coordinates<T>,
 {
    type Sample = Source::Sample;

    open spec fn value(&self, point: [T; DIM]) -> Option<Source::Sample> {
        match point.translated(self.translation@) {
            Some(moved) => self.source.value(moved),
            None => None,
        }
    }

    fn get(&self, point: [T; DIM]) -> (sample: Source::Sample) {
        self.source.get(point.translate(&self.translation))
    }
}

} // verus!
