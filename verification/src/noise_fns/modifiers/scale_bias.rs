//! Scaling and shifting the output of a source.
use crate::noise_fns::NoiseFn;
use crate::scalar::{number, product, sum, whole, Scalar};
use core::marker::PhantomData;
use vstd::prelude::*;

verus! {

/// A node that multiplies the output of its source by `scale` and then adds
/// `bias`.
pub struct ScaleBias<T, Source, const DIM: usize> where Source: NoiseFn<T, DIM> {
    /// The function whose output is rescaled.
    pub source: Source,
    /// The factor.
    pub scale: Source::Sample,
    /// The summand.
    pub bias: Source::Sample,
    /// Ties the node to its coordinate type.
    pub phantom: PhantomData<T>,
}

impl<T, Source, const DIM: usize> ScaleBias<T, Source, DIM> where
    Source: NoiseFn<T, DIM>,
    Source::Sample: Scalar,
 {
    /// `source` with the scale 1 and the bias 0.
    pub fn new(source: Source) -> (node: Self)
        ensures
            node.source == source,
            whole::<Source::Sample>(1) matches Some(one) ==> node.scale == one,
            whole::<Source::Sample>(0) matches Some(zero) ==> node.bias == zero,
    {
        ScaleBias { source, scale: number(1), bias: number(0), phantom: PhantomData }
    }

    /// Sets the factor.
    pub fn set_scale(self, scale: Source::Sample) -> (node: Self)
        ensures
            node == (ScaleBias { scale, ..self }),
    {
        ScaleBias { scale, ..self }
    }

    /// Sets the summand.
    pub fn set_bias(self, bias: Source::Sample) -> (node: Self)
        ensures
            node == (ScaleBias { bias, ..self }),
    {
        ScaleBias { bias, ..self }
    }
}

impl<T, Source, const DIM: usize> NoiseFn<T, DIM> for ScaleBias<T, Source, DIM> where
    Source: NoiseFn<T, DIM>,
    Source::Sample: Scalar,
 {
    type Sample = Source::Sample;

    open spec fn value(&self, point: [T; DIM]) -> Option<Source::Sample> {
        sum(product(self.source.value(point), Some(self.scale)), Some(self.bias))
    }

    fn get(&self, point: [T; DIM]) -> (sample: Source::Sample) {
        self.source.get(point) * self.scale + self.bias
    }
}

} // verus!
