//! Leaves that need no algorithm of their own.
use crate::noise_fns::NoiseFn;
use vstd::prelude::*;

verus! {

/// A noise function that yields the same sample at every point.
pub struct Constant<V> {
    /// The sample.
    pub value: V,
}

impl<V> Constant<V> {
    /// A constant function with the sample `value`.
    pub fn new(value: V) -> (node: Self)
        ensures
            node.value == value,
    {
        Constant { value }
    }
}

impl<T, V: Copy, const DIM: usize> NoiseFn<T, DIM> for Constant<V> {
    type Sample = V;

    open spec fn value(&self, point: [T; DIM]) -> Option<V> {
        Some(self.value)
    }

    fn get(&self, point: [T; DIM]) -> (sample: V) {
        self.value
    }
}

} // verus!
