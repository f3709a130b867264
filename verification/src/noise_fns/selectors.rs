//! Nodes that mix two sources under the control of a third.
use crate::error::ConfigError;
use crate::interpolate::{clamped, clamped_value, linear, linear_value, s_curve, s_curve_value};
use crate::noise_fns::NoiseFn;
use crate::scalar::{at_most, difference, number, ordered, quotient, whole, Scalar};
use core::marker::PhantomData;
use vstd::prelude::*;

verus! {

/// How the control output `c` mixes the outputs `a` and `b`: `c` is brought into
/// `[0, 1]` and taken as the fraction of the way from `a` to `b`.
pub open spec fn blend_value<V: Scalar>(a: V, b: V, c: V) -> Option<V> {
    match (whole::<V>(0), whole::<V>(1)) {
        (Some(zero), Some(one)) => match clamped_value(c, zero, one) {
            Some(t) => linear_value(a, b, t),
            None => None,
        },
        _ => None,
    }
}

/// A node that blends the outputs of two sources, weighted by the output of a
/// control function.
pub struct Blend<T, Source1, Source2, Control, const DIM: usize> {
    /// The function that the blend yields where the control output is 0 or less.
    pub source1: Source1,
    /// The function that the blend yields where the control output is 1 or more.
    pub source2: Source2,
    /// The function whose output weights the two sources.
    pub control: Control,
    /// Ties the node to its coordinate type.
    pub phantom: PhantomData<T>,
}

impl<T, Source1, Source2, Control, const DIM: usize> Blend<T, Source1, Source2, Control, DIM> {
    /// The blend of `source1` and `source2` under `control`.
    pub fn new(source1: Source1, source2: Source2, control: Control) -> (node: Self)
        ensures
            node.source1 == source1,
            node.source2 == source2,
            node.control == control,
    {
        Blend { source1, source2, control, phantom: PhantomData }
    }
}

impl<T, Source1, Source2, Control, const DIM: usize> NoiseFn<T, DIM> for Blend<
    T,
    Source1,
    Source2,
    Control,
    DIM,
> where
    T: Copy,
    Source1: NoiseFn<T, DIM>,
    Source2: NoiseFn<T, DIM, Sample = Source1::Sample>,
    Control: NoiseFn<T, DIM, Sample = Source1::Sample>,
    Source1::Sample: Scalar,
 {
    type Sample = Source1::Sample;

    open spec fn value(&self, point: [T; DIM]) -> Option<Source1::Sample> {
        match (self.source1.value(point), self.source2.value(point), self.control.value(point)) {
            (Some(a), Some(b), Some(c)) => blend_value(a, b, c),
            _ => None,
        }
    }

    fn get(&self, point: [T; DIM]) -> (sample: Source1::Sample) {
        let a = self.source1.get(point);
        let b = self.source2.get(point);
        let c = self.control.get(point);
        let zero: Source1::Sample = number(0);
        let one: Source1::Sample = number(1);
        linear(a, b, clamped(c, zero, one))
    }
}

/// What a selection makes of the control output `c`, where `a` and `b` are the
/// outputs of the two sources.
///
/// At or below `lower` it is `a`, at or above `upper` it is `b`. Strictly inside
/// the window it lies at the fraction `(c - lower) / (upper - lower)` of the
/// way from `a` to `b`; with `smooth`, that fraction is first mapped through the
/// smooth step, so that the output leaves and reaches the edges without a kink.
/// A source is consulted only where its output is needed.
pub open spec fn select_value<V: Scalar>(
    a: Option<V>,
    b: Option<V>,
    c: V,
    lower: V,
    upper: V,
    smooth: bool,
) -> Option<V> {
    if !ordered::<V>() {
        None
    } else if at_most(c, lower) {
        a
    } else if at_most(upper, c) {
        b
    } else {
        match (
            a,
            b,
            quotient(difference(Some(c), Some(lower)), difference(Some(upper), Some(lower))),
        ) {
            (Some(x), Some(y), Some(t)) => if smooth {
                match s_curve_value(t) {
                    Some(eased) => linear_value(x, y, eased),
                    None => None,
                }
            } else {
                linear_value(x, y, t)
            },
            _ => None,
        }
    }
}

/// A node that yields the output of one of two sources, chosen by where the
/// output of a control function lies relative to a window.
pub struct Select<T, Source1, Source2, Control, const DIM: usize> where
    Source1: NoiseFn<T, DIM>,
 {
    /// The function that is yielded below the window.
    pub source1: Source1,
    /// The function that is yielded above the window.
    pub source2: Source2,
    /// The function whose output is held against the window.
    pub control: Control,
    /// The lower edge of the window.
    pub lower: Source1::Sample,
    /// The upper edge of the window.
    pub upper: Source1::Sample,
    /// Whether the passage through the window is smoothed.
    pub smooth: bool,
    /// Ties the node to its coordinate type.
    pub phantom: PhantomData<T>,
}

impl<T, Source1, Source2, Control, const DIM: usize> Select<T, Source1, Source2, Control, DIM> where
    Source1: NoiseFn<T, DIM>,
    Source1::Sample: Scalar,
 {
    /// The selection between `source1` and `source2` under `control`, with the
    /// window `[0, 1]` and no smoothing.
    pub fn new(source1: Source1, source2: Source2, control: Control) -> (node: Self)
        ensures
            node.source1 == source1,
            node.source2 == source2,
            node.control == control,
            whole::<Source1::Sample>(0) matches Some(zero) ==> node.lower == zero,
            whole::<Source1::Sample>(1) matches Some(one) ==> node.upper == one,
            !node.smooth,
    {
        Select {
            source1,
            source2,
            control,
            lower: number(0),
            upper: number(1),
            smooth: false,
            phantom: PhantomData,
        }
    }

    /// Sets the window to `[lower, upper]`. The window is refused, with
    /// `InvertedBounds`, unless `lower <= upper`.
    pub fn set_bounds(self, lower: Source1::Sample, upper: Source1::Sample) -> (r: Result<
        Self,
        ConfigError,
    >)
        ensures
            r matches Ok(node) ==> node == (Select { lower, upper, ..self }),
            r matches Err(e) ==> e == ConfigError::InvertedBounds,
            ordered::<Source1::Sample>() ==> (r is Ok <==> at_most(lower, upper)),
    {
        if lower <= upper {
            Ok(Select { lower, upper, ..self })
        } else {
            Err(ConfigError::InvertedBounds)
        }
    }

    /// Chooses whether the passage through the window is smoothed.
    pub fn set_falloff(self, smooth: bool) -> (node: Self)
        ensures
            node == (Select { smooth, ..self }),
    {
        Select { smooth, ..self }
    }
}

impl<T, Source1, Source2, Control, const DIM: usize> NoiseFn<T, DIM> for Select<
    T,
    Source1,
    Source2,
    Control,
    DIM,
> where
    T: Copy,
    Source1: NoiseFn<T, DIM>,
    Source2: NoiseFn<T, DIM, Sample = Source1::Sample>,
    Control: NoiseFn<T, DIM, Sample = Source1::Sample>,
    Source1::Sample: Scalar,
 {
    type Sample = Source1::Sample;

    open spec fn value(&self, point: [T; DIM]) -> Option<Source1::Sample> {
        match self.control.value(point) {
            Some(c) => select_value(
                self.source1.value(point),
                self.source2.value(point),
                c,
                self.lower,
                self.upper,
                self.smooth,
            ),
            None => None,
        }
    }

    fn get(&self, point: [T; DIM]) -> (sample: Source1::Sample) {
        let c = self.control.get(point);
        if c <= self.lower {
            self.source1.get(point)
        } else if self.upper <= c {
            self.source2.get(point)
        } else {
            let a = self.source1.get(point);
            let b = self.source2.get(point);
            let t = (c - self.lower) / (self.upper - self.lower);
            if self.smooth {
                linear(a, b, s_curve(t))
            } else {
                linear(a, b, t)
            }
        }
    }
}

} // verus!
