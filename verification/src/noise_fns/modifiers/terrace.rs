//! Remapping into terraces.
use crate::error::ConfigError;
use crate::interpolate::{linear, linear_value};
use crate::noise_fns::modifiers::control_points::{first_above, ControlPoint, ControlPoints};
use crate::noise_fns::NoiseFn;
use crate::scalar::{below, difference, number, ordered, product, quotient, whole, Scalar};
use core::marker::PhantomData;
use vstd::prelude::*;

verus! {

/// The number of control points that a terrace needs.
pub const TERRACE_MIN_POINTS: usize = 2;

/// What a terrace over `points` makes of the sample `v`.
///
/// Below the first input and from the last input on, it is the output of that
/// end point. Between two control points it moves from the output of the one
/// to that of the other along a parabola, which lies flat at the lower point
/// and steepens towards the upper; where the terraces are inverted it lies flat
/// at the upper point instead.
pub open spec fn terrace_value<V: Scalar>(points: Seq<ControlPoint<V>>, inverted: bool, v: V) -> Option<V> {
    if points.len() < TERRACE_MIN_POINTS || !ordered::<V>() {
        None
    } else {
        let at = first_above(points, v);
        if at == 0 {
            Some(points[0].output)
        } else if at == points.len() {
            Some(points[at - 1].output)
        } else {
            let lower = points[at - 1];
            let upper = points[at];
            let t = quotient(
                difference(Some(v), Some(lower.input)),
                difference(Some(upper.input), Some(lower.input)),
            );
            if inverted {
                let back = difference(whole::<V>(1), t);
                match product(back, back) {
                    Some(eased) => linear_value(upper.output, lower.output, eased),
                    None => None,
                }
            } else {
                match product(t, t) {
                    Some(eased) => linear_value(lower.output, upper.output, eased),
                    None => None,
                }
            }
        }
    }
}

/// A node that maps the output of its source onto a staircase of terraces
/// between control points.
///
/// The control points are given in ascending order of their inputs, and at
/// least two are needed before the node can be sampled.
pub struct Terrace<T, Source, const DIM: usize> where
    Source: NoiseFn<T, DIM>,
    Source::Sample: Scalar,
 {
    /// The function whose output is remapped.
    pub source: Source,
    /// The points at which the terraces lie.
    pub control_points: ControlPoints<Source::Sample>,
    /// Whether each terrace lies flat at its upper end rather than at its lower.
    pub inverted: bool,
    /// Ties the node to its coordinate type.
    pub phantom: PhantomData<T>,
}

impl<T, Source, const DIM: usize> Terrace<T, Source, DIM> where
    Source: NoiseFn<T, DIM>,
    Source::Sample: Scalar,
 {
    /// Terraces over `source` that have no control points yet and are not
    /// inverted.
    pub fn new(source: Source) -> (node: Self)
        ensures
            node.source == source,
            node.control_points@ == Seq::<ControlPoint<Source::Sample>>::empty(),
            !node.inverted,
    {
        Terrace { source, control_points: ControlPoints::new(), inverted: false, phantom: PhantomData }
    }

    /// Adds the control point `(input, output)` behind the others. It is refused,
    /// with `UnsortedControlPoints`, unless `input` lies above the input of
    /// the last control point.
    pub fn add_control_point(self, input: Source::Sample, output: Source::Sample) -> (r: Result<
        Self,
        ConfigError,
    >)
        ensures
            r matches Ok(node) ==> node.source == self.source && node.inverted == self.inverted
                && node.control_points@ == self.control_points@.push(
                ControlPoint { input, output },
            ),
            r matches Err(e) ==> e == ConfigError::UnsortedControlPoints,
            ordered::<Source::Sample>() ==> (r is Ok <==> self.control_points@.len() == 0 || below(
                self.control_points@.last().input,
                input,
            )),
    {
        let Terrace { source, control_points, inverted, phantom } = self;
        match control_points.appended(input, output) {
            Ok(control_points) => Ok(Terrace { source, control_points, inverted, phantom }),
            Err(e) => Err(e),
        }
    }

    /// Chooses whether the terraces are inverted.
    pub fn invert_terraces(self, inverted: bool) -> (node: Self)
        ensures
            node.source == self.source,
            node.control_points == self.control_points,
            node.inverted == inverted,
    {
        Terrace { inverted, ..self }
    }

    /// Hands the terraces back if they have the two control points that sampling
    /// needs, and refuses them with `TooFewControlPoints` if they have not.
    pub fn checked(self) -> (r: Result<Self, ConfigError>)
        ensures
            r matches Ok(node) ==> node == self,
            r matches Err(e) ==> e == ConfigError::TooFewControlPoints,
            r is Ok <==> self.control_points@.len() >= TERRACE_MIN_POINTS,
    {
        if self.control_points.len() >= TERRACE_MIN_POINTS {
            Ok(self)
        } else {
            Err(ConfigError::TooFewControlPoints)
        }
    }
}

impl<T, Source, const DIM: usize> NoiseFn<T, DIM> for Terrace<T, Source, DIM> where
    Source: NoiseFn<T, DIM>,
    Source::Sample: Scalar,
 {
    type Sample = Source::Sample;

    open spec fn value(&self, point: [T; DIM]) -> Option<Source::Sample> {
        match self.source.value(point) {
            Some(v) => terrace_value(self.control_points@, self.inverted, v),
            None => None,
        }
    }

    fn get(&self, point: [T; DIM]) -> (sample: Source::Sample) {
        let v = self.source.get(point);
        let n = self.control_points.len();
        let at = self.control_points.first_above(v);
        if at == 0 {
            return self.control_points.point(0).output;
        }
        if at == n {
            return self.control_points.point(n - 1).output;
        }
        let lower = self.control_points.point(at - 1);
        let upper = self.control_points.point(at);
        let t = (v - lower.input) / (upper.input - lower.input);
        if self.inverted {
            let one: Source::Sample = number(1);
            let back = one - t;
            linear(upper.output, lower.output, back * back)
        } else {
            linear(lower.output, upper.output, t * t)
        }
    }
}

} // verus!
