//! Remapping through a cubic spline.
use crate::error::ConfigError;
use crate::interpolate::{cubic, cubic_value};
use crate::noise_fns::modifiers::control_points::{first_above, ControlPoint, ControlPoints};
use crate::noise_fns::NoiseFn;
use crate::scalar::{below, difference, ordered, quotient, Scalar};
use core::marker::PhantomData;
use vstd::prelude::*;

verus! {

/// The number of control points that a cubic needs.
pub const CURVE_MIN_POINTS: usize = 4;

/// The index of the control point that ends the segment in which `v` is
/// interpolated: the first point whose input lies above `v`, but no earlier than
/// the second point and no later than the last. So a sample beyond either end of
/// the control points is carried on along the cubic of the end segment.
pub open spec fn curve_segment<V: Scalar>(points: Seq<ControlPoint<V>>, v: V) -> int {
    let at = first_above(points, v);
    if at < 1 {
        1
    } else if at > points.len() - 1 {
        points.len() - 1
    } else {
        at
    }
}

/// What a curve over `points` makes of the sample `v`: the cubic between the
/// outputs of the two control points of `v`'s segment, steered by the outputs
/// of their neighbours (an end point is its own neighbour), at the fraction of
/// the way that `v` lies between the two inputs.
pub open spec fn curve_value<V: Scalar>(points: Seq<ControlPoint<V>>, v: V) -> Option<V> {
    if points.len() < CURVE_MIN_POINTS || !ordered::<V>() {
        None
    } else {
        let k = curve_segment(points, v);
        let lower = points[k - 1];
        let upper = points[k];
        let before = points[if k >= 2 {
            k - 2
        } else {
            0
        }];
        let after = points[if k + 1 < points.len() {
            k + 1
        } else {
            k
        }];
        match quotient(
            difference(Some(v), Some(lower.input)),
            difference(Some(upper.input), Some(lower.input)),
        ) {
            Some(t) => cubic_value(before.output, lower.output, upper.output, after.output, t),
            None => None,
        }
    }
}

/// A node that maps the output of its source onto a curve through control
/// points, by cubic interpolation.
///
/// The control points are given in ascending order of their inputs, and at
/// least four are needed before the node can be sampled.
pub struct Curve<T, Source, const DIM: usize> where
    Source: NoiseFn<T, DIM>,
    Source::Sample: Scalar,
 {
    /// The function whose output is remapped.
    pub source: Source,
    /// The points that the curve passes through.
    pub control_points: ControlPoints<Source::Sample>,
    /// Ties the node to its coordinate type.
    pub phantom: PhantomData<T>,
}

impl<T, Source, const DIM: usize> Curve<T, Source, DIM> where
    Source: NoiseFn<T, DIM>,
    Source::Sample: Scalar,
 {
    /// A curve over `source` that has no control points yet.
    pub fn new(source: Source) -> (node: Self)
        ensures
            node.source == source,
            node.control_points@ == Seq::<ControlPoint<Source::Sample>>::empty(),
    {
        Curve { source, control_points: ControlPoints::new(), phantom: PhantomData }
    }

    /// Adds the control point `(input, output)` behind the others. It is refused,
    /// with `UnsortedControlPoints`, unless `input` lies above the input of
    /// the last control point.
    pub fn add_control_point(self, input: Source::Sample, output: Source::Sample) -> (r: Result<
        Self,
        ConfigError,
    >)
        ensures
            r matches Ok(node) ==> node.source == self.source && node.control_points@
                == self.control_points@.push(ControlPoint { input, output }),
            r matches Err(e) ==> e == ConfigError::UnsortedControlPoints,
            ordered::<Source::Sample>() ==> (r is Ok <==> self.control_points@.len() == 0 || below(
                self.control_points@.last().input,
                input,
            )),
    {
        let Curve { source, control_points, phantom } = self;
        match control_points.appended(input, output) {
            Ok(control_points) => Ok(Curve { source, control_points, phantom }),
            Err(e) => Err(e),
        }
    }

    /// Hands the curve back if it has the four control points that sampling needs,
    /// and refuses it with `TooFewControlPoints` if it has not.
    pub fn checked(self) -> (r: Result<Self, ConfigError>)
        ensures
            r matches Ok(node) ==> node == self,
            r matches Err(e) ==> e == ConfigError::TooFewControlPoints,
            r is Ok <==> self.control_points@.len() >= CURVE_MIN_POINTS,
    {
        if self.control_points.len() >= CURVE_MIN_POINTS {
            Ok(self)
        } else {
            Err(ConfigError::TooFewControlPoints)
        }
    }
}

impl<T, Source, const DIM: usize> NoiseFn<T, DIM> for Curve<T, Source, DIM> where
    Source: NoiseFn<T, DIM>,
    Source::Sample: Scalar,
 {
    type Sample = Source::Sample;

    open spec fn value(&self, point: [T; DIM]) -> Option<Source::Sample> {
        match self.source.value(point) {
            Some(v) => curve_value(self.control_points@, v),
            None => None,
        }
    }

    fn get(&self, point: [T; DIM]) -> (sample: Source::Sample) {
        let v = self.source.get(point);
        let n = self.control_points.len();
        let at = self.control_points.first_above(v);
        let k: usize = if at < 1 {
            1
        } else if at > n - 1 {
            n - 1
        } else {
            at
        };
        let lower = self.control_points.point(k - 1);
        let upper = self.control_points.point(k);
        let before = self.control_points.point(
            if k >= 2 {
                k - 2
            } else {
                0
            },
        );
        let after = self.control_points.point(
            if k + 1 < n {
                k + 1
            } else {
                k
            },
        );
        let t = (v - lower.input) / (upper.input - lower.input);
        cubic(before.output, lower.output, upper.output, after.output, t)
    }
}

} // verus!
