//! The control points that steer a remapping of samples.
use crate::error::ConfigError;
use crate::scalar::{below, ordered, Scalar};
use vstd::prelude::*;

verus! {

/// One point of a remapping: a sample `input` of the source and the `output`
/// that stands for it.
pub struct ControlPoint<V> {
    /// The sample of the source at this point.
    pub input: V,
    /// What the remapping yields for that sample.
    pub output: V,
}

impl<V: Copy> Clone for ControlPoint<V> {
    fn clone(&self) -> (copy: Self)
        ensures
            copy == *self,
    {
        *self
    }
}

impl<V: Copy> Copy for ControlPoint<V> {

}

/// Each input lies below the next.
pub open spec fn ascending<V: Scalar>(points: Seq<ControlPoint<V>>) -> bool {
    forall|i: int| 0 <= i < points.len() - 1 ==> below(#[trigger] points[i].input, points[i + 1].input)
}

/// The index of the first point whose input lies above `v`; the number of
/// points, if none does.
pub open spec fn first_above<V: Scalar>(points: Seq<ControlPoint<V>>, v: V) -> int
    decreases points.len(),
{
    if points.len() == 0 || below(v, points[0].input) {
        0
    } else {
        1 + first_above(points.skip(1), v)
    }
}

/// `first_above` is the index up to which no input lies above `v` and at which
/// one does.
pub proof fn lemma_first_above<V: Scalar>(points: Seq<ControlPoint<V>>, v: V, index: int)
    requires
        0 <= index <= points.len(),
        forall|j: int| 0 <= j < index ==> !below(v, #[trigger] points[j].input),
        index < points.len() ==> below(v, points[index].input),
    ensures
        first_above(points, v) == index,
    decreases index,
{
    if index > 0 {
        let rest = points.skip(1);
        assert forall|j: int| 0 <= j < index - 1 implies !below(v, #[trigger] rest[j].input) by {
            assert(rest[j] == points[j + 1]);
        }
        lemma_first_above(rest, v, index - 1);
    }
}

/// A sequence of control points whose inputs ascend strictly.
pub struct ControlPoints<V: Scalar> {
    points: Vec<ControlPoint<V>>,
}

impl<V: Scalar> View for ControlPoints<V> {
    type V = Seq<ControlPoint<V>>;

    closed spec fn view(&self) -> Seq<ControlPoint<V>> {
        self.points@
    }
}

impl<V: Scalar> ControlPoints<V> {
    #[verifier::type_invariant]
    spec fn wf(&self) -> bool {
        ordered::<V>() ==> ascending(self.points@)
    }

    /// No control points.
    pub fn new() -> (points: Self)
        ensures
            points@ == Seq::<ControlPoint<V>>::empty(),
    {
        ControlPoints { points: Vec::new() }
    }

    /// The number of control points.
    pub fn len(&self) -> (n: usize)
        ensures
            n == self@.len(),
    {
        self.points.len()
    }

    /// The control point at `index`.
    pub fn point(&self, index: usize) -> (point: ControlPoint<V>)
        requires
            index < self@.len(),
        ensures
            point == self@[index as int],
    {
        self.points[index]
    }

    /// Adds a control point behind the others. The point is refused, with
    /// `UnsortedControlPoints`, unless its input lies above that of the last
    /// point.
    pub fn appended(self, input: V, output: V) -> (r: Result<Self, ConfigError>)
        ensures
            r matches Ok(longer) ==> longer@ == self@.push(ControlPoint { input, output }),
            r matches Err(e) ==> e == ConfigError::UnsortedControlPoints && self@.len() > 0,
            ordered::<V>() ==> (r is Ok <==> self@.len() == 0 || below(self@.last().input, input)),
            ordered::<V>() ==> ascending(self@) && (r matches Ok(longer) ==> ascending(longer@)),
    {
        proof {
            use_type_invariant(&self);
        }
        let n = self.points.len();
        if n > 0 && !(self.points[n - 1].input < input) {
            return Err(ConfigError::UnsortedControlPoints);
        }
        let mut points = self.points;
        points.push(ControlPoint { input, output });
        Ok(ControlPoints { points })
    }

    /// Finds the first control point whose input lies above `v`.
    pub fn first_above(&self, v: V) -> (index: usize)
        requires
            ordered::<V>(),
        ensures
            index == first_above(self@, v),
            index <= self@.len(),
            ascending(self@),
    {
        proof {
            use_type_invariant(self);
        }
        let n = self.points.len();
        let mut index: usize = 0;
        while index < n
            invariant_except_break
                forall|j: int| 0 <= j < index ==> !below(v, #[trigger] self.points@[j].input),
            invariant
                index <= n,
                n == self.points@.len(),
                ordered::<V>(),
            ensures
                forall|j: int| 0 <= j < index ==> !below(v, #[trigger] self.points@[j].input),
                index < n ==> below(v, self.points@[index as int].input),
            decreases n - index,
        {
            if v < self.points[index].input {
                break ;
            }
            index += 1;
        }
        proof {
            lemma_first_above(self.points@, v, index as int);
        }
        index
    }
}

} // verus!
