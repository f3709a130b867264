//! Turning the point about the origin.
use crate::noise_fns::NoiseFn;
use crate::scalar::{difference, number, product, sum, whole, Scalar};
use vstd::prelude::*;

verus! {

/// An angle, given by its cosine and its sine.
pub struct Turn<T> {
    /// The cosine of the angle.
    pub cos: T,
    /// The sine of the angle.
    pub sin: T,
}

impl<T: Copy> Clone for Turn<T> {
    fn clone(&self) -> (copy: Self)
        ensures
            copy == *self,
    {
        *self
    }
}

impl<T: Copy> Copy for Turn<T> {

}

impl<T: Scalar> Turn<T> {
    /// The angle 0, which turns nothing.
    pub fn none() -> (turn: Self)
        ensures
            whole::<T>(1) matches Some(one) ==> turn.cos == one,
            whole::<T>(0) matches Some(zero) ==> turn.sin == zero,
    {
        Turn { cos: number(1), sin: number(0) }
    }
}

/// The pair `(a, b)` turned by `by` in its plane, from the first axis towards the
/// second: `(a * cos - b * sin, a * sin + b * cos)`.
pub open spec fn turned<T: Scalar>(a: Option<T>, b: Option<T>, by: Turn<T>) -> (Option<T>, Option<T>) {
    (
        difference(product(a, Some(by.cos)), product(b, Some(by.sin))),
        sum(product(a, Some(by.sin)), product(b, Some(by.cos))),
    )
}

/// Turns the pair `(a, b)` by `by` in its plane.
pub fn turn<T: Scalar>(a: T, b: T, by: Turn<T>) -> (r: (T, T))
    requires
        turned(Some(a), Some(b), by).0 is Some,
        turned(Some(a), Some(b), by).1 is Some,
    ensures
        turned(Some(a), Some(b), by) == (Some(r.0), Some(r.1)),
{
    (a * by.cos - b * by.sin, a * by.sin + b * by.cos)
}

/// A point of a space in which the library defines rotations: the plane and
/// three-dimensional space. The turns are given for the axes `x`, `y`, `z`, `u`.
pub trait Rotate<T: Scalar>: Sized {
    /// The point turned about the origin.
    spec fn rotated(self, turns: Seq<Turn<T>>) -> Option<Self>;

    /// Turns the point about the origin.
    fn rotate(self, turns: &[Turn<T>; 4]) -> (turned: Self)
        requires
            self.rotated(turns@) is Some,
        ensures
            self.rotated(turns@) == Some(turned),
    ;
}

impl<T: Scalar> Rotate<T> for [T; 2] {
    /// In the plane a point turns about the axis that stands on the plane, `z`,
    /// from `x` towards `y`.
    open spec fn rotated(self, turns: Seq<Turn<T>>) -> Option<Self> {
        match turned(Some(self@[0]), Some(self@[1]), turns[2]) {
            (Some(x), Some(y)) => Some([x, y]),
            _ => None,
        }
    }

    fn rotate(self, turns: &[Turn<T>; 4]) -> (turned: Self) {
        let (x, y) = turn(self[0], self[1], turns[2]);
        [x, y]
    }
}

impl<T: Scalar> Rotate<T> for [T; 3] {
    /// In space a point turns about `x` (from `y` towards `z`), then about `y`
    /// (from `z` towards `x`), then about `z` (from `x` towards `y`).
    open spec fn rotated(self, turns: Seq<Turn<T>>) -> Option<Self> {
        let (y1, z1) = turned(Some(self@[1]), Some(self@[2]), turns[0]);
        let (z2, x2) = turned(z1, Some(self@[0]), turns[1]);
        match (turned(x2, y1, turns[2]), z2) {
            ((Some(x), Some(y)), Some(z)) => Some([x, y, z]),
            _ => None,
        }
    }

    fn rotate(self, turns: &[Turn<T>; 4]) -> (turned: Self) {
        let (y1, z1) = turn(self[1], self[2], turns[0]);
        let (z2, x2) = turn(z1, self[0], turns[1]);
        let (x, y) = turn(x2, y1, turns[2]);
        [x, y, z2]
    }
}

/// A node that turns the point about the origin before it samples its source.
pub struct RotatePoint<Source, T> {
    /// The function that is sampled at the turned point.
    pub source: Source,
    /// The turns about `x`, `y`, `z` and `u`.
    pub angles: [Turn<T>; 4],
}

impl<Source, T: Scalar> RotatePoint<Source, T> {
    /// `source` with no turn about any axis.
    pub fn new(source: Source) -> (node: Self)
        ensures
            node.source == source,
            whole::<T>(1) matches Some(one) ==> forall|i: int| 0 <= i < 4 ==> (#[trigger] node.angles@[i]).cos == one,
            whole::<T>(0) matches Some(zero) ==> forall|i: int| 0 <= i < 4 ==> (#[trigger] node.angles@[i]).sin == zero,
    {
        let still: Turn<T> = Turn::none();
        RotatePoint { source, angles: [still, still, still, still] }
    }

    /// Sets the turns about all four axes.
    pub fn set_angles(self, x: Turn<T>, y: Turn<T>, z: Turn<T>, u: Turn<T>) -> (node: Self)
        ensures
            node.source == self.source,
            node.angles@ == seq![x, y, z, u],
    {
        RotatePoint { source: self.source, angles: [x, y, z, u] }
    }
}

impl<Source, T, const DIM: usize> NoiseFn<T, DIM> for RotatePoint<Source, T> where
    T: Scalar,
    Source: NoiseFn<T, DIM>,
    [T; DIM]: Rotate<T>,
 {
    type Sample = Source::Sample;

    open spec fn value(&self, point: [T; DIM]) -> Option<Source::Sample> {
        match point.rotated(self.angles@) {
            Some(turned) => self.source.value(turned),
            None => None,
        }
    }

    fn get(&self, point: [T; DIM]) -> (sample: Source::Sample) {
        self.source.get(point.rotate(&self.angles))
    }
}

} // verus!
