//! Arithmetic on whole points.
use crate::scalar::{product, sum, Scalar};
use vstd::prelude::*;

verus! {

/// A point of a space with two, three or four axes, whose coordinates can be
/// shifted and stretched axis by axis. The arguments are given for the axes
/// `x`, `y`, `z`, `u`; a point uses those of the axes it has.
pub trait Coordinates<T: Scalar>: Sized {
    /// The point moved by `offsets`.
    spec fn translated(self, offsets: Seq<T>) -> Option<Self>;

    /// The point with each coordinate multiplied by its factor.
    spec fn scaled(self, factors: Seq<T>) -> Option<Self>;

    /// Moves the point by `offsets`.
    fn translate(self, offsets: &[T; 4]) -> (moved: Self)
        requires
            self.translated(offsets@) is Some,
        ensures
            self.translated(offsets@) == Some(moved),
    ;

    /// Multiplies each coordinate by its factor.
    fn scale(self, factors: &[T; 4]) -> (stretched: Self)
        requires
            self.scaled(factors@) is Some,
        ensures
            self.scaled(factors@) == Some(stretched),
    ;
}

impl<T: Scalar> Coordinates<T> for [T; 2] {
    open spec fn translated(self, offsets: Seq<T>) -> Option<Self> {
        match (sum(Some(self@[0]), Some(offsets[0])), sum(Some(self@[1]), Some(offsets[1]))) {
            (Some(x), Some(y)) => Some([x, y]),
            _ => None,
        }
    }

    open spec fn scaled(self, factors: Seq<T>) -> Option<Self> {
        match (product(Some(self@[0]), Some(factors[0])), product(Some(self@[1]), Some(factors[1]))) {
            (Some(x), Some(y)) => Some([x, y]),
            _ => None,
        }
    }

    fn translate(self, offsets: &[T; 4]) -> (moved: Self) {
        [self[0] + offsets[0], self[1] + offsets[1]]
    }

    fn scale(self, factors: &[T; 4]) -> (stretched: Self) {
        [self[0] * factors[0], self[1] * factors[1]]
    }
}

impl<T: Scalar> Coordinates<T> for [T; 3] {
    open spec fn translated(self, offsets: Seq<T>) -> Option<Self> {
        match (
            sum(Some(self@[0]), Some(offsets[0])),
            sum(Some(self@[1]), Some(offsets[1])),
            sum(Some(self@[2]), Some(offsets[2])),
        ) {
            (Some(x), Some(y), Some(z)) => Some([x, y, z]),
            _ => None,
        }
    }

    open spec fn scaled(self, factors: Seq<T>) -> Option<Self> {
        match (
            product(Some(self@[0]), Some(factors[0])),
            product(Some(self@[1]), Some(factors[1])),
            product(Some(self@[2]), Some(factors[2])),
        ) {
            (Some(x), Some(y), Some(z)) => Some([x, y, z]),
            _ => None,
        }
    }

    fn translate(self, offsets: &[T; 4]) -> (moved: Self) {
        [self[0] + offsets[0], self[1] + offsets[1], self[2] + offsets[2]]
    }

    fn scale(self, factors: &[T; 4]) -> (stretched: Self) {
        [self[0] * factors[0], self[1] * factors[1], self[2] * factors[2]]
    }
}

impl<T: Scalar> Coordinates<T> for [T; 4] {
    open spec fn translated(self, offsets: Seq<T>) -> Option<Self> {
        match (
            sum(Some(self@[0]), Some(offsets[0])),
            sum(Some(self@[1]), Some(offsets[1])),
            sum(Some(self@[2]), Some(offsets[2])),
            sum(Some(self@[3]), Some(offsets[3])),
        ) {
            (Some(x), Some(y), Some(z), Some(u)) => Some([x, y, z, u]),
            _ => None,
        }
    }

    open spec fn scaled(self, factors: Seq<T>) -> Option<Self> {
        match (
            product(Some(self@[0]), Some(factors[0])),
            product(Some(self@[1]), Some(factors[1])),
            product(Some(self@[2]), Some(factors[2])),
            product(Some(self@[3]), Some(factors[3])),
        ) {
            (Some(x), Some(y), Some(z), Some(u)) => Some([x, y, z, u]),
            _ => None,
        }
    }

    fn translate(self, offsets: &[T; 4]) -> (moved: Self) {
        [self[0] + offsets[0], self[1] + offsets[1], self[2] + offsets[2], self[3] + offsets[3]]
    }

    fn scale(self, factors: &[T; 4]) -> (stretched: Self) {
        [self[0] * factors[0], self[1] * factors[1], self[2] * factors[2], self[3] * factors[3]]
    }
}

} // verus!
