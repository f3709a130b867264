//! Nodes that change the point before they hand it to their source, and the
//! arguments they are configured with.
use vstd::prelude::*;

pub mod coordinates;
pub mod displace;
pub mod rotate_point;
pub mod scale_point;
pub mod translate_point;
pub mod turbulence;

pub use self::coordinates::Coordinates;
pub use self::displace::Displace;
pub use self::rotate_point::{Rotate, RotatePoint, Turn};
pub use self::scale_point::ScalePoint;
pub use self::translate_point::TranslatePoint;
pub use self::turbulence::Turbulence;

verus! {

/// Per-axis arguments of a transformer, given as one value for all axes or as a
/// list of one to four values.
pub trait TransformerArgs<V>: Sized {
    /// The arguments for the axes `x`, `y`, `z`, `u`, in that order.
    spec fn expanded(self, default: V) -> Seq<V>;

    /// Brings the arguments into the form of one value per axis. An axis that the
    /// arguments do not cover gets `default`.
    fn expand(self, default: V) -> (axes: [V; 4])
        ensures
            axes@ == self.expanded(default),
    ;
}

impl<V: Copy> TransformerArgs<V> for V {
    /// One value stands for all four axes.
    open spec fn expanded(self, default: V) -> Seq<V> {
        seq![self, self, self, self]
    }

    fn expand(self, default: V) -> (axes: [V; 4]) {
        [self, self, self, self]
    }
}

impl<V: Copy> TransformerArgs<V> for [V; 1] {
    /// The value is that of `x`.
    open spec fn expanded(self, default: V) -> Seq<V> {
        seq![self@[0], default, default, default]
    }

    fn expand(self, default: V) -> (axes: [V; 4]) {
        [self[0], default, default, default]
    }
}

impl<V: Copy> TransformerArgs<V> for [V; 2] {
    /// The values are those of `x` and `y`.
    open spec fn expanded(self, default: V) -> Seq<V> {
        seq![self@[0], self@[1], default, default]
    }

    fn expand(self, default: V) -> (axes: [V; 4]) {
        [self[0], self[1], default, default]
    }
}

impl<V: Copy> TransformerArgs<V> for [V; 3] {
    /// The values are those of `x`, `y` and `z`.
    open spec fn expanded(self, default: V) -> Seq<V> {
        seq![self@[0], self@[1], self@[2], default]
    }

    fn expand(self, default: V) -> (axes: [V; 4]) {
        [self[0], self[1], self[2], default]
    }
}

impl<V: Copy> TransformerArgs<V> for [V; 4] {
    /// All four axes are given.
    open spec fn expanded(self, default: V) -> Seq<V> {
        seq![self@[0], self@[1], self@[2], self@[3]]
    }

    fn expand(self, default: V) -> (axes: [V; 4]) {
        self
    }
}

} // verus!
