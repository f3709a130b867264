//! What can be wrong with a node's configuration.
use vstd::prelude::*;

verus! {

/// A configuration that a node refuses. Such errors arise only while a tree is
/// being built; sampling a tree never reports one.
#[derive(Clone, Copy, Debug, PartialEq, Eq, Structural)]
pub enum ConfigError {
    /// A lower bound that does not lie at or below its upper bound.
    InvertedBounds,
    /// A control point whose input does not lie above that of the point before it.
    UnsortedControlPoints,
    /// Fewer control points than the interpolation needs.
    TooFewControlPoints,
}

} // verus!
