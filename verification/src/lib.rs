//! Composable noise functions: small nodes that are assembled into expression
//! trees and sampled point by point.
//!
//! A tree is built from the leaves up. A leaf is any type with the [`NoiseFn`]
//! contract; the builders of [`Compose`] wrap a function into a node that
//! combines it with others ([`Add`], [`Max`], ...), remaps its output ([`Clamp`],
//! [`Curve`], ...), mixes it under a control function ([`Blend`], [`Select`]),
//! changes the point it is sampled at ([`TranslatePoint`], [`Displace`], ...) or
//! remembers its last sample ([`Cache`]).
//!
//! The library is generic in the number type of the samples and of the
//! coordinates ([`Scalar`]). Every node states, as a specification function of
//! the node and the point, which sample it yields, so a tree is a pure function
//! of its input. A configuration that a node cannot work with is refused while
//! the tree is built, with a [`ConfigError`].
pub mod error;
pub mod interpolate;
pub mod laws;
pub mod noise_fns;
pub mod scalar;

pub use crate::error::ConfigError;
pub use crate::noise_fns::{
    Abs, Add, Blend, Cache, Clamp, Compose, Constant, ControlPoint, ControlPoints, Coordinates,
    Curve, Displace, Max, Memo, Min, Multiply, Negate, NoiseFn, Rotate, RotatePoint, ScaleBias,
    ScalePoint, Seedable, Select, Terrace, TransformerArgs, TranslatePoint, Turbulence, Turn,
};
pub use crate::scalar::Scalar;
