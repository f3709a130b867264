//! Nodes that remap the output of one source.
pub mod abs;
pub mod clamp;
pub mod control_points;
pub mod curve;
pub mod negate;
pub mod scale_bias;
pub mod terrace;

pub use self::abs::Abs;
pub use self::clamp::Clamp;
pub use self::control_points::{ControlPoint, ControlPoints};
pub use self::curve::Curve;
pub use self::negate::Negate;
pub use self::scale_bias::ScaleBias;
pub use self::terrace::Terrace;
