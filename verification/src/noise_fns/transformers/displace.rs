//! Moving the point by the outputs of further noise functions.
use crate::noise_fns::NoiseFn;
use crate::scalar::{sum, Scalar};
use vstd::prelude::*;

verus! {

/// A node that moves each coordinate of the point by the output of a noise
/// function of its own, sampled at the point as it came in, before it samples
/// its source.
///
/// An axis for which there is no such function, because the space does not have
/// it, carries `()` in its place and stays out of the move.
pub struct Displace<Source, XDisplace, YDisplace, ZDisplace, UDisplace> {
    /// The function that is sampled at the moved point.
    pub source: Source,
    /// The function that moves the point along `x`.
    pub x_displace: XDisplace,
    /// The function that moves the point along `y`.
    pub y_displace: YDisplace,
    /// The function that moves the point along `z`.
    pub z_displace: ZDisplace,
    /// The function that moves the point along `u`.
    pub u_displace: UDisplace,
}

impl<Source, XDisplace, YDisplace, ZDisplace, UDisplace> Displace<
    Source,
    XDisplace,
    YDisplace,
    ZDisplace,
    UDisplace,
> {
    /// `source`, displaced along each axis by the function given for it.
    pub fn new(
        source: Source,
        x_displace: XDisplace,
        y_displace: YDisplace,
        z_displace: ZDisplace,
        u_displace: UDisplace,
    ) -> (node: Self)
        ensures
            node.source == source,
            node.x_displace == x_displace,
            node.y_displace == y_displace,
            node.z_displace == z_displace,
            node.u_displace == u_displace,
    {
        Displace { source, x_displace, y_displace, z_displace, u_displace }
    }
}

impl<T, Source, XDisplace, YDisplace, ZDisplace, UDisplace> NoiseFn<T, 2> for Displace<
    Source,
    XDisplace,
    YDisplace,
    ZDisplace,
    UDisplace,
> where
    T: Scalar,
    Source: NoiseFn<T, 2>,
    XDisplace: NoiseFn<T, 2, Sample = T>,
    YDisplace: NoiseFn<T, 2, Sample = T>,
 {
    type Sample = Source::Sample;

    open spec fn value(&self, point: [T; 2]) -> Option<Source::Sample> {
        match (
            sum(Some(point@[0]), self.x_displace.value(point)),
            sum(Some(point@[1]), self.y_displace.value(point)),
        ) {
            (Some(x), Some(y)) => self.source.value([x, y]),
            _ => None,
        }
    }

    fn get(&self, point: [T; 2]) -> (sample: Source::Sample) {
        let x = point[0] + self.x_displace.get(point);
        let y = point[1] + self.y_displace.get(point);
        self.source.get([x, y])
    }
}

impl<T, Source, XDisplace, YDisplace, ZDisplace, UDisplace> NoiseFn<T, 3> for Displace<
    Source,
    XDisplace,
    YDisplace,
    ZDisplace,
    UDisplace,
> where
    T: Scalar,
    Source: NoiseFn<T, 3>,
    XDisplace: NoiseFn<T, 3, Sample = T>,
    YDisplace: NoiseFn<T, 3, Sample = T>,
    ZDisplace: NoiseFn<T, 3, Sample = T>,
 {
    type Sample = Source::Sample;

    open spec fn value(&self, point: [T; 3]) -> Option<Source::Sample> {
        match (
            sum(Some(point@[0]), self.x_displace.value(point)),
            sum(Some(point@[1]), self.y_displace.value(point)),
            sum(Some(point@[2]), self.z_displace.value(point)),
        ) {
            (Some(x), Some(y), Some(z)) => self.source.value([x, y, z]),
            _ => None,
        }
    }

    fn get(&self, point: [T; 3]) -> (sample: Source::Sample) {
        let x = point[0] + self.x_displace.get(point);
        let y = point[1] + self.y_displace.get(point);
        let z = point[2] + self.z_displace.get(point);
        self.source.get([x, y, z])
    }
}

impl<T, Source, XDisplace, YDisplace, ZDisplace, UDisplace> NoiseFn<T, 4> for Displace<
    Source,
    XDisplace,
    YDisplace,
    ZDisplace,
    UDisplace,
> where
    T: Scalar,
    Source: NoiseFn<T, 4>,
    XDisplace: NoiseFn<T, 4, Sample = T>,
    YDisplace: NoiseFn<T, 4, Sample = T>,
    ZDisplace: NoiseFn<T, 4, Sample = T>,
    UDisplace: NoiseFn<T, 4, Sample = T>,
 {
    type Sample = Source::Sample;

    open spec fn value(&self, point: [T; 4]) -> Option<Source::Sample> {
        match (
            sum(Some(point@[0]), self.x_displace.value(point)),
            sum(Some(point@[1]), self.y_displace.value(point)),
            sum(Some(point@[2]), self.z_displace.value(point)),
            sum(Some(point@[3]), self.u_displace.value(point)),
        ) {
            (Some(x), Some(y), Some(z), Some(u)) => self.source.value([x, y, z, u]),
            _ => None,
        }
    }

    fn get(&self, point: [T; 4]) -> (sample: Source::Sample) {
        let x = point[0] + self.x_displace.get(point);
        let y = point[1] + self.y_displace.get(point);
        let z = point[2] + self.z_displace.get(point);
        let u = point[3] + self.u_displace.get(point);
        self.source.get([x, y, z, u])
    }
}

} // verus!
