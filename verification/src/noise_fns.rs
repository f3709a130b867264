//! The contract that every noise function meets, and the nodes built on it.
use crate::scalar::{at_most, number, whole, Scalar};
use core::marker::PhantomData;
use vstd::prelude::*;
use vstd::std_specs::convert::IntoSpec;

pub mod cache;
pub mod combiners;
pub mod generators;
pub mod modifiers;
pub mod selectors;
pub mod transformers;

pub use self::cache::{Cache, Memo};
pub use self::combiners::{Add, Max, Min, Multiply};
pub use self::generators::Constant;
pub use self::modifiers::{
    Abs, Clamp, ControlPoint, ControlPoints, Curve, Negate, ScaleBias, Terrace,
};
pub use self::selectors::{Blend, Select};
pub use self::transformers::{
    Coordinates, Displace, Rotate, RotatePoint, ScalePoint, TransformerArgs, TranslatePoint,
    Turbulence, Turn,
};

verus! {

/// A noise function: something that yields a sample for each point of a
/// `DIM`-dimensional space with coordinates of type `T`.
///
/// `value` says which sample belongs to a point. It depends on nothing but the
/// node and the point, so sampling the same node at the same point always gives
/// the same result. It is `None` at the points where the node cannot be sampled,
/// because a step of its arithmetic is undefined there.
///
/// The other methods are builders: each wraps the function into a node that is a
/// noise function again, so that a tree is built by chaining calls. [`Compose`]
/// holds the rest of them.
pub trait NoiseFn<T, const DIM: usize> {
    /// The type of the samples.
    type Sample;

    /// The sample at `point`.
    spec fn value(&self, point: [T; DIM]) -> Option<Self::Sample>;

    /// Samples the function at `point`.
    fn get(&self, point: [T; DIM]) -> (sample: Self::Sample)
        requires
            self.value(point) is Some,
        ensures
            self.value(point) == Some(sample),
    ;

    /// The absolute value of this function.
    fn abs(self) -> (node: Abs<T, Self, DIM>) where Self: Sized
        ensures
            node.source == self,
    {
        Abs::new(self)
    }

    /// This function plus `value`.
    fn add_constant(self, value: Self::Sample) -> (node: Add<
        T,
        Self,
        Constant<Self::Sample>,
        DIM,
    >) where Self: Sized
        ensures
            node.source1 == self,
            node.source2.value == value,
    {
        Add::new(self, Constant::new(value))
    }

    /// This function clamped to `[-1, 1]`.
    fn clamp(self) -> (node: Clamp<T, Self, DIM>) where Self: Sized, Self::Sample: Scalar
        ensures
            node.source == self,
            whole::<Self::Sample>(-1i8) matches Some(low) ==> node.lower == low,
            whole::<Self::Sample>(1) matches Some(high) ==> node.upper == high,
    {
        Clamp { source: self, lower: number(-1), upper: number(1), phantom: PhantomData }
    }

    /// This function clamped to `[lower_bound, upper_bound]`.
    fn clamp_by(self, lower_bound: Self::Sample, upper_bound: Self::Sample) -> (node: Clamp<
        T,
        Self,
        DIM,
    >) where Self: Sized, Self::Sample: Scalar
        requires
            at_most(lower_bound, upper_bound),
        ensures
            node.source == self,
            node.lower == lower_bound,
            node.upper == upper_bound,
    {
        Clamp { source: self, lower: lower_bound, upper: upper_bound, phantom: PhantomData }
    }

    /// A curve over this function, to which control points are added next.
    fn curve(self) -> (node: Curve<T, Self, DIM>) where Self: Sized, Self::Sample: Scalar
        ensures
            node.source == self,
            node.control_points@ == Seq::<ControlPoint<Self::Sample>>::empty(),
    {
        Curve { source: self, control_points: ControlPoints::new(), phantom: PhantomData }
    }

    /// The larger of this function and `value`.
    fn max_constant(self, value: Self::Sample) -> (node: Max<
        T,
        Self,
        Constant<Self::Sample>,
        DIM,
    >) where Self: Sized
        ensures
            node.source1 == self,
            node.source2.value == value,
    {
        Max::new(self, Constant::new(value))
    }

    /// The smaller of this function and `value`.
    fn min_constant(self, value: Self::Sample) -> (node: Min<
        T,
        Self,
        Constant<Self::Sample>,
        DIM,
    >) where Self: Sized
        ensures
            node.source1 == self,
            node.source2.value == value,
    {
        Min::new(self, Constant::new(value))
    }

    /// This function times `value`.
    fn multiply_constant(self, value: Self::Sample) -> (node: Multiply<
        T,
        Self,
        Constant<Self::Sample>,
        DIM,
    >) where Self: Sized
        ensures
            node.source1 == self,
            node.source2.value == value,
    {
        Multiply::new(self, Constant::new(value))
    }

    /// The negation of this function.
    fn negate(self) -> (node: Negate<T, Self, DIM>) where Self: Sized
        ensures
            node.source == self,
    {
        Negate::new(self)
    }

    /// This function with no turn of the point, as a start for setting turns.
    fn rotate_point(self) -> (node: RotatePoint<Self, T>) where Self: Sized, T: Scalar
        ensures
            node.source == self,
            whole::<T>(1) matches Some(one) ==> forall|i: int|
                0 <= i < 4 ==> (#[trigger] node.angles@[i]).cos == one,
            whole::<T>(0) matches Some(zero) ==> forall|i: int|
                0 <= i < 4 ==> (#[trigger] node.angles@[i]).sin == zero,
    {
        RotatePoint::new(self)
    }

    /// This function with the scale 1 and the bias 0, as a start for setting
    /// them.
    fn scale_bias(self) -> (node: ScaleBias<T, Self, DIM>) where Self: Sized, Self::Sample: Scalar
        ensures
            node.source == self,
            whole::<Self::Sample>(1) matches Some(one) ==> node.scale == one,
            whole::<Self::Sample>(0) matches Some(zero) ==> node.bias == zero,
    {
        ScaleBias { source: self, scale: number(1), bias: number(0), phantom: PhantomData }
    }

    /// This function with the point stretched by 1, as a start for setting
    /// factors.
    fn scale_point(self) -> (node: ScalePoint<Self, T>) where Self: Sized, T: Scalar
        ensures
            node.source == self,
            whole::<T>(1) matches Some(one) ==> node.scale@ == seq![one, one, one, one],
    {
        ScalePoint::new(self)
    }

    /// Terraces over this function, to which control points are added next.
    fn terrace(self) -> (node: Terrace<T, Self, DIM>) where Self: Sized, Self::Sample: Scalar
        ensures
            node.source == self,
            node.control_points@ == Seq::<ControlPoint<Self::Sample>>::empty(),
            !node.inverted,
    {
        Terrace {
            source: self,
            control_points: ControlPoints::new(),
            inverted: false,
            phantom: PhantomData,
        }
    }

    /// This function with the point moved by 0, as a start for setting offsets.
    fn translate_point(self) -> (node: TranslatePoint<Self, T>) where Self: Sized, T: Scalar
        ensures
            node.source == self,
            whole::<T>(0) matches Some(zero) ==> node.translation@ == seq![zero, zero, zero, zero],
    {
        TranslatePoint::new(self)
    }
}

impl<'a, T, M: NoiseFn<T, DIM> + ?Sized, const DIM: usize> NoiseFn<T, DIM> for &'a M {
    type Sample = M::Sample;

    open spec fn value(&self, point: [T; DIM]) -> Option<M::Sample> {
        (**self).value(point)
    }

    fn get(&self, point: [T; DIM]) -> (sample: M::Sample) {
        (**self).get(point)
    }
}

impl<T, M: NoiseFn<T, DIM> + ?Sized, const DIM: usize> NoiseFn<T, DIM> for Box<M> {
    type Sample = M::Sample;

    open spec fn value(&self, point: [T; DIM]) -> Option<M::Sample> {
        (**self).value(point)
    }

    fn get(&self, point: [T; DIM]) -> (sample: M::Sample) {
        (**self).get(point)
    }
}

/// The builders that take further noise functions, or arguments of a type that
/// the caller chooses. Every noise function has them.
pub trait Compose<T, const DIM: usize>: NoiseFn<T, DIM> + Sized {
    /// This function plus `other`.
    fn add<Other>(self, other: Other) -> (node: Add<T, Self, Other, DIM>) where
        Other: NoiseFn<T, DIM, Sample = Self::Sample>,

        ensures
            node.source1 == self,
            node.source2 == other,
    ;

    /// This function and `other`, blended by `control`.
    fn blend<Other, Control>(self, other: Other, control: Control) -> (node: Blend<
        T,
        Self,
        Other,
        Control,
        DIM,
    >) where
        Other: NoiseFn<T, DIM, Sample = Self::Sample>,
        Control: NoiseFn<T, DIM, Sample = Self::Sample>,

        ensures
            node.source1 == self,
            node.source2 == other,
            node.control == control,
    ;

    /// This function behind a cache of its last sample.
    fn cache(self) -> (node: Cache<T, Self, DIM>) where T: Copy + PartialEq, Self::Sample: Copy
        ensures
            node.source() == self,
    ;

    /// This function with the point of the plane moved by `x_displace` and
    /// `y_displace`.
    fn displace_xy<XDisplace, YDisplace>(self, x_displace: XDisplace, y_displace: YDisplace) -> (node:
        Displace<Self, XDisplace, YDisplace, (), ()>) where
        Self: NoiseFn<T, 2>,
        XDisplace: NoiseFn<T, 2, Sample = T>,
        YDisplace: NoiseFn<T, 2, Sample = T>,

        ensures
            node.source == self,
            node.x_displace == x_displace,
            node.y_displace == y_displace,
    ;

    /// This function with the point of space moved by `x_displace`, `y_displace`
    /// and `z_displace`.
    fn displace_xyz<XDisplace, YDisplace, ZDisplace>(
        self,
        x_displace: XDisplace,
        y_displace: YDisplace,
        z_displace: ZDisplace,
    ) -> (node: Displace<Self, XDisplace, YDisplace, ZDisplace, ()>) where
        Self: NoiseFn<T, 3>,
        XDisplace: NoiseFn<T, 3, Sample = T>,
        YDisplace: NoiseFn<T, 3, Sample = T>,
        ZDisplace: NoiseFn<T, 3, Sample = T>,

        ensures
            node.source == self,
            node.x_displace == x_displace,
            node.y_displace == y_displace,
            node.z_displace == z_displace,
    ;

    /// This function with the point of four-dimensional space moved by the four
    /// functions given.
    fn displace_xyzu<XDisplace, YDisplace, ZDisplace, UDisplace>(
        self,
        x_displace: XDisplace,
        y_displace: YDisplace,
        z_displace: ZDisplace,
        u_displace: UDisplace,
    ) -> (node: Displace<Self, XDisplace, YDisplace, ZDisplace, UDisplace>) where
        Self: NoiseFn<T, 4>,
        XDisplace: NoiseFn<T, 4, Sample = T>,
        YDisplace: NoiseFn<T, 4, Sample = T>,
        ZDisplace: NoiseFn<T, 4, Sample = T>,
        UDisplace: NoiseFn<T, 4, Sample = T>,

        ensures
            node.source == self,
            node.x_displace == x_displace,
            node.y_displace == y_displace,
            node.z_displace == z_displace,
            node.u_displace == u_displace,
    ;

    /// The larger of this function and `other`.
    fn max<Other>(self, other: Other) -> (node: Max<T, Self, Other, DIM>) where
        Other: NoiseFn<T, DIM, Sample = Self::Sample>,

        ensures
            node.source1 == self,
            node.source2 == other,
    ;

    /// The smaller of this function and `other`.
    fn min<Other>(self, other: Other) -> (node: Min<T, Self, Other, DIM>) where
        Other: NoiseFn<T, DIM, Sample = Self::Sample>,

        ensures
            node.source1 == self,
            node.source2 == other,
    ;

    /// This function times `other`.
    fn multiply<Other>(self, other: Other) -> (node: Multiply<T, Self, Other, DIM>) where
        Other: NoiseFn<T, DIM, Sample = Self::Sample>,

        ensures
            node.source1 == self,
            node.source2 == other,
    ;

    /// This function with the point turned by `args`: one turn for all axes, or
    /// the turns about `x`, `y`, `z`, `u` as far as they are given. About the
    /// other axes the point is not turned.
    fn rotate_point_by<A>(self, args: A) -> (node: RotatePoint<Self, T>) where
        T: Scalar,
        A: TransformerArgs<Turn<T>>,

        ensures
            node.source == self,
            whole::<T>(1) matches Some(one) ==> (whole::<T>(0) matches Some(zero) ==> node.angles@
                == args.expanded(Turn { cos: one, sin: zero })),
    ;

    /// Samples the function at `point`, which may be of any type that converts
    /// into an array of coordinates.
    fn sample<P: Into<[T; DIM]>>(&self, point: P) -> (sample: Self::Sample)
        requires
            P::obeys_into_spec(),
            self.value(point.into_spec()) is Some,
        ensures
            self.value(point.into_spec()) == Some(sample),
    ;

    /// This function with the point stretched by `args`: one factor for all
    /// axes, or the factors along `x`, `y`, `z`, `u` as far as they are given.
    /// The other axes keep the factor 1.
    fn scale_point_by<A>(self, args: A) -> (node: ScalePoint<Self, T>) where
        T: Scalar,
        A: TransformerArgs<T>,

        ensures
            node.source == self,
            whole::<T>(1) matches Some(one) ==> node.scale@ == args.expanded(one),
    ;

    /// This function where the output of `control` lies at or below 0, `other`
    /// where it lies at or above 1, and a mixture of the two in between.
    fn select<Other, Control>(self, other: Other, control: Control) -> (node: Select<
        T,
        Self,
        Other,
        Control,
        DIM,
    >) where
        Self::Sample: Scalar,
        Other: NoiseFn<T, DIM, Sample = Self::Sample>,
        Control: NoiseFn<T, DIM, Sample = Self::Sample>,

        ensures
            node.source1 == self,
            node.source2 == other,
            node.control == control,
            whole::<Self::Sample>(0) matches Some(zero) ==> node.lower == zero,
            whole::<Self::Sample>(1) matches Some(one) ==> node.upper == one,
            !node.smooth,
    ;

    /// This function with the point moved by `args`: one offset for all axes, or
    /// the offsets along `x`, `y`, `z`, `u` as far as they are given. The other
    /// axes keep the offset 0.
    fn translate_point_by<A>(self, args: A) -> (node: TranslatePoint<Self, T>) where
        T: Scalar,
        A: TransformerArgs<T>,

        ensures
            node.source == self,
            whole::<T>(0) matches Some(zero) ==> node.translation@ == args.expanded(zero),
    ;

    /// This function with the point moved by noise from functions of the type
    /// `F`.
    fn turbulence<F>(self) -> (node: Turbulence<Self, F, T>) where
        T: Scalar,
        F: Default + Seedable,

        ensures
            node.source == self,
            node.seed == self::transformers::turbulence::DEFAULT_SEED,
            whole::<T>(1) matches Some(one) ==> node.frequency == one && node.power == one,
            node.roughness == self::transformers::turbulence::DEFAULT_ROUGHNESS,
            node.seeded(),
    ;
}

impl<T, N: NoiseFn<T, DIM>, const DIM: usize> Compose<T, DIM> for N {
    fn add<Other>(self, other: Other) -> (node: Add<T, Self, Other, DIM>) where
        Other: NoiseFn<T, DIM, Sample = Self::Sample>,
     {
        Add::new(self, other)
    }

    fn blend<Other, Control>(self, other: Other, control: Control) -> (node: Blend<
        T,
        Self,
        Other,
        Control,
        DIM,
    >) where
        Other: NoiseFn<T, DIM, Sample = Self::Sample>,
        Control: NoiseFn<T, DIM, Sample = Self::Sample>,
     {
        Blend::new(self, other, control)
    }

    fn cache(self) -> (node: Cache<T, Self, DIM>) where T: Copy + PartialEq, Self::Sample: Copy {
        Cache::new(self)
    }

    fn displace_xy<XDisplace, YDisplace>(self, x_displace: XDisplace, y_displace: YDisplace) -> (node:
        Displace<Self, XDisplace, YDisplace, (), ()>) where
        Self: NoiseFn<T, 2>,
        XDisplace: NoiseFn<T, 2, Sample = T>,
        YDisplace: NoiseFn<T, 2, Sample = T>,
     {
        Displace::new(self, x_displace, y_displace, (), ())
    }

    fn displace_xyz<XDisplace, YDisplace, ZDisplace>(
        self,
        x_displace: XDisplace,
        y_displace: YDisplace,
        z_displace: ZDisplace,
    ) -> (node: Displace<Self, XDisplace, YDisplace, ZDisplace, ()>) where
        Self: NoiseFn<T, 3>,
        XDisplace: NoiseFn<T, 3, Sample = T>,
        YDisplace: NoiseFn<T, 3, Sample = T>,
        ZDisplace: NoiseFn<T, 3, Sample = T>,
     {
        Displace::new(self, x_displace, y_displace, z_displace, ())
    }

    fn displace_xyzu<XDisplace, YDisplace, ZDisplace, UDisplace>(
        self,
        x_displace: XDisplace,
        y_displace: YDisplace,
        z_displace: ZDisplace,
        u_displace: UDisplace,
    ) -> (node: Displace<Self, XDisplace, YDisplace, ZDisplace, UDisplace>) where
        Self: NoiseFn<T, 4>,
        XDisplace: NoiseFn<T, 4, Sample = T>,
        YDisplace: NoiseFn<T, 4, Sample = T>,
        ZDisplace: NoiseFn<T, 4, Sample = T>,
        UDisplace: NoiseFn<T, 4, Sample = T>,
     {
        Displace::new(self, x_displace, y_displace, z_displace, u_displace)
    }

    fn max<Other>(self, other: Other) -> (node: Max<T, Self, Other, DIM>) where
        Other: NoiseFn<T, DIM, Sample = Self::Sample>,
     {
        Max::new(self, other)
    }

    fn min<Other>(self, other: Other) -> (node: Min<T, Self, Other, DIM>) where
        Other: NoiseFn<T, DIM, Sample = Self::Sample>,
     {
        Min::new(self, other)
    }

    fn multiply<Other>(self, other: Other) -> (node: Multiply<T, Self, Other, DIM>) where
        Other: NoiseFn<T, DIM, Sample = Self::Sample>,
     {
        Multiply::new(self, other)
    }

    fn rotate_point_by<A>(self, args: A) -> (node: RotatePoint<Self, T>) where
        T: Scalar,
        A: TransformerArgs<Turn<T>>,
     {
        let turns = args.expand(Turn::none());
        RotatePoint::new(self).set_angles(turns[0], turns[1], turns[2], turns[3])
    }

    fn sample<P: Into<[T; DIM]>>(&self, point: P) -> (sample: Self::Sample) {
        self.get(point.into())
    }

    fn scale_point_by<A>(self, args: A) -> (node: ScalePoint<Self, T>) where
        T: Scalar,
        A: TransformerArgs<T>,
     {
        let factors = args.expand(number(1));
        ScalePoint::new(self).set_all_scales(factors[0], factors[1], factors[2], factors[3])
    }

    fn select<Other, Control>(self, other: Other, control: Control) -> (node: Select<
        T,
        Self,
        Other,
        Control,
        DIM,
    >) where
        Self::Sample: Scalar,
        Other: NoiseFn<T, DIM, Sample = Self::Sample>,
        Control: NoiseFn<T, DIM, Sample = Self::Sample>,
     {
        Select::new(self, other, control)
    }

    fn translate_point_by<A>(self, args: A) -> (node: TranslatePoint<Self, T>) where
        T: Scalar,
        A: TransformerArgs<T>,
     {
        let offsets = args.expand(number(0));
        TranslatePoint::new(self).set_all_translations(offsets[0], offsets[1], offsets[2], offsets[3])
    }

    fn turbulence<F>(self) -> (node: Turbulence<Self, F, T>) where
        T: Scalar,
        F: Default + Seedable,
     {
        Turbulence::new(self)
    }
}

/// A noise function whose output is steered by a seed.
pub trait Seedable {
    /// The seed that the function currently has.
    spec fn seed_value(&self) -> u32;

    /// Returns the function reconfigured to use `seed`.
    fn set_seed(self, seed: u32) -> (reseeded: Self) where Self: Sized
        ensures
            reseeded.seed_value() == seed,
    ;

    /// The seed that the function currently has.
    fn seed(&self) -> (seed: u32)
        ensures
            seed == self.seed_value(),
    ;
}

} // verus!
