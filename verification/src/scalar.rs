//! The numbers a noise tree computes with.
//!
//! Arithmetic on a generic number may be undefined for some operands (an integer
//! sum that leaves the type's range). The specification functions here therefore
//! work on `Option`: a step is `None` where the operator's specification gives no
//! result, and `None` propagates through everything built on it.
use vstd::prelude::*;
use vstd::std_specs::cmp::{PartialEqSpec, PartialOrdIs, PartialOrdSpec};
use vstd::std_specs::convert::FromSpec;
use vstd::std_specs::ops::{AddSpec, DivSpec, MulSpec, NegSpec, SubSpec};

verus! {

/// A number type that samples and coordinates can have: copied freely, compared
/// with `<`, closed under the four arithmetic operators and negation, and able to
/// hold the small whole numbers that the nodes use as built-in constants.
pub trait Scalar: Copy + PartialOrd + From<i8> + core::ops::Add<Output = Self> + core::ops::Sub<
    Output = Self,
> + core::ops::Mul<Output = Self> + core::ops::Div<Output = Self> + core::ops::Neg<Output = Self> {

}

impl<V> Scalar for V where
    V: Copy + PartialOrd + From<i8> + core::ops::Add<Output = V> + core::ops::Sub<Output = V>
        + core::ops::Mul<Output = V> + core::ops::Div<Output = V> + core::ops::Neg<Output = V>,
 {

}

/// Comparisons of `V` at run time, with `<`, `<=` and `==`, agree with the order
/// and the equality that `V` specifies.
pub open spec fn ordered<V: Scalar>() -> bool {
    V::obeys_partial_cmp_spec() && V::obeys_eq_spec()
}

/// The whole number `n` as a `V`.
pub open spec fn whole<V: Scalar>(n: i8) -> Option<V> {
    if V::obeys_from_spec() {
        Some(V::from_spec(n))
    } else {
        None
    }
}

/// `a + b`, where both are defined and the sum is.
pub open spec fn sum<V: Scalar>(a: Option<V>, b: Option<V>) -> Option<V> {
    match (a, b) {
        (Some(x), Some(y)) => if V::obeys_add_spec() && x.add_req(y) {
            Some(x.add_spec(y))
        } else {
            None
        },
        _ => None,
    }
}

/// `a - b`, where both are defined and the difference is.
pub open spec fn difference<V: Scalar>(a: Option<V>, b: Option<V>) -> Option<V> {
    match (a, b) {
        (Some(x), Some(y)) => if V::obeys_sub_spec() && x.sub_req(y) {
            Some(x.sub_spec(y))
        } else {
            None
        },
        _ => None,
    }
}

/// `a * b`, where both are defined and the product is.
pub open spec fn product<V: Scalar>(a: Option<V>, b: Option<V>) -> Option<V> {
    match (a, b) {
        (Some(x), Some(y)) => if V::obeys_mul_spec() && x.mul_req(y) {
            Some(x.mul_spec(y))
        } else {
            None
        },
        _ => None,
    }
}

/// `a / b`, where both are defined and the quotient is.
pub open spec fn quotient<V: Scalar>(a: Option<V>, b: Option<V>) -> Option<V> {
    match (a, b) {
        (Some(x), Some(y)) => if V::obeys_div_spec() && x.div_req(y) {
            Some(x.div_spec(y))
        } else {
            None
        },
        _ => None,
    }
}

/// `-a`, where `a` is defined and its negation is.
pub open spec fn negation<V: Scalar>(a: Option<V>) -> Option<V> {
    match a {
        Some(x) => if V::obeys_neg_spec() && x.neg_req() {
            Some(x.neg_spec())
        } else {
            None
        },
        None => None,
    }
}

/// `a < b` in the order that `V` specifies.
pub open spec fn below<V: Scalar>(a: V, b: V) -> bool {
    a.is_lt(&b)
}

/// `a <= b` in the order that `V` specifies.
pub open spec fn at_most<V: Scalar>(a: V, b: V) -> bool {
    a.is_le(&b)
}

/// `a` equals itself in the equality that `V` specifies. A value that does not
/// is one that stands for no number, and takes no place in the order.
pub open spec fn is_number<V: Scalar>(a: V) -> bool {
    a.eq_spec(&a)
}

/// The order of `V` is total and strict: of `a < b`, `a == b` and `b < a` exactly
/// one holds, `<` is transitive, and `a <= b` means `a < b` or `a == b`.
pub open spec fn totally_ordered<V: Scalar>() -> bool {
    &&& forall|a: V, b: V| #[trigger] below(a, b) ==> !below(b, a) && a != b
    &&& forall|a: V, b: V| !(#[trigger] below(a, b)) && a != b ==> below(b, a)
    &&& forall|a: V, b: V, c: V| #[trigger] below(a, b) && #[trigger] below(b, c) ==> below(a, c)
    &&& forall|a: V, b: V| #[trigger] at_most(a, b) <==> below(a, b) || a == b
}

/// Sums of `V` do not depend on the order of the summands.
pub open spec fn addition_commutes<V: Scalar>() -> bool {
    forall|a: V, b: V|
        #![trigger a.add_spec(b)]
        #![trigger a.add_req(b)]
        a.add_req(b) == b.add_req(a) && a.add_spec(b) == b.add_spec(a)
}

/// Products of `V` do not depend on the order of the factors.
pub open spec fn multiplication_commutes<V: Scalar>() -> bool {
    forall|a: V, b: V|
        #![trigger a.mul_spec(b)]
        #![trigger a.mul_req(b)]
        a.mul_req(b) == b.mul_req(a) && a.mul_spec(b) == b.mul_spec(a)
}

/// Negating a `V` twice, where both negations are defined, gives it back.
pub open spec fn negation_undoes_itself<V: Scalar>() -> bool {
    forall|a: V| #[trigger] a.neg_req() && a.neg_spec().neg_req() ==> a.neg_spec().neg_spec() == a
}

/// Equality of `T` at run time is exact: two values compare equal if, and only
/// if, they are the same value.
pub open spec fn exactly_compared<T: PartialEq>() -> bool {
    vstd::laws_eq::obeys_concrete_eq::<T>()
}

/// Computes `-v`.
pub fn negated<V: Scalar>(v: V) -> (r: V)
    requires
        negation(Some(v)) is Some,
    ensures
        negation(Some(v)) == Some(r),
{
    v.neg()
}

/// The whole number `n` as a `V`.
pub fn number<V: Scalar>(n: i8) -> (r: V)
    ensures
        whole::<V>(n) matches Some(w) ==> r == w,
{
    V::from(n)
}

} // verus!
