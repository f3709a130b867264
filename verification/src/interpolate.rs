//! Arithmetic shared by the nodes: magnitudes, extremes, clamping and the
//! interpolation formulas.
//!
//! Each function comes with a specification function of the same arguments that
//! is `Some` of the result where every step of the formula is defined.
use crate::scalar::{
    below, difference, is_number, negated, negation, number, ordered, product, sum, whole, Scalar,
};
use vstd::prelude::*;

verus! {

/// `|v|`: the negation of `v` where `v` lies below zero, `v` itself where it lies
/// above, and zero where it is a number that does neither. What is no number
/// stays as it is.
pub open spec fn magnitude_value<V: Scalar>(v: V) -> Option<V> {
    match whole::<V>(0) {
        Some(zero) => if !ordered::<V>() {
            None
        } else if below(v, zero) {
            negation(Some(v))
        } else if below(zero, v) || !is_number(v) {
            Some(v)
        } else {
            Some(zero)
        },
        None => None,
    }
}

/// `m` with the sign of `v`: `m` itself, or its negation where `v` lies below zero.
pub open spec fn with_sign_of_value<V: Scalar>(m: V, v: V) -> Option<V> {
    match whole::<V>(0) {
        Some(zero) => if !ordered::<V>() {
            None
        } else if below(v, zero) {
            negation(Some(m))
        } else {
            Some(m)
        },
        None => None,
    }
}

/// The larger of two values. Where neither lies below the other, it is `a` if
/// `a` is a number and `b` if not: what is no number gives way to what is.
pub open spec fn larger_value<V: Scalar>(a: V, b: V) -> Option<V> {
    if !ordered::<V>() {
        None
    } else if below(a, b) {
        Some(b)
    } else if below(b, a) || is_number(a) {
        Some(a)
    } else {
        Some(b)
    }
}

/// The smaller of two values. Where neither lies below the other, it is `a` if
/// `a` is a number and `b` if not: what is no number gives way to what is.
pub open spec fn smaller_value<V: Scalar>(a: V, b: V) -> Option<V> {
    if !ordered::<V>() {
        None
    } else if below(b, a) {
        Some(b)
    } else if below(a, b) || is_number(a) {
        Some(a)
    } else {
        Some(b)
    }
}

/// `v` brought into `[lower, upper]`: `lower` where `v` lies below it, `upper`
/// where `v` lies above it, else `v`.
pub open spec fn clamped_value<V: Scalar>(v: V, lower: V, upper: V) -> Option<V> {
    if !ordered::<V>() {
        None
    } else if below(v, lower) {
        Some(lower)
    } else if below(upper, v) {
        Some(upper)
    } else {
        Some(v)
    }
}

/// The point at fraction `t` of the way from `a` to `b`: `a + (b - a) * t`.
pub open spec fn linear_value<V: Scalar>(a: V, b: V, t: V) -> Option<V> {
    sum(Some(a), product(difference(Some(b), Some(a)), Some(t)))
}

/// The smooth step `t * t * (3 - 2 * t)`, which has slope zero at `t = 0` and at
/// `t = 1`.
pub open spec fn s_curve_value<V: Scalar>(t: V) -> Option<V> {
    product(
        product(Some(t), Some(t)),
        difference(whole::<V>(3), product(whole::<V>(2), Some(t))),
    )
}

/// The cubic through `n1` (at `t = 0`) and `n2` (at `t = 1`) whose shape is
/// steered by the neighbours `n0` and `n3`:
/// `((p * t + q) * t + r) * t + n1` with `p = (n3 - n2) - (n0 - n1)`,
/// `q = (n0 - n1) - p` and `r = n2 - n0`.
pub open spec fn cubic_value<V: Scalar>(n0: V, n1: V, n2: V, n3: V, t: V) -> Option<V> {
    let fall = difference(Some(n0), Some(n1));
    let p = difference(difference(Some(n3), Some(n2)), fall);
    let q = difference(fall, p);
    let r = difference(Some(n2), Some(n0));
    sum(product(sum(product(sum(product(p, Some(t)), q), Some(t)), r), Some(t)), Some(n1))
}

/// Computes `|v|`.
pub fn magnitude<V: Scalar>(v: V) -> (r: V)
    requires
        magnitude_value(v) is Some,
    ensures
        magnitude_value(v) == Some(r),
{
    let zero: V = number(0);
    if v < zero {
        negated(v)
    } else if zero < v || !(v == v) {
        v
    } else {
        zero
    }
}

/// Gives `m` the sign of `v`.
pub fn with_sign_of<V: Scalar>(m: V, v: V) -> (r: V)
    requires
        with_sign_of_value(m, v) is Some,
    ensures
        with_sign_of_value(m, v) == Some(r),
{
    let zero: V = number(0);
    if v < zero {
        negated(m)
    } else {
        m
    }
}

/// Picks the larger of two values.
pub fn larger<V: Scalar>(a: V, b: V) -> (r: V)
    requires
        larger_value(a, b) is Some,
    ensures
        larger_value(a, b) == Some(r),
{
    if a < b {
        b
    } else if b < a || a == a {
        a
    } else {
        b
    }
}

/// Picks the smaller of two values.
pub fn smaller<V: Scalar>(a: V, b: V) -> (r: V)
    requires
        smaller_value(a, b) is Some,
    ensures
        smaller_value(a, b) == Some(r),
{
    if b < a {
        b
    } else if a < b || a == a {
        a
    } else {
        b
    }
}

/// Brings `v` into `[lower, upper]`.
pub fn clamped<V: Scalar>(v: V, lower: V, upper: V) -> (r: V)
    requires
        clamped_value(v, lower, upper) is Some,
    ensures
        clamped_value(v, lower, upper) == Some(r),
{
    if v < lower {
        lower
    } else if upper < v {
        upper
    } else {
        v
    }
}

/// Interpolates linearly between `a` and `b`.
pub fn linear<V: Scalar>(a: V, b: V, t: V) -> (r: V)
    requires
        linear_value(a, b, t) is Some,
    ensures
        linear_value(a, b, t) == Some(r),
{
    a + (b - a) * t
}

/// Maps `t` through the smooth step.
pub fn s_curve<V: Scalar>(t: V) -> (r: V)
    requires
        s_curve_value(t) is Some,
    ensures
        s_curve_value(t) == Some(r),
{
    let three: V = number(3);
    let two: V = number(2);
    t * t * (three - two * t)
}

/// Interpolates cubically between `n1` and `n2`.
pub fn cubic<V: Scalar>(n0: V, n1: V, n2: V, n3: V, t: V) -> (r: V)
    requires
        cubic_value(n0, n1, n2, n3, t) is Some,
    ensures
        cubic_value(n0, n1, n2, n3, t) == Some(r),
{
    let fall = n0 - n1;
    let p = (n3 - n2) - fall;
    let q = fall - p;
    let r = n2 - n0;
    ((p * t + q) * t + r) * t + n1
}

} // verus!
