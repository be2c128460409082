//! The number type that the simulation computes with, and the relations by
//! which contracts speak of its operations.
use vstd::prelude::*;

verus! {

/// A number type with the arithmetic that the simulation needs.
///
/// No operation has a precondition, and none promises anything of its result:
/// an implementation may round, saturate or yield a value that is not a number.
/// What a function of this library computes is therefore stated as a relation
/// between its arguments and the results that the operations actually gave.
pub trait Scalar: Copy {
    /// The number nearest to the integer `n`.
    fn from_usize(n: usize) -> Self;

    /// `self + rhs`.
    fn add(self, rhs: Self) -> Self;

    /// `self - rhs`.
    fn sub(self, rhs: Self) -> Self;

    /// `self * rhs`.
    fn mul(self, rhs: Self) -> Self;

    /// `self / rhs`.
    fn div(self, rhs: Self) -> Self;

    /// The natural logarithm of `self`.
    fn ln(self) -> Self;

    /// The square root of `self`.
    fn sqrt(self) -> Self;

    /// `self` raised to the integer power `n`.
    fn powi(self, n: i32) -> Self;

    /// `self` raised to the power `exponent`.
    fn powf(self, exponent: Self) -> Self;

    /// The larger of `self` and `other`.
    fn max(self, other: Self) -> Self;

    /// Whether `self` is strictly greater than `rhs`.
    fn gt(self, rhs: Self) -> bool;
}

/// `r` is a value that `T::from_usize(n)` can return.
#[verifier::inline]
pub open spec fn is_from_usize<T: Scalar>(n: usize, r: T) -> bool {
    call_ensures(T::from_usize, (n,), r)
}

/// `r` is a value that `a.add(b)` can return.
#[verifier::inline]
pub open spec fn is_sum<T: Scalar>(a: T, b: T, r: T) -> bool {
    call_ensures(T::add, (a, b), r)
}

/// `r` is a value that `a.sub(b)` can return.
#[verifier::inline]
pub open spec fn is_difference<T: Scalar>(a: T, b: T, r: T) -> bool {
    call_ensures(T::sub, (a, b), r)
}

/// `r` is a value that `a.mul(b)` can return.
#[verifier::inline]
pub open spec fn is_product<T: Scalar>(a: T, b: T, r: T) -> bool {
    call_ensures(T::mul, (a, b), r)
}

/// `r` is a value that `a.div(b)` can return.
#[verifier::inline]
pub open spec fn is_quotient<T: Scalar>(a: T, b: T, r: T) -> bool {
    call_ensures(T::div, (a, b), r)
}

/// `r` is a value that `a.ln()` can return.
#[verifier::inline]
pub open spec fn is_ln<T: Scalar>(a: T, r: T) -> bool {
    call_ensures(T::ln, (a,), r)
}

/// `r` is a value that `a.sqrt()` can return.
#[verifier::inline]
pub open spec fn is_sqrt<T: Scalar>(a: T, r: T) -> bool {
    call_ensures(T::sqrt, (a,), r)
}

/// `r` is a value that `a.powi(n)` can return.
#[verifier::inline]
pub open spec fn is_int_power<T: Scalar>(a: T, n: i32, r: T) -> bool {
    call_ensures(T::powi, (a, n), r)
}

/// `r` is a value that `a.powf(exponent)` can return.
#[verifier::inline]
pub open spec fn is_power<T: Scalar>(a: T, exponent: T, r: T) -> bool {
    call_ensures(T::powf, (a, exponent), r)
}

/// `r` is a value that `a.max(b)` can return.
#[verifier::inline]
pub open spec fn is_max<T: Scalar>(a: T, b: T, r: T) -> bool {
    call_ensures(T::max, (a, b), r)
}

/// `verdict` is an answer that `a.gt(b)` can give.
#[verifier::inline]
pub open spec fn is_gt<T: Scalar>(a: T, b: T, verdict: bool) -> bool {
    call_ensures(T::gt, (a, b), verdict)
}

/// Every operation of `T` gives one result for the same arguments.
pub open spec fn deterministic<T: Scalar>() -> bool {
    &&& forall|n: usize, r1: T, r2: T|
        #![trigger is_from_usize(n, r1), is_from_usize(n, r2)]
        is_from_usize(n, r1) && is_from_usize(n, r2) ==> r1 == r2
    &&& forall|a: T, b: T, r1: T, r2: T|
        #![trigger is_sum(a, b, r1), is_sum(a, b, r2)]
        is_sum(a, b, r1) && is_sum(a, b, r2) ==> r1 == r2
    &&& forall|a: T, b: T, r1: T, r2: T|
        #![trigger is_difference(a, b, r1), is_difference(a, b, r2)]
        is_difference(a, b, r1) && is_difference(a, b, r2) ==> r1 == r2
    &&& forall|a: T, b: T, r1: T, r2: T|
        #![trigger is_product(a, b, r1), is_product(a, b, r2)]
        is_product(a, b, r1) && is_product(a, b, r2) ==> r1 == r2
    &&& forall|a: T, b: T, r1: T, r2: T|
        #![trigger is_quotient(a, b, r1), is_quotient(a, b, r2)]
        is_quotient(a, b, r1) && is_quotient(a, b, r2) ==> r1 == r2
    &&& forall|a: T, r1: T, r2: T|
        #![trigger is_ln(a, r1), is_ln(a, r2)]
        is_ln(a, r1) && is_ln(a, r2) ==> r1 == r2
    &&& forall|a: T, r1: T, r2: T|
        #![trigger is_sqrt(a, r1), is_sqrt(a, r2)]
        is_sqrt(a, r1) && is_sqrt(a, r2) ==> r1 == r2
    &&& forall|a: T, n: i32, r1: T, r2: T|
        #![trigger is_int_power(a, n, r1), is_int_power(a, n, r2)]
        is_int_power(a, n, r1) && is_int_power(a, n, r2) ==> r1 == r2
    &&& forall|a: T, b: T, r1: T, r2: T|
        #![trigger is_power(a, b, r1), is_power(a, b, r2)]
        is_power(a, b, r1) && is_power(a, b, r2) ==> r1 == r2
    &&& forall|a: T, b: T, r1: T, r2: T|
        #![trigger is_max(a, b, r1), is_max(a, b, r2)]
        is_max(a, b, r1) && is_max(a, b, r2) ==> r1 == r2
    &&& forall|a: T, b: T, v1: bool, v2: bool|
        #![trigger is_gt(a, b, v1), is_gt(a, b, v2)]
        is_gt(a, b, v1) && is_gt(a, b, v2) ==> v1 == v2
}

} // verus!
