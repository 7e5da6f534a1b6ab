//! Calls into `num_traits::Float` for the arithmetic on samples and coefficients.
//!
//! The sample type is any `T: Float`, so what these operations return is
//! opaque to the proofs: the verified code relies on them only to hand values
//! through, never on the values they produce.
use num_traits::{Float, FloatConst};
use vstd::prelude::*;

verus! {

/// Relies on `num_traits::Zero::zero`: the additive identity of `T`.
#[verifier::external_body]
pub(crate) fn zero<T: Float>() -> T {
    T::zero()
}

/// Relies on `num_traits::One::one`: the multiplicative identity of `T`.
#[verifier::external_body]
pub(crate) fn one<T: Float>() -> T {
    T::one()
}

/// Relies on `num_traits::Zero::is_zero`: whether `x` equals zero.
#[verifier::external_body]
pub(crate) fn is_zero<T: Float>(x: T) -> bool {
    x.is_zero()
}

/// Relies on `PartialOrd::le` of `T`: whether `a <= b`.
#[verifier::external_body]
pub(crate) fn at_most<T: Float>(a: T, b: T) -> bool {
    a <= b
}

/// Relies on `Add::add` of `T`.
#[verifier::external_body]
pub(crate) fn plus<T: Float>(a: T, b: T) -> T {
    a + b
}

/// Relies on `Sub::sub` of `T`.
#[verifier::external_body]
pub(crate) fn minus<T: Float>(a: T, b: T) -> T {
    a - b
}

/// Relies on `Mul::mul` of `T`.
#[verifier::external_body]
pub(crate) fn times<T: Float>(a: T, b: T) -> T {
    a * b
}

/// Relies on `Div::div` of `T`.
#[verifier::external_body]
pub(crate) fn over<T: Float>(a: T, b: T) -> T {
    a / b
}

/// Relies on `Neg::neg` of `T`.
#[verifier::external_body]
pub(crate) fn negated<T: Float>(a: T) -> T {
    -a
}

/// Relies on `num_traits::Float::sin`.
#[verifier::external_body]
pub(crate) fn sine<T: Float>(a: T) -> T {
    a.sin()
}

/// Relies on `num_traits::Float::cos`.
#[verifier::external_body]
pub(crate) fn cosine<T: Float>(a: T) -> T {
    a.cos()
}

/// Relies on `num_traits::Float::sqrt`.
#[verifier::external_body]
pub(crate) fn square_root<T: Float>(a: T) -> T {
    a.sqrt()
}

/// Relies on `num_traits::Float::powf`: `base` raised to `exponent`.
#[verifier::external_body]
pub(crate) fn power<T: Float>(base: T, exponent: T) -> T {
    base.powf(exponent)
}

/// Relies on `num_traits::FloatConst::PI`.
#[verifier::external_body]
pub(crate) fn pi<T: Float + FloatConst>() -> T {
    T::PI()
}

/// Relies on `num_traits::NumCast::from`: `n` as a value of `T`, or `None`
/// where `T` cannot represent it.
#[verifier::external_body]
pub(crate) fn from_u32<T: Float>(n: u32) -> Option<T> {
    <T as num_traits::NumCast>::from(n)
}

} // verus!
