//! Unsigned 128-bit fixed-point numbers with eighteen decimal places, as the
//! chains use them for conversion rates and fee multipliers.

use sp_runtime::traits::Saturating;
use sp_runtime::FixedPointNumber;
use vstd::prelude::*;

verus! {

/// The inner value that stands for `1.0`.
pub const FIXED_DIV: u128 = 1_000_000_000_000_000_000;

/// A fixed-point number: the value is `inner / FIXED_DIV`.
#[derive(Clone, Copy, Debug, PartialEq, Eq, Structural)]
pub struct FixedU128 {
    pub inner: u128,
}

/// `x` cut off at the largest `u128`.
pub open spec fn saturate_u128(x: int) -> int {
    if x > u128::MAX as int {
        u128::MAX as int
    } else {
        x
    }
}

/// The integer part of `rate * n`, before saturation.
pub open spec fn fixed_times_int(rate: FixedU128, n: int) -> int {
    (rate.inner as int * n) / (FIXED_DIV as int)
}

/// The inner value of `a * b`, before saturation.
pub open spec fn fixed_times_fixed(a: FixedU128, b: FixedU128) -> int {
    (a.inner as int * b.inner as int) / (FIXED_DIV as int)
}

/// The inner value of `n / d`, before saturation.
pub open spec fn fixed_of_rational(n: int, d: int) -> int {
    (n * FIXED_DIV as int) / d
}

/// Calls `FixedPointNumber::saturating_mul_int` of `sp_runtime::FixedU128` at
/// `u128`. The contract claims what its source computes for unsigned
/// operands: the product of inner value and `n`, divided by the precision
/// and rounded down, or `u128::MAX` when that does not fit.
#[verifier::external_body]
pub(crate) fn fixed_saturating_mul_int(rate: FixedU128, n: u128) -> (r: u128)
    ensures
        r as int == saturate_u128(fixed_times_int(rate, n as int)),
{
    sp_runtime::FixedU128::from_inner(rate.inner).saturating_mul_int(n)
}

/// Calls `Saturating::saturating_mul` of `sp_runtime::FixedU128`. The
/// contract claims that the inner value of the result is the product of the
/// two inner values divided by the precision, rounded down, or `u128::MAX`
/// when that does not fit.
#[verifier::external_body]
pub(crate) fn fixed_saturating_mul(a: FixedU128, b: FixedU128) -> (r: FixedU128)
    ensures
        r.inner as int == saturate_u128(fixed_times_fixed(a, b)),
{
    let product = sp_runtime::FixedU128::from_inner(a.inner)
        .saturating_mul(sp_runtime::FixedU128::from_inner(b.inner));
    FixedU128 { inner: product.into_inner() }
}

/// Calls `FixedPointNumber::saturating_from_rational` of
/// `sp_runtime::FixedU128` at `u128` operands. It panics on a zero divisor,
/// which `requires` leaves out. The contract claims that the inner value is
/// `n` times the precision divided by `d`, rounded down, or `u128::MAX` when
/// that does not fit.
#[verifier::external_body]
pub(crate) fn fixed_saturating_from_rational(n: u128, d: u128) -> (r: FixedU128)
    requires
        d != 0,
    ensures
        r.inner as int == saturate_u128(fixed_of_rational(n as int, d as int)),
{
    FixedU128 { inner: sp_runtime::FixedU128::saturating_from_rational(n, d).into_inner() }
}

impl FixedU128 {
    /// The number whose inner value is `inner`.
    pub fn from_inner(inner: u128) -> (r: FixedU128)
        ensures
            r.inner == inner,
    {
        FixedU128 { inner }
    }

    /// The inner value.
    pub fn into_inner(self) -> (r: u128)
        ensures
            r == self.inner,
    {
        self.inner
    }

    /// The number `1.0`.
    pub fn one() -> (r: FixedU128)
        ensures
            r.inner == FIXED_DIV,
    {
        FixedU128 { inner: FIXED_DIV }
    }
}

} // verus!
