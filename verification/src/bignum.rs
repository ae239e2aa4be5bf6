//! Arbitrary-precision non-negative integers, consumed from the `num_bigint`
//! crate. The library needs only zero, one and addition; each operation is a
//! thin trusted wrapper whose contract speaks of `big_value`, the integer a
//! `BigUint` stands for.
use vstd::prelude::*;
use num_bigint::BigUint;
use num_traits::{One, Zero};

verus! {

/// Declares `num_bigint::BigUint` to Verus as an opaque type, so that it can
/// stand in signatures and fields. Its contents are reached only through
/// `big_value` and the wrappers below.
#[verifier::external_type_specification]
#[verifier::external_body]
pub struct ExBigUint(BigUint);

/// The non-negative integer that a `BigUint` holds.
pub uninterp spec fn big_value(b: BigUint) -> nat;

/// Relies on `num_traits::Zero::zero` for `BigUint`: returns the
/// representation of zero.
#[verifier::external_body]
pub(crate) fn big_zero() -> (r: BigUint)
    ensures
        big_value(r) == 0,
{
    Zero::zero()
}

/// Relies on `num_traits::One::one` for `BigUint`: returns the
/// representation of one.
#[verifier::external_body]
pub(crate) fn big_one() -> (r: BigUint)
    ensures
        big_value(r) == 1,
{
    One::one()
}

/// Relies on `num_bigint`'s addition for `&BigUint`: the result holds the
/// exact sum of the two operands, with no truncation at any magnitude.
#[verifier::external_body]
pub(crate) fn big_add(a: &BigUint, b: &BigUint) -> (r: BigUint)
    ensures
        big_value(r) == big_value(*a) + big_value(*b),
{
    a + b
}

} // verus!
