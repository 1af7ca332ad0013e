//! Integers of any size, for sums that outgrow the field.
//!
//! A [`BigNum`] holds the big-endian two's-complement bytes of an integer. All
//! arithmetic on it is done by the `num-bigint` crate; the functions here are
//! trusted to compute what that crate documents.

use vstd::prelude::*;
use vstd::arithmetic::power::pow;
use cairo_felt::Felt252;
use num_bigint::BigInt;
use num_traits::{Signed, Zero};
use crate::felt::{Felt, signed_value};

verus! {

/// The number that big-endian bytes spell in base 256.
pub open spec fn unsigned_value(bytes: Seq<u8>) -> nat
    decreases bytes.len(),
{
    if bytes.len() == 0 {
        0
    } else {
        unsigned_value(bytes.drop_last()) * 256 + bytes.last() as nat
    }
}

/// The integer that big-endian bytes spell in two's complement; no bytes
/// spell zero.
pub open spec fn twos_complement_value(bytes: Seq<u8>) -> int {
    if bytes.len() > 0 && bytes[0] >= 128 {
        unsigned_value(bytes) - pow(256, bytes.len())
    } else {
        unsigned_value(bytes) as int
    }
}

/// An integer of any size.
#[derive(Debug)]
pub struct BigNum {
    bytes: Vec<u8>,
}

impl View for BigNum {
    type V = int;

    closed spec fn view(&self) -> int {
        twos_complement_value(self.bytes@)
    }
}

impl BigNum {
    /// Trusted: `BigInt::zero` of `num-bigint`.
    #[verifier::external_body]
    pub(crate) fn zero() -> (r: BigNum)
        ensures
            r@ == 0,
    {
        BigNum { bytes: BigInt::zero().to_signed_bytes_be() }
    }

    /// Trusted: `Felt252::to_bigint` of `cairo-felt`, the representative as a
    /// non-negative integer.
    #[verifier::external_body]
    pub(crate) fn from_felt(value: &Felt) -> (r: BigNum)
        ensures
            r@ == value@,
    {
        let x = Felt252::from_bytes_be(&[value.hi.to_be_bytes(), value.lo.to_be_bytes()].concat());
        BigNum { bytes: x.to_bigint().to_signed_bytes_be() }
    }

    /// Trusted: `Felt252::to_signed_felt` of `cairo-felt`, which reads a
    /// representative above half the prime as a negative number.
    #[verifier::external_body]
    pub(crate) fn from_felt_signed(value: &Felt) -> (r: BigNum)
        ensures
            r@ == signed_value(value@),
    {
        let x = Felt252::from_bytes_be(&[value.hi.to_be_bytes(), value.lo.to_be_bytes()].concat());
        BigNum { bytes: x.to_signed_felt().to_signed_bytes_be() }
    }

    /// Trusted: `&BigInt + &BigInt` of `num-bigint`.
    #[verifier::external_body]
    pub(crate) fn sum(&self, other: &BigNum) -> (r: BigNum)
        ensures
            r@ == self@ + other@,
    {
        let x = BigInt::from_signed_bytes_be(&self.bytes) + BigInt::from_signed_bytes_be(&other.bytes);
        BigNum { bytes: x.to_signed_bytes_be() }
    }

    /// Trusted: `&BigInt - &BigInt` of `num-bigint`.
    #[verifier::external_body]
    pub(crate) fn difference(&self, other: &BigNum) -> (r: BigNum)
        ensures
            r@ == self@ - other@,
    {
        let x = BigInt::from_signed_bytes_be(&self.bytes) - BigInt::from_signed_bytes_be(&other.bytes);
        BigNum { bytes: x.to_signed_bytes_be() }
    }

    /// Trusted: `&BigInt * &BigInt` of `num-bigint`.
    #[verifier::external_body]
    pub(crate) fn product(&self, other: &BigNum) -> (r: BigNum)
        ensures
            r@ == self@ * other@,
    {
        let x = BigInt::from_signed_bytes_be(&self.bytes) * BigInt::from_signed_bytes_be(&other.bytes);
        BigNum { bytes: x.to_signed_bytes_be() }
    }

    /// Trusted: `BigInt::pow` of `num-bigint`, repeated multiplication with
    /// `x.pow(0) == 1`.
    #[verifier::external_body]
    pub(crate) fn power(&self, exponent: u32) -> (r: BigNum)
        ensures
            r@ == pow(self@, exponent as nat),
    {
        BigNum { bytes: BigInt::from_signed_bytes_be(&self.bytes).pow(exponent).to_signed_bytes_be() }
    }

    /// Trusted: `>=` on `BigInt`, the order of the integers.
    #[verifier::external_body]
    pub(crate) fn ge(&self, other: &BigNum) -> (r: bool)
        ensures
            r == (self@ >= other@),
    {
        BigInt::from_signed_bytes_be(&self.bytes) >= BigInt::from_signed_bytes_be(&other.bytes)
    }

    /// Trusted: `Signed::is_negative` on `BigInt`.
    #[verifier::external_body]
    pub(crate) fn is_negative(&self) -> (r: bool)
        ensures
            r == (self@ < 0),
    {
        BigInt::from_signed_bytes_be(&self.bytes).is_negative()
    }
}

} // verus!
