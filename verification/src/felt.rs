//! Field elements: integers modulo the prime `2^251 + 17 * 2^192 + 1`.
//!
//! A [`Felt`] keeps its canonical representative as two 128-bit halves, so that
//! equality of values is equality in the field. The modular arithmetic itself is
//! done by the `cairo-felt` crate; the functions that call it are marked as
//! trusted and say what they rely on.

use vstd::prelude::*;
use cairo_felt::Felt252;

verus! {

/// High half of the prime: `2^123 + 17 * 2^64`.
pub const FIELD_HIGH: u128 = 0x0800_0000_0000_0011_0000_0000_0000_0000;

/// Low half of the prime.
pub const FIELD_LOW: u128 = 1;

/// `2^128`, the weight of the high half of a field element.
pub open spec fn pow2_128() -> nat {
    0x1_0000_0000_0000_0000_0000_0000_0000_0000nat
}

/// The prime modulus of the field.
pub open spec fn prime() -> nat {
    0x800_0000_0000_0011_0000_0000_0000_0000_0000_0000_0000_0000_0000_0000_0000_0001nat
}

/// The representative in `[0, prime())` of an integer.
pub open spec fn reduce(value: int) -> nat {
    (value % (prime() as int)) as nat
}

/// Number of binary digits of `n`, with `bit_length(0) == 0`.
pub open spec fn bit_length(n: nat) -> nat
    decreases n,
{
    if n == 0 {
        0
    } else {
        1 + bit_length(n / 2)
    }
}

/// Whether `q` is the representative of a quotient of `a` by `b` in the
/// field.
pub open spec fn is_quotient(q: nat, a: nat, b: nat) -> bool {
    q < prime() && reduce(q as int * b) == a
}

/// The quotient of `a` by `b` in the field: the representative `q` with
/// `q * b = a`. The modulus is prime, so there is exactly one for every `b`
/// that is not zero.
pub open spec fn field_quotient(a: nat, b: nat) -> nat {
    choose|q: nat| is_quotient(q, a, b)
}

/// `2^251`.
pub open spec fn pow2_251() -> nat {
    0x800_0000_0000_0000_0000_0000_0000_0000_0000_0000_0000_0000_0000_0000_0000_0000nat
}

/// The upper bits of a number, from bit 128 on.
pub open spec fn high_half(value: nat) -> u128 {
    (value / pow2_128()) as u128
}

/// The lower 128 bits of a number.
pub open spec fn low_half(value: nat) -> u128 {
    (value % pow2_128()) as u128
}

/// The bitwise AND of two numbers below `2^256`.
pub open spec fn bitwise_and(x: nat, y: nat) -> nat {
    (high_half(x) & high_half(y)) as nat * pow2_128() + (low_half(x) & low_half(y)) as nat
}

/// The bitwise OR of two numbers below `2^256`.
pub open spec fn bitwise_or(x: nat, y: nat) -> nat {
    (high_half(x) | high_half(y)) as nat * pow2_128() + (low_half(x) | low_half(y)) as nat
}

/// The bitwise XOR of two numbers below `2^256`.
pub open spec fn bitwise_xor(x: nat, y: nat) -> nat {
    (high_half(x) ^ high_half(y)) as nat * pow2_128() + (low_half(x) ^ low_half(y)) as nat
}

/// The integer in `(-prime() / 2, prime() / 2]` that `value` stands for when the
/// upper half of the field is read as negative numbers.
pub open spec fn signed_value(value: nat) -> int {
    if value > prime() / 2 {
        value - prime()
    } else {
        value as int
    }
}

/// An element of the field, held as its representative in `[0, prime())`.
#[derive(Clone, Copy, Debug, PartialEq, Eq, Hash, Structural)]
pub struct Felt {
    pub(crate) hi: u128,
    pub(crate) lo: u128,
}

impl View for Felt {
    type V = nat;

    closed spec fn view(&self) -> nat {
        self.hi as nat * pow2_128() + self.lo as nat
    }
}

impl Felt {
    #[verifier::type_invariant]
    spec fn canonical(self) -> bool {
        self.hi < FIELD_HIGH || (self.hi == FIELD_HIGH && self.lo < FIELD_LOW)
    }

    /// The element whose representative is `value`; meant for `value < prime()`.
    pub closed spec fn from_nat(value: nat) -> Felt {
        Felt { hi: (value / pow2_128()) as u128, lo: (value % pow2_128()) as u128 }
    }

    /// `from_nat` and the view are inverse to each other on representatives.
    pub proof fn lemma_from_nat(value: nat)
        requires
            value < prime(),
        ensures
            Felt::from_nat(value)@ == value,
    {
    }

    /// Two elements with the same value are the same element.
    pub proof fn lemma_view_injective(a: Felt, b: Felt)
        requires
            a@ == b@,
        ensures
            a == b,
    {
    }

    /// The field sum, as a value of the model.
    pub open spec fn spec_add(self, other: Felt) -> Felt {
        Felt::from_nat(reduce(self@ as int + other@))
    }

    /// The field difference, as a value of the model.
    pub open spec fn spec_sub(self, other: Felt) -> Felt {
        Felt::from_nat(reduce(self@ - other@))
    }

    /// The field product, as a value of the model.
    pub open spec fn spec_mul(self, other: Felt) -> Felt {
        Felt::from_nat(reduce(self@ as int * other@))
    }

    /// The additive identity.
    pub fn zero() -> (r: Felt)
        ensures
            r@ == 0,
    {
        Felt { hi: 0, lo: 0 }
    }

    /// The multiplicative identity.
    pub fn one() -> (r: Felt)
        ensures
            r@ == 1,
    {
        Felt { hi: 0, lo: 1 }
    }

    /// The field element of an unsigned integer.
    pub fn from_u128(value: u128) -> (r: Felt)
        ensures
            r@ == value,
    {
        Felt { hi: 0, lo: value }
    }

    /// The field element of an index or a length.
    pub fn from_usize(value: usize) -> (r: Felt)
        ensures
            r@ == value,
    {
        Felt { hi: 0, lo: value as u128 }
    }

    /// The field element of a signed integer: negative numbers count down from
    /// the prime.
    pub fn from_i64(value: i64) -> (r: Felt)
        ensures
            r@ == reduce(value as int),
    {
        felt252_from_i128(value as i128)
    }

    /// The element with the given halves, if they form a canonical
    /// representative.
    pub fn from_halves(hi: u128, lo: u128) -> (r: Option<Felt>)
        ensures
            r is Some <==> hi * pow2_128() + lo < prime(),
            r matches Some(f) ==> f@ == hi * pow2_128() + lo,
    {
        if hi < FIELD_HIGH || (hi == FIELD_HIGH && lo < FIELD_LOW) {
            Some(Felt { hi, lo })
        } else {
            None
        }
    }

    /// The representative split at bit 128, high half first.
    pub fn halves(&self) -> (r: (u128, u128))
        ensures
            self@ == r.0 * pow2_128() + r.1,
            self@ < prime(),
    {
        proof {
            use_type_invariant(self);
        }
        (self.hi, self.lo)
    }

    /// Whether this is the additive identity.
    pub fn is_zero(&self) -> (r: bool)
        ensures
            r == (self@ == 0),
    {
        self.hi == 0 && self.lo == 0
    }

    /// The value as a `u128`, if it is below `2^128`.
    pub fn to_u128(&self) -> (r: Option<u128>)
        ensures
            r is Some <==> self@ < pow2_128(),
            r matches Some(v) ==> v == self@,
    {
        if self.hi == 0 {
            Some(self.lo)
        } else {
            None
        }
    }

    /// The value as a `u64`, if it fits.
    pub fn to_u64(&self) -> (r: Option<u64>)
        ensures
            r is Some <==> self@ <= u64::MAX,
            r matches Some(v) ==> v == self@,
    {
        if self.hi == 0 && self.lo <= u64::MAX as u128 {
            Some(self.lo as u64)
        } else {
            None
        }
    }

    /// The value as a `usize`, if it fits.
    pub fn to_usize(&self) -> (r: Option<usize>)
        ensures
            r is Some <==> self@ <= usize::MAX,
            r matches Some(v) ==> v == self@,
    {
        if self.hi == 0 && self.lo <= usize::MAX as u128 {
            Some(self.lo as usize)
        } else {
            None
        }
    }

    /// Order of the representatives.
    pub fn lt(&self, other: &Felt) -> (r: bool)
        ensures
            r == (self@ < other@),
    {
        self.hi < other.hi || (self.hi == other.hi && self.lo < other.lo)
    }

    /// Order of the representatives.
    pub fn ge(&self, other: &Felt) -> (r: bool)
        ensures
            r == (self@ >= other@),
    {
        !self.lt(other)
    }

    /// Field addition.
    pub fn add(&self, other: &Felt) -> (r: Felt)
        ensures
            r@ == reduce(self@ as int + other@),
            r == self.spec_add(*other),
    {
        let r = felt252_add(self, other);
        proof {
            Felt::lemma_from_nat(r@);
            Felt::lemma_view_injective(r, self.spec_add(*other));
        }
        r
    }

    /// Field subtraction.
    pub fn sub(&self, other: &Felt) -> (r: Felt)
        ensures
            r@ == reduce(self@ - other@),
            r == self.spec_sub(*other),
    {
        let r = felt252_sub(self, other);
        proof {
            Felt::lemma_from_nat(r@);
            Felt::lemma_view_injective(r, self.spec_sub(*other));
        }
        r
    }

    /// Field multiplication.
    pub fn mul(&self, other: &Felt) -> (r: Felt)
        ensures
            r@ == reduce(self@ as int * other@),
            r == self.spec_mul(*other),
    {
        let r = felt252_mul(self, other);
        proof {
            Felt::lemma_from_nat(r@);
            Felt::lemma_view_injective(r, self.spec_mul(*other));
        }
        r
    }

    /// The additive inverse.
    pub fn neg(&self) -> (r: Felt)
        ensures
            r@ == reduce(-(self@ as int)),
    {
        Felt::zero().sub(self)
    }

    /// The multiplicative inverse; zero has none.
    pub fn inverse(&self) -> (r: Option<Felt>)
        ensures
            r is Some <==> self@ != 0,
            r matches Some(q) ==> reduce(q@ as int * self@) == 1 && q@ == field_quotient(1, self@),
    {
        Felt::one().div(self)
    }

    /// The field quotient, as a value of the model.
    pub open spec fn spec_div(self, other: Felt) -> Felt {
        Felt::from_nat(field_quotient(self@, other@))
    }

    /// Field division; there is no quotient by zero.
    pub fn div(&self, other: &Felt) -> (r: Option<Felt>)
        ensures
            r is Some <==> other@ != 0,
            r matches Some(q) ==> q@ == field_quotient(self@, other@) && reduce(q@ as int * other@) == self@ && q
                == self.spec_div(*other),
    {
        if other.is_zero() {
            None
        } else {
            proof {
                use_type_invariant(self);
            }
            let q = felt252_div(self, other);
            proof {
                use_type_invariant(&q);
                Felt::lemma_from_nat(q@);
                Felt::lemma_view_injective(q, self.spec_div(*other));
            }
            Some(q)
        }
    }

    /// The element whose halves are the bitwise AND of the halves of the two.
    pub fn bitand(&self, other: &Felt) -> (r: Felt)
        ensures
            r@ == bitwise_and(self@, other@),
            r@ < prime(),
    {
        proof {
            use_type_invariant(self);
            use_type_invariant(other);
        }
        let (a, b, c, d) = (self.hi, other.hi, self.lo, other.lo);
        let hi = a & b;
        let lo = c & d;
        assert(hi <= a) by (bit_vector)
            requires
                hi == a & b,
        ;
        assert(lo <= c) by (bit_vector)
            requires
                lo == c & d,
        ;
        Felt { hi, lo }
    }

    /// The element whose halves are the bitwise OR of the halves of the two,
    /// for elements below `2^251`.
    pub(crate) fn bitor(&self, other: &Felt) -> (r: Felt)
        requires
            self@ < pow2_251(),
            other@ < pow2_251(),
        ensures
            r@ == bitwise_or(self@, other@),
            r@ < pow2_251(),
    {
        let (a, b) = (self.hi, other.hi);
        let hi = a | b;
        let lo = self.lo | other.lo;
        assert(hi < 0x0800_0000_0000_0000_0000_0000_0000_0000u128) by (bit_vector)
            requires
                hi == a | b,
                a < 0x0800_0000_0000_0000_0000_0000_0000_0000u128,
                b < 0x0800_0000_0000_0000_0000_0000_0000_0000u128,
        ;
        Felt { hi, lo }
    }

    /// The element whose halves are the bitwise XOR of the halves of the two,
    /// for elements below `2^251`.
    pub(crate) fn bitxor(&self, other: &Felt) -> (r: Felt)
        requires
            self@ < pow2_251(),
            other@ < pow2_251(),
        ensures
            r@ == bitwise_xor(self@, other@),
            r@ < pow2_251(),
    {
        let (a, b) = (self.hi, other.hi);
        let hi = a ^ b;
        let lo = self.lo ^ other.lo;
        assert(hi < 0x0800_0000_0000_0000_0000_0000_0000_0000u128) by (bit_vector)
            requires
                hi == a ^ b,
                a < 0x0800_0000_0000_0000_0000_0000_0000_0000u128,
                b < 0x0800_0000_0000_0000_0000_0000_0000_0000u128,
        ;
        Felt { hi, lo }
    }

    /// Whether the representative is below `2^251`.
    pub fn fits_251_bits(&self) -> (r: bool)
        ensures
            r == (self@ < pow2_251()),
    {
        self.hi < 0x0800_0000_0000_0000_0000_0000_0000_0000u128
    }

    /// Number of binary digits of the representative.
    pub fn bits(&self) -> (r: u64)
        ensures
            r == bit_length(self@),
    {
        felt252_bits(self)
    }
}

/// Trusted: `Felt252::from(i128)` of `cairo-felt`, which maps a non-negative
/// number to itself and a negative one to the prime minus its magnitude. The
/// result is read back from its 32 big-endian bytes. The least `i128` is left
/// out because the crate negates its argument.
#[verifier::external_body]
fn felt252_from_i128(value: i128) -> (r: Felt)
    requires
        value > i128::MIN,
    ensures
        r@ == reduce(value as int),
{
    let s = Felt252::from(value).to_be_bytes();
    let (h, l) = s.split_at(16);
    Felt { hi: u128::from_be_bytes(h.try_into().unwrap()), lo: u128::from_be_bytes(l.try_into().unwrap()) }
}

/// Trusted: `Felt252 + Felt252` of `cairo-felt`. Both operands are rebuilt from
/// their big-endian bytes and the sum is read back the same way; the crate adds
/// the two representatives and subtracts the prime once when the sum reaches it.
#[verifier::external_body]
fn felt252_add(a: &Felt, b: &Felt) -> (r: Felt)
    ensures
        r@ == reduce(a@ as int + b@),
{
    let x = Felt252::from_bytes_be(&[a.hi.to_be_bytes(), a.lo.to_be_bytes()].concat());
    let y = Felt252::from_bytes_be(&[b.hi.to_be_bytes(), b.lo.to_be_bytes()].concat());
    let s = (x + y).to_be_bytes();
    let (h, l) = s.split_at(16);
    Felt { hi: u128::from_be_bytes(h.try_into().unwrap()), lo: u128::from_be_bytes(l.try_into().unwrap()) }
}

/// Trusted: `Felt252 - Felt252` of `cairo-felt`, which subtracts the
/// representatives and adds the prime when the right one is the larger.
#[verifier::external_body]
fn felt252_sub(a: &Felt, b: &Felt) -> (r: Felt)
    ensures
        r@ == reduce(a@ - b@),
{
    let x = Felt252::from_bytes_be(&[a.hi.to_be_bytes(), a.lo.to_be_bytes()].concat());
    let y = Felt252::from_bytes_be(&[b.hi.to_be_bytes(), b.lo.to_be_bytes()].concat());
    let s = (x - y).to_be_bytes();
    let (h, l) = s.split_at(16);
    Felt { hi: u128::from_be_bytes(h.try_into().unwrap()), lo: u128::from_be_bytes(l.try_into().unwrap()) }
}

/// Trusted: `Felt252 * Felt252` of `cairo-felt`, which multiplies the
/// representatives and takes the remainder by the prime.
#[verifier::external_body]
fn felt252_mul(a: &Felt, b: &Felt) -> (r: Felt)
    ensures
        r@ == reduce(a@ as int * b@),
{
    let x = Felt252::from_bytes_be(&[a.hi.to_be_bytes(), a.lo.to_be_bytes()].concat());
    let y = Felt252::from_bytes_be(&[b.hi.to_be_bytes(), b.lo.to_be_bytes()].concat());
    let s = (x * y).to_be_bytes();
    let (h, l) = s.split_at(16);
    Felt { hi: u128::from_be_bytes(h.try_into().unwrap()), lo: u128::from_be_bytes(l.try_into().unwrap()) }
}

/// Trusted: `Felt252 / Felt252` of `cairo-felt`, which multiplies by the
/// inverse of the divisor modulo the prime and panics on a divisor of zero.
/// The product of the quotient and the divisor is the dividend; that the
/// quotient is the only such element rests on the modulus being prime.
#[verifier::external_body]
fn felt252_div(a: &Felt, b: &Felt) -> (r: Felt)
    requires
        b@ != 0,
        a@ < prime(),
    ensures
        reduce(r@ as int * b@) == a@,
        r@ == field_quotient(a@, b@),
{
    let x = Felt252::from_bytes_be(&[a.hi.to_be_bytes(), a.lo.to_be_bytes()].concat());
    let y = Felt252::from_bytes_be(&[b.hi.to_be_bytes(), b.lo.to_be_bytes()].concat());
    let s = (x / y).to_be_bytes();
    let (h, l) = s.split_at(16);
    Felt { hi: u128::from_be_bytes(h.try_into().unwrap()), lo: u128::from_be_bytes(l.try_into().unwrap()) }
}

/// Trusted: `Felt252::bits` of `cairo-felt`, the number of bits of the
/// representative (zero for zero), as `BigUint::bits` counts them.
#[verifier::external_body]
fn felt252_bits(a: &Felt) -> (r: u64)
    ensures
        r == bit_length(a@),
{
    Felt252::from_bytes_be(&[a.hi.to_be_bytes(), a.lo.to_be_bytes()].concat()).bits()
}

} // verus!
