//! Arbitrary-precision integers.
//!
//! A [`BigInt`] holds its value as little-endian two's complement bytes, the
//! form `num_bigint::BigInt` reads and writes without loss. Arithmetic is
//! delegated to `num_bigint`; each delegating function states the exact
//! mathematical result as a trusted contract. Everything else in this
//! crate is proved against those contracts.

use crate::number_theory::{abs, gcd};
use vstd::arithmetic::power::pow;
use vstd::arithmetic::power2::pow2;
use vstd::prelude::*;
use vstd::std_specs::cmp::PartialEqSpecImpl;

verus! {

/// The integer that a little-endian two's complement byte string denotes.
/// The empty string denotes zero; otherwise the top bit of the last byte is
/// the sign.
pub open spec fn signed_le_value(bytes: Seq<u8>) -> int
    decreases bytes.len(),
{
    if bytes.len() == 0 {
        0
    } else if bytes.len() == 1 {
        if bytes[0] >= 0x80 {
            bytes[0] as int - 0x100
        } else {
            bytes[0] as int
        }
    } else {
        bytes[0] as int + 0x100 * signed_le_value(bytes.drop_first())
    }
}

/// Floor division: the quotient rounded towards negative infinity.
pub open spec fn div_floor_spec(a: int, b: int) -> int
    recommends
        b != 0,
{
    if b > 0 {
        a / b
    } else {
        (-a) / (-b)
    }
}

/// The remainder of floor division; it is zero or has the sign of `b`.
pub open spec fn mod_floor_spec(a: int, b: int) -> int
    recommends
        b != 0,
{
    a - b * div_floor_spec(a, b)
}

/// A value is negative exactly when the sign bit of its last byte is set.
pub proof fn lemma_sign_bit(bytes: Seq<u8>)
    ensures
        signed_le_value(bytes) < 0 <==> bytes.len() > 0 && bytes.last() >= 0x80,
    decreases bytes.len(),
{
    if bytes.len() >= 2 {
        let tail = bytes.drop_first();
        lemma_sign_bit(tail);
        assert(tail.last() == bytes.last());
    }
}

/// A value is zero exactly when every byte is zero.
pub proof fn lemma_zero_bytes(bytes: Seq<u8>)
    ensures
        signed_le_value(bytes) == 0 <==> forall|i: int| 0 <= i < bytes.len() ==> bytes[i] == 0,
    decreases bytes.len(),
{
    if bytes.len() >= 2 {
        let tail = bytes.drop_first();
        lemma_zero_bytes(tail);
        if signed_le_value(bytes) == 0 {
            assert(bytes[0] == 0 && signed_le_value(tail) == 0);
            assert forall|i: int| 0 <= i < bytes.len() implies bytes[i] == 0 by {
                if i > 0 {
                    assert(bytes[i] == tail[i - 1]);
                }
            }
        }
        if forall|i: int| 0 <= i < bytes.len() ==> bytes[i] == 0 {
            assert forall|i: int| 0 <= i < tail.len() implies tail[i] == 0 by {
                assert(tail[i] == bytes[i + 1]);
            }
        }
    }
}

/// The parity of a value is the parity of its first byte.
pub proof fn lemma_parity(bytes: Seq<u8>)
    requires
        bytes.len() > 0,
    ensures
        signed_le_value(bytes) % 2 == (bytes[0] as int) % 2,
{
    if bytes.len() >= 2 {
        let t = signed_le_value(bytes.drop_first());
        assert((bytes[0] as int + 0x100 * t) % 2 == (bytes[0] as int) % 2) by (nonlinear_arith);
    }
}

/// The first Bezout coefficient that `num_integer`'s extended Euclidean
/// algorithm finds for `a` and `b`. It is a function of the two numbers;
/// all that is stated of it is what [`BigInt::extended_gcd`] ensures.
pub uninterp spec fn bezout_coefficient(a: int, b: int) -> int;

/// An integer of any size.
#[derive(Debug)]
pub struct BigInt {
    /// Little-endian two's complement bytes.
    pub bytes: Vec<u8>,
}

impl View for BigInt {
    type V = int;

    open spec fn view(&self) -> int {
        signed_le_value(self.bytes@)
    }
}

impl Clone for BigInt {
    fn clone(&self) -> (r: Self)
        ensures
            r.bytes@ == self.bytes@,
            r@ == self@,
    {
        let bytes = self.bytes.clone();
        assert(bytes@ =~= self.bytes@);
        BigInt { bytes }
    }
}

impl PartialEq for BigInt {
    /// Two values are equal when they denote the same integer, whatever
    /// their byte lengths.
    fn eq(&self, other: &BigInt) -> (r: bool) {
        self.minus(other).is_zero()
    }
}

impl PartialEqSpecImpl for BigInt {
    open spec fn obeys_eq_spec() -> bool {
        true
    }

    open spec fn eq_spec(&self, other: &BigInt) -> bool {
        self@ == other@
    }
}

impl BigInt {
    /// Wraps two's complement bytes, least significant first.
    pub fn from_signed_bytes_le(bytes: Vec<u8>) -> (r: BigInt)
        ensures
            r@ == signed_le_value(bytes@),
            r.bytes == bytes,
    {
        BigInt { bytes }
    }

    /// The two's complement bytes, least significant first.
    pub fn to_signed_bytes_le(&self) -> (r: Vec<u8>)
        ensures
            signed_le_value(r@) == self@,
            r@ == self.bytes@,
    {
        let r = self.bytes.clone();
        assert(r@ =~= self.bytes@);
        r
    }

    pub fn zero() -> (r: BigInt)
        ensures
            r@ == 0,
    {
        let r = BigInt { bytes: vec![0u8] };
        assert(r.bytes@ =~= seq![0u8]);
        r
    }

    pub fn one() -> (r: BigInt)
        ensures
            r@ == 1,
    {
        let r = BigInt { bytes: vec![1u8] };
        assert(r.bytes@ =~= seq![1u8]);
        r
    }

    pub fn from_u8(x: u8) -> (r: BigInt)
        ensures
            r@ == x,
    {
        if x < 0x80 {
            let r = BigInt { bytes: vec![x] };
            assert(r.bytes@ =~= seq![x]);
            r
        } else {
            let r = BigInt { bytes: vec![x, 0u8] };
            assert(r.bytes@ =~= seq![x, 0u8]);
            assert(r.bytes@.drop_first() =~= seq![0u8]);
            assert(signed_le_value(seq![0u8]) == 0);
            r
        }
    }

    pub fn is_zero(&self) -> (r: bool)
        ensures
            r == (self@ == 0),
    {
        let mut i: usize = 0;
        while i < self.bytes.len()
            invariant
                i <= self.bytes.len(),
                forall|j: int| 0 <= j < i ==> self.bytes@[j] == 0,
            decreases self.bytes.len() - i,
        {
            if self.bytes[i] != 0 {
                proof {
                    lemma_zero_bytes(self.bytes@);
                }
                return false;
            }
            i = i + 1;
        }
        proof {
            lemma_zero_bytes(self.bytes@);
        }
        true
    }

    pub fn is_negative(&self) -> (r: bool)
        ensures
            r == (self@ < 0),
    {
        proof {
            lemma_sign_bit(self.bytes@);
        }
        let n: usize = self.bytes.len();
        n > 0 && self.bytes[n - 1] >= 0x80
    }

    pub fn is_odd(&self) -> (r: bool)
        ensures
            r == (self@ % 2 == 1),
    {
        if self.bytes.len() == 0 {
            false
        } else {
            proof {
                lemma_parity(self.bytes@);
            }
            self.bytes[0] % 2 == 1
        }
    }

    /// `self < other`.
    pub fn lt(&self, other: &BigInt) -> (r: bool)
        ensures
            r == (self@ < other@),
    {
        self.minus(other).is_negative()
    }

    /// `self <= other`.
    pub fn le(&self, other: &BigInt) -> (r: bool)
        ensures
            r == (self@ <= other@),
    {
        !other.minus(self).is_negative()
    }

    /// Sum, computed by `num_bigint::BigInt`'s `+`.
    /// Trusted: the result denotes the exact sum.
    #[verifier::external_body]
    pub(crate) fn plus(&self, other: &BigInt) -> (r: BigInt)
        ensures
            r@ == self@ + other@,
    {
        let x = num_bigint::BigInt::from_signed_bytes_le(&self.bytes);
        let y = num_bigint::BigInt::from_signed_bytes_le(&other.bytes);
        BigInt { bytes: (x + y).to_signed_bytes_le() }
    }

    /// Difference, computed by `num_bigint::BigInt`'s `-`.
    /// Trusted: the result denotes the exact difference.
    #[verifier::external_body]
    pub(crate) fn minus(&self, other: &BigInt) -> (r: BigInt)
        ensures
            r@ == self@ - other@,
    {
        let x = num_bigint::BigInt::from_signed_bytes_le(&self.bytes);
        let y = num_bigint::BigInt::from_signed_bytes_le(&other.bytes);
        BigInt { bytes: (x - y).to_signed_bytes_le() }
    }

    /// Product, computed by `num_bigint::BigInt`'s `*`.
    /// Trusted: the result denotes the exact product.
    #[verifier::external_body]
    pub(crate) fn times(&self, other: &BigInt) -> (r: BigInt)
        ensures
            r@ == self@ * other@,
    {
        let x = num_bigint::BigInt::from_signed_bytes_le(&self.bytes);
        let y = num_bigint::BigInt::from_signed_bytes_le(&other.bytes);
        BigInt { bytes: (x * y).to_signed_bytes_le() }
    }

    /// Floor division, computed by `num_integer::Integer::div_floor` on
    /// `num_bigint::BigInt`, which panics on a zero divisor.
    /// Trusted: the result is the quotient rounded towards negative infinity.
    #[verifier::external_body]
    pub(crate) fn div_floor(&self, other: &BigInt) -> (r: BigInt)
        requires
            other@ != 0,
        ensures
            r@ == div_floor_spec(self@, other@),
    {
        let x = num_bigint::BigInt::from_signed_bytes_le(&self.bytes);
        let y = num_bigint::BigInt::from_signed_bytes_le(&other.bytes);
        BigInt { bytes: num_integer::Integer::div_floor(&x, &y).to_signed_bytes_le() }
    }

    /// Floor remainder, computed by `num_integer::Integer::mod_floor` on
    /// `num_bigint::BigInt`, which panics on a zero divisor.
    /// Trusted: the result is what floor division leaves over.
    #[verifier::external_body]
    pub(crate) fn mod_floor(&self, other: &BigInt) -> (r: BigInt)
        requires
            other@ != 0,
        ensures
            r@ == mod_floor_spec(self@, other@),
    {
        let x = num_bigint::BigInt::from_signed_bytes_le(&self.bytes);
        let y = num_bigint::BigInt::from_signed_bytes_le(&other.bytes);
        BigInt { bytes: num_integer::Integer::mod_floor(&x, &y).to_signed_bytes_le() }
    }

    /// Right shift, computed by `num_bigint::BigInt`'s `>>`.
    /// Trusted: the result is the value divided by two to the `n`, rounded
    /// towards negative infinity.
    #[verifier::external_body]
    pub(crate) fn shr(&self, n: u32) -> (r: BigInt)
        ensures
            r@ == self@ / (pow2(n as nat) as int),
    {
        let x = num_bigint::BigInt::from_signed_bytes_le(&self.bytes);
        BigInt { bytes: (x >> n).to_signed_bytes_le() }
    }

    /// Left shift, computed by `num_bigint::BigInt`'s `<<`.
    /// Trusted: the result is the value times two to the `n`.
    #[verifier::external_body]
    pub(crate) fn shl(&self, n: u32) -> (r: BigInt)
        ensures
            r@ == self@ * pow2(n as nat),
    {
        let x = num_bigint::BigInt::from_signed_bytes_le(&self.bytes);
        BigInt { bytes: (x << n).to_signed_bytes_le() }
    }

    /// Modular exponentiation, computed by `num_bigint::BigInt::modpow`,
    /// which panics on a negative exponent and on a zero modulus.
    /// Trusted: the result is the power reduced as floor division reduces.
    #[verifier::external_body]
    pub(crate) fn modpow(&self, exponent: &BigInt, modulus: &BigInt) -> (r: BigInt)
        requires
            exponent@ >= 0,
            modulus@ != 0,
        ensures
            r@ == mod_floor_spec(pow(self@, exponent@ as nat), modulus@),
    {
        let x = num_bigint::BigInt::from_signed_bytes_le(&self.bytes);
        let e = num_bigint::BigInt::from_signed_bytes_le(&exponent.bytes);
        let m = num_bigint::BigInt::from_signed_bytes_le(&modulus.bytes);
        BigInt { bytes: x.modpow(&e, &m).to_signed_bytes_le() }
    }

    /// Greatest common divisor with Bezout coefficients `(gcd, x, y)`,
    /// computed by `num_integer::Integer::extended_gcd` on
    /// `num_bigint::BigInt`.
    /// Trusted: `gcd` is the non-negative greatest common divisor,
    /// `x * self + y * other` is `gcd`, and `x` depends on the two numbers
    /// alone.
    #[verifier::external_body]
    pub(crate) fn extended_gcd(&self, other: &BigInt) -> (r: (BigInt, BigInt, BigInt))
        ensures
            r.0@ == gcd(abs(self@), abs(other@)),
            r.1@ * self@ + r.2@ * other@ == r.0@,
            r.1@ == bezout_coefficient(self@, other@),
    {
        let x = num_bigint::BigInt::from_signed_bytes_le(&self.bytes);
        let y = num_bigint::BigInt::from_signed_bytes_le(&other.bytes);
        let e = num_integer::Integer::extended_gcd(&x, &y);
        (
            BigInt { bytes: e.gcd.to_signed_bytes_le() },
            BigInt { bytes: e.x.to_signed_bytes_le() },
            BigInt { bytes: e.y.to_signed_bytes_le() },
        )
    }

    /// Conversion from `u64`, by `num_bigint::BigInt`'s `From<u64>`.
    /// Trusted: the result denotes `x`.
    #[verifier::external_body]
    pub(crate) fn from_u64(x: u64) -> (r: BigInt)
        ensures
            r@ == x,
    {
        BigInt { bytes: num_bigint::BigInt::from(x).to_signed_bytes_le() }
    }

    /// Conversion to `u64`, by `num_traits::ToPrimitive::to_u64` on
    /// `num_bigint::BigInt`.
    /// Trusted: `Some` exactly for values that fit, holding the value.
    #[verifier::external_body]
    pub(crate) fn to_u64(&self) -> (r: Option<u64>)
        ensures
            r is Some <==> 0 <= self@ <= u64::MAX,
            r is Some ==> r->0 == self@,
    {
        let x = num_bigint::BigInt::from_signed_bytes_le(&self.bytes);
        num_traits::ToPrimitive::to_u64(&x)
    }
}

} // verus!
