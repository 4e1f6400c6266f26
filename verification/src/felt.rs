//! Field elements: integers modulo the prime `2^251 + 17 * 2^192 + 1`.

use crate::bigint::BigInt;
use vstd::arithmetic::div_mod::{
    lemma_div_denominator, lemma_div_pos_is_pos, lemma_fundamental_div_mod, lemma_mod_bound,
};
use vstd::arithmetic::power::{lemma_pow_positive, pow};
use vstd::arithmetic::power2::{lemma_pow2_pos, pow2};
use vstd::prelude::*;
use vstd::std_specs::cmp::PartialEqSpecImpl;

verus! {

/// The field's modulus.
pub open spec fn felt_prime() -> int {
    (pow2(251) + 17 * pow2(192) + 1) as int
}

pub proof fn lemma_felt_prime_positive()
    ensures
        felt_prime() > 1,
{
    lemma_pow2_pos(251);
    lemma_pow2_pos(192);
}

/// For a positive modulus the floor remainder is the Euclidean one.
pub proof fn lemma_mod_floor_positive(a: int, p: int)
    requires
        p > 0,
    ensures
        crate::bigint::mod_floor_spec(a, p) == a % p,
        0 <= a % p < p,
{
    lemma_fundamental_div_mod(a, p);
    lemma_mod_bound(a, p);
}

/// The field's modulus as a number.
pub fn prime() -> (p: BigInt)
    ensures
        p@ == felt_prime(),
{
    let high = BigInt::one().shl(251);
    let mid = BigInt::from_u8(17).times(&BigInt::one().shl(192));
    high.plus(&mid).plus(&BigInt::one())
}

/// The `i`-th byte of a non-negative number, counted from the least
/// significant.
pub open spec fn le_byte(value: int, i: nat) -> int {
    (value / pow(256, i)) % 256
}

/// A field element, held as its least non-negative representative.
#[derive(Debug)]
pub struct Felt {
    value: BigInt,
}

impl View for Felt {
    type V = int;

    closed spec fn view(&self) -> int {
        self.value@
    }
}

impl Clone for Felt {
    fn clone(&self) -> (r: Self)
        ensures
            r@ == self@,
    {
        proof {
            use_type_invariant(self);
        }
        Felt { value: self.value.clone() }
    }
}

impl PartialEq for Felt {
    fn eq(&self, other: &Felt) -> (r: bool) {
        self.value == other.value
    }
}

impl PartialEqSpecImpl for Felt {
    open spec fn obeys_eq_spec() -> bool {
        true
    }

    open spec fn eq_spec(&self, other: &Felt) -> bool {
        self@ == other@
    }
}

impl Felt {
    #[verifier::type_invariant]
    spec fn in_field(self) -> bool {
        0 <= self.value@ < felt_prime()
    }

    /// Every element that executable code holds is a reduced
    /// representative; calling this makes the fact known where it is needed.
    pub fn reduced(&self)
        ensures
            0 <= self@ < felt_prime(),
    {
        proof {
            use_type_invariant(self);
        }
    }

    /// The element that `value` reduces to.
    pub fn new(value: &BigInt) -> (r: Felt)
        ensures
            r@ == value@ % felt_prime(),
    {
        let p = prime();
        proof {
            lemma_felt_prime_positive();
            lemma_mod_floor_positive(value@, p@);
        }
        Felt { value: value.mod_floor(&p) }
    }

    pub fn zero() -> (r: Felt)
        ensures
            r@ == 0,
    {
        proof {
            lemma_felt_prime_positive();
        }
        Felt { value: BigInt::zero() }
    }

    pub fn one() -> (r: Felt)
        ensures
            r@ == 1,
    {
        proof {
            lemma_felt_prime_positive();
        }
        Felt { value: BigInt::one() }
    }

    pub fn from_u64(x: u64) -> (r: Felt)
        ensures
            r@ == x,
    {
        proof {
            lemma_felt_prime_positive();
            lemma_pow2_pos(192);
            vstd::arithmetic::power2::lemma2_to64();
            vstd::arithmetic::power2::lemma_pow2_strictly_increases(64, 251);
        }
        Felt { value: BigInt::from_u64(x) }
    }

    pub fn from_usize(x: usize) -> (r: Felt)
        ensures
            r@ == x,
    {
        Felt::from_u64(x as u64)
    }

    /// The representative in `[0, felt_prime())`.
    pub fn to_bigint(&self) -> (r: BigInt)
        ensures
            r@ == self@,
            0 <= r@ < felt_prime(),
    {
        proof {
            use_type_invariant(self);
        }
        self.value.clone()
    }

    pub fn is_zero(&self) -> (r: bool)
        ensures
            r == (self@ == 0),
    {
        self.value.is_zero()
    }

    /// The value as a `usize`, where it fits.
    pub fn to_usize(&self) -> (r: Option<usize>)
        ensures
            r is Some <==> self@ <= usize::MAX,
            r is Some ==> r->0 == self@,
    {
        proof {
            use_type_invariant(self);
        }
        match self.value.to_u64() {
            Some(v) => {
                if v <= usize::MAX as u64 {
                    Some(v as usize)
                } else {
                    None
                }
            },
            None => None,
        }
    }

    /// The value as a `u32`, where it fits.
    pub fn to_u32(&self) -> (r: Option<u32>)
        ensures
            r is Some <==> self@ <= u32::MAX,
            r is Some ==> r->0 == self@,
    {
        proof {
            use_type_invariant(self);
        }
        match self.value.to_u64() {
            Some(v) => {
                if v <= u32::MAX as u64 {
                    Some(v as u32)
                } else {
                    None
                }
            },
            None => None,
        }
    }

    /// The 32 bytes of the representative, least significant first.
    pub fn to_bytes_le(&self) -> (r: Vec<u8>)
        ensures
            r@.len() == 32,
            forall|i: int| 0 <= i < 32 ==> r@[i] == le_byte(self@, i as nat),
    {
        proof {
            use_type_invariant(self);
        }
        let base = BigInt::from_u64(256);
        let mut rest = self.value.clone();
        let mut bytes: Vec<u8> = Vec::new();
        let mut i: usize = 0;
        proof {
            reveal(pow);
        }
        while i < 32
            invariant
                i <= 32,
                base@ == 256,
                self@ >= 0,
                rest@ == self@ / pow(256, i as nat),
                bytes@.len() == i,
                forall|j: int| 0 <= j < i ==> bytes@[j] == le_byte(self@, j as nat),
            decreases 32 - i,
        {
            proof {
                lemma_pow_positive(256, i as nat);
                lemma_div_pos_is_pos(self@, pow(256, i as nat));
                lemma_mod_floor_positive(rest@, 256);
                lemma_fundamental_div_mod(rest@, 256);
                lemma_div_denominator(self@, pow(256, i as nat), 256);
                assert(pow(256, (i + 1) as nat) == 256 * pow(256, i as nat)) by {
                    reveal(pow);
                }
                assert(pow(256, i as nat) * 256 == 256 * pow(256, i as nat)) by (nonlinear_arith);
            }
            let digit = rest.mod_floor(&base);
            let byte = match digit.to_u64() {
                Some(d) => d as u8,
                None => 0u8,
            };
            bytes.push(byte);
            rest = rest.div_floor(&base);
            i = i + 1;
        }
        bytes
    }

    /// Field addition.
    pub fn plus(&self, other: &Felt) -> (r: Felt)
        ensures
            r@ == (self@ + other@) % felt_prime(),
    {
        Felt::new(&self.value.plus(&other.value))
    }

    /// Field multiplication.
    pub fn times(&self, other: &Felt) -> (r: Felt)
        ensures
            r@ == (self@ * other@) % felt_prime(),
    {
        Felt::new(&self.value.times(&other.value))
    }
}

} // verus!
