//! Inverses modulo the circuit's modulus and, where a value has none, the
//! nullifier that stands in for it.

use crate::bigint::{bezout_coefficient, BigInt};
use crate::felt::lemma_mod_floor_positive;
use crate::number_theory::{
    abs, gcd, lemma_divisible_is_multiple, lemma_exact_quotient, lemma_gcd_divides,
};
use vstd::arithmetic::div_mod::{lemma_fundamental_div_mod, lemma_mod_bound};
use vstd::prelude::*;

verus! {

/// The residue of `value` as arithmetic on unsigned magnitudes yields it:
/// a negative multiple of the modulus gives the modulus itself.
pub open spec fn get_modulus_spec(value: int, modulus: int) -> int {
    if value < 0 {
        modulus - (-value) % modulus
    } else {
        value % modulus
    }
}

/// Reduces a signed number into the range of a positive modulus.
pub fn get_modulus(value: &BigInt, modulus: &BigInt) -> (r: BigInt)
    requires
        modulus@ > 0,
    ensures
        r@ == get_modulus_spec(value@, modulus@),
        0 <= r@ <= modulus@,
        (r@ - value@) % modulus@ == 0,
{
    let negative = value.is_negative();
    let magnitude = if negative {
        BigInt::zero().minus(value)
    } else {
        value.clone()
    };
    proof {
        lemma_mod_floor_positive(magnitude@, modulus@);
        lemma_fundamental_div_mod(magnitude@, modulus@);
        let q = magnitude@ / modulus@;
        if negative {
            assert(modulus@ - magnitude@ % modulus@ - value@ == modulus@ * (1 + q)) by (nonlinear_arith)
                requires
                    magnitude@ == -value@,
                    magnitude@ == modulus@ * q + magnitude@ % modulus@,
            ;
            lemma_exact_quotient(modulus@ - magnitude@ % modulus@ - value@, modulus@, 1 + q);
        } else {
            assert(magnitude@ % modulus@ - value@ == modulus@ * (-q)) by (nonlinear_arith)
                requires
                    magnitude@ == value@,
                    magnitude@ == modulus@ * q + magnitude@ % modulus@,
            ;
            lemma_exact_quotient(magnitude@ % modulus@ - value@, modulus@, -q);
        }
    }
    let value_magnitude = magnitude.mod_floor(modulus);
    if negative {
        modulus.minus(&value_magnitude)
    } else {
        value_magnitude
    }
}

/// The inverse can be looked for: the numbers are not negative, and a zero
/// modulus comes with a value of at least two.
pub open spec fn find_inverse_defined(value: int, modulus: int) -> bool {
    &&& value >= 0
    &&& modulus >= 0
    &&& (modulus != 0 || value >= 2)
}

/// Whether `value` has an inverse modulo `modulus`, with the inverse or,
/// where there is none, the nullifier `modulus / gcd(value, modulus)`.
pub open spec fn find_inverse_spec(value: int, modulus: int) -> (bool, int) {
    let g = gcd(abs(value), abs(modulus)) as int;
    if g == 1 {
        (true, get_modulus_spec(bezout_coefficient(value, modulus), modulus))
    } else {
        (false, modulus / g)
    }
}

/// Finds the inverse of `value` modulo `modulus`. Where `value` has no
/// inverse, finds a nullifier instead: a number whose product with `value`
/// is a multiple of the modulus.
pub fn find_inverse(value: BigInt, modulus: &BigInt) -> (r: (bool, BigInt))
    requires
        find_inverse_defined(value@, modulus@),
    ensures
        (r.0, r.1@) == find_inverse_spec(value@, modulus@),
        r.0 == (gcd(abs(value@), abs(modulus@)) == 1),
        r.0 && modulus@ > 1 ==> 0 < r.1@ < modulus@ && (value@ * r.1@) % modulus@ == 1,
        !r.0 && modulus@ > 0 ==> 0 < r.1@ <= modulus@ && (value@ * r.1@) % modulus@ == 0,
{
    let (g, x, y) = value.extended_gcd(modulus);
    if g == BigInt::one() {
        proof {
            if modulus@ == 0 {
                assert(gcd(abs(value@), 0) == abs(value@));
            }
        }
        let inverse = get_modulus(&x, modulus);
        proof {
            if modulus@ > 1 {
                lemma_divisible_is_multiple(inverse@ - x@, modulus@);
                let k = (inverse@ - x@) / modulus@;
                let t = value@ * k - y@;
                assert(value@ * inverse@ - 1 == modulus@ * t) by (nonlinear_arith)
                    requires
                        x@ * value@ + y@ * modulus@ == 1,
                        inverse@ - x@ == modulus@ * k,
                        t == value@ * k - y@,
                ;
                lemma_exact_quotient(value@ * inverse@ - 1, modulus@, t);
                lemma_residue_one(value@ * inverse@, modulus@);
                if inverse@ == 0 || inverse@ == modulus@ {
                    assert(value@ * inverse@ == modulus@ * (if inverse@ == 0 {
                        0
                    } else {
                        value@
                    })) by (nonlinear_arith)
                        requires
                            inverse@ == 0 || inverse@ == modulus@,
                    ;
                    lemma_exact_quotient(
                        value@ * inverse@,
                        modulus@,
                        if inverse@ == 0 {
                            0
                        } else {
                            value@
                        },
                    );
                }
            }
        }
        return (true, inverse);
    }
    proof {
        if modulus@ == 0 {
            assert(gcd(abs(value@), 0) == abs(value@));
        } else {
            lemma_gcd_divides(abs(value@), abs(modulus@));
        }
        lemma_fundamental_div_mod(modulus@, g@);
    }
    let nullifier = modulus.div_floor(&g);
    proof {
        if modulus@ > 0 {
            lemma_divisible_is_multiple(value@, g@);
            let v = value@ / g@;
            assert(value@ * nullifier@ == modulus@ * v) by (nonlinear_arith)
                requires
                    modulus@ == g@ * nullifier@,
                    value@ == g@ * v,
            ;
            lemma_exact_quotient(value@ * nullifier@, modulus@, v);
            assert(0 < nullifier@ <= modulus@) by (nonlinear_arith)
                requires
                    modulus@ == g@ * nullifier@,
                    modulus@ > 0,
                    g@ > 0,
            ;
        }
    }
    (false, nullifier)
}

/// A number one above a multiple of a modulus greater than one leaves one.
proof fn lemma_residue_one(n: int, m: int)
    requires
        m > 1,
        (n - 1) % m == 0,
    ensures
        n % m == 1,
{
    lemma_divisible_is_multiple(n - 1, m);
    let k = (n - 1) / m;
    lemma_fundamental_div_mod(n, m);
    lemma_mod_bound(n, m);
    let q = n / m;
    let r = n % m;
    assert(r == 1) by (nonlinear_arith)
        requires
            n - 1 == m * k,
            n == m * q + r,
            0 <= r < m,
            m > 1,
    ;
}

} // verus!
