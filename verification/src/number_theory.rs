//! Greatest common divisors, Bezout coefficients and primes over the
//! mathematical integers, with the lemmas the arithmetic functions rest on.

use vstd::arithmetic::div_mod::{
    lemma_fundamental_div_mod, lemma_mod_bound, lemma_mod_multiples_basic,
};
use vstd::prelude::*;

verus! {

/// The absolute value.
pub open spec fn abs(x: int) -> nat {
    if x < 0 {
        (-x) as nat
    } else {
        x as nat
    }
}

/// The sign: -1, 0 or 1.
pub open spec fn signum(x: int) -> int {
    if x < 0 {
        -1
    } else if x == 0 {
        0
    } else {
        1
    }
}

/// The greatest common divisor; `gcd(0, 0)` is 0.
pub open spec fn gcd(a: nat, b: nat) -> nat
    decreases b,
{
    if b == 0 {
        a
    } else {
        gcd(b, a % b)
    }
}

/// `p` has no divisor strictly between 1 and itself.
pub open spec fn is_prime(p: int) -> bool {
    &&& p > 1
    &&& forall|d: int| 1 < d < p ==> #[trigger] (p % d) != 0
}

/// A multiple of `d` leaves no remainder.
pub proof fn lemma_multiple_mod(k: int, d: int)
    requires
        d != 0,
    ensures
        (k * d) % d == 0,
        (d * k) % d == 0,
{
    if d > 0 {
        lemma_mod_multiples_basic(k, d);
    } else {
        lemma_mod_multiples_basic(-k, -d);
        assert((-k) * (-d) == k * d) by (nonlinear_arith);
        lemma_fundamental_div_mod(k * d, -d);
        let q = (k * d) / (-d);
        assert(k * d == d * (-q)) by (nonlinear_arith)
            requires
                k * d == (-d) * q + 0,
        ;
        lemma_exact_quotient(k * d, d, -q);
    }
    assert(k * d == d * k) by (nonlinear_arith);
}

/// If `n == d * q` then `d` divides `n` in the sense of `%`.
pub proof fn lemma_exact_quotient(n: int, d: int, q: int)
    requires
        d != 0,
        n == d * q,
    ensures
        n % d == 0,
{
    lemma_fundamental_div_mod(n, d);
    let r = n % d;
    let k = n / d;
    if d > 0 {
        lemma_mod_bound(n, d);
        assert(r == 0) by (nonlinear_arith)
            requires
                d * q == d * k + r,
                0 <= r < d,
        ;
    } else {
        assert(0 <= r < -d) by {
            lemma_euclid_range(n, d);
        }
        assert(r == 0) by (nonlinear_arith)
            requires
                d * q == d * k + r,
                0 <= r < -d,
        ;
    }
}

/// The Euclidean remainder lies in `[0, |d|)`.
pub proof fn lemma_euclid_range(n: int, d: int)
    requires
        d != 0,
    ensures
        0 <= n % d < abs(d),
{
    if d > 0 {
        lemma_mod_bound(n, d);
    } else {
        assert(0 <= n % d < -d) by (nonlinear_arith)
            requires
                d < 0,
        ;
    }
}

/// A number that leaves no remainder is its quotient times the divisor.
pub proof fn lemma_divisible_is_multiple(n: int, d: int)
    requires
        d != 0,
        n % d == 0,
    ensures
        n == d * (n / d),
{
    lemma_fundamental_div_mod(n, d);
}

/// The gcd of two numbers, one of them positive, is positive and divides both.
pub proof fn lemma_gcd_divides(a: nat, b: nat)
    requires
        a > 0 || b > 0,
    ensures
        gcd(a, b) > 0,
        a as int % gcd(a, b) as int == 0,
        b as int % gcd(a, b) as int == 0,
    decreases b,
{
    if b == 0 {
        lemma_multiple_mod(1, a as int);
        lemma_multiple_mod(0, a as int);
    } else {
        let r = a % b;
        lemma_gcd_divides(b, r);
        let g = gcd(b, r) as int;
        lemma_fundamental_div_mod(a as int, b as int);
        lemma_divisible_is_multiple(b as int, g);
        lemma_divisible_is_multiple(r as int, g);
        let q = a as int / b as int;
        let kb = b as int / g;
        let kr = r as int / g;
        assert(a as int == g * (kb * q + kr)) by (nonlinear_arith)
            requires
                a as int == b as int * q + r as int,
                b as int == g * kb,
                r as int == g * kr,
        ;
        lemma_exact_quotient(a as int, g, kb * q + kr);
    }
}

/// Bezout's identity: some integer combination of `a` and `b` is their gcd.
pub proof fn lemma_bezout(a: nat, b: nat) -> (c: (int, int))
    ensures
        c.0 * a + c.1 * b == gcd(a, b),
    decreases b,
{
    if b == 0 {
        (1, 0)
    } else {
        let r = a % b;
        let (x, y) = lemma_bezout(b, r);
        let q = a as int / b as int;
        lemma_fundamental_div_mod(a as int, b as int);
        assert(y * a + (x - y * q) * b == x * b + y * r) by (nonlinear_arith)
            requires
                a as int == b as int * q + r as int,
        ;
        (y, x - y * q)
    }
}

/// Bezout's identity for integers of either sign.
pub proof fn lemma_bezout_signed(a: int, b: int) -> (c: (int, int))
    ensures
        c.0 * a + c.1 * b == gcd(abs(a), abs(b)),
{
    let (x, y) = lemma_bezout(abs(a), abs(b));
    let cx = x * signum(a);
    let cy = y * signum(b);
    assert(cx * a == x * abs(a)) by (nonlinear_arith)
        requires
            cx == x * signum(a),
            signum(a) * a == abs(a),
    ;
    assert(cy * b == y * abs(b)) by (nonlinear_arith)
        requires
            cy == y * signum(b),
            signum(b) * b == abs(b),
    ;
    (cx, cy)
}

/// A number that a prime does not divide is coprime to it.
pub proof fn lemma_coprime_to_prime(m: int, p: int)
    requires
        is_prime(p),
        m % p != 0,
    ensures
        gcd(abs(m), abs(p)) == 1,
{
    let g = gcd(abs(m), abs(p)) as int;
    lemma_gcd_divides(abs(m), abs(p));
    lemma_divisible_is_multiple(p, g);
    let k = p / g;
    assert(g <= p) by (nonlinear_arith)
        requires
            p == g * k,
            p > 1,
            g > 0,
    ;
    if g == p {
        lemma_divisible_is_multiple(abs(m) as int, p);
        let t = abs(m) as int / p;
        if m < 0 {
            assert(m == p * (-t)) by (nonlinear_arith)
                requires
                    -m == p * t,
            ;
            lemma_exact_quotient(m, p, -t);
        } else {
            lemma_exact_quotient(m, p, t);
        }
        assert(false);
    } else if g > 1 {
        assert(p % g != 0);
        assert(false);
    }
}

} // verus!
