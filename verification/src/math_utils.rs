//! The number-theory kernel: integer square root, exact division, modular
//! division and affine arithmetic on short Weierstrass curves.

use crate::bigint::{div_floor_spec, mod_floor_spec, BigInt};
use crate::errors::VirtualMachineError;
use crate::felt::Felt;
use crate::number_theory::{
    abs, gcd, lemma_bezout_signed, lemma_divisible_is_multiple, lemma_exact_quotient, signum,
};
use vstd::arithmetic::div_mod::{lemma_fundamental_div_mod, lemma_mod_bound};
use vstd::arithmetic::power2::lemma2_to64;
use vstd::prelude::*;

verus! {

/// `x` is the floor of the square root of `n`.
pub open spec fn is_integer_sqrt(x: int, n: int) -> bool {
    &&& 0 <= x
    &&& x * x <= n
    &&& n < (x + 1) * (x + 1)
}

/// One Newton step from a positive estimate never falls below the root.
proof fn lemma_newton_step(n: int, x: int)
    requires
        n >= 0,
        x > 0,
    ensures
        ({
            let y = (x + n / x) / 2;
            &&& y >= 0
            &&& n < (y + 1) * (y + 1)
            &&& (n > 0 ==> y > 0)
        }),
{
    let q = n / x;
    let y = (x + q) / 2;
    lemma_fundamental_div_mod(n, x);
    lemma_mod_bound(n, x);
    assert(q >= 0) by (nonlinear_arith)
        requires
            n == x * q + n % x,
            0 <= n % x < x,
            n >= 0,
            x > 0,
    ;
    assert(n < (q + 1) * x) by (nonlinear_arith)
        requires
            n == x * q + n % x,
            0 <= n % x < x,
    ;
    let t = x + q + 1;
    assert(t * t >= 4 * ((q + 1) * x)) by (nonlinear_arith)
        requires
            t == x + q + 1,
    ;
    assert(4 * ((y + 1) * (y + 1)) >= t * t) by (nonlinear_arith)
        requires
            2 * (y + 1) >= t,
            t >= 0,
    ;
    if n > 0 && y <= 0 {
        assert((y + 1) * (y + 1) == 1) by (nonlinear_arith)
            requires
                y == 0,
        ;
    }
}

/// When the Newton step no longer descends, the estimate squared is within `n`.
proof fn lemma_newton_exit(n: int, x: int)
    requires
        n >= 0,
        x > 0,
        (x + n / x) / 2 >= x,
    ensures
        x * x <= n,
{
    let q = n / x;
    lemma_fundamental_div_mod(n, x);
    lemma_mod_bound(n, x);
    assert(x * x <= n) by (nonlinear_arith)
        requires
            n == x * q + n % x,
            0 <= n % x,
            q >= x,
            x > 0,
    ;
}

/// The integer square root is unique; in particular the root of a square is
/// the number that was squared.
pub proof fn lemma_isqrt_unique(x: int, k: int, n: int)
    requires
        is_integer_sqrt(x, n),
        is_integer_sqrt(k, n),
    ensures
        x == k,
{
    if x < k {
        assert((x + 1) * (x + 1) <= k * k) by (nonlinear_arith)
            requires
                0 <= x,
                x + 1 <= k,
        ;
    } else if k < x {
        assert((k + 1) * (k + 1) <= x * x) by (nonlinear_arith)
            requires
                0 <= k,
                k + 1 <= x,
        ;
    }
}

/// The integer square root of a perfect square `k * k`, `k >= 0`, is `k`.
pub proof fn lemma_isqrt_of_square(x: int, k: int)
    requires
        k >= 0,
        is_integer_sqrt(x, k * k),
    ensures
        x == k,
{
    assert(k * k < (k + 1) * (k + 1)) by (nonlinear_arith)
        requires
            k >= 0,
    ;
    lemma_isqrt_unique(x, k, k * k);
}

/// The floor of the square root of `n`, by Newton's iteration from `n`
/// downwards. A negative `n` has none.
pub fn isqrt(n: &BigInt) -> (r: Result<BigInt, VirtualMachineError>)
    ensures
        n@ < 0 ==> (r matches Err(VirtualMachineError::SqrtNegative(v)) && v@ == n@),
        n@ >= 0 ==> (r matches Ok(x) && is_integer_sqrt(x@, n@)),
{
    if n.is_negative() {
        return Err(VirtualMachineError::SqrtNegative(n.clone()));
    }
    let one = BigInt::one();
    let mut x = n.clone();
    let mut y = x.plus(&one).shr(1);
    proof {
        lemma2_to64();
        assert(n@ < (n@ + 1) * (n@ + 1)) by (nonlinear_arith)
            requires
                n@ >= 0,
        ;
        if n@ > 0 {
            assert(n@ / n@ == 1) by (nonlinear_arith)
                requires
                    n@ > 0,
            ;
        }
    }
    while y.lt(&x)
        invariant
            n@ >= 0,
            x@ >= 0,
            n@ < (x@ + 1) * (x@ + 1),
            n@ > 0 ==> x@ > 0,
            n@ == 0 ==> x@ == 0,
            y@ == if x@ > 0 {
                (x@ + n@ / x@) / 2
            } else {
                0
            },
        decreases x@,
    {
        proof {
            lemma_newton_step(n@, x@);
            lemma2_to64();
        }
        x = y;
        y = x.plus(&n.div_floor(&x)).shr(1);
    }
    proof {
        if x@ > 0 {
            lemma_newton_exit(n@, x@);
        } else {
            assert(x@ * x@ == 0) by (nonlinear_arith)
                requires
                    x@ == 0,
            ;
        }
    }
    let x1 = x.plus(&one);
    if !(x.times(&x).le(n) && n.lt(&x1.times(&x1))) {
        return Err(VirtualMachineError::FailedToGetSqrt(n.clone()));
    }
    Ok(x)
}

/// Dividing a product by one of its factors gives back the other and leaves
/// nothing over.
pub proof fn lemma_safe_div_of_product(a: int, b: int)
    requires
        b != 0,
    ensures
        mod_floor_spec(a * b, b) == 0,
        div_floor_spec(a * b, b) == a,
        b > 0 ==> (a * b) % b == 0 && (a * b) / b == a,
{
    if b > 0 {
        assert(a * b == b * a) by (nonlinear_arith);
        lemma_exact_quotient(a * b, b, a);
        lemma_fundamental_div_mod(a * b, b);
        let q = (a * b) / b;
        assert(q == a) by (nonlinear_arith)
            requires
                a * b == b * q,
                b > 0,
        ;
    } else {
        let c = -b;
        assert(-(a * b) == c * a) by (nonlinear_arith)
            requires
                c == -b,
        ;
        lemma_exact_quotient(-(a * b), c, a);
        lemma_fundamental_div_mod(-(a * b), c);
        let q = (-(a * b)) / c;
        assert(q == a) by (nonlinear_arith)
            requires
                c * a == c * q,
                c > 0,
        ;
        assert(b * a == a * b) by (nonlinear_arith);
    }
}

/// Exact division of field elements taken as integers: fails when `y` is
/// zero and when `y` does not divide `x`.
pub fn safe_div(x: &Felt, y: &Felt) -> (r: Result<Felt, VirtualMachineError>)
    ensures
        y@ == 0 ==> r == Err::<Felt, VirtualMachineError>(VirtualMachineError::DividedByZero),
        y@ != 0 && x@ % y@ != 0 ==> (r matches Err(VirtualMachineError::SafeDivFail(a, b)) && a@
            == x@ && b@ == y@),
        y@ != 0 && x@ % y@ == 0 ==> (r matches Ok(q) && q@ == x@ / y@),
{
    if y.is_zero() {
        return Err(VirtualMachineError::DividedByZero);
    }
    let xv = x.to_bigint();
    let yv = y.to_bigint();
    let q = xv.div_floor(&yv);
    let m = xv.mod_floor(&yv);
    proof {
        lemma_fundamental_div_mod(xv@, yv@);
        lemma_mod_bound(xv@, yv@);
    }
    if !m.is_zero() {
        return Err(VirtualMachineError::SafeDivFail(x.clone(), y.clone()));
    }
    proof {
        assert(0 <= q@ <= xv@) by (nonlinear_arith)
            requires
                xv@ == yv@ * q@,
                yv@ > 0,
                xv@ >= 0,
        ;
        vstd::arithmetic::div_mod::lemma_small_mod(q@ as nat, crate::felt::felt_prime() as nat);
    }
    Ok(Felt::new(&q))
}

/// Exact division of integers of any sign: fails when `y` is zero and when
/// `y` does not divide `x`.
pub fn safe_div_bigint(x: &BigInt, y: &BigInt) -> (r: Result<BigInt, VirtualMachineError>)
    ensures
        y@ == 0 ==> r == Err::<BigInt, VirtualMachineError>(VirtualMachineError::DividedByZero),
        y@ != 0 && mod_floor_spec(x@, y@) != 0 ==> (r matches Err(
            VirtualMachineError::SafeDivFailBigInt(a, b),
        ) && a@ == x@ && b@ == y@),
        y@ != 0 && mod_floor_spec(x@, y@) == 0 ==> (r matches Ok(q) && q@ == div_floor_spec(
            x@,
            y@,
        )),
{
    if y.is_zero() {
        return Err(VirtualMachineError::DividedByZero);
    }
    let q = x.div_floor(y);
    let m = x.mod_floor(y);
    if !m.is_zero() {
        return Err(VirtualMachineError::SafeDivFailBigInt(x.clone(), y.clone()));
    }
    Ok(q)
}

/// Exact division of machine integers: fails when `y` is zero and when `y`
/// does not divide `x`.
pub fn safe_div_usize(x: usize, y: usize) -> (r: Result<usize, VirtualMachineError>)
    ensures
        y == 0 ==> r == Err::<usize, VirtualMachineError>(VirtualMachineError::DividedByZero),
        y != 0 && x % y != 0 ==> r == Err::<usize, VirtualMachineError>(
            VirtualMachineError::SafeDivFailUsize(x, y),
        ),
        y != 0 && x % y == 0 ==> r == Ok::<usize, VirtualMachineError>(x / y),
{
    if y == 0 {
        return Err(VirtualMachineError::DividedByZero);
    }
    if x % y != 0 {
        return Err(VirtualMachineError::SafeDivFailUsize(x, y));
    }
    Ok(x / y)
}

/// The absolute value of `v`.
fn big_abs(v: &BigInt) -> (r: BigInt)
    ensures
        r@ == abs(v@),
{
    if v.is_negative() {
        BigInt::zero().minus(v)
    } else {
        v.clone()
    }
}

/// The sign of `v`: -1, 0 or 1.
fn big_signum(v: &BigInt) -> (r: BigInt)
    ensures
        r@ == signum(v@),
{
    if v.is_negative() {
        BigInt::zero().minus(&BigInt::one())
    } else if v.is_zero() {
        BigInt::zero()
    } else {
        BigInt::one()
    }
}

/// Extended Euclid: `(x, y, g)` with `g = x * a + y * b = gcd(|a|, |b|)`.
fn igcdex(num_a: &BigInt, num_b: &BigInt) -> (r: (BigInt, BigInt, BigInt))
    ensures
        r.2@ == gcd(abs(num_a@), abs(num_b@)),
        r.0@ * num_a@ + r.1@ * num_b@ == r.2@,
{
    if num_a.is_zero() && num_b.is_zero() {
        return (BigInt::zero(), BigInt::one(), BigInt::zero());
    }
    if num_a.is_zero() {
        proof {
            lemma_gcd_zero_left(abs(num_b@));
            assert(signum(num_b@) * num_b@ == abs(num_b@)) by (nonlinear_arith);
        }
        return (BigInt::zero(), big_signum(num_b), big_abs(num_b));
    }
    if num_b.is_zero() {
        proof {
            assert(signum(num_a@) * num_a@ == abs(num_a@)) by (nonlinear_arith);
        }
        return (big_signum(num_a), BigInt::zero(), big_abs(num_a));
    }
    let mut a = big_abs(num_a);
    let x_sign = big_signum(num_a);
    let mut b = big_abs(num_b);
    let y_sign = big_signum(num_b);
    let mut x = BigInt::one();
    let mut y = BigInt::zero();
    let mut r = BigInt::zero();
    let mut s = BigInt::one();
    let ghost aa = abs(num_a@) as int;
    let ghost bb = abs(num_b@) as int;
    while !b.is_zero()
        invariant
            a@ >= 0,
            b@ >= 0,
            aa == abs(num_a@),
            bb == abs(num_b@),
            a@ == x@ * aa + y@ * bb,
            b@ == r@ * aa + s@ * bb,
            gcd(a@ as nat, b@ as nat) == gcd(abs(num_a@), abs(num_b@)),
        decreases b@,
    {
        let q = a.div_floor(&b);
        let c = a.mod_floor(&b);
        proof {
            lemma_fundamental_div_mod(a@, b@);
            lemma_mod_bound(a@, b@);
            lemma_euclid_step(a@, b@, c@, q@, x@, y@, r@, s@, aa, bb);
        }
        let next_r = x.minus(&q.times(&r));
        let next_s = y.minus(&q.times(&s));
        a = b;
        b = c;
        x = r;
        y = s;
        r = next_r;
        s = next_s;
    }
    proof {
        assert(signum(num_a@) * num_a@ == aa) by (nonlinear_arith)
            requires
                aa == abs(num_a@),
        ;
        assert((x@ * x_sign@) * num_a@ == x@ * aa) by (nonlinear_arith)
            requires
                x_sign@ * num_a@ == aa,
        ;
        assert(signum(num_b@) * num_b@ == bb) by (nonlinear_arith)
            requires
                bb == abs(num_b@),
        ;
        assert((y@ * y_sign@) * num_b@ == y@ * bb) by (nonlinear_arith)
            requires
                y_sign@ * num_b@ == bb,
        ;
    }
    (x.times(&x_sign), y.times(&y_sign), a)
}

/// One step of extended Euclid keeps both remainders combinations of the
/// inputs.
proof fn lemma_euclid_step(
    a: int,
    b: int,
    c: int,
    q: int,
    x: int,
    y: int,
    r: int,
    s: int,
    aa: int,
    bb: int,
)
    requires
        c == a - b * q,
        a == x * aa + y * bb,
        b == r * aa + s * bb,
    ensures
        c == (x - q * r) * aa + (y - q * s) * bb,
{
    assert(b * q == (q * r) * aa + (q * s) * bb) by (nonlinear_arith)
        requires
            b == r * aa + s * bb,
    ;
    assert((x - q * r) * aa == x * aa - (q * r) * aa) by (nonlinear_arith);
    assert((y - q * s) * bb == y * bb - (q * s) * bb) by (nonlinear_arith);
}

/// `gcd(0, b)` is `b`.
proof fn lemma_gcd_zero_left(b: nat)
    ensures
        gcd(0, b) == b,
{
    if b > 0 {
        assert(0nat % b == 0) by (nonlinear_arith)
            requires
                b > 0,
        ;
        assert(gcd(b, 0) == b);
    }
}

/// `r` is `n / m` modulo `p`: it lies between zero and `p` (`p` excluded,
/// on either side of zero) and `m * r` is congruent to `n`.
pub open spec fn is_div_mod(r: int, n: int, m: int, p: int) -> bool {
    &&& (m * r - n) % p == 0
    &&& if p > 0 {
        0 <= r < p
    } else {
        p < r <= 0
    }
}

/// The quotient `n / m` modulo `p`, meaningful where `m` and `p` are coprime.
pub open spec fn div_mod_spec(n: int, m: int, p: int) -> int {
    choose|r: int| is_div_mod(r, n, m, p)
}

/// The floor remainder lies between zero and the divisor.
pub proof fn lemma_mod_floor_range(a: int, p: int)
    requires
        p != 0,
    ensures
        p > 0 ==> 0 <= mod_floor_spec(a, p) < p,
        p < 0 ==> p < mod_floor_spec(a, p) <= 0,
        (a - mod_floor_spec(a, p)) % p == 0,
{
    if p > 0 {
        lemma_fundamental_div_mod(a, p);
        lemma_mod_bound(a, p);
    } else {
        lemma_fundamental_div_mod(-a, -p);
        lemma_mod_bound(-a, -p);
        let q = (-a) / (-p);
        assert(p * q == -((-p) * q)) by (nonlinear_arith);
    }
    lemma_exact_quotient(a - mod_floor_spec(a, p), p, div_floor_spec(a, p));
}

/// Modulo `p`, at most one number divides `n` by a given `m` coprime to `p`.
pub proof fn lemma_div_mod_unique(r1: int, r2: int, n: int, m: int, p: int)
    requires
        p != 0,
        gcd(abs(m), abs(p)) == 1,
        is_div_mod(r1, n, m, p),
        is_div_mod(r2, n, m, p),
    ensures
        r1 == r2,
{
    let (x, y) = lemma_bezout_signed(m, p);
    lemma_divisible_is_multiple(m * r1 - n, p);
    lemma_divisible_is_multiple(m * r2 - n, p);
    let k1 = (m * r1 - n) / p;
    let k2 = (m * r2 - n) / p;
    let d = r1 - r2;
    let t = x * (k1 - k2) + y * d;
    assert(d == p * t) by (nonlinear_arith)
        requires
            x * m + y * p == 1,
            m * r1 - n == p * k1,
            m * r2 - n == p * k2,
            d == r1 - r2,
            t == x * (k1 - k2) + y * d,
    ;
    assert(t == 0) by (nonlinear_arith)
        requires
            d == p * t,
            p != 0,
            -abs(p) < d < abs(p),
    ;
}

/// The non-negative `x` below `p` with `m * x` congruent to `n` modulo `p`
/// (for a negative `p`: the `x` above `p` and not above zero).
pub fn div_mod(n: &BigInt, m: &BigInt, p: &BigInt) -> (r: BigInt)
    requires
        p@ != 0,
        gcd(abs(m@), abs(p@)) == 1,
    ensures
        is_div_mod(r@, n@, m@, p@),
        r@ == div_mod_spec(n@, m@, p@),
{
    let (a, b, _c) = igcdex(m, p);
    let product = n.times(&a);
    let r = product.mod_floor(p);
    proof {
        lemma_mod_floor_range(product@, p@);
        lemma_divisible_is_multiple(product@ - r@, p@);
        let k = (product@ - r@) / p@;
        let t = -(n@ * b@) - m@ * k;
        assert(m@ * r@ - n@ == p@ * t) by (nonlinear_arith)
            requires
                a@ * m@ + b@ * p@ == 1,
                product@ == n@ * a@,
                product@ - r@ == p@ * k,
                t == -(n@ * b@) - m@ * k,
        ;
        lemma_exact_quotient(m@ * r@ - n@, p@, t);
        assert(is_div_mod(r@, n@, m@, p@));
        lemma_div_mod_unique(r@, div_mod_spec(n@, m@, p@), n@, m@, p@);
    }
    r
}

/// A point in affine coordinates.
pub type Point = (BigInt, BigInt);

/// The coordinates of a point as integers.
pub open spec fn point_view(p: Point) -> (int, int) {
    (p.0@, p.1@)
}

/// The slope through two points is defined: their x coordinates differ by
/// something invertible modulo `p`.
pub open spec fn line_slope_defined(a: (int, int), b: (int, int), p: int) -> bool {
    &&& p != 0
    &&& a.0 - mod_floor_spec(b.0, p) != 0
    &&& gcd(abs(a.0 - b.0), abs(p)) == 1
}

/// `(a.y - b.y) / (a.x - b.x)` modulo `p`.
pub open spec fn line_slope_spec(a: (int, int), b: (int, int), p: int) -> int {
    div_mod_spec(a.1 - b.1, a.0 - b.0, p)
}

/// The sum of two points with different x coordinates.
pub open spec fn ec_add_spec(a: (int, int), b: (int, int), p: int) -> (int, int) {
    let m = line_slope_spec(a, b, p);
    let x = mod_floor_spec(m * m - a.0 - b.0, p);
    let y = mod_floor_spec(m * (a.0 - x) - a.1, p);
    (x, y)
}

/// The tangent's slope at a point is defined: twice its y coordinate is
/// invertible modulo `p`.
pub open spec fn double_slope_defined(pt: (int, int), p: int) -> bool {
    &&& p != 0
    &&& mod_floor_spec(pt.1, p) != 0
    &&& gcd(abs(2 * pt.1), abs(p)) == 1
}

/// `(3 * x^2 + alpha) / (2 * y)` modulo `p`.
pub open spec fn double_slope_spec(pt: (int, int), alpha: int, p: int) -> int {
    div_mod_spec(3 * pt.0 * pt.0 + alpha, 2 * pt.1, p)
}

/// Twice a point whose y coordinate is not zero.
pub open spec fn ec_double_spec(pt: (int, int), alpha: int, p: int) -> (int, int) {
    let m = double_slope_spec(pt, alpha, p);
    let x = mod_floor_spec(m * m - 2 * pt.0, p);
    let y = mod_floor_spec(m * (pt.0 - x) - pt.1, p);
    (x, y)
}

/// The slope of the line through two points of a curve over GF(p), given in
/// affine form with different x coordinates.
pub fn line_slope(point_a: &Point, point_b: &Point, prime: &BigInt) -> (r: BigInt)
    requires
        line_slope_defined(point_view(*point_a), point_view(*point_b), prime@),
    ensures
        r@ == line_slope_spec(point_view(*point_a), point_view(*point_b), prime@),
        is_div_mod(r@, point_a.1@ - point_b.1@, point_a.0@ - point_b.0@, prime@),
{
    div_mod(&point_a.1.minus(&point_b.1), &point_a.0.minus(&point_b.0), prime)
}

/// The sum of two points with different x coordinates on a curve over GF(p).
pub fn ec_add(point_a: Point, point_b: Point, prime: &BigInt) -> (r: Point)
    requires
        line_slope_defined(point_view(point_a), point_view(point_b), prime@),
    ensures
        point_view(r) == ec_add_spec(point_view(point_a), point_view(point_b), prime@),
{
    let m = line_slope(&point_a, &point_b, prime);
    let x = m.times(&m).minus(&point_a.0).minus(&point_b.0).mod_floor(prime);
    let y = m.times(&point_a.0.minus(&x)).minus(&point_a.1).mod_floor(prime);
    (x, y)
}

/// The slope of the curve `y^2 = x^3 + alpha * x + beta` over GF(p) at a
/// point given in affine form with a y coordinate that is not zero.
pub fn ec_double_slope(point: Point, alpha: &BigInt, prime: &BigInt) -> (r: BigInt)
    requires
        double_slope_defined(point_view(point), prime@),
    ensures
        r@ == double_slope_spec(point_view(point), alpha@, prime@),
        is_div_mod(r@, 3 * point.0@ * point.0@ + alpha@, 2 * point.1@, prime@),
{
    let three = BigInt::from_u8(3);
    let two = BigInt::from_u8(2);
    div_mod(&three.times(&point.0).times(&point.0).plus(alpha), &two.times(&point.1), prime)
}

/// Twice a point of the curve `y^2 = x^3 + alpha * x + beta` over GF(p),
/// given in affine form with a y coordinate that is not zero.
pub fn ec_double(point: Point, alpha: &BigInt, prime: &BigInt) -> (r: Point)
    requires
        double_slope_defined(point_view(point), prime@),
    ensures
        point_view(r) == ec_double_spec(point_view(point), alpha@, prime@),
{
    let px = point.0.clone();
    let py = point.1.clone();
    let m = ec_double_slope(point, alpha, prime);
    let two = BigInt::from_u8(2);
    let x = m.times(&m).minus(&two.times(&px)).mod_floor(prime);
    let y = m.times(&px.minus(&x)).minus(&py).mod_floor(prime);
    (x, y)
}

} // verus!
