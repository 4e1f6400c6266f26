use cairo_core::bigint::BigInt;
use cairo_core::errors::VirtualMachineError;
use cairo_core::felt::Felt;
use cairo_core::math_utils::{
    div_mod, ec_add, ec_double, ec_double_slope, isqrt, line_slope, safe_div, safe_div_bigint,
    safe_div_usize,
};

fn big(s: &str) -> BigInt {
    let n = num_bigint::BigInt::parse_bytes(s.as_bytes(), 10).unwrap();
    BigInt::from_signed_bytes_le(n.to_signed_bytes_le())
}

fn small(n: i64) -> BigInt {
    BigInt::from_signed_bytes_le(num_bigint::BigInt::from(n).to_signed_bytes_le())
}

fn square(n: &BigInt) -> BigInt {
    let v = num_bigint::BigInt::from_signed_bytes_le(&n.to_signed_bytes_le());
    BigInt::from_signed_bytes_le((&v * &v).to_signed_bytes_le())
}

fn cairo_prime() -> BigInt {
    big("3618502788666131213697322783095070105623107215331596699973092056135872020481")
}

#[test]
fn compute_safe_div() {
    let x = Felt::new(&small(26));
    let y = Felt::new(&small(13));
    assert_eq!(safe_div(&x, &y), Ok(Felt::new(&small(2))));
}

#[test]
fn compute_safe_div_non_divisor() {
    let x = Felt::new(&small(25));
    let y = Felt::new(&small(4));
    assert_eq!(
        safe_div(&x, &y),
        Err(VirtualMachineError::SafeDivFail(
            Felt::new(&small(25)),
            Felt::new(&small(4))
        ))
    );
}

#[test]
fn compute_safe_div_by_zero() {
    let x = Felt::new(&small(25));
    let y = Felt::zero();
    assert_eq!(safe_div(&x, &y), Err(VirtualMachineError::DividedByZero));
}

#[test]
fn compute_safe_div_usize() {
    assert_eq!(safe_div_usize(26, 13), Ok(2));
}

#[test]
fn compute_safe_div_usize_non_divisor() {
    assert_eq!(
        safe_div_usize(25, 4),
        Err(VirtualMachineError::SafeDivFailUsize(25, 4))
    );
}

#[test]
fn compute_safe_div_usize_by_zero() {
    assert_eq!(
        safe_div_usize(25, 0),
        Err(VirtualMachineError::DividedByZero)
    );
}

#[test]
fn compute_line_slope_for_valid_points() {
    let point_a = (
        big("3139037544796708144595053687182055617920475701120786241351436619796497072089"),
        big("2119589567875935397690285099786081818522144748339117565577200220779667999801"),
    );
    let point_b = (
        big("3324833730090626974525872402899302150520188025637965566623476530814354734325"),
        big("3147007486456030910661996439995670279305852583596209647900952752170983517249"),
    );
    let prime = cairo_prime();
    assert_eq!(
        big("992545364708437554384321881954558327331693627531977596999212637460266617010"),
        line_slope(&point_a, &point_b, &prime)
    );
}

#[test]
fn compute_double_slope_for_valid_point_a() {
    let point = (
        big("3143372541908290873737380228370996772020829254218248561772745122290262847573"),
        big("1721586982687138486000069852568887984211460575851774005637537867145702861131"),
    );
    let prime = cairo_prime();
    let alpha = small(1);
    assert_eq!(
        big("3601388548860259779932034493250169083811722919049731683411013070523752439691"),
        ec_double_slope(point, &alpha, &prime)
    );
}

#[test]
fn compute_double_slope_for_valid_point_b() {
    let point = (
        big("1937407885261715145522756206040455121546447384489085099828343908348117672673"),
        big("2010355627224183802477187221870580930152258042445852905639855522404179702985"),
    );
    let prime = cairo_prime();
    let alpha = small(1);
    assert_eq!(
        big("2904750555256547440469454488220756360634457312540595732507835416669695939476"),
        ec_double_slope(point, &alpha, &prime)
    );
}

#[test]
fn calculate_ec_double_for_valid_point_a() {
    let point = (
        big("1937407885261715145522756206040455121546447384489085099828343908348117672673"),
        big("2010355627224183802477187221870580930152258042445852905639855522404179702985"),
    );
    let prime = cairo_prime();
    let alpha = small(1);
    assert_eq!(
        (
            big("58460926014232092148191979591712815229424797874927791614218178721848875644"),
            big("1065613861227134732854284722490492186040898336012372352512913425790457998694")
        ),
        ec_double(point, &alpha, &prime)
    );
}

#[test]
fn calculate_ec_double_for_valid_point_b() {
    let point = (
        big("3143372541908290873737380228370996772020829254218248561772745122290262847573"),
        big("1721586982687138486000069852568887984211460575851774005637537867145702861131"),
    );
    let prime = cairo_prime();
    let alpha = small(1);
    assert_eq!(
        (
            big("1937407885261715145522756206040455121546447384489085099828343908348117672673"),
            big("2010355627224183802477187221870580930152258042445852905639855522404179702985")
        ),
        ec_double(point, &alpha, &prime)
    );
}

#[test]
fn calculate_ec_double_for_valid_point_c() {
    let point = (
        big("634630432210960355305430036410971013200846091773294855689580772209984122075"),
        big("904896178444785983993402854911777165629036333948799414977736331868834995209"),
    );
    let prime = cairo_prime();
    let alpha = small(1);
    assert_eq!(
        (
            big("3143372541908290873737380228370996772020829254218248561772745122290262847573"),
            big("1721586982687138486000069852568887984211460575851774005637537867145702861131")
        ),
        ec_double(point, &alpha, &prime)
    );
}

#[test]
fn calculate_ec_add_for_valid_points_a() {
    let point_a = (
        big("1183418161532233795704555250127335895546712857142554564893196731153957537489"),
        big("1938007580204102038458825306058547644691739966277761828724036384003180924526"),
    );
    let point_b = (
        big("1977703130303461992863803129734853218488251484396280000763960303272760326570"),
        big("2565191853811572867032277464238286011368568368717965689023024980325333517459"),
    );
    let prime = cairo_prime();
    assert_eq!(
        (
            big("1977874238339000383330315148209250828062304908491266318460063803060754089297"),
            big("2969386888251099938335087541720168257053975603483053253007176033556822156706")
        ),
        ec_add(point_a, point_b, &prime)
    );
}

#[test]
fn calculate_ec_add_for_valid_points_b() {
    let point_a = (
        big("3139037544796708144595053687182055617920475701120786241351436619796497072089"),
        big("2119589567875935397690285099786081818522144748339117565577200220779667999801"),
    );
    let point_b = (
        big("3324833730090626974525872402899302150520188025637965566623476530814354734325"),
        big("3147007486456030910661996439995670279305852583596209647900952752170983517249"),
    );
    let prime = cairo_prime();
    assert_eq!(
        (
            big("1183418161532233795704555250127335895546712857142554564893196731153957537489"),
            big("1938007580204102038458825306058547644691739966277761828724036384003180924526")
        ),
        ec_add(point_a, point_b, &prime)
    );
}

#[test]
fn calculate_ec_add_for_valid_points_c() {
    let point_a = (
        big("1183418161532233795704555250127335895546712857142554564893196731153957537489"),
        big("1938007580204102038458825306058547644691739966277761828724036384003180924526"),
    );
    let point_b = (
        big("1977703130303461992863803129734853218488251484396280000763960303272760326570"),
        big("2565191853811572867032277464238286011368568368717965689023024980325333517459"),
    );
    let prime = cairo_prime();
    assert_eq!(
        (
            big("1977874238339000383330315148209250828062304908491266318460063803060754089297"),
            big("2969386888251099938335087541720168257053975603483053253007176033556822156706")
        ),
        ec_add(point_a, point_b, &prime)
    );
}

#[test]
fn calculate_isqrt_a() {
    let n = small(81);
    assert_eq!(isqrt(&n), Ok(small(9)));
}

#[test]
fn calculate_isqrt_b() {
    let n = big("4573659632505831259480");
    assert_eq!(isqrt(&square(&n)), Ok(n));
}

#[test]
fn calculate_isqrt_c() {
    let n = cairo_prime();
    assert_eq!(isqrt(&square(&n)), Ok(n));
}

#[test]
fn calculate_isqrt_zero() {
    let n = small(0);
    assert_eq!(isqrt(&n), Ok(small(0)));
}

#[test]
fn calculate_isqrt_negative() {
    let n = small(-1);
    assert_eq!(isqrt(&n), Err(VirtualMachineError::SqrtNegative(small(-1))));
}

#[test]
fn isqrt_brackets_every_small_number() {
    for n in 0..2000i64 {
        let r = isqrt(&small(n)).unwrap();
        let mut k = 0i64;
        while (k + 1) * (k + 1) <= n {
            k += 1;
        }
        assert_eq!(r, small(k));
    }
}

#[test]
fn isqrt_just_below_and_above_a_square() {
    let k = big("4573659632505831259480");
    let sq = num_bigint::BigInt::from_signed_bytes_le(&square(&k).to_signed_bytes_le());
    let below = BigInt::from_signed_bytes_le((&sq - num_bigint::BigInt::from(1)).to_signed_bytes_le());
    let above = BigInt::from_signed_bytes_le((&sq + num_bigint::BigInt::from(1)).to_signed_bytes_le());
    assert_eq!(isqrt(&below), Ok(big("4573659632505831259479")));
    assert_eq!(isqrt(&above), Ok(big("4573659632505831259480")));
}

#[test]
fn safe_div_of_a_product_gives_the_factor_back() {
    for a in [0i64, 1, 7, 123456789] {
        for b in [1i64, 2, 13, 99991] {
            let x = Felt::new(&small(a * b));
            assert_eq!(safe_div(&x, &Felt::new(&small(b))), Ok(Felt::new(&small(a))));
            assert_eq!(safe_div_bigint(&small(a * b), &small(b)), Ok(small(a)));
            assert_eq!(safe_div_bigint(&small(-a * b), &small(-b)), Ok(small(a)));
            assert_eq!(safe_div_bigint(&small(a * b), &small(-b)), Ok(small(-a)));
        }
    }
}

#[test]
fn safe_div_bigint_rejects_what_does_not_divide() {
    assert_eq!(
        safe_div_bigint(&small(25), &small(4)),
        Err(VirtualMachineError::SafeDivFailBigInt(small(25), small(4)))
    );
    assert_eq!(
        safe_div_bigint(&small(25), &small(0)),
        Err(VirtualMachineError::DividedByZero)
    );
}

#[test]
fn safe_div_usize_exact_values() {
    assert_eq!(safe_div_usize(0, 5), Ok(0));
    assert_eq!(safe_div_usize(35, 7), Ok(5));
    assert_eq!(safe_div_usize(1, 2), Err(VirtualMachineError::SafeDivFailUsize(1, 2)));
}

#[test]
fn div_mod_small_values() {
    // 3 * 5 = 15 = 1 (mod 7)
    assert_eq!(div_mod(&small(1), &small(3), &small(7)), small(5));
    // 2 * 4 = 8 = 3 (mod 5)
    assert_eq!(div_mod(&small(3), &small(2), &small(5)), small(4));
    // a negative numerator and denominator
    assert_eq!(div_mod(&small(-3), &small(-2), &small(5)), small(4));
    assert_eq!(div_mod(&small(0), &small(4), &small(9)), small(0));
    // modulo one everything is zero
    assert_eq!(div_mod(&small(5), &small(3), &small(1)), small(0));
}

#[test]
fn div_mod_result_times_divisor_is_the_dividend() {
    let p = cairo_prime();
    let pn = num_bigint::BigInt::from_signed_bytes_le(&p.to_signed_bytes_le());
    for (n, m) in [(1i64, 2i64), (17, 5), (123456, 789), (3, 1000003)] {
        let r = div_mod(&small(n), &small(m), &p);
        let rn = num_bigint::BigInt::from_signed_bytes_le(&r.to_signed_bytes_le());
        assert!(rn >= num_bigint::BigInt::from(0) && rn < pn);
        let rem = (rn * m - n) % &pn;
        assert_eq!(rem, num_bigint::BigInt::from(0));
    }
}

#[test]
fn big_integers_compare_by_value() {
    let a = BigInt::from_signed_bytes_le(vec![5, 0, 0]);
    let b = BigInt::from_signed_bytes_le(vec![5]);
    assert_eq!(a, b);
    assert!(small(-3).is_negative());
    assert!(!small(3).is_negative());
    assert!(small(0).is_zero());
    assert!(BigInt::from_signed_bytes_le(vec![]).is_zero());
    assert!(small(7).is_odd());
    assert!(small(-7).is_odd());
    assert!(!small(8).is_odd());
    assert!(small(-5).lt(&small(2)));
    assert!(small(2).le(&small(2)));
    assert!(!small(3).le(&small(2)));
    assert_eq!(BigInt::from_u8(200), small(200));
    assert_eq!(BigInt::one(), small(1));
    assert_eq!(BigInt::zero(), small(0));
}
