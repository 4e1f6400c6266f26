//! Hints of signature verification over the secp256k1 curve: division
//! modulo the group order and the recovery of a point from its x
//! coordinate. They read their operands through hint references and hand
//! their results on in a scope of named values.

use crate::bigint::{div_floor_spec, mod_floor_spec, BigInt};
use crate::errors::VirtualMachineError;
use crate::felt::{felt_prime, lemma_felt_prime_positive, prime, Felt};
use crate::hint_processor_definition::{ApTracking, HintReference};
use crate::hint_processor_utils::{
    compute_addr_from_reference, compute_addr_spec, displaced_spec, get_integer_from_reference,
};
use crate::math_utils::{div_mod, div_mod_spec, safe_div_bigint};
use crate::number_theory::{abs, gcd};
use crate::relocatable::{CellValue, Relocatable};
use crate::vm_core::VirtualMachine;
use vstd::arithmetic::power::pow;
use vstd::arithmetic::power2::{
    lemma2_to64, lemma_pow2_adds, lemma_pow2_pos, lemma_pow2_strictly_increases, pow2,
};
use vstd::prelude::*;

verus! {

pub const BASE_86: &'static str = "starkware.cairo.common.cairo_secp.constants.BASE";

pub const BETA: &'static str = "starkware.cairo.common.cairo_secp.constants.BETA";

pub const N0: &'static str = "starkware.cairo.common.cairo_secp.constants.N0";

pub const N1: &'static str = "starkware.cairo.common.cairo_secp.constants.N1";

pub const N2: &'static str = "starkware.cairo.common.cairo_secp.constants.N2";

pub const SECP_REM: &'static str = "starkware.cairo.common.cairo_secp.constants.SECP_REM";

/// The constants of a program by name. A name that occurs twice stands for
/// its first value.
pub type Constants = Vec<(String, Felt)>;

/// The values that the hints of one signature verification hand on to one
/// another.
#[derive(Debug, PartialEq)]
pub struct SecpScope {
    pub a: Option<BigInt>,
    pub b: Option<BigInt>,
    pub res: Option<BigInt>,
    pub value: Option<BigInt>,
}

impl SecpScope {
    /// A scope in which nothing is set.
    pub fn new() -> (r: SecpScope)
        ensures
            r.a is None,
            r.b is None,
            r.res is None,
            r.value is None,
    {
        SecpScope { a: None, b: None, res: None, value: None }
    }
}

/// The value of the first constant from `from` on that is named `name`.
pub open spec fn constant_spec(constants: Seq<(String, Felt)>, name: Seq<char>, from: nat) -> Option<
    int,
>
    decreases constants.len() - from,
{
    if from >= constants.len() {
        None
    } else if constants[from as int].0@ == name {
        Some(constants[from as int].1@)
    } else {
        constant_spec(constants, name, from + 1)
    }
}

/// Looks a constant up by its name.
pub fn get_constant(constants: &Constants, name: &str) -> (r: Result<BigInt, VirtualMachineError>)
    ensures
        match constant_spec(constants@, name@, 0) {
            Some(v) => r matches Ok(b) && b@ == v && 0 <= v < felt_prime(),
            None => r matches Err(VirtualMachineError::MissingConstant(missing)) && missing@
                == name@,
        },
{
    let key = name.to_owned();
    let mut i: usize = 0;
    while i < constants.len()
        invariant
            i <= constants@.len(),
            key@ == name@,
            constant_spec(constants@, name@, 0) == constant_spec(constants@, name@, i as nat),
        decreases constants@.len() - i,
    {
        if constants[i].0 == key {
            return Ok(constants[i].1.to_bigint());
        }
        i = i + 1;
    }
    Err(VirtualMachineError::MissingConstant(key))
}

/// A field element read as a signed number: the elements from half of the
/// prime on stand for the negative numbers.
pub open spec fn as_int_spec(v: int) -> int {
    if v < felt_prime() / 2 {
        v
    } else {
        v - felt_prime()
    }
}

/// The number that three limbs of 86 bits stand for, each read as a signed
/// number.
pub open spec fn pack_spec(d0: int, d1: int, d2: int) -> int {
    as_int_spec(d0) + as_int_spec(d1) * pow2(86) + as_int_spec(d2) * pow2(172)
}

/// A field element as a signed number.
pub fn as_int(value: &Felt) -> (r: BigInt)
    ensures
        r@ == as_int_spec(value@),
{
    let p = prime();
    let v = value.to_bigint();
    proof {
        lemma_felt_prime_positive();
        lemma2_to64();
    }
    let half = p.shr(1);
    if v.lt(&half) {
        v
    } else {
        v.minus(&p)
    }
}

/// Packs three limbs of 86 bits into one number.
pub fn pack(d0: &Felt, d1: &Felt, d2: &Felt) -> (r: BigInt)
    ensures
        r@ == pack_spec(d0@, d1@, d2@),
{
    as_int(d0).plus(&as_int(d1).shl(86)).plus(&as_int(d2).shl(172))
}

/// The field element in the cell `by` cells after `a`.
pub open spec fn limb_after(vm: &VirtualMachine, a: Relocatable, by: int) -> Result<
    int,
    VirtualMachineError,
> {
    match displaced_spec(a, by) {
        Err(e) => Err(e),
        Ok(cell) => match vm.memory@.get(cell) {
            Some(CellValue::Int(v)) => Ok(v),
            _ => Err(VirtualMachineError::ExpectedInteger(cell)),
        },
    }
}

/// The number packed in the three cells of the variable that a reference
/// describes.
pub open spec fn pack_from_reference_spec(
    vm: &VirtualMachine,
    hint_reference: &HintReference,
    ap_tracking: &ApTracking,
) -> Result<int, VirtualMachineError> {
    match compute_addr_spec(hint_reference, vm, ap_tracking) {
        Err(e) => Err(e),
        Ok(addr) => match limb_after(vm, addr, 0) {
            Err(e) => Err(e),
            Ok(d0) => match limb_after(vm, addr, 1) {
                Err(e) => Err(e),
                Ok(d1) => match limb_after(vm, addr, 2) {
                    Err(e) => Err(e),
                    Ok(d2) => Ok(pack_spec(d0, d1, d2)),
                },
            },
        },
    }
}

/// Reads the field element in the cell `by` cells after `a`.
fn read_limb(vm: &VirtualMachine, a: Relocatable, by: usize) -> (r: Result<Felt, VirtualMachineError>)
    requires
        by <= 2,
    ensures
        match limb_after(vm, a, by as int) {
            Ok(v) => r matches Ok(f) && f@ == v,
            Err(e) => r == Err::<Felt, VirtualMachineError>(e),
        },
{
    let cell = match a.add_usize(by) {
        Some(cell) => cell,
        None => { return Err(VirtualMachineError::OffsetExceeded(a.offset, by)) },
    };
    match vm.get_integer(&cell) {
        Ok(f) => Ok(f.clone()),
        Err(e) => Err(e),
    }
}

/// Reads and packs the three limbs of the variable that a reference
/// describes.
pub fn pack_from_reference(
    vm: &VirtualMachine,
    hint_reference: &HintReference,
    ap_tracking: &ApTracking,
) -> (r: Result<BigInt, VirtualMachineError>)
    ensures
        match pack_from_reference_spec(vm, hint_reference, ap_tracking) {
            Ok(v) => r matches Ok(b) && b@ == v,
            Err(e) => r == Err::<BigInt, VirtualMachineError>(e),
        },
{
    let to_pack = match compute_addr_from_reference(hint_reference, vm, ap_tracking) {
        Ok(a) => a,
        Err(e) => { return Err(e) },
    };
    let d0 = match read_limb(vm, to_pack, 0) {
        Ok(f) => f,
        Err(e) => { return Err(e) },
    };
    let d1 = match read_limb(vm, to_pack, 1) {
        Ok(f) => f,
        Err(e) => { return Err(e) },
    };
    let d2 = match read_limb(vm, to_pack, 2) {
        Ok(f) => f,
        Err(e) => { return Err(e) },
    };
    Ok(pack(&d0, &d1, &d2))
}

/// How looking something up among the constants ends.
pub ghost enum Lookup {
    Found(int),
    /// The constant of this name is missing.
    Missing(Seq<char>),
}

/// The order of the curve's group as the constants give it:
/// `N2 * BASE^2 + N1 * BASE + N0`.
pub open spec fn group_order_spec(constants: Seq<(String, Felt)>) -> Lookup {
    match constant_spec(constants, BASE_86@, 0) {
        None => Lookup::Missing(BASE_86@),
        Some(base) => match constant_spec(constants, N0@, 0) {
            None => Lookup::Missing(N0@),
            Some(n0) => match constant_spec(constants, N1@, 0) {
                None => Lookup::Missing(N1@),
                Some(n1) => match constant_spec(constants, N2@, 0) {
                    None => Lookup::Missing(N2@),
                    Some(n2) => Lookup::Found(n2 * base * base + n1 * base + n0),
                },
            },
        },
    }
}

/// The result `r` of a lookup says what `l` is.
pub open spec fn found(r: Result<BigInt, VirtualMachineError>, l: Lookup) -> bool {
    match l {
        Lookup::Found(v) => r matches Ok(b) && b@ == v,
        Lookup::Missing(name) => r matches Err(VirtualMachineError::MissingConstant(missing))
            && missing@ == name,
    }
}

/// The order of the curve's group as the constants give it.
pub fn group_order(constants: &Constants) -> (r: Result<BigInt, VirtualMachineError>)
    ensures
        found(r, group_order_spec(constants@)),
{
    let base = match get_constant(constants, BASE_86) {
        Ok(v) => v,
        Err(e) => { return Err(e) },
    };
    let n0 = match get_constant(constants, N0) {
        Ok(v) => v,
        Err(e) => { return Err(e) },
    };
    let n1 = match get_constant(constants, N1) {
        Ok(v) => v,
        Err(e) => { return Err(e) },
    };
    let n2 = match get_constant(constants, N2) {
        Ok(v) => v,
        Err(e) => { return Err(e) },
    };
    Ok(n2.times(&base).times(&base).plus(&n1.times(&base)).plus(&n0))
}

/// The operands of the division hint: the packed `a` and `b` and the group
/// order, or the error that reading them ends with.
pub open spec fn div_mod_n_operands_spec(
    vm: &VirtualMachine,
    ids_a: &HintReference,
    ids_b: &HintReference,
    ap_tracking: &ApTracking,
    constants: Seq<(String, Felt)>,
) -> Option<(int, int, int)> {
    match pack_from_reference_spec(vm, ids_a, ap_tracking) {
        Err(_) => None,
        Ok(a) => match pack_from_reference_spec(vm, ids_b, ap_tracking) {
            Err(_) => None,
            Ok(b) => match group_order_spec(constants) {
                Lookup::Missing(_) => None,
                Lookup::Found(n) => Some((a, b, n)),
            },
        },
    }
}

/// Implements the hint
///
/// ```text
/// a = pack(ids.a, PRIME)
/// b = pack(ids.b, PRIME)
/// value = res = div_mod(a, b, N)
/// ```
///
/// The division needs `b` to be invertible modulo `N`.
pub fn div_mod_n_packed_divmod(
    vm: &VirtualMachine,
    exec_scopes: &mut SecpScope,
    ids_a: &HintReference,
    ids_b: &HintReference,
    ap_tracking: &ApTracking,
    constants: &Constants,
) -> (r: Result<(), VirtualMachineError>)
    requires
        div_mod_n_operands_spec(vm, ids_a, ids_b, ap_tracking, constants@) matches Some(operands)
            ==> operands.2 != 0 && gcd(abs(operands.1), abs(operands.2)) == 1,
    ensures
        match pack_from_reference_spec(vm, ids_a, ap_tracking) {
            Err(e) => r == Err::<(), VirtualMachineError>(e) && *final(exec_scopes) == *old(
                exec_scopes,
            ),
            Ok(a) => match pack_from_reference_spec(vm, ids_b, ap_tracking) {
                Err(e) => r == Err::<(), VirtualMachineError>(e) && *final(exec_scopes) == *old(
                    exec_scopes,
                ),
                Ok(b) => match group_order_spec(constants@) {
                    Lookup::Missing(name) => (r matches Err(
                        VirtualMachineError::MissingConstant(missing),
                    ) && missing@ == name) && *final(exec_scopes) == *old(exec_scopes),
                    Lookup::Found(n) => {
                        &&& r is Ok
                        &&& final(exec_scopes).a matches Some(v) && v@ == a
                        &&& final(exec_scopes).b matches Some(v) && v@ == b
                        &&& final(exec_scopes).value matches Some(v) && v@ == div_mod_spec(a, b, n)
                        &&& final(exec_scopes).res matches Some(v) && v@ == div_mod_spec(a, b, n)
                    },
                },
            },
        },
{
    let a = match pack_from_reference(vm, ids_a, ap_tracking) {
        Ok(v) => v,
        Err(e) => { return Err(e) },
    };
    let b = match pack_from_reference(vm, ids_b, ap_tracking) {
        Ok(v) => v,
        Err(e) => { return Err(e) },
    };
    let n = match group_order(constants) {
        Ok(v) => v,
        Err(e) => { return Err(e) },
    };
    let value = div_mod(&a, &b, &n);
    exec_scopes.a = Some(a);
    exec_scopes.b = Some(b);
    exec_scopes.value = Some(value.clone());
    exec_scopes.res = Some(value);
    Ok(())
}

/// Implements the hint `value = k = safe_div(res * b - a, N)`, on the
/// values that the division hint left in the scope.
pub fn div_mod_n_safe_div(exec_scopes: &mut SecpScope, constants: &Constants) -> (r: Result<
    (),
    VirtualMachineError,
>)
    ensures
        final(exec_scopes).a == old(exec_scopes).a,
        final(exec_scopes).b == old(exec_scopes).b,
        final(exec_scopes).res == old(exec_scopes).res,
        r is Err ==> final(exec_scopes).value == old(exec_scopes).value,
        old(exec_scopes).a is None ==> (r matches Err(VirtualMachineError::VariableNotInScope(name))
            && name@ == "a"@),
        old(exec_scopes).a is Some && old(exec_scopes).b is None ==> (r matches Err(
            VirtualMachineError::VariableNotInScope(name),
        ) && name@ == "b"@),
        old(exec_scopes).a is Some && old(exec_scopes).b is Some && old(exec_scopes).res is None
            ==> (r matches Err(VirtualMachineError::VariableNotInScope(name)) && name@ == "res"@),
        old(exec_scopes).a is Some && old(exec_scopes).b is Some && old(exec_scopes).res is Some
            ==> match group_order_spec(constants@) {
            Lookup::Missing(name) => r matches Err(VirtualMachineError::MissingConstant(missing))
                && missing@ == name,
            Lookup::Found(n) => {
                let x = old(exec_scopes).res->0@ * old(exec_scopes).b->0@ - old(exec_scopes).a->0@;
                if n == 0 {
                    r == Err::<(), VirtualMachineError>(VirtualMachineError::DividedByZero)
                } else if mod_floor_spec(x, n) != 0 {
                    r matches Err(VirtualMachineError::SafeDivFailBigInt(dividend, divisor))
                        && dividend@ == x && divisor@ == n
                } else {
                    r is Ok && (final(exec_scopes).value matches Some(v) && v@ == div_floor_spec(
                        x,
                        n,
                    ))
                }
            },
        },
{
    let a = match &exec_scopes.a {
        Some(v) => v.clone(),
        None => { return Err(VirtualMachineError::VariableNotInScope("a".to_owned())) },
    };
    let b = match &exec_scopes.b {
        Some(v) => v.clone(),
        None => { return Err(VirtualMachineError::VariableNotInScope("b".to_owned())) },
    };
    let res = match &exec_scopes.res {
        Some(v) => v.clone(),
        None => { return Err(VirtualMachineError::VariableNotInScope("res".to_owned())) },
    };
    let n = match group_order(constants) {
        Ok(v) => v,
        Err(e) => { return Err(e) },
    };
    let value = match safe_div_bigint(&res.times(&b).minus(&a), &n) {
        Ok(v) => v,
        Err(e) => { return Err(e) },
    };
    exec_scopes.value = Some(value);
    Ok(())
}

/// The prime of the secp256k1 field as the constants give it:
/// `2^256 - SECP_REM`.
pub open spec fn secp_prime_spec(rem: int) -> int {
    pow2(256) - rem
}

/// The y coordinate with the parity of `v` of the point whose x coordinate
/// cubed is `x_cube`, on the curve `y^2 = x^3 + beta` over the field of
/// `secp_p` elements, where `secp_p` is a prime that leaves three when
/// divided by four: a square root is then a power.
pub open spec fn point_y_spec(x_cube: int, beta: int, secp_p: int, v: int) -> int {
    let x_cube_int = mod_floor_spec(x_cube, secp_p);
    let y_cube_int = mod_floor_spec(x_cube_int + beta, secp_p);
    let y = mod_floor_spec(pow(y_cube_int, ((secp_p + 1) / 4) as nat), secp_p);
    if v % 2 != y % 2 {
        mod_floor_spec(-y, secp_p)
    } else {
        y
    }
}

/// Implements the hint that recovers the y coordinate of a point of the
/// secp256k1 curve from the cube of its x coordinate and the parity `v`.
pub fn get_point_from_x(
    vm: &VirtualMachine,
    exec_scopes: &mut SecpScope,
    ids_v: &HintReference,
    ids_x_cube: &HintReference,
    ap_tracking: &ApTracking,
    constants: &Constants,
) -> (r: Result<(), VirtualMachineError>)
    ensures
        final(exec_scopes).a == old(exec_scopes).a,
        final(exec_scopes).b == old(exec_scopes).b,
        final(exec_scopes).res == old(exec_scopes).res,
        r is Err ==> final(exec_scopes).value == old(exec_scopes).value,
        match constant_spec(constants@, BETA@, 0) {
            None => r matches Err(VirtualMachineError::MissingConstant(missing)) && missing@
                == BETA@,
            Some(beta) => match constant_spec(constants@, SECP_REM@, 0) {
                None => r matches Err(VirtualMachineError::MissingConstant(missing)) && missing@
                    == SECP_REM@,
                Some(rem) => match pack_from_reference_spec(vm, ids_x_cube, ap_tracking) {
                    Err(e) => r == Err::<(), VirtualMachineError>(e),
                    Ok(x_cube) => match integer_spec(vm, ids_v, ap_tracking) {
                        Err(e) => r == Err::<(), VirtualMachineError>(e),
                        Ok(v) => r is Ok && (final(exec_scopes).value matches Some(y) && y@
                            == point_y_spec(x_cube, beta, secp_prime_spec(rem), v)),
                    },
                },
            },
        },
{
    let beta = match get_constant(constants, BETA) {
        Ok(v) => v,
        Err(e) => { return Err(e) },
    };
    let rem = match get_constant(constants, SECP_REM) {
        Ok(v) => v,
        Err(e) => { return Err(e) },
    };
    let secp_p = BigInt::one().shl(256).minus(&rem);
    proof {
        lemma_pow2_strictly_increases(251, 256);
        lemma_pow2_strictly_increases(192, 251);
        lemma_pow2_adds(5, 192);
        lemma_pow2_adds(5, 251);
        lemma2_to64();
        lemma_pow2_pos(192);
        lemma_pow2_pos(251);
        assert(felt_prime() < pow2(256)) by (nonlinear_arith)
            requires
                felt_prime() == pow2(251) + 17 * pow2(192) + 1,
                pow2(256) == 32 * pow2(251),
                pow2(251) > pow2(192),
                pow2(197) == 32 * pow2(192),
                pow2(192) > 0,
        ;
    }
    let packed = match pack_from_reference(vm, ids_x_cube, ap_tracking) {
        Ok(v) => v,
        Err(e) => { return Err(e) },
    };
    let x_cube_int = packed.mod_floor(&secp_p);
    let y_cube_int = x_cube_int.plus(&beta).mod_floor(&secp_p);
    // Divide by 4
    let exponent = secp_p.plus(&BigInt::one()).shr(2);
    let mut y = y_cube_int.modpow(&exponent, &secp_p);
    let v = match get_integer_from_reference(vm, ids_v, ap_tracking) {
        Ok(f) => f.to_bigint(),
        Err(e) => { return Err(e) },
    };
    if v.is_odd() != y.is_odd() {
        y = BigInt::zero().minus(&y).mod_floor(&secp_p);
    }
    exec_scopes.value = Some(y);
    Ok(())
}

/// The field element that a reference stands for.
pub open spec fn integer_spec(
    vm: &VirtualMachine,
    hint_reference: &HintReference,
    ap_tracking: &ApTracking,
) -> Result<int, VirtualMachineError> {
    match hint_reference.offset1 {
        crate::hint_processor_definition::OffsetValue::Immediate(v) => Ok(v@),
        _ => match compute_addr_spec(hint_reference, vm, ap_tracking) {
            Err(e) => Err(e),
            Ok(addr) => match vm.memory@.get(addr) {
                Some(CellValue::Int(v)) => Ok(v),
                _ => Err(VirtualMachineError::ExpectedInteger(addr)),
            },
        },
    }
}

} // verus!
