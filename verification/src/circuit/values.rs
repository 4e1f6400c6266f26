//! Circuit values in memory: four limbs of 96 bits, the least significant
//! first, and the operands that the offsets of a gate point to.

use crate::bigint::BigInt;
use crate::errors::{HintError, MathError, MemoryError};
use crate::felt::{felt_prime, lemma_mod_floor_positive, Felt};
use crate::memory::{extends, lemma_write_extends, MemoryView};
use crate::relocatable::{CellValue, MaybeRelocatable, Relocatable};
use crate::vm_core::{memory_refusal, VirtualMachine};
use vstd::arithmetic::div_mod::{lemma_fundamental_div_mod, lemma_mod_bound, lemma_small_mod};
use vstd::arithmetic::power2::{lemma_pow2_pos, lemma_pow2_strictly_increases, pow2};
use vstd::prelude::*;

verus! {

/// A gate is defined by three offsets: two inputs and one output.
pub const OFFSETS_PER_GATE: usize = 3;

/// The number of limbs of a circuit value.
pub const LIMBS_COUNT: usize = 4;

/// The number of cells of an instance of the add-mod or mul-mod builtin.
pub const MOD_BUILTIN_INSTANCE_SIZE: usize = 7;

/// The number of bits of a limb.
pub const LIMB_BITS: u32 = 96;

/// Two to the number of bits of a limb.
pub open spec fn limb_base() -> int {
    pow2(96) as int
}

/// Why an evaluation cannot go on.
pub ghost enum Fault {
    /// Moving this address forward leaves the machine's address width.
    OffsetExceeded(Relocatable),
    /// This cell should hold a field element and does not.
    ExpectedInteger(Relocatable),
    /// This cell should hold an address and does not.
    ExpectedRelocatable(Relocatable),
    /// The memory refuses this value at this address.
    Refused(Relocatable, CellValue),
    /// The modulus at this address is not fully written.
    UnknownModulus(Relocatable),
    /// A reduction modulo zero was called for.
    DividedByZero,
    /// A subtraction gate would yield a negative number.
    Underflow,
    /// The multiplication gate with this index has no known right operand.
    GateNotReady(nat),
}

/// The error `e` says that `f` happened in a memory that was then `m`.
pub open spec fn fault_reported(e: HintError, f: Fault, m: MemoryView) -> bool {
    match f {
        Fault::OffsetExceeded(a) => e == HintError::Math(
            MathError::RelocatableAddOffsetExceeded(a),
        ),
        Fault::ExpectedInteger(a) => e == HintError::Memory(MemoryError::ExpectedInteger(a)),
        Fault::ExpectedRelocatable(a) => e == HintError::Memory(
            MemoryError::ExpectedRelocatable(a),
        ),
        Fault::Refused(a, v) => e matches HintError::Memory(refusal) && memory_refusal(
            m,
            a,
            v,
            refusal,
        ),
        Fault::UnknownModulus(a) => e == HintError::Memory(MemoryError::UnknownMemoryCell(a)),
        Fault::DividedByZero => e == HintError::Math(MathError::DividedByZero),
        Fault::Underflow => e == HintError::Math(MathError::SubtractionUnderflow),
        Fault::GateNotReady(i) => e matches HintError::MulModGateNotReady(j) && j == i,
    }
}

/// The address `by` cells after `a`, `by` not negative.
pub open spec fn offset_by(a: Relocatable, by: int) -> Result<Relocatable, Fault> {
    if a.offset + by > usize::MAX {
        Err(Fault::OffsetExceeded(a))
    } else {
        Ok(Relocatable { segment_index: a.segment_index, offset: (a.offset + by) as usize })
    }
}

/// The field element in a cell, if the cell holds one.
pub open spec fn limb_at(m: MemoryView, a: Relocatable) -> Option<int> {
    match m.get(a) {
        Some(CellValue::Int(v)) => Some(v),
        _ => None,
    }
}

/// The circuit value whose first limb is at `add`: known when all four
/// limbs are written as field elements.
pub open spec fn circuit_value_spec(m: MemoryView, add: Relocatable) -> Result<Option<int>, Fault> {
    match offset_by(add, 3) {
        Err(f) => Err(f),
        Ok(_) => {
            let l0 = limb_at(m, add);
            let l1 = limb_at(m, offset_by(add, 1)->Ok_0);
            let l2 = limb_at(m, offset_by(add, 2)->Ok_0);
            let l3 = limb_at(m, offset_by(add, 3)->Ok_0);
            if l0 is Some && l1 is Some && l2 is Some && l3 is Some {
                Ok(Some(((l3->0 * limb_base() + l2->0) * limb_base() + l1->0) * limb_base() + l0->0))
            } else {
                Ok(None)
            }
        },
    }
}

/// Where the value lies that the offset in `cell` points to.
pub open spec fn value_ptr_spec(m: MemoryView, values_ptr: Relocatable, cell: Relocatable) -> Result<
    Relocatable,
    Fault,
> {
    match m.get(cell) {
        Some(CellValue::Int(v)) => offset_by(values_ptr, v),
        _ => Err(Fault::ExpectedInteger(cell)),
    }
}

/// The operand that the `k`-th offset after `offsets_ptr` points to.
pub open spec fn operand_spec(
    m: MemoryView,
    values_ptr: Relocatable,
    offsets_ptr: Relocatable,
    k: nat,
) -> Result<Option<int>, Fault> {
    match offset_by(offsets_ptr, k as int) {
        Err(f) => Err(f),
        Ok(cell) => match value_ptr_spec(m, values_ptr, cell) {
            Err(f) => Err(f),
            Ok(at) => circuit_value_spec(m, at),
        },
    }
}

/// The memory after the limbs of `value` from the `l`-th on are written
/// from `add` on, one after the other, and the fault that stopped the
/// writing, if any.
pub open spec fn write_limbs_spec(m: MemoryView, add: Relocatable, value: int, l: nat) -> (
    MemoryView,
    Option<Fault>,
)
    decreases 4 - l,
{
    if l >= 4 {
        (m, None)
    } else {
        match offset_by(add, l as int) {
            Err(f) => (m, Some(f)),
            Ok(cell) => {
                let limb = CellValue::Int(value % limb_base());
                if m.accepts(cell, limb) {
                    write_limbs_spec(m.write(cell, limb), add, value / limb_base(), l + 1)
                } else {
                    (m, Some(Fault::Refused(cell, limb)))
                }
            },
        }
    }
}

/// The memory after `value` is stored where the `k`-th offset after
/// `offsets_ptr` points to, and the fault that stopped the storing, if any.
pub open spec fn store_spec(
    m: MemoryView,
    values_ptr: Relocatable,
    offsets_ptr: Relocatable,
    k: nat,
    value: int,
) -> (MemoryView, Option<Fault>) {
    match offset_by(offsets_ptr, k as int) {
        Err(f) => (m, Some(f)),
        Ok(cell) => match value_ptr_spec(m, values_ptr, cell) {
            Err(f) => (m, Some(f)),
            Ok(at) => write_limbs_spec(m, at, value, 0),
        },
    }
}

/// Splitting a number below two to the 384 into four limbs and putting
/// the limbs together again gives the number back.
pub proof fn lemma_limbs_compose(value: int)
    requires
        0 <= value < pow2(384),
    ensures
        ({
            let b = limb_base();
            let l0 = value % b;
            let l1 = (value / b) % b;
            let l2 = (value / b / b) % b;
            let l3 = (value / b / b / b) % b;
            ((l3 * b + l2) * b + l1) * b + l0 == value
        }),
{
    let b = limb_base();
    lemma_pow2_pos(96);
    vstd::arithmetic::power2::lemma_pow2_adds(96, 96);
    vstd::arithmetic::power2::lemma_pow2_adds(96, 192);
    vstd::arithmetic::power2::lemma_pow2_adds(96, 288);
    let v1 = value / b;
    let v2 = v1 / b;
    let v3 = v2 / b;
    lemma_fundamental_div_mod(value, b);
    lemma_fundamental_div_mod(v1, b);
    lemma_fundamental_div_mod(v2, b);
    lemma_mod_bound(value, b);
    lemma_mod_bound(v1, b);
    lemma_mod_bound(v2, b);
    assert(0 <= v1 < pow2(288)) by (nonlinear_arith)
        requires
            value == b * v1 + value % b,
            0 <= value % b < b,
            0 <= value < b * pow2(288),
            b > 0,
    ;
    assert(0 <= v2 < pow2(192)) by (nonlinear_arith)
        requires
            v1 == b * v2 + v1 % b,
            0 <= v1 % b < b,
            0 <= v1 < b * pow2(192),
            b > 0,
    ;
    assert(0 <= v3 < b) by (nonlinear_arith)
        requires
            v2 == b * v3 + v2 % b,
            0 <= v2 % b < b,
            0 <= v2 < b * b,
            b > 0,
    ;
    lemma_small_mod(v3 as nat, b as nat);
    assert(v3 * b + v2 % b == v2) by (nonlinear_arith)
        requires
            v2 == b * v3 + v2 % b,
    ;
    assert(v2 * b + v1 % b == v1) by (nonlinear_arith)
        requires
            v1 == b * v2 + v1 % b,
    ;
    assert(v1 * b + value % b == value) by (nonlinear_arith)
        requires
            value == b * v1 + value % b,
    ;
}

/// A circuit value below two to the 384 that was written is read back as
/// it was.
pub proof fn lemma_limbs_round_trip(m: MemoryView, add: Relocatable, value: int)
    requires
        0 <= value < pow2(384),
        write_limbs_spec(m, add, value, 0).1 is None,
    ensures
        circuit_value_spec(write_limbs_spec(m, add, value, 0).0, add) == Ok::<Option<int>, Fault>(
            Some(value),
        ),
{
    reveal_with_fuel(write_limbs_spec, 5);
    lemma_limbs_compose(value);
    let b = limb_base();
    let c0 = offset_by(add, 0)->Ok_0;
    let c1 = offset_by(add, 1)->Ok_0;
    let c2 = offset_by(add, 2)->Ok_0;
    let c3 = offset_by(add, 3)->Ok_0;
    assert(c0 == add);
    let m1 = m.write(c0, CellValue::Int(value % b));
    let m2 = m1.write(c1, CellValue::Int((value / b) % b));
    let m3 = m2.write(c2, CellValue::Int((value / b / b) % b));
    let m4 = m3.write(c3, CellValue::Int((value / b / b / b) % b));
    assert(write_limbs_spec(m, add, value, 0).0 == m4);
    assert(limb_at(m4, c0) == Some(value % b));
    assert(limb_at(m4, c1) == Some((value / b) % b));
    assert(limb_at(m4, c2) == Some((value / b / b) % b));
    assert(limb_at(m4, c3) == Some((value / b / b / b) % b));
}

/// A limb is a field element.
pub proof fn lemma_limb_in_field(v: int)
    requires
        0 <= v < limb_base(),
    ensures
        v % felt_prime() == v,
{
    lemma_pow2_strictly_increases(96, 251);
    lemma_pow2_pos(192);
    lemma_small_mod(v as nat, felt_prime() as nat);
}

/// The address `by` cells after `a`.
pub(crate) fn offset_address(a: Relocatable, by: usize) -> (r: Result<Relocatable, HintError>)
    ensures
        match offset_by(a, by as int) {
            Ok(b) => r == Ok::<Relocatable, HintError>(b),
            Err(f) => r matches Err(e) && e == HintError::Math(
                MathError::RelocatableAddOffsetExceeded(a),
            ) && f == Fault::OffsetExceeded(a),
        },
{
    match a.add_usize(by) {
        Some(b) => Ok(b),
        None => Err(HintError::Math(MathError::RelocatableAddOffsetExceeded(a))),
    }
}

/// Reads the circuit value whose first limb is at `add`.
pub fn read_circuit_value(vm: &VirtualMachine, add: Relocatable) -> (r: Result<
    Option<BigInt>,
    HintError,
>)
    ensures
        match circuit_value_spec(vm.memory@, add) {
            Ok(Some(v)) => r matches Ok(Some(b)) && b@ == v && v >= 0,
            Ok(None) => r matches Ok(None),
            Err(f) => r matches Err(e) && fault_reported(e, f, vm.memory@),
        },
{
    if let Err(e) = offset_address(add, 3) {
        return Err(e);
    }
    let mut res = BigInt::zero();
    let mut l: usize = LIMBS_COUNT;
    while l > 0
        invariant
            l <= 4,
            add.offset + 3 <= usize::MAX,
            res@ >= 0,
            forall|j: int| l <= j < 4 ==> limb_at(vm.memory@, #[trigger] offset_by(add, j)->Ok_0) is Some,
            res@ == if l == 4 {
                0
            } else if l == 3 {
                limb_at(vm.memory@, offset_by(add, 3)->Ok_0)->0
            } else if l == 2 {
                limb_at(vm.memory@, offset_by(add, 3)->Ok_0)->0 * limb_base() + limb_at(
                    vm.memory@,
                    offset_by(add, 2)->Ok_0,
                )->0
            } else if l == 1 {
                (limb_at(vm.memory@, offset_by(add, 3)->Ok_0)->0 * limb_base() + limb_at(
                    vm.memory@,
                    offset_by(add, 2)->Ok_0,
                )->0) * limb_base() + limb_at(vm.memory@, offset_by(add, 1)->Ok_0)->0
            } else {
                ((limb_at(vm.memory@, offset_by(add, 3)->Ok_0)->0 * limb_base() + limb_at(
                    vm.memory@,
                    offset_by(add, 2)->Ok_0,
                )->0) * limb_base() + limb_at(vm.memory@, offset_by(add, 1)->Ok_0)->0)
                    * limb_base() + limb_at(vm.memory@, offset_by(add, 0)->Ok_0)->0
            },
        decreases l,
    {
        l = l - 1;
        let add_l = Relocatable { segment_index: add.segment_index, offset: add.offset + l };
        assert(add_l == offset_by(add, l as int)->Ok_0);
        match vm.memory.get(&add_l) {
            Some(MaybeRelocatable::Int(limb)) => {
                proof {
                    lemma_pow2_pos(96);
                    assert(res@ * pow2(96) >= 0) by (nonlinear_arith)
                        requires
                            res@ >= 0,
                            pow2(96) > 0,
                    ;
                }
                res = res.shl(LIMB_BITS).plus(&limb.to_bigint());
            },
            _ => {
                return Ok(None);
            },
        }
    }
    assert(offset_by(add, 0)->Ok_0 == add);
    Ok(Some(res))
}

/// Writes `value` as four limbs from `add` on. The limbs above the fourth
/// are dropped. Writing stops at the first limb that the memory refuses.
pub fn write_circuit_value(vm: &mut VirtualMachine, add: Relocatable, value: BigInt) -> (r: Result<
    (),
    HintError,
>)
    ensures
        final(vm).run_context == old(vm).run_context,
        final(vm).segments == old(vm).segments,
        final(vm).current_step == old(vm).current_step,
        final(vm).memory@ == write_limbs_spec(old(vm).memory@, add, value@, 0).0,
        match write_limbs_spec(old(vm).memory@, add, value@, 0).1 {
            None => r is Ok,
            Some(f) => r matches Err(e) && fault_reported(e, f, final(vm).memory@),
        },
{
    let base = BigInt::one().shl(LIMB_BITS);
    let mut rest = value.clone();
    let mut l: usize = 0;
    while l < LIMBS_COUNT
        invariant
            l <= 4,
            base@ == limb_base(),
            vm.run_context == old(vm).run_context,
            vm.segments == old(vm).segments,
            vm.current_step == old(vm).current_step,
            write_limbs_spec(old(vm).memory@, add, value@, 0) == write_limbs_spec(
                vm.memory@,
                add,
                rest@,
                l as nat,
            ),
        decreases 4 - l,
    {
        proof {
            lemma_pow2_pos(96);
            lemma_mod_floor_positive(rest@, base@);
        }
        let rem = rest.mod_floor(&base);
        let new_value = rest.div_floor(&base);
        let cell = match offset_address(add, l) {
            Ok(a) => a,
            Err(e) => { return Err(e) },
        };
        proof {
            lemma_limb_in_field(rem@);
        }
        if let Err(e) = vm.memory.insert(&cell, MaybeRelocatable::Int(Felt::new(&rem))) {
            return Err(HintError::Memory(e));
        }
        rest = new_value;
        l = l + 1;
    }
    Ok(())
}

/// Writing a circuit value leaves every written cell as it was.
pub proof fn lemma_write_limbs_extends(m: MemoryView, add: Relocatable, value: int, l: nat)
    ensures
        extends(write_limbs_spec(m, add, value, l).0, m),
    decreases 4 - l,
{
    if l < 4 {
        if let Ok(cell) = offset_by(add, l as int) {
            let limb = CellValue::Int(value % limb_base());
            if m.accepts(cell, limb) {
                lemma_write_extends(m, cell, limb);
                lemma_write_limbs_extends(m.write(cell, limb), add, value / limb_base(), l + 1);
            }
        }
    }
}

/// Storing an operand leaves every written cell as it was.
pub proof fn lemma_store_extends(
    m: MemoryView,
    values_ptr: Relocatable,
    offsets_ptr: Relocatable,
    k: nat,
    value: int,
)
    ensures
        extends(store_spec(m, values_ptr, offsets_ptr, k, value).0, m),
{
    if let Ok(cell) = offset_by(offsets_ptr, k as int) {
        if let Ok(at) = value_ptr_spec(m, values_ptr, cell) {
            lemma_write_limbs_extends(m, at, value, 0);
        }
    }
}

} // verus!
