//! The instances of the add-mod and mul-mod builtins, and the evaluation of
//! a circuit from its two builtin addresses.

use crate::circuit::gates::{
    compute_gates, compute_gates_spec, lemma_eval_gates_extends, CircuitView,
};
use crate::circuit::values::{
    circuit_value_spec, fault_reported, offset_address, offset_by, Fault, LIMBS_COUNT,
    MOD_BUILTIN_INSTANCE_SIZE, OFFSETS_PER_GATE,
};
use crate::errors::{HintError, MathError, MemoryError};
use crate::felt::Felt;
use crate::memory::{extends, lemma_write_extends, MemoryView};
use crate::relocatable::{CellValue, MaybeRelocatable, Relocatable};
use crate::vm_core::VirtualMachine;
use vstd::prelude::*;

verus! {

/// The values of the limbs of a modulus.
pub open spec fn limb_values(modulus: Seq<Felt>) -> Seq<int> {
    Seq::new(modulus.len(), |i: int| modulus[i]@)
}

/// The cell that the `k`-th write of filling the instances at `built_ptr`
/// goes to: cell `k % 7` of instance `k / 7`.
pub open spec fn fill_target(built_ptr: Relocatable, k: nat) -> Result<Relocatable, Fault> {
    match offset_by(built_ptr, 7 * (k as int / 7)) {
        Err(f) => Err(f),
        Ok(instance_ptr) => offset_by(instance_ptr, (k % 7) as int),
    }
}

/// What the `k`-th write of filling `n_instances` instances writes: the
/// four limbs of the modulus, the values pointer, the pointer to the
/// instance's offsets, and the number of instances from this one on.
pub open spec fn fill_value(
    n_instances: nat,
    modulus: Seq<int>,
    values_ptr: Relocatable,
    offsets_ptr: Relocatable,
    k: nat,
) -> Result<CellValue, Fault> {
    let i = k / 7;
    let idx = k % 7;
    if idx < 4 {
        Ok(CellValue::Int(modulus[idx as int]))
    } else if idx == 4 {
        Ok(CellValue::Address(values_ptr))
    } else if idx == 5 {
        match offset_by(offsets_ptr, 3 * (i as int)) {
            Err(f) => Err(f),
            Ok(a) => Ok(CellValue::Address(a)),
        }
    } else {
        Ok(CellValue::Int(n_instances - i))
    }
}

/// The memory after the writes from the `k`-th on of filling `n_instances`
/// instances, and the fault that stopped the filling, if any.
pub open spec fn fill_instances_spec(
    m: MemoryView,
    built_ptr: Relocatable,
    n_instances: nat,
    modulus: Seq<int>,
    values_ptr: Relocatable,
    offsets_ptr: Relocatable,
    k: nat,
) -> (MemoryView, Option<Fault>)
    decreases 7 * n_instances - k,
{
    if k >= 7 * n_instances {
        (m, None)
    } else {
        match fill_target(built_ptr, k) {
            Err(f) => (m, Some(f)),
            Ok(cell) => match fill_value(n_instances, modulus, values_ptr, offsets_ptr, k) {
                Err(f) => (m, Some(f)),
                Ok(v) => if m.accepts(cell, v) {
                    fill_instances_spec(
                        m.write(cell, v),
                        built_ptr,
                        n_instances,
                        modulus,
                        values_ptr,
                        offsets_ptr,
                        k + 1,
                    )
                } else {
                    (m, Some(Fault::Refused(cell, v)))
                },
            },
        }
    }
}

/// The address `times * by` cells after `a`.
fn stride_address(a: Relocatable, by: usize, times: usize) -> (r: Result<Relocatable, HintError>)
    ensures
        match offset_by(a, by * times) {
            Ok(b) => r == Ok::<Relocatable, HintError>(b),
            Err(f) => r matches Err(e) && e == HintError::Math(
                MathError::RelocatableAddOffsetExceeded(a),
            ) && f == Fault::OffsetExceeded(a),
        },
{
    match by.checked_mul(times) {
        Some(distance) => offset_address(a, distance),
        None => Err(HintError::Math(MathError::RelocatableAddOffsetExceeded(a))),
    }
}

/// Writes the `n_instances` instances of a mod builtin from `built_ptr` on.
/// Each instance holds the modulus, the values pointer, the pointer to its
/// gate's offsets, and the number of instances from it on. Writing stops at
/// the first cell that the memory refuses.
pub fn fill_instances(
    vm: &mut VirtualMachine,
    built_ptr: Relocatable,
    n_instances: usize,
    modulus: [Felt; 4],
    values_ptr: Relocatable,
    offsets_ptr: Relocatable,
) -> (r: Result<(), HintError>)
    ensures
        final(vm).run_context == old(vm).run_context,
        final(vm).segments == old(vm).segments,
        final(vm).current_step == old(vm).current_step,
        ({
            let (m, fault) = fill_instances_spec(
                old(vm).memory@,
                built_ptr,
                n_instances as nat,
                limb_values(modulus@),
                values_ptr,
                offsets_ptr,
                0,
            );
            &&& final(vm).memory@ == m
            &&& match fault {
                None => r is Ok,
                Some(f) => r matches Err(e) && fault_reported(e, f, m),
            }
        }),
{
    let ghost limbs = limb_values(modulus@);
    let ghost goal = fill_instances_spec(
        old(vm).memory@,
        built_ptr,
        n_instances as nat,
        limbs,
        values_ptr,
        offsets_ptr,
        0,
    );
    let mut i: usize = 0;
    while i < n_instances
        invariant
            i <= n_instances,
            limbs == limb_values(modulus@),
            vm.run_context == old(vm).run_context,
            vm.segments == old(vm).segments,
            vm.current_step == old(vm).current_step,
            goal == fill_instances_spec(
                old(vm).memory@,
                built_ptr,
                n_instances as nat,
                limbs,
                values_ptr,
                offsets_ptr,
                0,
            ),
            goal == fill_instances_spec(
                vm.memory@,
                built_ptr,
                n_instances as nat,
                limbs,
                values_ptr,
                offsets_ptr,
                (7 * i) as nat,
            ),
        decreases n_instances - i,
    {
        let instance_ptr = match stride_address(built_ptr, MOD_BUILTIN_INSTANCE_SIZE, i) {
            Ok(a) => a,
            Err(e) => { return Err(e) },
        };
        let mut idx: usize = 0;
        while idx < MOD_BUILTIN_INSTANCE_SIZE
            invariant
                i < n_instances,
                idx <= 7,
                limbs == limb_values(modulus@),
                goal == fill_instances_spec(
                    old(vm).memory@,
                    built_ptr,
                    n_instances as nat,
                    limbs,
                    values_ptr,
                    offsets_ptr,
                    0,
                ),
                offset_by(built_ptr, 7 * i) == Ok::<Relocatable, Fault>(instance_ptr),
                vm.run_context == old(vm).run_context,
                vm.segments == old(vm).segments,
                vm.current_step == old(vm).current_step,
                goal == fill_instances_spec(
                    vm.memory@,
                    built_ptr,
                    n_instances as nat,
                    limbs,
                    values_ptr,
                    offsets_ptr,
                    (7 * i + idx) as nat,
                ),
            decreases 7 - idx,
        {
            let ghost k = (7 * i + idx) as nat;
            assert(k / 7 == i && k % 7 == idx);
            let cell = match offset_address(instance_ptr, idx) {
                Ok(a) => a,
                Err(e) => { return Err(e) },
            };
            let value = if idx < LIMBS_COUNT {
                MaybeRelocatable::Int(modulus[idx].clone())
            } else if idx == 4 {
                MaybeRelocatable::RelocatableValue(values_ptr)
            } else if idx == 5 {
                match stride_address(offsets_ptr, OFFSETS_PER_GATE, i) {
                    Ok(a) => MaybeRelocatable::RelocatableValue(a),
                    Err(e) => { return Err(e) },
                }
            } else {
                MaybeRelocatable::Int(Felt::from_usize(n_instances - i))
            };
            assert(Ok::<CellValue, Fault>(value@) == fill_value(
                n_instances as nat,
                limbs,
                values_ptr,
                offsets_ptr,
                k,
            ));
            if let Err(e) = vm.memory.insert(&cell, value) {
                return Err(HintError::Memory(e));
            }
            idx = idx + 1;
        }
        i = i + 1;
    }
    Ok(())
}

/// The address held in the cell `by` cells after `a`.
pub open spec fn pointer_at(m: MemoryView, a: Relocatable, by: int) -> Result<Relocatable, Fault> {
    match offset_by(a, by) {
        Err(f) => Err(f),
        Ok(cell) => match m.get(cell) {
            Some(CellValue::Address(p)) => Ok(p),
            _ => Err(Fault::ExpectedRelocatable(cell)),
        },
    }
}

/// The field element held in the cell `by` cells after `a`.
pub open spec fn integer_at(m: MemoryView, a: Relocatable, by: int) -> Result<int, Fault> {
    match offset_by(a, by) {
        Err(f) => Err(f),
        Ok(cell) => match m.get(cell) {
            Some(CellValue::Int(v)) => Ok(v),
            _ => Err(Fault::ExpectedInteger(cell)),
        },
    }
}

/// The pointers that an evaluation starts from: the values buffer, the
/// offsets of the multiplication gates and those of the addition gates.
/// Without addition gates the add-mod instance is not looked at.
pub open spec fn circuit_pointers_spec(
    m: MemoryView,
    n_add_mods: nat,
    add_mod_builtin_address: Relocatable,
    mul_mod_builtin_address: Relocatable,
) -> Result<(Relocatable, Relocatable, Relocatable), Fault> {
    match pointer_at(m, mul_mod_builtin_address, 4) {
        Err(f) => Err(f),
        Ok(values_ptr) => match pointer_at(m, mul_mod_builtin_address, 5) {
            Err(f) => Err(f),
            Ok(mul_mod_offsets) => if n_add_mods == 0 {
                Ok((values_ptr, mul_mod_offsets, mul_mod_offsets))
            } else {
                match pointer_at(m, add_mod_builtin_address, 5) {
                    Err(f) => Err(f),
                    Ok(add_mod_offsets) => Ok((values_ptr, mul_mod_offsets, add_mod_offsets)),
                }
            },
        },
    }
}

/// The four limbs of the modulus as the cells from `modulus_ptr` on hold
/// them.
pub open spec fn modulus_limbs_spec(m: MemoryView, modulus_ptr: Relocatable) -> Result<Seq<int>, Fault> {
    match integer_at(m, modulus_ptr, 0) {
        Err(f) => Err(f),
        Ok(l0) => match integer_at(m, modulus_ptr, 1) {
            Err(f) => Err(f),
            Ok(l1) => match integer_at(m, modulus_ptr, 2) {
                Err(f) => Err(f),
                Ok(l2) => match integer_at(m, modulus_ptr, 3) {
                    Err(f) => Err(f),
                    Ok(l3) => Ok(seq![l0, l1, l2, l3]),
                },
            },
        },
    }
}

/// The evaluation of a circuit and the filling of its instances: the gates
/// are evaluated, then every add-mod instance is written, then the mul-mod
/// instances of the gates that were computed.
pub open spec fn eval_circuit_spec(
    m: MemoryView,
    n_add_mods: nat,
    add_mod_builtin_address: Relocatable,
    n_mul_mods: nat,
    mul_mod_builtin_address: Relocatable,
) -> (MemoryView, Option<Fault>) {
    match circuit_pointers_spec(m, n_add_mods, add_mod_builtin_address, mul_mod_builtin_address) {
        Err(f) => (m, Some(f)),
        Ok((values_ptr, mul_mod_offsets, add_mod_offsets)) => {
            let (computed, outcome) = compute_gates_spec(
                m,
                values_ptr,
                add_mod_offsets,
                n_add_mods,
                mul_mod_offsets,
                n_mul_mods,
                mul_mod_builtin_address,
            );
            match outcome {
                Err(f) => (computed, Some(f)),
                Ok(n_computed_gates) => match modulus_limbs_spec(
                    computed,
                    mul_mod_builtin_address,
                ) {
                    Err(f) => (computed, Some(f)),
                    Ok(limbs) => {
                        let (added, fault) = fill_instances_spec(
                            computed,
                            add_mod_builtin_address,
                            n_add_mods,
                            limbs,
                            values_ptr,
                            add_mod_offsets,
                            0,
                        );
                        if fault is Some {
                            (added, fault)
                        } else {
                            fill_instances_spec(
                                added,
                                mul_mod_builtin_address,
                                n_computed_gates,
                                limbs,
                                values_ptr,
                                mul_mod_offsets,
                                0,
                            )
                        }
                    },
                },
            }
        },
    }
}

/// Reads the address held in the cell `by` cells after `a`.
fn read_pointer(vm: &VirtualMachine, a: Relocatable, by: usize) -> (r: Result<Relocatable, HintError>)
    ensures
        match pointer_at(vm.memory@, a, by as int) {
            Ok(p) => r == Ok::<Relocatable, HintError>(p),
            Err(f) => r matches Err(e) && fault_reported(e, f, vm.memory@),
        },
{
    let cell = match offset_address(a, by) {
        Ok(cell) => cell,
        Err(e) => { return Err(e) },
    };
    match vm.get_relocatable(&cell) {
        Ok(p) => Ok(p),
        Err(_) => Err(HintError::Memory(MemoryError::ExpectedRelocatable(cell))),
    }
}

/// Reads the field element held in the cell `by` cells after `a`.
fn read_integer(vm: &VirtualMachine, a: Relocatable, by: usize) -> (r: Result<Felt, HintError>)
    ensures
        match integer_at(vm.memory@, a, by as int) {
            Ok(v) => r matches Ok(felt) && felt@ == v,
            Err(f) => r matches Err(e) && fault_reported(e, f, vm.memory@),
        },
{
    let cell = match offset_address(a, by) {
        Ok(cell) => cell,
        Err(e) => { return Err(e) },
    };
    match vm.get_integer(&cell) {
        Ok(felt) => Ok(felt.clone()),
        Err(_) => Err(HintError::Memory(MemoryError::ExpectedInteger(cell))),
    }
}

/// Reads the pointers that an evaluation starts from.
fn read_circuit_pointers(
    vm: &VirtualMachine,
    n_add_mods: usize,
    add_mod_builtin_address: Relocatable,
    mul_mod_builtin_address: Relocatable,
) -> (r: Result<(Relocatable, Relocatable, Relocatable), HintError>)
    ensures
        match circuit_pointers_spec(
            vm.memory@,
            n_add_mods as nat,
            add_mod_builtin_address,
            mul_mod_builtin_address,
        ) {
            Ok(pointers) => r == Ok::<(Relocatable, Relocatable, Relocatable), HintError>(pointers),
            Err(f) => r matches Err(e) && fault_reported(e, f, vm.memory@),
        },
{
    // The offset of the values pointer inside the mul-mod instance
    let values_offset: usize = 4;
    // The offset of the offsets pointer inside the mul-mod instance
    let offsets_offset: usize = 5;
    let values_ptr = match read_pointer(vm, mul_mod_builtin_address, values_offset) {
        Ok(p) => p,
        Err(e) => { return Err(e) },
    };
    let mul_mod_offsets = match read_pointer(vm, mul_mod_builtin_address, offsets_offset) {
        Ok(p) => p,
        Err(e) => { return Err(e) },
    };
    let add_mod_offsets = if n_add_mods == 0 {
        mul_mod_offsets
    } else {
        match read_pointer(vm, add_mod_builtin_address, offsets_offset) {
            Ok(p) => p,
            Err(e) => { return Err(e) },
        }
    };
    Ok((values_ptr, mul_mod_offsets, add_mod_offsets))
}

/// Reads the four limbs of the modulus from `modulus_ptr` on.
fn read_modulus_limbs(vm: &VirtualMachine, modulus_ptr: Relocatable) -> (r: Result<
    [Felt; 4],
    HintError,
>)
    ensures
        match modulus_limbs_spec(vm.memory@, modulus_ptr) {
            Ok(limbs) => r matches Ok(modulus) && limb_values(modulus@) == limbs,
            Err(f) => r matches Err(e) && fault_reported(e, f, vm.memory@),
        },
{
    let l0 = match read_integer(vm, modulus_ptr, 0) {
        Ok(felt) => felt,
        Err(e) => { return Err(e) },
    };
    let l1 = match read_integer(vm, modulus_ptr, 1) {
        Ok(felt) => felt,
        Err(e) => { return Err(e) },
    };
    let l2 = match read_integer(vm, modulus_ptr, 2) {
        Ok(felt) => felt,
        Err(e) => { return Err(e) },
    };
    let l3 = match read_integer(vm, modulus_ptr, 3) {
        Ok(felt) => felt,
        Err(e) => { return Err(e) },
    };
    let ghost limbs = seq![l0@, l1@, l2@, l3@];
    let modulus: [Felt; 4] = [l0, l1, l2, l3];
    assert(limb_values(modulus@) =~= limbs);
    Ok(modulus)
}

/// A copy of the limbs of a modulus.
fn copy_limbs(modulus: &[Felt; 4]) -> (r: [Felt; 4])
    ensures
        limb_values(r@) == limb_values(modulus@),
{
    let r: [Felt; 4] = [
        modulus[0].clone(),
        modulus[1].clone(),
        modulus[2].clone(),
        modulus[3].clone(),
    ];
    assert(limb_values(r@) =~= limb_values(modulus@));
    r
}

/// Evaluates a circuit and fills the builtin instances and the values
/// buffer. The mul-mod instance at `mul_mod_builtin_address` holds the
/// modulus, the values pointer and the offsets pointer to start from.
pub fn eval_circuit(
    vm: &mut VirtualMachine,
    n_add_mods: usize,
    add_mod_builtin_address: Relocatable,
    n_mul_mods: usize,
    mul_mod_builtin_address: Relocatable,
) -> (r: Result<(), HintError>)
    ensures
        final(vm).run_context == old(vm).run_context,
        final(vm).segments == old(vm).segments,
        final(vm).current_step == old(vm).current_step,
        ({
            let (m, fault) = eval_circuit_spec(
                old(vm).memory@,
                n_add_mods as nat,
                add_mod_builtin_address,
                n_mul_mods as nat,
                mul_mod_builtin_address,
            );
            &&& final(vm).memory@ == m
            &&& match fault {
                None => r is Ok,
                Some(f) => r matches Err(e) && fault_reported(e, f, m),
            }
        }),
{
    let modulus_ptr = mul_mod_builtin_address;
    let (values_ptr, mul_mod_offsets, add_mod_offsets) = match read_circuit_pointers(
        vm,
        n_add_mods,
        add_mod_builtin_address,
        mul_mod_builtin_address,
    ) {
        Ok(pointers) => pointers,
        Err(e) => { return Err(e) },
    };
    let n_computed_gates = match compute_gates(
        vm,
        values_ptr,
        add_mod_offsets,
        n_add_mods,
        mul_mod_offsets,
        n_mul_mods,
        modulus_ptr,
    ) {
        Ok(n) => n,
        Err(e) => { return Err(e) },
    };
    let modulus = match read_modulus_limbs(vm, modulus_ptr) {
        Ok(modulus) => modulus,
        Err(e) => { return Err(e) },
    };
    match fill_instances(
        vm,
        add_mod_builtin_address,
        n_add_mods,
        copy_limbs(&modulus),
        values_ptr,
        add_mod_offsets,
    ) {
        Ok(()) => {},
        Err(e) => { return Err(e) },
    }
    fill_instances(
        vm,
        mul_mod_builtin_address,
        n_computed_gates,
        modulus,
        values_ptr,
        mul_mod_offsets,
    )
}

/// Filling the instances leaves every written cell as it was.
pub proof fn lemma_fill_instances_extends(
    m: MemoryView,
    built_ptr: Relocatable,
    n_instances: nat,
    modulus: Seq<int>,
    values_ptr: Relocatable,
    offsets_ptr: Relocatable,
    k: nat,
)
    ensures
        extends(
            fill_instances_spec(m, built_ptr, n_instances, modulus, values_ptr, offsets_ptr, k).0,
            m,
        ),
    decreases 7 * n_instances - k,
{
    if k < 7 * n_instances {
        if let Ok(cell) = fill_target(built_ptr, k) {
            if let Ok(v) = fill_value(n_instances, modulus, values_ptr, offsets_ptr, k) {
                if m.accepts(cell, v) {
                    lemma_write_extends(m, cell, v);
                    lemma_fill_instances_extends(
                        m.write(cell, v),
                        built_ptr,
                        n_instances,
                        modulus,
                        values_ptr,
                        offsets_ptr,
                        k + 1,
                    );
                }
            }
        }
    }
}

/// Evaluating a circuit and filling its instances is write-once.
pub proof fn lemma_eval_circuit_extends(
    m: MemoryView,
    n_add_mods: nat,
    add_mod_builtin_address: Relocatable,
    n_mul_mods: nat,
    mul_mod_builtin_address: Relocatable,
)
    ensures
        extends(
            eval_circuit_spec(
                m,
                n_add_mods,
                add_mod_builtin_address,
                n_mul_mods,
                mul_mod_builtin_address,
            ).0,
            m,
        ),
{
    if let Ok((values_ptr, mul_mod_offsets, add_mod_offsets)) = circuit_pointers_spec(
        m,
        n_add_mods,
        add_mod_builtin_address,
        mul_mod_builtin_address,
    ) {
        let (computed, outcome) = compute_gates_spec(
            m,
            values_ptr,
            add_mod_offsets,
            n_add_mods,
            mul_mod_offsets,
            n_mul_mods,
            mul_mod_builtin_address,
        );
        if let Ok(Some(modulus)) = circuit_value_spec(m, mul_mod_builtin_address) {
            lemma_eval_gates_extends(
                m,
                CircuitView {
                    values_ptr,
                    add_mod_offsets,
                    n_add_mods,
                    mul_mod_offsets,
                    n_mul_mods,
                    modulus,
                },
                0,
                0,
            );
        }
        if let Ok(n_computed_gates) = outcome {
            if let Ok(limbs) = modulus_limbs_spec(computed, mul_mod_builtin_address) {
                let (added, fault) = fill_instances_spec(
                    computed,
                    add_mod_builtin_address,
                    n_add_mods,
                    limbs,
                    values_ptr,
                    add_mod_offsets,
                    0,
                );
                lemma_fill_instances_extends(
                    computed,
                    add_mod_builtin_address,
                    n_add_mods,
                    limbs,
                    values_ptr,
                    add_mod_offsets,
                    0,
                );
                if fault is None {
                    lemma_fill_instances_extends(
                        added,
                        mul_mod_builtin_address,
                        n_computed_gates,
                        limbs,
                        values_ptr,
                        mul_mod_offsets,
                        0,
                    );
                }
            }
        }
    }
}

} // verus!
