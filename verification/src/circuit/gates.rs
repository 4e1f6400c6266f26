//! The evaluation of the gates: the addition gates that are ready are
//! drained, one multiplication gate is computed, and again.

use crate::bigint::BigInt;
use crate::circuit::inverse::{find_inverse, find_inverse_defined, find_inverse_spec};
use crate::circuit::values::{
    circuit_value_spec, fault_reported, lemma_store_extends, offset_address, operand_spec,
    read_circuit_value, store_spec, value_ptr_spec, write_circuit_value, write_limbs_spec, Fault,
};
use crate::errors::{HintError, MathError, MemoryError};
use crate::felt::lemma_mod_floor_positive;
use crate::memory::{extends, MemoryView};
use crate::relocatable::Relocatable;
use crate::vm_core::VirtualMachine;
use vstd::prelude::*;

verus! {

/// The position of the `j`-th offset of gate `idx` among the offsets at
/// `offsets_ptr`.
fn gate_offset(offsets_ptr: Relocatable, idx: usize, j: usize) -> (r: Result<usize, HintError>)
    requires
        j < 3,
    ensures
        3 * idx + j <= usize::MAX ==> r == Ok::<usize, HintError>((3 * idx + j) as usize),
        3 * idx + j > usize::MAX ==> r == Err::<usize, HintError>(
            HintError::Math(MathError::RelocatableAddOffsetExceeded(offsets_ptr)),
        ),
{
    let position = match idx.checked_mul(3) {
        Some(k) => k.checked_add(j),
        None => None,
    };
    match position {
        Some(k) => Ok(k),
        None => Err(HintError::Math(MathError::RelocatableAddOffsetExceeded(offsets_ptr))),
    }
}

/// The outcome of one gate: whether it was computed, or why the
/// evaluation cannot go on.
pub type GateOutcome = Result<bool, Fault>;

/// The outcome of storing a gate's output.
pub open spec fn stored(written: (MemoryView, Option<Fault>), success: bool) -> (
    MemoryView,
    GateOutcome,
) {
    match written.1 {
        None => (written.0, Ok(success)),
        Some(f) => (written.0, Err(f)),
    }
}

/// One addition gate. With both inputs known the output is their sum; with
/// the right input and the output known the left input is their
/// difference; both modulo the modulus. Otherwise this gate is not ready and
/// nothing is written.
pub open spec fn add_gate_spec(
    m: MemoryView,
    values_ptr: Relocatable,
    offsets_ptr: Relocatable,
    modulus: int,
    idx: nat,
) -> (MemoryView, GateOutcome) {
    match operand_spec(m, values_ptr, offsets_ptr, 3 * idx) {
        Err(f) => (m, Err(f)),
        Ok(lhs) => match operand_spec(m, values_ptr, offsets_ptr, 3 * idx + 1) {
            Err(f) => (m, Err(f)),
            Ok(None) => (m, Ok(false)),
            Ok(Some(r)) => match lhs {
                Some(l) => if modulus == 0 {
                    (m, Err(Fault::DividedByZero))
                } else {
                    stored(
                        store_spec(m, values_ptr, offsets_ptr, 3 * idx + 2, (l + r) % modulus),
                        true,
                    )
                },
                None => match operand_spec(m, values_ptr, offsets_ptr, 3 * idx + 2) {
                    Err(f) => (m, Err(f)),
                    Ok(None) => (m, Ok(false)),
                    Ok(Some(res)) => if res + modulus < r {
                        (m, Err(Fault::Underflow))
                    } else if modulus == 0 {
                        (m, Err(Fault::DividedByZero))
                    } else {
                        stored(
                            store_spec(
                                m,
                                values_ptr,
                                offsets_ptr,
                                3 * idx,
                                (res + modulus - r) % modulus,
                            ),
                            true,
                        )
                    },
                },
            },
        },
    }
}

/// The addition gates from `idx` on, one after the other up to the first
/// that is not ready: the memory after them, the index of that gate, which
/// stopped the draining, and the fault, if one did.
pub open spec fn drain_adds_spec(
    m: MemoryView,
    values_ptr: Relocatable,
    offsets_ptr: Relocatable,
    modulus: int,
    n_add_mods: nat,
    idx: nat,
) -> (MemoryView, nat, Option<Fault>)
    decreases n_add_mods - idx,
{
    if idx >= n_add_mods {
        (m, idx, None)
    } else {
        let (after, outcome) = add_gate_spec(m, values_ptr, offsets_ptr, modulus, idx);
        match outcome {
            Err(f) => (after, idx, Some(f)),
            Ok(false) => (after, idx, None),
            Ok(true) => drain_adds_spec(
                after,
                values_ptr,
                offsets_ptr,
                modulus,
                n_add_mods,
                idx + 1,
            ),
        }
    }
}

/// One multiplication gate. With both inputs known the output is their
/// product modulo the modulus. With the right input alone the left input is
/// its inverse or, where it has none, the nullifier; the outcome then says
/// whether the inverse exists.
pub open spec fn mul_gate_spec(
    m: MemoryView,
    values_ptr: Relocatable,
    offsets_ptr: Relocatable,
    modulus: int,
    idx: nat,
) -> (MemoryView, GateOutcome) {
    match operand_spec(m, values_ptr, offsets_ptr, 3 * idx) {
        Err(f) => (m, Err(f)),
        Ok(lhs) => match operand_spec(m, values_ptr, offsets_ptr, 3 * idx + 1) {
            Err(f) => (m, Err(f)),
            Ok(None) => (m, Err(Fault::GateNotReady(idx))),
            Ok(Some(r)) => match lhs {
                Some(l) => if modulus == 0 {
                    (m, Err(Fault::DividedByZero))
                } else {
                    stored(
                        store_spec(m, values_ptr, offsets_ptr, 3 * idx + 2, (l * r) % modulus),
                        true,
                    )
                },
                None => if !find_inverse_defined(r, modulus) {
                    (m, Err(Fault::DividedByZero))
                } else {
                    let (success, value) = find_inverse_spec(r, modulus);
                    stored(store_spec(m, values_ptr, offsets_ptr, 3 * idx, value), success)
                },
            },
        },
    }
}

/// A circuit as the evaluation sees it.
pub ghost struct CircuitView {
    pub values_ptr: Relocatable,
    pub add_mod_offsets: Relocatable,
    pub n_add_mods: nat,
    pub mul_mod_offsets: Relocatable,
    pub n_mul_mods: nat,
    pub modulus: int,
}

/// The evaluation from the addition gate `add_idx` and the multiplication
/// gate `mul_idx` on: drain the addition gates that are ready, compute one
/// multiplication gate, and again, until the multiplication gates are
/// through or one of them has no inverse to give. The result is the memory
/// after the evaluation with the index of the multiplication gate that
/// failed, or their number, or the fault that stopped everything.
pub open spec fn eval_gates_spec(m: MemoryView, c: CircuitView, add_idx: nat, mul_idx: nat) -> (
    MemoryView,
    Result<nat, Fault>,
)
    decreases c.n_mul_mods - mul_idx,
{
    let (drained, next_add, fault) = drain_adds_spec(
        m,
        c.values_ptr,
        c.add_mod_offsets,
        c.modulus,
        c.n_add_mods,
        add_idx,
    );
    if fault is Some {
        (drained, Err(fault->0))
    } else if mul_idx >= c.n_mul_mods {
        (drained, Ok(c.n_mul_mods))
    } else {
        let (after, outcome) = mul_gate_spec(
            drained,
            c.values_ptr,
            c.mul_mod_offsets,
            c.modulus,
            mul_idx,
        );
        match outcome {
            Err(f) => (after, Err(f)),
            Ok(false) => (after, Ok(mul_idx)),
            Ok(true) => eval_gates_spec(after, c, next_add, mul_idx + 1),
        }
    }
}

/// The evaluation of a circuit whose modulus is the circuit value at
/// `modulus_ptr`.
pub open spec fn compute_gates_spec(
    m: MemoryView,
    values_ptr: Relocatable,
    add_mod_offsets: Relocatable,
    n_add_mods: nat,
    mul_mod_offsets: Relocatable,
    n_mul_mods: nat,
    modulus_ptr: Relocatable,
) -> (MemoryView, Result<nat, Fault>) {
    match circuit_value_spec(m, modulus_ptr) {
        Err(f) => (m, Err(f)),
        Ok(None) => (m, Err(Fault::UnknownModulus(modulus_ptr))),
        Ok(Some(modulus)) => eval_gates_spec(
            m,
            CircuitView {
                values_ptr,
                add_mod_offsets,
                n_add_mods,
                mul_mod_offsets,
                n_mul_mods,
                modulus,
            },
            0,
            0,
        ),
    }
}

/// The result `r` of a gate says what `outcome` is, in a memory that is now
/// `m`.
pub open spec fn gate_reported(r: Result<bool, HintError>, outcome: GateOutcome, m: MemoryView) -> bool {
    match outcome {
        Ok(done) => r == Ok::<bool, HintError>(done),
        Err(f) => r matches Err(e) && fault_reported(e, f, m),
    }
}

/// A circuit: where its values and its gates lie, and its modulus.
#[derive(Debug)]
pub struct Circuit {
    pub values_ptr: Relocatable,
    pub add_mod_offsets: Relocatable,
    pub mul_mod_offsets: Relocatable,
    pub modulus: BigInt,
}

impl Circuit {
    /// Where the value lies that the offset in the cell `address` points to.
    pub fn get_value_ptr(&self, vm: &VirtualMachine, address: Relocatable) -> (r: Result<
        Relocatable,
        HintError,
    >)
        ensures
            match value_ptr_spec(vm.memory@, self.values_ptr, address) {
                Ok(a) => r == Ok::<Relocatable, HintError>(a),
                Err(f) => r matches Err(e) && fault_reported(e, f, vm.memory@),
            },
    {
        let offset = match vm.get_integer(&address) {
            Ok(felt) => felt,
            Err(_) => { return Err(HintError::Memory(MemoryError::ExpectedInteger(address))) },
        };
        offset.reduced();
        match offset.to_usize() {
            Some(n) => offset_address(self.values_ptr, n),
            None => Err(HintError::Math(MathError::RelocatableAddOffsetExceeded(self.values_ptr))),
        }
    }

    /// Reads the value that the offset in the cell `offset` points to.
    pub fn read_circuit_value(&self, vm: &VirtualMachine, offset: Relocatable) -> (r: Result<
        Option<BigInt>,
        HintError,
    >)
        ensures
            match value_ptr_spec(vm.memory@, self.values_ptr, offset) {
                Err(f) => r matches Err(e) && fault_reported(e, f, vm.memory@),
                Ok(at) => match circuit_value_spec(vm.memory@, at) {
                    Ok(Some(v)) => r matches Ok(Some(b)) && b@ == v && v >= 0,
                    Ok(None) => r matches Ok(None),
                    Err(f) => r matches Err(e) && fault_reported(e, f, vm.memory@),
                },
            },
    {
        let value_ptr = match self.get_value_ptr(vm, offset) {
            Ok(a) => a,
            Err(e) => { return Err(e) },
        };
        read_circuit_value(vm, value_ptr)
    }

    /// Stores `value` where the offset in the cell `offset` points to.
    pub fn write_circuit_value(&self, vm: &mut VirtualMachine, offset: Relocatable, value: BigInt) -> (r:
        Result<(), HintError>)
        ensures
            final(vm).run_context == old(vm).run_context,
            final(vm).segments == old(vm).segments,
            final(vm).current_step == old(vm).current_step,
            match value_ptr_spec(old(vm).memory@, self.values_ptr, offset) {
                Err(f) => final(vm).memory@ == old(vm).memory@ && (r matches Err(e)
                    && fault_reported(e, f, final(vm).memory@)),
                Ok(at) => final(vm).memory@ == write_limbs_spec(old(vm).memory@, at, value@, 0).0
                    && match write_limbs_spec(old(vm).memory@, at, value@, 0).1 {
                    None => r is Ok,
                    Some(f) => r matches Err(e) && fault_reported(e, f, final(vm).memory@),
                },
            },
    {
        let value_ptr = match self.get_value_ptr(vm, offset) {
            Ok(a) => a,
            Err(e) => { return Err(e) },
        };
        write_circuit_value(vm, value_ptr, value)
    }

    /// Reads the operand that the `offset`-th offset of the gates at
    /// `offsets_ptr` points to.
    fn read_operand(&self, vm: &VirtualMachine, offsets_ptr: Relocatable, offset: usize) -> (r: Result<
        Option<BigInt>,
        HintError,
    >)
        ensures
            match operand_spec(vm.memory@, self.values_ptr, offsets_ptr, offset as nat) {
                Ok(Some(v)) => r matches Ok(Some(b)) && b@ == v && v >= 0,
                Ok(None) => r matches Ok(None),
                Err(f) => r matches Err(e) && fault_reported(e, f, vm.memory@),
            },
    {
        let cell = match offset_address(offsets_ptr, offset) {
            Ok(a) => a,
            Err(e) => { return Err(e) },
        };
        self.read_circuit_value(vm, cell)
    }

    /// Stores `value` as the operand that the `offset`-th offset of the
    /// gates at `offsets_ptr` points to.
    fn write_operand(
        &self,
        vm: &mut VirtualMachine,
        offsets_ptr: Relocatable,
        offset: usize,
        value: BigInt,
    ) -> (r: Result<(), HintError>)
        ensures
            final(vm).run_context == old(vm).run_context,
            final(vm).segments == old(vm).segments,
            final(vm).current_step == old(vm).current_step,
            final(vm).memory@ == store_spec(
                old(vm).memory@,
                self.values_ptr,
                offsets_ptr,
                offset as nat,
                value@,
            ).0,
            match store_spec(old(vm).memory@, self.values_ptr, offsets_ptr, offset as nat, value@).1 {
                None => r is Ok,
                Some(f) => r matches Err(e) && fault_reported(e, f, final(vm).memory@),
            },
    {
        let cell = match offset_address(offsets_ptr, offset) {
            Ok(a) => a,
            Err(e) => { return Err(e) },
        };
        self.write_circuit_value(vm, cell, value)
    }

    /// Reads the operand that the `offset`-th offset of the addition gates
    /// points to.
    pub fn read_add_mod_value(&self, vm: &VirtualMachine, offset: usize) -> (r: Result<
        Option<BigInt>,
        HintError,
    >)
        ensures
            match operand_spec(vm.memory@, self.values_ptr, self.add_mod_offsets, offset as nat) {
                Ok(Some(v)) => r matches Ok(Some(b)) && b@ == v && v >= 0,
                Ok(None) => r matches Ok(None),
                Err(f) => r matches Err(e) && fault_reported(e, f, vm.memory@),
            },
    {
        self.read_operand(vm, self.add_mod_offsets, offset)
    }

    /// Reads the operand that the `offset`-th offset of the multiplication
    /// gates points to.
    pub fn read_mul_mod_value(&self, vm: &VirtualMachine, offset: usize) -> (r: Result<
        Option<BigInt>,
        HintError,
    >)
        ensures
            match operand_spec(vm.memory@, self.values_ptr, self.mul_mod_offsets, offset as nat) {
                Ok(Some(v)) => r matches Ok(Some(b)) && b@ == v && v >= 0,
                Ok(None) => r matches Ok(None),
                Err(f) => r matches Err(e) && fault_reported(e, f, vm.memory@),
            },
    {
        self.read_operand(vm, self.mul_mod_offsets, offset)
    }

    /// Stores `value` as the operand that the `offset`-th offset of the
    /// addition gates points to.
    pub fn write_add_mod_value(&self, vm: &mut VirtualMachine, offset: usize, value: BigInt) -> (r:
        Result<(), HintError>)
        ensures
            final(vm).run_context == old(vm).run_context,
            final(vm).segments == old(vm).segments,
            final(vm).current_step == old(vm).current_step,
            final(vm).memory@ == store_spec(
                old(vm).memory@,
                self.values_ptr,
                self.add_mod_offsets,
                offset as nat,
                value@,
            ).0,
            match store_spec(
                old(vm).memory@,
                self.values_ptr,
                self.add_mod_offsets,
                offset as nat,
                value@,
            ).1 {
                None => r is Ok,
                Some(f) => r matches Err(e) && fault_reported(e, f, final(vm).memory@),
            },
    {
        self.write_operand(vm, self.add_mod_offsets, offset, value)
    }

    /// Stores `value` as the operand that the `offset`-th offset of the
    /// multiplication gates points to.
    pub fn write_mul_mod_value(&self, vm: &mut VirtualMachine, offset: usize, value: BigInt) -> (r:
        Result<(), HintError>)
        ensures
            final(vm).run_context == old(vm).run_context,
            final(vm).segments == old(vm).segments,
            final(vm).current_step == old(vm).current_step,
            final(vm).memory@ == store_spec(
                old(vm).memory@,
                self.values_ptr,
                self.mul_mod_offsets,
                offset as nat,
                value@,
            ).0,
            match store_spec(
                old(vm).memory@,
                self.values_ptr,
                self.mul_mod_offsets,
                offset as nat,
                value@,
            ).1 {
                None => r is Ok,
                Some(f) => r matches Err(e) && fault_reported(e, f, final(vm).memory@),
            },
    {
        self.write_operand(vm, self.mul_mod_offsets, offset, value)
    }

    /// Computes the addition gate `idx`, if it is ready.
    fn add_gate(&self, vm: &mut VirtualMachine, idx: usize) -> (r: Result<bool, HintError>)
        requires
            self.modulus@ >= 0,
        ensures
            final(vm).run_context == old(vm).run_context,
            final(vm).segments == old(vm).segments,
            final(vm).current_step == old(vm).current_step,
            final(vm).memory@ == add_gate_spec(
                old(vm).memory@,
                self.values_ptr,
                self.add_mod_offsets,
                self.modulus@,
                idx as nat,
            ).0,
            gate_reported(
                r,
                add_gate_spec(
                    old(vm).memory@,
                    self.values_ptr,
                    self.add_mod_offsets,
                    self.modulus@,
                    idx as nat,
                ).1,
                final(vm).memory@,
            ),
    {
        let lhs_at = match gate_offset(self.add_mod_offsets, idx, 0) {
            Ok(k) => k,
            Err(e) => { return Err(e) },
        };
        let lhs = match self.read_add_mod_value(vm, lhs_at) {
            Ok(v) => v,
            Err(e) => { return Err(e) },
        };
        let rhs_at = match gate_offset(self.add_mod_offsets, idx, 1) {
            Ok(k) => k,
            Err(e) => { return Err(e) },
        };
        let rhs = match self.read_add_mod_value(vm, rhs_at) {
            Ok(v) => v,
            Err(e) => { return Err(e) },
        };
        let r = match rhs {
            Some(r) => r,
            None => { return Ok(false) },
        };
        match lhs {
            Some(l) => {
                if self.modulus.is_zero() {
                    return Err(HintError::Math(MathError::DividedByZero));
                }
                proof {
                    lemma_mod_floor_positive(l@ + r@, self.modulus@);
                }
                let res = l.plus(&r).mod_floor(&self.modulus);
                let res_at = match gate_offset(self.add_mod_offsets, idx, 2) {
                    Ok(k) => k,
                    Err(e) => { return Err(e) },
                };
                match self.write_add_mod_value(vm, res_at, res) {
                    Ok(()) => Ok(true),
                    Err(e) => Err(e),
                }
            },
            None => {
                let res_at = match gate_offset(self.add_mod_offsets, idx, 2) {
                    Ok(k) => k,
                    Err(e) => { return Err(e) },
                };
                let res = match self.read_add_mod_value(vm, res_at) {
                    Ok(Some(v)) => v,
                    Ok(None) => { return Ok(false) },
                    Err(e) => { return Err(e) },
                };
                let raised = res.plus(&self.modulus);
                if raised.lt(&r) {
                    return Err(HintError::Math(MathError::SubtractionUnderflow));
                }
                if self.modulus.is_zero() {
                    return Err(HintError::Math(MathError::DividedByZero));
                }
                proof {
                    lemma_mod_floor_positive(res@ + self.modulus@ - r@, self.modulus@);
                }
                let value = raised.minus(&r).mod_floor(&self.modulus);
                match self.write_add_mod_value(vm, lhs_at, value) {
                    Ok(()) => Ok(true),
                    Err(e) => Err(e),
                }
            },
        }
    }

    /// Computes the multiplication gate `idx`; `Ok(false)` where its right
    /// input has no inverse and the nullifier was stored.
    fn mul_gate(&self, vm: &mut VirtualMachine, idx: usize) -> (r: Result<bool, HintError>)
        requires
            self.modulus@ >= 0,
        ensures
            final(vm).run_context == old(vm).run_context,
            final(vm).segments == old(vm).segments,
            final(vm).current_step == old(vm).current_step,
            final(vm).memory@ == mul_gate_spec(
                old(vm).memory@,
                self.values_ptr,
                self.mul_mod_offsets,
                self.modulus@,
                idx as nat,
            ).0,
            gate_reported(
                r,
                mul_gate_spec(
                    old(vm).memory@,
                    self.values_ptr,
                    self.mul_mod_offsets,
                    self.modulus@,
                    idx as nat,
                ).1,
                final(vm).memory@,
            ),
    {
        let lhs_at = match gate_offset(self.mul_mod_offsets, idx, 0) {
            Ok(k) => k,
            Err(e) => { return Err(e) },
        };
        let lhs = match self.read_mul_mod_value(vm, lhs_at) {
            Ok(v) => v,
            Err(e) => { return Err(e) },
        };
        let rhs_at = match gate_offset(self.mul_mod_offsets, idx, 1) {
            Ok(k) => k,
            Err(e) => { return Err(e) },
        };
        let rhs = match self.read_mul_mod_value(vm, rhs_at) {
            Ok(v) => v,
            Err(e) => { return Err(e) },
        };
        let r = match rhs {
            Some(r) => r,
            None => { return Err(HintError::MulModGateNotReady(idx)) },
        };
        match lhs {
            Some(l) => {
                if self.modulus.is_zero() {
                    return Err(HintError::Math(MathError::DividedByZero));
                }
                proof {
                    lemma_mod_floor_positive(l@ * r@, self.modulus@);
                }
                let res = l.times(&r).mod_floor(&self.modulus);
                let res_at = match gate_offset(self.mul_mod_offsets, idx, 2) {
                    Ok(k) => k,
                    Err(e) => { return Err(e) },
                };
                match self.write_mul_mod_value(vm, res_at, res) {
                    Ok(()) => Ok(true),
                    Err(e) => Err(e),
                }
            },
            None => {
                if self.modulus.is_zero() && r.lt(&BigInt::from_u8(2)) {
                    return Err(HintError::Math(MathError::DividedByZero));
                }
                let (success, res) = find_inverse(r, &self.modulus);
                match self.write_mul_mod_value(vm, lhs_at, res) {
                    Ok(()) => Ok(success),
                    Err(e) => Err(e),
                }
            },
        }
    }

    /// Computes the addition gates from `idx` on, up to the first that is
    /// not ready, and returns its index.
    fn drain_add_gates(&self, vm: &mut VirtualMachine, n_add_mods: usize, idx: usize) -> (r: Result<
        usize,
        HintError,
    >)
        requires
            self.modulus@ >= 0,
            idx <= n_add_mods,
        ensures
            final(vm).run_context == old(vm).run_context,
            final(vm).segments == old(vm).segments,
            final(vm).current_step == old(vm).current_step,
            ({
                let (m, next, fault) = drain_adds_spec(
                    old(vm).memory@,
                    self.values_ptr,
                    self.add_mod_offsets,
                    self.modulus@,
                    n_add_mods as nat,
                    idx as nat,
                );
                &&& final(vm).memory@ == m
                &&& next <= n_add_mods
                &&& match fault {
                    None => r == Ok::<usize, HintError>(next as usize),
                    Some(f) => r matches Err(e) && fault_reported(e, f, m),
                }
            }),
    {
        let mut addmod_idx = idx;
        while addmod_idx < n_add_mods
            invariant
                self.modulus@ >= 0,
                addmod_idx <= n_add_mods,
                vm.run_context == old(vm).run_context,
                vm.segments == old(vm).segments,
                vm.current_step == old(vm).current_step,
                drain_adds_spec(
                    old(vm).memory@,
                    self.values_ptr,
                    self.add_mod_offsets,
                    self.modulus@,
                    n_add_mods as nat,
                    idx as nat,
                ) == drain_adds_spec(
                    vm.memory@,
                    self.values_ptr,
                    self.add_mod_offsets,
                    self.modulus@,
                    n_add_mods as nat,
                    addmod_idx as nat,
                ),
            decreases n_add_mods - addmod_idx,
        {
            match self.add_gate(vm, addmod_idx) {
                Err(e) => { return Err(e) },
                Ok(false) => { return Ok(addmod_idx) },
                Ok(true) => {},
            }
            addmod_idx = addmod_idx + 1;
        }
        Ok(addmod_idx)
    }
}

/// Evaluates the gates of a circuit: fills every value that the gates
/// determine from the values already known, and returns the index of the
/// first multiplication gate whose input has no inverse, or the number of
/// multiplication gates where each succeeded.
pub fn compute_gates(
    vm: &mut VirtualMachine,
    values_ptr: Relocatable,
    add_mod_offsets: Relocatable,
    n_add_mods: usize,
    mul_mod_offsets: Relocatable,
    n_mul_mods: usize,
    modulus_ptr: Relocatable,
) -> (r: Result<usize, HintError>)
    ensures
        final(vm).run_context == old(vm).run_context,
        final(vm).segments == old(vm).segments,
        final(vm).current_step == old(vm).current_step,
        ({
            let (m, outcome) = compute_gates_spec(
                old(vm).memory@,
                values_ptr,
                add_mod_offsets,
                n_add_mods as nat,
                mul_mod_offsets,
                n_mul_mods as nat,
                modulus_ptr,
            );
            &&& final(vm).memory@ == m
            &&& match outcome {
                Ok(first_failure) => first_failure <= n_mul_mods && r == Ok::<usize, HintError>(
                    first_failure as usize,
                ),
                Err(f) => r matches Err(e) && fault_reported(e, f, m),
            }
        }),
{
    let modulus = match read_circuit_value(vm, modulus_ptr) {
        Ok(Some(modulus)) => modulus,
        Ok(None) => { return Err(HintError::Memory(MemoryError::UnknownMemoryCell(modulus_ptr))) },
        Err(e) => { return Err(e) },
    };
    let circuit = Circuit { values_ptr, add_mod_offsets, mul_mod_offsets, modulus };
    let ghost c = CircuitView {
        values_ptr,
        add_mod_offsets,
        n_add_mods: n_add_mods as nat,
        mul_mod_offsets,
        n_mul_mods: n_mul_mods as nat,
        modulus: circuit.modulus@,
    };
    let mut addmod_idx: usize = 0;
    let mut mulmod_idx: usize = 0;
    loop
        invariant
            circuit.modulus@ >= 0,
            circuit.values_ptr == values_ptr,
            circuit.add_mod_offsets == add_mod_offsets,
            circuit.mul_mod_offsets == mul_mod_offsets,
            c == (CircuitView {
                values_ptr,
                add_mod_offsets,
                n_add_mods: n_add_mods as nat,
                mul_mod_offsets,
                n_mul_mods: n_mul_mods as nat,
                modulus: circuit.modulus@,
            }),
            addmod_idx <= n_add_mods,
            mulmod_idx <= n_mul_mods,
            vm.run_context == old(vm).run_context,
            vm.segments == old(vm).segments,
            vm.current_step == old(vm).current_step,
            compute_gates_spec(
                old(vm).memory@,
                values_ptr,
                add_mod_offsets,
                n_add_mods as nat,
                mul_mod_offsets,
                n_mul_mods as nat,
                modulus_ptr,
            ) == eval_gates_spec(vm.memory@, c, addmod_idx as nat, mulmod_idx as nat),
        decreases n_mul_mods - mulmod_idx,
    {
        addmod_idx = match circuit.drain_add_gates(vm, n_add_mods, addmod_idx) {
            Ok(next) => next,
            Err(e) => { return Err(e) },
        };
        if mulmod_idx == n_mul_mods {
            return Ok(n_mul_mods);
        }
        match circuit.mul_gate(vm, mulmod_idx) {
            Err(e) => { return Err(e) },
            Ok(false) => { return Ok(mulmod_idx) },
            Ok(true) => {},
        }
        mulmod_idx = mulmod_idx + 1;
    }
}

/// An addition gate leaves every written cell as it was.
pub proof fn lemma_add_gate_extends(
    m: MemoryView,
    values_ptr: Relocatable,
    offsets_ptr: Relocatable,
    modulus: int,
    idx: nat,
)
    ensures
        extends(add_gate_spec(m, values_ptr, offsets_ptr, modulus, idx).0, m),
{
    let lhs = operand_spec(m, values_ptr, offsets_ptr, 3 * idx);
    let rhs = operand_spec(m, values_ptr, offsets_ptr, 3 * idx + 1);
    let res = operand_spec(m, values_ptr, offsets_ptr, 3 * idx + 2);
    if lhs is Ok && rhs is Ok && rhs->Ok_0 is Some {
        let r = rhs->Ok_0->0;
        match lhs->Ok_0 {
            Some(l) => {
                lemma_store_extends(m, values_ptr, offsets_ptr, 3 * idx + 2, (l + r) % modulus);
            },
            None => {
                if res is Ok && res->Ok_0 is Some {
                    lemma_store_extends(
                        m,
                        values_ptr,
                        offsets_ptr,
                        3 * idx,
                        (res->Ok_0->0 + modulus - r) % modulus,
                    );
                }
            },
        }
    }
}

/// A multiplication gate leaves every written cell as it was.
pub proof fn lemma_mul_gate_extends(
    m: MemoryView,
    values_ptr: Relocatable,
    offsets_ptr: Relocatable,
    modulus: int,
    idx: nat,
)
    ensures
        extends(mul_gate_spec(m, values_ptr, offsets_ptr, modulus, idx).0, m),
{
    let lhs = operand_spec(m, values_ptr, offsets_ptr, 3 * idx);
    let rhs = operand_spec(m, values_ptr, offsets_ptr, 3 * idx + 1);
    if lhs is Ok && rhs is Ok && rhs->Ok_0 is Some {
        let r = rhs->Ok_0->0;
        match lhs->Ok_0 {
            Some(l) => {
                lemma_store_extends(m, values_ptr, offsets_ptr, 3 * idx + 2, (l * r) % modulus);
            },
            None => {
                lemma_store_extends(
                    m,
                    values_ptr,
                    offsets_ptr,
                    3 * idx,
                    find_inverse_spec(r, modulus).1,
                );
            },
        }
    }
}

/// Draining the addition gates leaves every written cell as it was.
pub proof fn lemma_drain_adds_extends(
    m: MemoryView,
    values_ptr: Relocatable,
    offsets_ptr: Relocatable,
    modulus: int,
    n_add_mods: nat,
    idx: nat,
)
    ensures
        extends(drain_adds_spec(m, values_ptr, offsets_ptr, modulus, n_add_mods, idx).0, m),
    decreases n_add_mods - idx,
{
    if idx < n_add_mods {
        let (after, outcome) = add_gate_spec(m, values_ptr, offsets_ptr, modulus, idx);
        lemma_add_gate_extends(m, values_ptr, offsets_ptr, modulus, idx);
        if outcome == Ok::<bool, Fault>(true) {
            lemma_drain_adds_extends(after, values_ptr, offsets_ptr, modulus, n_add_mods, idx + 1);
        }
    }
}

/// The evaluation of a circuit is write-once: whether it ends well or in a
/// fault, every cell that was written before it holds what it held.
pub proof fn lemma_eval_gates_extends(m: MemoryView, c: CircuitView, add_idx: nat, mul_idx: nat)
    ensures
        extends(eval_gates_spec(m, c, add_idx, mul_idx).0, m),
    decreases c.n_mul_mods - mul_idx,
{
    let (drained, next_add, fault) = drain_adds_spec(
        m,
        c.values_ptr,
        c.add_mod_offsets,
        c.modulus,
        c.n_add_mods,
        add_idx,
    );
    lemma_drain_adds_extends(m, c.values_ptr, c.add_mod_offsets, c.modulus, c.n_add_mods, add_idx);
    if fault is None && mul_idx < c.n_mul_mods {
        let (after, outcome) = mul_gate_spec(
            drained,
            c.values_ptr,
            c.mul_mod_offsets,
            c.modulus,
            mul_idx,
        );
        lemma_mul_gate_extends(drained, c.values_ptr, c.mul_mod_offsets, c.modulus, mul_idx);
        if outcome == Ok::<bool, Fault>(true) {
            lemma_eval_gates_extends(after, c, next_add, mul_idx + 1);
        }
    }
}

} // verus!
