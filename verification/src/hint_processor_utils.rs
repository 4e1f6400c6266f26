//! Resolution of hint references to addresses and values.
//!
//! Resolution reads the machine and never writes it; only
//! [`insert_value_from_reference`] takes the machine mutably, and it writes
//! the one resolved cell.

use crate::errors::VirtualMachineError;
use crate::felt::Felt;
use crate::hint_processor_definition::{ApTracking, HintReference, OffsetValue, Register};
use crate::relocatable::{CellValue, MaybeRelocatable, Relocatable};
use crate::vm_core::{memory_refusal, VirtualMachine};
use vstd::prelude::*;

verus! {

/// The allocation pointer as it stood where the reference was defined: `ap`
/// lowered by how far the hint's tracking has moved past the reference's.
pub open spec fn tracking_correction_spec(
    ap: Relocatable,
    ref_ap_tracking: ApTracking,
    hint_ap_tracking: ApTracking,
) -> Result<Relocatable, VirtualMachineError> {
    if ref_ap_tracking.group != hint_ap_tracking.group {
        Err(
            VirtualMachineError::InvalidTrackingGroup(
                ref_ap_tracking.group,
                hint_ap_tracking.group,
            ),
        )
    } else if hint_ap_tracking.offset < ref_ap_tracking.offset || ap.offset
        < hint_ap_tracking.offset - ref_ap_tracking.offset {
        Err(VirtualMachineError::FailedToGetIds)
    } else {
        Ok(
            Relocatable {
                segment_index: ap.segment_index,
                offset: (ap.offset - (hint_ap_tracking.offset - ref_ap_tracking.offset)) as usize,
            },
        )
    }
}

/// The register that a register-relative offset starts from.
pub open spec fn base_address_spec(
    vm: &VirtualMachine,
    hint_reference: &HintReference,
    hint_ap_tracking: &ApTracking,
    register: Register,
) -> Result<Relocatable, VirtualMachineError> {
    if register == Register::FP {
        Ok(vm.fp())
    } else {
        match hint_reference.ap_tracking_data {
            None => Err(VirtualMachineError::NoneApTrackingData),
            Some(tracking) => tracking_correction_spec(vm.ap(), tracking, *hint_ap_tracking),
        }
    }
}

/// The cell that a register-relative offset names.
pub open spec fn offset_address_spec(
    vm: &VirtualMachine,
    hint_reference: &HintReference,
    hint_ap_tracking: &ApTracking,
    offset_value: OffsetValue,
) -> Result<Relocatable, VirtualMachineError> {
    match offset_value {
        OffsetValue::Reference(register, offset, _) => match base_address_spec(
            vm,
            hint_reference,
            hint_ap_tracking,
            register,
        ) {
            Err(e) => Err(e),
            Ok(base) => if base.offset + offset < 0 {
                Err(VirtualMachineError::FailedToGetIds)
            } else if base.offset + offset > usize::MAX {
                Err(VirtualMachineError::OffsetExceeded(base.offset, offset as usize))
            } else {
                Ok(
                    Relocatable {
                        segment_index: base.segment_index,
                        offset: (base.offset + offset) as usize,
                    },
                )
            },
        },
        _ => Err(VirtualMachineError::FailedToGetIds),
    }
}

/// What a register-relative offset stands for: the cell it names or, where
/// it dereferences, what that cell holds.
pub open spec fn offset_value_spec(
    vm: &VirtualMachine,
    hint_reference: &HintReference,
    hint_ap_tracking: &ApTracking,
    offset_value: OffsetValue,
) -> Result<CellValue, VirtualMachineError> {
    match offset_address_spec(vm, hint_reference, hint_ap_tracking, offset_value) {
        Err(e) => Err(e),
        Ok(cell) => if offset_value matches OffsetValue::Reference(_, _, true) {
            match vm.memory@.get(cell) {
                Some(v) => Ok(v),
                None => Err(VirtualMachineError::FailedToGetIds),
            }
        } else {
            Ok(CellValue::Address(cell))
        },
    }
}

/// The address `by` cells after `a`, `by` of either sign.
pub open spec fn displaced_spec(a: Relocatable, by: int) -> Result<Relocatable, VirtualMachineError> {
    if a.offset + by < 0 {
        Err(VirtualMachineError::CantSubOffset(a.offset, (-by) as usize))
    } else if a.offset + by > usize::MAX {
        Err(VirtualMachineError::OffsetExceeded(a.offset, by as usize))
    } else {
        Ok(Relocatable { segment_index: a.segment_index, offset: (a.offset + by) as usize })
    }
}

/// The address of the variable that a reference describes.
pub open spec fn compute_addr_spec(
    hint_reference: &HintReference,
    vm: &VirtualMachine,
    hint_ap_tracking: &ApTracking,
) -> Result<Relocatable, VirtualMachineError> {
    if !(hint_reference.offset1 is Reference) {
        Err(VirtualMachineError::NoRegisterInReference)
    } else {
        match offset_value_spec(vm, hint_reference, hint_ap_tracking, hint_reference.offset1) {
            Err(e) => Err(e),
            Ok(CellValue::Int(_)) => Err(
                VirtualMachineError::ExpectedRelocatable(
                    offset_address_spec(
                        vm,
                        hint_reference,
                        hint_ap_tracking,
                        hint_reference.offset1,
                    )->Ok_0,
                ),
            ),
            Ok(CellValue::Address(first)) => match hint_reference.offset2 {
                OffsetValue::Reference(_, _, _) => match offset_value_spec(
                    vm,
                    hint_reference,
                    hint_ap_tracking,
                    hint_reference.offset2,
                ) {
                    Err(e) => Err(e),
                    Ok(CellValue::Address(_)) => Err(
                        VirtualMachineError::ExpectedInteger(
                            offset_address_spec(
                                vm,
                                hint_reference,
                                hint_ap_tracking,
                                hint_reference.offset2,
                            )->Ok_0,
                        ),
                    ),
                    Ok(CellValue::Int(second)) => if second > usize::MAX {
                        Err(VirtualMachineError::BigintToUsizeFail)
                    } else {
                        displaced_spec(first, second)
                    },
                },
                OffsetValue::Value(second) => displaced_spec(first, second as int),
                OffsetValue::Immediate(_) => Err(VirtualMachineError::NoRegisterInReference),
            },
        }
    }
}

/// A reference relative to the allocation pointer whose tracking group is
/// not the hint's fails with `InvalidTrackingGroup`, whatever the memory
/// holds.
pub proof fn lemma_tracking_group_checked_first(
    hint_reference: &HintReference,
    vm: &VirtualMachine,
    hint_ap_tracking: &ApTracking,
)
    requires
        hint_reference.offset1 matches OffsetValue::Reference(Register::AP, _, _),
        hint_reference.ap_tracking_data matches Some(t) && t.group != hint_ap_tracking.group,
    ensures
        compute_addr_spec(hint_reference, vm, hint_ap_tracking) == Err::<
            Relocatable,
            VirtualMachineError,
        >(
            VirtualMachineError::InvalidTrackingGroup(
                hint_reference.ap_tracking_data->0.group,
                hint_ap_tracking.group,
            ),
        ),
{
}

/// The address of a variable depends on the registers and on the cells that
/// the reference dereferences, and on nothing else of the memory: two
/// machines that agree on these resolve alike.
pub proof fn lemma_resolution_reads_two_cells(
    hint_reference: &HintReference,
    vm: &VirtualMachine,
    other: &VirtualMachine,
    hint_ap_tracking: &ApTracking,
)
    requires
        vm.run_context.ap == other.run_context.ap,
        vm.run_context.fp == other.run_context.fp,
        forall|cell: Relocatable|
            offset_address_spec(vm, hint_reference, hint_ap_tracking, hint_reference.offset1)
                == Ok::<Relocatable, VirtualMachineError>(cell) || offset_address_spec(
                vm,
                hint_reference,
                hint_ap_tracking,
                hint_reference.offset2,
            ) == Ok::<Relocatable, VirtualMachineError>(cell) ==> vm.memory@.get(cell)
                == other.memory@.get(cell),
    ensures
        compute_addr_spec(hint_reference, vm, hint_ap_tracking) == compute_addr_spec(
            hint_reference,
            other,
            hint_ap_tracking,
        ),
{
    let first = offset_address_spec(vm, hint_reference, hint_ap_tracking, hint_reference.offset1);
    let second = offset_address_spec(vm, hint_reference, hint_ap_tracking, hint_reference.offset2);
    assert(first == offset_address_spec(
        other,
        hint_reference,
        hint_ap_tracking,
        hint_reference.offset1,
    ));
    assert(second == offset_address_spec(
        other,
        hint_reference,
        hint_ap_tracking,
        hint_reference.offset2,
    ));
    if first is Ok {
        assert(vm.memory@.get(first->Ok_0) == other.memory@.get(first->Ok_0));
    }
    if second is Ok {
        assert(vm.memory@.get(second->Ok_0) == other.memory@.get(second->Ok_0));
    }
}

/// The allocation pointer as it stood where a reference was defined.
/// References and hints tracked in different groups cannot be related, and
/// this is found before anything else is looked at.
pub fn apply_ap_tracking_correction(
    ap: &Relocatable,
    ref_ap_tracking: &ApTracking,
    hint_ap_tracking: &ApTracking,
) -> (r: Result<Relocatable, VirtualMachineError>)
    ensures
        r == tracking_correction_spec(*ap, *ref_ap_tracking, *hint_ap_tracking),
        ref_ap_tracking.group != hint_ap_tracking.group ==> r == Err::<
            Relocatable,
            VirtualMachineError,
        >(
            VirtualMachineError::InvalidTrackingGroup(
                ref_ap_tracking.group,
                hint_ap_tracking.group,
            ),
        ),
{
    if ref_ap_tracking.group != hint_ap_tracking.group {
        return Err(
            VirtualMachineError::InvalidTrackingGroup(
                ref_ap_tracking.group,
                hint_ap_tracking.group,
            ),
        );
    }
    if hint_ap_tracking.offset < ref_ap_tracking.offset {
        return Err(VirtualMachineError::FailedToGetIds);
    }
    let ap_diff = hint_ap_tracking.offset - ref_ap_tracking.offset;
    match ap.sub_usize(ap_diff) {
        Some(a) => Ok(a),
        None => Err(VirtualMachineError::FailedToGetIds),
    }
}

/// The cell that a register-relative offset names.
fn get_offset_address(
    vm: &VirtualMachine,
    hint_reference: &HintReference,
    hint_ap_tracking: &ApTracking,
    offset_value: &OffsetValue,
) -> (r: Result<Relocatable, VirtualMachineError>)
    ensures
        r == offset_address_spec(vm, hint_reference, hint_ap_tracking, *offset_value),
{
    let (register, offset) = match offset_value {
        OffsetValue::Reference(register, offset, _) => (*register, *offset),
        _ => { return Err(VirtualMachineError::FailedToGetIds) },
    };
    let base_addr = if register == Register::FP {
        vm.get_fp()
    } else {
        let var_ap_tracking = match &hint_reference.ap_tracking_data {
            Some(t) => t,
            None => { return Err(VirtualMachineError::NoneApTrackingData) },
        };
        match apply_ap_tracking_correction(&vm.get_ap(), var_ap_tracking, hint_ap_tracking) {
            Ok(a) => a,
            Err(e) => { return Err(e) },
        }
    };
    if offset < 0 && (base_addr.offset as u128) < (-(offset as i64)) as u128 {
        return Err(VirtualMachineError::FailedToGetIds);
    }
    match base_addr.add_i32(offset) {
        Some(a) => Ok(a),
        None => Err(VirtualMachineError::OffsetExceeded(base_addr.offset, offset as usize)),
    }
}

/// What a register-relative offset stands for: the cell it names or, where
/// it dereferences, a copy of what that cell holds.
pub fn get_offset_value_reference(
    vm: &VirtualMachine,
    hint_reference: &HintReference,
    hint_ap_tracking: &ApTracking,
    offset_value: &OffsetValue,
) -> (r: Result<MaybeRelocatable, VirtualMachineError>)
    ensures
        match r {
            Ok(v) => offset_value_spec(vm, hint_reference, hint_ap_tracking, *offset_value) == Ok::<
                CellValue,
                VirtualMachineError,
            >(v@),
            Err(e) => offset_value_spec(vm, hint_reference, hint_ap_tracking, *offset_value) == Err::<
                CellValue,
                VirtualMachineError,
            >(e),
        },
{
    let cell = match get_offset_address(vm, hint_reference, hint_ap_tracking, offset_value) {
        Ok(a) => a,
        Err(e) => { return Err(e) },
    };
    let deref = match offset_value {
        OffsetValue::Reference(_, _, deref) => *deref,
        _ => false,
    };
    if deref {
        match vm.get_maybe(&cell) {
            Some(v) => Ok(v),
            None => Err(VirtualMachineError::FailedToGetIds),
        }
    } else {
        Ok(MaybeRelocatable::RelocatableValue(cell))
    }
}

/// The address `by` cells after `a`.
fn displace(a: Relocatable, by: i64) -> (r: Result<Relocatable, VirtualMachineError>)
    requires
        -0x8000_0000 <= by,
    ensures
        r == displaced_spec(a, by as int),
{
    if by >= 0 {
        if by as u64 > usize::MAX as u64 {
            return Err(VirtualMachineError::OffsetExceeded(a.offset, by as usize));
        }
        match a.add_usize(by as usize) {
            Some(a) => Ok(a),
            None => Err(VirtualMachineError::OffsetExceeded(a.offset, by as usize)),
        }
    } else {
        match a.sub_usize((-by) as usize) {
            Some(a) => Ok(a),
            None => Err(VirtualMachineError::CantSubOffset(a.offset, (-by) as usize)),
        }
    }
}

/// The address of the variable that a reference describes. The first
/// offset must be relative to a register; the second is a constant or a
/// second register-relative offset that yields a number of cells.
pub fn compute_addr_from_reference(
    hint_reference: &HintReference,
    vm: &VirtualMachine,
    hint_ap_tracking: &ApTracking,
) -> (r: Result<Relocatable, VirtualMachineError>)
    ensures
        r == compute_addr_spec(hint_reference, vm, hint_ap_tracking),
        !(hint_reference.offset1 is Reference) ==> r == Err::<Relocatable, VirtualMachineError>(
            VirtualMachineError::NoRegisterInReference,
        ),
{
    let offset1 = match &hint_reference.offset1 {
        OffsetValue::Reference(_, _, _) => {
            match get_offset_value_reference(
                vm,
                hint_reference,
                hint_ap_tracking,
                &hint_reference.offset1,
            ) {
                Err(e) => { return Err(e) },
                Ok(v) => match v.get_relocatable() {
                    Some(a) => a,
                    None => {
                        let cell = get_offset_address(
                            vm,
                            hint_reference,
                            hint_ap_tracking,
                            &hint_reference.offset1,
                        );
                        match cell {
                            Ok(c) => { return Err(VirtualMachineError::ExpectedRelocatable(c)) },
                            Err(e) => { return Err(e) },
                        }
                    },
                },
            }
        },
        _ => { return Err(VirtualMachineError::NoRegisterInReference) },
    };
    match &hint_reference.offset2 {
        OffsetValue::Reference(_, _, _) => {
            let value = match get_offset_value_reference(
                vm,
                hint_reference,
                hint_ap_tracking,
                &hint_reference.offset2,
            ) {
                Err(e) => { return Err(e) },
                Ok(v) => v,
            };
            match value.get_int_ref() {
                None => {
                    let cell = get_offset_address(
                        vm,
                        hint_reference,
                        hint_ap_tracking,
                        &hint_reference.offset2,
                    );
                    match cell {
                        Ok(c) => Err(VirtualMachineError::ExpectedInteger(c)),
                        Err(e) => Err(e),
                    }
                },
                Some(felt) => match felt.to_usize() {
                    None => Err(VirtualMachineError::BigintToUsizeFail),
                    Some(n) => match offset1.add_usize(n) {
                        Some(a) => Ok(a),
                        None => Err(VirtualMachineError::OffsetExceeded(offset1.offset, n)),
                    },
                },
            }
        },
        OffsetValue::Value(value) => displace(offset1, *value as i64),
        OffsetValue::Immediate(_) => Err(VirtualMachineError::NoRegisterInReference),
    }
}

/// Writes `value` into the cell of the variable that a reference describes.
pub fn insert_value_from_reference(
    value: MaybeRelocatable,
    vm: &mut VirtualMachine,
    hint_reference: &HintReference,
    ap_tracking: &ApTracking,
) -> (r: Result<(), VirtualMachineError>)
    ensures
        final(vm).run_context == old(vm).run_context,
        final(vm).segments == old(vm).segments,
        final(vm).current_step == old(vm).current_step,
        match compute_addr_spec(hint_reference, old(vm), ap_tracking) {
            Err(e) => r == Err::<(), VirtualMachineError>(e) && final(vm).memory@ == old(
                vm,
            ).memory@,
            Ok(addr) => if old(vm).memory@.accepts(addr, value@) {
                r is Ok && final(vm).memory@ == old(vm).memory@.write(addr, value@)
            } else {
                final(vm).memory@ == old(vm).memory@ && (r matches Err(
                    VirtualMachineError::MemoryError(e),
                ) && memory_refusal(old(vm).memory@, addr, value@, e))
            },
        },
{
    let var_addr = match compute_addr_from_reference(hint_reference, vm, ap_tracking) {
        Ok(a) => a,
        Err(e) => { return Err(e) },
    };
    vm.insert_value(&var_addr, value)
}

/// The field element that a reference stands for: its immediate value where
/// it has one, read without looking at the machine, and else the content of
/// the variable's cell.
pub fn get_integer_from_reference(
    vm: &VirtualMachine,
    hint_reference: &HintReference,
    ap_tracking: &ApTracking,
) -> (r: Result<Felt, VirtualMachineError>)
    ensures
        match hint_reference.offset1 {
            OffsetValue::Immediate(v) => r is Ok && r->Ok_0@ == v@,
            _ => match compute_addr_spec(hint_reference, vm, ap_tracking) {
                Err(e) => r == Err::<Felt, VirtualMachineError>(e),
                Ok(addr) => match vm.memory@.get(addr) {
                    Some(CellValue::Int(v)) => r is Ok && r->Ok_0@ == v,
                    _ => r == Err::<Felt, VirtualMachineError>(
                        VirtualMachineError::ExpectedInteger(addr),
                    ),
                },
            },
        },
{
    if let OffsetValue::Immediate(int_1) = &hint_reference.offset1 {
        return Ok(int_1.clone());
    }
    let var_addr = match compute_addr_from_reference(hint_reference, vm, ap_tracking) {
        Ok(a) => a,
        Err(e) => { return Err(e) },
    };
    match vm.get_integer(&var_addr) {
        Ok(f) => Ok(f.clone()),
        Err(e) => Err(e),
    }
}

/// The address that a reference stands for: the variable's own address or,
/// where the reference dereferences, the address held in the variable's
/// cell.
pub fn get_ptr_from_reference(
    vm: &VirtualMachine,
    hint_reference: &HintReference,
    ap_tracking: &ApTracking,
) -> (r: Result<Relocatable, VirtualMachineError>)
    ensures
        r == match compute_addr_spec(hint_reference, vm, ap_tracking) {
            Err(e) => Err(e),
            Ok(addr) => if hint_reference.dereference {
                match vm.memory@.get(addr) {
                    Some(CellValue::Address(a)) => Ok(a),
                    _ => Err(VirtualMachineError::ExpectedRelocatable(addr)),
                }
            } else {
                Ok(addr)
            },
        },
{
    let var_addr = match compute_addr_from_reference(hint_reference, vm, ap_tracking) {
        Ok(a) => a,
        Err(e) => { return Err(e) },
    };
    if hint_reference.dereference {
        vm.get_relocatable(&var_addr)
    } else {
        Ok(var_addr)
    }
}

/// The value of a field element as a `usize`.
pub fn felt_to_usize(felt: &Felt) -> (r: Result<usize, VirtualMachineError>)
    ensures
        r == if felt@ <= usize::MAX {
            Ok(felt@ as usize)
        } else {
            Err(VirtualMachineError::BigintToUsizeFail)
        },
{
    match felt.to_usize() {
        Some(v) => Ok(v),
        None => Err(VirtualMachineError::BigintToUsizeFail),
    }
}

/// The value of a field element as a `u32`.
pub fn felt_to_u32(felt: &Felt) -> (r: Result<u32, VirtualMachineError>)
    ensures
        r == if felt@ <= u32::MAX {
            Ok(felt@ as u32)
        } else {
            Err(VirtualMachineError::BigintToU32Fail)
        },
{
    match felt.to_u32() {
        Some(v) => Ok(v),
        None => Err(VirtualMachineError::BigintToU32Fail),
    }
}

} // verus!
