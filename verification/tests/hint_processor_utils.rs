use cairo_core::bigint::BigInt;
use cairo_core::errors::{MemoryError, VirtualMachineError};
use cairo_core::felt::Felt;
use cairo_core::hint_processor_definition::{ApTracking, HintReference, OffsetValue, Register};
use cairo_core::hint_processor_utils::{
    apply_ap_tracking_correction, compute_addr_from_reference, felt_to_u32, felt_to_usize,
    get_integer_from_reference, get_offset_value_reference, get_ptr_from_reference,
    insert_value_from_reference,
};
use cairo_core::memory::Memory;
use cairo_core::relocatable::{MaybeRelocatable, Relocatable};
use cairo_core::vm_core::VirtualMachine;

fn felt_of(n: i64) -> Felt {
    Felt::new(&BigInt::from_signed_bytes_le(
        num_bigint::BigInt::from(n).to_signed_bytes_le(),
    ))
}

fn memory_with(cells: Vec<((isize, usize), MaybeRelocatable)>) -> Memory {
    let mut memory = Memory::new();
    for ((segment, offset), value) in cells {
        while memory.data.len() <= segment as usize {
            memory.data.push(Vec::new());
        }
        memory
            .insert(&Relocatable::from((segment, offset)), value)
            .unwrap();
    }
    memory
}

fn int_at(n: i64) -> MaybeRelocatable {
    MaybeRelocatable::from(felt_of(n))
}

fn ptr_at(segment: isize, offset: usize) -> MaybeRelocatable {
    MaybeRelocatable::from((segment, offset))
}

#[test]
fn get_integer_from_reference_with_immediate_value() {
    let mut vm = VirtualMachine::new();
    vm.memory = memory_with(vec![((1, 0), int_at(0))]);
    let mut hint_ref = HintReference::new(0, 0, false, true);
    hint_ref.offset1 = OffsetValue::Immediate(felt_of(2));

    assert_eq!(
        get_integer_from_reference(&vm, &hint_ref, &ApTracking::new())
            .expect("Unexpected get integer fail"),
        felt_of(2)
    );
}

#[test]
fn immediate_value_needs_no_memory() {
    let vm = VirtualMachine::new();
    let mut hint_ref = HintReference::new(0, 0, false, true);
    hint_ref.offset1 = OffsetValue::Immediate(felt_of(77));
    assert_eq!(
        get_integer_from_reference(&vm, &hint_ref, &ApTracking::new()),
        Ok(felt_of(77))
    );
    assert!(vm.memory.data.is_empty());
    assert!(vm.memory.temp_data.is_empty());
}

#[test]
fn get_ptr_from_reference_short_path() {
    let mut vm = VirtualMachine::new();
    vm.memory = memory_with(vec![((1, 0), ptr_at(2, 0))]);

    assert_eq!(
        get_ptr_from_reference(
            &vm,
            &HintReference::new(0, 0, false, false),
            &ApTracking::new()
        ),
        Ok(Relocatable::from((1, 0)))
    );
}

#[test]
fn get_ptr_from_reference_with_dereference() {
    let mut vm = VirtualMachine::new();
    vm.memory = memory_with(vec![((1, 0), ptr_at(3, 0))]);

    assert_eq!(
        get_ptr_from_reference(
            &vm,
            &HintReference::new(0, 0, false, true),
            &ApTracking::new()
        ),
        Ok(Relocatable::from((3, 0)))
    );
}

#[test]
fn get_ptr_from_reference_with_dereference_and_imm() {
    let mut vm = VirtualMachine::new();
    vm.memory = memory_with(vec![((1, 0), ptr_at(4, 0))]);
    let mut hint_ref = HintReference::new(0, 0, true, false);
    hint_ref.offset2 = OffsetValue::Value(2);

    assert_eq!(
        get_ptr_from_reference(&vm, &hint_ref, &ApTracking::new()),
        Ok(Relocatable::from((4, 2)))
    );
}

#[test]
fn compute_addr_from_reference_no_regiter_in_reference() {
    let mut vm = VirtualMachine::new();
    vm.memory = memory_with(vec![((1, 0), ptr_at(4, 0))]);
    let mut hint_reference = HintReference::new(0, 0, false, false);
    hint_reference.offset1 = OffsetValue::Immediate(felt_of(2));

    assert_eq!(
        compute_addr_from_reference(&hint_reference, &vm, &ApTracking::new()),
        Err(VirtualMachineError::NoRegisterInReference)
    );
}

#[test]
fn compute_addr_from_reference_failed_to_get_ids() {
    let mut vm = VirtualMachine::new();
    vm.memory = memory_with(vec![((1, 0), int_at(4))]);
    let mut hint_reference = HintReference::new(0, 0, false, false);
    hint_reference.offset1 = OffsetValue::Reference(Register::FP, -1, true);

    assert_eq!(
        compute_addr_from_reference(&hint_reference, &vm, &ApTracking::new()),
        Err(VirtualMachineError::FailedToGetIds)
    );
}

#[test]
fn tracking_correction_invalid_group() {
    let mut ref_ap_tracking = ApTracking::new();
    ref_ap_tracking.group = 1;
    let mut hint_ap_tracking = ApTracking::new();
    hint_ap_tracking.group = 2;

    assert_eq!(
        apply_ap_tracking_correction(
            &Relocatable::from((1, 0)),
            &ref_ap_tracking,
            &hint_ap_tracking
        ),
        Err(VirtualMachineError::InvalidTrackingGroup(1, 2))
    );
}

#[test]
fn tracking_group_is_checked_before_memory() {
    // The memory is empty: a read would fail with another error.
    let vm = VirtualMachine::new();
    let mut hint_reference = HintReference::new(0, 0, true, true);
    hint_reference.offset1 = OffsetValue::Reference(Register::AP, 0, true);
    hint_reference.ap_tracking_data = Some(ApTracking { group: 1, offset: 0 });
    let hint_tracking = ApTracking { group: 2, offset: 0 };
    assert_eq!(
        compute_addr_from_reference(&hint_reference, &vm, &hint_tracking),
        Err(VirtualMachineError::InvalidTrackingGroup(1, 2))
    );
    assert_eq!(
        get_ptr_from_reference(&vm, &hint_reference, &hint_tracking),
        Err(VirtualMachineError::InvalidTrackingGroup(1, 2))
    );
}

#[test]
fn tracking_correction_lowers_the_allocation_pointer() {
    let reference = ApTracking { group: 3, offset: 2 };
    let hint = ApTracking { group: 3, offset: 5 };
    assert_eq!(
        apply_ap_tracking_correction(&Relocatable::from((1, 10)), &reference, &hint),
        Ok(Relocatable::from((1, 7)))
    );
    assert_eq!(
        apply_ap_tracking_correction(&Relocatable::from((1, 3)), &reference, &hint),
        Ok(Relocatable::from((1, 0)))
    );
    assert_eq!(
        apply_ap_tracking_correction(&Relocatable::from((1, 2)), &reference, &hint),
        Err(VirtualMachineError::FailedToGetIds)
    );
    assert_eq!(
        apply_ap_tracking_correction(&Relocatable::from((1, 10)), &hint, &reference),
        Err(VirtualMachineError::FailedToGetIds)
    );
}

#[test]
fn reference_relative_to_the_allocation_pointer() {
    let mut vm = VirtualMachine::new();
    vm.run_context.ap = 6;
    vm.memory = memory_with(vec![((1, 5), ptr_at(7, 1))]);
    let mut hint_reference = HintReference::new(0, 3, true, false);
    hint_reference.offset1 = OffsetValue::Reference(Register::AP, 1, true);
    assert_eq!(
        compute_addr_from_reference(&hint_reference, &vm, &ApTracking::new()),
        Err(VirtualMachineError::NoneApTrackingData)
    );
    hint_reference.ap_tracking_data = Some(ApTracking { group: 0, offset: 1 });
    let hint_tracking = ApTracking { group: 0, offset: 3 };
    // ap is corrected to 4, the cell read is (1, 5), which holds (7, 1)
    assert_eq!(
        compute_addr_from_reference(&hint_reference, &vm, &hint_tracking),
        Ok(Relocatable::from((7, 4)))
    );
}

#[test]
fn second_offset_read_from_memory() {
    let mut vm = VirtualMachine::new();
    vm.run_context.fp = 2;
    vm.memory = memory_with(vec![
        ((1, 1), ptr_at(5, 10)),
        ((1, 3), int_at(4)),
        ((1, 4), ptr_at(2, 2)),
    ]);
    let mut hint_reference = HintReference::new(-1, 0, true, false);
    hint_reference.offset2 = OffsetValue::Reference(Register::FP, 1, true);
    assert_eq!(
        compute_addr_from_reference(&hint_reference, &vm, &ApTracking::new()),
        Ok(Relocatable::from((5, 14)))
    );
    // two addresses cannot be added
    hint_reference.offset2 = OffsetValue::Reference(Register::FP, 2, true);
    assert_eq!(
        compute_addr_from_reference(&hint_reference, &vm, &ApTracking::new()),
        Err(VirtualMachineError::ExpectedInteger(Relocatable::from((1, 4))))
    );
    hint_reference.offset2 = OffsetValue::Reference(Register::FP, 1, false);
    assert_eq!(
        compute_addr_from_reference(&hint_reference, &vm, &ApTracking::new()),
        Err(VirtualMachineError::ExpectedInteger(Relocatable::from((1, 3))))
    );
    hint_reference.offset2 = OffsetValue::Immediate(felt_of(1));
    assert_eq!(
        compute_addr_from_reference(&hint_reference, &vm, &ApTracking::new()),
        Err(VirtualMachineError::NoRegisterInReference)
    );
}

#[test]
fn first_offset_must_yield_an_address() {
    let mut vm = VirtualMachine::new();
    vm.memory = memory_with(vec![((1, 0), int_at(4))]);
    let hint_reference = HintReference::new(0, 0, true, false);
    assert_eq!(
        compute_addr_from_reference(&hint_reference, &vm, &ApTracking::new()),
        Err(VirtualMachineError::ExpectedRelocatable(Relocatable::from((1, 0))))
    );
}

#[test]
fn negative_second_offset() {
    let mut vm = VirtualMachine::new();
    vm.memory = memory_with(vec![((1, 0), ptr_at(4, 3))]);
    let hint_reference = HintReference::new(0, -2, true, false);
    assert_eq!(
        compute_addr_from_reference(&hint_reference, &vm, &ApTracking::new()),
        Ok(Relocatable::from((4, 1)))
    );
    let too_far = HintReference::new(0, -4, true, false);
    assert_eq!(
        compute_addr_from_reference(&too_far, &vm, &ApTracking::new()),
        Err(VirtualMachineError::CantSubOffset(3, 4))
    );
}

#[test]
fn offsets_at_the_end_of_the_address_space() {
    let mut vm = VirtualMachine::new();
    vm.memory = memory_with(vec![
        ((1, 0), ptr_at(4, usize::MAX)),
        ((1, 1), int_at(-1)),
        ((1, 2), int_at(1)),
    ]);
    let by_constant = HintReference::new(0, 1, true, false);
    assert_eq!(
        compute_addr_from_reference(&by_constant, &vm, &ApTracking::new()),
        Err(VirtualMachineError::OffsetExceeded(usize::MAX, 1))
    );
    let at_the_end = HintReference::new(0, 0, true, false);
    assert_eq!(
        compute_addr_from_reference(&at_the_end, &vm, &ApTracking::new()),
        Ok(Relocatable::from((4, usize::MAX)))
    );
    // the second offset is the largest field element
    let mut too_large = HintReference::new(0, 0, true, false);
    too_large.offset2 = OffsetValue::Reference(Register::FP, 1, true);
    assert_eq!(
        compute_addr_from_reference(&too_large, &vm, &ApTracking::new()),
        Err(VirtualMachineError::BigintToUsizeFail)
    );
    let mut by_cell = HintReference::new(0, 0, true, false);
    by_cell.offset2 = OffsetValue::Reference(Register::FP, 2, true);
    assert_eq!(
        compute_addr_from_reference(&by_cell, &vm, &ApTracking::new()),
        Err(VirtualMachineError::OffsetExceeded(usize::MAX, 1))
    );
    vm.run_context.fp = usize::MAX;
    let beyond = HintReference::new(1, 0, false, false);
    assert_eq!(
        compute_addr_from_reference(&beyond, &vm, &ApTracking::new()),
        Err(VirtualMachineError::OffsetExceeded(usize::MAX, 1))
    );
}

#[test]
fn offset_value_of_a_reference() {
    let mut vm = VirtualMachine::new();
    vm.run_context.fp = 1;
    vm.memory = memory_with(vec![((1, 2), int_at(9))]);
    let hint_reference = HintReference::new_simple(1);
    assert_eq!(
        get_offset_value_reference(
            &vm,
            &hint_reference,
            &ApTracking::new(),
            &OffsetValue::Reference(Register::FP, 1, true)
        ),
        Ok(int_at(9))
    );
    assert_eq!(
        get_offset_value_reference(
            &vm,
            &hint_reference,
            &ApTracking::new(),
            &OffsetValue::Reference(Register::FP, 1, false)
        ),
        Ok(ptr_at(1, 2))
    );
    assert_eq!(
        get_offset_value_reference(
            &vm,
            &hint_reference,
            &ApTracking::new(),
            &OffsetValue::Reference(Register::FP, 5, true)
        ),
        Err(VirtualMachineError::FailedToGetIds)
    );
    assert_eq!(
        get_offset_value_reference(
            &vm,
            &hint_reference,
            &ApTracking::new(),
            &OffsetValue::Value(1)
        ),
        Err(VirtualMachineError::FailedToGetIds)
    );
}

#[test]
fn get_integer_from_reference_reads_the_cell() {
    let mut vm = VirtualMachine::new();
    vm.memory = memory_with(vec![((1, 0), int_at(12)), ((1, 1), ptr_at(1, 0))]);
    assert_eq!(
        get_integer_from_reference(&vm, &HintReference::new_simple(0), &ApTracking::new()),
        Ok(felt_of(12))
    );
    assert_eq!(
        get_integer_from_reference(&vm, &HintReference::new_simple(1), &ApTracking::new()),
        Err(VirtualMachineError::ExpectedInteger(Relocatable::from((1, 1))))
    );
    assert_eq!(
        get_integer_from_reference(&vm, &HintReference::new_simple(2), &ApTracking::new()),
        Err(VirtualMachineError::ExpectedInteger(Relocatable::from((1, 2))))
    );
}

#[test]
fn get_ptr_from_reference_type_mismatch() {
    let mut vm = VirtualMachine::new();
    vm.memory = memory_with(vec![((1, 0), int_at(12))]);
    assert_eq!(
        get_ptr_from_reference(&vm, &HintReference::new_simple(0), &ApTracking::new()),
        Err(VirtualMachineError::ExpectedRelocatable(Relocatable::from((1, 0))))
    );
}

#[test]
fn insert_value_from_reference_writes_once() {
    let mut vm = VirtualMachine::new();
    vm.memory = memory_with(vec![((1, 0), int_at(12))]);
    let reference = HintReference::new_simple(3);
    assert_eq!(
        insert_value_from_reference(int_at(5), &mut vm, &reference, &ApTracking::new()),
        Ok(())
    );
    assert_eq!(
        vm.memory.get(&Relocatable::from((1, 3))),
        Some(&int_at(5))
    );
    assert_eq!(vm.memory.get(&Relocatable::from((1, 2))), None);
    assert_eq!(
        insert_value_from_reference(int_at(5), &mut vm, &reference, &ApTracking::new()),
        Ok(())
    );
    assert_eq!(
        insert_value_from_reference(int_at(6), &mut vm, &reference, &ApTracking::new()),
        Err(VirtualMachineError::MemoryError(
            MemoryError::InconsistentMemory(Relocatable::from((1, 3)), int_at(5), int_at(6))
        ))
    );
    assert_eq!(
        vm.memory.get(&Relocatable::from((1, 3))),
        Some(&int_at(5))
    );
}

#[test]
fn insert_into_a_missing_segment() {
    let mut vm = VirtualMachine::new();
    let reference = HintReference::new_simple(0);
    assert_eq!(
        insert_value_from_reference(int_at(5), &mut vm, &reference, &ApTracking::new()),
        Err(VirtualMachineError::MemoryError(
            MemoryError::UnallocatedSegment(1, 0)
        ))
    );
}

#[test]
fn felt_conversions() {
    assert_eq!(felt_to_usize(&felt_of(17)), Ok(17));
    assert_eq!(felt_to_u32(&felt_of(17)), Ok(17));
    assert_eq!(felt_to_u32(&felt_of(4294967295)), Ok(4294967295));
    assert_eq!(
        felt_to_u32(&felt_of(4294967296)),
        Err(VirtualMachineError::BigintToU32Fail)
    );
    // -1 is the largest field element
    assert_eq!(
        felt_to_usize(&felt_of(-1)),
        Err(VirtualMachineError::BigintToUsizeFail)
    );
}

#[test]
fn hint_reference_constructors() {
    let simple = HintReference::new_simple(4);
    assert_eq!(simple.offset1, OffsetValue::Reference(Register::FP, 4, false));
    assert_eq!(simple.offset2, OffsetValue::Value(0));
    assert!(simple.dereference);
    assert_eq!(simple.ap_tracking_data, None);
    assert_eq!(simple.cairo_type, None);
    let full = HintReference::new(1, 2, true, false);
    assert_eq!(full.offset1, OffsetValue::Reference(Register::FP, 1, true));
    assert_eq!(full.offset2, OffsetValue::Value(2));
    assert!(!full.dereference);
}
