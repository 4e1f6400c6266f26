use cairo_core::bigint::BigInt;
use cairo_core::circuit::{
    compute_gates, eval_circuit, fill_instances, find_inverse, get_modulus, read_circuit_value,
    write_circuit_value, Circuit,
};
use cairo_core::errors::{HintError, MathError, MemoryError};
use cairo_core::felt::Felt;
use cairo_core::relocatable::{MaybeRelocatable, Relocatable};
use cairo_core::vm_core::VirtualMachine;

const MUL_SEGMENT: isize = 0;
const ADD_SEGMENT: isize = 1;
const ADD_OFFSETS: isize = 2;
const MUL_OFFSETS: isize = 3;
const VALUES: isize = 4;

fn num(s: &str) -> BigInt {
    let n = num_bigint::BigInt::parse_bytes(s.as_bytes(), 10).unwrap();
    BigInt::from_signed_bytes_le(n.to_signed_bytes_le())
}

fn small(n: i64) -> BigInt {
    BigInt::from_signed_bytes_le(num_bigint::BigInt::from(n).to_signed_bytes_le())
}

fn felt_cell(n: i64) -> MaybeRelocatable {
    MaybeRelocatable::from(Felt::new(&small(n)))
}

fn at(segment: isize, offset: usize) -> Relocatable {
    Relocatable::from((segment, offset))
}

fn empty_machine(segments: usize) -> VirtualMachine {
    let mut vm = VirtualMachine::new();
    for _ in 0..segments {
        vm.memory.data.push(Vec::new());
    }
    vm
}

fn put(vm: &mut VirtualMachine, segment: isize, offset: usize, value: MaybeRelocatable) {
    vm.memory.insert(&at(segment, offset), value).unwrap();
}

fn put_value(vm: &mut VirtualMachine, offset: usize, value: i64) {
    write_circuit_value(vm, at(VALUES, offset), small(value)).unwrap();
}

fn value_at(vm: &VirtualMachine, offset: usize) -> Option<BigInt> {
    read_circuit_value(vm, at(VALUES, offset)).unwrap()
}

// A machine holding a circuit: the mul-mod instance with the modulus and
// the two pointers, the add-mod instance with its offsets pointer, the
// offsets of the gates and the values that are known.
fn circuit_machine(
    modulus: i64,
    add_gates: &[(usize, usize, usize)],
    mul_gates: &[(usize, usize, usize)],
    known: &[(usize, i64)],
) -> VirtualMachine {
    let mut vm = empty_machine(5);
    write_circuit_value(&mut vm, at(MUL_SEGMENT, 0), small(modulus)).unwrap();
    put(&mut vm, MUL_SEGMENT, 4, MaybeRelocatable::from((VALUES, 0)));
    put(&mut vm, MUL_SEGMENT, 5, MaybeRelocatable::from((MUL_OFFSETS, 0)));
    put(&mut vm, ADD_SEGMENT, 5, MaybeRelocatable::from((ADD_OFFSETS, 0)));
    for (i, (l, r, o)) in add_gates.iter().enumerate() {
        put(&mut vm, ADD_OFFSETS, 3 * i, felt_cell(*l as i64));
        put(&mut vm, ADD_OFFSETS, 3 * i + 1, felt_cell(*r as i64));
        put(&mut vm, ADD_OFFSETS, 3 * i + 2, felt_cell(*o as i64));
    }
    for (i, (l, r, o)) in mul_gates.iter().enumerate() {
        put(&mut vm, MUL_OFFSETS, 3 * i, felt_cell(*l as i64));
        put(&mut vm, MUL_OFFSETS, 3 * i + 1, felt_cell(*r as i64));
        put(&mut vm, MUL_OFFSETS, 3 * i + 2, felt_cell(*o as i64));
    }
    for (offset, value) in known {
        put_value(&mut vm, *offset, *value);
    }
    vm
}

fn run_gates(vm: &mut VirtualMachine, n_add: usize, n_mul: usize) -> Result<usize, HintError> {
    compute_gates(
        vm,
        at(VALUES, 0),
        at(ADD_OFFSETS, 0),
        n_add,
        at(MUL_OFFSETS, 0),
        n_mul,
        at(MUL_SEGMENT, 0),
    )
}

#[test]
fn circuit_value_round_trip() {
    let mut vm = empty_machine(5);
    let value = num("39402006196394479212279040100143613805079739270465446667948293404245721771496870329047266088258938001861606973112319");
    write_circuit_value(&mut vm, at(VALUES, 8), value.clone()).unwrap();
    assert_eq!(read_circuit_value(&vm, at(VALUES, 8)), Ok(Some(value)));
    assert_eq!(read_circuit_value(&vm, at(VALUES, 7)), Ok(None));
    assert_eq!(read_circuit_value(&vm, at(VALUES, 4)), Ok(None));
}

#[test]
fn circuit_value_limbs_are_little_endian() {
    let mut vm = empty_machine(5);
    // 2^96 + 5
    write_circuit_value(&mut vm, at(VALUES, 0), num("79228162514264337593543950341")).unwrap();
    assert_eq!(vm.memory.get(&at(VALUES, 0)), Some(&felt_cell(5)));
    assert_eq!(vm.memory.get(&at(VALUES, 1)), Some(&felt_cell(1)));
    assert_eq!(vm.memory.get(&at(VALUES, 2)), Some(&felt_cell(0)));
    assert_eq!(vm.memory.get(&at(VALUES, 3)), Some(&felt_cell(0)));
    assert_eq!(vm.memory.get(&at(VALUES, 4)), None);
}

#[test]
fn circuit_value_drops_what_is_above_four_limbs() {
    let mut vm = empty_machine(5);
    // 2^384 + 9
    let value = num("39402006196394479212279040100143613805079739270465446667948293404245721771497210611414266254884915640806627990306825");
    write_circuit_value(&mut vm, at(VALUES, 0), value).unwrap();
    assert_eq!(read_circuit_value(&vm, at(VALUES, 0)), Ok(Some(small(9))));
}

#[test]
fn circuit_value_with_an_address_among_the_limbs_is_unknown() {
    let mut vm = empty_machine(5);
    put(&mut vm, VALUES, 0, felt_cell(1));
    put(&mut vm, VALUES, 1, felt_cell(1));
    put(&mut vm, VALUES, 2, MaybeRelocatable::from((1, 1)));
    put(&mut vm, VALUES, 3, felt_cell(1));
    assert_eq!(read_circuit_value(&vm, at(VALUES, 0)), Ok(None));
}

#[test]
fn circuit_value_at_the_end_of_the_address_space() {
    let vm = empty_machine(5);
    let last = at(VALUES, usize::MAX - 2);
    assert_eq!(
        read_circuit_value(&vm, last),
        Err(HintError::Math(MathError::RelocatableAddOffsetExceeded(last)))
    );
}

#[test]
fn write_circuit_value_respects_write_once() {
    let mut vm = empty_machine(5);
    put(&mut vm, VALUES, 1, felt_cell(7));
    assert_eq!(
        write_circuit_value(&mut vm, at(VALUES, 0), small(3)),
        Err(HintError::Memory(MemoryError::InconsistentMemory(
            at(VALUES, 1),
            felt_cell(7),
            felt_cell(0)
        )))
    );
    // the first limb was written before the refusal
    assert_eq!(vm.memory.get(&at(VALUES, 0)), Some(&felt_cell(3)));
    assert_eq!(vm.memory.get(&at(VALUES, 2)), None);
}

#[test]
fn find_inverse_of_an_invertible_value() {
    assert_eq!(find_inverse(small(3), &small(7)), (true, small(5)));
    assert_eq!(find_inverse(small(1), &small(7)), (true, small(1)));
    assert_eq!(find_inverse(small(6), &small(7)), (true, small(6)));
    assert_eq!(find_inverse(small(10), &small(7)), (true, small(5)));
    assert_eq!(find_inverse(small(5), &small(1)), (true, small(0)));
}

#[test]
fn find_inverse_inverts_modulo_a_large_prime() {
    let p = num("3618502788666131213697322783095070105623107215331596699973092056135872020481");
    let pn = num_bigint::BigInt::from_signed_bytes_le(&p.to_signed_bytes_le());
    for v in [2i64, 3, 1234567, 99999999977] {
        let (ok, inverse) = find_inverse(small(v), &p);
        assert!(ok);
        let inv = num_bigint::BigInt::from_signed_bytes_le(&inverse.to_signed_bytes_le());
        assert!(inv > num_bigint::BigInt::from(0) && inv < pn);
        assert_eq!((inv * v) % &pn, num_bigint::BigInt::from(1));
    }
}

#[test]
fn find_inverse_gives_a_nullifier_where_there_is_no_inverse() {
    assert_eq!(find_inverse(small(8), &small(12)), (false, small(3)));
    assert_eq!(find_inverse(small(6), &small(9)), (false, small(3)));
    assert_eq!(find_inverse(small(0), &small(5)), (false, small(1)));
    assert_eq!(find_inverse(small(12), &small(12)), (false, small(1)));
    assert_eq!(find_inverse(small(5), &small(0)), (false, small(0)));
}

#[test]
fn get_modulus_reduces_signed_numbers() {
    assert_eq!(get_modulus(&small(10), &small(7)), small(3));
    assert_eq!(get_modulus(&small(-3), &small(7)), small(4));
    assert_eq!(get_modulus(&small(-10), &small(7)), small(4));
    assert_eq!(get_modulus(&small(0), &small(7)), small(0));
    assert_eq!(get_modulus(&small(-7), &small(7)), small(7));
}

#[test]
fn two_add_gates_forward_then_subtract() {
    // gate 0: v0 + v4 = v8; gate 1: v12 + v4 = v8
    let gates = [(0, 4, 8), (12, 4, 8)];
    let mut vm = circuit_machine(7, &gates, &[], &[(0, 3), (4, 5)]);
    assert_eq!(run_gates(&mut vm, 2, 0), Ok(0));
    assert_eq!(value_at(&vm, 8), Some(small(1)));
    assert_eq!(value_at(&vm, 12), Some(small(3)));
}

#[test]
fn two_add_gates_resolve_in_one_call_of_eval_circuit() {
    let gates = [(0, 4, 8), (12, 4, 8)];
    let mut vm = circuit_machine(7, &gates, &[], &[(0, 3), (4, 5)]);
    assert_eq!(
        eval_circuit(&mut vm, 2, at(ADD_SEGMENT, 0), 0, at(MUL_SEGMENT, 0)),
        Ok(())
    );
    assert_eq!(value_at(&vm, 8), Some(small(1)));
    assert_eq!(value_at(&vm, 12), Some(small(3)));
    // both add-mod instances are filled
    for i in 0..2usize {
        let base = 7 * i;
        assert_eq!(vm.memory.get(&at(ADD_SEGMENT, base)), Some(&felt_cell(7)));
        assert_eq!(vm.memory.get(&at(ADD_SEGMENT, base + 1)), Some(&felt_cell(0)));
        assert_eq!(vm.memory.get(&at(ADD_SEGMENT, base + 2)), Some(&felt_cell(0)));
        assert_eq!(vm.memory.get(&at(ADD_SEGMENT, base + 3)), Some(&felt_cell(0)));
        assert_eq!(
            vm.memory.get(&at(ADD_SEGMENT, base + 4)),
            Some(&MaybeRelocatable::from((VALUES, 0)))
        );
        assert_eq!(
            vm.memory.get(&at(ADD_SEGMENT, base + 5)),
            Some(&MaybeRelocatable::from((ADD_OFFSETS, 3 * i)))
        );
        assert_eq!(
            vm.memory.get(&at(ADD_SEGMENT, base + 6)),
            Some(&felt_cell(2 - i as i64))
        );
    }
    // no multiplication gate: the mul-mod instance keeps what it held
    assert_eq!(vm.memory.get(&at(MUL_SEGMENT, 6)), None);
}

#[test]
fn the_order_of_the_two_add_gates_does_not_matter_to_the_values() {
    // the subtraction gate first: it is not ready, so nothing is drained
    // in this call; written the other way round both resolve
    let forward_first = [(0, 4, 8), (12, 4, 8)];
    let mut vm = circuit_machine(7, &forward_first, &[], &[(0, 3), (4, 5)]);
    assert_eq!(run_gates(&mut vm, 2, 0), Ok(0));
    let resolved = (value_at(&vm, 8), value_at(&vm, 12));
    assert_eq!(resolved, (Some(small(1)), Some(small(3))));

    let subtract_first = [(12, 4, 8), (0, 4, 8)];
    let mut vm = circuit_machine(7, &subtract_first, &[], &[(0, 3), (4, 5)]);
    assert_eq!(run_gates(&mut vm, 2, 0), Ok(0));
    assert_eq!(value_at(&vm, 8), None);
    assert_eq!(value_at(&vm, 12), None);
}

#[test]
fn mul_gate_forward_and_add_gate_after_it() {
    // add gate 0: v8 + v0 = v12 waits for the mul gate: v0 * v4 = v8
    let mut vm = circuit_machine(11, &[(8, 0, 12)], &[(0, 4, 8)], &[(0, 6), (4, 9)]);
    assert_eq!(run_gates(&mut vm, 1, 1), Ok(1));
    assert_eq!(value_at(&vm, 8), Some(small(10)));
    assert_eq!(value_at(&vm, 12), Some(small(5)));
}

#[test]
fn inverse_gate() {
    // v0 * v4 = v8 with v0 unknown: v0 = 1 / v4
    let mut vm = circuit_machine(7, &[], &[(0, 4, 8)], &[(4, 3)]);
    assert_eq!(run_gates(&mut vm, 0, 1), Ok(1));
    assert_eq!(value_at(&vm, 0), Some(small(5)));
    assert_eq!(value_at(&vm, 8), None);
}

#[test]
fn non_invertible_mul_gate_records_the_first_failure() {
    // add gate 0: v12 + v16 = v20 depends on nothing else.
    // mul gate 0: v0 * v4 = v8 with v0 unknown and v4 = 8, modulus 12.
    // mul gate 1: v12 * v16 = v24 is ready and stays uncomputed.
    // add gate 1: v0 + v12 = v28 depends on the failed gate.
    let add_gates = [(12, 16, 20), (0, 12, 28)];
    let mul_gates = [(0, 4, 8), (12, 16, 24)];
    let mut vm = circuit_machine(12, &add_gates, &mul_gates, &[(4, 8), (12, 5), (16, 10)]);
    assert_eq!(run_gates(&mut vm, 2, 2), Ok(0));
    // the nullifier: 8 * 3 = 24 = 0 (mod 12)
    assert_eq!(value_at(&vm, 0), Some(small(3)));
    // the independent add gate was computed
    assert_eq!(value_at(&vm, 20), Some(small(3)));
    // nothing after the failure
    assert_eq!(value_at(&vm, 24), None);
    assert_eq!(value_at(&vm, 28), None);
}

#[test]
fn eval_circuit_fills_the_mul_instances_up_to_the_failure() {
    let add_gates = [(12, 16, 20)];
    let mul_gates = [(12, 16, 24), (0, 4, 8), (12, 16, 32)];
    let mut vm = circuit_machine(12, &add_gates, &mul_gates, &[(4, 8), (12, 5), (16, 10)]);
    assert_eq!(
        eval_circuit(&mut vm, 1, at(ADD_SEGMENT, 0), 3, at(MUL_SEGMENT, 0)),
        Ok(())
    );
    assert_eq!(value_at(&vm, 24), Some(small(2)));
    assert_eq!(value_at(&vm, 0), Some(small(3)));
    assert_eq!(value_at(&vm, 32), None);
    // one gate was computed before the failure: one mul-mod instance
    assert_eq!(vm.memory.get(&at(MUL_SEGMENT, 6)), Some(&felt_cell(1)));
    assert_eq!(vm.memory.get(&at(MUL_SEGMENT, 7)), None);
    assert_eq!(vm.memory.get(&at(ADD_SEGMENT, 6)), Some(&felt_cell(1)));
}

#[test]
fn all_mul_gates_succeed() {
    let mul_gates = [(0, 4, 8), (8, 4, 12)];
    let mut vm = circuit_machine(13, &[], &mul_gates, &[(0, 5), (4, 7)]);
    assert_eq!(run_gates(&mut vm, 0, 2), Ok(2));
    assert_eq!(value_at(&vm, 8), Some(small(9)));
    assert_eq!(value_at(&vm, 12), Some(small(11)));
}

#[test]
fn add_gate_that_is_not_ready_stops_the_draining() {
    let gates = [(0, 4, 8), (12, 16, 20), (0, 4, 24)];
    let mut vm = circuit_machine(7, &gates, &[], &[(0, 3), (4, 5)]);
    assert_eq!(run_gates(&mut vm, 3, 0), Ok(0));
    assert_eq!(value_at(&vm, 8), Some(small(1)));
    assert_eq!(value_at(&vm, 20), None);
    // what comes after a gate that is not ready is left alone
    assert_eq!(value_at(&vm, 24), None);
}

#[test]
fn evaluating_twice_changes_nothing() {
    let gates = [(0, 4, 8), (12, 4, 8)];
    let mut vm = circuit_machine(7, &gates, &[(0, 4, 16)], &[(0, 3), (4, 5)]);
    assert_eq!(run_gates(&mut vm, 2, 1), Ok(1));
    let first = (value_at(&vm, 8), value_at(&vm, 12), value_at(&vm, 16));
    assert_eq!(run_gates(&mut vm, 2, 1), Ok(1));
    assert_eq!((value_at(&vm, 8), value_at(&vm, 12), value_at(&vm, 16)), first);
    assert_eq!(first, (Some(small(1)), Some(small(3)), Some(small(1))));
}

#[test]
fn mul_gate_without_a_right_operand() {
    let mut vm = circuit_machine(7, &[], &[(0, 4, 8)], &[(0, 3)]);
    assert_eq!(run_gates(&mut vm, 0, 1), Err(HintError::MulModGateNotReady(0)));
}

#[test]
fn unknown_modulus() {
    let mut vm = empty_machine(5);
    assert_eq!(
        run_gates(&mut vm, 0, 0),
        Err(HintError::Memory(MemoryError::UnknownMemoryCell(at(MUL_SEGMENT, 0))))
    );
}

#[test]
fn zero_modulus() {
    let mut vm = circuit_machine(0, &[(0, 4, 8)], &[], &[(0, 3), (4, 5)]);
    assert_eq!(run_gates(&mut vm, 1, 0), Err(HintError::Math(MathError::DividedByZero)));
    let mut vm = circuit_machine(0, &[], &[], &[]);
    assert_eq!(run_gates(&mut vm, 0, 0), Ok(0));
}

#[test]
fn subtraction_gate_below_zero() {
    // v12 + v4 = v8 with v8 + modulus < v4
    let mut vm = circuit_machine(7, &[(12, 4, 8)], &[], &[(4, 100), (8, 1)]);
    assert_eq!(
        run_gates(&mut vm, 1, 0),
        Err(HintError::Math(MathError::SubtractionUnderflow))
    );
}

#[test]
fn gate_offset_that_is_not_a_number() {
    let mut vm = circuit_machine(7, &[], &[], &[(0, 3), (4, 5)]);
    put(&mut vm, ADD_OFFSETS, 0, MaybeRelocatable::from((1, 1)));
    assert_eq!(
        run_gates(&mut vm, 1, 0),
        Err(HintError::Memory(MemoryError::ExpectedInteger(at(ADD_OFFSETS, 0))))
    );
    let mut vm = circuit_machine(7, &[], &[], &[(0, 3), (4, 5)]);
    assert_eq!(
        run_gates(&mut vm, 1, 0),
        Err(HintError::Memory(MemoryError::ExpectedInteger(at(ADD_OFFSETS, 0))))
    );
}

#[test]
fn gate_output_that_contradicts_the_memory() {
    let mut vm = circuit_machine(7, &[(0, 4, 8)], &[], &[(0, 3), (4, 5), (8, 2)]);
    assert_eq!(
        run_gates(&mut vm, 1, 0),
        Err(HintError::Memory(MemoryError::InconsistentMemory(
            at(VALUES, 8),
            felt_cell(2),
            felt_cell(1)
        )))
    );
}

#[test]
fn eval_circuit_needs_the_pointers() {
    let mut vm = empty_machine(5);
    assert_eq!(
        eval_circuit(&mut vm, 0, at(ADD_SEGMENT, 0), 0, at(MUL_SEGMENT, 0)),
        Err(HintError::Memory(MemoryError::ExpectedRelocatable(at(MUL_SEGMENT, 4))))
    );
    put(&mut vm, MUL_SEGMENT, 4, MaybeRelocatable::from((VALUES, 0)));
    assert_eq!(
        eval_circuit(&mut vm, 0, at(ADD_SEGMENT, 0), 0, at(MUL_SEGMENT, 0)),
        Err(HintError::Memory(MemoryError::ExpectedRelocatable(at(MUL_SEGMENT, 5))))
    );
    put(&mut vm, MUL_SEGMENT, 5, MaybeRelocatable::from((MUL_OFFSETS, 0)));
    write_circuit_value(&mut vm, at(MUL_SEGMENT, 0), small(7)).unwrap();
    assert_eq!(
        eval_circuit(&mut vm, 1, at(ADD_SEGMENT, 0), 0, at(MUL_SEGMENT, 0)),
        Err(HintError::Memory(MemoryError::ExpectedRelocatable(at(ADD_SEGMENT, 5))))
    );
    // without addition gates the add-mod instance is not looked at
    assert_eq!(
        eval_circuit(&mut vm, 0, at(ADD_SEGMENT, 0), 0, at(MUL_SEGMENT, 0)),
        Ok(())
    );
}

#[test]
fn fill_instances_writes_the_countdown() {
    let mut vm = empty_machine(5);
    let modulus = [
        Felt::new(&small(11)),
        Felt::new(&small(12)),
        Felt::new(&small(13)),
        Felt::new(&small(14)),
    ];
    assert_eq!(
        fill_instances(&mut vm, at(1, 0), 3, modulus, at(VALUES, 2), at(ADD_OFFSETS, 9)),
        Ok(())
    );
    for i in 0..3usize {
        let base = 7 * i;
        assert_eq!(vm.memory.get(&at(1, base)), Some(&felt_cell(11)));
        assert_eq!(vm.memory.get(&at(1, base + 1)), Some(&felt_cell(12)));
        assert_eq!(vm.memory.get(&at(1, base + 2)), Some(&felt_cell(13)));
        assert_eq!(vm.memory.get(&at(1, base + 3)), Some(&felt_cell(14)));
        assert_eq!(
            vm.memory.get(&at(1, base + 4)),
            Some(&MaybeRelocatable::from((VALUES, 2)))
        );
        assert_eq!(
            vm.memory.get(&at(1, base + 5)),
            Some(&MaybeRelocatable::from((ADD_OFFSETS, 9 + 3 * i)))
        );
        assert_eq!(vm.memory.get(&at(1, base + 6)), Some(&felt_cell(3 - i as i64)));
    }
    assert_eq!(vm.memory.get(&at(1, 21)), None);
}

#[test]
fn fill_instances_of_none_writes_nothing() {
    let mut vm = empty_machine(5);
    let modulus = [Felt::one(), Felt::zero(), Felt::zero(), Felt::zero()];
    assert_eq!(
        fill_instances(&mut vm, at(1, 0), 0, modulus, at(VALUES, 0), at(ADD_OFFSETS, 0)),
        Ok(())
    );
    assert_eq!(vm.memory.get(&at(1, 0)), None);
}

#[test]
fn fill_instances_stops_where_the_memory_refuses() {
    let mut vm = empty_machine(5);
    put(&mut vm, 1, 8, felt_cell(99));
    let modulus = [
        Felt::new(&small(11)),
        Felt::new(&small(12)),
        Felt::new(&small(13)),
        Felt::new(&small(14)),
    ];
    assert_eq!(
        fill_instances(&mut vm, at(1, 0), 2, modulus, at(VALUES, 0), at(ADD_OFFSETS, 0)),
        Err(HintError::Memory(MemoryError::InconsistentMemory(
            at(1, 8),
            felt_cell(99),
            felt_cell(12)
        )))
    );
    assert_eq!(vm.memory.get(&at(1, 7)), Some(&felt_cell(11)));
    assert_eq!(vm.memory.get(&at(1, 9)), None);
}

#[test]
fn circuit_accessors() {
    let mut vm = circuit_machine(7, &[(0, 4, 8)], &[(4, 0, 12)], &[(0, 3), (4, 5)]);
    let circuit = Circuit {
        values_ptr: at(VALUES, 0),
        add_mod_offsets: at(ADD_OFFSETS, 0),
        mul_mod_offsets: at(MUL_OFFSETS, 0),
        modulus: small(7),
    };
    assert_eq!(circuit.read_add_mod_value(&vm, 0), Ok(Some(small(3))));
    assert_eq!(circuit.read_add_mod_value(&vm, 1), Ok(Some(small(5))));
    assert_eq!(circuit.read_add_mod_value(&vm, 2), Ok(None));
    assert_eq!(circuit.read_mul_mod_value(&vm, 0), Ok(Some(small(5))));
    assert_eq!(circuit.get_value_ptr(&vm, at(ADD_OFFSETS, 2)), Ok(at(VALUES, 8)));
    assert_eq!(circuit.write_add_mod_value(&mut vm, 2, small(6)), Ok(()));
    assert_eq!(circuit.read_circuit_value(&vm, at(ADD_OFFSETS, 2)), Ok(Some(small(6))));
    assert_eq!(circuit.write_mul_mod_value(&mut vm, 2, small(4)), Ok(()));
    assert_eq!(value_at(&vm, 12), Some(small(4)));
    assert_eq!(
        circuit.write_circuit_value(&mut vm, at(MUL_OFFSETS, 0), small(5)),
        Ok(())
    );
}
