//! The evaluator of modular-arithmetic circuits: addition and
//! multiplication gates over one buffer of values and one modulus.
//!
//! A circuit value takes four cells, each a limb of 96 bits, the least
//! significant first. A gate is three offsets into the values buffer: the
//! left operand, the right operand and the result.

pub mod gates;
pub mod instances;
pub mod inverse;
pub mod values;

pub use self::gates::{
    Circuit, CircuitView, GateOutcome, add_gate_spec, compute_gates, compute_gates_spec,
    drain_adds_spec, eval_gates_spec, gate_reported, lemma_add_gate_extends,
    lemma_drain_adds_extends, lemma_eval_gates_extends, lemma_mul_gate_extends, mul_gate_spec,
    stored,
};
pub use self::instances::{
    circuit_pointers_spec, eval_circuit, eval_circuit_spec, fill_instances, fill_instances_spec,
    fill_target, fill_value, integer_at, lemma_eval_circuit_extends, lemma_fill_instances_extends,
    limb_values, modulus_limbs_spec, pointer_at,
};
pub use self::inverse::{
    find_inverse, find_inverse_defined, find_inverse_spec, get_modulus, get_modulus_spec,
};
pub use self::values::{
    Fault, LIMBS_COUNT, LIMB_BITS, MOD_BUILTIN_INSTANCE_SIZE, OFFSETS_PER_GATE, circuit_value_spec,
    fault_reported, lemma_limb_in_field, lemma_limbs_compose, lemma_limbs_round_trip,
    lemma_store_extends, lemma_write_limbs_extends, limb_at, limb_base, offset_by, operand_spec,
    read_circuit_value, store_spec, value_ptr_spec, write_circuit_value, write_limbs_spec,
};
