//! Deduction and resolution core of a Cairo-style virtual machine: a
//! write-once segmented memory, symbolic reference resolution for hints,
//! builtin deduction (elliptic-curve operation, modular-arithmetic circuits)
//! and the number theory underneath, with machine-checked contracts.

pub mod bigint;
pub mod builtin_runner;
pub mod cairo_run;
pub mod circuit;
pub mod ec_op;
pub mod errors;
pub mod felt;
pub mod hint_processor_definition;
pub mod hint_processor_utils;
pub mod math_utils;
pub mod memory;
pub mod number_theory;
pub mod relocatable;
pub mod signature;
pub mod vm_core;
