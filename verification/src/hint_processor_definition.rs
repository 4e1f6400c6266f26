//! How a hint names a variable: a reference relative to a register.

use crate::errors::VirtualMachineError;
use crate::felt::Felt;
use crate::signature::{Constants, SecpScope};
use crate::vm_core::VirtualMachine;
use vstd::prelude::*;

verus! {

/// The registers a reference can be relative to.
#[derive(Debug, Clone, Copy, PartialEq, Eq, Structural)]
pub enum Register {
    AP,
    FP,
}

/// Where the allocation pointer stood, within one group of instructions
/// through which its movement is known.
#[derive(Debug, Clone, Copy, PartialEq, Eq, Structural)]
pub struct ApTracking {
    pub group: usize,
    pub offset: usize,
}

impl ApTracking {
    pub fn new() -> (r: ApTracking)
        ensures
            r == (ApTracking { group: 0, offset: 0 }),
    {
        ApTracking { group: 0, offset: 0 }
    }
}

/// A hint as it is kept between compiling and executing: which hint it is,
/// with the references of its variables.
#[derive(Debug, PartialEq)]
pub enum HintData {
    DivModNPackedDivmod { a: HintReference, b: HintReference, ap_tracking: ApTracking },
    DivModNSafeDiv,
    GetPointFromX { v: HintReference, x_cube: HintReference, ap_tracking: ApTracking },
}

/// What executes the hints of a program. A program's hints are compiled
/// once, when it is loaded, and executed whenever the machine reaches them.
pub trait HintProcessor {
    /// Executes a hint that `compile_hint` has prepared.
    fn execute_hint(
        &mut self,
        vm: &mut VirtualMachine,
        exec_scopes: &mut SecpScope,
        hint_data: &HintData,
        constants: &Constants,
    ) -> Result<(), VirtualMachineError>;

    /// Prepares the hint with the given code. `reference_ids` gives the
    /// number of the reference of each variable by its name, `references`
    /// the references by their numbers.
    fn compile_hint(
        &self,
        hint_code: &str,
        ap_tracking_data: &ApTracking,
        reference_ids: &Vec<(String, usize)>,
        references: &Vec<(usize, HintReference)>,
    ) -> Result<HintData, VirtualMachineError>;
}

/// One of the two offsets of a reference.
#[derive(Debug, PartialEq)]
pub enum OffsetValue {
    /// A constant that stands for the variable itself.
    Immediate(Felt),
    /// A constant number of cells.
    Value(i32),
    /// A register, an offset from it, and whether the cell there is to be
    /// read.
    Reference(Register, i32, bool),
}

/// The description of a hint variable.
#[derive(Debug, PartialEq)]
pub struct HintReference {
    pub offset1: OffsetValue,
    pub offset2: OffsetValue,
    pub dereference: bool,
    pub ap_tracking_data: Option<ApTracking>,
    pub cairo_type: Option<String>,
}

impl HintReference {
    /// The variable in the cell `offset1` cells from the frame pointer.
    pub fn new_simple(offset1: i32) -> (r: HintReference)
        ensures
            r.offset1 == OffsetValue::Reference(Register::FP, offset1, false),
            r.offset2 == OffsetValue::Value(0),
            r.dereference,
            r.ap_tracking_data is None,
            r.cairo_type is None,
    {
        HintReference {
            offset1: OffsetValue::Reference(Register::FP, offset1, false),
            offset2: OffsetValue::Value(0),
            ap_tracking_data: None,
            dereference: true,
            cairo_type: None,
        }
    }

    /// A reference relative to the frame pointer with both offsets given.
    pub fn new(offset1: i32, offset2: i32, inner_dereference: bool, dereference: bool) -> (r:
        HintReference)
        ensures
            r.offset1 == OffsetValue::Reference(Register::FP, offset1, inner_dereference),
            r.offset2 == OffsetValue::Value(offset2),
            r.dereference == dereference,
            r.ap_tracking_data is None,
            r.cairo_type is None,
    {
        HintReference {
            offset1: OffsetValue::Reference(Register::FP, offset1, inner_dereference),
            offset2: OffsetValue::Value(offset2),
            ap_tracking_data: None,
            dereference,
            cairo_type: None,
        }
    }
}

} // verus!
