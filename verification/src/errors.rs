//! The error taxonomy: resolution, memory, arithmetic and deduction failures.

use crate::bigint::BigInt;
use crate::felt::Felt;
use crate::relocatable::{MaybeRelocatable, Relocatable};
use vstd::prelude::*;

verus! {

/// Failures of the memory itself.
#[derive(Debug, PartialEq)]
pub enum MemoryError {
    /// A write named a segment that was never added: (segment, segments).
    UnallocatedSegment(usize, usize),
    /// A second write to a cell with another value: (address, held, offered).
    InconsistentMemory(Relocatable, MaybeRelocatable, MaybeRelocatable),
    /// The operation needs a real segment and got a temporary one.
    AddressInTemporarySegment(isize),
    /// The sizes of the segments have not been computed yet.
    MissingSegmentUsedSizes,
    ErrorCalculatingMemoryUnits,
    InsufficientAllocatedCells,
    /// The cell was expected to hold an address.
    ExpectedRelocatable(Relocatable),
    /// The cell was expected to hold a field element.
    ExpectedInteger(Relocatable),
    /// The cell holds nothing.
    UnknownMemoryCell(Relocatable),
}

/// Failures of hints and of the arithmetic they rest on.
#[derive(Debug, PartialEq)]
pub enum VirtualMachineError {
    NoRegisterInReference,
    /// The reference and the hint were tracked in different groups.
    InvalidTrackingGroup(usize, usize),
    FailedToGetIds,
    NoneApTrackingData,
    BigintToUsizeFail,
    BigintToU32Fail,
    ExpectedInteger(Relocatable),
    ExpectedRelocatable(Relocatable),
    /// The offset cannot be lowered by that much: (offset, amount).
    CantSubOffset(usize, usize),
    /// The offset cannot be raised by that much: (offset, amount).
    OffsetExceeded(usize, usize),
    DividedByZero,
    SafeDivFail(Felt, Felt),
    SafeDivFailBigInt(BigInt, BigInt),
    SafeDivFailUsize(usize, usize),
    SqrtNegative(BigInt),
    /// The square root failed its own check. The check is proved to hold,
    /// so no function of this crate returns this.
    FailedToGetSqrt(BigInt),
    MissingConstant(String),
    VariableNotInScope(String),
    MemoryError(MemoryError),
}

/// Failures of builtin runners.
#[derive(Debug, PartialEq)]
pub enum RunnerError {
    ExpectedInteger(MaybeRelocatable),
    /// The cells at these two indices of an instance do not hold a curve point.
    PointNotOnCurve((usize, usize)),
    /// The field's prime could not be had. The prime is computed from its
    /// definition, so no function of this crate returns this.
    CouldntParsePrime,
    /// An addition of two points with one x coordinate was called for:
    /// (partial sum, scalar, doubled point).
    EcOpSameXCoordinate((BigInt, BigInt), BigInt, (BigInt, BigInt)),
    FinalStack,
    InvalidStopPointer(String),
    CairoPieProofMode,
    PieNStepsVsRunResourcesNStepsMismatch,
}

/// Failures of address and integer arithmetic.
#[derive(Debug, PartialEq)]
pub enum MathError {
    /// Moving this address forward leaves the machine's address width.
    RelocatableAddOffsetExceeded(Relocatable),
    /// A difference of unsigned integers would be negative.
    SubtractionUnderflow,
    DividedByZero,
}

/// Failures of the modular-arithmetic circuit hints.
#[derive(Debug, PartialEq)]
pub enum HintError {
    Memory(MemoryError),
    Math(MathError),
    /// The multiplication gate with this index has no known right operand.
    MulModGateNotReady(usize),
}

} // verus!
