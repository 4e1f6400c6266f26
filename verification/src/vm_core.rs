//! The machine state that hints and builtins see: the registers, the memory
//! and the step counter.

use crate::errors::{MemoryError, VirtualMachineError};
use crate::felt::Felt;
use crate::memory::{Memory, MemorySegmentManager};
use crate::relocatable::{CellValue, MaybeRelocatable, Relocatable};
use vstd::prelude::*;

verus! {

/// The registers. The allocation and frame pointers are offsets into the
/// execution segment.
#[derive(Debug)]
pub struct RunContext {
    pub pc: Relocatable,
    pub ap: usize,
    pub fp: usize,
}

/// The index of the execution segment, into which `ap` and `fp` point.
pub const EXECUTION_SEGMENT: isize = 1;

#[derive(Debug)]
pub struct VirtualMachine {
    pub run_context: RunContext,
    pub memory: Memory,
    pub segments: MemorySegmentManager,
    pub current_step: usize,
}

impl VirtualMachine {
    /// The allocation pointer as an address.
    pub open spec fn ap(&self) -> Relocatable {
        Relocatable { segment_index: EXECUTION_SEGMENT, offset: self.run_context.ap }
    }

    /// The frame pointer as an address.
    pub open spec fn fp(&self) -> Relocatable {
        Relocatable { segment_index: EXECUTION_SEGMENT, offset: self.run_context.fp }
    }

    /// A machine at step zero with an empty memory.
    pub fn new() -> (vm: VirtualMachine)
        ensures
            vm.run_context.ap == 0,
            vm.run_context.fp == 0,
            vm.run_context.pc == (Relocatable { segment_index: 0, offset: 0 }),
            vm.current_step == 0,
            vm.segments.segment_used_sizes is None,
            vm.memory@.segments == 0,
            vm.memory@.temp_segments == 0,
            vm.memory@.cells == Map::<Relocatable, CellValue>::empty(),
    {
        VirtualMachine {
            run_context: RunContext {
                pc: Relocatable { segment_index: 0, offset: 0 },
                ap: 0,
                fp: 0,
            },
            memory: Memory::new(),
            segments: MemorySegmentManager::new(),
            current_step: 0,
        }
    }

    pub fn get_ap(&self) -> (r: Relocatable)
        ensures
            r == self.ap(),
    {
        Relocatable { segment_index: EXECUTION_SEGMENT, offset: self.run_context.ap }
    }

    pub fn get_fp(&self) -> (r: Relocatable)
        ensures
            r == self.fp(),
    {
        Relocatable { segment_index: EXECUTION_SEGMENT, offset: self.run_context.fp }
    }

    /// A copy of the value at `key`, if the cell was written.
    pub fn get_maybe(&self, key: &Relocatable) -> (r: Option<MaybeRelocatable>)
        ensures
            match r {
                Some(v) => self.memory@.get(*key) == Some(v@),
                None => self.memory@.get(*key) is None,
            },
    {
        match self.memory.get(key) {
            Some(v) => Some(v.clone()),
            None => None,
        }
    }

    /// The field element at `key`; an error where the cell is empty or
    /// holds an address.
    pub fn get_integer(&self, key: &Relocatable) -> (r: Result<&Felt, VirtualMachineError>)
        ensures
            match self.memory@.get(*key) {
                Some(CellValue::Int(v)) => r is Ok && r->Ok_0@ == v,
                _ => r == Err::<&Felt, VirtualMachineError>(
                    VirtualMachineError::ExpectedInteger(*key),
                ),
            },
    {
        match self.memory.get(key) {
            Some(MaybeRelocatable::Int(f)) => Ok(f),
            _ => Err(VirtualMachineError::ExpectedInteger(*key)),
        }
    }

    /// The address at `key`; an error where the cell is empty or holds a
    /// field element.
    pub fn get_relocatable(&self, key: &Relocatable) -> (r: Result<Relocatable, VirtualMachineError>)
        ensures
            r == match self.memory@.get(*key) {
                Some(CellValue::Address(a)) => Ok(a),
                _ => Err(VirtualMachineError::ExpectedRelocatable(*key)),
            },
    {
        match self.memory.get(key) {
            Some(MaybeRelocatable::RelocatableValue(a)) => Ok(*a),
            _ => Err(VirtualMachineError::ExpectedRelocatable(*key)),
        }
    }

    /// Writes `val` at `key` under the memory's write-once rule.
    pub fn insert_value(&mut self, key: &Relocatable, val: MaybeRelocatable) -> (r: Result<
        (),
        VirtualMachineError,
    >)
        ensures
            final(self).run_context == old(self).run_context,
            final(self).segments == old(self).segments,
            final(self).current_step == old(self).current_step,
            old(self).memory@.accepts(*key, val@) ==> r is Ok && final(self).memory@ == old(
                self,
            ).memory@.write(*key, val@),
            !old(self).memory@.accepts(*key, val@) ==> final(self).memory@ == old(self).memory@ && (
            r matches Err(VirtualMachineError::MemoryError(e)) && memory_refusal(
                old(self).memory@,
                *key,
                val@,
                e,
            )),
    {
        match self.memory.insert(key, val) {
            Ok(()) => Ok(()),
            Err(e) => Err(VirtualMachineError::MemoryError(e)),
        }
    }
}

/// `e` is the error with which a memory `m` refuses to have `v` written at
/// `a`.
pub open spec fn memory_refusal(
    m: crate::memory::MemoryView,
    a: Relocatable,
    v: CellValue,
    e: MemoryError,
) -> bool {
    if !m.allocated(a) {
        e == MemoryError::UnallocatedSegment(
            crate::memory::MemoryView::segment_position(a) as usize,
            m.segments_like(a) as usize,
        )
    } else {
        e matches MemoryError::InconsistentMemory(at, held, offered) && at == a && Some(held@)
            == m.get(a) && offered@ == v
    }
}

} // verus!
