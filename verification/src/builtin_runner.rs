//! The catalogue of builtins, dispatched by variant.

use crate::ec_op::{
    allocated_units_spec, deduce_defined, deduce_spec, final_stack_reports, final_stack_spec,
    instances_spec, reports, used_cells_spec, EcOpBuiltinRunner,
};
use crate::errors::{MemoryError, RunnerError};
use crate::memory::Memory;
use crate::relocatable::{CellValue, MaybeRelocatable, Relocatable};
use crate::vm_core::VirtualMachine;
use vstd::prelude::*;
use vstd::std_specs::convert::FromSpecImpl;

verus! {

#[derive(Debug, Clone)]
pub enum BuiltinRunner {
    EcOp(EcOpBuiltinRunner),
}

impl From<EcOpBuiltinRunner> for BuiltinRunner {
    fn from(v: EcOpBuiltinRunner) -> (r: BuiltinRunner) {
        BuiltinRunner::EcOp(v)
    }
}

impl FromSpecImpl<EcOpBuiltinRunner> for BuiltinRunner {
    open spec fn obeys_from_spec() -> bool {
        true
    }

    open spec fn from_spec(v: EcOpBuiltinRunner) -> BuiltinRunner {
        BuiltinRunner::EcOp(v)
    }
}

impl BuiltinRunner {
    /// The index of the builtin's segment.
    pub open spec fn base_spec(&self) -> isize {
        match self {
            BuiltinRunner::EcOp(ec_op) => ec_op.base_spec(),
        }
    }

    /// The runner has its builtin's fixed layout.
    pub open spec fn wf(&self) -> bool {
        match self {
            BuiltinRunner::EcOp(ec_op) => ec_op.wf(),
        }
    }

    pub fn base(&self) -> (r: isize)
        ensures
            r == self.base_spec(),
    {
        match self {
            BuiltinRunner::EcOp(ec_op) => ec_op.base(),
        }
    }

    /// The content of the cell at `address`, where the builtin can derive it
    /// from what `memory` holds.
    pub fn deduce_memory_cell(&self, address: &Relocatable, memory: &Memory) -> (r: Result<
        Option<MaybeRelocatable>,
        RunnerError,
    >)
        requires
            self.wf(),
            match self {
                BuiltinRunner::EcOp(ec_op) => deduce_defined(
                    *address,
                    memory@,
                    ec_op.scalar_height() as nat,
                ),
            },
        ensures
            match self {
                BuiltinRunner::EcOp(ec_op) => reports(
                    r,
                    deduce_spec(*address, memory@, ec_op.scalar_height() as nat),
                ),
            },
    {
        match self {
            BuiltinRunner::EcOp(ec_op) => ec_op.deduce_memory_cell(address, memory),
        }
    }

    /// What the builtin puts on the initial stack.
    pub fn initial_stack(&self) -> (r: Vec<MaybeRelocatable>)
        ensures
            match self {
                BuiltinRunner::EcOp(ec_op) => {
                    &&& ec_op.included() ==> r@.len() == 1 && r@[0]@ == CellValue::Address(
                        Relocatable { segment_index: ec_op.base_spec(), offset: 0 },
                    )
                    &&& !ec_op.included() ==> r@.len() == 0
                },
            },
    {
        match self {
            BuiltinRunner::EcOp(ec_op) => ec_op.initial_stack(),
        }
    }

    /// Reads the builtin's stop pointer from the final stack.
    pub fn final_stack(&self, vm: &VirtualMachine, pointer: Relocatable) -> (r: Result<
        (Relocatable, usize),
        RunnerError,
    >)
        requires
            self.wf(),
        ensures
            match self {
                BuiltinRunner::EcOp(ec_op) => final_stack_reports(
                    r,
                    final_stack_spec(ec_op.included(), ec_op.base_spec(), vm, pointer),
                ),
            },
    {
        match self {
            BuiltinRunner::EcOp(ec_op) => ec_op.final_stack(vm, pointer),
        }
    }

    /// The number of cells that the machine's steps allow the builtin.
    pub fn get_allocated_memory_units(&self, vm: &VirtualMachine) -> (r: Result<usize, MemoryError>)
        requires
            self.wf(),
        ensures
            match self {
                BuiltinRunner::EcOp(ec_op) => r == allocated_units_spec(
                    vm.current_step,
                    ec_op.ratio_spec(),
                    MemoryError::ErrorCalculatingMemoryUnits,
                ),
            },
    {
        match self {
            BuiltinRunner::EcOp(ec_op) => ec_op.get_allocated_memory_units(vm),
        }
    }

    /// The number of instances that the used cells begin.
    pub fn get_used_instances(&self, vm: &VirtualMachine) -> (r: Result<usize, MemoryError>)
        requires
            self.wf(),
        ensures
            r == match used_cells_spec(self.base_spec(), vm) {
                Err(e) => Err(e),
                Ok(used) => Ok(instances_spec(used)),
            },
    {
        match self {
            BuiltinRunner::EcOp(ec_op) => ec_op.get_used_instances(vm),
        }
    }

    /// The number of cells used in the builtin's segment with the number
    /// that the machine's steps allow it.
    pub fn get_used_cells_and_allocated_size(&self, vm: &VirtualMachine) -> (r: Result<
        (usize, usize),
        MemoryError,
    >)
        requires
            self.wf(),
        ensures
            match self {
                BuiltinRunner::EcOp(ec_op) => r == if vm.current_step < ec_op.ratio_spec() {
                    Err(MemoryError::InsufficientAllocatedCells)
                } else {
                    match used_cells_spec(ec_op.base_spec(), vm) {
                        Err(e) => Err(e),
                        Ok(used) => match allocated_units_spec(
                            vm.current_step,
                            ec_op.ratio_spec(),
                            MemoryError::InsufficientAllocatedCells,
                        ) {
                            Err(e) => Err(e),
                            Ok(size) => if used > size {
                                Err(MemoryError::InsufficientAllocatedCells)
                            } else {
                                Ok((used, size))
                            },
                        },
                    }
                },
            },
    {
        match self {
            BuiltinRunner::EcOp(ec_op) => ec_op.get_used_cells_and_allocated_size(vm),
        }
    }

    /// The number of cells used in the builtin's segment.
    pub fn get_used_cells(&self, vm: &VirtualMachine) -> (r: Result<usize, MemoryError>)
        ensures
            r == used_cells_spec(self.base_spec(), vm),
    {
        match self {
            BuiltinRunner::EcOp(ec_op) => ec_op.get_used_cells(vm),
        }
    }

    /// The addresses of the cells used in the builtin's segment, in order.
    pub fn get_memory_accesses(&self, vm: &VirtualMachine) -> (r: Result<
        Vec<Relocatable>,
        MemoryError,
    >)
        ensures
            match used_cells_spec(self.base_spec(), vm) {
                Err(e) => r == Err::<Vec<Relocatable>, MemoryError>(e),
                Ok(used) => r matches Ok(cells) && cells@.len() == used && forall|i: int|
                    0 <= i < used ==> cells@[i] == (Relocatable {
                        segment_index: self.base_spec(),
                        offset: i as usize,
                    }),
            },
    {
        let base = self.base();
        let used = match self.get_used_cells(vm) {
            Ok(used) => used,
            Err(e) => { return Err(e) },
        };
        let mut cells: Vec<Relocatable> = Vec::new();
        let mut i: usize = 0;
        while i < used
            invariant
                i <= used,
                cells@.len() == i,
                forall|j: int|
                    0 <= j < i ==> cells@[j] == (Relocatable {
                        segment_index: base,
                        offset: j as usize,
                    }),
            decreases used - i,
        {
            cells.push(Relocatable { segment_index: base, offset: i });
            i = i + 1;
        }
        Ok(cells)
    }
}

} // verus!
