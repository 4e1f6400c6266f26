//! Addresses and cell values of the segmented memory.

use crate::felt::Felt;
use vstd::prelude::*;
use vstd::std_specs::convert::FromSpecImpl;

verus! {

/// A memory address: a segment and an offset into it. A negative segment
/// index names a temporary segment that has not been relocated yet.
#[derive(Debug, Clone, Copy, PartialEq, Eq, Structural)]
pub struct Relocatable {
    pub segment_index: isize,
    pub offset: usize,
}

/// What a memory cell holds: a field element or an address.
#[derive(Debug)]
pub enum MaybeRelocatable {
    RelocatableValue(Relocatable),
    Int(Felt),
}

/// The mathematical content of a cell.
pub ghost enum CellValue {
    Int(int),
    Address(Relocatable),
}

impl View for MaybeRelocatable {
    type V = CellValue;

    open spec fn view(&self) -> CellValue {
        match self {
            MaybeRelocatable::RelocatableValue(r) => CellValue::Address(*r),
            MaybeRelocatable::Int(f) => CellValue::Int(f@),
        }
    }
}

impl Clone for MaybeRelocatable {
    fn clone(&self) -> (r: Self)
        ensures
            r@ == self@,
    {
        match self {
            MaybeRelocatable::RelocatableValue(r) => MaybeRelocatable::RelocatableValue(*r),
            MaybeRelocatable::Int(f) => MaybeRelocatable::Int(f.clone()),
        }
    }
}

impl PartialEq for MaybeRelocatable {
    fn eq(&self, other: &MaybeRelocatable) -> (r: bool) {
        match (self, other) {
            (MaybeRelocatable::RelocatableValue(a), MaybeRelocatable::RelocatableValue(b)) => {
                a.segment_index == b.segment_index && a.offset == b.offset
            },
            (MaybeRelocatable::Int(a), MaybeRelocatable::Int(b)) => a == b,
            _ => false,
        }
    }
}

impl vstd::std_specs::cmp::PartialEqSpecImpl for MaybeRelocatable {
    open spec fn obeys_eq_spec() -> bool {
        true
    }

    open spec fn eq_spec(&self, other: &MaybeRelocatable) -> bool {
        self@ == other@
    }
}

impl From<(isize, usize)> for Relocatable {
    fn from(v: (isize, usize)) -> (r: Relocatable) {
        Relocatable { segment_index: v.0, offset: v.1 }
    }
}

impl FromSpecImpl<(isize, usize)> for Relocatable {
    open spec fn obeys_from_spec() -> bool {
        true
    }

    open spec fn from_spec(v: (isize, usize)) -> Relocatable {
        Relocatable { segment_index: v.0, offset: v.1 }
    }
}

impl From<(isize, usize)> for MaybeRelocatable {
    fn from(v: (isize, usize)) -> (r: MaybeRelocatable) {
        MaybeRelocatable::RelocatableValue(Relocatable { segment_index: v.0, offset: v.1 })
    }
}

impl FromSpecImpl<(isize, usize)> for MaybeRelocatable {
    open spec fn obeys_from_spec() -> bool {
        true
    }

    open spec fn from_spec(v: (isize, usize)) -> MaybeRelocatable {
        MaybeRelocatable::RelocatableValue(Relocatable { segment_index: v.0, offset: v.1 })
    }
}

impl From<Relocatable> for MaybeRelocatable {
    fn from(v: Relocatable) -> (r: MaybeRelocatable) {
        MaybeRelocatable::RelocatableValue(v)
    }
}

impl FromSpecImpl<Relocatable> for MaybeRelocatable {
    open spec fn obeys_from_spec() -> bool {
        true
    }

    open spec fn from_spec(v: Relocatable) -> MaybeRelocatable {
        MaybeRelocatable::RelocatableValue(v)
    }
}

impl From<Felt> for MaybeRelocatable {
    fn from(v: Felt) -> (r: MaybeRelocatable) {
        MaybeRelocatable::Int(v)
    }
}

impl FromSpecImpl<Felt> for MaybeRelocatable {
    open spec fn obeys_from_spec() -> bool {
        true
    }

    open spec fn from_spec(v: Felt) -> MaybeRelocatable {
        MaybeRelocatable::Int(v)
    }
}

impl Relocatable {
    /// The address `other` cells further on, unless the offset would not
    /// fit.
    pub fn add_usize(&self, other: usize) -> (r: Option<Relocatable>)
        ensures
            self.offset + other <= usize::MAX ==> r == Some(
                Relocatable { segment_index: self.segment_index, offset: (self.offset + other) as usize },
            ),
            self.offset + other > usize::MAX ==> r is None,
    {
        match self.offset.checked_add(other) {
            Some(offset) => Some(Relocatable { segment_index: self.segment_index, offset }),
            None => None,
        }
    }

    /// The address `other` cells back, unless that is before the segment's
    /// start.
    pub fn sub_usize(&self, other: usize) -> (r: Option<Relocatable>)
        ensures
            other <= self.offset ==> r == Some(
                Relocatable { segment_index: self.segment_index, offset: (self.offset - other) as usize },
            ),
            other > self.offset ==> r is None,
    {
        if other <= self.offset {
            Some(Relocatable { segment_index: self.segment_index, offset: self.offset - other })
        } else {
            None
        }
    }

    /// The address moved by a signed number of cells, unless the offset
    /// would leave the range of `usize`.
    pub fn add_i32(&self, other: i32) -> (r: Option<Relocatable>)
        ensures
            0 <= self.offset + other <= usize::MAX ==> r == Some(
                Relocatable { segment_index: self.segment_index, offset: (self.offset + other) as usize },
            ),
            !(0 <= self.offset + other <= usize::MAX) ==> r is None,
    {
        if other >= 0 {
            self.add_usize(other as usize)
        } else {
            let back: i64 = -(other as i64);
            self.sub_usize(back as usize)
        }
    }
}

impl MaybeRelocatable {
    /// The address held, if the value is one.
    pub fn get_relocatable(&self) -> (r: Option<Relocatable>)
        ensures
            r == match self@ {
                CellValue::Address(a) => Some(a),
                CellValue::Int(_) => None,
            },
    {
        match self {
            MaybeRelocatable::RelocatableValue(a) => Some(*a),
            MaybeRelocatable::Int(_) => None,
        }
    }

    /// The field element held, if the value is one.
    pub fn get_int_ref(&self) -> (r: Option<&Felt>)
        ensures
            match self@ {
                CellValue::Int(v) => r is Some && r->0@ == v,
                CellValue::Address(_) => r is None,
            },
    {
        match self {
            MaybeRelocatable::Int(f) => Some(f),
            MaybeRelocatable::RelocatableValue(_) => None,
        }
    }
}

} // verus!
