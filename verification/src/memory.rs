//! The write-once segmented memory and the bookkeeping of its segments.

use crate::errors::MemoryError;
use crate::relocatable::{CellValue, MaybeRelocatable, Relocatable};
use vstd::prelude::*;

verus! {

/// One segment: a growable array of cells, each written or not.
pub type Segment = Vec<Option<MaybeRelocatable>>;

/// What a segment holds at an offset, if anything.
pub open spec fn segment_cell(segment: Seq<Option<MaybeRelocatable>>, offset: int) -> Option<
    CellValue,
> {
    if 0 <= offset < segment.len() {
        match segment[offset] {
            Some(v) => Some(v@),
            None => None,
        }
    } else {
        None
    }
}

/// The memory as a mathematical object: the written cells, and how many
/// real and temporary segments exist.
pub ghost struct MemoryView {
    pub cells: Map<Relocatable, CellValue>,
    pub segments: nat,
    pub temp_segments: nat,
}

impl MemoryView {
    /// The value at an address, if it was written.
    pub open spec fn get(self, a: Relocatable) -> Option<CellValue> {
        if self.cells.contains_key(a) {
            Some(self.cells[a])
        } else {
            None
        }
    }

    /// The address lies in a segment that exists.
    pub open spec fn allocated(self, a: Relocatable) -> bool {
        if a.segment_index >= 0 {
            a.segment_index < self.segments
        } else {
            -(a.segment_index + 1) < self.temp_segments
        }
    }

    /// The position of the segment of `a` among the segments of its kind.
    pub open spec fn segment_position(a: Relocatable) -> int {
        if a.segment_index >= 0 {
            a.segment_index as int
        } else {
            -(a.segment_index + 1)
        }
    }

    /// The number of segments of the kind that `a` lies in.
    pub open spec fn segments_like(self, a: Relocatable) -> nat {
        if a.segment_index >= 0 {
            self.segments
        } else {
            self.temp_segments
        }
    }

    /// Writing `v` at `a` respects the write-once rule.
    pub open spec fn accepts(self, a: Relocatable, v: CellValue) -> bool {
        self.allocated(a) && (self.get(a) is Some ==> self.get(a) == Some(v))
    }

    /// The memory after `v` was written at `a`.
    pub open spec fn write(self, a: Relocatable, v: CellValue) -> MemoryView {
        MemoryView { cells: self.cells.insert(a, v), ..self }
    }
}

/// `later` holds everything that `earlier` holds, in as many segments.
pub open spec fn extends(later: MemoryView, earlier: MemoryView) -> bool {
    &&& later.segments == earlier.segments
    &&& later.temp_segments == earlier.temp_segments
    &&& forall|a: Relocatable| earlier.get(a) is Some ==> later.get(a) == earlier.get(a)
}

/// The memory is write-once: a write that is accepted leaves every written
/// cell as it was.
pub proof fn lemma_write_extends(m: MemoryView, a: Relocatable, v: CellValue)
    requires
        m.accepts(a, v),
    ensures
        extends(m.write(a, v), m),
        m.write(a, v).get(a) == Some(v),
{
}

/// The memory: real segments, indexed from zero upwards, and temporary
/// segments, indexed from -1 downwards.
#[derive(Debug)]
pub struct Memory {
    pub data: Vec<Segment>,
    pub temp_data: Vec<Segment>,
}

impl View for Memory {
    type V = MemoryView;

    open spec fn view(&self) -> MemoryView {
        MemoryView {
            cells: Map::new(|a: Relocatable| self.cell(a) is Some, |a: Relocatable| self.cell(a)->0),
            segments: self.data@.len(),
            temp_segments: self.temp_data@.len(),
        }
    }
}

/// Writes into one list of segments; `Err` hands the value back with a copy
/// of what the cell holds.
fn write_cell(segments: &mut Vec<Segment>, index: usize, offset: usize, val: MaybeRelocatable) -> (r:
    Result<(), (MaybeRelocatable, MaybeRelocatable)>)
    requires
        index < old(segments)@.len(),
    ensures
        final(segments)@.len() == old(segments)@.len(),
        forall|i: int|
            0 <= i < old(segments)@.len() && i != index ==> final(segments)@[i] == old(
                segments,
            )@[i],
        ({
            let held = segment_cell(old(segments)@[index as int]@, offset as int);
            if held is Some && held != Some(val@) {
                &&& r matches Err(pair)
                &&& Some(pair.0@) == held
                &&& pair.1@ == val@
                &&& final(segments)@[index as int] == old(segments)@[index as int]
            } else {
                &&& r is Ok
                &&& forall|j: int|
                    segment_cell(final(segments)@[index as int]@, j) == if j == offset {
                        Some(val@)
                    } else {
                        segment_cell(old(segments)@[index as int]@, j)
                    }
            }
        }),
{
    let ghost before = segments@[index as int]@;
    let segment = &mut segments[index];
    if offset < segment.len() {
        match &segment[offset] {
            Some(held) => {
                if *held != val {
                    return Err((held.clone(), val));
                }
                return Ok(());
            },
            None => {},
        }
    }
    while segment.len() <= offset
        invariant
            before.len() <= segment@.len(),
            forall|j: int| 0 <= j < before.len() ==> segment@[j] == before[j],
            forall|j: int| before.len() <= j < segment@.len() ==> segment@[j] is None,
        decreases offset + 1 - segment@.len(),
    {
        segment.push(None);
    }
    segment[offset] = Some(val);
    Ok(())
}

impl Memory {
    /// What the memory holds at an address, if anything.
    pub open spec fn cell(&self, a: Relocatable) -> Option<CellValue> {
        if a.segment_index >= 0 {
            if a.segment_index < self.data@.len() {
                segment_cell(self.data@[a.segment_index as int]@, a.offset as int)
            } else {
                None
            }
        } else {
            let i = -(a.segment_index + 1);
            if i < self.temp_data@.len() {
                segment_cell(self.temp_data@[i]@, a.offset as int)
            } else {
                None
            }
        }
    }

    /// A memory without segments.
    pub fn new() -> (r: Memory)
        ensures
            r@.cells == Map::<Relocatable, CellValue>::empty(),
            r@.segments == 0,
            r@.temp_segments == 0,
    {
        let r = Memory { data: Vec::new(), temp_data: Vec::new() };
        assert(r@.cells =~= Map::<Relocatable, CellValue>::empty());
        r
    }

    /// The value at `key`, if the cell was written.
    pub fn get(&self, key: &Relocatable) -> (r: Option<&MaybeRelocatable>)
        ensures
            match r {
                Some(v) => self@.get(*key) == Some(v@),
                None => self@.get(*key) is None,
            },
    {
        if key.segment_index >= 0 {
            let i = key.segment_index as usize;
            if i < self.data.len() && key.offset < self.data[i].len() {
                match &self.data[i][key.offset] {
                    Some(v) => Some(v),
                    None => None,
                }
            } else {
                None
            }
        } else {
            let i = (-(key.segment_index + 1)) as usize;
            if i < self.temp_data.len() && key.offset < self.temp_data[i].len() {
                match &self.temp_data[i][key.offset] {
                    Some(v) => Some(v),
                    None => None,
                }
            } else {
                None
            }
        }
    }

    /// Writes `val` at `key`. A cell is written once: writing the value it
    /// already holds changes nothing, writing another is an error, and so is
    /// writing into a segment that does not exist.
    pub fn insert(&mut self, key: &Relocatable, val: MaybeRelocatable) -> (r: Result<
        (),
        MemoryError,
    >)
        ensures
            old(self)@.accepts(*key, val@) ==> r is Ok && final(self)@ == old(self)@.write(
                *key,
                val@,
            ),
            !old(self)@.accepts(*key, val@) ==> r is Err && final(self)@ == old(self)@,
            !old(self)@.allocated(*key) ==> r == Err::<(), MemoryError>(
                MemoryError::UnallocatedSegment(
                    MemoryView::segment_position(*key) as usize,
                    old(self)@.segments_like(*key) as usize,
                ),
            ),
            old(self)@.allocated(*key) && !old(self)@.accepts(*key, val@) ==> (r matches Err(
                MemoryError::InconsistentMemory(a, held, offered),
            ) && a == *key && Some(held@) == old(self)@.get(*key) && offered@ == val@),
    {
        let ghost before = *self;
        if key.segment_index >= 0 {
            let i = key.segment_index as usize;
            if i >= self.data.len() {
                return Err(MemoryError::UnallocatedSegment(i, self.data.len()));
            }
            let written = write_cell(&mut self.data, i, key.offset, val);
            proof {
                assert(self.temp_data == before.temp_data);
                if written is Ok {
                    assert forall|a: Relocatable| self.cell(a) == (if a == *key {
                        Some(val@)
                    } else {
                        before.cell(a)
                    }) by {
                        if a.segment_index >= 0 && a.segment_index < self.data@.len()
                            && a.segment_index != key.segment_index {
                            assert(self.data@[a.segment_index as int] == before.data@[a.segment_index as int]);
                        }
                    }
                    assert(self@.cells =~= before@.cells.insert(*key, val@));
                } else {
                    assert(self.data@ =~= before.data@);
                    assert(self@.cells =~= before@.cells);
                }
            }
            match written {
                Ok(()) => Ok(()),
                Err((held, offered)) => Err(MemoryError::InconsistentMemory(*key, held, offered)),
            }
        } else {
            let i = (-(key.segment_index + 1)) as usize;
            if i >= self.temp_data.len() {
                return Err(MemoryError::UnallocatedSegment(i, self.temp_data.len()));
            }
            let written = write_cell(&mut self.temp_data, i, key.offset, val);
            proof {
                assert(self.data == before.data);
                if written is Ok {
                    assert forall|a: Relocatable| self.cell(a) == (if a == *key {
                        Some(val@)
                    } else {
                        before.cell(a)
                    }) by {
                        let j = -(a.segment_index + 1);
                        if a.segment_index < 0 && j < self.temp_data@.len() && j != i {
                            assert(self.temp_data@[j] == before.temp_data@[j]);
                        }
                    }
                    assert(self@.cells =~= before@.cells.insert(*key, val@));
                } else {
                    assert(self.temp_data@ =~= before.temp_data@);
                    assert(self@.cells =~= before@.cells);
                }
            }
            match written {
                Ok(()) => Ok(()),
                Err((held, offered)) => Err(MemoryError::InconsistentMemory(*key, held, offered)),
            }
        }
    }
}

/// What is known of the segments besides their contents.
#[derive(Debug)]
pub struct MemorySegmentManager {
    /// The number of cells used in each real segment, once computed.
    pub segment_used_sizes: Option<Vec<usize>>,
}

impl MemorySegmentManager {
    pub fn new() -> (r: MemorySegmentManager)
        ensures
            r.segment_used_sizes is None,
    {
        MemorySegmentManager { segment_used_sizes: None }
    }

    /// Adds an empty real segment to `memory` and returns its first address.
    pub fn add(&mut self, memory: &mut Memory) -> (r: Relocatable)
        requires
            old(memory)@.segments < isize::MAX,
        ensures
            r == (Relocatable { segment_index: old(memory)@.segments as isize, offset: 0 }),
            final(memory)@.segments == old(memory)@.segments + 1,
            final(memory)@.temp_segments == old(memory)@.temp_segments,
            final(memory)@.cells == old(memory)@.cells,
            final(self).segment_used_sizes == old(self).segment_used_sizes,
    {
        let ghost before = *memory;
        let index = memory.data.len();
        memory.data.push(Vec::new());
        proof {
            assert forall|a: Relocatable| memory.cell(a) == before.cell(a) by {
                if a.segment_index >= 0 && a.segment_index < before.data@.len() {
                    assert(memory.data@[a.segment_index as int] == before.data@[a.segment_index as int]);
                }
            }
            assert(memory@.cells =~= before@.cells);
        }
        Relocatable { segment_index: index as isize, offset: 0 }
    }

    /// The number of cells used in the real segment `index`, once the sizes
    /// have been computed.
    pub fn get_segment_used_size(&self, index: usize) -> (r: Option<usize>)
        ensures
            r == match self.segment_used_sizes {
                Some(sizes) => if index < sizes@.len() {
                    Some(sizes@[index as int])
                } else {
                    None
                },
                None => None,
            },
    {
        match &self.segment_used_sizes {
            Some(sizes) => {
                if index < sizes.len() {
                    Some(sizes[index])
                } else {
                    None
                }
            },
            None => None,
        }
    }
}

} // verus!
