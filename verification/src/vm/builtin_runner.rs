//! Builtins: co-processors that each own one segment of memory.
//!
//! A builtin lays its segment out in instances of a fixed number of cells. It
//! may know how to fill an empty cell of an instance from the cells before it,
//! and it has a rule that every value in its segment has to meet when the run
//! is over.

use vstd::prelude::*;
use crate::felt::{bitwise_and, bitwise_or, bitwise_xor, pow2_128, pow2_251, Felt};
use crate::vm::errors::RunnerError;
use crate::vm::memory::{Memory, MemoryView};
use crate::vm::memory_segments::MemorySegmentManager;
use crate::vm::relocatable::{MaybeRelocatable, Relocatable};

verus! {

/// The builtins that the machine has.
#[derive(Clone, Copy, Debug, PartialEq, Eq, Structural)]
pub enum BuiltinName {
    /// Values that the program hands out; any value is accepted.
    Output,
    /// Field elements below `2^128`.
    RangeCheck,
    /// Bitwise AND, XOR and OR of two field elements below `2^251`.
    Bitwise,
}

/// A builtin and the segment it owns. Before the segment is allocated, `base`
/// is 0.
#[derive(Clone, Copy, Debug, PartialEq, Eq, Structural)]
pub struct BuiltinRunner {
    pub name: BuiltinName,
    pub base: isize,
}

/// The number of cells of one instance of a builtin.
pub open spec fn instance_cells(name: BuiltinName) -> usize {
    match name {
        BuiltinName::Output => 1,
        BuiltinName::RangeCheck => 1,
        BuiltinName::Bitwise => 5,
    }
}

/// Whether a range-check cell may hold `value`: it has to be a field element
/// below `2^128`.
pub open spec fn in_range(value: MaybeRelocatable) -> bool {
    value matches MaybeRelocatable::Int(x) && x@ < pow2_128()
}

/// Whether every value written in the segment `base` is a field element below
/// `2^128`.
pub open spec fn range_check_holds(memory: MemoryView, base: isize) -> bool {
    forall|offset: usize| #[trigger]
        memory.written(base as int, offset) ==> in_range(memory.cells[Relocatable { segment_index: base, offset }])
}

/// Whether a builtin accepts what its segment holds.
pub open spec fn segment_accepted(builtin: BuiltinRunner, memory: MemoryView) -> bool {
    match builtin.name {
        BuiltinName::RangeCheck => range_check_holds(memory, builtin.base),
        _ => true,
    }
}

/// What the bitwise builtin puts in the cell `index` of an instance whose
/// first two cells hold `x` and `y`.
pub open spec fn bitwise_cell(x: nat, y: nat, index: int) -> nat {
    if index == 2 {
        bitwise_and(x, y)
    } else if index == 3 {
        bitwise_xor(x, y)
    } else {
        bitwise_or(x, y)
    }
}

/// The value that a builtin can give an empty cell of its segment, if it can
/// give one. Only the bitwise builtin can: the last three cells of an instance
/// follow from the first two, once both hold field elements below `2^251`.
pub open spec fn deduced_cell(builtin: BuiltinRunner, memory: MemoryView, addr: Relocatable) -> Option<
    MaybeRelocatable,
> {
    let index = addr.offset % 5;
    if builtin.name != BuiltinName::Bitwise || addr.segment_index != builtin.base || index < 2 {
        None
    } else {
        let x = memory.get(Relocatable { segment_index: addr.segment_index, offset: (addr.offset - index) as usize });
        let y = memory.get(
            Relocatable { segment_index: addr.segment_index, offset: (addr.offset - index + 1) as usize },
        );
        match (x, y) {
            (Some(MaybeRelocatable::Int(x)), Some(MaybeRelocatable::Int(y))) => if x@ < pow2_251() && y@
                < pow2_251() {
                Some(MaybeRelocatable::Int(Felt::from_nat(bitwise_cell(x@, y@, index as int))))
            } else {
                None
            },
            _ => None,
        }
    }
}

/// The value that the first builtin that owns the segment of `addr` can give
/// the cell, if one can.
pub open spec fn deduced_by(builtins: Seq<BuiltinRunner>, memory: MemoryView, addr: Relocatable) -> Option<
    MaybeRelocatable,
>
    decreases builtins.len(),
{
    if builtins.len() == 0 {
        None
    } else {
        match deduced_cell(builtins[0], memory, addr) {
            Some(value) => Some(value),
            None => deduced_by(builtins.drop_first(), memory, addr),
        }
    }
}

impl BuiltinRunner {
    /// A builtin that has no segment yet.
    pub fn new(name: BuiltinName) -> (r: BuiltinRunner)
        ensures
            r == (BuiltinRunner { name, base: 0 }),
    {
        BuiltinRunner { name, base: 0 }
    }

    /// The number of cells of one instance.
    pub fn cells_per_instance(&self) -> (r: usize)
        ensures
            r == instance_cells(self.name),
    {
        match self.name {
            BuiltinName::Output => 1,
            BuiltinName::RangeCheck => 1,
            BuiltinName::Bitwise => 5,
        }
    }

    /// Allocates the segment of the builtin.
    pub fn initialize_segments(&mut self, segments: &mut MemorySegmentManager) -> (r: Result<(), RunnerError>)
        ensures
            final(self).name == old(self).name,
            old(segments)@.num_segments < isize::MAX ==> r is Ok && final(self).base == old(segments)@.num_segments
                && final(segments)@ == (MemoryView {
                num_segments: old(segments)@.num_segments + 1,
                ..old(segments)@
            }),
            old(segments)@.num_segments >= isize::MAX ==> r == Err::<(), RunnerError>(RunnerError::TooManySegments)
                && *final(self) == *old(self) && final(segments)@ == old(segments)@,
    {
        match segments.add() {
            Some(base) => {
                self.base = base.segment_index;
                Ok(())
            },
            None => Err(RunnerError::TooManySegments),
        }
    }

    /// The address of the first cell of the builtin's segment, which the
    /// program is handed when it starts.
    pub fn initial_stack(&self) -> (r: MaybeRelocatable)
        ensures
            r == MaybeRelocatable::RelocatableValue(Relocatable { segment_index: self.base, offset: 0 }),
    {
        MaybeRelocatable::RelocatableValue(Relocatable { segment_index: self.base, offset: 0 })
    }

    /// The first cell of the builtin's segment and the cell after the last
    /// that was written.
    pub fn segment_bounds(&self, memory: &Memory) -> (r: (Relocatable, Relocatable))
        ensures
            r.0 == (Relocatable { segment_index: self.base, offset: 0 }),
            r.1 == (Relocatable {
                segment_index: self.base,
                offset: memory@.segment_size(self.base as int) as usize,
            }),
    {
        (
            Relocatable { segment_index: self.base, offset: 0 },
            Relocatable { segment_index: self.base, offset: memory.segment_used_size(self.base) },
        )
    }

    /// The value that the builtin can give the empty cell at `addr`, if it
    /// can give one.
    pub fn deduce_memory_cell(&self, addr: Relocatable, memory: &Memory) -> (r: Option<MaybeRelocatable>)
        ensures
            r == deduced_cell(*self, memory@, addr),
    {
        let index = addr.offset % 5;
        match self.name {
            BuiltinName::Bitwise => {},
            _ => { return None; },
        }
        if addr.segment_index != self.base || index < 2 {
            return None;
        }
        let x_addr = Relocatable { segment_index: addr.segment_index, offset: addr.offset - index };
        let y_addr = Relocatable { segment_index: addr.segment_index, offset: addr.offset - index + 1 };
        match (memory.get(&x_addr), memory.get(&y_addr)) {
            (Some(MaybeRelocatable::Int(x)), Some(MaybeRelocatable::Int(y))) => {
                if x.fits_251_bits() && y.fits_251_bits() {
                    let value = if index == 2 {
                        x.bitand(&y)
                    } else if index == 3 {
                        x.bitxor(&y)
                    } else {
                        x.bitor(&y)
                    };
                    proof {
                        Felt::lemma_from_nat(value@);
                        Felt::lemma_view_injective(value, Felt::from_nat(value@));
                    }
                    Some(MaybeRelocatable::Int(value))
                } else {
                    None
                }
            },
            _ => None,
        }
    }

    /// Checks the segment of the builtin when the run is over. A range-check
    /// segment is accepted exactly when every value written in it is a field
    /// element below `2^128`; the other builtins accept what they hold.
    pub fn validate_segment(&self, memory: &Memory) -> (r: Result<(), RunnerError>)
        ensures
            r is Ok <==> segment_accepted(*self, memory@),
            r is Err ==> r == Err::<(), RunnerError>(RunnerError::RangeCheckOutOfBounds),
    {
        match self.name {
            BuiltinName::RangeCheck => {},
            _ => { return Ok(()); },
        }
        let size = memory.segment_used_size(self.base);
        let mut offset: usize = 0;
        while offset < size
            invariant
                offset <= size,
                self.name == BuiltinName::RangeCheck,
                memory@.is_segment_size(self.base as int, size as nat),
                forall|o: usize|
                    o < offset && #[trigger] memory@.written(self.base as int, o) ==> in_range(
                        memory@.cells[Relocatable { segment_index: self.base, offset: o }],
                    ),
            decreases size - offset,
        {
            match memory.get(&Relocatable { segment_index: self.base, offset }) {
                Some(MaybeRelocatable::Int(x)) => {
                    if x.to_u128().is_none() {
                        assert(memory@.written(self.base as int, offset));
                        return Err(RunnerError::RangeCheckOutOfBounds);
                    }
                },
                Some(MaybeRelocatable::RelocatableValue(_)) => {
                    assert(memory@.written(self.base as int, offset));
                    return Err(RunnerError::RangeCheckOutOfBounds);
                },
                None => {},
            }
            offset += 1;
        }
        Ok(())
    }
}

} // verus!
