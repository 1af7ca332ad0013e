//! Addresses and memory values.
//!
//! An address names a cell by segment and offset. It stays symbolic until the
//! run is over and every segment has a size.

use vstd::prelude::*;
use crate::felt::{Felt, reduce};
use crate::vm::errors::MathError;

verus! {

/// The address of a memory cell: a segment and an offset into it. Segments of
/// negative index are temporary.
#[derive(Clone, Copy, Debug, PartialEq, Eq, Hash, Structural)]
pub struct Relocatable {
    pub segment_index: isize,
    pub offset: usize,
}

/// What a memory cell holds: a field element or an address.
#[derive(Clone, Copy, Debug, PartialEq, Eq, Hash, Structural)]
pub enum MaybeRelocatable {
    RelocatableValue(Relocatable),
    Int(Felt),
}

/// The address `delta` cells after `addr`, when `delta` may be negative.
pub open spec fn offset_by(addr: Relocatable, delta: int) -> Result<Relocatable, MathError> {
    if addr.offset + delta < 0 {
        Err(MathError::NegativeOffset)
    } else if addr.offset + delta > usize::MAX {
        Err(MathError::OffsetExceeded)
    } else {
        Ok(Relocatable { segment_index: addr.segment_index, offset: (addr.offset + delta) as usize })
    }
}

/// The address whose offset is the field sum of `addr`'s offset and `delta`.
pub open spec fn offset_by_felt(addr: Relocatable, delta: nat) -> Result<Relocatable, MathError> {
    if reduce(addr.offset + delta) > usize::MAX {
        Err(MathError::OffsetExceeded)
    } else {
        Ok(Relocatable { segment_index: addr.segment_index, offset: reduce(addr.offset + delta) as usize })
    }
}

/// The distance from `b` up to `a`, defined within one segment only.
pub open spec fn distance(a: Relocatable, b: Relocatable) -> Result<usize, MathError> {
    if a.segment_index != b.segment_index {
        Err(MathError::DifferentSegments)
    } else if a.offset < b.offset {
        Err(MathError::NegativeOffset)
    } else {
        Ok((a.offset - b.offset) as usize)
    }
}

/// The sum of two memory values: of field elements in the field, of an address
/// and a field element an address; two addresses have no sum.
pub open spec fn value_sum(a: MaybeRelocatable, b: MaybeRelocatable) -> Result<MaybeRelocatable, MathError> {
    match (a, b) {
        (MaybeRelocatable::Int(x), MaybeRelocatable::Int(y)) => Ok(MaybeRelocatable::Int(x.spec_add(y))),
        (MaybeRelocatable::RelocatableValue(r), MaybeRelocatable::Int(y)) => match offset_by_felt(r, y@) {
            Ok(s) => Ok(MaybeRelocatable::RelocatableValue(s)),
            Err(e) => Err(e),
        },
        (MaybeRelocatable::Int(x), MaybeRelocatable::RelocatableValue(r)) => match offset_by_felt(r, x@) {
            Ok(s) => Ok(MaybeRelocatable::RelocatableValue(s)),
            Err(e) => Err(e),
        },
        (MaybeRelocatable::RelocatableValue(_), MaybeRelocatable::RelocatableValue(_)) => Err(
            MathError::AddressPlusAddress,
        ),
    }
}

/// The difference of two memory values: of field elements in the field, of an
/// address and a field element an address, of two addresses of one segment
/// their distance; a field element minus an address has none.
pub open spec fn value_difference(a: MaybeRelocatable, b: MaybeRelocatable) -> Result<
    MaybeRelocatable,
    MathError,
> {
    match (a, b) {
        (MaybeRelocatable::Int(x), MaybeRelocatable::Int(y)) => Ok(MaybeRelocatable::Int(x.spec_sub(y))),
        (MaybeRelocatable::RelocatableValue(r), MaybeRelocatable::Int(y)) => match offset_by_felt(
            r,
            reduce(-(y@ as int)),
        ) {
            Ok(s) => Ok(MaybeRelocatable::RelocatableValue(s)),
            Err(e) => Err(e),
        },
        (MaybeRelocatable::RelocatableValue(r), MaybeRelocatable::RelocatableValue(s)) => match distance(r, s) {
            Ok(d) => Ok(MaybeRelocatable::Int(Felt::from_nat(d as nat))),
            Err(e) => Err(e),
        },
        (MaybeRelocatable::Int(_), MaybeRelocatable::RelocatableValue(_)) => Err(MathError::IntMinusAddress),
    }
}

impl Relocatable {
    /// The address of the cell at `offset` of a segment.
    pub fn new(segment_index: isize, offset: usize) -> (r: Relocatable)
        ensures
            r == (Relocatable { segment_index, offset }),
    {
        Relocatable { segment_index, offset }
    }

    /// The address `delta` cells further on.
    pub fn add_usize(&self, delta: usize) -> (r: Result<Relocatable, MathError>)
        ensures
            r == offset_by(*self, delta as int),
    {
        if delta > usize::MAX - self.offset {
            Err(MathError::OffsetExceeded)
        } else {
            Ok(Relocatable { segment_index: self.segment_index, offset: self.offset + delta })
        }
    }

    /// The address `delta` cells away, in either direction.
    pub fn add_i32(&self, delta: i32) -> (r: Result<Relocatable, MathError>)
        ensures
            r == offset_by(*self, delta as int),
    {
        let target: i128 = self.offset as i128 + delta as i128;
        if target < 0 {
            Err(MathError::NegativeOffset)
        } else if target > usize::MAX as i128 {
            Err(MathError::OffsetExceeded)
        } else {
            Ok(Relocatable { segment_index: self.segment_index, offset: target as usize })
        }
    }

    /// The address `delta` cells back.
    pub fn sub_usize(&self, delta: usize) -> (r: Result<Relocatable, MathError>)
        ensures
            r == offset_by(*self, -(delta as int)),
    {
        if delta > self.offset {
            Err(MathError::NegativeOffset)
        } else {
            Ok(Relocatable { segment_index: self.segment_index, offset: self.offset - delta })
        }
    }

    /// The address whose offset is this offset plus `delta`, added in the
    /// field: an element just below the prime moves the address back.
    pub fn add_felt(&self, delta: &Felt) -> (r: Result<Relocatable, MathError>)
        ensures
            r == offset_by_felt(*self, delta@),
    {
        let target = Felt::from_usize(self.offset).add(delta);
        match target.to_usize() {
            Some(offset) => Ok(Relocatable { segment_index: self.segment_index, offset }),
            None => Err(MathError::OffsetExceeded),
        }
    }

    /// The number of cells from `other` up to this address.
    pub fn sub(&self, other: &Relocatable) -> (r: Result<usize, MathError>)
        ensures
            r == distance(*self, *other),
    {
        if self.segment_index != other.segment_index {
            Err(MathError::DifferentSegments)
        } else if self.offset < other.offset {
            Err(MathError::NegativeOffset)
        } else {
            Ok(self.offset - other.offset)
        }
    }
}

impl MaybeRelocatable {
    /// The sum of two memory values.
    pub fn add(&self, other: &MaybeRelocatable) -> (r: Result<MaybeRelocatable, MathError>)
        ensures
            r == value_sum(*self, *other),
    {
        match (self, other) {
            (MaybeRelocatable::Int(x), MaybeRelocatable::Int(y)) => Ok(MaybeRelocatable::Int(x.add(y))),
            (MaybeRelocatable::RelocatableValue(r), MaybeRelocatable::Int(y)) => match r.add_felt(y) {
                Ok(s) => Ok(MaybeRelocatable::RelocatableValue(s)),
                Err(e) => Err(e),
            },
            (MaybeRelocatable::Int(x), MaybeRelocatable::RelocatableValue(r)) => match r.add_felt(x) {
                Ok(s) => Ok(MaybeRelocatable::RelocatableValue(s)),
                Err(e) => Err(e),
            },
            (MaybeRelocatable::RelocatableValue(_), MaybeRelocatable::RelocatableValue(_)) => Err(
                MathError::AddressPlusAddress,
            ),
        }
    }

    /// The difference of two memory values.
    pub fn sub(&self, other: &MaybeRelocatable) -> (r: Result<MaybeRelocatable, MathError>)
        ensures
            r == value_difference(*self, *other),
    {
        match (self, other) {
            (MaybeRelocatable::Int(x), MaybeRelocatable::Int(y)) => Ok(MaybeRelocatable::Int(x.sub(y))),
            (MaybeRelocatable::RelocatableValue(r), MaybeRelocatable::Int(y)) => {
                let back = Felt::zero().sub(y);
                match r.add_felt(&back) {
                    Ok(s) => Ok(MaybeRelocatable::RelocatableValue(s)),
                    Err(e) => Err(e),
                }
            },
            (MaybeRelocatable::RelocatableValue(r), MaybeRelocatable::RelocatableValue(s)) => match r.sub(s) {
                Ok(d) => {
                    let f = Felt::from_usize(d);
                    proof {
                        Felt::lemma_from_nat(d as nat);
                        Felt::lemma_view_injective(f, Felt::from_nat(d as nat));
                    }
                    Ok(MaybeRelocatable::Int(f))
                },
                Err(e) => Err(e),
            },
            (MaybeRelocatable::Int(_), MaybeRelocatable::RelocatableValue(_)) => Err(MathError::IntMinusAddress),
        }
    }

    /// The field element in this value, if it is one.
    pub fn get_int(&self) -> (r: Option<Felt>)
        ensures
            r == (match *self {
                MaybeRelocatable::Int(x) => Some(x),
                MaybeRelocatable::RelocatableValue(_) => None,
            }),
    {
        match self {
            MaybeRelocatable::Int(x) => Some(*x),
            MaybeRelocatable::RelocatableValue(_) => None,
        }
    }

    /// The address in this value, if it is one.
    pub fn get_relocatable(&self) -> (r: Option<Relocatable>)
        ensures
            r == (match *self {
                MaybeRelocatable::Int(_) => None,
                MaybeRelocatable::RelocatableValue(x) => Some(x),
            }),
    {
        match self {
            MaybeRelocatable::Int(_) => None,
            MaybeRelocatable::RelocatableValue(x) => Some(*x),
        }
    }
}

} // verus!
