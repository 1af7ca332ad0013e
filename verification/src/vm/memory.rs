//! Segmented, write-once memory.
//!
//! The memory is a list of segments, each a list of cells that grows on
//! demand. A cell is empty until it is written, and from then on holds that
//! value for good. The model of a memory is a map from addresses to values
//! together with the number of segments allocated.

use vstd::prelude::*;
use crate::felt::Felt;
use crate::vm::errors::{MathError, MemoryError};
use crate::vm::relocatable::{offset_by, MaybeRelocatable, Relocatable};

verus! {

/// The model of a memory: which cells hold what, how many segments there are
/// of each kind, and where the temporary segments that have a host belong.
/// Temporary segment -1 has number 0, -2 has number 1, and so on.
pub struct MemoryView {
    pub cells: Map<Relocatable, MaybeRelocatable>,
    pub num_segments: nat,
    pub num_temp_segments: nat,
    pub relocation_rules: Map<int, Relocatable>,
}

/// The number of a temporary segment, counted from 0.
pub open spec fn temp_number(segment_index: isize) -> int {
    -(segment_index + 1)
}

impl MemoryView {
    /// A memory of `num_segments` segments that holds nothing.
    pub open spec fn empty(num_segments: nat) -> MemoryView {
        MemoryView { cells: Map::empty(), num_segments, num_temp_segments: 0, relocation_rules: Map::empty() }
    }

    /// Whether a segment of this index has been allocated. Temporary segments
    /// count down from -1.
    pub open spec fn allocated(self, segment_index: int) -> bool {
        -(self.num_temp_segments as int) <= segment_index < self.num_segments
    }

    /// What a read of `addr` finds.
    pub open spec fn get(self, addr: Relocatable) -> Option<MaybeRelocatable> {
        if self.cells.contains_key(addr) {
            Some(self.cells[addr])
        } else {
            None
        }
    }

    /// What a write of `value` to `addr` does: it fills an empty cell, leaves
    /// a cell that holds `value` as it is, and is refused on a cell that holds
    /// anything else.
    pub open spec fn insert(self, addr: Relocatable, value: MaybeRelocatable) -> Result<MemoryView, MemoryError> {
        if !self.allocated(addr.segment_index as int) {
            Err(MemoryError::UnallocatedSegment)
        } else if self.cells.contains_key(addr) {
            if self.cells[addr] == value {
                Ok(self)
            } else {
                Err(MemoryError::InconsistentMemory)
            }
        } else if addr.offset == usize::MAX {
            Err(MemoryError::OffsetOutOfRange)
        } else {
            Ok(MemoryView { cells: self.cells.insert(addr, value), ..self })
        }
    }

    /// Whether this memory holds everything that `earlier` held, in the same
    /// cells.
    pub open spec fn extends(self, earlier: MemoryView) -> bool {
        forall|addr: Relocatable| #[trigger] earlier.get(addr) is Some ==> self.get(addr) == earlier.get(addr)
    }

    /// Whether the cell at `offset` of a segment holds a value. A segment
    /// whose index no address can name holds none.
    pub open spec fn written(self, segment_index: int, offset: usize) -> bool {
        &&& isize::MIN <= segment_index <= isize::MAX
        &&& self.cells.contains_key(Relocatable { segment_index: segment_index as isize, offset })
    }

    /// Whether `size` is the size of a segment: one more than the highest
    /// offset written in it, zero if nothing was.
    pub open spec fn is_segment_size(self, segment_index: int, size: nat) -> bool {
        &&& size > 0 ==> self.written(segment_index, (size - 1) as usize)
        &&& size <= usize::MAX
        &&& forall|offset: usize| #[trigger] self.written(segment_index, offset) ==> offset < size
    }

    /// The size of a segment.
    pub open spec fn segment_size(self, segment_index: int) -> nat {
        choose|size: nat| self.is_segment_size(segment_index, size)
    }

    /// A segment has one size.
    pub proof fn lemma_segment_size(self, segment_index: int, size: nat)
        requires
            self.is_segment_size(segment_index, size),
        ensures
            self.segment_size(segment_index) == size,
    {
        let other = self.segment_size(segment_index);
        assert(self.is_segment_size(segment_index, other));
        if other < size {
            assert(self.written(segment_index, (size - 1) as usize));
        }
        if size < other {
            assert(self.written(segment_index, (other - 1) as usize));
        }
    }

    /// What reading the cell `i` places after `addr` gives.
    pub open spec fn read_at(self, addr: Relocatable, i: int) -> Result<MaybeRelocatable, MemoryError> {
        if addr.offset + i > usize::MAX {
            Err(MemoryError::Math(MathError::OffsetExceeded))
        } else {
            match self.get(Relocatable { segment_index: addr.segment_index, offset: (addr.offset + i) as usize }) {
                Some(value) => Ok(value),
                None => Err(MemoryError::UnknownMemoryCell),
            }
        }
    }

    /// What reading a field element from the cell `i` places after `addr`
    /// gives.
    pub open spec fn read_integer_at(self, addr: Relocatable, i: int) -> Result<Felt, MemoryError> {
        match self.read_at(addr, i) {
            Ok(MaybeRelocatable::Int(value)) => Ok(value),
            Ok(MaybeRelocatable::RelocatableValue(_)) => Err(MemoryError::ExpectedInteger),
            Err(e) => Err(e),
        }
    }

    /// What reading `size` cells in a row from `addr` gives: their values, or
    /// the error of the first cell that cannot be read.
    pub open spec fn read_range(self, addr: Relocatable, size: nat) -> Result<Seq<MaybeRelocatable>, MemoryError>
        decreases size,
    {
        if size == 0 {
            Ok(Seq::empty())
        } else {
            match self.read_range(addr, (size - 1) as nat) {
                Ok(values) => match self.read_at(addr, size - 1) {
                    Ok(value) => Ok(values.push(value)),
                    Err(e) => Err(e),
                },
                Err(e) => Err(e),
            }
        }
    }

    /// What reading `size` field elements in a row from `addr` gives: their
    /// values, or the error of the first cell that holds none.
    pub open spec fn read_integers(self, addr: Relocatable, size: nat) -> Result<Seq<Felt>, MemoryError>
        decreases size,
    {
        if size == 0 {
            Ok(Seq::empty())
        } else {
            match self.read_integers(addr, (size - 1) as nat) {
                Ok(values) => match self.read_integer_at(addr, size - 1) {
                    Ok(value) => Ok(values.push(value)),
                    Err(e) => Err(e),
                },
                Err(e) => Err(e),
            }
        }
    }

    /// The memory after the first `n` of `values` have been written one by one
    /// from `start` on, and the error that stopped the writing, if one did.
    /// The cells written before an error stay written.
    pub open spec fn write_range(self, start: Relocatable, values: Seq<MaybeRelocatable>, n: nat) -> (
        MemoryView,
        Option<MemoryError>,
    )
        decreases n,
    {
        if n == 0 {
            (self, None)
        } else {
            let before = self.write_range(start, values, (n - 1) as nat);
            if before.1 is Some {
                before
            } else {
                match offset_by(start, n - 1) {
                    Ok(addr) => match before.0.insert(addr, values[n - 1]) {
                        Ok(after) => (after, None),
                        Err(e) => (before.0, Some(e)),
                    },
                    Err(e) => (before.0, Some(MemoryError::Math(e))),
                }
            }
        }
    }

    /// Once a write has failed, nothing more is written.
    pub proof fn lemma_write_range_error(
        memory: MemoryView,
        start: Relocatable,
        values: Seq<MaybeRelocatable>,
        failed: nat,
        n: nat,
    )
        requires
            failed <= n,
            memory.write_range(start, values, failed).1 is Some,
        ensures
            memory.write_range(start, values, n) == memory.write_range(start, values, failed),
        decreases n,
    {
        if failed < n {
            MemoryView::lemma_write_range_error(memory, start, values, failed, (n - 1) as nat);
        }
    }

    /// What reading an address from the cell at `addr` gives.
    pub open spec fn read_relocatable(self, addr: Relocatable) -> Result<Relocatable, MemoryError> {
        match self.get(addr) {
            Some(MaybeRelocatable::RelocatableValue(value)) => Ok(value),
            Some(MaybeRelocatable::Int(_)) => Err(MemoryError::ExpectedRelocatable),
            None => Err(MemoryError::UnknownMemoryCell),
        }
    }

    /// The memory after the temporary segment that starts at `src` has been
    /// given the host `dst`: its cells are to go where `dst` is, one after the
    /// other.
    pub open spec fn with_rule(self, src: Relocatable, dst: Relocatable) -> Result<MemoryView, MemoryError> {
        if src.segment_index >= 0 {
            Err(MemoryError::AddressNotInTemporarySegment)
        } else if src.offset != 0 {
            Err(MemoryError::NonZeroOffset)
        } else if dst.segment_index < 0 {
            Err(MemoryError::AddressInTemporarySegment)
        } else if temp_number(src.segment_index) >= self.num_temp_segments {
            Err(MemoryError::UnallocatedSegment)
        } else if self.relocation_rules.contains_key(temp_number(src.segment_index)) {
            Err(MemoryError::DuplicatedRelocation)
        } else {
            Ok(
                MemoryView {
                    relocation_rules: self.relocation_rules.insert(temp_number(src.segment_index), dst),
                    ..self
                },
            )
        }
    }

    /// Where an address belongs once temporary segments are with their
    /// hosts: an address in a temporary segment moves into the host, any other
    /// stays.
    pub open spec fn resolved_address(self, addr: Relocatable) -> Result<Relocatable, MemoryError> {
        if addr.segment_index >= 0 {
            Ok(addr)
        } else if self.relocation_rules.contains_key(temp_number(addr.segment_index)) {
            match offset_by(self.relocation_rules[temp_number(addr.segment_index)], addr.offset as int) {
                Ok(host) => Ok(host),
                Err(e) => Err(MemoryError::Math(e)),
            }
        } else {
            Err(MemoryError::UnresolvedTemporarySegment)
        }
    }

    /// A value once temporary segments are with their hosts.
    pub open spec fn resolved_value(self, value: MaybeRelocatable) -> Result<MaybeRelocatable, MemoryError> {
        match value {
            MaybeRelocatable::Int(_) => Ok(value),
            MaybeRelocatable::RelocatableValue(addr) => match self.resolved_address(addr) {
                Ok(host) => Ok(MaybeRelocatable::RelocatableValue(host)),
                Err(e) => Err(e),
            },
        }
    }

    /// `target` after the first `n` cells of a segment of this memory have
    /// been written to it, each where it belongs.
    pub open spec fn merge_segment(self, target: MemoryView, segment_index: isize, n: nat) -> Result<
        MemoryView,
        MemoryError,
    >
        decreases n,
    {
        if n == 0 {
            Ok(target)
        } else {
            let addr = Relocatable { segment_index, offset: (n - 1) as usize };
            match self.merge_segment(target, segment_index, (n - 1) as nat) {
                Err(e) => Err(e),
                Ok(before) => match self.get(addr) {
                    None => Ok(before),
                    Some(value) => match (self.resolved_address(addr), self.resolved_value(value)) {
                        (Err(e), _) => Err(e),
                        (Ok(_), Err(e)) => Err(e),
                        (Ok(host), Ok(value)) => before.insert(host, value),
                    },
                },
            }
        }
    }

    /// The index of segment number `i` of one kind.
    pub open spec fn index_of(temporary: bool, i: int) -> int {
        if temporary {
            -(i + 1)
        } else {
            i
        }
    }

    /// `target` after the first `n` segments of one kind have been written
    /// to it.
    pub open spec fn merge_segments(self, target: MemoryView, temporary: bool, n: nat) -> Result<
        MemoryView,
        MemoryError,
    >
        decreases n,
    {
        if n == 0 {
            Ok(target)
        } else {
            let index = MemoryView::index_of(temporary, n - 1);
            match self.merge_segments(target, temporary, (n - 1) as nat) {
                Err(e) => Err(e),
                Ok(before) => self.merge_segment(before, index as isize, self.segment_size(index)),
            }
        }
    }

    /// The memory with every temporary segment merged into its host: each
    /// cell is written where it belongs, first those of the segments that are
    /// not temporary, then those of the temporary ones, under the write-once
    /// rule. The result has no temporary segments. There is none if a cell or
    /// an address that a cell holds is in a temporary segment without a host,
    /// or if two cells come to lie on one another with different values.
    pub open spec fn merged(self) -> Result<MemoryView, MemoryError> {
        match self.merge_segments(MemoryView::empty(self.num_segments), false, self.num_segments) {
            Err(e) => Err(e),
            Ok(target) => self.merge_segments(target, true, self.num_temp_segments),
        }
    }

    /// Once a cell cannot be merged, the segment cannot.
    pub proof fn lemma_merge_segment_error(self, target: MemoryView, segment_index: isize, failed: nat, n: nat)
        requires
            failed <= n,
            self.merge_segment(target, segment_index, failed) is Err,
        ensures
            self.merge_segment(target, segment_index, n) == self.merge_segment(target, segment_index, failed),
        decreases n,
    {
        if failed < n {
            self.lemma_merge_segment_error(target, segment_index, failed, (n - 1) as nat);
        }
    }

    /// Once a segment cannot be merged, the segments cannot.
    pub proof fn lemma_merge_segments_error(self, target: MemoryView, temporary: bool, failed: nat, n: nat)
        requires
            failed <= n,
            self.merge_segments(target, temporary, failed) is Err,
        ensures
            self.merge_segments(target, temporary, n) == self.merge_segments(target, temporary, failed),
        decreases n,
    {
        if failed < n {
            self.lemma_merge_segments_error(target, temporary, failed, (n - 1) as nat);
        }
    }

    /// A write keeps what was written before.
    pub proof fn lemma_insert_keeps(self, addr: Relocatable, value: MaybeRelocatable, other: Relocatable)
        requires
            self.insert(addr, value) is Ok,
            self.get(other) is Some,
        ensures
            self.insert(addr, value)->Ok_0.get(other) == self.get(other),
    {
    }

    /// Merging a segment keeps what the target held.
    pub proof fn lemma_merge_segment_keeps(
        self,
        target: MemoryView,
        segment_index: isize,
        n: nat,
        other: Relocatable,
    )
        requires
            self.merge_segment(target, segment_index, n) is Ok,
            target.get(other) is Some,
        ensures
            self.merge_segment(target, segment_index, n)->Ok_0.get(other) == target.get(other),
            self.merge_segment(target, segment_index, n)->Ok_0.num_segments == target.num_segments,
            self.merge_segment(target, segment_index, n)->Ok_0.num_temp_segments == target.num_temp_segments,
        decreases n,
    {
        if n > 0 {
            self.lemma_merge_segment_keeps(target, segment_index, (n - 1) as nat, other);
        }
    }

    /// Merging segments keeps what the target held.
    pub proof fn lemma_merge_segments_keeps(self, target: MemoryView, temporary: bool, n: nat, other: Relocatable)
        requires
            self.merge_segments(target, temporary, n) is Ok,
            target.get(other) is Some,
        ensures
            self.merge_segments(target, temporary, n)->Ok_0.get(other) == target.get(other),
        decreases n,
    {
        if n > 0 {
            let index = MemoryView::index_of(temporary, n - 1);
            self.lemma_merge_segments_keeps(target, temporary, (n - 1) as nat, other);
            self.lemma_merge_segment_keeps(
                self.merge_segments(target, temporary, (n - 1) as nat)->Ok_0,
                index as isize,
                self.segment_size(index),
                other,
            );
        }
    }

    /// A segment that has been merged has each of its cells where the cell
    /// belongs.
    pub proof fn lemma_merge_segment_has(self, target: MemoryView, segment_index: isize, n: nat, offset: usize)
        requires
            self.merge_segment(target, segment_index, n) is Ok,
            offset < n,
            self.cells.contains_key(Relocatable { segment_index, offset }),
        ensures
            self.resolved_address(Relocatable { segment_index, offset }) is Ok,
            self.resolved_value(self.cells[Relocatable { segment_index, offset }]) is Ok,
            self.merge_segment(target, segment_index, n)->Ok_0.get(
                self.resolved_address(Relocatable { segment_index, offset })->Ok_0,
            ) == Some(self.resolved_value(self.cells[Relocatable { segment_index, offset }])->Ok_0),
        decreases n,
    {
        if offset < n - 1 {
            self.lemma_merge_segment_has(target, segment_index, (n - 1) as nat, offset);
            let before = self.merge_segment(target, segment_index, (n - 1) as nat)->Ok_0;
            let addr = Relocatable { segment_index, offset: (n - 1) as usize };
            if self.get(addr) is Some {
                before.lemma_insert_keeps(
                    self.resolved_address(addr)->Ok_0,
                    self.resolved_value(self.get(addr)->0)->Ok_0,
                    self.resolved_address(Relocatable { segment_index, offset })->Ok_0,
                );
            }
        }
    }

    /// Segments that have been merged have each of their cells where the
    /// cell belongs.
    pub proof fn lemma_merge_segments_has(self, target: MemoryView, temporary: bool, n: nat, number: int, offset: usize)
        requires
            self.merge_segments(target, temporary, n) is Ok,
            0 <= number < n,
            isize::MIN <= MemoryView::index_of(temporary, number) <= isize::MAX,
            offset < self.segment_size(MemoryView::index_of(temporary, number)),
            self.cells.contains_key(
                Relocatable { segment_index: MemoryView::index_of(temporary, number) as isize, offset },
            ),
        ensures
            ({
                let addr = Relocatable { segment_index: MemoryView::index_of(temporary, number) as isize, offset };
                &&& self.resolved_address(addr) is Ok
                &&& self.resolved_value(self.cells[addr]) is Ok
                &&& self.merge_segments(target, temporary, n)->Ok_0.get(self.resolved_address(addr)->Ok_0) == Some(
                    self.resolved_value(self.cells[addr])->Ok_0,
                )
            }),
        decreases n,
    {
        let addr = Relocatable { segment_index: MemoryView::index_of(temporary, number) as isize, offset };
        let index = MemoryView::index_of(temporary, n - 1);
        let before = self.merge_segments(target, temporary, (n - 1) as nat)->Ok_0;
        if number < n - 1 {
            self.lemma_merge_segments_has(target, temporary, (n - 1) as nat, number, offset);
            self.lemma_merge_segment_keeps(
                before,
                index as isize,
                self.segment_size(index),
                self.resolved_address(addr)->Ok_0,
            );
        } else {
            self.lemma_merge_segment_has(before, index as isize, self.segment_size(index), offset);
        }
    }

    /// Merging loses no cell: in the merged memory, the place where a cell
    /// belongs holds what the cell held with the addresses in it resolved.
    /// This holds of every cell of an allocated segment below the size of
    /// the segment.
    pub proof fn lemma_merged_keeps_cells(self, addr: Relocatable)
        requires
            self.merged() is Ok,
            self.cells.contains_key(addr),
            self.allocated(addr.segment_index as int),
            addr.offset < self.segment_size(addr.segment_index as int),
        ensures
            self.resolved_address(addr) is Ok,
            self.resolved_value(self.cells[addr]) is Ok,
            self.merged()->Ok_0.get(self.resolved_address(addr)->Ok_0) == Some(
                self.resolved_value(self.cells[addr])->Ok_0,
            ),
    {
        let start = MemoryView::empty(self.num_segments);
        let lasting = self.merge_segments(start, false, self.num_segments)->Ok_0;
        if addr.segment_index >= 0 {
            self.lemma_merge_segments_has(start, false, self.num_segments, addr.segment_index as int, addr.offset);
            self.lemma_merge_segments_keeps(lasting, true, self.num_temp_segments, self.resolved_address(addr)->Ok_0);
        } else {
            self.lemma_merge_segments_has(
                lasting,
                true,
                self.num_temp_segments,
                temp_number(addr.segment_index),
                addr.offset,
            );
        }
    }
}

/// The write-once law: once a write of `first` to `addr` has succeeded, writing
/// `first` there again succeeds and changes nothing, and writing any other
/// value there is refused as inconsistent.
pub proof fn lemma_write_once(memory: MemoryView, addr: Relocatable, first: MaybeRelocatable, second: MaybeRelocatable)
    requires
        memory.insert(addr, first) is Ok,
    ensures
        memory.insert(addr, first)->Ok_0.insert(addr, first) == Ok::<MemoryView, MemoryError>(
            memory.insert(addr, first)->Ok_0,
        ),
        second != first ==> memory.insert(addr, first)->Ok_0.insert(addr, second) == Err::<MemoryView, MemoryError>(
            MemoryError::InconsistentMemory,
        ),
        memory.insert(addr, first)->Ok_0.get(addr) == Some(first),
{
}

/// Writing never changes a cell that holds a value: the memory after any run
/// of writes, whether all of them succeed or not, extends the memory before.
pub proof fn lemma_write_range_extends(memory: MemoryView, start: Relocatable, values: Seq<MaybeRelocatable>, n: nat)
    ensures
        memory.write_range(start, values, n).0.extends(memory),
    decreases n,
{
    if n > 0 {
        lemma_write_range_extends(memory, start, values, (n - 1) as nat);
    }
}

/// A write changes no cell but its own.
pub proof fn lemma_write_frame(memory: MemoryView, addr: Relocatable, value: MaybeRelocatable, other: Relocatable)
    requires
        memory.insert(addr, value) is Ok,
        other != addr,
    ensures
        memory.insert(addr, value)->Ok_0.get(other) == memory.get(other),
{
}

/// Once a read of cells in a row has failed, reading further cells fails in
/// the same way.
pub proof fn lemma_read_range_error(memory: MemoryView, addr: Relocatable, failed: nat, size: nat)
    requires
        failed <= size,
        memory.read_range(addr, failed) is Err,
    ensures
        memory.read_range(addr, size) == memory.read_range(addr, failed),
    decreases size,
{
    if failed < size {
        lemma_read_range_error(memory, addr, failed, (size - 1) as nat);
    }
}

/// Once a read of field elements in a row has failed, reading further cells
/// fails in the same way.
pub proof fn lemma_read_integers_error(memory: MemoryView, addr: Relocatable, failed: nat, size: nat)
    requires
        failed <= size,
        memory.read_integers(addr, failed) is Err,
    ensures
        memory.read_integers(addr, size) == memory.read_integers(addr, failed),
    decreases size,
{
    if failed < size {
        lemma_read_integers_error(memory, addr, failed, (size - 1) as nat);
    }
}

/// A read of `size` field elements that succeeds gives `size` of them.
pub proof fn lemma_read_integers_len(memory: MemoryView, addr: Relocatable, size: nat)
    ensures
        memory.read_integers(addr, size) matches Ok(values) ==> values.len() == size,
    decreases size,
{
    if size > 0 {
        lemma_read_integers_len(memory, addr, (size - 1) as nat);
    }
}

/// A segment after a write of `value` at `offset`: the cell is filled, and a
/// segment that was too short has grown by empty cells up to it.
pub open spec fn segment_insert(
    segment: Seq<Option<MaybeRelocatable>>,
    offset: usize,
    value: MaybeRelocatable,
) -> Result<Seq<Option<MaybeRelocatable>>, MemoryError> {
    if offset < segment.len() {
        match segment[offset as int] {
            Some(current) => if current == value {
                Ok(segment)
            } else {
                Err(MemoryError::InconsistentMemory)
            },
            None => Ok(segment.update(offset as int, Some(value))),
        }
    } else if offset == usize::MAX {
        Err(MemoryError::OffsetOutOfRange)
    } else {
        Ok(segment + Seq::new((offset - segment.len()) as nat, |i: int| None) + seq![Some(value)])
    }
}

/// The cell at `offset` of a segment, empty past its end.
pub open spec fn segment_cell(segment: Seq<Option<MaybeRelocatable>>, offset: int) -> Option<MaybeRelocatable> {
    if 0 <= offset < segment.len() {
        segment[offset]
    } else {
        None
    }
}

/// The memory of one run.
pub struct Memory {
    data: Vec<Vec<Option<MaybeRelocatable>>>,
    temp_data: Vec<Vec<Option<MaybeRelocatable>>>,
    relocation_rules: Vec<Option<Relocatable>>,
}

impl Memory {
    /// The segment that an index names, if it is allocated.
    closed spec fn segment(&self, segment_index: int) -> Option<Seq<Option<MaybeRelocatable>>> {
        if 0 <= segment_index < self.data@.len() {
            Some(self.data@[segment_index]@)
        } else if -(self.temp_data@.len() as int) <= segment_index < 0 {
            Some(self.temp_data@[-(segment_index + 1)]@)
        } else {
            None
        }
    }

    closed spec fn cell(&self, addr: Relocatable) -> Option<MaybeRelocatable> {
        match self.segment(addr.segment_index as int) {
            Some(segment) => segment_cell(segment, addr.offset as int),
            None => None,
        }
    }
}

impl View for Memory {
    type V = MemoryView;

    closed spec fn view(&self) -> MemoryView {
        MemoryView {
            cells: Map::new(|addr: Relocatable| self.cell(addr) is Some, |addr: Relocatable| self.cell(addr)->0),
            num_segments: self.data@.len(),
            num_temp_segments: self.temp_data@.len(),
            relocation_rules: rules_map(self.relocation_rules@),
        }
    }
}

/// The hosts that a list of rules gives: rule `i` is that of temporary segment
/// number `i`.
pub open spec fn rules_map(rules: Seq<Option<Relocatable>>) -> Map<int, Relocatable> {
    Map::new(|i: int| 0 <= i < rules.len() && rules[i] is Some, |i: int| rules[i]->0)
}

impl Memory {
    /// A memory without segments.
    pub fn new() -> (r: Memory)
        ensures
            r@ == MemoryView::empty(0),
    {
        let r = Memory { data: Vec::new(), temp_data: Vec::new(), relocation_rules: Vec::new() };
        assert(r@.cells =~= Map::<Relocatable, MaybeRelocatable>::empty());
        assert(r@.relocation_rules =~= Map::<int, Relocatable>::empty());
        r
    }

    /// What the cell at `key` holds.
    pub fn get(&self, key: &Relocatable) -> (r: Option<MaybeRelocatable>)
        ensures
            r == self@.get(*key),
    {
        if key.segment_index >= 0 {
            let index = key.segment_index as usize;
            if index < self.data.len() && key.offset < self.data[index].len() {
                self.data[index][key.offset]
            } else {
                None
            }
        } else {
            let index = (-(key.segment_index + 1)) as usize;
            if index < self.temp_data.len() && key.offset < self.temp_data[index].len() {
                self.temp_data[index][key.offset]
            } else {
                None
            }
        }
    }

    /// Writes `val` to the cell at `key`. Writing to an empty cell fills it,
    /// writing again what a cell holds changes nothing, and writing anything
    /// else to it is an error that leaves the memory as it was.
    pub fn insert(&mut self, key: Relocatable, val: MaybeRelocatable) -> (r: Result<(), MemoryError>)
        ensures
            match old(self)@.insert(key, val) {
                Ok(m) => r is Ok && final(self)@ == m,
                Err(e) => r == Err::<(), MemoryError>(e) && final(self)@ == old(self)@,
            },
    {
        let ghost before = *self;
        if key.segment_index >= 0 {
            let index = key.segment_index as usize;
            if index >= self.data.len() {
                return Err(MemoryError::UnallocatedSegment);
            }
            let r = write_cell(&mut self.data[index], key.offset, val);
            proof {
                assert(self.temp_data == before.temp_data);
                assert(self.data@.len() == before.data@.len());
                assert(forall|i: int| 0 <= i < self.data@.len() && i != index ==> self.data@[i] == before.data@[i]);
                assert(before.segment(key.segment_index as int) == Some(before.data@[index as int]@));
                assert(before.data@[index as int].len() <= usize::MAX);
                assert(self.segment(key.segment_index as int) == Some(self.data@[index as int]@));
                lemma_insert_view(before, *self, key, val);
            }
            r
        } else {
            let index = (-(key.segment_index + 1)) as usize;
            if index >= self.temp_data.len() {
                return Err(MemoryError::UnallocatedSegment);
            }
            let r = write_cell(&mut self.temp_data[index], key.offset, val);
            proof {
                assert(self.data == before.data);
                assert(self.temp_data@.len() == before.temp_data@.len());
                assert(forall|i: int|
                    0 <= i < self.temp_data@.len() && i != index ==> self.temp_data@[i] == before.temp_data@[i]);
                assert(before.segment(key.segment_index as int) == Some(before.temp_data@[index as int]@));
                assert(before.temp_data@[index as int].len() <= usize::MAX);
                assert(self.segment(key.segment_index as int) == Some(self.temp_data@[index as int]@));
                lemma_insert_view(before, *self, key, val);
            }
            r
        }
    }

    /// The number of segments that are not temporary.
    pub fn num_segments(&self) -> (r: usize)
        ensures
            r == self@.num_segments,
    {
        self.data.len()
    }

    /// The number of temporary segments.
    pub fn num_temp_segments(&self) -> (r: usize)
        ensures
            r == self@.num_temp_segments,
    {
        self.temp_data.len()
    }

    /// Allocates a segment and returns the address of its first cell. The
    /// index of a segment has to fit in an `isize`; no segment is allocated
    /// past that.
    pub fn add_segment(&mut self) -> (r: Option<Relocatable>)
        ensures
            old(self)@.num_segments < isize::MAX ==> r == Some(
                Relocatable { segment_index: old(self)@.num_segments as isize, offset: 0 },
            ) && final(self)@ == (MemoryView { num_segments: old(self)@.num_segments + 1, ..old(self)@ }),
            old(self)@.num_segments >= isize::MAX ==> r is None && final(self)@ == old(self)@,
    {
        let index = self.data.len();
        if index >= isize::MAX as usize {
            return None;
        }
        let ghost before = *self;
        self.data.push(Vec::new());
        proof {
            assert forall|addr: Relocatable| #[trigger] self.cell(addr) == before.cell(addr) by {
                if 0 <= addr.segment_index < index {
                    assert(self.data@[addr.segment_index as int] == before.data@[addr.segment_index as int]);
                }
            }
            assert(self@.cells =~= before@.cells);
        }
        Some(Relocatable { segment_index: index as isize, offset: 0 })
    }

    /// Allocates a temporary segment and returns the address of its first
    /// cell. Temporary segments are numbered -1, -2 and so on.
    pub fn add_temporary_segment(&mut self) -> (r: Option<Relocatable>)
        ensures
            old(self)@.num_temp_segments < isize::MAX ==> r == Some(
                Relocatable { segment_index: (-(old(self)@.num_temp_segments + 1)) as isize, offset: 0 },
            ) && final(self)@ == (MemoryView { num_temp_segments: old(self)@.num_temp_segments + 1, ..old(self)@ }),
            old(self)@.num_temp_segments >= isize::MAX ==> r is None && final(self)@ == old(self)@,
    {
        let index = self.temp_data.len();
        if index >= isize::MAX as usize {
            return None;
        }
        let ghost before = *self;
        self.temp_data.push(Vec::new());
        proof {
            assert forall|addr: Relocatable| #[trigger] self.cell(addr) == before.cell(addr) by {
                if addr.segment_index < 0 && -(addr.segment_index + 1) < index {
                    assert(self.temp_data@[-(addr.segment_index + 1)] == before.temp_data@[-(addr.segment_index
                        + 1)]);
                }
            }
            assert(self@.cells =~= before@.cells);
        }
        Some(Relocatable { segment_index: -(index as isize) - 1, offset: 0 })
    }

    /// The field element in the cell at `key`.
    pub fn get_integer(&self, key: &Relocatable) -> (r: Result<Felt, MemoryError>)
        ensures
            r == self@.read_integer_at(*key, 0),
    {
        match self.get(key) {
            Some(MaybeRelocatable::Int(value)) => Ok(value),
            Some(MaybeRelocatable::RelocatableValue(_)) => Err(MemoryError::ExpectedInteger),
            None => Err(MemoryError::UnknownMemoryCell),
        }
    }

    /// The address in the cell at `key`.
    pub fn get_relocatable(&self, key: &Relocatable) -> (r: Result<Relocatable, MemoryError>)
        ensures
            r == self@.read_relocatable(*key),
    {
        match self.get(key) {
            Some(MaybeRelocatable::RelocatableValue(value)) => Ok(value),
            Some(MaybeRelocatable::Int(_)) => Err(MemoryError::ExpectedRelocatable),
            None => Err(MemoryError::UnknownMemoryCell),
        }
    }

    /// The values of `size` cells in a row from `addr`; the error of the first
    /// cell that cannot be read, if there is one.
    pub fn get_continuous_range(&self, addr: Relocatable, size: usize) -> (r: Result<
        Vec<MaybeRelocatable>,
        MemoryError,
    >)
        ensures
            match r {
                Ok(values) => self@.read_range(addr, size as nat) == Ok::<Seq<MaybeRelocatable>, MemoryError>(values@),
                Err(e) => self@.read_range(addr, size as nat) == Err::<Seq<MaybeRelocatable>, MemoryError>(e),
            },
    {
        let mut values: Vec<MaybeRelocatable> = Vec::new();
        let mut i: usize = 0;
        while i < size
            invariant
                i <= size,
                self@.read_range(addr, i as nat) == Ok::<Seq<MaybeRelocatable>, MemoryError>(values@),
            decreases size - i,
        {
            proof {
                let _ = self@.read_range(addr, (i + 1) as nat);
            }
            if i > usize::MAX - addr.offset {
                proof {
                    lemma_read_range_error(self@, addr, (i + 1) as nat, size as nat);
                }
                return Err(MemoryError::Math(MathError::OffsetExceeded));
            }
            let key = Relocatable { segment_index: addr.segment_index, offset: addr.offset + i };
            match self.get(&key) {
                Some(value) => {
                    values.push(value);
                },
                None => {
                    proof {
                        lemma_read_range_error(self@, addr, (i + 1) as nat, size as nat);
                    }
                    return Err(MemoryError::UnknownMemoryCell);
                },
            }
            i += 1;
        }
        Ok(values)
    }

    /// The field elements of `size` cells in a row from `addr`; the error of
    /// the first cell that holds none, if there is one.
    pub fn get_integer_range(&self, addr: Relocatable, size: usize) -> (r: Result<Vec<Felt>, MemoryError>)
        ensures
            match r {
                Ok(values) => self@.read_integers(addr, size as nat) == Ok::<Seq<Felt>, MemoryError>(values@),
                Err(e) => self@.read_integers(addr, size as nat) == Err::<Seq<Felt>, MemoryError>(e),
            },
    {
        let mut values: Vec<Felt> = Vec::new();
        let mut i: usize = 0;
        while i < size
            invariant
                i <= size,
                self@.read_integers(addr, i as nat) == Ok::<Seq<Felt>, MemoryError>(values@),
            decreases size - i,
        {
            proof {
                let _ = self@.read_integers(addr, (i + 1) as nat);
            }
            if i > usize::MAX - addr.offset {
                proof {
                    lemma_read_integers_error(self@, addr, (i + 1) as nat, size as nat);
                }
                return Err(MemoryError::Math(MathError::OffsetExceeded));
            }
            let key = Relocatable { segment_index: addr.segment_index, offset: addr.offset + i };
            match self.get(&key) {
                Some(MaybeRelocatable::Int(value)) => {
                    values.push(value);
                },
                Some(MaybeRelocatable::RelocatableValue(_)) => {
                    proof {
                        lemma_read_integers_error(self@, addr, (i + 1) as nat, size as nat);
                    }
                    return Err(MemoryError::ExpectedInteger);
                },
                None => {
                    proof {
                        lemma_read_integers_error(self@, addr, (i + 1) as nat, size as nat);
                    }
                    return Err(MemoryError::UnknownMemoryCell);
                },
            }
            i += 1;
        }
        Ok(values)
    }

    /// The size of a segment: one more than the highest offset written in it,
    /// zero if nothing was or the segment does not exist.
    pub fn segment_used_size(&self, segment_index: isize) -> (r: usize)
        ensures
            self@.is_segment_size(segment_index as int, r as nat),
            r == self@.segment_size(segment_index as int),
    {
        let r = self.used_size(segment_index);
        proof {
            self@.lemma_segment_size(segment_index as int, r as nat);
        }
        r
    }

    fn used_size(&self, segment_index: isize) -> (r: usize)
        ensures
            self@.is_segment_size(segment_index as int, r as nat),
    {
        if segment_index >= 0 {
            let index = segment_index as usize;
            if index >= self.data.len() {
                assert forall|offset: usize| !#[trigger] self@.written(segment_index as int, offset) by {
                    assert(self.cell(Relocatable { segment_index, offset }) is None);
                }
                return 0;
            }
            let r = used_length(&self.data[index]);
            proof {
                assert forall|offset: usize| #[trigger]
                    self@.written(segment_index as int, offset) == (segment_cell(self.data@[index as int]@, offset as int)
                        is Some) by {
                    assert(self.cell(Relocatable { segment_index, offset }) == segment_cell(
                        self.data@[index as int]@,
                        offset as int,
                    ));
                }
                if r > 0 {
                    assert(self@.written(segment_index as int, (r - 1) as usize));
                }
            }
            r
        } else {
            let index = (-(segment_index + 1)) as usize;
            if index >= self.temp_data.len() {
                assert forall|offset: usize| !#[trigger] self@.written(segment_index as int, offset) by {
                    assert(self.cell(Relocatable { segment_index, offset }) is None);
                }
                return 0;
            }
            let r = used_length(&self.temp_data[index]);
            proof {
                assert forall|offset: usize| #[trigger]
                    self@.written(segment_index as int, offset) == (segment_cell(
                        self.temp_data@[index as int]@,
                        offset as int,
                    ) is Some) by {
                    assert(self.cell(Relocatable { segment_index, offset }) == segment_cell(
                        self.temp_data@[index as int]@,
                        offset as int,
                    ));
                }
                if r > 0 {
                    assert(self@.written(segment_index as int, (r - 1) as usize));
                }
            }
            r
        }
    }

    /// Gives the temporary segment that starts at `src_ptr` the host
    /// `dst_ptr`. When temporary segments are merged, the cells of the
    /// segment go where `dst_ptr` is, one after the other.
    pub fn add_relocation_rule(&mut self, src_ptr: Relocatable, dst_ptr: Relocatable) -> (r: Result<(), MemoryError>)
        ensures
            match old(self)@.with_rule(src_ptr, dst_ptr) {
                Ok(m) => r is Ok && final(self)@ == m,
                Err(e) => r == Err::<(), MemoryError>(e) && final(self)@ == old(self)@,
            },
    {
        if src_ptr.segment_index >= 0 {
            return Err(MemoryError::AddressNotInTemporarySegment);
        }
        if src_ptr.offset != 0 {
            return Err(MemoryError::NonZeroOffset);
        }
        if dst_ptr.segment_index < 0 {
            return Err(MemoryError::AddressInTemporarySegment);
        }
        let number = (-(src_ptr.segment_index + 1)) as usize;
        if number >= self.temp_data.len() {
            return Err(MemoryError::UnallocatedSegment);
        }
        if number < self.relocation_rules.len() && self.relocation_rules[number].is_some() {
            return Err(MemoryError::DuplicatedRelocation);
        }
        let ghost before = *self;
        while self.relocation_rules.len() <= number
            invariant
                self.data == before.data,
                self.temp_data == before.temp_data,
                before.relocation_rules@.len() <= self.relocation_rules@.len(),
                before.relocation_rules@.len() <= number ==> self.relocation_rules@.len() <= number + 1,
                before.relocation_rules@.len() > number ==> self.relocation_rules@ == before.relocation_rules@,
                rules_map(self.relocation_rules@) == rules_map(before.relocation_rules@),
            decreases number + 1 - self.relocation_rules@.len(),
        {
            let ghost rules = self.relocation_rules@;
            self.relocation_rules.push(None);
            assert(rules_map(self.relocation_rules@) =~= rules_map(rules));
        }
        let ghost rules = self.relocation_rules@;
        self.relocation_rules[number] = Some(dst_ptr);
        assert(rules_map(self.relocation_rules@) =~= rules_map(rules).insert(number as int, dst_ptr));
        assert(self@.cells =~= before@.cells);
        Ok(())
    }

    /// Where an address belongs once temporary segments are with their
    /// hosts.
    pub fn resolve_address(&self, addr: Relocatable) -> (r: Result<Relocatable, MemoryError>)
        ensures
            r == self@.resolved_address(addr),
    {
        if addr.segment_index >= 0 {
            return Ok(addr);
        }
        let number = (-(addr.segment_index + 1)) as usize;
        if number < self.relocation_rules.len() {
            match self.relocation_rules[number] {
                Some(host) => match host.add_usize(addr.offset) {
                    Ok(host) => Ok(host),
                    Err(e) => Err(MemoryError::Math(e)),
                },
                None => Err(MemoryError::UnresolvedTemporarySegment),
            }
        } else {
            Err(MemoryError::UnresolvedTemporarySegment)
        }
    }

    /// A value once temporary segments are with their hosts.
    pub fn resolve_value(&self, value: MaybeRelocatable) -> (r: Result<MaybeRelocatable, MemoryError>)
        ensures
            r == self@.resolved_value(value),
    {
        match value {
            MaybeRelocatable::Int(_) => Ok(value),
            MaybeRelocatable::RelocatableValue(addr) => match self.resolve_address(addr) {
                Ok(host) => Ok(MaybeRelocatable::RelocatableValue(host)),
                Err(e) => Err(e),
            },
        }
    }

    /// Writes the cells of one segment of this memory to `target`, each where
    /// it belongs.
    fn merge_segment_into(&self, target: &mut Memory, segment_index: isize) -> (r: Result<(), MemoryError>)
        ensures
            match self@.merge_segment(old(target)@, segment_index, self@.segment_size(segment_index as int)) {
                Ok(m) => r is Ok && final(target)@ == m,
                Err(e) => r == Err::<(), MemoryError>(e),
            },
    {
        let size = self.segment_used_size(segment_index);
        let ghost start = target@;
        let mut offset: usize = 0;
        while offset < size
            invariant
                offset <= size,
                start == old(target)@,
                size == self@.segment_size(segment_index as int),
                self@.merge_segment(start, segment_index, offset as nat) == Ok::<MemoryView, MemoryError>(target@),
            decreases size - offset,
        {
            proof {
                let _ = self@.merge_segment(start, segment_index, (offset + 1) as nat);
            }
            let addr = Relocatable { segment_index, offset };
            match self.get(&addr) {
                None => {},
                Some(value) => {
                    let merged = match self.resolve_address(addr) {
                        Ok(host) => match self.resolve_value(value) {
                            Ok(value) => target.insert(host, value),
                            Err(e) => Err(e),
                        },
                        Err(e) => Err(e),
                    };
                    match merged {
                        Ok(()) => {},
                        Err(e) => {
                            proof {
                                self@.lemma_merge_segment_error(start, segment_index, (offset + 1) as nat, size as nat);
                            }
                            return Err(e);
                        },
                    }
                },
            }
            offset += 1;
        }
        Ok(())
    }

    /// Writes the cells of the segments of one kind to `target`.
    fn merge_segments_into(&self, target: &mut Memory, temporary: bool) -> (r: Result<(), MemoryError>)
        ensures
            match self@.merge_segments(
                old(target)@,
                temporary,
                if temporary {
                    self@.num_temp_segments
                } else {
                    self@.num_segments
                },
            ) {
                Ok(m) => r is Ok && final(target)@ == m,
                Err(e) => r == Err::<(), MemoryError>(e),
            },
    {
        let n = if temporary {
            self.temp_data.len()
        } else {
            self.data.len()
        };
        let ghost start = target@;
        let mut i: usize = 0;
        while i < n
            invariant
                i <= n,
                start == old(target)@,
                n == (if temporary {
                    self@.num_temp_segments
                } else {
                    self@.num_segments
                }),
                self@.merge_segments(start, temporary, i as nat) == Ok::<MemoryView, MemoryError>(target@),
            decreases n - i,
        {
            proof {
                let _ = self@.merge_segments(start, temporary, (i + 1) as nat);
            }
            if i <= isize::MAX as usize {
                let segment_index = if temporary {
                    -(i as isize) - 1
                } else {
                    i as isize
                };
                match self.merge_segment_into(target, segment_index) {
                    Ok(()) => {},
                    Err(e) => {
                        proof {
                            self@.lemma_merge_segments_error(start, temporary, (i + 1) as nat, n as nat);
                        }
                        return Err(e);
                    },
                }
            } else {
                proof {
                    self@.lemma_segment_size(MemoryView::index_of(temporary, i as int), 0);
                }
            }
            i += 1;
        }
        Ok(())
    }

    /// The memory with every temporary segment merged into its host.
    pub fn relocate_temporary_segments(&self) -> (r: Result<Memory, MemoryError>)
        ensures
            match r {
                Ok(m) => self@.merged() == Ok::<MemoryView, MemoryError>(m@),
                Err(e) => self@.merged() == Err::<MemoryView, MemoryError>(e),
            },
    {
        let mut data: Vec<Vec<Option<MaybeRelocatable>>> = Vec::new();
        while data.len() < self.data.len()
            invariant
                data@.len() <= self.data@.len(),
                forall|i: int| 0 <= i < data@.len() ==> (#[trigger] data@[i])@.len() == 0,
            decreases self.data@.len() - data@.len(),
        {
            data.push(Vec::new());
        }
        let mut target = Memory { data, temp_data: Vec::new(), relocation_rules: Vec::new() };
        proof {
            assert forall|addr: Relocatable| #[trigger] target.cell(addr) is None by {}
            assert(target@.cells =~= Map::<Relocatable, MaybeRelocatable>::empty());
            assert(target@.relocation_rules =~= Map::<int, Relocatable>::empty());
        }
        match self.merge_segments_into(&mut target, false) {
            Ok(()) => {},
            Err(e) => { return Err(e); },
        }
        match self.merge_segments_into(&mut target, true) {
            Ok(()) => {},
            Err(e) => { return Err(e); },
        }
        Ok(target)
    }
}

/// The length of a segment without the empty cells at its end.
fn used_length(segment: &Vec<Option<MaybeRelocatable>>) -> (r: usize)
    ensures
        r <= segment@.len(),
        r > 0 ==> segment@[r - 1] is Some,
        forall|i: int| r <= i < segment@.len() ==> segment@[i] is None,
{
    let mut n = segment.len();
    while n > 0 && segment[n - 1].is_none()
        invariant
            n <= segment@.len(),
            forall|i: int| n <= i < segment@.len() ==> segment@[i] is None,
        decreases n,
    {
        n -= 1;
    }
    n
}

/// A write to one segment that leaves every other segment alone is a write to
/// the memory.
proof fn lemma_insert_view(before: Memory, after: Memory, key: Relocatable, val: MaybeRelocatable)
    requires
        before.segment(key.segment_index as int) is Some,
        before.segment(key.segment_index as int)->0.len() <= usize::MAX,
        after.relocation_rules == before.relocation_rules,
        after.data@.len() == before.data@.len(),
        after.temp_data@.len() == before.temp_data@.len(),
        forall|i: int| i != key.segment_index ==> after.segment(i) == before.segment(i),
        after.segment(key.segment_index as int) == Some(
            match segment_insert(before.segment(key.segment_index as int)->0, key.offset, val) {
                Ok(s) => s,
                Err(_) => before.segment(key.segment_index as int)->0,
            },
        ),
    ensures
        match before@.insert(key, val) {
            Ok(m) => segment_insert(before.segment(key.segment_index as int)->0, key.offset, val) is Ok && after@
                == m,
            Err(e) => segment_insert(before.segment(key.segment_index as int)->0, key.offset, val) == Err::<
                Seq<Option<MaybeRelocatable>>,
                MemoryError,
            >(e) && after@ == before@,
        },
{
    let segment = before.segment(key.segment_index as int)->0;
    assert(before.cell(key) == segment_cell(segment, key.offset as int));
    assert(before@.cells.contains_key(key) == (before.cell(key) is Some));
    match segment_insert(segment, key.offset, val) {
        Ok(s) => {
            assert forall|addr: Relocatable| #[trigger] after.cell(addr) == (if addr == key {
                Some(val)
            } else {
                before.cell(addr)
            }) by {
                if addr.segment_index != key.segment_index {
                    assert(after.segment(addr.segment_index as int) == before.segment(addr.segment_index as int));
                }
            }
            assert(after@.cells =~= before@.insert(key, val)->Ok_0.cells);
        },
        Err(_) => {
            assert forall|addr: Relocatable| #[trigger] after.cell(addr) == before.cell(addr) by {
                if addr.segment_index != key.segment_index {
                    assert(after.segment(addr.segment_index as int) == before.segment(addr.segment_index as int));
                }
            }
            assert(after@.cells =~= before@.cells);
        },
    }
}

/// Writes `value` at `offset` of one segment, growing the segment by empty
/// cells where it is too short.
fn write_cell(segment: &mut Vec<Option<MaybeRelocatable>>, offset: usize, value: MaybeRelocatable) -> (r: Result<
    (),
    MemoryError,
>)
    ensures
        match segment_insert(old(segment)@, offset, value) {
            Ok(s) => r is Ok && final(segment)@ == s,
            Err(e) => r == Err::<(), MemoryError>(e) && final(segment)@ == old(segment)@,
        },
{
    if offset < segment.len() {
        match segment[offset] {
            Some(current) => {
                if current == value {
                    Ok(())
                } else {
                    Err(MemoryError::InconsistentMemory)
                }
            },
            None => {
                segment[offset] = Some(value);
                Ok(())
            },
        }
    } else if offset == usize::MAX {
        Err(MemoryError::OffsetOutOfRange)
    } else {
        while segment.len() < offset
            invariant
                old(segment)@.len() <= segment@.len() <= offset,
                segment@ == old(segment)@ + Seq::new((segment@.len() - old(segment)@.len()) as nat, |i: int| None),
            decreases offset - segment.len(),
        {
            segment.push(None);
        }
        segment.push(Some(value));
        Ok(())
    }
}

} // verus!
