//! Allocation of segments, their sizes, and the passage from segments to one
//! flat address space when a run is over.
//!
//! Once every segment has its size, the segments are laid out one after the
//! other in the order in which they were allocated. The relocation table gives
//! the flat address at which each segment starts; an address `(segment,
//! offset)` then becomes the start of its segment plus its offset.

use vstd::prelude::*;
use crate::felt::Felt;
use crate::vm::errors::{MathError, MemoryError};
use crate::vm::memory::{Memory, MemoryView};
use crate::vm::relocatable::{offset_by, MaybeRelocatable, Relocatable};

verus! {

/// The size of every segment that is not temporary, in the order of
/// allocation.
pub open spec fn effective_sizes(memory: MemoryView) -> Seq<usize> {
    Seq::new(memory.num_segments, |i: int| memory.segment_size(i) as usize)
}

/// The sum of the first `n` sizes: where segment `n` starts in the flat
/// address space.
pub open spec fn running_sum(sizes: Seq<usize>, n: nat) -> nat
    decreases n,
{
    if n == 0 {
        0
    } else {
        running_sum(sizes, (n - 1) as nat) + sizes[n - 1] as nat
    }
}

/// The relocation table of segments of these sizes: each segment starts where
/// the one before it ends, the first at 0.
pub open spec fn relocation_table(sizes: Seq<usize>) -> Seq<usize> {
    Seq::new(sizes.len(), |i: int| running_sum(sizes, i as nat) as usize)
}

/// A memory made flat: the relocation table and the cells of all segments in
/// one row. There is none when the segments together outgrow the address
/// space, or when a cell holds an address that has no flat address.
pub open spec fn relocation(memory: MemoryView) -> Result<(Seq<usize>, Seq<Option<Felt>>), MemoryError> {
    let sizes = effective_sizes(memory);
    let table = relocation_table(sizes);
    if running_sum(sizes, sizes.len()) > usize::MAX {
        Err(MemoryError::AddressSpaceExceeded)
    } else {
        match memory_image(memory, sizes, table, sizes.len()) {
            Ok(cells) => Ok((table, cells)),
            Err(e) => Err(e),
        }
    }
}

/// The flat address of an address.
pub open spec fn relocated_address(addr: Relocatable, table: Seq<usize>) -> Result<usize, MemoryError> {
    if addr.segment_index < 0 {
        Err(MemoryError::TemporarySegmentInRelocation)
    } else if addr.segment_index >= table.len() {
        Err(MemoryError::Relocation)
    } else if table[addr.segment_index as int] + addr.offset > usize::MAX {
        Err(MemoryError::Math(MathError::OffsetExceeded))
    } else {
        Ok((table[addr.segment_index as int] + addr.offset) as usize)
    }
}

/// A memory value in the flat address space: a field element stays what it
/// is, an address becomes its flat address.
pub open spec fn relocated_value(value: MaybeRelocatable, table: Seq<usize>) -> Result<Felt, MemoryError> {
    match value {
        MaybeRelocatable::Int(x) => Ok(x),
        MaybeRelocatable::RelocatableValue(addr) => match relocated_address(addr, table) {
            Ok(flat) => Ok(Felt::from_nat(flat as nat)),
            Err(e) => Err(e),
        },
    }
}

/// What the cell at `addr` holds in the flat address space; an empty cell
/// stays empty.
pub open spec fn relocated_cell(memory: MemoryView, table: Seq<usize>, addr: Relocatable) -> Result<
    Option<Felt>,
    MemoryError,
> {
    match memory.get(addr) {
        Some(value) => match relocated_value(value, table) {
            Ok(flat) => Ok(Some(flat)),
            Err(e) => Err(e),
        },
        None => Ok(None),
    }
}

/// The first `n` cells of a segment in the flat address space; the error of
/// the first cell that cannot be relocated.
pub open spec fn segment_image(memory: MemoryView, table: Seq<usize>, segment_index: isize, n: nat) -> Result<
    Seq<Option<Felt>>,
    MemoryError,
>
    decreases n,
{
    if n == 0 {
        Ok(Seq::empty())
    } else {
        match segment_image(memory, table, segment_index, (n - 1) as nat) {
            Ok(cells) => match relocated_cell(memory, table, Relocatable { segment_index, offset: (n - 1) as usize }) {
                Ok(cell) => Ok(cells.push(cell)),
                Err(e) => Err(e),
            },
            Err(e) => Err(e),
        }
    }
}

/// The first `n` segments laid out one after the other in the flat address
/// space; the error of the first cell that cannot be relocated.
pub open spec fn memory_image(memory: MemoryView, sizes: Seq<usize>, table: Seq<usize>, n: nat) -> Result<
    Seq<Option<Felt>>,
    MemoryError,
>
    decreases n,
{
    if n == 0 {
        Ok(Seq::empty())
    } else {
        match memory_image(memory, sizes, table, (n - 1) as nat) {
            Ok(cells) => match segment_image(memory, table, (n - 1) as isize, sizes[n - 1] as nat) {
                Ok(segment) => Ok(cells + segment),
                Err(e) => Err(e),
            },
            Err(e) => Err(e),
        }
    }
}

/// A segment image that exists has one cell for each offset, and each holds
/// what the segment holds there.
pub proof fn lemma_segment_image(memory: MemoryView, table: Seq<usize>, segment_index: isize, n: nat)
    requires
        segment_image(memory, table, segment_index, n) is Ok,
    ensures
        segment_image(memory, table, segment_index, n)->Ok_0.len() == n,
        forall|offset: int|
            0 <= offset < n ==> relocated_cell(
                memory,
                table,
                Relocatable { segment_index, offset: offset as usize },
            ) == Ok::<Option<Felt>, MemoryError>(
                #[trigger] segment_image(memory, table, segment_index, n)->Ok_0[offset],
            ),
    decreases n,
{
    if n > 0 {
        lemma_segment_image(memory, table, segment_index, (n - 1) as nat);
    }
}

/// Relocation keeps every cell: in a flat image that exists, the cell at the
/// flat address of `(segment, offset)` holds what the cell at `(segment,
/// offset)` held, relocated, and is empty where that cell was empty.
pub proof fn lemma_relocation_lookup(
    memory: MemoryView,
    sizes: Seq<usize>,
    table: Seq<usize>,
    n: nat,
    segment: int,
    offset: int,
)
    requires
        n <= sizes.len(),
        running_sum(sizes, n) <= usize::MAX,
        table == relocation_table(sizes),
        memory_image(memory, sizes, table, n) is Ok,
        0 <= segment < n,
        0 <= offset < sizes[segment],
        segment <= isize::MAX,
    ensures
        memory_image(memory, sizes, table, n)->Ok_0.len() == running_sum(sizes, n),
        table[segment] + offset < running_sum(sizes, n),
        relocated_cell(memory, table, Relocatable { segment_index: segment as isize, offset: offset as usize })
            == Ok::<Option<Felt>, MemoryError>(memory_image(memory, sizes, table, n)->Ok_0[table[segment] + offset]),
    decreases n,
{
    lemma_memory_image_len(memory, sizes, table, n);
    lemma_memory_image_len(memory, sizes, table, (n - 1) as nat);
    lemma_segment_image(memory, table, (n - 1) as isize, sizes[n - 1] as nat);
    lemma_running_sum_monotonic(sizes, segment as nat, (n - 1) as nat);
    if segment < n - 1 {
        lemma_relocation_lookup(memory, sizes, table, (n - 1) as nat, segment, offset);
    }
}

/// A flat image that exists is as long as its segments together.
pub proof fn lemma_memory_image_len(memory: MemoryView, sizes: Seq<usize>, table: Seq<usize>, n: nat)
    requires
        memory_image(memory, sizes, table, n) is Ok,
    ensures
        memory_image(memory, sizes, table, n)->Ok_0.len() == running_sum(sizes, n),
    decreases n,
{
    if n > 0 {
        lemma_memory_image_len(memory, sizes, table, (n - 1) as nat);
        lemma_segment_image(memory, table, (n - 1) as isize, sizes[n - 1] as nat);
    }
}

/// Once a cell of a segment cannot be relocated, the segment cannot.
proof fn lemma_segment_image_error(memory: MemoryView, table: Seq<usize>, segment_index: isize, failed: nat, n: nat)
    requires
        failed <= n,
        segment_image(memory, table, segment_index, failed) is Err,
    ensures
        segment_image(memory, table, segment_index, n) == segment_image(memory, table, segment_index, failed),
    decreases n,
{
    if failed < n {
        lemma_segment_image_error(memory, table, segment_index, failed, (n - 1) as nat);
    }
}

/// Once a segment cannot be relocated, the memory cannot.
proof fn lemma_memory_image_error(memory: MemoryView, sizes: Seq<usize>, table: Seq<usize>, failed: nat, n: nat)
    requires
        failed <= n,
        memory_image(memory, sizes, table, failed) is Err,
    ensures
        memory_image(memory, sizes, table, n) == memory_image(memory, sizes, table, failed),
    decreases n,
{
    if failed < n {
        lemma_memory_image_error(memory, sizes, table, failed, (n - 1) as nat);
    }
}

/// The running sum grows with the number of segments.
proof fn lemma_running_sum_monotonic(sizes: Seq<usize>, i: nat, j: nat)
    requires
        i <= j,
    ensures
        running_sum(sizes, i) <= running_sum(sizes, j),
    decreases j,
{
    if i < j {
        lemma_running_sum_monotonic(sizes, i, (j - 1) as nat);
    }
}

/// The flat address of `addr` under a relocation table.
pub fn relocate_address(addr: Relocatable, table: &Vec<usize>) -> (r: Result<usize, MemoryError>)
    ensures
        r == relocated_address(addr, table@),
{
    if addr.segment_index < 0 {
        Err(MemoryError::TemporarySegmentInRelocation)
    } else if addr.segment_index as usize >= table.len() {
        Err(MemoryError::Relocation)
    } else {
        let base = table[addr.segment_index as usize];
        if addr.offset > usize::MAX - base {
            Err(MemoryError::Math(MathError::OffsetExceeded))
        } else {
            Ok(base + addr.offset)
        }
    }
}

/// A memory value in the flat address space.
pub fn relocate_value(value: MaybeRelocatable, table: &Vec<usize>) -> (r: Result<Felt, MemoryError>)
    ensures
        r == relocated_value(value, table@),
{
    match value {
        MaybeRelocatable::Int(x) => Ok(x),
        MaybeRelocatable::RelocatableValue(addr) => match relocate_address(addr, table) {
            Ok(flat) => {
                let r = Felt::from_usize(flat);
                proof {
                    Felt::lemma_from_nat(flat as nat);
                    Felt::lemma_view_injective(r, Felt::from_nat(flat as nat));
                }
                Ok(r)
            },
            Err(e) => Err(e),
        },
    }
}

/// The relocation table of segments of the given sizes: each segment starts
/// where the one before it ends, the first at 0. There is none when the
/// segments together outgrow the address space.
pub fn relocate_segments(sizes: &Vec<usize>) -> (r: Result<Vec<usize>, MemoryError>)
    ensures
        match r {
            Ok(table) => table@ == relocation_table(sizes@) && running_sum(sizes@, sizes@.len()) <= usize::MAX,
            Err(e) => e == MemoryError::AddressSpaceExceeded && running_sum(sizes@, sizes@.len()) > usize::MAX,
        },
{
    let mut table: Vec<usize> = Vec::new();
    let mut next: usize = 0;
    let mut i: usize = 0;
    while i < sizes.len()
        invariant
            i <= sizes@.len(),
            table@.len() == i,
            next == running_sum(sizes@, i as nat),
            table@ == relocation_table(sizes@).subrange(0, i as int),
        decreases sizes@.len() - i,
    {
        table.push(next);
        assert(table@ == relocation_table(sizes@).subrange(0, i + 1));
        if sizes[i] > usize::MAX - next {
            proof {
                lemma_running_sum_monotonic(sizes@, (i + 1) as nat, sizes@.len());
            }
            return Err(MemoryError::AddressSpaceExceeded);
        }
        next = next + sizes[i];
        i += 1;
    }
    assert(table@ == relocation_table(sizes@));
    Ok(table)
}

/// The memory of a run together with what is known of its segments.
pub struct MemorySegmentManager {
    pub memory: Memory,
}

impl View for MemorySegmentManager {
    type V = MemoryView;

    open spec fn view(&self) -> MemoryView {
        self.memory@
    }
}

/// A memory made flat: where each segment starts, and the cells of all
/// segments in one row.
pub struct RelocatedMemory {
    pub table: Vec<usize>,
    pub cells: Vec<Option<Felt>>,
}

impl View for RelocatedMemory {
    type V = (Seq<usize>, Seq<Option<Felt>>);

    open spec fn view(&self) -> (Seq<usize>, Seq<Option<Felt>>) {
        (self.table@, self.cells@)
    }
}

impl MemorySegmentManager {
    /// A manager of a memory without segments.
    pub fn new() -> (r: MemorySegmentManager)
        ensures
            r@ == MemoryView::empty(0),
    {
        MemorySegmentManager { memory: Memory::new() }
    }

    /// Allocates a segment and returns the address of its first cell; `None`
    /// when the index of another segment would not fit in an `isize`.
    pub fn add(&mut self) -> (r: Option<Relocatable>)
        ensures
            old(self)@.num_segments < isize::MAX ==> r == Some(
                Relocatable { segment_index: old(self)@.num_segments as isize, offset: 0 },
            ) && final(self)@ == (MemoryView { num_segments: old(self)@.num_segments + 1, ..old(self)@ }),
            old(self)@.num_segments >= isize::MAX ==> r is None && final(self)@ == old(self)@,
    {
        self.memory.add_segment()
    }

    /// Allocates a temporary segment and returns the address of its first
    /// cell.
    pub fn add_temporary_segment(&mut self) -> (r: Option<Relocatable>)
        ensures
            old(self)@.num_temp_segments < isize::MAX ==> r == Some(
                Relocatable { segment_index: (-(old(self)@.num_temp_segments + 1)) as isize, offset: 0 },
            ) && final(self)@ == (MemoryView { num_temp_segments: old(self)@.num_temp_segments + 1, ..old(self)@ }),
            old(self)@.num_temp_segments >= isize::MAX ==> r is None && final(self)@ == old(self)@,
    {
        self.memory.add_temporary_segment()
    }

    /// Writes `data` to the cells from `ptr` on, one after the other, and
    /// returns the address after the last of them. A write that is refused
    /// ends the loading with the cells before it written.
    pub fn load_data(&mut self, ptr: Relocatable, data: &Vec<MaybeRelocatable>) -> (r: Result<
        Relocatable,
        MemoryError,
    >)
        ensures
            final(self)@ == old(self)@.write_range(ptr, data@, data@.len()).0,
            match old(self)@.write_range(ptr, data@, data@.len()).1 {
                Some(e) => r == Err::<Relocatable, MemoryError>(e),
                None => match offset_by(ptr, data@.len() as int) {
                    Ok(end) => r == Ok::<Relocatable, MemoryError>(end),
                    Err(e) => r == Err::<Relocatable, MemoryError>(MemoryError::Math(e)),
                },
            },
    {
        let ghost before = self@;
        let mut i: usize = 0;
        while i < data.len()
            invariant
                i <= data@.len(),
                before == old(self)@,
                before.write_range(ptr, data@, i as nat) == (self@, None::<MemoryError>),
            decreases data@.len() - i,
        {
            proof {
                let _ = before.write_range(ptr, data@, (i + 1) as nat);
            }
            let addr = match ptr.add_usize(i) {
                Ok(addr) => addr,
                Err(e) => {
                    proof {
                        MemoryView::lemma_write_range_error(before, ptr, data@, (i + 1) as nat, data@.len());
                    }
                    return Err(MemoryError::Math(e));
                },
            };
            match self.memory.insert(addr, data[i]) {
                Ok(()) => {},
                Err(e) => {
                    proof {
                        MemoryView::lemma_write_range_error(before, ptr, data@, (i + 1) as nat, data@.len());
                    }
                    return Err(e);
                },
            }
            i += 1;
        }
        match ptr.add_usize(data.len()) {
            Ok(end) => Ok(end),
            Err(e) => Err(MemoryError::Math(e)),
        }
    }

    /// The size of every segment that is not temporary, in the order of
    /// allocation.
    pub fn compute_effective_sizes(&self) -> (r: Vec<usize>)
        ensures
            r@ == effective_sizes(self@),
    {
        let mut sizes: Vec<usize> = Vec::new();
        let n = self.memory.num_segments();
        let mut i: usize = 0;
        while i < n
            invariant
                i <= n,
                n == self@.num_segments,
                sizes@ == effective_sizes(self@).subrange(0, i as int),
            decreases n - i,
        {
            if i > isize::MAX as usize {
                proof {
                    self@.lemma_segment_size(i as int, 0);
                }
                sizes.push(0);
            } else {
                sizes.push(self.memory.segment_used_size(i as isize));
            }
            assert(sizes@ == effective_sizes(self@).subrange(0, i + 1));
            i += 1;
        }
        assert(sizes@ == effective_sizes(self@));
        sizes
    }

    /// Makes the memory flat: computes the size of each segment, lays the
    /// segments out one after the other and rewrites each address that a cell
    /// holds into a flat address.
    pub fn relocate_memory(&self) -> (r: Result<RelocatedMemory, MemoryError>)
        ensures
            match r {
                Ok(flat) => relocation(self@) == Ok::<(Seq<usize>, Seq<Option<Felt>>), MemoryError>(flat@),
                Err(e) => relocation(self@) == Err::<(Seq<usize>, Seq<Option<Felt>>), MemoryError>(e),
            },
    {
        let sizes = self.compute_effective_sizes();
        let table = match relocate_segments(&sizes) {
            Ok(table) => table,
            Err(e) => { return Err(e); },
        };
        let n = self.memory.num_segments();
        let mut cells: Vec<Option<Felt>> = Vec::new();
        let mut segment: usize = 0;
        while segment < n
            invariant
                segment <= n,
                n == sizes@.len(),
                sizes@ == effective_sizes(self@),
                table@ == relocation_table(sizes@),
                running_sum(sizes@, sizes@.len()) <= usize::MAX,
                memory_image(self@, sizes@, table@, segment as nat) == Ok::<Seq<Option<Felt>>, MemoryError>(cells@),
            decreases n - segment,
        {
            let ghost prefix = cells@;
            let size = sizes[segment];
            proof {
                let _ = memory_image(self@, sizes@, table@, (segment + 1) as nat);
                if segment > isize::MAX {
                    self@.lemma_segment_size(segment as int, 0);
                }
            }
            let mut offset: usize = 0;
            while offset < size
                invariant
                    offset <= size,
                    segment < n,
                    n == sizes@.len(),
                    size > 0 ==> segment <= isize::MAX,
                    size == sizes@[segment as int],
                    sizes@ == effective_sizes(self@),
                    table@ == relocation_table(sizes@),
                    running_sum(sizes@, sizes@.len()) <= usize::MAX,
                    memory_image(self@, sizes@, table@, segment as nat) == Ok::<Seq<Option<Felt>>, MemoryError>(
                        prefix,
                    ),
                    segment_image(self@, table@, segment as isize, offset as nat) matches Ok(image) && cells@
                        == prefix + image,
                decreases size - offset,
            {
                proof {
                    let _ = segment_image(self@, table@, segment as isize, (offset + 1) as nat);
                }
                let addr = Relocatable { segment_index: segment as isize, offset };
                let cell = match self.memory.get(&addr) {
                    Some(value) => match relocate_value(value, &table) {
                        Ok(flat) => Some(flat),
                        Err(e) => {
                            proof {
                                lemma_segment_image_error(
                                    self@,
                                    table@,
                                    segment as isize,
                                    (offset + 1) as nat,
                                    size as nat,
                                );
                                lemma_memory_image_error(self@, sizes@, table@, (segment + 1) as nat, sizes@.len());
                            }
                            return Err(e);
                        },
                    },
                    None => None,
                };
                let ghost image = segment_image(self@, table@, segment as isize, offset as nat)->Ok_0;
                cells.push(cell);
                assert(cells@ == prefix + image.push(cell));
                offset += 1;
            }
            segment += 1;
        }
        Ok(RelocatedMemory { table, cells })
    }
}

/// The relocation law: in a memory made flat, the cell at the flat address of
/// `(segment, offset)` holds what the cell at `(segment, offset)` held before,
/// with an address in it made flat, and is empty where that cell was empty.
/// This holds of every cell within the size of its segment.
pub proof fn lemma_relocation_keeps_cells(memory: MemoryView, segment: isize, offset: usize)
    requires
        relocation(memory) is Ok,
        0 <= segment < memory.num_segments,
        offset < effective_sizes(memory)[segment as int],
    ensures
        ({
            let (table, cells) = relocation(memory)->Ok_0;
            &&& table[segment as int] + offset < cells.len()
            &&& relocated_address(Relocatable { segment_index: segment, offset }, table) == Ok::<usize, MemoryError>(
                (table[segment as int] + offset) as usize,
            )
            &&& relocated_cell(memory, table, Relocatable { segment_index: segment, offset }) == Ok::<
                Option<Felt>,
                MemoryError,
            >(cells[table[segment as int] + offset])
        }),
{
    let sizes = effective_sizes(memory);
    let table = relocation_table(sizes);
    lemma_relocation_lookup(memory, sizes, table, sizes.len(), segment as int, offset as int);
}

} // verus!
