use cairo_vm::felt::Felt;
use cairo_vm::vm::errors::{MathError, MemoryError};
use cairo_vm::vm::memory::Memory;
use cairo_vm::vm::relocatable::{MaybeRelocatable, Relocatable};

fn felt(value: u128) -> MaybeRelocatable {
    MaybeRelocatable::Int(Felt::from_u128(value))
}

#[test]
fn writing_another_value_to_a_written_cell_fails() {
    let mut memory = Memory::new();
    let base = memory.add_segment().unwrap();
    assert_eq!(memory.insert(base, felt(5)), Ok(()));
    assert_eq!(memory.insert(base, felt(6)), Err(MemoryError::InconsistentMemory));
    assert_eq!(memory.get(&base), Some(felt(5)));
}

#[test]
fn writing_the_same_value_twice_succeeds() {
    let mut memory = Memory::new();
    let base = memory.add_segment().unwrap();
    assert_eq!(memory.insert(base, felt(5)), Ok(()));
    assert_eq!(memory.insert(base, felt(5)), Ok(()));
    assert_eq!(memory.get(&base), Some(felt(5)));
}

#[test]
fn a_field_element_never_equals_an_address() {
    let mut memory = Memory::new();
    let base = memory.add_segment().unwrap();
    let address = MaybeRelocatable::RelocatableValue(Relocatable::new(0, 0));
    assert_ne!(address, felt(0));
    assert_eq!(memory.insert(base, address), Ok(()));
    assert_eq!(memory.insert(base, felt(0)), Err(MemoryError::InconsistentMemory));
}

#[test]
fn writing_to_a_segment_that_was_not_allocated_fails() {
    let mut memory = Memory::new();
    assert_eq!(memory.insert(Relocatable::new(0, 0), felt(1)), Err(MemoryError::UnallocatedSegment));
    memory.add_segment().unwrap();
    assert_eq!(memory.insert(Relocatable::new(1, 0), felt(1)), Err(MemoryError::UnallocatedSegment));
    assert_eq!(memory.insert(Relocatable::new(-1, 0), felt(1)), Err(MemoryError::UnallocatedSegment));
}

#[test]
fn reading_an_empty_cell_gives_nothing() {
    let mut memory = Memory::new();
    let base = memory.add_segment().unwrap();
    memory.insert(Relocatable::new(0, 3), felt(9)).unwrap();
    assert_eq!(memory.get(&base), None);
    assert_eq!(memory.get(&Relocatable::new(0, 3)), Some(felt(9)));
    assert_eq!(memory.get(&Relocatable::new(0, 4)), None);
    assert_eq!(memory.get(&Relocatable::new(7, 0)), None);
    assert_eq!(memory.get_integer(&base), Err(MemoryError::UnknownMemoryCell));
}

#[test]
fn segment_size_is_one_past_the_highest_write() {
    let mut memory = Memory::new();
    memory.add_segment().unwrap();
    memory.add_segment().unwrap();
    assert_eq!(memory.segment_used_size(0), 0);
    memory.insert(Relocatable::new(0, 4), felt(1)).unwrap();
    memory.insert(Relocatable::new(0, 1), felt(1)).unwrap();
    assert_eq!(memory.segment_used_size(0), 5);
    assert_eq!(memory.segment_used_size(1), 0);
    assert_eq!(memory.segment_used_size(2), 0);
}

#[test]
fn temporary_segments_count_down_from_minus_one() {
    let mut memory = Memory::new();
    assert_eq!(memory.add_temporary_segment(), Some(Relocatable::new(-1, 0)));
    assert_eq!(memory.add_temporary_segment(), Some(Relocatable::new(-2, 0)));
    assert_eq!(memory.insert(Relocatable::new(-2, 1), felt(3)), Ok(()));
    assert_eq!(memory.get(&Relocatable::new(-2, 1)), Some(felt(3)));
    assert_eq!(memory.get(&Relocatable::new(-1, 1)), None);
    assert_eq!(memory.segment_used_size(-2), 2);
    assert_eq!(memory.num_temp_segments(), 2);
    assert_eq!(memory.num_segments(), 0);
}

#[test]
fn range_read_stops_at_the_first_gap() {
    let mut memory = Memory::new();
    let base = memory.add_segment().unwrap();
    memory.insert(Relocatable::new(0, 0), felt(1)).unwrap();
    memory.insert(Relocatable::new(0, 1), felt(2)).unwrap();
    memory.insert(Relocatable::new(0, 3), MaybeRelocatable::RelocatableValue(base)).unwrap();
    assert_eq!(memory.get_continuous_range(base, 2), Ok(vec![felt(1), felt(2)]));
    assert_eq!(memory.get_continuous_range(base, 3), Err(MemoryError::UnknownMemoryCell));
    assert_eq!(memory.get_integer_range(base, 2), Ok(vec![Felt::from_u128(1), Felt::from_u128(2)]));
    assert_eq!(memory.get_integer_range(Relocatable::new(0, 3), 1), Err(MemoryError::ExpectedInteger));
    assert_eq!(memory.get_integer_range(base, 0), Ok(vec![]));
    assert_eq!(
        memory.get_integer_range(Relocatable::new(0, usize::MAX), 2),
        Err(MemoryError::UnknownMemoryCell)
    );
    memory.insert(Relocatable::new(0, 2), felt(2)).unwrap();
    assert_eq!(memory.get_relocatable(&Relocatable::new(0, 3)), Ok(base));
    assert_eq!(memory.get_relocatable(&base), Err(MemoryError::ExpectedRelocatable));
}

#[test]
fn addresses_add_and_subtract_within_a_segment() {
    let a = Relocatable::new(2, 5);
    assert_eq!(a.add_usize(3), Ok(Relocatable::new(2, 8)));
    assert_eq!(a.add_usize(usize::MAX), Err(MathError::OffsetExceeded));
    assert_eq!(a.add_i32(-5), Ok(Relocatable::new(2, 0)));
    assert_eq!(a.add_i32(-6), Err(MathError::NegativeOffset));
    assert_eq!(a.sub_usize(6), Err(MathError::NegativeOffset));
    assert_eq!(a.sub(&Relocatable::new(2, 1)), Ok(4));
    assert_eq!(a.sub(&Relocatable::new(2, 6)), Err(MathError::NegativeOffset));
    assert_eq!(a.sub(&Relocatable::new(3, 1)), Err(MathError::DifferentSegments));
    assert_eq!(a.add_felt(&Felt::from_u128(2)), Ok(Relocatable::new(2, 7)));
    assert_eq!(a.add_felt(&Felt::from_i64(-2)), Ok(Relocatable::new(2, 3)));
    assert_eq!(a.add_felt(&Felt::from_i64(-6)), Err(MathError::OffsetExceeded));
}

#[test]
fn memory_values_add_and_subtract() {
    let a = MaybeRelocatable::RelocatableValue(Relocatable::new(2, 5));
    let b = MaybeRelocatable::RelocatableValue(Relocatable::new(2, 1));
    assert_eq!(felt(2).add(&felt(3)), Ok(felt(5)));
    assert_eq!(MaybeRelocatable::Int(Felt::from_i64(-1)).add(&felt(1)), Ok(felt(0)));
    assert_eq!(a.add(&felt(3)), Ok(MaybeRelocatable::RelocatableValue(Relocatable::new(2, 8))));
    assert_eq!(felt(3).add(&a), Ok(MaybeRelocatable::RelocatableValue(Relocatable::new(2, 8))));
    assert_eq!(a.add(&b), Err(MathError::AddressPlusAddress));
    assert_eq!(felt(2).sub(&felt(3)), Ok(MaybeRelocatable::Int(Felt::from_i64(-1))));
    assert_eq!(a.sub(&felt(3)), Ok(MaybeRelocatable::RelocatableValue(Relocatable::new(2, 2))));
    assert_eq!(a.sub(&b), Ok(felt(4)));
    assert_eq!(b.sub(&a), Err(MathError::NegativeOffset));
    assert_eq!(felt(3).sub(&a), Err(MathError::IntMinusAddress));
}
