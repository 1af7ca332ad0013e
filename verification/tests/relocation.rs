use cairo_vm::felt::Felt;
use cairo_vm::vm::errors::{MathError, MemoryError};
use cairo_vm::vm::memory_segments::{relocate_address, relocate_segments, relocate_value, MemorySegmentManager};
use cairo_vm::vm::relocatable::{MaybeRelocatable, Relocatable};

fn felt(value: u128) -> MaybeRelocatable {
    MaybeRelocatable::Int(Felt::from_u128(value))
}

fn pointer(segment_index: isize, offset: usize) -> MaybeRelocatable {
    MaybeRelocatable::RelocatableValue(Relocatable::new(segment_index, offset))
}

fn three_segments() -> MemorySegmentManager {
    let mut segments = MemorySegmentManager::new();
    for _ in 0..3 {
        segments.add().unwrap();
    }
    segments.memory.insert(Relocatable::new(0, 0), felt(11)).unwrap();
    segments.memory.insert(Relocatable::new(0, 2), pointer(2, 1)).unwrap();
    segments.memory.insert(Relocatable::new(2, 0), felt(33)).unwrap();
    segments.memory.insert(Relocatable::new(2, 1), pointer(0, 2)).unwrap();
    segments
}

#[test]
fn relocation_table_is_the_running_sum_of_sizes() {
    assert_eq!(relocate_segments(&vec![3, 0, 2]), Ok(vec![0, 3, 3]));
    assert_eq!(relocate_segments(&vec![]), Ok(vec![]));
    assert_eq!(relocate_segments(&vec![5]), Ok(vec![0]));
    assert_eq!(relocate_segments(&vec![usize::MAX, 1]), Err(MemoryError::AddressSpaceExceeded));
    assert_eq!(relocate_segments(&vec![usize::MAX - 1, 1, 0]), Ok(vec![0, usize::MAX - 1, usize::MAX]));
}

#[test]
fn effective_sizes_follow_the_highest_write() {
    assert_eq!(three_segments().compute_effective_sizes(), vec![3, 0, 2]);
    assert_eq!(MemorySegmentManager::new().compute_effective_sizes(), Vec::<usize>::new());
}

#[test]
fn every_cell_keeps_its_value_under_relocation() {
    let segments = three_segments();
    let flat = segments.relocate_memory().unwrap();
    assert_eq!(flat.table, vec![0, 3, 3]);
    assert_eq!(
        flat.cells,
        vec![
            Some(Felt::from_u128(11)),
            None,
            Some(Felt::from_u128(4)),
            Some(Felt::from_u128(33)),
            Some(Felt::from_u128(2)),
        ]
    );
    let sizes = segments.compute_effective_sizes();
    for segment in 0..3usize {
        for offset in 0..sizes[segment] {
            let addr = Relocatable::new(segment as isize, offset);
            let before = segments.memory.get(&addr).map(|value| relocate_value(value, &flat.table).unwrap());
            let index = relocate_address(addr, &flat.table).unwrap();
            assert_eq!(index, flat.table[segment] + offset);
            assert_eq!(flat.cells[index], before);
        }
    }
}

#[test]
fn addresses_without_a_flat_address_are_refused() {
    let table = vec![0, 3];
    assert_eq!(relocate_address(Relocatable::new(1, 4), &table), Ok(7));
    assert_eq!(relocate_address(Relocatable::new(2, 0), &table), Err(MemoryError::Relocation));
    assert_eq!(relocate_address(Relocatable::new(-1, 0), &table), Err(MemoryError::TemporarySegmentInRelocation));
    assert_eq!(
        relocate_address(Relocatable::new(1, usize::MAX), &table),
        Err(MemoryError::Math(MathError::OffsetExceeded))
    );
    assert_eq!(relocate_value(felt(9), &table), Ok(Felt::from_u128(9)));
    assert_eq!(relocate_value(pointer(1, 1), &table), Ok(Felt::from_u128(4)));

    let mut segments = MemorySegmentManager::new();
    segments.add().unwrap();
    segments.memory.insert(Relocatable::new(0, 0), pointer(5, 0)).unwrap();
    assert_eq!(segments.relocate_memory().err(), Some(MemoryError::Relocation));
    let mut segments = MemorySegmentManager::new();
    segments.add().unwrap();
    segments.add_temporary_segment().unwrap();
    segments.memory.insert(Relocatable::new(0, 0), pointer(-1, 0)).unwrap();
    assert_eq!(segments.relocate_memory().err(), Some(MemoryError::TemporarySegmentInRelocation));
}

#[test]
fn data_is_loaded_cell_by_cell() {
    let mut segments = MemorySegmentManager::new();
    let base = segments.add().unwrap();
    assert_eq!(segments.load_data(base, &vec![felt(1), felt(2)]), Ok(Relocatable::new(0, 2)));
    assert_eq!(segments.load_data(Relocatable::new(0, 1), &vec![felt(2), felt(3)]), Ok(Relocatable::new(0, 3)));
    assert_eq!(
        segments.load_data(Relocatable::new(0, 2), &vec![felt(3), felt(4), felt(5)]),
        Ok(Relocatable::new(0, 5))
    );
    assert_eq!(
        segments.load_data(Relocatable::new(0, 3), &vec![felt(4), felt(6), felt(7)]),
        Err(MemoryError::InconsistentMemory)
    );
    assert_eq!(segments.memory.get(&Relocatable::new(0, 4)), Some(felt(5)));
    assert_eq!(segments.memory.get(&Relocatable::new(0, 5)), None);
    assert_eq!(segments.load_data(Relocatable::new(1, 0), &vec![felt(1)]), Err(MemoryError::UnallocatedSegment));
    assert_eq!(segments.load_data(Relocatable::new(1, 0), &vec![]), Ok(Relocatable::new(1, 0)));
}
