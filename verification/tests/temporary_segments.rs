use cairo_vm::felt::Felt;
use cairo_vm::vm::errors::{MemoryError, RunnerError};
use cairo_vm::vm::memory::Memory;
use cairo_vm::vm::relocatable::{MaybeRelocatable, Relocatable};
use cairo_vm::vm::vm_core::VirtualMachine;

fn felt(value: u128) -> MaybeRelocatable {
    MaybeRelocatable::Int(Felt::from_u128(value))
}

fn pointer(segment_index: isize, offset: usize) -> MaybeRelocatable {
    MaybeRelocatable::RelocatableValue(Relocatable::new(segment_index, offset))
}

/// Segment 0 holds 1, an address into temporary segment -1, and a gap;
/// temporary segment -1 holds 7, 8 and an address of its own.
fn memory() -> Memory {
    let mut memory = Memory::new();
    memory.add_segment().unwrap();
    memory.add_segment().unwrap();
    memory.add_temporary_segment().unwrap();
    memory.add_temporary_segment().unwrap();
    memory.insert(Relocatable::new(0, 0), felt(1)).unwrap();
    memory.insert(Relocatable::new(0, 1), pointer(-1, 1)).unwrap();
    memory.insert(Relocatable::new(-1, 0), felt(7)).unwrap();
    memory.insert(Relocatable::new(-1, 1), felt(8)).unwrap();
    memory.insert(Relocatable::new(-1, 2), pointer(-1, 0)).unwrap();
    memory
}

#[test]
fn a_temporary_segment_is_merged_into_its_host() {
    let mut memory = memory();
    assert_eq!(memory.add_relocation_rule(Relocatable::new(-1, 0), Relocatable::new(1, 3)), Ok(()));
    let merged = memory.relocate_temporary_segments().unwrap();
    assert_eq!(merged.num_segments(), 2);
    assert_eq!(merged.num_temp_segments(), 0);
    assert_eq!(merged.get(&Relocatable::new(0, 0)), Some(felt(1)));
    assert_eq!(merged.get(&Relocatable::new(0, 1)), Some(pointer(1, 4)));
    assert_eq!(merged.get(&Relocatable::new(1, 2)), None);
    assert_eq!(merged.get(&Relocatable::new(1, 3)), Some(felt(7)));
    assert_eq!(merged.get(&Relocatable::new(1, 4)), Some(felt(8)));
    assert_eq!(merged.get(&Relocatable::new(1, 5)), Some(pointer(1, 3)));
    assert_eq!(merged.segment_used_size(1), 6);
    assert_eq!(merged.get(&Relocatable::new(-1, 0)), None);
    // the memory that was merged is as it was
    assert_eq!(memory.get(&Relocatable::new(-1, 0)), Some(felt(7)));
    assert_eq!(memory.resolve_address(Relocatable::new(-1, 2)), Ok(Relocatable::new(1, 5)));
    assert_eq!(memory.resolve_address(Relocatable::new(0, 2)), Ok(Relocatable::new(0, 2)));
    assert_eq!(memory.resolve_address(Relocatable::new(-2, 0)), Err(MemoryError::UnresolvedTemporarySegment));
    assert_eq!(memory.resolve_value(felt(3)), Ok(felt(3)));
    assert_eq!(memory.resolve_value(pointer(-1, 0)), Ok(pointer(1, 3)));
}

#[test]
fn a_temporary_segment_in_use_needs_a_host() {
    assert_eq!(memory().relocate_temporary_segments().err(), Some(MemoryError::UnresolvedTemporarySegment));
    let mut unused = Memory::new();
    unused.add_segment().unwrap();
    unused.add_temporary_segment().unwrap();
    unused.insert(Relocatable::new(0, 0), felt(1)).unwrap();
    let merged = unused.relocate_temporary_segments().unwrap();
    assert_eq!(merged.get(&Relocatable::new(0, 0)), Some(felt(1)));
    assert_eq!(merged.num_temp_segments(), 0);
}

#[test]
fn merged_cells_obey_the_write_once_rule() {
    let mut memory = memory();
    memory.insert(Relocatable::new(1, 4), felt(8)).unwrap();
    memory.add_relocation_rule(Relocatable::new(-1, 0), Relocatable::new(1, 3)).unwrap();
    assert!(memory.relocate_temporary_segments().is_ok());
    memory.insert(Relocatable::new(1, 3), felt(6)).unwrap();
    assert_eq!(memory.relocate_temporary_segments().err(), Some(MemoryError::InconsistentMemory));
}

#[test]
fn hosts_are_given_once_and_to_temporary_segments_only() {
    let mut memory = memory();
    let host = Relocatable::new(1, 0);
    assert_eq!(memory.add_relocation_rule(Relocatable::new(0, 0), host), Err(MemoryError::AddressNotInTemporarySegment));
    assert_eq!(memory.add_relocation_rule(Relocatable::new(-1, 1), host), Err(MemoryError::NonZeroOffset));
    assert_eq!(
        memory.add_relocation_rule(Relocatable::new(-1, 0), Relocatable::new(-2, 0)),
        Err(MemoryError::AddressInTemporarySegment)
    );
    assert_eq!(memory.add_relocation_rule(Relocatable::new(-3, 0), host), Err(MemoryError::UnallocatedSegment));
    assert_eq!(memory.add_relocation_rule(Relocatable::new(-2, 0), host), Ok(()));
    assert_eq!(memory.add_relocation_rule(Relocatable::new(-2, 0), host), Err(MemoryError::DuplicatedRelocation));
    assert_eq!(memory.add_relocation_rule(Relocatable::new(-1, 0), host), Ok(()));
    assert_eq!(memory.add_relocation_rule(Relocatable::new(-1, 0), host), Err(MemoryError::DuplicatedRelocation));
}

#[test]
fn a_machine_merges_temporary_segments_when_it_is_made_flat() {
    let mut vm = VirtualMachine::new();
    vm.add_memory_segment().unwrap();
    let temporary = vm.add_temporary_segment().unwrap();
    assert_eq!(temporary, Relocatable::new(-1, 0));
    vm.insert_value(Relocatable::new(0, 0), MaybeRelocatable::RelocatableValue(temporary)).unwrap();
    vm.insert_value(temporary, felt(5)).unwrap();
    assert_eq!(vm.relocate().err(), Some(RunnerError::Memory(MemoryError::UnresolvedTemporarySegment)));
    assert_eq!(vm.add_relocation_rule(temporary, Relocatable::new(0, 2)), Ok(()));
    let output = vm.relocate().unwrap();
    assert_eq!(output.memory, vec![Some(Felt::from_u128(2)), None, Some(Felt::from_u128(5))]);
}
