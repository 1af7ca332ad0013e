use cairo_vm::felt::Felt;
use cairo_vm::vm::builtin_runner::{BuiltinName, BuiltinRunner};
use cairo_vm::vm::errors::RunnerError;
use cairo_vm::vm::memory_segments::MemorySegmentManager;
use cairo_vm::vm::relocatable::{MaybeRelocatable, Relocatable};

fn felt(value: u128) -> MaybeRelocatable {
    MaybeRelocatable::Int(Felt::from_u128(value))
}

fn with_segment(name: BuiltinName) -> (BuiltinRunner, MemorySegmentManager) {
    let mut segments = MemorySegmentManager::new();
    segments.add().unwrap();
    let mut builtin = BuiltinRunner::new(name);
    assert_eq!(builtin.initialize_segments(&mut segments), Ok(()));
    assert_eq!(builtin.base, 1);
    (builtin, segments)
}

#[test]
fn range_check_accepts_an_empty_segment() {
    let (builtin, segments) = with_segment(BuiltinName::RangeCheck);
    assert_eq!(builtin.validate_segment(&segments.memory), Ok(()));
}

#[test]
fn range_check_accepts_exactly_the_values_below_two_to_the_128() {
    let (builtin, mut segments) = with_segment(BuiltinName::RangeCheck);
    segments.memory.insert(Relocatable::new(1, 0), felt(0)).unwrap();
    segments.memory.insert(Relocatable::new(1, 3), felt(u128::MAX)).unwrap();
    assert_eq!(builtin.validate_segment(&segments.memory), Ok(()));
    segments.memory.insert(Relocatable::new(1, 2), MaybeRelocatable::Int(Felt::from_halves(1, 0).unwrap())).unwrap();
    assert_eq!(builtin.validate_segment(&segments.memory), Err(RunnerError::RangeCheckOutOfBounds));
}

#[test]
fn range_check_refuses_negative_values_and_addresses() {
    let (builtin, mut segments) = with_segment(BuiltinName::RangeCheck);
    segments.memory.insert(Relocatable::new(1, 0), MaybeRelocatable::Int(Felt::from_i64(-1))).unwrap();
    assert_eq!(builtin.validate_segment(&segments.memory), Err(RunnerError::RangeCheckOutOfBounds));
    let (builtin, mut segments) = with_segment(BuiltinName::RangeCheck);
    segments.memory.insert(Relocatable::new(1, 0), MaybeRelocatable::RelocatableValue(Relocatable::new(0, 0))).unwrap();
    assert_eq!(builtin.validate_segment(&segments.memory), Err(RunnerError::RangeCheckOutOfBounds));
}

#[test]
fn range_check_looks_at_its_own_segment_only() {
    let (builtin, mut segments) = with_segment(BuiltinName::RangeCheck);
    segments.memory.insert(Relocatable::new(0, 0), MaybeRelocatable::Int(Felt::from_i64(-1))).unwrap();
    assert_eq!(builtin.validate_segment(&segments.memory), Ok(()));
}

#[test]
fn other_builtins_accept_what_they_hold() {
    for name in [BuiltinName::Output, BuiltinName::Bitwise] {
        let (builtin, mut segments) = with_segment(name);
        segments.memory.insert(Relocatable::new(1, 0), MaybeRelocatable::Int(Felt::from_i64(-1))).unwrap();
        assert_eq!(builtin.validate_segment(&segments.memory), Ok(()));
    }
}

#[test]
fn builtins_report_their_segment() {
    let (builtin, mut segments) = with_segment(BuiltinName::Bitwise);
    assert_eq!(builtin.cells_per_instance(), 5);
    assert_eq!(BuiltinRunner::new(BuiltinName::Output).cells_per_instance(), 1);
    assert_eq!(BuiltinRunner::new(BuiltinName::RangeCheck).cells_per_instance(), 1);
    assert_eq!(builtin.initial_stack(), MaybeRelocatable::RelocatableValue(Relocatable::new(1, 0)));
    assert_eq!(builtin.segment_bounds(&segments.memory), (Relocatable::new(1, 0), Relocatable::new(1, 0)));
    segments.memory.insert(Relocatable::new(1, 6), felt(1)).unwrap();
    assert_eq!(builtin.segment_bounds(&segments.memory), (Relocatable::new(1, 0), Relocatable::new(1, 7)));
}

#[test]
fn bitwise_deduces_the_last_three_cells_of_an_instance() {
    let (builtin, mut segments) = with_segment(BuiltinName::Bitwise);
    segments.memory.insert(Relocatable::new(1, 5), felt(0b1100)).unwrap();
    assert_eq!(builtin.deduce_memory_cell(Relocatable::new(1, 7), &segments.memory), None);
    segments.memory.insert(Relocatable::new(1, 6), felt(0b1010)).unwrap();
    assert_eq!(builtin.deduce_memory_cell(Relocatable::new(1, 5), &segments.memory), None);
    assert_eq!(builtin.deduce_memory_cell(Relocatable::new(1, 6), &segments.memory), None);
    assert_eq!(builtin.deduce_memory_cell(Relocatable::new(1, 7), &segments.memory), Some(felt(0b1000)));
    assert_eq!(builtin.deduce_memory_cell(Relocatable::new(1, 8), &segments.memory), Some(felt(0b0110)));
    assert_eq!(builtin.deduce_memory_cell(Relocatable::new(1, 9), &segments.memory), Some(felt(0b1110)));
    assert_eq!(builtin.deduce_memory_cell(Relocatable::new(0, 7), &segments.memory), None);
    let range_check = BuiltinRunner { name: BuiltinName::RangeCheck, base: 1 };
    assert_eq!(range_check.deduce_memory_cell(Relocatable::new(1, 7), &segments.memory), None);
}

#[test]
fn bitwise_works_on_the_high_halves_too() {
    let (builtin, mut segments) = with_segment(BuiltinName::Bitwise);
    let x = Felt::from_halves(0b0101, u128::MAX).unwrap();
    let y = Felt::from_halves(0b0011, 1).unwrap();
    segments.memory.insert(Relocatable::new(1, 0), MaybeRelocatable::Int(x)).unwrap();
    segments.memory.insert(Relocatable::new(1, 1), MaybeRelocatable::Int(y)).unwrap();
    let cell = |offset| builtin.deduce_memory_cell(Relocatable::new(1, offset), &segments.memory);
    assert_eq!(cell(2), Some(MaybeRelocatable::Int(Felt::from_halves(0b0001, 1).unwrap())));
    assert_eq!(cell(3), Some(MaybeRelocatable::Int(Felt::from_halves(0b0110, u128::MAX - 1).unwrap())));
    assert_eq!(cell(4), Some(MaybeRelocatable::Int(Felt::from_halves(0b0111, u128::MAX).unwrap())));
}
