use cairo_vm::felt::Felt;
use cairo_vm::hint_processor::fq_bigint_add::{fq_bigint_add, limb_flags};
use cairo_vm::hint_processor::hint_processor_definition::{ApTracking, HintReference};
use cairo_vm::name_map::NameMap;
use cairo_vm::vm::errors::{HintError, MemoryError};
use cairo_vm::vm::relocatable::{MaybeRelocatable, Relocatable};
use cairo_vm::vm::vm_core::VirtualMachine;

const P0: u128 = 60193888514187762220203335;
const P1: u128 = 27625954992973055882053025;
const P2: u128 = 3656382694611191768777988;
const BASE: u128 = 1 << 86;

fn felt(value: u128) -> MaybeRelocatable {
    MaybeRelocatable::Int(Felt::from_u128(value))
}

fn minus_one() -> MaybeRelocatable {
    MaybeRelocatable::Int(Felt::from_i64(-1))
}

fn constants(n_limbs: u128) -> NameMap<Felt> {
    let mut constants = NameMap::new();
    constants.insert("N_LIMBS", Felt::from_u128(n_limbs));
    constants.insert("BASE", Felt::from_u128(BASE));
    constants.insert("P0", Felt::from_u128(P0));
    constants.insert("P1", Felt::from_u128(P1));
    constants.insert("P2", Felt::from_u128(P2));
    constants
}

fn ids_data() -> NameMap<HintReference> {
    let mut ids = NameMap::new();
    ids.insert("a", HintReference::new_simple(0));
    ids.insert("b", HintReference::new_simple(1));
    ids
}

/// A machine with fp at (1, 0) and ap at (1, 2); the cells at fp and fp + 1
/// point to the limbs of `a` and `b` in segment 2.
fn machine(a: [u128; 3], b: [u128; 3]) -> VirtualMachine {
    let mut vm = VirtualMachine::new();
    for _ in 0..3 {
        vm.add_memory_segment().unwrap();
    }
    vm.set_registers(Relocatable::new(0, 0), Relocatable::new(1, 2), Relocatable::new(1, 0));
    vm.insert_value(Relocatable::new(1, 0), MaybeRelocatable::RelocatableValue(Relocatable::new(2, 0))).unwrap();
    vm.insert_value(Relocatable::new(1, 1), MaybeRelocatable::RelocatableValue(Relocatable::new(2, 3))).unwrap();
    for i in 0..3 {
        vm.insert_value(Relocatable::new(2, i), felt(a[i])).unwrap();
        vm.insert_value(Relocatable::new(2, i + 3), felt(b[i])).unwrap();
    }
    vm
}

fn tracking() -> ApTracking {
    ApTracking { group: 0, offset: 0 }
}

fn written(vm: &VirtualMachine) -> [Option<MaybeRelocatable>; 4] {
    [
        vm.get_maybe(&Relocatable::new(1, 2)),
        vm.get_maybe(&Relocatable::new(1, 3)),
        vm.get_maybe(&Relocatable::new(1, 4)),
        vm.get_maybe(&Relocatable::new(1, 5)),
    ]
}

#[test]
fn sum_below_modulus_without_carries() {
    let mut vm = machine([1, 2, 3], [4, 5, 6]);
    assert_eq!(fq_bigint_add(&mut vm, &ids_data(), &tracking(), &constants(3)), Ok(()));
    assert_eq!(written(&vm), [Some(felt(0)), Some(felt(0)), Some(felt(0)), None]);
}

#[test]
fn carry_passes_through_limb_one() {
    let mut vm = machine([BASE - 1, BASE - 1, 0], [1, 0, 0]);
    assert_eq!(fq_bigint_add(&mut vm, &ids_data(), &tracking(), &constants(3)), Ok(()));
    assert_eq!(written(&vm), [Some(felt(0)), Some(felt(1)), Some(felt(0)), None]);
}

#[test]
fn carry_out_of_limb_one_only() {
    let mut vm = machine([0, BASE - 1, 7], [0, 1, 8]);
    assert_eq!(fq_bigint_add(&mut vm, &ids_data(), &tracking(), &constants(3)), Ok(()));
    assert_eq!(written(&vm), [Some(felt(0)), Some(felt(1)), Some(felt(0)), None]);
}

#[test]
fn sum_equal_to_modulus_needs_reduction() {
    let mut vm = machine([P0, P1, P2], [0, 0, 0]);
    assert_eq!(fq_bigint_add(&mut vm, &ids_data(), &tracking(), &constants(3)), Ok(()));
    assert_eq!(written(&vm), [Some(felt(1)), Some(felt(0)), Some(felt(0)), None]);
}

#[test]
fn reduction_borrows_from_limb_one() {
    // limb sums (0, 0, P2 + 1): limb 0 borrows, limb 1 borrows again, limb 2 pays.
    let mut vm = machine([0, 0, P2], [0, 0, 1]);
    assert_eq!(fq_bigint_add(&mut vm, &ids_data(), &tracking(), &constants(3)), Ok(()));
    assert_eq!(written(&vm), [Some(felt(1)), Some(minus_one()), Some(felt(0)), None]);
}

#[test]
fn reduction_borrow_is_paid_by_next_limb() {
    // limb sums (0, P1 + 1, P2): limb 0 borrows, limb 1 pays with its surplus of 1.
    let mut vm = machine([0, P1, P2], [0, 1, 0]);
    assert_eq!(fq_bigint_add(&mut vm, &ids_data(), &tracking(), &constants(3)), Ok(()));
    assert_eq!(written(&vm), [Some(felt(1)), Some(felt(0)), Some(felt(0)), None]);
}

#[test]
fn reduction_carries_where_limb_reaches_base() {
    // limb 1: P1 + BASE + 5 - P1 - 1 = BASE + 4 reaches the base.
    let mut vm = machine([0, P1 + 5, P2], [0, BASE, 0]);
    assert_eq!(fq_bigint_add(&mut vm, &ids_data(), &tracking(), &constants(3)), Ok(()));
    assert_eq!(written(&vm), [Some(felt(1)), Some(felt(1)), Some(felt(0)), None]);
}

#[test]
fn limb_flags_gives_flag_of_limb_zero_too() {
    let felts = |v: [u128; 3]| v.iter().map(|x| Felt::from_u128(*x)).collect::<Vec<_>>();
    let r = limb_flags(&felts([BASE - 1, 0, 0]), &felts([1, 0, 0]), &felts([P0, P1, P2]), &Felt::from_u128(BASE)).unwrap();
    assert_eq!(r.needs_reduction, Felt::from_u128(0));
    assert_eq!(r.flags, vec![Felt::from_u128(1), Felt::from_u128(0), Felt::from_u128(0)]);
    let r = limb_flags(&felts([0, 0, P2]), &felts([0, 0, 1]), &felts([P0, P1, P2]), &Felt::from_u128(BASE)).unwrap();
    assert!(limb_flags(&felts([0, 0, P2]), &Vec::new(), &felts([P0, P1, P2]), &Felt::from_u128(BASE)).is_none());
    assert_eq!(r.needs_reduction, Felt::from_u128(1));
    assert_eq!(r.flags, vec![Felt::from_i64(-1), Felt::from_i64(-1), Felt::from_u128(0)]);
}

#[test]
fn limb_count_zero_is_rejected_before_memory_is_touched() {
    let mut vm = VirtualMachine::new();
    let r = fq_bigint_add(&mut vm, &NameMap::new(), &tracking(), &constants(0));
    assert_eq!(r, Err(HintError::FailedToGetConstant));
}

#[test]
fn limb_count_above_255_is_rejected() {
    let mut vm = machine([1, 2, 3], [4, 5, 6]);
    assert_eq!(
        fq_bigint_add(&mut vm, &ids_data(), &tracking(), &constants(256)),
        Err(HintError::FailedToGetConstant)
    );
    assert_eq!(written(&vm), [None, None, None, None]);
    let mut huge = constants(3);
    huge.insert("N_LIMBS", Felt::from_i64(-1));
    assert_eq!(fq_bigint_add(&mut vm, &ids_data(), &tracking(), &huge), Err(HintError::FailedToGetConstant));
    assert_eq!(written(&vm), [None, None, None, None]);
}

#[test]
fn missing_constants_are_reported() {
    let mut vm = machine([1, 2, 3], [4, 5, 6]);
    let mut constants = NameMap::new();
    assert_eq!(fq_bigint_add(&mut vm, &ids_data(), &tracking(), &constants), Err(HintError::MissingConstant));
    constants.insert("N_LIMBS", Felt::from_u128(3));
    assert_eq!(fq_bigint_add(&mut vm, &ids_data(), &tracking(), &constants), Err(HintError::MissingConstant));
    constants.insert("BASE", Felt::from_u128(BASE));
    constants.insert("P0", Felt::from_u128(P0));
    constants.insert("P1", Felt::from_u128(P1));
    assert_eq!(fq_bigint_add(&mut vm, &ids_data(), &tracking(), &constants), Err(HintError::MissingConstant));
    assert_eq!(written(&vm), [None, None, None, None]);
}

#[test]
fn unknown_variable_is_reported() {
    let mut vm = machine([1, 2, 3], [4, 5, 6]);
    let mut ids = NameMap::new();
    ids.insert("a", HintReference::new_simple(0));
    assert_eq!(fq_bigint_add(&mut vm, &ids, &tracking(), &constants(3)), Err(HintError::UnknownIdentifier));
}

#[test]
fn missing_limb_in_memory_is_reported() {
    let mut vm = VirtualMachine::new();
    for _ in 0..3 {
        vm.add_memory_segment().unwrap();
    }
    vm.set_registers(Relocatable::new(0, 0), Relocatable::new(1, 2), Relocatable::new(1, 0));
    vm.insert_value(Relocatable::new(1, 0), MaybeRelocatable::RelocatableValue(Relocatable::new(2, 0))).unwrap();
    vm.insert_value(Relocatable::new(1, 1), MaybeRelocatable::RelocatableValue(Relocatable::new(2, 3))).unwrap();
    vm.insert_value(Relocatable::new(2, 0), felt(1)).unwrap();
    assert_eq!(
        fq_bigint_add(&mut vm, &ids_data(), &tracking(), &constants(3)),
        Err(HintError::Memory(MemoryError::UnknownMemoryCell))
    );
}

#[test]
fn conflicting_cell_stops_the_hint_with_earlier_cells_written() {
    let mut vm = machine([BASE - 1, BASE - 1, 0], [1, 0, 0]);
    vm.insert_value(Relocatable::new(1, 3), felt(0)).unwrap();
    assert_eq!(
        fq_bigint_add(&mut vm, &ids_data(), &tracking(), &constants(3)),
        Err(HintError::Memory(MemoryError::InconsistentMemory))
    );
    assert_eq!(written(&vm), [Some(felt(0)), Some(felt(0)), None, None]);
}

#[test]
fn two_runs_on_equal_machines_agree() {
    let mut first = machine([BASE - 1, BASE - 1, 0], [1, 0, 0]);
    let mut second = machine([BASE - 1, BASE - 1, 0], [1, 0, 0]);
    let r1 = fq_bigint_add(&mut first, &ids_data(), &tracking(), &constants(3));
    let r2 = fq_bigint_add(&mut second, &ids_data(), &tracking(), &constants(3));
    assert_eq!(r1, r2);
    assert_eq!(written(&first), written(&second));
}
