use cairo_vm::felt::Felt;
use cairo_vm::vm::builtin_runner::BuiltinName;
use cairo_vm::vm::errors::{MemoryError, VirtualMachineError};
use cairo_vm::vm::relocatable::{MaybeRelocatable, Relocatable};
use cairo_vm::vm::trace_entry::TraceEntry;
use cairo_vm::vm::vm_core::VirtualMachine;

fn felt(value: u128) -> MaybeRelocatable {
    MaybeRelocatable::Int(Felt::from_u128(value))
}

fn addr(segment_index: isize, offset: usize) -> Relocatable {
    Relocatable::new(segment_index, offset)
}

fn pointer(segment_index: isize, offset: usize) -> MaybeRelocatable {
    MaybeRelocatable::RelocatableValue(addr(segment_index, offset))
}

/// A machine with the program in segment 0 and `stack` in segment 1; pc at
/// (0, 0), ap after the stack, fp at `fp`.
fn machine(program: &[u128], stack: &[MaybeRelocatable], fp: usize) -> VirtualMachine {
    let mut vm = VirtualMachine::new();
    vm.add_memory_segment().unwrap();
    vm.add_memory_segment().unwrap();
    let words: Vec<MaybeRelocatable> = program.iter().map(|w| felt(*w)).collect();
    vm.load_data(addr(0, 0), &words).unwrap();
    vm.load_data(addr(1, 0), &stack.to_vec()).unwrap();
    vm.set_registers(addr(0, 0), addr(1, stack.len()), addr(1, fp));
    vm
}

const ASSERT_IMM: u128 = 0x480680017fff8000;
const CALL_REL: u128 = 0x1104800180018000;
const RET: u128 = 0x208b7fff7fff7ffe;
const ADD: u128 = 0x48307ffe7fff8000;
const MUL: u128 = 0x48507ffe7fff8000;
const ADD_OP0_MISSING: u128 = 0x48307ffe80007fff;
const MUL_OP0_MISSING: u128 = 0x48507ffe80007fff;
const JMP_REL: u128 = 0x010780017fff7fff;
const JNZ: u128 = 0x020680017fff7fff;
const AP_ADD: u128 = 0x040780017fff7fff;

#[test]
fn assertion_writes_an_empty_destination() {
    let mut vm = machine(&[ASSERT_IMM, 7], &[felt(0)], 1);
    assert_eq!(vm.step_instruction(), Ok(()));
    assert_eq!(vm.get_maybe(&addr(1, 1)), Some(felt(7)));
    assert_eq!((vm.get_pc(), vm.get_ap(), vm.get_fp()), (addr(0, 2), addr(1, 2), addr(1, 1)));
    assert_eq!(vm.get_trace(), &vec![TraceEntry { pc: addr(0, 0), ap: addr(1, 1), fp: addr(1, 1) }]);
}

#[test]
fn assertion_verifies_a_written_destination() {
    let mut vm = machine(&[ASSERT_IMM, 7], &[felt(0)], 1);
    vm.insert_value(addr(1, 1), felt(7)).unwrap();
    assert_eq!(vm.step_instruction(), Ok(()));
    let mut vm = machine(&[ASSERT_IMM, 7], &[felt(0)], 1);
    vm.insert_value(addr(1, 1), felt(8)).unwrap();
    assert_eq!(vm.step_instruction(), Err(VirtualMachineError::DiffAssertValues));
    assert_eq!((vm.get_pc(), vm.get_ap(), vm.get_fp()), (addr(0, 0), addr(1, 1), addr(1, 1)));
    assert!(vm.get_trace().is_empty());
}

#[test]
fn sums_and_products_are_taken_in_the_field() {
    let mut vm = machine(&[ADD], &[felt(2), felt(3)], 0);
    assert_eq!(vm.step_instruction(), Ok(()));
    assert_eq!(vm.get_maybe(&addr(1, 2)), Some(felt(5)));
    let mut vm = machine(&[MUL], &[felt(2), felt(3)], 0);
    assert_eq!(vm.step_instruction(), Ok(()));
    assert_eq!(vm.get_maybe(&addr(1, 2)), Some(felt(6)));
    let mut vm = machine(&[ADD], &[MaybeRelocatable::Int(Felt::from_i64(-1)), felt(3)], 0);
    assert_eq!(vm.step_instruction(), Ok(()));
    assert_eq!(vm.get_maybe(&addr(1, 2)), Some(felt(2)));
    let mut vm = machine(&[ADD], &[felt(2), pointer(1, 0)], 0);
    assert_eq!(vm.step_instruction(), Ok(()));
    assert_eq!(vm.get_maybe(&addr(1, 2)), Some(pointer(1, 2)));
    let mut vm = machine(&[MUL], &[felt(2), pointer(1, 0)], 0);
    assert_eq!(vm.step_instruction(), Err(VirtualMachineError::ComputeResRelocatableMul));
}

#[test]
fn a_missing_operand_is_filled_from_the_destination() {
    // [ap - 1] = [ap] + [ap - 2]: operand 0 is what is missing to 3 from 2.
    let mut vm = machine(&[ADD_OP0_MISSING], &[felt(2), felt(3)], 0);
    assert_eq!(vm.step_instruction(), Ok(()));
    assert_eq!(vm.get_maybe(&addr(1, 2)), Some(felt(1)));
    // [ap - 1] = [ap] * [ap - 2]: operand 0 is 6 / 2.
    let mut vm = machine(&[MUL_OP0_MISSING], &[felt(2), felt(6)], 0);
    assert_eq!(vm.step_instruction(), Ok(()));
    assert_eq!(vm.get_maybe(&addr(1, 2)), Some(felt(3)));
    // no quotient by zero
    let mut vm = machine(&[MUL_OP0_MISSING], &[felt(0), felt(6)], 0);
    assert_eq!(vm.step_instruction(), Err(VirtualMachineError::FailedToComputeOperands));
    assert_eq!(vm.get_maybe(&addr(1, 2)), None);
}

#[test]
fn operands_that_cannot_be_found_stop_the_step() {
    let mut vm = machine(&[ADD], &[felt(2)], 0);
    assert_eq!(vm.step_instruction(), Err(VirtualMachineError::Math(cairo_vm::vm::errors::MathError::NegativeOffset)));
    let mut vm = machine(&[RET], &[felt(2), felt(3)], 2);
    assert_eq!(vm.step_instruction(), Err(VirtualMachineError::JumpAbsoluteNotRelocatable));
    let mut vm = VirtualMachine::new();
    vm.add_memory_segment().unwrap();
    assert_eq!(vm.step_instruction(), Err(VirtualMachineError::Memory(MemoryError::UnknownMemoryCell)));
    vm.insert_value(addr(0, 0), pointer(0, 0)).unwrap();
    assert_eq!(vm.step_instruction(), Err(VirtualMachineError::InvalidInstructionEncoding));
    let mut vm = machine(&[1 << 64], &[], 0);
    assert_eq!(vm.step_instruction(), Err(VirtualMachineError::InvalidInstructionEncoding));
    let mut vm = machine(&[1 << 63], &[], 0);
    assert_eq!(vm.step_instruction(), Err(VirtualMachineError::InstructionNonZeroHighBit));
}

#[test]
fn call_stores_the_frame_and_return_restores_it() {
    let mut vm = machine(&[CALL_REL, 4, ASSERT_IMM, 7, RET], &[pointer(2, 0), pointer(3, 0)], 2);
    assert_eq!(vm.step_instruction(), Ok(()));
    assert_eq!(vm.get_maybe(&addr(1, 2)), Some(pointer(1, 2)));
    assert_eq!(vm.get_maybe(&addr(1, 3)), Some(pointer(0, 2)));
    assert_eq!((vm.get_pc(), vm.get_ap(), vm.get_fp()), (addr(0, 4), addr(1, 4), addr(1, 4)));
    assert_eq!(vm.step_instruction(), Ok(()));
    assert_eq!((vm.get_pc(), vm.get_ap(), vm.get_fp()), (addr(0, 2), addr(1, 4), addr(1, 2)));
}

#[test]
fn call_refuses_a_frame_cell_that_holds_something_else() {
    let mut vm = machine(&[CALL_REL, 4], &[pointer(2, 0), pointer(3, 0)], 2);
    vm.insert_value(addr(1, 3), pointer(0, 3)).unwrap();
    assert_eq!(vm.step_instruction(), Err(VirtualMachineError::CantWriteReturnPc));
    let mut vm = machine(&[CALL_REL, 4], &[pointer(2, 0), pointer(3, 0)], 2);
    vm.insert_value(addr(1, 2), pointer(1, 1)).unwrap();
    assert_eq!(vm.step_instruction(), Err(VirtualMachineError::CantWriteReturnFp));
}

#[test]
fn jumps_move_the_program_counter() {
    let mut vm = machine(&[JMP_REL, 5], &[felt(1)], 1);
    assert_eq!(vm.step_instruction(), Ok(()));
    assert_eq!(vm.get_pc(), addr(0, 5));
    // jump if [ap - 1] != 0
    let mut vm = machine(&[JNZ, 5], &[felt(1)], 1);
    assert_eq!(vm.step_instruction(), Ok(()));
    assert_eq!(vm.get_pc(), addr(0, 5));
    let mut vm = machine(&[JNZ, 5], &[felt(0)], 1);
    assert_eq!(vm.step_instruction(), Ok(()));
    assert_eq!(vm.get_pc(), addr(0, 2));
    let mut vm = machine(&[JNZ, 5], &[pointer(1, 0)], 1);
    assert_eq!(vm.step_instruction(), Ok(()));
    assert_eq!(vm.get_pc(), addr(0, 5));
}

#[test]
fn allocation_pointer_moves_by_the_result() {
    let mut vm = machine(&[AP_ADD, 3], &[felt(1)], 1);
    assert_eq!(vm.step_instruction(), Ok(()));
    assert_eq!((vm.get_pc(), vm.get_ap(), vm.get_fp()), (addr(0, 2), addr(1, 4), addr(1, 1)));
}

#[test]
fn immediate_has_to_be_the_next_word() {
    // as ASSERT_IMM, but with offset 2 for the immediate
    let mut vm = machine(&[0x480680027fff8000, 7, 7], &[felt(0)], 1);
    assert_eq!(vm.step_instruction(), Err(VirtualMachineError::ImmShouldBe1));
}

#[test]
fn bitwise_builtin_fills_the_cells_it_can_deduce() {
    let mut vm = VirtualMachine::new();
    vm.add_memory_segment().unwrap();
    let base = vm.add_builtin(BuiltinName::Bitwise).unwrap();
    assert_eq!(base, addr(1, 0));
    assert_eq!(vm.deduce_memory_cell(addr(1, 2)), None);
    vm.insert_value(addr(1, 0), felt(12)).unwrap();
    vm.insert_value(addr(1, 1), felt(10)).unwrap();
    assert_eq!(vm.deduce_memory_cell(addr(1, 0)), None);
    assert_eq!(vm.deduce_memory_cell(addr(1, 2)), Some(felt(8)));
    assert_eq!(vm.deduce_memory_cell(addr(1, 3)), Some(felt(6)));
    assert_eq!(vm.deduce_memory_cell(addr(1, 4)), Some(felt(14)));
    assert_eq!(vm.deduce_memory_cell(addr(1, 7)), None);
    assert_eq!(vm.deduce_memory_cell(addr(0, 2)), None);
    vm.insert_value(addr(1, 5), MaybeRelocatable::Int(Felt::from_i64(-1))).unwrap();
    vm.insert_value(addr(1, 6), felt(1)).unwrap();
    assert_eq!(vm.deduce_memory_cell(addr(1, 7)), None);
}
