use cairo_vm::felt::Felt;
use cairo_vm::hint_processor::builtin_hint_processor::{BuiltinHintProcessor, FQ_BIGINT_ADD};
use cairo_vm::hint_processor::hint_processor_definition::{ApTracking, HintData, HintReference, OffsetValue};
use cairo_vm::name_map::NameMap;
use cairo_vm::vm::builtin_runner::BuiltinName;
use cairo_vm::vm::cairo_runner::{cairo_run, CairoRunner, Program, RunOutput};
use cairo_vm::vm::errors::{HintError, RunnerError, VirtualMachineError};
use cairo_vm::vm::instruction::Register;
use cairo_vm::vm::relocatable::{MaybeRelocatable, Relocatable};
use cairo_vm::vm::trace_entry::RelocatedTraceEntry;

const ASSERT_IMM: u128 = 0x480680017fff8000;
const CALL_REL: u128 = 0x1104800180018000;
const RET: u128 = 0x208b7fff7fff7ffe;
const AP_ADD: u128 = 0x040780017fff7fff;
const STORE_AT_BUILTIN: u128 = 0x400280007ffd7fff;
const STORE_AT_BUILTIN_1: u128 = 0x400280017ffd7fff;
const LOAD_FROM_BUILTIN_2: u128 = 0x480280027ffd8000;
const LOAD_FROM_BUILTIN_3: u128 = 0x480280037ffd8000;
const LOAD_FROM_BUILTIN_4: u128 = 0x480280047ffd8000;

fn program(words: &[u128], builtins: Vec<BuiltinName>) -> Program {
    Program {
        data: words.iter().map(|w| MaybeRelocatable::Int(Felt::from_u128(*w))).collect(),
        main: 0,
        builtins,
        hints: Vec::new(),
        constants: NameMap::new(),
    }
}

fn felts(values: &[u128]) -> Vec<Option<Felt>> {
    values.iter().map(|v| Some(Felt::from_u128(*v))).collect()
}

fn entry(pc: usize, ap: usize, fp: usize) -> RelocatedTraceEntry {
    RelocatedTraceEntry { pc, ap, fp }
}

fn run(program: Program, max_steps: usize) -> Result<RunOutput, RunnerError> {
    cairo_run(program, max_steps, &BuiltinHintProcessor::new())
}

fn call_and_return() -> Program {
    program(&[CALL_REL, 4, ASSERT_IMM, 7, RET], Vec::new())
}

#[test]
fn a_run_is_set_up_with_the_program_and_the_stack() {
    let runner = CairoRunner::new(program(&[RET], vec![BuiltinName::Output, BuiltinName::RangeCheck])).unwrap();
    let vm = runner.vm();
    assert_eq!(runner.final_pc(), Relocatable::new(5, 0));
    assert_eq!((vm.get_pc(), vm.get_ap(), vm.get_fp()), (Relocatable::new(0, 0), Relocatable::new(1, 4), Relocatable::new(1, 4)));
    assert_eq!(vm.get_maybe(&Relocatable::new(0, 0)), Some(MaybeRelocatable::Int(Felt::from_u128(RET))));
    for i in 0..4 {
        assert_eq!(
            vm.get_maybe(&Relocatable::new(1, i)),
            Some(MaybeRelocatable::RelocatableValue(Relocatable::new(i as isize + 2, 0)))
        );
    }
    assert_eq!(vm.get_maybe(&Relocatable::new(1, 4)), None);
    assert!(vm.get_trace().is_empty());
}

#[test]
fn call_and_return_run_to_the_end() {
    let output = run(call_and_return(), 100).unwrap();
    assert_eq!(output.memory, felts(&[CALL_REL, 4, ASSERT_IMM, 7, RET, 10, 10, 7, 2, 7]));
    assert_eq!(output.trace, vec![entry(0, 7, 7), entry(4, 9, 9), entry(2, 9, 7), entry(4, 10, 7)]);
    assert_eq!(output.builtin_segments, vec![]);
}

#[test]
fn a_run_stops_at_the_step_limit() {
    assert_eq!(run(call_and_return(), 3).err(), Some(RunnerError::StepLimitReached));
    assert!(run(call_and_return(), 4).is_ok());
}

#[test]
fn two_runs_of_one_program_give_the_same_memory_and_trace() {
    let first = run(call_and_return(), 100).unwrap();
    let second = run(call_and_return(), 100).unwrap();
    assert_eq!(first.memory, second.memory);
    assert_eq!(first.trace, second.trace);
    assert_eq!(first.builtin_segments, second.builtin_segments);
}

#[test]
fn a_failing_step_ends_the_run_with_its_program_counter() {
    let failing = program(&[ASSERT_IMM, 7, 1 << 63], Vec::new());
    assert_eq!(
        run(failing, 100).err(),
        Some(RunnerError::Step {
            pc: Relocatable::new(0, 2),
            error: VirtualMachineError::InstructionNonZeroHighBit
        })
    );
}

#[test]
fn range_check_accepts_values_below_two_to_the_128() {
    let words = [ASSERT_IMM, u128::MAX, STORE_AT_BUILTIN, RET];
    let output = run(program(&words, vec![BuiltinName::RangeCheck]), 100).unwrap();
    // segments: program 4 cells, stack 4 cells, range check 1 cell
    assert_eq!(output.builtin_segments, vec![(8, 9)]);
    assert_eq!(output.memory.len(), 9);
    assert_eq!(output.memory[8], Some(Felt::from_u128(u128::MAX)));
    assert_eq!(output.memory[4], Some(Felt::from_u128(8)));
}

#[test]
fn range_check_refuses_two_to_the_128() {
    let mut failing = program(&[ASSERT_IMM, 0, STORE_AT_BUILTIN, RET], vec![BuiltinName::RangeCheck]);
    failing.data[1] = MaybeRelocatable::Int(Felt::from_halves(1, 0).unwrap());
    assert_eq!(run(failing, 100).err(), Some(RunnerError::RangeCheckOutOfBounds));
    let mut negative = program(&[ASSERT_IMM, 0, STORE_AT_BUILTIN, RET], vec![BuiltinName::RangeCheck]);
    negative.data[1] = MaybeRelocatable::Int(Felt::from_i64(-1));
    assert_eq!(run(negative, 100).err(), Some(RunnerError::RangeCheckOutOfBounds));
}

#[test]
fn output_builtin_accepts_any_value() {
    let mut any = program(&[ASSERT_IMM, 0, STORE_AT_BUILTIN, RET], vec![BuiltinName::Output]);
    any.data[1] = MaybeRelocatable::Int(Felt::from_i64(-1));
    let output = run(any, 100).unwrap();
    assert_eq!(output.builtin_segments, vec![(8, 9)]);
    assert_eq!(output.memory[8], Some(Felt::from_i64(-1)));
}

#[test]
fn bitwise_builtin_fills_its_results_during_a_run() {
    let words = [
        ASSERT_IMM,
        12,
        STORE_AT_BUILTIN,
        ASSERT_IMM,
        10,
        STORE_AT_BUILTIN_1,
        LOAD_FROM_BUILTIN_2,
        LOAD_FROM_BUILTIN_3,
        LOAD_FROM_BUILTIN_4,
        RET,
    ];
    let output = run(program(&words, vec![BuiltinName::Bitwise]), 100).unwrap();
    // program 10 cells, stack 3 + 5 cells, bitwise 5 cells
    assert_eq!(output.builtin_segments, vec![(18, 23)]);
    assert_eq!(output.memory[18..23].to_vec(), felts(&[12, 10, 8, 6, 14]));
    assert_eq!(output.memory[13..18].to_vec(), felts(&[12, 10, 8, 6, 14]));
    assert_eq!(output.trace.len(), 8);
}

fn limb_program(n_limbs: u128) -> Program {
    let mut words = Vec::new();
    for value in [1u128, 2, 3, 4, 5, 6] {
        words.push(ASSERT_IMM);
        words.push(value);
    }
    words.extend([AP_ADD, 3, RET]);
    let mut p = program(&words, Vec::new());
    let mut ids_data = NameMap::new();
    for (name, offset) in [("a", 0), ("b", 3)] {
        ids_data.insert(
            name,
            HintReference {
                offset1: OffsetValue::Reference(Register::FP, offset, false),
                offset2: OffsetValue::Value(0),
                dereference: false,
                ap_tracking_data: None,
            },
        );
    }
    p.hints.push(HintData {
        offset: 12,
        code: FQ_BIGINT_ADD.to_string(),
        ap_tracking: ApTracking { group: 0, offset: 0 },
        ids_data,
    });
    p.constants.insert("N_LIMBS", Felt::from_u128(n_limbs));
    p.constants.insert("BASE", Felt::from_u128(1 << 86));
    p.constants.insert("P0", Felt::from_u128(60193888514187762220203335));
    p.constants.insert("P1", Felt::from_u128(27625954992973055882053025));
    p.constants.insert("P2", Felt::from_u128(3656382694611191768777988));
    p
}

#[test]
fn a_hint_runs_before_the_instruction_it_is_attached_to() {
    let output = run(limb_program(3), 100).unwrap();
    // stack segment starts at 15: return frame, end, six limbs, three cells of the hint
    assert_eq!(output.memory[17..26].to_vec(), felts(&[1, 2, 3, 4, 5, 6, 0, 0, 0]));
    assert_eq!(output.memory.len(), 26);
    assert_eq!(output.trace.len(), 8);
    assert_eq!(output.trace[6], entry(12, 23, 17));
    assert_eq!(output.trace[7], entry(14, 26, 17));
}

#[test]
fn a_failing_hint_ends_the_run() {
    assert_eq!(
        run(limb_program(0), 100).err(),
        Some(RunnerError::Step {
            pc: Relocatable::new(0, 12),
            error: VirtualMachineError::Hint(HintError::FailedToGetConstant)
        })
    );
    let mut unknown = limb_program(3);
    unknown.hints[0].code = "something else".to_string();
    assert_eq!(
        run(unknown, 100).err(),
        Some(RunnerError::Step {
            pc: Relocatable::new(0, 12),
            error: VirtualMachineError::Hint(HintError::UnknownHint)
        })
    );
}

#[test]
fn a_hint_that_is_attached_elsewhere_does_not_run() {
    let mut elsewhere = limb_program(0);
    elsewhere.hints[0].offset = 13;
    let output = run(elsewhere, 100).unwrap();
    assert_eq!(output.memory.len(), 23);
}

#[test]
fn steps_can_be_taken_one_by_one() {
    let mut runner = CairoRunner::new(call_and_return()).unwrap();
    let hints = BuiltinHintProcessor::new();
    assert_eq!(runner.step(&hints), Ok(()));
    assert_eq!(runner.vm().get_pc(), Relocatable::new(0, 4));
    let end = runner.final_pc();
    assert_eq!(runner.run_until_pc(end, 2, &hints), Err(RunnerError::StepLimitReached));
    assert_eq!(runner.run_until_pc(end, 1, &hints), Ok(()));
    assert_eq!(runner.vm().get_pc(), end);
    assert_eq!(runner.run_until_pc(end, 0, &hints), Ok(()));
    assert_eq!(runner.relocate().unwrap().trace.len(), 4);
}
