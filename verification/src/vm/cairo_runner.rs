//! A run from start to end: the machine is set up for a program, steps until
//! the program counter reaches the end of the program, and is then made flat.
//!
//! Every part of a run is a function of the program and of the hint processor
//! alone, so two runs of one program give the same memory and the same trace.

use vstd::prelude::*;
use crate::felt::Felt;
use crate::hint_processor::hint_processor_definition::{HintData, HintDataView, HintProcessor};
use crate::name_map::NameMap;
use crate::vm::builtin_runner::{segment_accepted, BuiltinName, BuiltinRunner};
use crate::vm::errors::{HintError, MemoryError, RunnerError, VirtualMachineError};
use crate::vm::memory::MemoryView;
use crate::vm::memory_segments::{relocated_address, relocation};
use crate::vm::relocatable::{MaybeRelocatable, Relocatable};
use crate::vm::run_context::RunContext;
use crate::vm::trace_entry::{RelocatedTraceEntry, TraceEntry};
use crate::vm::vm_core::{lemma_stepped_extends, stepped, VirtualMachine, VmView};

verus! {

/// A program: its words, the offset at which it starts, the builtins it
/// uses, its hints and its constants.
pub struct Program {
    pub data: Vec<MaybeRelocatable>,
    pub main: usize,
    pub builtins: Vec<BuiltinName>,
    pub hints: Vec<HintData>,
    pub constants: NameMap<Felt>,
}

/// The model of a program.
pub struct ProgramView {
    pub data: Seq<MaybeRelocatable>,
    pub main: usize,
    pub builtins: Seq<BuiltinName>,
    pub hints: Seq<HintDataView>,
    pub constants: Map<Seq<char>, Felt>,
}

impl View for Program {
    type V = ProgramView;

    open spec fn view(&self) -> ProgramView {
        ProgramView {
            data: self.data@,
            main: self.main,
            builtins: self.builtins@,
            hints: Seq::new(self.hints@.len(), |i: int| self.hints@[i]@),
            constants: self.constants@,
        }
    }
}

/// The address of the first cell of a segment.
pub open spec fn segment_start(segment_index: int) -> Relocatable {
    Relocatable { segment_index: segment_index as isize, offset: 0 }
}

/// The builtins of a program with their segments: the program has segment 0,
/// the stack segment 1, and the builtins the segments after these, in the
/// order in which the program names them.
pub open spec fn builtins_of(names: Seq<BuiltinName>) -> Seq<BuiltinRunner> {
    Seq::new(names.len(), |i: int| BuiltinRunner { name: names[i], base: (i + 2) as isize })
}

/// What is on the stack when a program starts: the segment of each builtin,
/// then the frame to return to and the address at which the program ends,
/// each the start of a segment of its own.
pub open spec fn initial_stack(names: Seq<BuiltinName>) -> Seq<MaybeRelocatable> {
    Seq::new(names.len() + 2, |i: int| MaybeRelocatable::RelocatableValue(segment_start(i + 2)))
}

/// The address at which a program ends.
pub open spec fn end_of(program: ProgramView) -> Relocatable {
    segment_start(program.builtins.len() as int + 3)
}

/// The machine set up for a program: the program in segment 0, the stack in
/// segment 1, the program counter at the start of the program, and the
/// allocation and frame pointers after the stack.
pub open spec fn initial_state(program: ProgramView) -> Result<VmView, RunnerError> {
    let n = program.builtins.len();
    let empty = MemoryView::empty(n + 4);
    let loaded = empty.write_range(segment_start(0), program.data, program.data.len());
    let stacked = loaded.0.write_range(segment_start(1), initial_stack(program.builtins), n + 2);
    if n + 4 > isize::MAX {
        Err(RunnerError::TooManySegments)
    } else if loaded.1 is Some {
        Err(RunnerError::Memory(loaded.1->0))
    } else if stacked.1 is Some {
        Err(RunnerError::Memory(stacked.1->0))
    } else {
        Ok(
            VmView {
                run_context: RunContext {
                    pc: Relocatable { segment_index: 0, offset: program.main },
                    ap: Relocatable { segment_index: 1, offset: (n + 2) as usize },
                    fp: Relocatable { segment_index: 1, offset: (n + 2) as usize },
                },
                memory: stacked.0,
                builtins: builtins_of(program.builtins),
                trace: Seq::empty(),
            },
        )
    }
}

/// Whether a hint runs before the instruction at `pc`.
pub open spec fn attached(hint: HintDataView, pc: Relocatable) -> bool {
    pc.segment_index == 0 && pc.offset == hint.offset
}

/// The machine after those of the first `n` hints of the program that are
/// attached to the program counter have run, in the order of the program, and
/// the error of the first of them that failed.
pub open spec fn hints_run<H: HintProcessor>(hint_processor: H, program: ProgramView, vm: VmView, n: nat) -> (
    VmView,
    Option<HintError>,
)
    decreases n,
{
    if n == 0 {
        (vm, None)
    } else {
        let before = hints_run(hint_processor, program, vm, (n - 1) as nat);
        if before.1 is Some || !attached(program.hints[n - 1], vm.run_context.pc) {
            before
        } else {
            let effect = hint_processor.effect(before.0, program.hints[n - 1], program.constants);
            (VmView { memory: effect.0, ..before.0 }, effect.1)
        }
    }
}

/// The machine after one step of a run: the hints attached to the program
/// counter run first, then the instruction there.
pub open spec fn run_step<H: HintProcessor>(hint_processor: H, program: ProgramView, vm: VmView) -> (
    VmView,
    Option<VirtualMachineError>,
) {
    let hinted = hints_run(hint_processor, program, vm, program.hints.len());
    match hinted.1 {
        Some(e) => (hinted.0, Some(VirtualMachineError::Hint(e))),
        None => stepped(hinted.0),
    }
}

/// The machine after it has stepped until the program counter is `end`, for
/// at most `steps` steps, and why it stopped if it did not get there. A step
/// that fails ends the run with its error and the program counter at which
/// it failed.
pub open spec fn run<H: HintProcessor>(hint_processor: H, program: ProgramView, vm: VmView, end: Relocatable, steps: nat) -> (
    VmView,
    Option<RunnerError>,
)
    decreases steps,
{
    if vm.run_context.pc == end {
        (vm, None)
    } else if steps == 0 {
        (vm, Some(RunnerError::StepLimitReached))
    } else {
        let next = run_step(hint_processor, program, vm);
        match next.1 {
            Some(error) => (next.0, Some(RunnerError::Step { pc: vm.run_context.pc, error })),
            None => run(hint_processor, program, next.0, end, (steps - 1) as nat),
        }
    }
}

/// The registers of one step as flat addresses.
pub open spec fn relocated_entry(entry: TraceEntry, table: Seq<usize>) -> Result<RelocatedTraceEntry, MemoryError> {
    match (relocated_address(entry.pc, table), relocated_address(entry.ap, table), relocated_address(entry.fp, table)) {
        (Ok(pc), Ok(ap), Ok(fp)) => Ok(RelocatedTraceEntry { pc, ap, fp }),
        (Err(e), _, _) => Err(e),
        (_, Err(e), _) => Err(e),
        (_, _, Err(e)) => Err(e),
    }
}

/// The first `n` entries of a trace with flat addresses, in their order; the
/// error of the first entry that has none.
pub open spec fn relocated_trace(trace: Seq<TraceEntry>, table: Seq<usize>, n: nat) -> Result<
    Seq<RelocatedTraceEntry>,
    MemoryError,
>
    decreases n,
{
    if n == 0 {
        Ok(Seq::empty())
    } else {
        match relocated_trace(trace, table, (n - 1) as nat) {
            Ok(entries) => match relocated_entry(trace[n - 1], table) {
                Ok(entry) => Ok(entries.push(entry)),
                Err(e) => Err(e),
            },
            Err(e) => Err(e),
        }
    }
}

/// Where the segment of a builtin starts and ends in the flat address space.
pub open spec fn relocated_bounds(builtin: BuiltinRunner, memory: MemoryView, table: Seq<usize>) -> Result<
    (usize, usize),
    MemoryError,
> {
    match (
        relocated_address(Relocatable { segment_index: builtin.base, offset: 0 }, table),
        relocated_address(
            Relocatable { segment_index: builtin.base, offset: memory.segment_size(builtin.base as int) as usize },
            table,
        ),
    ) {
        (Ok(start), Ok(stop)) => Ok((start, stop)),
        (Err(e), _) => Err(e),
        (_, Err(e)) => Err(e),
    }
}

/// The bounds of the segments of the first `n` builtins; the error of the
/// first that has none.
pub open spec fn relocated_builtins(builtins: Seq<BuiltinRunner>, memory: MemoryView, table: Seq<usize>, n: nat) -> Result<
    Seq<(usize, usize)>,
    MemoryError,
>
    decreases n,
{
    if n == 0 {
        Ok(Seq::empty())
    } else {
        match relocated_builtins(builtins, memory, table, (n - 1) as nat) {
            Ok(bounds) => match relocated_bounds(builtins[n - 1], memory, table) {
                Ok(bound) => Ok(bounds.push(bound)),
                Err(e) => Err(e),
            },
            Err(e) => Err(e),
        }
    }
}

/// What a run hands on: the flat memory, the trace in flat addresses, and the
/// bounds of the segment of each builtin.
pub struct RunOutput {
    pub memory: Vec<Option<Felt>>,
    pub trace: Vec<RelocatedTraceEntry>,
    pub builtin_segments: Vec<(usize, usize)>,
}

/// The model of what a run hands on.
pub struct RunOutputView {
    pub memory: Seq<Option<Felt>>,
    pub trace: Seq<RelocatedTraceEntry>,
    pub builtin_segments: Seq<(usize, usize)>,
}

impl View for RunOutput {
    type V = RunOutputView;

    open spec fn view(&self) -> RunOutputView {
        RunOutputView { memory: self.memory@, trace: self.trace@, builtin_segments: self.builtin_segments@ }
    }
}

/// What a machine at the end of its run hands on. Temporary segments are
/// merged into their hosts first. Then every builtin has to accept its
/// segment, and every address in memory, in the trace and at the bounds of
/// the builtin segments has to have a flat address.
pub open spec fn output_of(vm: VmView) -> Result<RunOutputView, RunnerError> {
    match vm.memory.merged() {
        Err(e) => Err(RunnerError::Memory(e)),
        Ok(merged) => if !(forall|i: int|
            0 <= i < vm.builtins.len() ==> segment_accepted(#[trigger] vm.builtins[i], merged)) {
            Err(RunnerError::RangeCheckOutOfBounds)
        } else {
            match relocation(merged) {
                Err(e) => Err(RunnerError::Memory(e)),
                Ok((table, memory)) => match relocated_trace(vm.trace, table, vm.trace.len()) {
                    Err(e) => Err(RunnerError::Memory(e)),
                    Ok(trace) => match relocated_builtins(vm.builtins, merged, table, vm.builtins.len()) {
                        Err(e) => Err(RunnerError::Memory(e)),
                        Ok(builtin_segments) => Ok(RunOutputView { memory, trace, builtin_segments }),
                    },
                },
            }
        },
    }
}

/// What a whole run of a program hands on, if it is given `steps` steps.
pub open spec fn run_output<H: HintProcessor>(hint_processor: H, program: ProgramView, steps: nat) -> Result<
    RunOutputView,
    RunnerError,
> {
    match initial_state(program) {
        Err(e) => Err(e),
        Ok(vm) => {
            let done = run(hint_processor, program, vm, end_of(program), steps);
            match done.1 {
                Some(e) => Err(e),
                None => output_of(done.0),
            }
        },
    }
}

/// A run: a program and the machine that runs it.
pub struct CairoRunner {
    program: Program,
    vm: VirtualMachine,
    final_pc: Relocatable,
}

/// The model of a run.
pub struct RunnerView {
    pub program: ProgramView,
    pub vm: VmView,
    pub final_pc: Relocatable,
}

impl View for CairoRunner {
    type V = RunnerView;

    closed spec fn view(&self) -> RunnerView {
        RunnerView { program: self.program@, vm: self.vm@, final_pc: self.final_pc }
    }
}

impl CairoRunner {
    /// Sets a machine up for `program`: allocates the segments of the program,
    /// of the stack, of each builtin in the order of the program, of the frame
    /// to return to and of the end; loads the program and the stack; and puts
    /// the registers at the start.
    pub fn new(program: Program) -> (r: Result<CairoRunner, RunnerError>)
        ensures
            match initial_state(program@) {
                Ok(vm) => r matches Ok(runner) && runner@ == (RunnerView {
                    program: program@,
                    vm,
                    final_pc: end_of(program@),
                }),
                Err(e) => r matches Err(x) && x == e,
            },
    {
        let n = program.builtins.len();
        if n > isize::MAX as usize - 4 {
            return Err(RunnerError::TooManySegments);
        }
        let mut vm = VirtualMachine::new();
        let ghost empty = vm@.memory;
        let program_base = match vm.add_memory_segment() {
            Some(base) => base,
            None => { return Err(RunnerError::TooManySegments); },
        };
        let execution_base = match vm.add_memory_segment() {
            Some(base) => base,
            None => { return Err(RunnerError::TooManySegments); },
        };
        let mut stack: Vec<MaybeRelocatable> = Vec::new();
        let mut i: usize = 0;
        assert(builtins_of(program.builtins@).subrange(0, 0) == Seq::<BuiltinRunner>::empty());
        assert(initial_stack(program.builtins@).subrange(0, 0) == Seq::<MaybeRelocatable>::empty());
        while i < n
            invariant
                i <= n,
                n == program.builtins@.len(),
                n + 4 <= isize::MAX,
                stack@ == initial_stack(program.builtins@).subrange(0, i as int),
                vm@ == (VmView {
                    memory: MemoryView { num_segments: (i + 2) as nat, ..empty },
                    builtins: builtins_of(program.builtins@).subrange(0, i as int),
                    ..vm@
                }),
                vm@.trace == Seq::<TraceEntry>::empty(),
            decreases n - i,
        {
            let ghost before = vm@;
            match vm.add_builtin(program.builtins[i]) {
                Ok(base) => {
                    stack.push(MaybeRelocatable::RelocatableValue(base));
                },
                Err(e) => { return Err(e); },
            }
            assert(vm@.builtins == builtins_of(program.builtins@).subrange(0, i + 1));
            assert(stack@ == initial_stack(program.builtins@).subrange(0, i + 1));
            i += 1;
        }
        let return_fp = match vm.add_memory_segment() {
            Some(base) => base,
            None => { return Err(RunnerError::TooManySegments); },
        };
        let end = match vm.add_memory_segment() {
            Some(base) => base,
            None => { return Err(RunnerError::TooManySegments); },
        };
        stack.push(MaybeRelocatable::RelocatableValue(return_fp));
        stack.push(MaybeRelocatable::RelocatableValue(end));
        assert(stack@ == initial_stack(program.builtins@));
        assert(vm@.builtins == builtins_of(program.builtins@));
        assert(vm@.memory == (MemoryView { num_segments: (n + 4) as nat, ..empty }));
        assert(program.data.len() <= usize::MAX);
        assert(program_base == segment_start(0));
        assert(execution_base == segment_start(1));
        match vm.load_data(program_base, &program.data) {
            Ok(_) => {},
            Err(e) => { return Err(RunnerError::Memory(e)); },
        }
        match vm.load_data(execution_base, &stack) {
            Ok(_) => {},
            Err(e) => { return Err(RunnerError::Memory(e)); },
        }
        let start = Relocatable { segment_index: 1, offset: n + 2 };
        vm.set_registers(Relocatable { segment_index: 0, offset: program.main }, start, start);
        Ok(CairoRunner { program, vm, final_pc: end })
    }

    /// The machine of the run.
    pub fn vm(&self) -> (r: &VirtualMachine)
        ensures
            r@ == self@.vm,
    {
        &self.vm
    }

    /// The address at which the program ends.
    pub fn final_pc(&self) -> (r: Relocatable)
        ensures
            r == self@.final_pc,
    {
        self.final_pc
    }

    /// Runs the hints that are attached to the program counter, in the order
    /// of the program, up to the first that fails.
    fn run_hints<H: HintProcessor>(&mut self, hint_processor: &H) -> (r: Result<(), HintError>)
        ensures
            final(self)@ == (RunnerView {
                vm: hints_run(*hint_processor, old(self)@.program, old(self)@.vm, old(self)@.program.hints.len()).0,
                ..old(self)@
            }),
            r == (match hints_run(
                *hint_processor,
                old(self)@.program,
                old(self)@.vm,
                old(self)@.program.hints.len(),
            ).1 {
                Some(e) => Err::<(), HintError>(e),
                None => Ok::<(), HintError>(()),
            }),
    {
        let pc = self.vm.get_pc();
        let ghost start = self.vm@;
        let ghost program = self.program@;
        let mut i: usize = 0;
        while i < self.program.hints.len()
            invariant
                i <= self.program.hints@.len(),
                self@ == (RunnerView { vm: self@.vm, ..old(self)@ }),
                program == old(self)@.program,
                start == old(self)@.vm,
                pc == start.run_context.pc,
                hints_run(*hint_processor, program, start, i as nat) == (self@.vm, None::<HintError>),
            decreases self.program.hints@.len() - i,
        {
            proof {
                let _ = hints_run(*hint_processor, program, start, (i + 1) as nat);
                assert(program.hints[i as int] == self.program.hints@[i as int]@);
            }
            if pc.segment_index == 0 && pc.offset == self.program.hints[i].offset {
                match hint_processor.execute_hint(&mut self.vm, &self.program.hints[i], &self.program.constants) {
                    Ok(()) => {},
                    Err(e) => {
                        proof {
                            lemma_hints_run_error(
                                *hint_processor,
                                program,
                                start,
                                (i + 1) as nat,
                                program.hints.len(),
                            );
                        }
                        return Err(e);
                    },
                }
            }
            i += 1;
        }
        Ok(())
    }

    /// Takes one step of the run: the hints attached to the program counter,
    /// then the instruction there.
    pub fn step<H: HintProcessor>(&mut self, hint_processor: &H) -> (r: Result<(), VirtualMachineError>)
        ensures
            final(self)@ == (RunnerView {
                vm: run_step(*hint_processor, old(self)@.program, old(self)@.vm).0,
                ..old(self)@
            }),
            r == (match run_step(*hint_processor, old(self)@.program, old(self)@.vm).1 {
                Some(e) => Err::<(), VirtualMachineError>(e),
                None => Ok::<(), VirtualMachineError>(()),
            }),
    {
        match self.run_hints(hint_processor) {
            Ok(()) => {},
            Err(e) => { return Err(VirtualMachineError::Hint(e)); },
        }
        self.vm.step_instruction()
    }

    /// Steps until the program counter is `end`, for at most `max_steps`
    /// steps.
    pub fn run_until_pc<H: HintProcessor>(&mut self, end: Relocatable, max_steps: usize, hint_processor: &H) -> (r:
        Result<(), RunnerError>)
        ensures
            final(self)@ == (RunnerView {
                vm: run(*hint_processor, old(self)@.program, old(self)@.vm, end, max_steps as nat).0,
                ..old(self)@
            }),
            r == (match run(*hint_processor, old(self)@.program, old(self)@.vm, end, max_steps as nat).1 {
                Some(e) => Err::<(), RunnerError>(e),
                None => Ok::<(), RunnerError>(()),
            }),
    {
        let ghost program = self@.program;
        let ghost start = self@.vm;
        let mut left = max_steps;
        loop
            invariant
                self@ == (RunnerView { vm: self@.vm, ..old(self)@ }),
                program == old(self)@.program,
                start == old(self)@.vm,
                run(*hint_processor, program, start, end, max_steps as nat) == run(
                    *hint_processor,
                    program,
                    self@.vm,
                    end,
                    left as nat,
                ),
            decreases left,
        {
            let pc = self.vm.get_pc();
            if pc == end {
                return Ok(());
            }
            if left == 0 {
                return Err(RunnerError::StepLimitReached);
            }
            match self.step(hint_processor) {
                Ok(()) => {},
                Err(error) => { return Err(RunnerError::Step { pc, error }); },
            }
            left -= 1;
        }
    }

    /// Closes the run: merges the temporary segments into their hosts, checks
    /// the segment of each builtin, makes the memory flat, and rewrites the
    /// trace and the bounds of the builtin segments into flat addresses.
    pub fn relocate(&self) -> (r: Result<RunOutput, RunnerError>)
        ensures
            match r {
                Ok(output) => output_of(self@.vm) == Ok::<RunOutputView, RunnerError>(output@),
                Err(e) => output_of(self@.vm) == Err::<RunOutputView, RunnerError>(e),
            },
    {
        self.vm.relocate()
    }
}

/// Once an entry of the trace has no flat address, the trace has none.
pub proof fn lemma_relocated_trace_error(trace: Seq<TraceEntry>, table: Seq<usize>, failed: nat, n: nat)
    requires
        failed <= n,
        relocated_trace(trace, table, failed) is Err,
    ensures
        relocated_trace(trace, table, n) == relocated_trace(trace, table, failed),
    decreases n,
{
    if failed < n {
        lemma_relocated_trace_error(trace, table, failed, (n - 1) as nat);
    }
}

/// Once the segment of a builtin has no flat bounds, the builtins have none.
pub proof fn lemma_relocated_builtins_error(
    builtins: Seq<BuiltinRunner>,
    memory: MemoryView,
    table: Seq<usize>,
    failed: nat,
    n: nat,
)
    requires
        failed <= n,
        relocated_builtins(builtins, memory, table, failed) is Err,
    ensures
        relocated_builtins(builtins, memory, table, n) == relocated_builtins(builtins, memory, table, failed),
    decreases n,
{
    if failed < n {
        lemma_relocated_builtins_error(builtins, memory, table, failed, (n - 1) as nat);
    }
}

/// Once a hint has failed, no further hint runs.
proof fn lemma_hints_run_error<H: HintProcessor>(hint_processor: H, program: ProgramView, vm: VmView, failed: nat, n: nat)
    requires
        failed <= n,
        hints_run(hint_processor, program, vm, failed).1 is Some,
    ensures
        hints_run(hint_processor, program, vm, n) == hints_run(hint_processor, program, vm, failed),
    decreases n,
{
    if failed < n {
        lemma_hints_run_error(hint_processor, program, vm, failed, (n - 1) as nat);
    }
}

/// Runs `program` from start to end with at most `max_steps` steps and hands
/// on the flat memory, the trace and the bounds of the builtin segments.
pub fn cairo_run<H: HintProcessor>(program: Program, max_steps: usize, hint_processor: &H) -> (r: Result<
    RunOutput,
    RunnerError,
>)
    ensures
        match r {
            Ok(output) => run_output(*hint_processor, program@, max_steps as nat) == Ok::<RunOutputView, RunnerError>(
                output@,
            ),
            Err(e) => run_output(*hint_processor, program@, max_steps as nat) == Err::<RunOutputView, RunnerError>(e),
        },
{
    let mut runner = match CairoRunner::new(program) {
        Ok(runner) => runner,
        Err(e) => { return Err(e); },
    };
    let end = runner.final_pc();
    match runner.run_until_pc(end, max_steps, hint_processor) {
        Ok(()) => {},
        Err(e) => { return Err(e); },
    }
    runner.relocate()
}

/// Runs are deterministic: whatever two runs of one program with one hint
/// processor and one number of steps hand on, stated as `cairo_run` states
/// it, is the same, memory and trace included.
pub proof fn lemma_run_deterministic<H: HintProcessor>(
    hint_processor: H,
    program: ProgramView,
    steps: nat,
    first: Result<RunOutputView, RunnerError>,
    second: Result<RunOutputView, RunnerError>,
)
    requires
        first == run_output(hint_processor, program, steps),
        second == run_output(hint_processor, program, steps),
    ensures
        first == second,
{
}

/// Memory is write-once over a whole run: whatever the run does, and however
/// it ends, every cell that held a value when it started holds that value
/// when it stops.
pub proof fn lemma_run_extends<H: HintProcessor>(
    hint_processor: H,
    program: ProgramView,
    vm: VmView,
    end: Relocatable,
    steps: nat,
)
    ensures
        run(hint_processor, program, vm, end, steps).0.memory.extends(vm.memory),
    decreases steps,
{
    if vm.run_context.pc != end && steps > 0 {
        lemma_run_step_extends(hint_processor, program, vm);
        let next = run_step(hint_processor, program, vm);
        if next.1 is None {
            lemma_run_extends(hint_processor, program, next.0, end, (steps - 1) as nat);
        }
    }
}

/// One step of a run, with its hints, never changes a cell that holds a
/// value.
pub proof fn lemma_run_step_extends<H: HintProcessor>(hint_processor: H, program: ProgramView, vm: VmView)
    ensures
        run_step(hint_processor, program, vm).0.memory.extends(vm.memory),
{
    lemma_hints_run_extends(hint_processor, program, vm, program.hints.len());
    lemma_stepped_extends(hints_run(hint_processor, program, vm, program.hints.len()).0);
}

/// The hints of a step never change a cell that holds a value.
pub proof fn lemma_hints_run_extends<H: HintProcessor>(hint_processor: H, program: ProgramView, vm: VmView, n: nat)
    ensures
        hints_run(hint_processor, program, vm, n).0.memory.extends(vm.memory),
    decreases n,
{
    if n > 0 {
        lemma_hints_run_extends(hint_processor, program, vm, (n - 1) as nat);
        let before = hints_run(hint_processor, program, vm, (n - 1) as nat);
        hint_processor.lemma_effect_extends(before.0, program.hints[n - 1], program.constants);
    }
}

/// The trace only grows: a step that succeeds adds one entry and keeps the
/// entries before it; a step that fails leaves the trace as it is.
pub proof fn lemma_trace_append_only<H: HintProcessor>(hint_processor: H, program: ProgramView, vm: VmView)
    ensures
        run_step(hint_processor, program, vm).1 is None ==> run_step(hint_processor, program, vm).0.trace
            == vm.trace.push(
            TraceEntry { pc: vm.run_context.pc, ap: vm.run_context.ap, fp: vm.run_context.fp },
        ),
        run_step(hint_processor, program, vm).1 is Some ==> run_step(hint_processor, program, vm).0.trace == vm.trace,
{
    lemma_hints_keep_registers(hint_processor, program, vm, program.hints.len());
}

/// Hints change nothing but memory.
pub proof fn lemma_hints_keep_registers<H: HintProcessor>(hint_processor: H, program: ProgramView, vm: VmView, n: nat)
    ensures
        hints_run(hint_processor, program, vm, n).0 == (VmView {
            memory: hints_run(hint_processor, program, vm, n).0.memory,
            ..vm
        }),
    decreases n,
{
    if n > 0 {
        lemma_hints_keep_registers(hint_processor, program, vm, (n - 1) as nat);
    }
}

} // verus!
