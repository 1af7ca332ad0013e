//! The machine that runs a program: its registers, its memory and the trace of
//! the steps it has taken.

use vstd::prelude::*;
use crate::felt::Felt;
use crate::vm::builtin_runner::{deduced_by, segment_accepted, BuiltinName, BuiltinRunner};
use crate::vm::cairo_runner::{
    lemma_relocated_builtins_error,
    lemma_relocated_trace_error,
    output_of,
    relocated_builtins,
    relocated_trace,
    RunOutput,
    RunOutputView,
};
use crate::vm::decoder::{decode_instruction, decoded};
use crate::vm::errors::{MathError, MemoryError, RunnerError, VirtualMachineError};
use crate::vm::instruction::{ApUpdate, FpUpdate, Instruction, Op1Addr, Opcode, PcUpdate, Register, Res};
use crate::vm::memory::{Memory, MemoryView};
use crate::vm::memory_segments::{relocate_address, relocation, MemorySegmentManager};
use crate::vm::relocatable::{
    offset_by,
    offset_by_felt,
    value_difference,
    value_sum,
    MaybeRelocatable,
    Relocatable,
};
use crate::vm::run_context::RunContext;
use crate::vm::trace_entry::{RelocatedTraceEntry, TraceEntry};

verus! {

/// The model of a machine: its registers, its memory, its builtins, and the
/// registers of each step taken so far.
pub struct VmView {
    pub run_context: RunContext,
    pub memory: MemoryView,
    pub builtins: Seq<BuiltinRunner>,
    pub trace: Seq<TraceEntry>,
}

/// The values that an instruction works on.
#[derive(Clone, Copy, Debug, PartialEq, Eq, Structural)]
pub struct Operands {
    pub dst: MaybeRelocatable,
    pub res: Option<MaybeRelocatable>,
    pub op0: MaybeRelocatable,
    pub op1: MaybeRelocatable,
}

/// The value of an operand in the cell at `addr`, and the memory after the
/// operand has been read. A cell that holds a value gives it. An empty cell
/// is filled: by the builtin that owns its segment if that can give a value,
/// else with `fallback`. Where there is no value either way, the operand is
/// `missing`.
pub open spec fn filled(
    memory: MemoryView,
    builtins: Seq<BuiltinRunner>,
    addr: Relocatable,
    fallback: Option<MaybeRelocatable>,
    missing: VirtualMachineError,
) -> (MemoryView, Result<MaybeRelocatable, VirtualMachineError>) {
    match memory.get(addr) {
        Some(value) => (memory, Ok(value)),
        None => {
            let found = match deduced_by(builtins, memory, addr) {
                Some(value) => Some(value),
                None => fallback,
            };
            match found {
                Some(value) => match memory.insert(addr, value) {
                    Ok(after) => (after, Ok(value)),
                    Err(e) => (memory, Err(VirtualMachineError::Memory(e))),
                },
                None => (memory, Err(missing)),
            }
        },
    }
}

/// The address of the instruction after `instruction` at `pc`.
pub open spec fn following(pc: Relocatable, instruction: Instruction) -> Result<Relocatable, VirtualMachineError> {
    match offset_by(pc, instruction.spec_size() as int) {
        Ok(addr) => Ok(addr),
        Err(e) => Err(VirtualMachineError::Math(e)),
    }
}

/// The result of an instruction, formed from its operands as the
/// instruction says.
pub open spec fn result_of(instruction: Instruction, op0: MaybeRelocatable, op1: MaybeRelocatable) -> Result<
    Option<MaybeRelocatable>,
    VirtualMachineError,
> {
    match instruction.res {
        Res::Op1 => Ok(Some(op1)),
        Res::Add => match value_sum(op0, op1) {
            Ok(sum) => Ok(Some(sum)),
            Err(e) => Err(VirtualMachineError::Math(e)),
        },
        Res::Mul => match (op0, op1) {
            (MaybeRelocatable::Int(x), MaybeRelocatable::Int(y)) => Ok(Some(MaybeRelocatable::Int(x.spec_mul(y)))),
            _ => Err(VirtualMachineError::ComputeResRelocatableMul),
        },
        Res::Unconstrained => Ok(None),
    }
}

/// The quotient of two memory values, where both are field elements and the
/// divisor is not zero.
pub open spec fn value_quotient(a: MaybeRelocatable, b: MaybeRelocatable) -> Option<MaybeRelocatable> {
    match (a, b) {
        (MaybeRelocatable::Int(x), MaybeRelocatable::Int(y)) => if y@ != 0 {
            Some(MaybeRelocatable::Int(x.spec_div(y)))
        } else {
            None
        },
        _ => None,
    }
}

/// The operand that makes `destination` the result of the instruction, given
/// the other operand: `destination` itself where the result is operand 1,
/// their difference where it is a sum, their quotient where it is a product.
pub open spec fn operand_for(res: Res, destination: MaybeRelocatable, other: MaybeRelocatable) -> Option<
    MaybeRelocatable,
> {
    match res {
        Res::Add => match value_difference(destination, other) {
            Ok(value) => Some(value),
            Err(_) => None,
        },
        Res::Mul => value_quotient(destination, other),
        _ => None,
    }
}

/// What an instruction gives operand 0 where its cell is empty: a call the
/// address to return to; an assertion of equality what makes the destination
/// come out, where the destination and operand 1 are there.
pub open spec fn deduced_op0(
    rc: RunContext,
    instruction: Instruction,
    dst: Option<MaybeRelocatable>,
    op1: Option<MaybeRelocatable>,
) -> Option<MaybeRelocatable> {
    match instruction.opcode {
        Opcode::Call => match following(rc.pc, instruction) {
            Ok(addr) => Some(MaybeRelocatable::RelocatableValue(addr)),
            Err(_) => None,
        },
        Opcode::AssertEq => match (dst, op1) {
            (Some(dst), Some(op1)) => operand_for(instruction.res, dst, op1),
            _ => None,
        },
        _ => None,
    }
}

/// What an instruction gives operand 1 where its cell is empty: an assertion
/// of equality what makes the destination come out, where the destination is
/// there.
pub open spec fn deduced_op1(instruction: Instruction, dst: Option<MaybeRelocatable>, op0: MaybeRelocatable) -> Option<
    MaybeRelocatable,
> {
    match (instruction.opcode, dst) {
        (Opcode::AssertEq, Some(dst)) => match instruction.res {
            Res::Op1 => Some(dst),
            _ => operand_for(instruction.res, dst, op0),
        },
        _ => None,
    }
}

/// What an instruction gives its destination where the cell is empty: an
/// assertion of equality the result, a call the frame pointer.
pub open spec fn deduced_dst(rc: RunContext, instruction: Instruction, res: Option<MaybeRelocatable>) -> Option<
    MaybeRelocatable,
> {
    match instruction.opcode {
        Opcode::AssertEq => res,
        Opcode::Call => Some(MaybeRelocatable::RelocatableValue(rc.fp)),
        _ => None,
    }
}

/// The operands of an instruction, and the memory after they have been
/// read. The three cells are looked at first; then operand 0, operand 1 and
/// the destination are read in this order, and each cell that is empty is
/// filled by its builtin or with what the instruction gives it. That is how a
/// call stores where to return to, and how an assertion of equality writes.
pub open spec fn operands_of(vm: VmView, instruction: Instruction) -> (MemoryView, Result<Operands, VirtualMachineError>) {
    let rc = vm.run_context;
    match (rc.dst_addr(instruction), rc.op0_addr(instruction)) {
        (Err(e), _) => (vm.memory, Err(e)),
        (Ok(_), Err(e)) => (vm.memory, Err(e)),
        (Ok(dst_addr), Ok(op0_addr)) => match rc.op1_addr(instruction, vm.memory.get(op0_addr)) {
            Err(e) => (vm.memory, Err(e)),
            Ok(op1_addr) => {
                let dst_cell = vm.memory.get(dst_addr);
                let (memory0, op0) = filled(
                    vm.memory,
                    vm.builtins,
                    op0_addr,
                    deduced_op0(rc, instruction, dst_cell, vm.memory.get(op1_addr)),
                    VirtualMachineError::FailedToComputeOperands,
                );
                match op0 {
                    Err(e) => (memory0, Err(e)),
                    Ok(op0) => {
                        let (memory1, op1) = filled(
                            memory0,
                            vm.builtins,
                            op1_addr,
                            deduced_op1(instruction, dst_cell, op0),
                            VirtualMachineError::FailedToComputeOperands,
                        );
                        match op1 {
                            Err(e) => (memory1, Err(e)),
                            Ok(op1) => match result_of(instruction, op0, op1) {
                                Err(e) => (memory1, Err(e)),
                                Ok(res) => {
                                    let (memory2, dst) = filled(
                                        memory1,
                                        vm.builtins,
                                        dst_addr,
                                        deduced_dst(rc, instruction, res),
                                        VirtualMachineError::NoDst,
                                    );
                                    match dst {
                                        Err(e) => (memory2, Err(e)),
                                        Ok(dst) => (memory2, Ok(Operands { dst, res, op0, op1 })),
                                    }
                                },
                            },
                        }
                    },
                }
            },
        },
    }
}

/// What the opcode asks of the operands: an assertion of equality that the
/// result is the destination, a call that it has stored the address to return
/// to and the frame pointer.
pub open spec fn opcode_check(rc: RunContext, instruction: Instruction, operands: Operands) -> Result<
    (),
    VirtualMachineError,
> {
    match instruction.opcode {
        Opcode::AssertEq => match operands.res {
            Some(res) => if res == operands.dst {
                Ok(())
            } else {
                Err(VirtualMachineError::DiffAssertValues)
            },
            None => Err(VirtualMachineError::UnconstrainedResAssertEq),
        },
        Opcode::Call => match following(rc.pc, instruction) {
            Ok(return_pc) => if operands.op0 != MaybeRelocatable::RelocatableValue(return_pc) {
                Err(VirtualMachineError::CantWriteReturnPc)
            } else if operands.dst != MaybeRelocatable::RelocatableValue(rc.fp) {
                Err(VirtualMachineError::CantWriteReturnFp)
            } else {
                Ok(())
            },
            Err(e) => Err(e),
        },
        _ => Ok(()),
    }
}

/// An address moved by a field element.
pub open spec fn moved_by_felt(addr: Relocatable, delta: Felt) -> Result<Relocatable, VirtualMachineError> {
    match offset_by_felt(addr, delta@) {
        Ok(addr) => Ok(addr),
        Err(e) => Err(VirtualMachineError::Math(e)),
    }
}

/// An address moved by a number of cells.
pub open spec fn moved_by(addr: Relocatable, delta: int) -> Result<Relocatable, VirtualMachineError> {
    match offset_by(addr, delta) {
        Ok(addr) => Ok(addr),
        Err(e) => Err(VirtualMachineError::Math(e)),
    }
}

/// The frame pointer after an instruction.
pub open spec fn next_fp(rc: RunContext, instruction: Instruction, operands: Operands) -> Result<
    Relocatable,
    VirtualMachineError,
> {
    match instruction.fp_update {
        FpUpdate::APPlus2 => moved_by(rc.ap, 2),
        FpUpdate::Dst => match operands.dst {
            MaybeRelocatable::RelocatableValue(addr) => Ok(addr),
            MaybeRelocatable::Int(delta) => moved_by_felt(rc.fp, delta),
        },
        FpUpdate::Regular => Ok(rc.fp),
    }
}

/// The allocation pointer after an instruction.
pub open spec fn next_ap(rc: RunContext, instruction: Instruction, operands: Operands) -> Result<
    Relocatable,
    VirtualMachineError,
> {
    match instruction.ap_update {
        ApUpdate::Add => match operands.res {
            Some(MaybeRelocatable::Int(delta)) => moved_by_felt(rc.ap, delta),
            Some(MaybeRelocatable::RelocatableValue(_)) => Err(
                VirtualMachineError::Math(MathError::AddressPlusAddress),
            ),
            None => Err(VirtualMachineError::UnconstrainedResAdd),
        },
        ApUpdate::Add1 => moved_by(rc.ap, 1),
        ApUpdate::Add2 => moved_by(rc.ap, 2),
        ApUpdate::Regular => Ok(rc.ap),
    }
}

/// The program counter after an instruction.
pub open spec fn next_pc(rc: RunContext, instruction: Instruction, operands: Operands) -> Result<
    Relocatable,
    VirtualMachineError,
> {
    match instruction.pc_update {
        PcUpdate::Regular => following(rc.pc, instruction),
        PcUpdate::Jump => match operands.res {
            Some(MaybeRelocatable::RelocatableValue(addr)) => Ok(addr),
            Some(MaybeRelocatable::Int(_)) => Err(VirtualMachineError::JumpAbsoluteNotRelocatable),
            None => Err(VirtualMachineError::UnconstrainedResJump),
        },
        PcUpdate::JumpRel => match operands.res {
            Some(MaybeRelocatable::Int(delta)) => moved_by_felt(rc.pc, delta),
            Some(MaybeRelocatable::RelocatableValue(_)) => Err(VirtualMachineError::JumpRelNotInt),
            None => Err(VirtualMachineError::UnconstrainedResJumpRel),
        },
        PcUpdate::Jnz => match operands.dst {
            MaybeRelocatable::Int(flag) => if flag@ == 0 {
                following(rc.pc, instruction)
            } else {
                match operands.op1 {
                    MaybeRelocatable::Int(delta) => moved_by_felt(rc.pc, delta),
                    MaybeRelocatable::RelocatableValue(_) => Err(
                        VirtualMachineError::Math(MathError::AddressPlusAddress),
                    ),
                }
            },
            MaybeRelocatable::RelocatableValue(_) => match operands.op1 {
                MaybeRelocatable::Int(delta) => moved_by_felt(rc.pc, delta),
                MaybeRelocatable::RelocatableValue(_) => Err(VirtualMachineError::Math(MathError::AddressPlusAddress)),
            },
        },
    }
}

/// The registers after an instruction.
pub open spec fn next_registers(rc: RunContext, instruction: Instruction, operands: Operands) -> Result<
    RunContext,
    VirtualMachineError,
> {
    match next_fp(rc, instruction, operands) {
        Err(e) => Err(e),
        Ok(fp) => match next_ap(rc, instruction, operands) {
            Err(e) => Err(e),
            Ok(ap) => match next_pc(rc, instruction, operands) {
                Err(e) => Err(e),
                Ok(pc) => Ok(RunContext { pc, ap, fp }),
            },
        },
    }
}

/// The machine after it has run `instruction`, and the error that stopped the
/// instruction, if one did. An instruction that runs to its end moves the
/// registers and adds the registers it ran with to the trace. One that is
/// stopped leaves registers and trace alone; what it wrote to memory before
/// it was stopped stays written.
pub open spec fn executed(vm: VmView, instruction: Instruction) -> (VmView, Option<VirtualMachineError>) {
    let (memory, operands) = operands_of(vm, instruction);
    let stopped = VmView { memory, ..vm };
    match operands {
        Err(e) => (stopped, Some(e)),
        Ok(operands) => match opcode_check(vm.run_context, instruction, operands) {
            Err(e) => (stopped, Some(e)),
            Ok(()) => match next_registers(vm.run_context, instruction, operands) {
                Err(e) => (stopped, Some(e)),
                Ok(run_context) => (
                    VmView {
                        run_context,
                        memory,
                        trace: vm.trace.push(
                            TraceEntry { pc: vm.run_context.pc, ap: vm.run_context.ap, fp: vm.run_context.fp },
                        ),
                        ..vm
                    },
                    None,
                ),
            },
        },
    }
}

/// The instruction at the program counter.
pub open spec fn fetched(vm: VmView) -> Result<Instruction, VirtualMachineError> {
    match vm.memory.get(vm.run_context.pc) {
        Some(MaybeRelocatable::Int(word)) => if word@ <= u64::MAX {
            decoded(word@ as u64)
        } else {
            Err(VirtualMachineError::InvalidInstructionEncoding)
        },
        Some(MaybeRelocatable::RelocatableValue(_)) => Err(VirtualMachineError::InvalidInstructionEncoding),
        None => Err(VirtualMachineError::Memory(MemoryError::UnknownMemoryCell)),
    }
}

/// The machine after one step: it fetches the instruction at the program
/// counter, decodes it and runs it.
pub open spec fn stepped(vm: VmView) -> (VmView, Option<VirtualMachineError>) {
    match fetched(vm) {
        Ok(instruction) => executed(vm, instruction),
        Err(e) => (vm, Some(e)),
    }
}

/// A step never changes a cell that holds a value, whether it succeeds or
/// not.
pub proof fn lemma_stepped_extends(vm: VmView)
    ensures
        stepped(vm).0.memory.extends(vm.memory),
{
    match fetched(vm) {
        Ok(instruction) => {
            lemma_executed_extends(vm, instruction);
        },
        Err(_) => {},
    }
}

/// An instruction never changes a cell that holds a value, whether it runs to
/// its end or not.
pub proof fn lemma_executed_extends(vm: VmView, instruction: Instruction)
    ensures
        executed(vm, instruction).0.memory.extends(vm.memory),
        operands_of(vm, instruction).0.extends(vm.memory),
{
}

/// Whether an instruction is a call as the assembler writes it: it stores the
/// frame pointer at the allocation pointer and the address to return to in
/// the cell after it.
pub open spec fn is_call(instruction: Instruction) -> bool {
    &&& instruction.opcode == Opcode::Call
    &&& instruction.fp_update == FpUpdate::APPlus2
    &&& instruction.dst_register == Register::AP
    &&& instruction.off0 == 0
    &&& instruction.op0_register == Register::AP
    &&& instruction.off1 == 1
}

/// Whether an instruction is a return as the assembler writes it: it jumps to
/// the address in the cell before the frame and takes the frame pointer from
/// the cell before that.
pub open spec fn is_return(instruction: Instruction) -> bool {
    &&& instruction.opcode == Opcode::Ret
    &&& instruction.fp_update == FpUpdate::Dst
    &&& instruction.pc_update == PcUpdate::Jump
    &&& instruction.res == Res::Op1
    &&& instruction.dst_register == Register::FP
    &&& instruction.off0 == -2
    &&& instruction.op1_addr == Op1Addr::FP
    &&& instruction.off2 == -1
}

/// Call and return pair up. Let a call run from the state `vm`, and let its
/// return run from a later state `later` in which the frame pointer is that
/// of the callee and in which memory has only grown. Then the return restores
/// the frame pointer that `vm` had and goes on at the instruction after the
/// call.
pub proof fn lemma_call_return(vm: VmView, call: Instruction, later: VmView, ret: Instruction)
    requires
        is_call(call),
        executed(vm, call).1 is None,
        later.run_context.fp == executed(vm, call).0.run_context.fp,
        later.memory.extends(executed(vm, call).0.memory),
        is_return(ret),
        executed(later, ret).1 is None,
    ensures
        executed(later, ret).0.run_context.fp == vm.run_context.fp,
        following(vm.run_context.pc, call) == Ok::<Relocatable, VirtualMachineError>(
            executed(later, ret).0.run_context.pc,
        ),
{
    let rc = vm.run_context;
    let after = executed(vm, call).0;
    let ap0 = rc.dst_addr(call)->Ok_0;
    let ap1 = rc.op0_addr(call)->Ok_0;
    let operands = operands_of(vm, call).1->Ok_0;
    assert(after.memory.get(ap1) == Some(operands.op0));
    assert(after.memory.get(ap0) == Some(operands.dst));
    assert(later.memory.get(ap0) == after.memory.get(ap0));
    assert(later.memory.get(ap1) == after.memory.get(ap1));
}

/// Checks the segment of every builtin, in the order of the list.
fn validate_segments(builtins: &Vec<BuiltinRunner>, memory: &Memory) -> (r: Result<(), RunnerError>)
    ensures
        r is Ok <==> forall|i: int| 0 <= i < builtins@.len() ==> segment_accepted(#[trigger] builtins@[i], memory@),
        r is Err ==> r == Err::<(), RunnerError>(RunnerError::RangeCheckOutOfBounds),
{
    let mut i: usize = 0;
    while i < builtins.len()
        invariant
            i <= builtins@.len(),
            forall|j: int| 0 <= j < i ==> segment_accepted(#[trigger] builtins@[j], memory@),
        decreases builtins@.len() - i,
    {
        match builtins[i].validate_segment(memory) {
            Ok(()) => {},
            Err(e) => { return Err(e); },
        }
        i += 1;
    }
    Ok(())
}

/// The state of one run.
pub struct VirtualMachine {
    pub(crate) run_context: RunContext,
    pub(crate) segments: MemorySegmentManager,
    pub(crate) builtin_runners: Vec<BuiltinRunner>,
    pub(crate) trace: Vec<TraceEntry>,
}

impl View for VirtualMachine {
    type V = VmView;

    closed spec fn view(&self) -> VmView {
        VmView {
            run_context: self.run_context,
            memory: self.segments@,
            builtins: self.builtin_runners@,
            trace: self.trace@,
        }
    }
}

impl VirtualMachine {
    /// A machine with no segments, no builtins and an empty trace, all
    /// registers at the start of segment 0.
    pub fn new() -> (r: VirtualMachine)
        ensures
            r@.memory == MemoryView::empty(0),
            r@.builtins == Seq::<BuiltinRunner>::empty(),
            r@.trace == Seq::<TraceEntry>::empty(),
            r@.run_context == (RunContext {
                pc: Relocatable { segment_index: 0, offset: 0 },
                ap: Relocatable { segment_index: 0, offset: 0 },
                fp: Relocatable { segment_index: 0, offset: 0 },
            }),
    {
        let start = Relocatable { segment_index: 0, offset: 0 };
        VirtualMachine {
            run_context: RunContext { pc: start, ap: start, fp: start },
            segments: MemorySegmentManager::new(),
            builtin_runners: Vec::new(),
            trace: Vec::new(),
        }
    }

    /// The value that a builtin can give the empty cell at `addr`: that of the
    /// first builtin that can give one.
    pub fn deduce_memory_cell(&self, addr: Relocatable) -> (r: Option<MaybeRelocatable>)
        ensures
            r == deduced_by(self@.builtins, self@.memory, addr),
    {
        let mut i: usize = 0;
        assert(self.builtin_runners@.subrange(0, self.builtin_runners@.len() as int) == self.builtin_runners@);
        while i < self.builtin_runners.len()
            invariant
                i <= self.builtin_runners@.len(),
                deduced_by(self@.builtins, self@.memory, addr) == deduced_by(
                    self.builtin_runners@.subrange(i as int, self.builtin_runners@.len() as int),
                    self@.memory,
                    addr,
                ),
            decreases self.builtin_runners@.len() - i,
        {
            let ghost rest = self.builtin_runners@.subrange(i as int, self.builtin_runners@.len() as int);
            assert(rest.drop_first() == self.builtin_runners@.subrange(i + 1, self.builtin_runners@.len() as int));
            match self.builtin_runners[i].deduce_memory_cell(addr, &self.segments.memory) {
                Some(value) => { return Some(value); },
                None => {},
            }
            i += 1;
        }
        None
    }

    /// Reads the operand in the cell at `addr`, filling the cell if it is
    /// empty and a value can be found for it.
    fn fill_operand(&mut self, addr: Relocatable, fallback: Option<MaybeRelocatable>, missing: VirtualMachineError) -> (r:
        Result<MaybeRelocatable, VirtualMachineError>)
        ensures
            (final(self)@.memory, r) == filled(old(self)@.memory, old(self)@.builtins, addr, fallback, missing),
            final(self)@ == (VmView { memory: final(self)@.memory, ..old(self)@ }),
    {
        match self.segments.memory.get(&addr) {
            Some(value) => Ok(value),
            None => {
                let found = match self.deduce_memory_cell(addr) {
                    Some(value) => Some(value),
                    None => fallback,
                };
                match found {
                    Some(value) => match self.segments.memory.insert(addr, value) {
                        Ok(()) => Ok(value),
                        Err(e) => Err(VirtualMachineError::Memory(e)),
                    },
                    None => Err(missing),
                }
            },
        }
    }

    /// The result of an instruction on its operands.
    pub fn compute_res(instruction: &Instruction, op0: &MaybeRelocatable, op1: &MaybeRelocatable) -> (r: Result<
        Option<MaybeRelocatable>,
        VirtualMachineError,
    >)
        ensures
            r == result_of(*instruction, *op0, *op1),
    {
        match instruction.res {
            Res::Op1 => Ok(Some(*op1)),
            Res::Add => match op0.add(op1) {
                Ok(sum) => Ok(Some(sum)),
                Err(e) => Err(VirtualMachineError::Math(e)),
            },
            Res::Mul => match (op0, op1) {
                (MaybeRelocatable::Int(x), MaybeRelocatable::Int(y)) => Ok(Some(MaybeRelocatable::Int(x.mul(y)))),
                _ => Err(VirtualMachineError::ComputeResRelocatableMul),
            },
            Res::Unconstrained => Ok(None),
        }
    }

    /// The operand that makes `destination` the result, given the other
    /// operand.
    fn deduce_operand(res: &Res, destination: &MaybeRelocatable, other: &MaybeRelocatable) -> (r: Option<
        MaybeRelocatable,
    >)
        ensures
            r == operand_for(*res, *destination, *other),
    {
        match res {
            Res::Add => match destination.sub(other) {
                Ok(value) => Some(value),
                Err(_) => None,
            },
            Res::Mul => match (destination, other) {
                (MaybeRelocatable::Int(x), MaybeRelocatable::Int(y)) => match x.div(y) {
                    Some(q) => Some(MaybeRelocatable::Int(q)),
                    None => None,
                },
                _ => None,
            },
            _ => None,
        }
    }

    /// What an instruction gives operand 0 where its cell is empty.
    pub fn deduce_op0(
        rc: &RunContext,
        instruction: &Instruction,
        dst: &Option<MaybeRelocatable>,
        op1: &Option<MaybeRelocatable>,
    ) -> (r: Option<MaybeRelocatable>)
        ensures
            r == deduced_op0(*rc, *instruction, *dst, *op1),
    {
        match instruction.opcode {
            Opcode::Call => match rc.pc.add_usize(instruction.size()) {
                Ok(addr) => Some(MaybeRelocatable::RelocatableValue(addr)),
                Err(_) => None,
            },
            Opcode::AssertEq => match (dst, op1) {
                (Some(dst), Some(op1)) => VirtualMachine::deduce_operand(&instruction.res, dst, op1),
                _ => None,
            },
            _ => None,
        }
    }

    /// What an instruction gives operand 1 where its cell is empty.
    pub fn deduce_op1(instruction: &Instruction, dst: &Option<MaybeRelocatable>, op0: &MaybeRelocatable) -> (r: Option<
        MaybeRelocatable,
    >)
        ensures
            r == deduced_op1(*instruction, *dst, *op0),
    {
        match (instruction.opcode, dst) {
            (Opcode::AssertEq, Some(dst)) => match instruction.res {
                Res::Op1 => Some(*dst),
                _ => VirtualMachine::deduce_operand(&instruction.res, dst, op0),
            },
            _ => None,
        }
    }

    /// Reads the operands of an instruction, filling the cells that the
    /// instruction or a builtin gives a value.
    pub fn compute_operands(&mut self, instruction: &Instruction) -> (r: Result<Operands, VirtualMachineError>)
        ensures
            (final(self)@.memory, r) == operands_of(old(self)@, *instruction),
            final(self)@ == (VmView { memory: final(self)@.memory, ..old(self)@ }),
    {
        let rc = self.run_context;
        let dst_addr = match rc.compute_dst_addr(instruction) {
            Ok(addr) => addr,
            Err(e) => { return Err(e); },
        };
        let op0_addr = match rc.compute_op0_addr(instruction) {
            Ok(addr) => addr,
            Err(e) => { return Err(e); },
        };
        let dst_cell = self.segments.memory.get(&dst_addr);
        let op0_cell = self.segments.memory.get(&op0_addr);
        let op1_addr = match rc.compute_op1_addr(instruction, &op0_cell) {
            Ok(addr) => addr,
            Err(e) => { return Err(e); },
        };
        let op1_cell = self.segments.memory.get(&op1_addr);
        let for_op0 = VirtualMachine::deduce_op0(&rc, instruction, &dst_cell, &op1_cell);
        let op0 = match self.fill_operand(op0_addr, for_op0, VirtualMachineError::FailedToComputeOperands) {
            Ok(op0) => op0,
            Err(e) => { return Err(e); },
        };
        let for_op1 = VirtualMachine::deduce_op1(instruction, &dst_cell, &op0);
        let op1 = match self.fill_operand(op1_addr, for_op1, VirtualMachineError::FailedToComputeOperands) {
            Ok(op1) => op1,
            Err(e) => { return Err(e); },
        };
        let res = match VirtualMachine::compute_res(instruction, &op0, &op1) {
            Ok(res) => res,
            Err(e) => { return Err(e); },
        };
        let for_dst = match instruction.opcode {
            Opcode::AssertEq => res,
            Opcode::Call => Some(MaybeRelocatable::RelocatableValue(rc.fp)),
            _ => None,
        };
        let dst = match self.fill_operand(dst_addr, for_dst, VirtualMachineError::NoDst) {
            Ok(dst) => dst,
            Err(e) => { return Err(e); },
        };
        Ok(Operands { dst, res, op0, op1 })
    }

    /// Checks what the opcode asks of the operands.
    pub fn opcode_assertions(&self, instruction: &Instruction, operands: &Operands) -> (r: Result<
        (),
        VirtualMachineError,
    >)
        ensures
            r == opcode_check(self@.run_context, *instruction, *operands),
    {
        match instruction.opcode {
            Opcode::AssertEq => match operands.res {
                Some(res) => if res == operands.dst {
                    Ok(())
                } else {
                    Err(VirtualMachineError::DiffAssertValues)
                },
                None => Err(VirtualMachineError::UnconstrainedResAssertEq),
            },
            Opcode::Call => match self.run_context.pc.add_usize(instruction.size()) {
                Ok(return_pc) => if operands.op0 != MaybeRelocatable::RelocatableValue(return_pc) {
                    Err(VirtualMachineError::CantWriteReturnPc)
                } else if operands.dst != MaybeRelocatable::RelocatableValue(self.run_context.fp) {
                    Err(VirtualMachineError::CantWriteReturnFp)
                } else {
                    Ok(())
                },
                Err(e) => Err(VirtualMachineError::Math(e)),
            },
            _ => Ok(()),
        }
    }

    /// The registers after an instruction.
    pub fn compute_registers(&self, instruction: &Instruction, operands: &Operands) -> (r: Result<
        RunContext,
        VirtualMachineError,
    >)
        ensures
            r == next_registers(self@.run_context, *instruction, *operands),
    {
        let rc = self.run_context;
        let fp = match instruction.fp_update {
            FpUpdate::APPlus2 => match rc.ap.add_usize(2) {
                Ok(addr) => addr,
                Err(e) => { return Err(VirtualMachineError::Math(e)); },
            },
            FpUpdate::Dst => match operands.dst {
                MaybeRelocatable::RelocatableValue(addr) => addr,
                MaybeRelocatable::Int(delta) => match rc.fp.add_felt(&delta) {
                    Ok(addr) => addr,
                    Err(e) => { return Err(VirtualMachineError::Math(e)); },
                },
            },
            FpUpdate::Regular => rc.fp,
        };
        let ap = match instruction.ap_update {
            ApUpdate::Add => match operands.res {
                Some(MaybeRelocatable::Int(delta)) => match rc.ap.add_felt(&delta) {
                    Ok(addr) => addr,
                    Err(e) => { return Err(VirtualMachineError::Math(e)); },
                },
                Some(MaybeRelocatable::RelocatableValue(_)) => {
                    return Err(VirtualMachineError::Math(MathError::AddressPlusAddress));
                },
                None => { return Err(VirtualMachineError::UnconstrainedResAdd); },
            },
            ApUpdate::Add1 => match rc.ap.add_usize(1) {
                Ok(addr) => addr,
                Err(e) => { return Err(VirtualMachineError::Math(e)); },
            },
            ApUpdate::Add2 => match rc.ap.add_usize(2) {
                Ok(addr) => addr,
                Err(e) => { return Err(VirtualMachineError::Math(e)); },
            },
            ApUpdate::Regular => rc.ap,
        };
        let next = match rc.pc.add_usize(instruction.size()) {
            Ok(addr) => Ok(addr),
            Err(e) => Err(VirtualMachineError::Math(e)),
        };
        let pc = match instruction.pc_update {
            PcUpdate::Regular => next,
            PcUpdate::Jump => match operands.res {
                Some(MaybeRelocatable::RelocatableValue(addr)) => Ok(addr),
                Some(MaybeRelocatable::Int(_)) => Err(VirtualMachineError::JumpAbsoluteNotRelocatable),
                None => Err(VirtualMachineError::UnconstrainedResJump),
            },
            PcUpdate::JumpRel => match operands.res {
                Some(MaybeRelocatable::Int(delta)) => match rc.pc.add_felt(&delta) {
                    Ok(addr) => Ok(addr),
                    Err(e) => Err(VirtualMachineError::Math(e)),
                },
                Some(MaybeRelocatable::RelocatableValue(_)) => Err(VirtualMachineError::JumpRelNotInt),
                None => Err(VirtualMachineError::UnconstrainedResJumpRel),
            },
            PcUpdate::Jnz => {
                let zero = match operands.dst {
                    MaybeRelocatable::Int(flag) => flag.is_zero(),
                    MaybeRelocatable::RelocatableValue(_) => false,
                };
                if zero {
                    next
                } else {
                    match operands.op1 {
                        MaybeRelocatable::Int(delta) => match rc.pc.add_felt(&delta) {
                            Ok(addr) => Ok(addr),
                            Err(e) => Err(VirtualMachineError::Math(e)),
                        },
                        MaybeRelocatable::RelocatableValue(_) => Err(
                            VirtualMachineError::Math(MathError::AddressPlusAddress),
                        ),
                    }
                }
            },
        };
        match pc {
            Ok(pc) => Ok(RunContext { pc, ap, fp }),
            Err(e) => Err(e),
        }
    }

    /// Runs one instruction.
    pub fn run_instruction(&mut self, instruction: &Instruction) -> (r: Result<(), VirtualMachineError>)
        ensures
            final(self)@ == executed(old(self)@, *instruction).0,
            r == (match executed(old(self)@, *instruction).1 {
                Some(e) => Err::<(), VirtualMachineError>(e),
                None => Ok::<(), VirtualMachineError>(()),
            }),
    {
        let operands = match self.compute_operands(instruction) {
            Ok(operands) => operands,
            Err(e) => { return Err(e); },
        };
        match self.opcode_assertions(instruction, &operands) {
            Ok(()) => {},
            Err(e) => { return Err(e); },
        }
        let run_context = match self.compute_registers(instruction, &operands) {
            Ok(run_context) => run_context,
            Err(e) => { return Err(e); },
        };
        self.trace.push(TraceEntry { pc: self.run_context.pc, ap: self.run_context.ap, fp: self.run_context.fp });
        self.run_context = run_context;
        Ok(())
    }

    /// The instruction at the program counter.
    pub fn decode_current_instruction(&self) -> (r: Result<Instruction, VirtualMachineError>)
        ensures
            r == fetched(self@),
    {
        match self.segments.memory.get(&self.run_context.pc) {
            Some(MaybeRelocatable::Int(word)) => match word.to_u64() {
                Some(word) => decode_instruction(word),
                None => Err(VirtualMachineError::InvalidInstructionEncoding),
            },
            Some(MaybeRelocatable::RelocatableValue(_)) => Err(VirtualMachineError::InvalidInstructionEncoding),
            None => Err(VirtualMachineError::Memory(MemoryError::UnknownMemoryCell)),
        }
    }

    /// Takes one step: fetches the instruction at the program counter,
    /// decodes it and runs it.
    pub fn step_instruction(&mut self) -> (r: Result<(), VirtualMachineError>)
        ensures
            final(self)@ == stepped(old(self)@).0,
            r == (match stepped(old(self)@).1 {
                Some(e) => Err::<(), VirtualMachineError>(e),
                None => Ok::<(), VirtualMachineError>(()),
            }),
    {
        match self.decode_current_instruction() {
            Ok(instruction) => self.run_instruction(&instruction),
            Err(e) => Err(e),
        }
    }

    /// Adds a builtin to the machine and allocates its segment.
    pub fn add_builtin(&mut self, name: BuiltinName) -> (r: Result<Relocatable, RunnerError>)
        ensures
            old(self)@.memory.num_segments < isize::MAX ==> r == Ok::<Relocatable, RunnerError>(
                Relocatable { segment_index: old(self)@.memory.num_segments as isize, offset: 0 },
            ) && final(self)@ == (VmView {
                memory: MemoryView { num_segments: old(self)@.memory.num_segments + 1, ..old(self)@.memory },
                builtins: old(self)@.builtins.push(
                    BuiltinRunner { name, base: old(self)@.memory.num_segments as isize },
                ),
                ..old(self)@
            }),
            old(self)@.memory.num_segments >= isize::MAX ==> r == Err::<Relocatable, RunnerError>(
                RunnerError::TooManySegments,
            ) && final(self)@ == old(self)@,
    {
        let mut builtin = BuiltinRunner::new(name);
        match builtin.initialize_segments(&mut self.segments) {
            Ok(()) => {
                self.builtin_runners.push(builtin);
                Ok(Relocatable { segment_index: builtin.base, offset: 0 })
            },
            Err(e) => Err(e),
        }
    }

    /// Checks the segment of every builtin against the memory as it is, in
    /// the order in which the builtins were added.
    pub fn validate_builtin_segments(&self) -> (r: Result<(), RunnerError>)
        ensures
            r is Ok <==> forall|i: int|
                0 <= i < self@.builtins.len() ==> segment_accepted(#[trigger] self@.builtins[i], self@.memory),
            r is Err ==> r == Err::<(), RunnerError>(RunnerError::RangeCheckOutOfBounds),
    {
        let r = validate_segments(&self.builtin_runners, &self.segments.memory);
        proof {
            assert(self@.builtins == self.builtin_runners@);
            assert(self@.memory == self.segments.memory@);
            if r is Ok {
                assert forall|i: int| 0 <= i < self@.builtins.len() implies segment_accepted(
                    #[trigger] self@.builtins[i],
                    self@.memory,
                ) by {
                    assert(segment_accepted(self.builtin_runners@[i], self.segments.memory@));
                }
            }
        }
        r
    }

    /// Allocates a temporary segment and returns the address of its first
    /// cell; `None` when the machine cannot number another.
    pub fn add_temporary_segment(&mut self) -> (r: Option<Relocatable>)
        ensures
            old(self)@.memory.num_temp_segments < isize::MAX ==> r == Some(
                Relocatable { segment_index: (-(old(self)@.memory.num_temp_segments + 1)) as isize, offset: 0 },
            ) && final(self)@ == (VmView {
                memory: MemoryView {
                    num_temp_segments: old(self)@.memory.num_temp_segments + 1,
                    ..old(self)@.memory
                },
                ..old(self)@
            }),
            old(self)@.memory.num_temp_segments >= isize::MAX ==> r is None && final(self)@ == old(self)@,
    {
        self.segments.add_temporary_segment()
    }

    /// Gives the temporary segment that starts at `src_ptr` the host
    /// `dst_ptr`.
    pub fn add_relocation_rule(&mut self, src_ptr: Relocatable, dst_ptr: Relocatable) -> (r: Result<(), MemoryError>)
        ensures
            match old(self)@.memory.with_rule(src_ptr, dst_ptr) {
                Ok(m) => r is Ok && final(self)@ == (VmView { memory: m, ..old(self)@ }),
                Err(e) => r == Err::<(), MemoryError>(e) && final(self)@ == old(self)@,
            },
    {
        self.segments.memory.add_relocation_rule(src_ptr, dst_ptr)
    }

    /// Writes `data` to the cells from `ptr` on and returns the address
    /// after the last of them.
    pub fn load_data(&mut self, ptr: Relocatable, data: &Vec<MaybeRelocatable>) -> (r: Result<
        Relocatable,
        MemoryError,
    >)
        ensures
            final(self)@ == (VmView {
                memory: old(self)@.memory.write_range(ptr, data@, data@.len()).0,
                ..old(self)@
            }),
            match old(self)@.memory.write_range(ptr, data@, data@.len()).1 {
                Some(e) => r == Err::<Relocatable, MemoryError>(e),
                None => match offset_by(ptr, data@.len() as int) {
                    Ok(end) => r == Ok::<Relocatable, MemoryError>(end),
                    Err(e) => r == Err::<Relocatable, MemoryError>(MemoryError::Math(e)),
                },
            },
    {
        self.segments.load_data(ptr, data)
    }

    /// Closes the run of the machine: merges the temporary segments into
    /// their hosts, checks the segment of each builtin, makes the memory flat,
    /// and rewrites the trace and the bounds of the builtin segments into flat
    /// addresses. The machine itself stays as it is.
    pub fn relocate(&self) -> (r: Result<RunOutput, RunnerError>)
        ensures
            match r {
                Ok(output) => output_of(self@) == Ok::<RunOutputView, RunnerError>(output@),
                Err(e) => output_of(self@) == Err::<RunOutputView, RunnerError>(e),
            },
    {
        let merged = match self.segments.memory.relocate_temporary_segments() {
            Ok(memory) => MemorySegmentManager { memory },
            Err(e) => { return Err(RunnerError::Memory(e)); },
        };
        match validate_segments(&self.builtin_runners, &merged.memory) {
            Ok(()) => {},
            Err(e) => { return Err(e); },
        }
        let flat = match merged.relocate_memory() {
            Ok(flat) => flat,
            Err(e) => { return Err(RunnerError::Memory(e)); },
        };
        let mut trace: Vec<RelocatedTraceEntry> = Vec::new();
        let mut i: usize = 0;
        while i < self.trace.len()
            invariant
                i <= self.trace@.len(),
                self@.memory.merged() == Ok::<MemoryView, MemoryError>(merged@),
                forall|j: int| 0 <= j < self@.builtins.len() ==> segment_accepted(#[trigger] self@.builtins[j], merged@),
                relocation(merged@) == Ok::<(Seq<usize>, Seq<Option<Felt>>), MemoryError>(flat@),
                relocated_trace(self@.trace, flat.table@, i as nat) == Ok::<Seq<RelocatedTraceEntry>, MemoryError>(
                    trace@,
                ),
            decreases self.trace@.len() - i,
        {
            proof {
                let _ = relocated_trace(self@.trace, flat.table@, (i + 1) as nat);
            }
            let entry = self.trace[i];
            let relocated = match relocate_address(entry.pc, &flat.table) {
                Ok(pc) => match relocate_address(entry.ap, &flat.table) {
                    Ok(ap) => match relocate_address(entry.fp, &flat.table) {
                        Ok(fp) => Ok(RelocatedTraceEntry { pc, ap, fp }),
                        Err(e) => Err(e),
                    },
                    Err(e) => Err(e),
                },
                Err(e) => Err(e),
            };
            match relocated {
                Ok(entry) => {
                    trace.push(entry);
                },
                Err(e) => {
                    proof {
                        lemma_relocated_trace_error(self@.trace, flat.table@, (i + 1) as nat, self@.trace.len());
                    }
                    return Err(RunnerError::Memory(e));
                },
            }
            i += 1;
        }
        let mut builtin_segments: Vec<(usize, usize)> = Vec::new();
        let mut i: usize = 0;
        while i < self.builtin_runners.len()
            invariant
                i <= self.builtin_runners@.len(),
                self@.memory.merged() == Ok::<MemoryView, MemoryError>(merged@),
                forall|j: int| 0 <= j < self@.builtins.len() ==> segment_accepted(#[trigger] self@.builtins[j], merged@),
                relocation(merged@) == Ok::<(Seq<usize>, Seq<Option<Felt>>), MemoryError>(flat@),
                relocated_trace(self@.trace, flat.table@, self@.trace.len()) == Ok::<
                    Seq<RelocatedTraceEntry>,
                    MemoryError,
                >(trace@),
                relocated_builtins(self@.builtins, merged@, flat.table@, i as nat) == Ok::<
                    Seq<(usize, usize)>,
                    MemoryError,
                >(builtin_segments@),
            decreases self.builtin_runners@.len() - i,
        {
            proof {
                let _ = relocated_builtins(self@.builtins, merged@, flat.table@, (i + 1) as nat);
            }
            let (first, last) = self.builtin_runners[i].segment_bounds(&merged.memory);
            let bounds = match relocate_address(first, &flat.table) {
                Ok(start) => match relocate_address(last, &flat.table) {
                    Ok(stop) => Ok((start, stop)),
                    Err(e) => Err(e),
                },
                Err(e) => Err(e),
            };
            match bounds {
                Ok(bounds) => {
                    builtin_segments.push(bounds);
                },
                Err(e) => {
                    proof {
                        lemma_relocated_builtins_error(
                            self@.builtins,
                            merged@,
                            flat.table@,
                            (i + 1) as nat,
                            self@.builtins.len(),
                        );
                    }
                    return Err(RunnerError::Memory(e));
                },
            }
            i += 1;
        }
        Ok(RunOutput { memory: flat.cells, trace, builtin_segments })
    }

    /// The registers of each step taken so far.
    pub fn get_trace(&self) -> (r: &Vec<TraceEntry>)
        ensures
            r@ == self@.trace,
    {
        &self.trace
    }

    /// The program counter.
    pub fn get_pc(&self) -> (r: Relocatable)
        ensures
            r == self@.run_context.pc,
    {
        self.run_context.pc
    }

    /// The allocation pointer.
    pub fn get_ap(&self) -> (r: Relocatable)
        ensures
            r == self@.run_context.ap,
    {
        self.run_context.ap
    }

    /// The frame pointer.
    pub fn get_fp(&self) -> (r: Relocatable)
        ensures
            r == self@.run_context.fp,
    {
        self.run_context.fp
    }

    /// Sets the three registers.
    pub fn set_registers(&mut self, pc: Relocatable, ap: Relocatable, fp: Relocatable)
        ensures
            final(self)@ == (VmView { run_context: RunContext { pc, ap, fp }, ..old(self)@ }),
    {
        self.run_context = RunContext { pc, ap, fp };
    }

    /// Allocates a segment and returns the address of its first cell; `None`
    /// when the machine cannot number another segment.
    pub fn add_memory_segment(&mut self) -> (r: Option<Relocatable>)
        ensures
            old(self)@.memory.num_segments < isize::MAX ==> r == Some(
                Relocatable { segment_index: old(self)@.memory.num_segments as isize, offset: 0 },
            ) && final(self)@ == (VmView {
                memory: MemoryView { num_segments: old(self)@.memory.num_segments + 1, ..old(self)@.memory },
                ..old(self)@
            }),
            old(self)@.memory.num_segments >= isize::MAX ==> r is None && final(self)@ == old(self)@,
    {
        self.segments.add()
    }

    /// What the cell at `key` holds.
    pub fn get_maybe(&self, key: &Relocatable) -> (r: Option<MaybeRelocatable>)
        ensures
            r == self@.memory.get(*key),
    {
        self.segments.memory.get(key)
    }

    /// The field element in the cell at `key`.
    pub fn get_integer(&self, key: &Relocatable) -> (r: Result<Felt, MemoryError>)
        ensures
            r == self@.memory.read_integer_at(*key, 0),
    {
        self.segments.memory.get_integer(key)
    }

    /// The address in the cell at `key`.
    pub fn get_relocatable(&self, key: &Relocatable) -> (r: Result<Relocatable, MemoryError>)
        ensures
            r == self@.memory.read_relocatable(*key),
    {
        self.segments.memory.get_relocatable(key)
    }

    /// The values of `size` cells in a row from `addr`.
    pub fn get_continuous_range(&self, addr: Relocatable, size: usize) -> (r: Result<
        Vec<MaybeRelocatable>,
        MemoryError,
    >)
        ensures
            match r {
                Ok(values) => self@.memory.read_range(addr, size as nat) == Ok::<Seq<MaybeRelocatable>, MemoryError>(
                    values@,
                ),
                Err(e) => self@.memory.read_range(addr, size as nat) == Err::<Seq<MaybeRelocatable>, MemoryError>(e),
            },
    {
        self.segments.memory.get_continuous_range(addr, size)
    }

    /// The field elements of `size` cells in a row from `addr`.
    pub fn get_integer_range(&self, addr: Relocatable, size: usize) -> (r: Result<Vec<Felt>, MemoryError>)
        ensures
            match r {
                Ok(values) => self@.memory.read_integers(addr, size as nat) == Ok::<Seq<Felt>, MemoryError>(values@),
                Err(e) => self@.memory.read_integers(addr, size as nat) == Err::<Seq<Felt>, MemoryError>(e),
            },
    {
        self.segments.memory.get_integer_range(addr, size)
    }

    /// Writes `val` to the cell at `key`, under the write-once rule of the
    /// memory.
    pub fn insert_value(&mut self, key: Relocatable, val: MaybeRelocatable) -> (r: Result<(), MemoryError>)
        ensures
            match old(self)@.memory.insert(key, val) {
                Ok(m) => r is Ok && final(self)@ == (VmView { memory: m, ..old(self)@ }),
                Err(e) => r == Err::<(), MemoryError>(e) && final(self)@ == old(self)@,
            },
    {
        self.segments.memory.insert(key, val)
    }
}

} // verus!
