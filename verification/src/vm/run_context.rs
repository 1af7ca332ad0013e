//! The registers of the machine and the addresses of operands.

use vstd::prelude::*;
use crate::vm::errors::VirtualMachineError;
use crate::vm::instruction::{Instruction, Op1Addr, Register};
use crate::vm::relocatable::{offset_by, MaybeRelocatable, Relocatable};

verus! {

/// The program counter, the allocation pointer and the frame pointer.
#[derive(Clone, Copy, Debug, PartialEq, Eq, Structural)]
pub struct RunContext {
    pub pc: Relocatable,
    pub ap: Relocatable,
    pub fp: Relocatable,
}

/// The address `offset` cells from `base`.
pub open spec fn operand_addr(base: Relocatable, offset: i32) -> Result<Relocatable, VirtualMachineError> {
    match offset_by(base, offset as int) {
        Ok(addr) => Ok(addr),
        Err(e) => Err(VirtualMachineError::Math(e)),
    }
}

impl RunContext {
    /// The register that `register` names.
    pub open spec fn register(self, register: Register) -> Relocatable {
        match register {
            Register::AP => self.ap,
            Register::FP => self.fp,
        }
    }

    /// The address of the destination of an instruction.
    pub open spec fn dst_addr(self, instruction: Instruction) -> Result<Relocatable, VirtualMachineError> {
        operand_addr(self.register(instruction.dst_register), instruction.off0)
    }

    /// The address of operand 0 of an instruction.
    pub open spec fn op0_addr(self, instruction: Instruction) -> Result<Relocatable, VirtualMachineError> {
        operand_addr(self.register(instruction.op0_register), instruction.off1)
    }

    /// The address of operand 1 of an instruction: relative to a register, to
    /// the address that the cell of operand 0 holds, or, for an immediate, the
    /// word after the instruction.
    pub open spec fn op1_addr(self, instruction: Instruction, op0: Option<MaybeRelocatable>) -> Result<
        Relocatable,
        VirtualMachineError,
    > {
        match instruction.op1_addr {
            Op1Addr::FP => operand_addr(self.fp, instruction.off2),
            Op1Addr::AP => operand_addr(self.ap, instruction.off2),
            Op1Addr::Imm => if instruction.off2 == 1 {
                operand_addr(self.pc, 1)
            } else {
                Err(VirtualMachineError::ImmShouldBe1)
            },
            Op1Addr::Op0 => match op0 {
                Some(MaybeRelocatable::RelocatableValue(base)) => operand_addr(base, instruction.off2),
                _ => Err(VirtualMachineError::UnknownOp0),
            },
        }
    }

    /// The address of the destination of an instruction.
    pub fn compute_dst_addr(&self, instruction: &Instruction) -> (r: Result<Relocatable, VirtualMachineError>)
        ensures
            r == self.dst_addr(*instruction),
    {
        let base = match instruction.dst_register {
            Register::AP => self.ap,
            Register::FP => self.fp,
        };
        match base.add_i32(instruction.off0) {
            Ok(addr) => Ok(addr),
            Err(e) => Err(VirtualMachineError::Math(e)),
        }
    }

    /// The address of operand 0 of an instruction.
    pub fn compute_op0_addr(&self, instruction: &Instruction) -> (r: Result<Relocatable, VirtualMachineError>)
        ensures
            r == self.op0_addr(*instruction),
    {
        let base = match instruction.op0_register {
            Register::AP => self.ap,
            Register::FP => self.fp,
        };
        match base.add_i32(instruction.off1) {
            Ok(addr) => Ok(addr),
            Err(e) => Err(VirtualMachineError::Math(e)),
        }
    }

    /// The address of operand 1 of an instruction, given operand 0.
    pub fn compute_op1_addr(&self, instruction: &Instruction, op0: &Option<MaybeRelocatable>) -> (r: Result<
        Relocatable,
        VirtualMachineError,
    >)
        ensures
            r == self.op1_addr(*instruction, *op0),
    {
        let base = match instruction.op1_addr {
            Op1Addr::FP => self.fp,
            Op1Addr::AP => self.ap,
            Op1Addr::Imm => {
                if instruction.off2 == 1 {
                    self.pc
                } else {
                    return Err(VirtualMachineError::ImmShouldBe1);
                }
            },
            Op1Addr::Op0 => match op0 {
                Some(MaybeRelocatable::RelocatableValue(base)) => *base,
                _ => { return Err(VirtualMachineError::UnknownOp0); },
            },
        };
        match base.add_i32(instruction.off2) {
            Ok(addr) => Ok(addr),
            Err(e) => Err(VirtualMachineError::Math(e)),
        }
    }
}

} // verus!
