//! Instructions in decoded form.

use vstd::prelude::*;

verus! {

/// One of the two registers that an operand can be addressed from.
#[derive(Clone, Copy, Debug, PartialEq, Eq, Structural)]
pub enum Register {
    AP,
    FP,
}

/// Where operand 1 is found.
#[derive(Clone, Copy, Debug, PartialEq, Eq, Structural)]
pub enum Op1Addr {
    /// In the word after the instruction.
    Imm,
    /// Relative to the allocation pointer.
    AP,
    /// Relative to the frame pointer.
    FP,
    /// Relative to the address that operand 0 holds.
    Op0,
}

/// How the result is formed from the operands.
#[derive(Clone, Copy, Debug, PartialEq, Eq, Structural)]
pub enum Res {
    Op1,
    Add,
    Mul,
    Unconstrained,
}

/// How the program counter moves.
#[derive(Clone, Copy, Debug, PartialEq, Eq, Structural)]
pub enum PcUpdate {
    /// On to the next instruction.
    Regular,
    /// To the address that is the result.
    Jump,
    /// By the result.
    JumpRel,
    /// By operand 1 if the destination is not zero, else on to the next
    /// instruction.
    Jnz,
}

/// How the allocation pointer moves.
#[derive(Clone, Copy, Debug, PartialEq, Eq, Structural)]
pub enum ApUpdate {
    Regular,
    /// By the result.
    Add,
    Add1,
    Add2,
}

/// How the frame pointer moves.
#[derive(Clone, Copy, Debug, PartialEq, Eq, Structural)]
pub enum FpUpdate {
    Regular,
    /// To two cells past the allocation pointer: the frame of a call.
    APPlus2,
    /// To the destination: the frame that a return goes back to.
    Dst,
}

/// What an instruction does besides moving the registers.
#[derive(Clone, Copy, Debug, PartialEq, Eq, Structural)]
pub enum Opcode {
    NOp,
    AssertEq,
    Call,
    Ret,
}

/// A decoded instruction.
#[derive(Clone, Copy, Debug, PartialEq, Eq, Structural)]
pub struct Instruction {
    pub off0: i32,
    pub off1: i32,
    pub off2: i32,
    pub dst_register: Register,
    pub op0_register: Register,
    pub op1_addr: Op1Addr,
    pub res: Res,
    pub pc_update: PcUpdate,
    pub ap_update: ApUpdate,
    pub fp_update: FpUpdate,
    pub opcode: Opcode,
}

impl Instruction {
    /// The number of words that the instruction takes: two with an immediate
    /// operand, else one.
    pub open spec fn spec_size(&self) -> usize {
        if self.op1_addr == Op1Addr::Imm {
            2
        } else {
            1
        }
    }

    /// The number of words that the instruction takes.
    #[verifier::when_used_as_spec(spec_size)]
    pub fn size(&self) -> (r: usize)
        ensures
            r == self.spec_size(),
    {
        match self.op1_addr {
            Op1Addr::Imm => 2,
            _ => 1,
        }
    }
}

} // verus!
