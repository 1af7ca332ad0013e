//! From instruction words to instructions.
//!
//! An instruction word has 63 bits. From the low end: three offsets of 16 bits
//! each, stored with 2^15 added, for the destination, operand 0 and operand 1;
//! then one bit each for the register of the destination and of operand 0;
//! three bits for the source of operand 1; two for the result; three for the
//! program counter; two for the allocation pointer; three for the opcode.

use vstd::prelude::*;
use crate::vm::errors::VirtualMachineError;
use crate::vm::instruction::{ApUpdate, FpUpdate, Instruction, Op1Addr, Opcode, PcUpdate, Register, Res};

verus! {

/// The field of `word` that starts at the bit of weight `weight` and has
/// `range` values.
pub open spec fn field(word: u64, weight: u64, range: u64) -> u64 {
    ((word / weight) % range) as u64
}

/// The offset stored in a field of 16 bits.
pub open spec fn offset_of(word: u64, weight: u64) -> i32 {
    (field(word, weight, 0x1_0000) - 0x8000) as i32
}

/// The register that one bit names.
pub open spec fn register_of(bit: u64) -> Register {
    if bit == 1 {
        Register::FP
    } else {
        Register::AP
    }
}

/// The instruction that a word encodes, or why it encodes none.
pub open spec fn decoded(word: u64) -> Result<Instruction, VirtualMachineError> {
    let op1_bits = field(word, 0x4_0000_0000_0000, 8);
    let res_bits = field(word, 0x20_0000_0000_0000, 4);
    let pc_bits = field(word, 0x80_0000_0000_0000, 8);
    let ap_bits = field(word, 0x400_0000_0000_0000, 4);
    let opcode_bits = field(word, 0x1000_0000_0000_0000, 8);
    if word >= 0x8000_0000_0000_0000 {
        Err(VirtualMachineError::InstructionNonZeroHighBit)
    } else if op1_bits != 0 && op1_bits != 1 && op1_bits != 2 && op1_bits != 4 {
        Err(VirtualMachineError::InvalidOp1Reg)
    } else if pc_bits != 0 && pc_bits != 1 && pc_bits != 2 && pc_bits != 4 {
        Err(VirtualMachineError::InvalidPcUpdate)
    } else if res_bits == 3 || (pc_bits == 4 && res_bits != 0) {
        Err(VirtualMachineError::InvalidRes)
    } else if opcode_bits != 0 && opcode_bits != 1 && opcode_bits != 2 && opcode_bits != 4 {
        Err(VirtualMachineError::InvalidOpcode)
    } else if ap_bits == 3 || (opcode_bits == 1 && ap_bits != 0) {
        Err(VirtualMachineError::InvalidApUpdate)
    } else {
        let opcode = if opcode_bits == 0 {
            Opcode::NOp
        } else if opcode_bits == 1 {
            Opcode::Call
        } else if opcode_bits == 2 {
            Opcode::Ret
        } else {
            Opcode::AssertEq
        };
        Ok(
            Instruction {
                off0: offset_of(word, 1),
                off1: offset_of(word, 0x1_0000),
                off2: offset_of(word, 0x1_0000_0000),
                dst_register: register_of(field(word, 0x1_0000_0000_0000, 2)),
                op0_register: register_of(field(word, 0x2_0000_0000_0000, 2)),
                op1_addr: if op1_bits == 0 {
                    Op1Addr::Op0
                } else if op1_bits == 1 {
                    Op1Addr::Imm
                } else if op1_bits == 2 {
                    Op1Addr::FP
                } else {
                    Op1Addr::AP
                },
                res: if pc_bits == 4 {
                    Res::Unconstrained
                } else if res_bits == 0 {
                    Res::Op1
                } else if res_bits == 1 {
                    Res::Add
                } else {
                    Res::Mul
                },
                pc_update: if pc_bits == 0 {
                    PcUpdate::Regular
                } else if pc_bits == 1 {
                    PcUpdate::Jump
                } else if pc_bits == 2 {
                    PcUpdate::JumpRel
                } else {
                    PcUpdate::Jnz
                },
                ap_update: if opcode_bits == 1 {
                    ApUpdate::Add2
                } else if ap_bits == 0 {
                    ApUpdate::Regular
                } else if ap_bits == 1 {
                    ApUpdate::Add
                } else {
                    ApUpdate::Add1
                },
                fp_update: match opcode {
                    Opcode::Call => FpUpdate::APPlus2,
                    Opcode::Ret => FpUpdate::Dst,
                    _ => FpUpdate::Regular,
                },
                opcode,
            },
        )
    }
}

/// The offset stored in the 16 bits of `word` from the bit of weight `weight`.
fn decode_offset(word: u64, weight: u64) -> (r: i32)
    requires
        weight > 0,
    ensures
        r == offset_of(word, weight),
        -0x8000 <= r < 0x8000,
{
    let stored = (word / weight) % 0x1_0000;
    stored as i32 - 0x8000
}

/// Decodes an instruction word.
pub fn decode_instruction(word: u64) -> (r: Result<Instruction, VirtualMachineError>)
    ensures
        r == decoded(word),
{
    if word >= 0x8000_0000_0000_0000 {
        return Err(VirtualMachineError::InstructionNonZeroHighBit);
    }
    let op1_addr = match (word / 0x4_0000_0000_0000) % 8 {
        0 => Op1Addr::Op0,
        1 => Op1Addr::Imm,
        2 => Op1Addr::FP,
        4 => Op1Addr::AP,
        _ => { return Err(VirtualMachineError::InvalidOp1Reg); },
    };
    let pc_update = match (word / 0x80_0000_0000_0000) % 8 {
        0 => PcUpdate::Regular,
        1 => PcUpdate::Jump,
        2 => PcUpdate::JumpRel,
        4 => PcUpdate::Jnz,
        _ => { return Err(VirtualMachineError::InvalidPcUpdate); },
    };
    let jnz = matches!(pc_update, PcUpdate::Jnz);
    let res = match ((word / 0x20_0000_0000_0000) % 4, jnz) {
        (0, true) => Res::Unconstrained,
        (0, false) => Res::Op1,
        (1, false) => Res::Add,
        (2, false) => Res::Mul,
        _ => { return Err(VirtualMachineError::InvalidRes); },
    };
    let opcode = match (word / 0x1000_0000_0000_0000) % 8 {
        0 => Opcode::NOp,
        1 => Opcode::Call,
        2 => Opcode::Ret,
        4 => Opcode::AssertEq,
        _ => { return Err(VirtualMachineError::InvalidOpcode); },
    };
    let call = matches!(opcode, Opcode::Call);
    let ap_update = match ((word / 0x400_0000_0000_0000) % 4, call) {
        (0, true) => ApUpdate::Add2,
        (0, false) => ApUpdate::Regular,
        (1, false) => ApUpdate::Add,
        (2, false) => ApUpdate::Add1,
        _ => { return Err(VirtualMachineError::InvalidApUpdate); },
    };
    let fp_update = match opcode {
        Opcode::Call => FpUpdate::APPlus2,
        Opcode::Ret => FpUpdate::Dst,
        _ => FpUpdate::Regular,
    };
    let dst_register = if (word / 0x1_0000_0000_0000) % 2 == 1 {
        Register::FP
    } else {
        Register::AP
    };
    let op0_register = if (word / 0x2_0000_0000_0000) % 2 == 1 {
        Register::FP
    } else {
        Register::AP
    };
    Ok(
        Instruction {
            off0: decode_offset(word, 1),
            off1: decode_offset(word, 0x1_0000),
            off2: decode_offset(word, 0x1_0000_0000),
            dst_register,
            op0_register,
            op1_addr,
            res,
            pc_update,
            ap_update,
            fp_update,
            opcode,
        },
    )
}

} // verus!
