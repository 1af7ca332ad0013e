//! The errors of the machine, one enum for each layer.

use vstd::prelude::*;
use crate::vm::relocatable::Relocatable;

verus! {

/// Arithmetic on addresses and values that has no result.
#[derive(Clone, Copy, Debug, PartialEq, Eq, Structural)]
pub enum MathError {
    /// An offset grew past the largest address of a segment.
    OffsetExceeded,
    /// An offset fell below zero.
    NegativeOffset,
    /// Two addresses of different segments were subtracted.
    DifferentSegments,
    /// Two addresses were added.
    AddressPlusAddress,
    /// An address was subtracted from a field element.
    IntMinusAddress,
}

/// A read or a write that the memory refuses.
#[derive(Clone, Copy, Debug, PartialEq, Eq, Structural)]
pub enum MemoryError {
    /// The address names a segment that was never allocated.
    UnallocatedSegment,
    /// The cell already holds another value.
    InconsistentMemory,
    /// The cell holds nothing.
    UnknownMemoryCell,
    /// The cell holds an address where a field element was expected.
    ExpectedInteger,
    /// The cell holds a field element where an address was expected.
    ExpectedRelocatable,
    /// A segment cannot have a cell at this offset.
    OffsetOutOfRange,
    /// The segments together are larger than the flat address space.
    AddressSpaceExceeded,
    /// An address names a segment that the relocation table does not have.
    Relocation,
    /// An address in a temporary segment was left when the memory was
    /// made flat.
    TemporarySegmentInRelocation,
    /// A host was given for an address that is not in a temporary segment.
    AddressNotInTemporarySegment,
    /// A host was given for an address that is not the start of its segment.
    NonZeroOffset,
    /// A temporary segment was given a host in a temporary segment.
    AddressInTemporarySegment,
    /// A temporary segment was given a second host.
    DuplicatedRelocation,
    /// A temporary segment that is in use has no host.
    UnresolvedTemporarySegment,
    /// Arithmetic on an address failed.
    Math(MathError),
}

/// Why a hint gave up.
#[derive(Clone, Copy, Debug, PartialEq, Eq, Structural)]
pub enum HintError {
    /// A named constant that the hint reads is not among the constants.
    MissingConstant,
    /// A constant is outside the range that the hint can work with.
    FailedToGetConstant,
    /// A name that the hint reads is not in its reference table.
    UnknownIdentifier,
    /// A reference does not resolve to an address.
    UnknownIdentifierInternal,
    /// A reference resolves to a cell that does not hold an address.
    WrongIdentifierTypeInternal,
    /// A read or a write was refused by the memory.
    Memory(MemoryError),
    /// Arithmetic on an address failed.
    Math(MathError),
    /// The program asks for a hint that the processor does not have.
    UnknownHint,
}

/// Why a step of the machine failed.
#[derive(Clone, Copy, Debug, PartialEq, Eq, Structural)]
pub enum VirtualMachineError {
    /// The top bit of an instruction word is set.
    InstructionNonZeroHighBit,
    /// The bits that say where operand 1 comes from name no source.
    InvalidOp1Reg,
    /// The bits that say how the result is formed name no rule, or name one
    /// for a conditional jump, which has no result.
    InvalidRes,
    /// The bits that say how the program counter moves name no rule.
    InvalidPcUpdate,
    /// The bits that say how the allocation pointer moves name no rule, or
    /// name one for a call, which moves it on its own.
    InvalidApUpdate,
    /// The bits that say what the instruction does name no opcode.
    InvalidOpcode,
    /// The cell at the program counter does not hold an instruction word.
    InvalidInstructionEncoding,
    /// An immediate operand is not the word after the instruction.
    ImmShouldBe1,
    /// Operand 1 is addressed from operand 0, which is not an address.
    UnknownOp0,
    /// An operand is in a cell that holds nothing.
    FailedToComputeOperands,
    /// The destination is empty and the instruction gives it no value.
    NoDst,
    /// A product of values that are not both field elements.
    ComputeResRelocatableMul,
    /// An assertion of equality without a result to compare with.
    UnconstrainedResAssertEq,
    /// An assertion of equality between values that differ.
    DiffAssertValues,
    /// A call that finds another return address where it stores its own.
    CantWriteReturnPc,
    /// A call that finds another frame pointer where it stores its own.
    CantWriteReturnFp,
    /// An update of the allocation pointer by a result that is missing.
    UnconstrainedResAdd,
    /// A jump to a result that is missing.
    UnconstrainedResJump,
    /// A relative jump by a result that is missing.
    UnconstrainedResJumpRel,
    /// A jump to a field element, which is no address.
    JumpAbsoluteNotRelocatable,
    /// A relative jump by an address, which is no distance.
    JumpRelNotInt,
    /// The memory refused a read or a write.
    Memory(MemoryError),
    /// Arithmetic on values or addresses failed.
    Math(MathError),
    /// A hint failed.
    Hint(HintError),
}

/// Why a run could not be set up or closed.
#[derive(Clone, Copy, Debug, PartialEq, Eq, Structural)]
pub enum RunnerError {
    /// The machine cannot number another segment.
    TooManySegments,
    /// A cell of a range-check segment holds an address, or a field element
    /// of 128 bits or more.
    RangeCheckOutOfBounds,
    /// The run did not reach the end of the program within the steps it was
    /// given.
    StepLimitReached,
    /// A step failed at the program counter `pc`.
    Step { pc: Relocatable, error: VirtualMachineError },
    /// The memory refused a write or could not be made flat.
    Memory(MemoryError),
}

} // verus!
