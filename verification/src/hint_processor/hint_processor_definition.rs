//! What a program tells a hint about the variables it may use.

use vstd::prelude::*;
use crate::felt::Felt;
use crate::name_map::NameMap;
use crate::vm::errors::HintError;
use crate::vm::instruction::Register;
use crate::vm::memory::MemoryView;
use crate::vm::vm_core::{VirtualMachine, VmView};

verus! {

/// How far the allocation pointer has moved within a group of instructions
/// in which its movement is known.
#[derive(Clone, Copy, Debug, PartialEq, Eq, Structural)]
pub struct ApTracking {
    pub group: usize,
    pub offset: usize,
}

/// One term of the address of a variable.
#[derive(Clone, Copy, Debug, PartialEq, Eq, Structural)]
pub enum OffsetValue {
    /// A constant of the program; it names no address.
    Immediate(Felt),
    /// A fixed number of cells.
    Value(i32),
    /// A register plus a number of cells, and whether the cell found there is
    /// read for the term.
    Reference(Register, i32, bool),
}

/// Where a named variable of a hint lives: the sum of two terms, and whether
/// the cell at that address is read for the variable's value.
#[derive(Clone, Copy, Debug, PartialEq, Eq, Structural)]
pub struct HintReference {
    pub offset1: OffsetValue,
    pub offset2: OffsetValue,
    pub dereference: bool,
    pub ap_tracking_data: Option<ApTracking>,
}

impl HintReference {
    /// The reference to the cell `offset1` cells from the frame pointer, read
    /// for its value.
    pub fn new_simple(offset1: i32) -> (r: HintReference)
        ensures
            r == (HintReference {
                offset1: OffsetValue::Reference(Register::FP, offset1, false),
                offset2: OffsetValue::Value(0),
                dereference: true,
                ap_tracking_data: None,
            }),
    {
        HintReference {
            offset1: OffsetValue::Reference(Register::FP, offset1, false),
            offset2: OffsetValue::Value(0),
            dereference: true,
            ap_tracking_data: None,
        }
    }
}

/// A hint of a program: the point of the program before which it runs, the
/// identifier by which its logic is found, and what it may know of the
/// variables around it.
pub struct HintData {
    pub offset: usize,
    pub code: String,
    pub ap_tracking: ApTracking,
    pub ids_data: NameMap<HintReference>,
}

/// The model of a hint.
pub struct HintDataView {
    pub offset: usize,
    pub code: Seq<char>,
    pub ap_tracking: ApTracking,
    pub ids_data: Map<Seq<char>, HintReference>,
}

impl View for HintData {
    type V = HintDataView;

    open spec fn view(&self) -> HintDataView {
        HintDataView {
            offset: self.offset,
            code: self.code@,
            ap_tracking: self.ap_tracking,
            ids_data: self.ids_data@,
        }
    }
}

/// The logic behind the hints of a program. A hint sees the machine and the
/// constants of the program; all it may change is the memory, and there only
/// cells that are empty.
pub trait HintProcessor {
    /// What running a hint does: the memory it leaves, and the error that
    /// ended it, if one did.
    spec fn effect(&self, vm: VmView, hint_data: HintDataView, constants: Map<Seq<char>, Felt>) -> (
        MemoryView,
        Option<HintError>,
    );

    /// A hint obeys the write-once rule: it never changes a cell that holds a
    /// value.
    proof fn lemma_effect_extends(&self, vm: VmView, hint_data: HintDataView, constants: Map<Seq<char>, Felt>)
        ensures
            self.effect(vm, hint_data, constants).0.extends(vm.memory),
    ;

    /// Runs a hint on the machine.
    fn execute_hint(&self, vm: &mut VirtualMachine, hint_data: &HintData, constants: &NameMap<Felt>) -> (r: Result<
        (),
        HintError,
    >)
        ensures
            final(vm)@ == (VmView { memory: self.effect(old(vm)@, hint_data@, constants@).0, ..old(vm)@ }),
            r == (match self.effect(old(vm)@, hint_data@, constants@).1 {
                None => Ok::<(), HintError>(()),
                Some(e) => Err::<(), HintError>(e),
            }),
    ;
}

} // verus!
