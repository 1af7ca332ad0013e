//! The hints that come with the machine, found by their identifier.

use vstd::prelude::*;
use vstd::string::StringExecFns;
use crate::felt::Felt;
use crate::hint_processor::fq_bigint_add::{fq_bigint_add, hint_effect, lemma_hint_effect_extends};
use crate::hint_processor::hint_processor_definition::{HintData, HintDataView, HintProcessor};
use crate::name_map::NameMap;
use crate::vm::errors::HintError;
use crate::vm::memory::MemoryView;
use crate::vm::vm_core::{VirtualMachine, VmView};

verus! {

/// The identifier of the carry hint of limb-wise big-integer addition.
pub const FQ_BIGINT_ADD: &'static str = "fq_bigint_add";

/// The processor of the hints that come with the machine.
pub struct BuiltinHintProcessor {}

impl BuiltinHintProcessor {
    /// The processor; it has no state.
    pub fn new() -> (r: BuiltinHintProcessor) {
        BuiltinHintProcessor {  }
    }
}

impl HintProcessor for BuiltinHintProcessor {
    open spec fn effect(&self, vm: VmView, hint_data: HintDataView, constants: Map<Seq<char>, Felt>) -> (
        MemoryView,
        Option<HintError>,
    ) {
        if hint_data.code == FQ_BIGINT_ADD@ {
            hint_effect(vm, hint_data.ids_data, hint_data.ap_tracking, constants)
        } else {
            (vm.memory, Some(HintError::UnknownHint))
        }
    }

    proof fn lemma_effect_extends(&self, vm: VmView, hint_data: HintDataView, constants: Map<Seq<char>, Felt>) {
        lemma_hint_effect_extends(vm, hint_data.ids_data, hint_data.ap_tracking, constants);
    }

    fn execute_hint(&self, vm: &mut VirtualMachine, hint_data: &HintData, constants: &NameMap<Felt>) -> (r: Result<
        (),
        HintError,
    >) {
        let known = String::from_str(FQ_BIGINT_ADD);
        if hint_data.code == known {
            fq_bigint_add(vm, &hint_data.ids_data, &hint_data.ap_tracking, constants)
        } else {
            Err(HintError::UnknownHint)
        }
    }
}

} // verus!
