//! What a hint can do to the machine: find a variable by name, read
//! constants, and write at the allocation pointer.

use vstd::prelude::*;
use crate::felt::Felt;
use crate::hint_processor::hint_processor_definition::{ApTracking, HintReference, OffsetValue};
use crate::vm::instruction::Register;
use crate::name_map::NameMap;
use crate::vm::errors::HintError;
use crate::vm::relocatable::{offset_by, MaybeRelocatable, Relocatable};
use crate::vm::vm_core::{VirtualMachine, VmView};

verus! {

/// The constant of a given name.
pub open spec fn constant_of(constants: Map<Seq<char>, Felt>, name: Seq<char>) -> Result<Felt, HintError> {
    if constants.contains_key(name) {
        Ok(constants[name])
    } else {
        Err(HintError::MissingConstant)
    }
}

/// Where the allocation pointer stood when a reference was made, seen from a
/// hint at which it has moved on within the same group.
pub open spec fn corrected_ap(ap: Relocatable, reference: ApTracking, hint: ApTracking) -> Option<Relocatable> {
    if reference.group != hint.group || hint.offset < reference.offset {
        None
    } else {
        match offset_by(ap, -(hint.offset - reference.offset)) {
            Ok(addr) => Some(addr),
            Err(_) => None,
        }
    }
}

/// The value of one term of a reference.
pub open spec fn term_value(vm: VmView, reference: HintReference, hint: ApTracking, term: OffsetValue) -> Option<
    MaybeRelocatable,
> {
    match term {
        OffsetValue::Reference(register, offset, dereference) => {
            let base = match register {
                Register::FP => Some(vm.run_context.fp),
                Register::AP => match reference.ap_tracking_data {
                    Some(tracking) => corrected_ap(vm.run_context.ap, tracking, hint),
                    None => None,
                },
            };
            match base {
                Some(base) => match offset_by(base, offset as int) {
                    Ok(addr) => if dereference {
                        vm.memory.get(addr)
                    } else {
                        Some(MaybeRelocatable::RelocatableValue(addr))
                    },
                    Err(_) => None,
                },
                None => None,
            }
        },
        _ => None,
    }
}

/// The address that a reference resolves to: its first term has to give an
/// address, its second a number of cells to add.
pub open spec fn reference_address(vm: VmView, reference: HintReference, hint: ApTracking) -> Option<Relocatable> {
    match term_value(vm, reference, hint, reference.offset1) {
        Some(MaybeRelocatable::RelocatableValue(base)) => match reference.offset2 {
            OffsetValue::Reference(_, _, _) => match term_value(vm, reference, hint, reference.offset2) {
                Some(MaybeRelocatable::Int(cells)) => if cells@ <= usize::MAX {
                    match offset_by(base, cells@ as int) {
                        Ok(addr) => Some(addr),
                        Err(_) => None,
                    }
                } else {
                    None
                },
                _ => None,
            },
            OffsetValue::Value(cells) => match offset_by(base, cells as int) {
                Ok(addr) => Some(addr),
                Err(_) => None,
            },
            OffsetValue::Immediate(_) => None,
        },
        _ => None,
    }
}

/// The address that the variable `name` points to.
pub open spec fn pointer_of(
    vm: VmView,
    ids_data: Map<Seq<char>, HintReference>,
    name: Seq<char>,
    hint: ApTracking,
) -> Result<Relocatable, HintError> {
    if !ids_data.contains_key(name) {
        Err(HintError::UnknownIdentifier)
    } else {
        match reference_address(vm, ids_data[name], hint) {
            Some(addr) => if ids_data[name].dereference {
                match vm.memory.read_relocatable(addr) {
                    Ok(target) => Ok(target),
                    Err(_) => Err(HintError::WrongIdentifierTypeInternal),
                }
            } else {
                Ok(addr)
            },
            None => Err(HintError::UnknownIdentifierInternal),
        }
    }
}

/// Reads the constant `var_name`.
pub fn get_constant_from_var_name(var_name: &str, constants: &NameMap<Felt>) -> (r: Result<Felt, HintError>)
    ensures
        r == constant_of(constants@, var_name@),
{
    match constants.get(var_name) {
        Some(value) => Ok(*value),
        None => Err(HintError::MissingConstant),
    }
}

/// Writes `value` to the cell at the allocation pointer.
pub fn insert_value_into_ap(vm: &mut VirtualMachine, value: MaybeRelocatable) -> (r: Result<(), HintError>)
    ensures
        match old(vm)@.memory.insert(old(vm)@.run_context.ap, value) {
            Ok(m) => r is Ok && final(vm)@ == (VmView { memory: m, ..old(vm)@ }),
            Err(e) => r == Err::<(), HintError>(HintError::Memory(e)) && final(vm)@ == old(vm)@,
        },
{
    let ap = vm.get_ap();
    match vm.insert_value(ap, value) {
        Ok(()) => Ok(()),
        Err(e) => Err(HintError::Memory(e)),
    }
}

/// The allocation pointer as it stood when a reference was made.
fn apply_ap_tracking_correction(ap: Relocatable, reference: &ApTracking, hint: &ApTracking) -> (r: Option<
    Relocatable,
>)
    ensures
        r == corrected_ap(ap, *reference, *hint),
{
    if reference.group != hint.group || hint.offset < reference.offset {
        None
    } else {
        match ap.sub_usize(hint.offset - reference.offset) {
            Ok(addr) => Some(addr),
            Err(_) => None,
        }
    }
}

/// The value of one term of a reference.
fn get_offset_value_reference(
    vm: &VirtualMachine,
    reference: &HintReference,
    hint: &ApTracking,
    term: &OffsetValue,
) -> (r: Option<MaybeRelocatable>)
    ensures
        r == term_value(vm@, *reference, *hint, *term),
{
    match term {
        OffsetValue::Reference(register, offset, dereference) => {
            let base = match register {
                Register::FP => Some(vm.get_fp()),
                Register::AP => match &reference.ap_tracking_data {
                    Some(tracking) => apply_ap_tracking_correction(vm.get_ap(), tracking, hint),
                    None => None,
                },
            };
            match base {
                Some(base) => match base.add_i32(*offset) {
                    Ok(addr) => if *dereference {
                        vm.get_maybe(&addr)
                    } else {
                        Some(MaybeRelocatable::RelocatableValue(addr))
                    },
                    Err(_) => None,
                },
                None => None,
            }
        },
        _ => None,
    }
}

/// The address that a reference resolves to, if it resolves.
pub fn compute_addr_from_reference(reference: &HintReference, vm: &VirtualMachine, hint: &ApTracking) -> (r: Option<
    Relocatable,
>)
    ensures
        r == reference_address(vm@, *reference, *hint),
{
    match get_offset_value_reference(vm, reference, hint, &reference.offset1) {
        Some(MaybeRelocatable::RelocatableValue(base)) => match &reference.offset2 {
            OffsetValue::Reference(_, _, _) => match get_offset_value_reference(
                vm,
                reference,
                hint,
                &reference.offset2,
            ) {
                Some(MaybeRelocatable::Int(cells)) => match cells.to_usize() {
                    Some(cells) => match base.add_usize(cells) {
                        Ok(addr) => Some(addr),
                        Err(_) => None,
                    },
                    None => None,
                },
                _ => None,
            },
            OffsetValue::Value(cells) => match base.add_i32(*cells) {
                Ok(addr) => Some(addr),
                Err(_) => None,
            },
            OffsetValue::Immediate(_) => None,
        },
        _ => None,
    }
}

/// The address that the variable `var_name` points to.
pub fn get_ptr_from_var_name(
    var_name: &str,
    vm: &VirtualMachine,
    ids_data: &NameMap<HintReference>,
    ap_tracking: &ApTracking,
) -> (r: Result<Relocatable, HintError>)
    ensures
        r == pointer_of(vm@, ids_data@, var_name@, *ap_tracking),
{
    match ids_data.get(var_name) {
        None => Err(HintError::UnknownIdentifier),
        Some(reference) => match compute_addr_from_reference(reference, vm, ap_tracking) {
            Some(addr) => if reference.dereference {
                match vm.get_relocatable(&addr) {
                    Ok(target) => Ok(target),
                    Err(_) => Err(HintError::WrongIdentifierTypeInternal),
                }
            } else {
                Ok(addr)
            },
            None => Err(HintError::UnknownIdentifierInternal),
        },
    }
}

} // verus!
