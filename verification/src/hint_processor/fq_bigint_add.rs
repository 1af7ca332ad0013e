//! The carry hint of limb-wise big-integer addition.
//!
//! Two numbers `a` and `b` are held as limbs in a base given by the program, and
//! so is a modulus. The program adds the limbs pairwise and then has to know,
//! limb by limb, where a carry passes on, and, where the sum reaches the
//! modulus, where subtracting the modulus borrows. This hint works that out and
//! puts the answers after the allocation pointer.

use vstd::prelude::*;
use vstd::arithmetic::power::pow;
use vstd::arithmetic::power2::{lemma2_to64, lemma_pow2_pos, lemma_pow2_unfold, pow2};
use vstd::string::StringExecFns;
use crate::bigint::BigNum;
use crate::felt::{bit_length, reduce, signed_value, Felt};
use crate::hint_processor::hint_processor_definition::{ApTracking, HintReference};
use crate::hint_processor::hint_utils::{
    constant_of,
    get_constant_from_var_name,
    get_ptr_from_var_name,
    insert_value_into_ap,
    pointer_of,
};
use crate::name_map::NameMap;
use crate::vm::errors::{HintError, MathError};
use crate::vm::memory::{lemma_read_integers_len, MemoryView};
use crate::vm::relocatable::{offset_by, MaybeRelocatable, Relocatable};
use crate::vm::vm_core::{VirtualMachine, VmView};

verus! {

/// The decimal digit of a number below ten.
pub open spec fn digit(d: nat) -> char {
    if d == 0 {
        '0'
    } else if d == 1 {
        '1'
    } else if d == 2 {
        '2'
    } else if d == 3 {
        '3'
    } else if d == 4 {
        '4'
    } else if d == 5 {
        '5'
    } else if d == 6 {
        '6'
    } else if d == 7 {
        '7'
    } else if d == 8 {
        '8'
    } else {
        '9'
    }
}

/// A number written in decimal, without leading zeros.
pub open spec fn decimal(n: nat) -> Seq<char>
    decreases n,
{
    if n < 10 {
        seq![digit(n)]
    } else {
        decimal(n / 10).push(digit(n % 10))
    }
}

/// The name of the constant that holds limb `i` of the modulus: `P0`, `P1`
/// and so on.
pub open spec fn limb_name(i: nat) -> Seq<char> {
    seq!['P'] + decimal(i)
}

/// The limb sum of `a` and `b` at limb `i`, added in the field.
pub open spec fn limb_sum(a: Seq<Felt>, b: Seq<Felt>, i: int) -> nat {
    reduce(a[i]@ as int + b[i]@)
}

/// The number that the first `n` limb sums stand for in base `base`.
pub open spec fn unreduced_sum(a: Seq<Felt>, b: Seq<Felt>, base: nat, n: nat) -> int
    decreases n,
{
    if n == 0 {
        0
    } else {
        unreduced_sum(a, b, base, (n - 1) as nat) + limb_sum(a, b, n - 1) * pow(base as int, (n - 1) as nat)
    }
}

/// The number that the first `n` limbs `p` stand for in base `base`.
pub open spec fn limbs_value(p: Seq<Felt>, base: nat, n: nat) -> int
    decreases n,
{
    if n == 0 {
        0
    } else {
        limbs_value(p, base, (n - 1) as nat) + p[n - 1]@ * pow(base as int, (n - 1) as nat)
    }
}

/// Whether the sum of `a` and `b` reaches the modulus `p`.
pub open spec fn needs_reduction(a: Seq<Felt>, b: Seq<Felt>, p: Seq<Felt>, base: nat) -> bool {
    unreduced_sum(a, b, base, a.len()) >= limbs_value(p, base, a.len())
}

/// Whether limb `i` of the sum passes a carry on: its limb sum, with the carry
/// that came in from the limb below, reaches the base.
pub open spec fn carry(a: Seq<Felt>, b: Seq<Felt>, base: nat, i: int) -> int
    decreases i,
{
    if i <= 0 {
        if limb_sum(a, b, 0) >= base {
            1
        } else {
            0
        }
    } else {
        if reduce(limb_sum(a, b, i) + carry(a, b, base, i - 1)) >= base {
            1
        } else {
            0
        }
    }
}

/// What limb `i` of the sum less the modulus passes on: -1 where the limb sum
/// less the limb of the modulus, with what came in from the limb below, is
/// negative, 1 where it reaches the base, else 0.
pub open spec fn borrow(a: Seq<Felt>, b: Seq<Felt>, p: Seq<Felt>, base: nat, i: int) -> int
    decreases i,
{
    let incoming = if i <= 0 {
        0
    } else {
        borrow(a, b, p, base, i - 1)
    };
    let limb = limb_sum(a, b, i) - p[i]@ + incoming;
    if limb < 0 {
        -1
    } else if limb >= base {
        1
    } else {
        0
    }
}

/// The flag of limb `i`: its borrow where the sum reaches the modulus, else
/// its carry.
pub open spec fn limb_flag(a: Seq<Felt>, b: Seq<Felt>, p: Seq<Felt>, base: nat, i: int) -> int {
    if needs_reduction(a, b, p, base) {
        borrow(a, b, p, base, i)
    } else {
        carry(a, b, base, i)
    }
}

/// What the hint works out: whether the sum reaches the modulus, and the flag
/// of each limb.
pub struct LimbFlags {
    pub needs_reduction: Felt,
    pub flags: Vec<Felt>,
}

/// Whether flags can be worked out for these limbs: the three lists have one
/// length, and it is an exponent that the big integers take.
pub open spec fn limbs_match(a: Seq<Felt>, b: Seq<Felt>, p: Seq<Felt>) -> bool {
    a.len() == b.len() && a.len() == p.len() && a.len() <= u32::MAX
}

/// Whether `r` holds the flags of the limb-wise addition of `a` and `b` under
/// the modulus `p` in base `base`.
pub open spec fn is_limb_flags(r: LimbFlags, a: Seq<Felt>, b: Seq<Felt>, p: Seq<Felt>, base: nat) -> bool {
    &&& r.needs_reduction@ == (if needs_reduction(a, b, p, base) {
        1nat
    } else {
        0nat
    })
    &&& r.flags@.len() == a.len()
    &&& forall|i: int| 0 <= i < a.len() ==> (#[trigger] r.flags@[i])@ == reduce(limb_flag(a, b, p, base, i))
}

/// Works out the flags of a limb-wise addition of `a_limbs` and `b_limbs`
/// under the modulus `p_limbs`, all in base `base`: whether the sum reaches
/// the modulus, and for each limb its borrow if it does and its carry if not.
/// There are none where the three lists differ in length.
pub fn limb_flags(a_limbs: &Vec<Felt>, b_limbs: &Vec<Felt>, p_limbs: &Vec<Felt>, base: &Felt) -> (r: Option<LimbFlags>)
    ensures
        r is Some <==> limbs_match(a_limbs@, b_limbs@, p_limbs@),
        r matches Some(flags) ==> is_limb_flags(flags, a_limbs@, b_limbs@, p_limbs@, base@),
{
    if a_limbs.len() != b_limbs.len() || a_limbs.len() != p_limbs.len() || a_limbs.len() > u32::MAX as usize {
        None
    } else {
        Some(compute_limb_flags(a_limbs, b_limbs, p_limbs, base))
    }
}

/// Works out the flags for lists of limbs that match.
fn compute_limb_flags(a_limbs: &Vec<Felt>, b_limbs: &Vec<Felt>, p_limbs: &Vec<Felt>, base: &Felt) -> (r: LimbFlags)
    requires
        limbs_match(a_limbs@, b_limbs@, p_limbs@),
    ensures
        is_limb_flags(r, a_limbs@, b_limbs@, p_limbs@, base@),
{
    let n = a_limbs.len();
    let ghost a = a_limbs@;
    let ghost b = b_limbs@;
    let ghost p = p_limbs@;
    let base_big = BigNum::from_felt(base);

    let mut sums: Vec<Felt> = Vec::new();
    let mut total = BigNum::zero();
    let mut modulus = BigNum::zero();
    let mut i: usize = 0;
    while i < n
        invariant
            i <= n,
            n == a.len(),
            n == b.len(),
            n == p.len(),
            n <= u32::MAX,
            a == a_limbs@,
            b == b_limbs@,
            p == p_limbs@,
            base_big@ == base@,
            sums@.len() == i,
            forall|j: int| 0 <= j < i ==> (#[trigger] sums@[j])@ == limb_sum(a, b, j),
            total@ == unreduced_sum(a, b, base@, i as nat),
            modulus@ == limbs_value(p, base@, i as nat),
        decreases n - i,
    {
        let sum = a_limbs[i].add(&b_limbs[i]);
        let weight = base_big.power(i as u32);
        total = total.sum(&BigNum::from_felt(&sum).product(&weight));
        modulus = modulus.sum(&BigNum::from_felt(&p_limbs[i]).product(&weight));
        sums.push(sum);
        i += 1;
    }
    let reduction = total.ge(&modulus);

    let mut carries: Vec<Felt> = Vec::new();
    let mut i: usize = 0;
    while i < n
        invariant
            i <= n,
            n == a.len(),
            n == b.len(),
            sums@.len() == n,
            forall|j: int| 0 <= j < n ==> (#[trigger] sums@[j])@ == limb_sum(a, b, j),
            carries@.len() == i,
            forall|j: int| 0 <= j < i ==> (#[trigger] carries@[j])@ == carry(a, b, base@, j),
        decreases n - i,
    {
        let limb = if i == 0 {
            sums[0]
        } else {
            sums[i].add(&carries[i - 1])
        };
        let flag = if limb.ge(base) {
            Felt::one()
        } else {
            Felt::zero()
        };
        carries.push(flag);
        i += 1;
    }

    let mut borrows: Vec<Felt> = Vec::new();
    let mut i: usize = 0;
    while i < n
        invariant
            i <= n,
            n == a.len(),
            n == b.len(),
            n == p.len(),
            p == p_limbs@,
            base_big@ == base@,
            sums@.len() == n,
            forall|j: int| 0 <= j < n ==> (#[trigger] sums@[j])@ == limb_sum(a, b, j),
            borrows@.len() == i,
            forall|j: int| 0 <= j < i ==> (#[trigger] borrows@[j])@ == reduce(borrow(a, b, p, base@, j)),
        decreases n - i,
    {
        let reduced = BigNum::from_felt(&sums[i]).difference(&BigNum::from_felt(&p_limbs[i]));
        let limb = if i == 0 {
            reduced
        } else {
            proof {
                lemma_signed_flag(borrow(a, b, p, base@, i - 1));
            }
            reduced.sum(&BigNum::from_felt_signed(&borrows[i - 1]))
        };
        let flag = if limb.is_negative() {
            Felt::from_i64(-1)
        } else if limb.ge(&base_big) {
            Felt::one()
        } else {
            Felt::zero()
        };
        assert(flag@ == reduce(borrow(a, b, p, base@, i as int)));
        borrows.push(flag);
        i += 1;
    }

    if reduction {
        LimbFlags { needs_reduction: Felt::one(), flags: borrows }
    } else {
        LimbFlags { needs_reduction: Felt::zero(), flags: carries }
    }
}

/// The number of limbs that the constants give: the constant `N_LIMBS`, which
/// has to be at least 1 and at most 255.
pub open spec fn limb_count(constants: Map<Seq<char>, Felt>) -> Result<u8, HintError> {
    match constant_of(constants, "N_LIMBS"@) {
        Ok(count) => if count@ == 0 || count@ > 255 {
            Err(HintError::FailedToGetConstant)
        } else {
            Ok(count@ as u8)
        },
        Err(e) => Err(e),
    }
}

/// The first `n` limbs of the modulus, each a constant of its own; the error
/// of the first that is missing.
pub open spec fn modulus_limbs(constants: Map<Seq<char>, Felt>, n: nat) -> Result<Seq<Felt>, HintError>
    decreases n,
{
    if n == 0 {
        Ok(Seq::empty())
    } else {
        match modulus_limbs(constants, (n - 1) as nat) {
            Ok(limbs) => match constant_of(constants, limb_name((n - 1) as nat)) {
                Ok(limb) => Ok(limbs.push(limb)),
                Err(e) => Err(e),
            },
            Err(e) => Err(e),
        }
    }
}

/// What the hint reads before it computes: the limbs of both operands and of
/// the modulus, and the base.
pub struct HintInputs {
    pub a: Seq<Felt>,
    pub b: Seq<Felt>,
    pub p: Seq<Felt>,
    pub base: Felt,
}

/// What the hint reads, in the order in which it reads: the limb count, the
/// base, the limbs of the modulus, then the limbs of `a` and of `b` from
/// memory. The first thing that cannot be read decides the error.
pub open spec fn hint_inputs(
    vm: VmView,
    ids_data: Map<Seq<char>, HintReference>,
    ap_tracking: ApTracking,
    constants: Map<Seq<char>, Felt>,
) -> Result<HintInputs, HintError> {
    match limb_count(constants) {
        Err(e) => Err(e),
        Ok(n) => match constant_of(constants, "BASE"@) {
            Err(e) => Err(e),
            Ok(base) => match modulus_limbs(constants, n as nat) {
                Err(e) => Err(e),
                Ok(p) => match pointer_of(vm, ids_data, "a"@, ap_tracking) {
                    Err(e) => Err(e),
                    Ok(a_ptr) => match vm.memory.read_integers(a_ptr, n as nat) {
                        Err(e) => Err(HintError::Memory(e)),
                        Ok(a) => match pointer_of(vm, ids_data, "b"@, ap_tracking) {
                            Err(e) => Err(e),
                            Ok(b_ptr) => match vm.memory.read_integers(b_ptr, n as nat) {
                                Err(e) => Err(HintError::Memory(e)),
                                Ok(b) => Ok(HintInputs { a, b, p, base }),
                            },
                        },
                    },
                },
            },
        },
    }
}

/// The cells that the hint fills, counted from the allocation pointer: first
/// whether the sum reaches the modulus, then the flag of limb 1, of limb 2 and
/// so on. The flag of limb 0 is not among them.
pub open spec fn hint_cells(inputs: HintInputs) -> Seq<MaybeRelocatable> {
    Seq::new(
        inputs.a.len(),
        |i: int|
            MaybeRelocatable::Int(
                Felt::from_nat(
                    if i == 0 {
                        if needs_reduction(inputs.a, inputs.b, inputs.p, inputs.base@) {
                            1nat
                        } else {
                            0nat
                        }
                    } else {
                        reduce(limb_flag(inputs.a, inputs.b, inputs.p, inputs.base@, i))
                    },
                ),
            ),
    )
}

/// The memory after the first `n` of `cells` have been written one by one from
/// `start` on, and the error that stopped the writing, if one did. The cells
/// written before an error stay written.
pub open spec fn write_cells(memory: MemoryView, start: Relocatable, cells: Seq<MaybeRelocatable>, n: nat) -> (
    MemoryView,
    Option<HintError>,
)
    decreases n,
{
    if n == 0 {
        (memory, None)
    } else {
        let before = write_cells(memory, start, cells, (n - 1) as nat);
        if before.1 is Some {
            before
        } else {
            match offset_by(start, n - 1) {
                Ok(addr) => match before.0.insert(addr, cells[n - 1]) {
                    Ok(after) => (after, None),
                    Err(e) => (before.0, Some(HintError::Memory(e))),
                },
                Err(e) => (before.0, Some(HintError::Math(e))),
            }
        }
    }
}

/// Once a write has failed, nothing more is written.
pub proof fn lemma_write_cells_error(
    memory: MemoryView,
    start: Relocatable,
    cells: Seq<MaybeRelocatable>,
    failed: nat,
    n: nat,
)
    requires
        failed <= n,
        write_cells(memory, start, cells, failed).1 is Some,
    ensures
        write_cells(memory, start, cells, n) == write_cells(memory, start, cells, failed),
    decreases n,
{
    if failed < n {
        lemma_write_cells_error(memory, start, cells, failed, (n - 1) as nat);
    }
}

/// What the hint does: the memory it leaves, and the error that ended it, if
/// one did. Unless everything can be read, the memory stays as it was and the
/// error is that of the first thing that could not be read. Else the cells of
/// `hint_cells` are written one by one from the allocation pointer on, and
/// the error is that of the first write that was refused.
pub open spec fn hint_effect(
    vm: VmView,
    ids_data: Map<Seq<char>, HintReference>,
    ap_tracking: ApTracking,
    constants: Map<Seq<char>, Felt>,
) -> (MemoryView, Option<HintError>) {
    match hint_inputs(vm, ids_data, ap_tracking, constants) {
        Err(e) => (vm.memory, Some(e)),
        Ok(inputs) => write_cells(vm.memory, vm.run_context.ap, hint_cells(inputs), inputs.a.len()),
    }
}

/// The hint never changes a cell that holds a value.
pub proof fn lemma_hint_effect_extends(
    vm: VmView,
    ids_data: Map<Seq<char>, HintReference>,
    ap_tracking: ApTracking,
    constants: Map<Seq<char>, Felt>,
)
    ensures
        hint_effect(vm, ids_data, ap_tracking, constants).0.extends(vm.memory),
{
    match hint_inputs(vm, ids_data, ap_tracking, constants) {
        Ok(inputs) => {
            lemma_write_cells_extends(vm.memory, vm.run_context.ap, hint_cells(inputs), inputs.a.len());
        },
        Err(_) => {},
    }
}

/// Writing cells one by one never changes a cell that holds a value.
pub proof fn lemma_write_cells_extends(memory: MemoryView, start: Relocatable, cells: Seq<MaybeRelocatable>, n: nat)
    ensures
        write_cells(memory, start, cells, n).0.extends(memory),
    decreases n,
{
    if n > 0 {
        lemma_write_cells_extends(memory, start, cells, (n - 1) as nat);
    }
}

/// A limb count of zero, or one above 255, is refused before memory is
/// touched, whatever else the hint was given.
pub proof fn lemma_degenerate_limb_count(
    vm: VmView,
    ids_data: Map<Seq<char>, HintReference>,
    ap_tracking: ApTracking,
    constants: Map<Seq<char>, Felt>,
)
    requires
        constants.contains_key("N_LIMBS"@),
        constants["N_LIMBS"@]@ == 0 || constants["N_LIMBS"@]@ > 255,
    ensures
        hint_inputs(vm, ids_data, ap_tracking, constants) == Err::<HintInputs, HintError>(
            HintError::FailedToGetConstant,
        ),
        hint_effect(vm, ids_data, ap_tracking, constants) == (vm.memory, Some(HintError::FailedToGetConstant)),
{
}

/// The carry hint. It reads the limb count `N_LIMBS`, the base `BASE` and the
/// limbs `P0`, `P1`, ... of the modulus from the constants, and the limbs of
/// the variables `a` and `b` from memory. It then writes, at the allocation
/// pointer, 1 if the sum reaches the modulus and 0 if not, and in the cells
/// after it the flags of the limbs from limb 1 on.
///
/// Nothing is written unless everything could be read. A write that the
/// memory refuses ends the hint with the cells before it written.
pub fn fq_bigint_add(
    vm: &mut VirtualMachine,
    ids_data: &NameMap<HintReference>,
    ap_tracking: &ApTracking,
    constants: &NameMap<Felt>,
) -> (r: Result<(), HintError>)
    ensures
        final(vm)@ == (VmView { memory: hint_effect(old(vm)@, ids_data@, *ap_tracking, constants@).0, ..old(vm)@ }),
        r == (match hint_effect(old(vm)@, ids_data@, *ap_tracking, constants@).1 {
            None => Ok::<(), HintError>(()),
            Some(e) => Err::<(), HintError>(e),
        }),
{
    let n_limbs = match read_limb_count(constants) {
        Ok(n) => n,
        Err(e) => { return Err(e); },
    };
    let base = match get_constant_from_var_name("BASE", constants) {
        Ok(base) => base,
        Err(e) => { return Err(e); },
    };
    let p_limbs = match read_modulus_limbs(constants, n_limbs) {
        Ok(limbs) => limbs,
        Err(e) => { return Err(e); },
    };
    let a = match get_ptr_from_var_name("a", vm, ids_data, ap_tracking) {
        Ok(a) => a,
        Err(e) => { return Err(e); },
    };
    let a_limbs = match vm.get_integer_range(a, n_limbs as usize) {
        Ok(limbs) => limbs,
        Err(e) => { return Err(HintError::Memory(e)); },
    };
    let b = match get_ptr_from_var_name("b", vm, ids_data, ap_tracking) {
        Ok(b) => b,
        Err(e) => { return Err(e); },
    };
    let b_limbs = match vm.get_integer_range(b, n_limbs as usize) {
        Ok(limbs) => limbs,
        Err(e) => { return Err(HintError::Memory(e)); },
    };
    let ghost inputs = HintInputs { a: a_limbs@, b: b_limbs@, p: p_limbs@, base };
    proof {
        lemma_read_integers_len(vm@.memory, a, n_limbs as nat);
        lemma_read_integers_len(vm@.memory, b, n_limbs as nat);
        assert(hint_inputs(vm@, ids_data@, *ap_tracking, constants@) == Ok::<HintInputs, HintError>(inputs));
    }
    let computed = compute_limb_flags(&a_limbs, &b_limbs, &p_limbs, &base);

    let ghost before = vm@;
    let ghost cells = hint_cells(inputs);
    let ap = vm.get_ap();
    proof {
        Felt::lemma_from_nat(computed.needs_reduction@);
        Felt::lemma_view_injective(computed.needs_reduction, Felt::from_nat(computed.needs_reduction@));
        assert(cells[0] == MaybeRelocatable::Int(computed.needs_reduction));
        assert(write_cells(before.memory, ap, cells, 0) == (before.memory, None::<HintError>));
        assert(offset_by(ap, 0) == Ok::<Relocatable, MathError>(ap));
    }
    match insert_value_into_ap(vm, MaybeRelocatable::Int(computed.needs_reduction)) {
        Ok(()) => {},
        Err(e) => {
            proof {
                lemma_write_cells_error(before.memory, ap, cells, 1, n_limbs as nat);
            }
            return Err(e);
        },
    }
    let mut i: usize = 1;
    while i < n_limbs as usize
        invariant
            1 <= i <= n_limbs,
            n_limbs == inputs.a.len(),
            before == old(vm)@,
            hint_inputs(before, ids_data@, *ap_tracking, constants@) == Ok::<HintInputs, HintError>(inputs),
            cells == hint_cells(inputs),
            computed.flags@.len() == n_limbs,
            forall|j: int|
                0 <= j < n_limbs ==> (#[trigger] computed.flags@[j])@ == reduce(
                    limb_flag(inputs.a, inputs.b, inputs.p, inputs.base@, j),
                ),
            ap == before.run_context.ap,
            vm@.run_context == before.run_context,
            write_cells(before.memory, ap, cells, i as nat) == (vm@.memory, None::<HintError>),
            vm@ == (VmView { memory: vm@.memory, ..before }),
        decreases n_limbs - i,
    {
        proof {
            let flag = computed.flags@[i as int];
            Felt::lemma_from_nat(flag@);
            Felt::lemma_view_injective(flag, Felt::from_nat(flag@));
            assert(cells[i as int] == MaybeRelocatable::Int(flag));
            let _ = write_cells(before.memory, ap, cells, (i + 1) as nat);
        }
        let addr = match ap.add_usize(i) {
            Ok(addr) => addr,
            Err(e) => {
                proof {
                    lemma_write_cells_error(before.memory, ap, cells, (i + 1) as nat, n_limbs as nat);
                }
                return Err(HintError::Math(e));
            },
        };
        match vm.insert_value(addr, MaybeRelocatable::Int(computed.flags[i])) {
            Ok(()) => {},
            Err(e) => {
                proof {
                    lemma_write_cells_error(before.memory, ap, cells, (i + 1) as nat, n_limbs as nat);
                }
                return Err(HintError::Memory(e));
            },
        }
        i += 1;
    }
    Ok(())
}

/// Reads the limb count and checks that it is one the hint can work with.
fn read_limb_count(constants: &NameMap<Felt>) -> (r: Result<u8, HintError>)
    ensures
        r == limb_count(constants@),
{
    let count = match get_constant_from_var_name("N_LIMBS", constants) {
        Ok(count) => count,
        Err(e) => { return Err(e); },
    };
    proof {
        lemma_bit_length_bound(count@, 8);
        lemma2_to64();
    }
    if count.bits() > 8 || count.is_zero() {
        return Err(HintError::FailedToGetConstant);
    }
    match count.to_u64() {
        Some(count) => Ok(count as u8),
        None => Err(HintError::FailedToGetConstant),
    }
}

/// Reads the limbs of the modulus from the constants `P0`, `P1`, ...
fn read_modulus_limbs(constants: &NameMap<Felt>, n_limbs: u8) -> (r: Result<Vec<Felt>, HintError>)
    ensures
        match r {
            Ok(limbs) => modulus_limbs(constants@, n_limbs as nat) == Ok::<Seq<Felt>, HintError>(limbs@) && limbs@.len()
                == n_limbs,
            Err(e) => modulus_limbs(constants@, n_limbs as nat) == Err::<Seq<Felt>, HintError>(e),
        },
{
    let mut limbs: Vec<Felt> = Vec::new();
    let mut i: u8 = 0;
    while i < n_limbs
        invariant
            i <= n_limbs,
            limbs@.len() == i,
            modulus_limbs(constants@, i as nat) == Ok::<Seq<Felt>, HintError>(limbs@),
        decreases n_limbs - i,
    {
        proof {
            let _ = modulus_limbs(constants@, (i + 1) as nat);
        }
        let name = limb_constant_name(i);
        match get_constant_from_var_name(name.as_str(), constants) {
            Ok(limb) => {
                limbs.push(limb);
            },
            Err(e) => {
                proof {
                    lemma_modulus_limbs_error(constants@, (i + 1) as nat, n_limbs as nat);
                }
                return Err(e);
            },
        }
        i += 1;
    }
    Ok(limbs)
}

/// Once a limb of the modulus is missing, the limbs are.
proof fn lemma_modulus_limbs_error(constants: Map<Seq<char>, Felt>, failed: nat, n: nat)
    requires
        failed <= n,
        modulus_limbs(constants, failed) is Err,
    ensures
        modulus_limbs(constants, n) == modulus_limbs(constants, failed),
    decreases n,
{
    if failed < n {
        lemma_modulus_limbs_error(constants, failed, (n - 1) as nat);
    }
}

/// The digit `d` as a string.
fn digit_str(d: u8) -> (r: &'static str)
    requires
        d < 10,
    ensures
        r@ == seq![digit(d as nat)],
{
    proof {
        reveal_strlit("0");
        reveal_strlit("1");
        reveal_strlit("2");
        reveal_strlit("3");
        reveal_strlit("4");
        reveal_strlit("5");
        reveal_strlit("6");
        reveal_strlit("7");
        reveal_strlit("8");
        reveal_strlit("9");
    }
    let r = if d == 0 {
        "0"
    } else if d == 1 {
        "1"
    } else if d == 2 {
        "2"
    } else if d == 3 {
        "3"
    } else if d == 4 {
        "4"
    } else if d == 5 {
        "5"
    } else if d == 6 {
        "6"
    } else if d == 7 {
        "7"
    } else if d == 8 {
        "8"
    } else {
        "9"
    };
    assert(r@ =~= seq![digit(d as nat)]);
    r
}

/// The name of the constant that holds limb `i` of the modulus.
fn limb_constant_name(i: u8) -> (r: String)
    ensures
        r@ == limb_name(i as nat),
{
    proof {
        reveal_strlit("P");
        reveal_with_fuel(decimal, 3);
    }
    let mut name = String::from_str("P");
    assert(name@ =~= seq!['P']);
    if i >= 100 {
        name.append(digit_str(i / 100));
    }
    if i >= 10 {
        name.append(digit_str((i / 10) % 10));
    }
    name.append(digit_str(i % 10));
    assert(name@ =~= limb_name(i as nat));
    name
}

/// A number has at most `k` binary digits exactly when it is below `2^k`.
proof fn lemma_bit_length_bound(n: nat, k: nat)
    ensures
        bit_length(n) <= k <==> n < pow2(k),
    decreases k,
{
    lemma_pow2_pos(k);
    if k == 0 {
        lemma2_to64();
    } else {
        lemma_pow2_unfold(k);
        if n > 0 {
            lemma_bit_length_bound(n / 2, (k - 1) as nat);
        }
    }
}

/// A flag of -1, 0 or 1 is read back from the field unchanged.
proof fn lemma_signed_flag(flag: int)
    requires
        -1 <= flag <= 1,
    ensures
        signed_value(reduce(flag)) == flag,
{
}

} // verus!
