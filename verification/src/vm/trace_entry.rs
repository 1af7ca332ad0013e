//! The record of a run, step by step.

use vstd::prelude::*;
use crate::vm::relocatable::Relocatable;

verus! {

/// The registers with which one step was taken.
#[derive(Clone, Copy, Debug, PartialEq, Eq, Structural)]
pub struct TraceEntry {
    pub pc: Relocatable,
    pub ap: Relocatable,
    pub fp: Relocatable,
}

/// The registers of one step as flat addresses.
#[derive(Clone, Copy, Debug, PartialEq, Eq, Structural)]
pub struct RelocatedTraceEntry {
    pub pc: usize,
    pub ap: usize,
    pub fp: usize,
}

} // verus!
