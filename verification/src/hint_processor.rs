//! Hints: logic from outside the instruction set that fills memory before an
//! instruction runs, and the interface through which it sees the machine.

pub mod hint_processor_definition;
pub mod hint_utils;
pub mod builtin_hint_processor;
pub mod fq_bigint_add;
