//! The machine: values and addresses, memory, registers and the run itself.

pub mod builtin_runner;
pub mod cairo_runner;
pub mod decoder;
pub mod errors;
pub mod instruction;
pub mod memory;
pub mod memory_segments;
pub mod relocatable;
pub mod run_context;
pub mod trace_entry;
pub mod vm_core;
