//! A virtual machine for programs over a prime field, with its proofs.
//!
//! The machine runs a program step by step on a segmented, write-once memory
//! and records the registers of every step. When the run is over, the
//! segments are laid out in one flat address space, and memory and trace are
//! handed on in that form. At points that the program marks, hints fill
//! memory with values that the instructions then only check.
//!
//! - [`felt`] and [`bigint`]: field elements and integers of any size.
//! - [`vm`]: addresses and values, memory, segments and relocation,
//!   instructions and their decoding, the step of the machine, builtins, and
//!   the run from start to end.
//! - [`hint_processor`]: what a hint may do to the machine, and the carry
//!   hint of limb-wise big-integer addition.
//! - [`name_map`]: the tables by which constants and variables are found.
//!
//! Every function states what it returns and changes, and is proved to do so.
//! The arithmetic of the field and of big integers is done by the crates
//! `cairo-felt` and `num-bigint`; the few functions that call them are marked
//! as trusted, and each says what it takes on trust.

pub mod bigint;
pub mod felt;
pub mod hint_processor;
pub mod name_map;
pub mod vm;
