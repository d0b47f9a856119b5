//! An instruction cycle engine for an 8-bit processor of the Z80 family.
//!
//! A [`machine::Machine`] owns a register file and two memories, one for
//! the program and one for data, and moves through four phases: fetch,
//! decode, execute, writeback. Every function states what it returns and
//! changes over a plain model of the machine, and Verus proves that the
//! code keeps to it.

pub mod cpu;
pub mod error;
pub mod instruction;
pub mod machine;
pub mod memory;
pub mod ops;
pub mod register;
