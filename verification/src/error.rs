//! The errors that the engine reports.

use vstd::prelude::*;

verus! {

/// Why the decode phase could not run.
#[derive(Clone, Copy, Debug, PartialEq, Eq, Structural)]
pub enum DecodeError {
    /// No opcode byte is pending: the decode phase ran before any fetch.
    EmptyOpcode,
}

/// What a phase of the instruction cycle reports when it cannot complete.
#[derive(Clone, Copy, Debug, PartialEq, Eq, Structural)]
pub enum EngineError {
    /// An access reaches outside the addressable bytes.
    OutOfBounds,
    /// The decode phase was driven out of turn.
    Decode(DecodeError),
    /// The operands of the instruction have no defined meaning together.
    UnsupportedOperandForm,
    /// A selector names no register of the width asked for.
    RegisterNotFound,
}

} // verus!
