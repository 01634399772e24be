//! Failures of the instruction decoder.

use vstd::prelude::*;

verus! {

/// Why a 16-bit word could not be turned into an instruction.
#[derive(Clone, Copy, Debug, PartialEq, Eq, Structural)]
pub enum DecodeError {
    /// The word names an instruction this machine does not carry out.
    NotImplemented(u16),
    /// The word matches no row of the opcode table.
    Unknown(u16),
}

} // verus!
