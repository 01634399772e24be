//! The one error type that running the machine can end in.

use vstd::prelude::*;
use crate::decoder::error::DecodeError;
use crate::emulator::error::EmuError;
use crate::emulator::stack::error::StackError;

verus! {

/// Anything that stops a fetch, decode, execute cycle. Nothing is recovered
/// locally: each failure is handed up unchanged, tagged with its origin.
#[derive(Clone, Copy, Debug, PartialEq, Eq, Structural)]
pub enum RunError {
    /// The fetched word is no instruction.
    Decode(DecodeError),
    /// The machine refused the instruction.
    Emu(EmuError),
    /// A call or return ran off the call stack.
    Stack(StackError),
}

} // verus!
