//! Failures of the virtual machine.

use vstd::prelude::*;

verus! {

/// Why the machine refused an operation.
#[derive(Clone, Copy, Debug, PartialEq, Eq, Structural)]
pub enum EmuError {
    /// An access to memory at an address outside `0..4096`.
    InvalidAddress(usize),
    /// A program of this many bytes does not fit above the reserved region.
    ProgramTooBig(usize),
    /// A glyph was requested for a value that is not a hexadecimal digit.
    UnknownFont(u8),
    /// A key was looked up under a value that is not on the keypad.
    UnknownKey(usize),
}

} // verus!
