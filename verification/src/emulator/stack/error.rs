//! Failures of the call stack.

use vstd::prelude::*;

verus! {

/// Why a stack operation was refused.
#[derive(Clone, Copy, Debug, PartialEq, Eq, Structural)]
pub enum StackError {
    /// A push onto a stack that already holds every slot.
    Overflow,
    /// A pop from a stack that holds nothing.
    Underflow,
}

} // verus!
