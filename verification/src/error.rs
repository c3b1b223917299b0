//! The failures that the machine reports to its host.

use vstd::prelude::*;

verus! {

/// Why loading, decoding or a cycle did not go through. Every failure leaves
/// the machine exactly as it was before the call.
#[derive(Debug, Clone, Copy, PartialEq, Eq, Structural)]
pub enum CpuError {
    /// The program does not fit between the program base and the end of memory.
    ProgramTooLarge,
    /// The instruction word belongs to no known operation; carries the word.
    UnknownOpcode(u16),
    /// A memory access, the program counter or the index register would leave
    /// the 4096 bytes of memory.
    OutOfBoundsAccess,
    /// A return was executed while the call stack was empty.
    StackUnderflow,
    /// A register used as a key index held a value above 15.
    InvalidKeyIndex,
}

} // verus!
