use vstd::prelude::*;

verus! {

/// A condition that halts the machine. Each one marks a malformed or
/// unsupported program; the operation that reports it leaves the machine
/// exactly as it found it.
#[derive(Debug, Clone, Copy, PartialEq, Eq)]
pub enum FatalError {
    /// A push onto a call stack that already holds sixteen return addresses.
    StackOverflow,
    /// A pop from an empty call stack.
    StackUnderflow,
    /// The fetched word is not an instruction of the base architecture.
    UnknownOpcode(u16),
    /// An instruction fetch or a memory operand reaches past the last byte
    /// of memory.
    MemoryOutOfRange,
}

} // verus!
