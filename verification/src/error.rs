//! What can go wrong while loading or running a program.

use vstd::prelude::*;

verus! {

/// A program image that does not fit between the program start address and
/// the end of memory.
#[derive(Clone, Copy, Debug, PartialEq, Eq, Structural)]
pub struct LoadError {
    /// Length in bytes of the rejected image.
    pub len: usize,
}

/// A condition that halts the machine. The instruction that raised it has
/// no effect.
#[derive(Clone, Copy, Debug, PartialEq, Eq, Structural)]
pub enum Fault {
    /// The program counter does not address two bytes inside memory.
    FetchError,
    /// The fetched word matches no instruction pattern.
    UnimplementedOpcode(u16),
    /// A call was made with all sixteen stack slots in use.
    StackOverflow,
    /// A return was made with no call outstanding.
    StackUnderflow,
    /// An instruction reads or writes memory through the index register
    /// beyond the last address.
    AddressOutOfRange,
    /// A key instruction names a key above `0xF`.
    KeyOutOfRange,
}

} // verus!
