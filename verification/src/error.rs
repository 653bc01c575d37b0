use vstd::prelude::*;

verus! {

/// A fatal condition raised by a malformed program or an oversized ROM.
/// CHIP-8 defines no recovery semantics for any of these: the driver is
/// expected to halt with a descriptive message as soon as one is returned.
#[derive(Clone, Copy, Debug, PartialEq, Eq, Structural)]
pub enum Chip8Error {
    /// The two fetched bytes match no opcode pattern.
    UnknownOpcode,
    /// A subroutine call would push a seventeenth return address.
    StackOverflow,
    /// A subroutine return found the call stack empty.
    StackUnderflow,
    /// Advancing the program counter would leave the 16-bit range.
    PcOverflow,
    /// A fetch needed a byte beyond address 4095.
    PcOutOfBounds,
    /// Adding to the index register would leave the 16-bit range.
    IndexOverflow,
    /// A sprite read or a register store/load would touch memory beyond 4095.
    AddressOutOfBounds,
    /// The ROM image does not fit between 0x200 and the end of memory.
    RomTooLarge,
}

} // verus!
