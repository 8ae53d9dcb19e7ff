use vstd::prelude::*;

verus! {

/// Every way in which the processor core can fail. None of them is
/// recoverable inside the core: each one means the running program is corrupt.
#[derive(Debug, Clone, Copy, PartialEq, Eq, Structural)]
pub enum CoreError {
    /// A ROM image larger than the ROM region was offered.
    RomSizeError,
    /// The program counter points outside of memory.
    ProgramCounterError { index: u16 },
    /// Advancing the program counter would leave the 16-bit address space.
    ProgramCounterOverflow,
    /// A 16-bit access would reach past the last byte of memory.
    IndexError { index: u16 },
    /// The opcode is not an 8080 instruction.
    OpcodeError { opcode: u8 },
    /// A push or pop would move the stack pointer out of the 16-bit address space.
    StackPointerOverflow,
}

} // verus!
