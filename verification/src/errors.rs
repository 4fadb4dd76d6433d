//! The error taxonomy of the emulator. Every error is fatal to the run:
//! the driver stops and reports it.

use vstd::prelude::*;

verus! {

/// A fatal condition met while decoding or executing an instruction.
#[derive(Clone, Copy, Debug, PartialEq, Eq, Structural)]
pub enum EmuError {
    /// The opcode byte is not in the supported table.
    UnknownOpcode,
    /// The ModR/M byte uses an addressing mode outside the supported subset.
    UnimplementedAddressingMode,
    /// A group opcode carries a `reg` sub-opcode that is not handled.
    InvalidGroupSubOp,
    /// A byte-width operand was used at word width or the other way round.
    /// The dispatcher's contracts rule this out, so the driver never
    /// produces it; it remains part of the taxonomy for callers of the
    /// operand layer.
    OperandWidthMismatch,
    /// A write was directed at an immediate operand. As with
    /// `OperandWidthMismatch`, the dispatcher's contracts rule it out.
    InvalidOperandWrite,
    /// A memory access at an address outside the 64 KiB space, including
    /// stack growth past either end of it.
    InvalidAddress,
}

} // verus!
