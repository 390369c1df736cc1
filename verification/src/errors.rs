//! The error kinds the emulator core reports.

use vstd::prelude::*;

verus! {

/// What can go wrong while constructing or stepping the emulator.
#[derive(Debug, Clone, Copy, PartialEq, Eq, Structural)]
pub enum EmuError {
    /// The cartridge image is not a well-formed iNES file: bad magic, or
    /// fewer bytes than the header declares.
    InvalidRom,
    /// An opcode that decodes to nothing executable.
    IllegalInstruction,
    /// An unstable unofficial opcode this core refuses to emulate.
    Unimplemented,
}

} // verus!
