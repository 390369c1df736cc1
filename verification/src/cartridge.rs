//! The interface a program cartridge offers to the bus.

use vstd::prelude::*;

verus! {

/// A cartridge mapped into the CPU window 0x4020-0xFFFF. Implementations
/// outside this crate (a test harness, another mapper) decide what the
/// mapped bytes are, so nothing is promised about them here.
pub trait Cartridge {
    /// The address the processor starts at after RESET.
    fn get_reset_vector(&self) -> u16;

    /// How many bytes the cartridge exposes.
    fn get_size(&self) -> usize;

    /// The first CPU address the cartridge answers with program data.
    fn begin(&self) -> usize;
}

} // verus!
