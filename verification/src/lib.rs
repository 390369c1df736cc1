//! A cycle-conscious emulator core for the Ricoh 6502 processor variant of the
//! NES, together with its memory bus, iNES cartridge container, and the
//! scanline-paced PPU front-end that drives NMI-based frame pacing.

pub mod addressing;
pub mod cart;
pub mod cartridge;
pub mod cpu;
pub mod errors;
pub mod header;
pub mod instructions;
pub mod interrupts;
pub mod nes;
pub mod memory;
pub mod ppu;
pub mod bus;
pub mod ram;
pub mod status;

use vstd::prelude::*;

verus! {

} // verus!
