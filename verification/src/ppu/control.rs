//! The PPU CTRL register.

use vstd::prelude::*;

use crate::status::bit_set;

verus! {

/// Low bit of the base nametable selector.
pub const NAMETABLE_LOW: u8 = 0x01;
/// High bit of the base nametable selector.
pub const NAMETABLE_HIGH: u8 = 0x02;
/// VRAM address increment per DATA access: 32 when set, 1 when clear.
pub const VRAM_INCREMENT: u8 = 0x04;
/// Sprite pattern table selector.
pub const SPRITE_PATTERN: u8 = 0x08;
/// Background pattern table selector.
pub const BACKGROUND_PATTERN: u8 = 0x10;
/// Sprite size selector.
pub const SPRITE_SIZE: u8 = 0x20;
/// Master/slave select.
pub const MASTER_SLAVE: u8 = 0x40;
/// Raise NMI at the start of vertical blanking.
pub const NMI_ENABLE: u8 = 0x80;

/// The CTRL register as a plain bitset.
#[derive(Debug, Clone, Copy, PartialEq, Eq, Structural)]
pub struct Control {
    pub bits: u8,
}

impl Control {
    /// Wraps a raw register byte.
    pub fn from_bits(bits: u8) -> (c: Control)
        ensures
            c.bits == bits,
    {
        Control { bits }
    }

    /// True when any bit of `mask` is set.
    pub fn contains(&self, mask: u8) -> (r: bool)
        ensures
            r == bit_set(self.bits, mask),
    {
        self.bits & mask != 0
    }

    /// The base nametable address selected by the two low bits.
    pub fn get_nametable_base(&self) -> (r: usize)
        ensures
            r == 0x2000 + (if bit_set(self.bits, NAMETABLE_LOW) {
                0x400int
            } else {
                0int
            }) + (if bit_set(self.bits, NAMETABLE_HIGH) {
                0x800int
            } else {
                0int
            }),
    {
        let mut result: usize = 0x2000;
        if self.bits & NAMETABLE_LOW != 0 {
            result = result + 0x400;
        }
        if self.bits & NAMETABLE_HIGH != 0 {
            result = result + 0x800;
        }
        result
    }

    /// The pattern table sprites are fetched from.
    pub fn get_sprite_pattern_address(&self) -> (r: usize)
        ensures
            r == if bit_set(self.bits, SPRITE_PATTERN) {
                0x1000int
            } else {
                0int
            },
    {
        if self.bits & SPRITE_PATTERN != 0 {
            0x1000
        } else {
            0
        }
    }

    /// The pattern table the background is fetched from.
    pub fn get_background_pattern_address(&self) -> (r: usize)
        ensures
            r == if bit_set(self.bits, BACKGROUND_PATTERN) {
                0x1000int
            } else {
                0int
            },
    {
        if self.bits & BACKGROUND_PATTERN != 0 {
            0x1000
        } else {
            0
        }
    }

    /// How far a DATA access moves the VRAM address.
    pub fn get_increment(&self) -> (r: u16)
        ensures
            r == vram_step(self.bits),
    {
        if self.bits & VRAM_INCREMENT != 0 {
            32
        } else {
            1
        }
    }
}

/// The VRAM address step selected by a CTRL byte: 32 or 1.
pub open spec fn vram_step(bits: u8) -> u16 {
    if bit_set(bits, VRAM_INCREMENT) {
        32
    } else {
        1
    }
}

impl Default for Control {
    /// All control bits clear.
    fn default() -> (c: Control)
        ensures
            c.bits == 0,
    {
        Control { bits: 0 }
    }
}

} // verus!
