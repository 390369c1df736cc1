//! The PPU STATUS register.

use vstd::prelude::*;

use crate::status::{bit_set, with_flag};

verus! {

/// Sprite overflow.
pub const SPRITE_OVERFLOW: u8 = 0x20;
/// Sprite zero hit.
pub const SPRITE_ZERO_HIT: u8 = 0x40;
/// Vertical blanking has started.
pub const VBLANK: u8 = 0x80;

/// The STATUS register as a plain bitset; bits 7..5 are meaningful, the rest
/// read as zero here.
#[derive(Debug, Clone, Copy, PartialEq, Eq, Structural)]
pub struct Status {
    pub bits: u8,
}

impl Status {
    /// Wraps a raw register byte.
    pub fn from_bits(bits: u8) -> (s: Status)
        ensures
            s.bits == bits,
    {
        Status { bits }
    }

    /// True when any bit of `mask` is set.
    pub fn contains(&self, mask: u8) -> (r: bool)
        ensures
            r == bit_set(self.bits, mask),
    {
        self.bits & mask != 0
    }

    /// Forces every bit of `mask` to `on` and leaves the other bits alone.
    pub fn set_flags(&mut self, mask: u8, on: bool)
        ensures
            final(self).bits == with_flag(old(self).bits, mask, on),
    {
        if on {
            self.bits = self.bits | mask;
        } else {
            self.bits = self.bits & !mask;
        }
    }
}

impl Default for Status {
    /// All status bits clear.
    fn default() -> (s: Status)
        ensures
            s.bits == 0,
    {
        Status { bits: 0 }
    }
}

} // verus!
