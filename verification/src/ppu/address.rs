//! The PPU ADDR register: a 16-bit VRAM address built big-endian by two
//! successive byte writes through a shared latch.

use vstd::prelude::*;

use crate::cpu::{hi_byte, lo_byte, wrap_add16};

verus! {

/// The double-write VRAM address register.
#[derive(Debug, Clone, Copy, PartialEq, Eq, Structural)]
pub struct AddressRegister {
    pub high: u8,
    pub low: u8,
    /// True when the next byte written fills the high half.
    pub latch_high: bool,
}

/// The 16-bit address a register currently holds.
pub open spec fn address_value(r: AddressRegister) -> u16 {
    (r.high * 256 + r.low) as u16
}

impl AddressRegister {
    /// Loads a full 16-bit address at once.
    pub fn set(&mut self, value: u16)
        ensures
            final(self).high == hi_byte(value),
            final(self).low == lo_byte(value),
            final(self).latch_high == old(self).latch_high,
            address_value(*final(self)) == value,
    {
        self.high = (value / 256) as u8;
        self.low = (value % 256) as u8;
    }

    /// The address currently held.
    pub fn read(&self) -> (v: u16)
        ensures
            v == address_value(*self),
    {
        self.high as u16 * 256 + self.low as u16
    }

    /// One CPU write: fills the half the latch points at, then flips the
    /// latch, so the first write after a latch reset holds the high byte.
    pub fn write(&mut self, value: u8)
        ensures
            old(self).latch_high ==> *final(self) == (AddressRegister {
                high: value,
                latch_high: false,
                ..*old(self)
            }),
            !old(self).latch_high ==> *final(self) == (AddressRegister {
                low: value,
                latch_high: true,
                ..*old(self)
            }),
    {
        if self.latch_high {
            self.high = value;
        } else {
            self.low = value;
        }
        self.latch_high = !self.latch_high;
    }

    /// Moves the address forward by `value`, wrapping at the address space.
    pub fn increment(&mut self, value: u16)
        ensures
            address_value(*final(self)) == wrap_add16(address_value(*old(self)), value),
            final(self).latch_high == old(self).latch_high,
    {
        let next: u16 = ((self.read() as u32 + value as u32) % 0x10000) as u16;
        self.set(next);
    }

    /// Points the latch back at the high byte.
    pub fn reset_latch(&mut self)
        ensures
            *final(self) == (AddressRegister { latch_high: true, ..*old(self) }),
    {
        self.latch_high = true;
    }
}

impl Default for AddressRegister {
    /// Address zero, latch pointing at the high byte.
    fn default() -> (r: AddressRegister)
        ensures
            r.high == 0,
            r.low == 0,
            r.latch_high,
    {
        AddressRegister { high: 0, low: 0, latch_high: true }
    }
}

} // verus!
