//! The processor status register: eight one-bit flags packed into a byte.

use vstd::prelude::*;

verus! {

/// Carry flag: arithmetic or shift carry-out.
pub const CARRY: u8 = 0x01;
/// Zero flag: the last result was zero.
pub const ZERO: u8 = 0x02;
/// Masks IRQ interrupts (never NMI).
pub const INTERRUPT_DISABLE: u8 = 0x04;
/// Decimal mode: tracked but ignored by ADC/SBC on this processor variant.
pub const DECIMAL: u8 = 0x08;
/// B flag: present only in bytes pushed by PHP and BRK, never in the live register.
pub const BREAK_FLAG: u8 = 0x10;
/// Unused bit: reads as 1.
pub const UNUSED: u8 = 0x20;
/// Overflow flag: signed overflow of ADC/SBC.
pub const OVERFLOW: u8 = 0x40;
/// Negative flag: bit 7 of the last result.
pub const NEGATIVE: u8 = 0x80;

/// True when any bit of `mask` is set in `bits`.
pub open spec fn bit_set(bits: u8, mask: u8) -> bool {
    bits & mask != 0
}

/// `bits` with every bit of `mask` forced to `on`.
pub open spec fn with_flag(bits: u8, mask: u8, on: bool) -> u8 {
    if on {
        bits | mask
    } else {
        bits & !mask
    }
}

/// The status register as a plain bitset over the flag constants above.
#[derive(Clone, Copy, Debug, PartialEq, Eq, Structural)]
pub struct Status {
    pub bits: u8,
}

impl Status {
    /// A status register holding exactly `bits`.
    pub fn from_bits(bits: u8) -> (s: Status)
        ensures
            s.bits == bits,
    {
        Status { bits }
    }

    /// The raw byte.
    pub fn bits(&self) -> (r: u8)
        ensures
            r == self.bits,
    {
        self.bits
    }

    /// A status register with no flag set.
    pub fn none() -> (s: Status)
        ensures
            s.bits == 0,
    {
        Status { bits: 0 }
    }

    /// A status register with every flag set.
    pub fn all_flags() -> (s: Status)
        ensures
            s.bits == 0xFF,
    {
        Status { bits: 0xFF }
    }

    /// A status register with every bit of the byte set.
    pub fn all_bits() -> (s: Status)
        ensures
            s.bits == 0xFF,
    {
        Status { bits: 0xFF }
    }

    /// True when any bit of `flags` is set.
    pub fn contains(&self, flags: Status) -> (r: bool)
        ensures
            r == bit_set(self.bits, flags.bits),
    {
        self.bits & flags.bits != 0
    }

    /// Forces every bit of `flags` to `is_set` and leaves the other bits alone.
    pub fn set_flags(&mut self, flags: Status, is_set: bool)
        ensures
            final(self).bits == with_flag(old(self).bits, flags.bits, is_set),
    {
        if is_set {
            self.bits = self.bits | flags.bits;
        } else {
            self.bits = self.bits & !flags.bits;
        }
    }
}

impl Default for Status {
    /// The power-on value: Unused and InterruptDisable set.
    fn default() -> (s: Status)
        ensures
            s.bits == (UNUSED | INTERRUPT_DISABLE),
    {
        Status { bits: UNUSED | INTERRUPT_DISABLE }
    }
}

} // verus!
