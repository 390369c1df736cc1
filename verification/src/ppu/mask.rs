//! The PPU MASK register. The front-end only stores it.

use vstd::prelude::*;

verus! {

/// The MASK register as a plain bitset.
#[derive(Debug, Clone, Copy, PartialEq, Eq, Structural)]
pub struct Mask {
    pub bits: u8,
}

impl Mask {
    /// Wraps a raw register byte.
    pub fn from_bits(bits: u8) -> (m: Mask)
        ensures
            m.bits == bits,
    {
        Mask { bits }
    }
}

impl Default for Mask {
    /// All mask bits clear.
    fn default() -> (m: Mask)
        ensures
            m.bits == 0,
    {
        Mask { bits: 0 }
    }
}

} // verus!
