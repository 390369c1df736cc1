//! The byte-addressed device interface that the bus routes through.

use vstd::prelude::*;

verus! {

/// A memory-mapped device. No behaviour is promised here: what a device
/// returns, and what its writes do, is the device's own affair. The bus
/// states its guarantees only for the regions it owns itself.
pub trait Memory {
    /// Reads one byte. Reading may have side effects on the device.
    fn read(&mut self, address: usize) -> u8;

    /// Writes one byte.
    fn write(&mut self, address: usize, value: u8);
}

} // verus!
