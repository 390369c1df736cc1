//! The 2 KiB of internal RAM, addressable through 0x0000-0x1FFF with
//! 0x0800-byte mirroring.

use vstd::prelude::*;

verus! {

/// The number of physical RAM bytes.
pub const RAM_SIZE: usize = 0x800;

/// Internal RAM. The vector always holds exactly `RAM_SIZE` bytes.
pub struct Ram {
    pub memory: Vec<u8>,
}

/// Where a CPU address in 0x0000-0x1FFF lands in physical RAM.
pub open spec fn ram_index(address: int) -> int {
    address % 0x800
}

impl Ram {
    /// The RAM shape every operation relies on: exactly 2 KiB backing store.
    pub open spec fn wf(&self) -> bool {
        self.memory@.len() == 0x800
    }

    /// Maps a mirrored CPU address onto the 2 KiB physical store.
    pub fn map_address(address: usize) -> (r: usize)
        ensures
            r == ram_index(address as int),
            r < 0x800,
    {
        address % 0x800
    }

    /// Reads the byte at a mirrored address.
    pub fn read(&self, address: usize) -> (v: u8)
        requires
            self.wf(),
        ensures
            v == self.memory@[ram_index(address as int)],
    {
        let index = Ram::map_address(address);
        self.memory[index]
    }

    /// Writes a byte at a mirrored address.
    pub fn write(&mut self, address: usize, value: u8)
        requires
            old(self).wf(),
        ensures
            final(self).wf(),
            final(self).memory@ == old(self).memory@.update(ram_index(address as int), value),
    {
        let index = Ram::map_address(address);
        self.memory[index] = value;
    }

    /// Fresh RAM, all bytes zero.
    pub fn new() -> (r: Ram)
        ensures
            r.wf(),
            forall|i: int| 0 <= i < 0x800 ==> r.memory@[i] == 0,
    {
        Ram { memory: zero_filled(RAM_SIZE) }
    }
}

impl Default for Ram {
    /// Fresh RAM, all bytes zero.
    fn default() -> (r: Ram)
        ensures
            r.wf(),
            forall|i: int| 0 <= i < 0x800 ==> r.memory@[i] == 0,
    {
        Ram::new()
    }
}

/// A vector of `n` zero bytes.
pub fn zero_filled(n: usize) -> (v: Vec<u8>)
    ensures
        v@.len() == n,
        forall|i: int| 0 <= i < n ==> v@[i] == 0,
{
    let mut v: Vec<u8> = Vec::new();
    let mut k: usize = 0;
    while k < n
        invariant
            k <= n,
            v@.len() == k,
            forall|i: int| 0 <= i < k ==> v@[i] == 0,
        decreases n - k,
    {
        v.push(0);
        k = k + 1;
    }
    v
}

/// Law: every RAM address is read back through each of its mirrors. The four
/// CPU addresses `a`, `a + 0x800`, `a + 0x1000` and `a + 0x1800` land on the
/// same physical byte.
pub proof fn lemma_ram_mirroring(a: int)
    requires
        0 <= a < 0x800,
    ensures
        ram_index(a) == a,
        ram_index(a + 0x800) == a,
        ram_index(a + 0x1000) == a,
        ram_index(a + 0x1800) == a,
{
}

} // verus!
