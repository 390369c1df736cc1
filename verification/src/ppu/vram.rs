//! The 2 KiB of PPU nametable memory, reached through the four logical
//! nametables at 0x2000-0x2FFF and their mirror at 0x3000-0x3EFF.

use vstd::prelude::*;

verus! {

/// Which pairs of logical nametables share physical memory.
#[derive(Debug, Clone, Copy, PartialEq, Eq, Structural)]
pub enum VramMirror {
    Horizontal,
    Vertical,
}

/// Nametable memory with its mirroring rule.
pub struct VRam {
    pub memory: Vec<u8>,
    pub mirror: VramMirror,
}

/// Where a PPU address in 0x2000-0x3EFF lands in the 2 KiB physical store.
/// The address is first folded onto the four logical tables; horizontal
/// mirroring then pairs tables 0,1 and 2,3, vertical mirroring pairs 0,2
/// and 1,3.
pub open spec fn vram_physical(mirror: VramMirror, address: int) -> int {
    let index = (address - 0x2000) % 0x1000;
    let table = index / 0x400;
    let offset = index % 0x400;
    match mirror {
        VramMirror::Horizontal => (table / 2) * 0x400 + offset,
        VramMirror::Vertical => (table % 2) * 0x400 + offset,
    }
}

impl VRam {
    /// The backing store holds exactly 2 KiB.
    pub open spec fn wf(&self) -> bool {
        self.memory@.len() == 0x800
    }

    /// Maps a logical nametable address onto physical memory.
    pub fn map_address(&self, address: usize) -> (r: usize)
        requires
            0x2000 <= address < 0x3F00,
        ensures
            r == vram_physical(self.mirror, address as int),
            r < 0x800,
    {
        let index = (address - 0x2000) % 0x1000;
        let table = index / 0x400;
        let offset = index % 0x400;
        match self.mirror {
            VramMirror::Horizontal => (table / 2) * 0x400 + offset,
            VramMirror::Vertical => (table % 2) * 0x400 + offset,
        }
    }

    /// Reads a nametable byte through the mirroring rule.
    pub fn read(&self, address: usize) -> (v: u8)
        requires
            self.wf(),
            0x2000 <= address < 0x3F00,
        ensures
            v == self.memory@[vram_physical(self.mirror, address as int)],
    {
        let index = self.map_address(address);
        self.memory[index]
    }

    /// Writes a nametable byte through the mirroring rule.
    pub fn write(&mut self, address: usize, value: u8)
        requires
            old(self).wf(),
            0x2000 <= address < 0x3F00,
        ensures
            final(self).wf(),
            final(self).mirror == old(self).mirror,
            final(self).memory@ == old(self).memory@.update(
                vram_physical(old(self).mirror, address as int),
                value,
            ),
    {
        let index = self.map_address(address);
        self.memory[index] = value;
    }
}

impl Default for VRam {
    /// Fresh nametable memory, horizontally mirrored, all bytes zero.
    fn default() -> (v: VRam)
        ensures
            v.wf(),
            v.mirror == VramMirror::Horizontal,
            forall|i: int| 0 <= i < 0x800 ==> v.memory@[i] == 0,
    {
        VRam { memory: crate::ram::zero_filled(0x800), mirror: VramMirror::Horizontal }
    }
}

} // verus!
