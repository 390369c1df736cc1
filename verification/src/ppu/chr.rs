//! Character ROM viewed as tiles: 16 bytes per tile, two bit-planes of
//! eight rows each.

use vstd::prelude::*;

verus! {

/// One 8-by-8 tile: sixteen bytes, rows 0-7 the low bit-plane and rows 8-15
/// the high bit-plane.
pub struct ChrTile {
    pub data: Vec<u8>,
}

/// The two-bit colour index of one pixel of a tile: the high plane bit
/// above the low plane bit.
pub open spec fn tile_pixel(data: Seq<u8>, row: int, column: int) -> u8 {
    (((data[row] >> (7 - column) as u8) & 1) * 2 + ((data[row + 8] >> (7 - column) as u8)
        & 1)) as u8
}

impl ChrTile {
    /// A tile holds exactly sixteen bytes.
    pub open spec fn wf(&self) -> bool {
        self.data@.len() == 16
    }

    /// Copies one tile out of raw character data.
    pub fn from_chr(chr: &Vec<u8>, start: usize) -> (t: ChrTile)
        requires
            start + 16 <= chr@.len(),
        ensures
            t.wf(),
            t.data@ == chr@.subrange(start as int, start as int + 16),
    {
        ChrTile { data: crate::cart::copy_range(chr, start, 16) }
    }

    /// The two-bit colour value of the pixel at `row`, `column`.
    pub fn read(&self, row: usize, column: usize) -> (v: u8)
        requires
            self.wf(),
            row < 8,
            column < 8,
        ensures
            v == tile_pixel(self.data@, row as int, column as int),
            v < 4,
    {
        let shift = (7 - column) as u8;
        let low_plane = self.data[row];
        let high_plane = self.data[row + 8];
        proof {
            assert(((low_plane >> shift) & 1) < 2 && ((high_plane >> shift) & 1)
                < 2) by (bit_vector);
        }
        let upper = (low_plane >> shift) & 1;
        let lower = (high_plane >> shift) & 1;
        upper * 2 + lower
    }
}

/// One 4 KiB bank of 256 tiles.
pub struct ChrBank {
    pub tiles: Vec<ChrTile>,
}

impl ChrBank {
    /// A bank holds 256 well-formed tiles.
    pub open spec fn wf(&self) -> bool {
        &&& self.tiles@.len() == 256
        &&& forall|i: int| 0 <= i < 256 ==> (#[trigger] self.tiles@[i]).wf()
    }

    /// Splits one 4 KiB slice of character data into its tiles.
    pub fn from_chr(chr: &Vec<u8>, start: usize) -> (b: ChrBank)
        requires
            start + 0x1000 <= chr@.len(),
        ensures
            b.wf(),
            forall|i: int|
                0 <= i < 256 ==> (#[trigger] b.tiles@[i]).data@ == chr@.subrange(
                    start + i * 16,
                    start + i * 16 + 16,
                ),
    {
        let mut tiles: Vec<ChrTile> = Vec::new();
        let mut n: usize = 0;
        let total = chr.len();
        while n < 256
            invariant
                n <= 256,
                total == chr@.len(),
                start + 0x1000 <= total,
                tiles@.len() == n,
                forall|i: int| 0 <= i < n ==> (#[trigger] tiles@[i]).wf(),
                forall|i: int|
                    0 <= i < n ==> (#[trigger] tiles@[i]).data@ == chr@.subrange(
                        start + i * 16,
                        start + i * 16 + 16,
                    ),
            decreases 256 - n,
        {
            tiles.push(ChrTile::from_chr(chr, start + n * 16));
            n = n + 1;
        }
        ChrBank { tiles }
    }
}

/// Character ROM split into its banks.
pub struct ChrRom {
    pub banks: Vec<ChrBank>,
}

impl ChrRom {
    /// Every bank is well formed.
    pub open spec fn wf(&self) -> bool {
        forall|i: int| 0 <= i < self.banks@.len() ==> (#[trigger] self.banks@[i]).wf()
    }

    /// Splits raw character data into as many full 4 KiB banks as it holds.
    pub fn from_chr(chr: &Vec<u8>) -> (r: ChrRom)
        ensures
            r.wf(),
            r.banks@.len() == chr@.len() / 0x1000,
    {
        let count = chr.len() / 0x1000;
        let total = chr.len();
        let mut banks: Vec<ChrBank> = Vec::new();
        let mut n: usize = 0;
        while n < count
            invariant
                n <= count,
                total == chr@.len(),
                count == chr@.len() / 0x1000,
                banks@.len() == n,
                forall|i: int| 0 <= i < n ==> (#[trigger] banks@[i]).wf(),
            decreases count - n,
        {
            proof {
                assert((n + 1) * 0x1000 <= chr@.len()) by (nonlinear_arith)
                    requires
                        n < count,
                        count == chr@.len() / 0x1000,
                ;
            }
            banks.push(ChrBank::from_chr(chr, n * 0x1000));
            n = n + 1;
        }
        ChrRom { banks }
    }

    /// One tile of one bank.
    pub fn read(&self, bank: usize, tile: usize) -> (t: &ChrTile)
        requires
            self.wf(),
            bank < self.banks@.len(),
            tile < 256,
        ensures
            *t == self.banks@[bank as int].tiles@[tile as int],
            t.wf(),
    {
        &self.banks[bank].tiles[tile]
    }
}

} // verus!
