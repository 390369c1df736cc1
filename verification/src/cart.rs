//! The iNES cartridge: header, program ROM and character ROM, mapped into
//! the CPU window 0x8000-0xFFFF with NROM mirroring.

use vstd::prelude::*;

use crate::cartridge::Cartridge;
use crate::cpu::word;
use crate::errors::EmuError;
use crate::header::{Header, TRAINER_BIT};
use crate::memory::Memory;
use crate::status::bit_set;

verus! {

/// First CPU address routed to the cartridge.
pub const CART_BEGIN: usize = 0x4020;
/// Last CPU address routed to the cartridge.
pub const CART_END: usize = 0xFFFF;
/// One program ROM bank is 16 KiB.
pub const PRG_BANK_SIZE: usize = 0x4000;
/// One character ROM bank is 8 KiB.
pub const CHR_BANK_SIZE: usize = 0x2000;
/// An optional trainer between header and program data is 512 bytes.
pub const TRAINER_SIZE: usize = 512;

/// Whether the trainer bit of control byte one is set in a raw image.
pub open spec fn ines_has_trainer(raw: Seq<u8>) -> bool {
    bit_set(raw[6], TRAINER_BIT)
}

/// Where the program ROM starts in a raw image.
pub open spec fn ines_prg_begin(raw: Seq<u8>) -> int {
    16 + if ines_has_trainer(raw) {
        512int
    } else {
        0int
    }
}

/// Declared program ROM size of a raw image, in bytes.
pub open spec fn ines_prg_size(raw: Seq<u8>) -> int {
    raw[4] * 0x4000
}

/// Declared character ROM size of a raw image, in bytes.
pub open spec fn ines_chr_size(raw: Seq<u8>) -> int {
    raw[5] * 0x2000
}

/// A raw image is valid when it has a full header, the iNES magic, and at
/// least as many bytes as the header declares.
pub open spec fn ines_valid(raw: Seq<u8>) -> bool {
    &&& raw.len() >= 16
    &&& raw[0] == 0x4E
    &&& raw[1] == 0x45
    &&& raw[2] == 0x53
    &&& raw[3] == 0x1A
    &&& raw.len() >= ines_prg_begin(raw) + ines_prg_size(raw) + ines_chr_size(raw)
}

/// The byte the NROM mapping yields for a CPU address: addresses below the
/// 0x8000 window, and every address on an empty program ROM, read as zero;
/// the window itself repeats the program ROM over its own length, so a
/// 16 KiB image mirrors itself.
pub open spec fn prg_mapped(prg: Seq<u8>, address: int) -> u8 {
    if prg.len() == 0 || address < 0x8000 {
        0
    } else {
        prg[(address - 0x8000) % (prg.len() as int)]
    }
}

/// A parsed cartridge.
pub struct Cart {
    pub header: Header,
    pub prg_rom: Vec<u8>,
    pub chr_rom: Vec<u8>,
}

impl Cart {
    /// Parses a raw iNES image. Returns the cartridge exactly when the image
    /// is valid: the magic must match and the image must hold every byte the
    /// header declares; otherwise `InvalidRom`. The program and character
    /// ROMs are the declared slices of the image, after the header and the
    /// optional trainer.
    pub fn new(raw_data: &Vec<u8>) -> (r: Result<Cart, EmuError>)
        ensures
            r is Ok <==> ines_valid(raw_data@),
            r matches Ok(c) ==> {
                &&& c.prg_rom@ == raw_data@.subrange(
                    ines_prg_begin(raw_data@),
                    ines_prg_begin(raw_data@) + ines_prg_size(raw_data@),
                )
                &&& c.chr_rom@ == raw_data@.subrange(
                    ines_prg_begin(raw_data@) + ines_prg_size(raw_data@),
                    ines_prg_begin(raw_data@) + ines_prg_size(raw_data@) + ines_chr_size(
                        raw_data@,
                    ),
                )
                &&& c.header.num_prg_banks == raw_data@[4]
                &&& c.header.num_chr_banks == raw_data@[5]
                &&& c.header.control.control_one.bits == raw_data@[6]
                &&& c.header.control.control_two.bits == raw_data@[7]
            },
            r matches Err(e) ==> e == EmuError::InvalidRom,
    {
        if raw_data.len() < 16 {
            return Err(EmuError::InvalidRom);
        }
        let header = Header::new(raw_data);
        if !header.is_valid_tag() {
            return Err(EmuError::InvalidRom);
        }
        let prg_size = header.num_prg_banks as usize * PRG_BANK_SIZE;
        let chr_size = header.num_chr_banks as usize * CHR_BANK_SIZE;
        let trainer_skip = if header.control.control_one.contains(TRAINER_BIT) {
            TRAINER_SIZE
        } else {
            0
        };
        let prg_begin = 16 + trainer_skip;
        let prg_end = prg_begin + prg_size;
        let chr_end = prg_end + chr_size;
        if raw_data.len() < chr_end {
            return Err(EmuError::InvalidRom);
        }
        Ok(
            Cart {
                header,
                prg_rom: copy_range(raw_data, prg_begin, prg_size),
                chr_rom: copy_range(raw_data, prg_end, chr_size),
            },
        )
    }

    /// Reads one byte through the NROM mapping.
    pub fn read_mapped(&self, address: usize) -> (v: u8)
        ensures
            v == prg_mapped(self.prg_rom@, address as int),
    {
        if address < 0x8000 || self.prg_rom.len() == 0 {
            0
        } else {
            let index = (address - 0x8000) % self.prg_rom.len();
            self.prg_rom[index]
        }
    }

    /// A write into the cartridge window. This minimal core carries no
    /// cartridge WRAM, so whether or not the header's RAM bit is set, the
    /// write is silently ignored: the cartridge is left exactly as it was
    /// and nothing fails.
    pub fn write_mapped(&mut self, _address: usize, _value: u8)
        ensures
            *final(self) == *old(self),
    {
    }

    /// The word the bus fetches from CPU address 0xFFFC after RESET. By the
    /// mirroring rule this is always inside the program ROM.
    pub fn reset_vector(&self) -> (v: u16)
        ensures
            v == word(
                prg_mapped(self.prg_rom@, 0xFFFC),
                prg_mapped(self.prg_rom@, 0xFFFD),
            ),
    {
        let lo = self.read_mapped(0xFFFC);
        let hi = self.read_mapped(0xFFFD);
        crate::cpu::make_word(lo, hi)
    }
}

impl Memory for Cart {
    fn read(&mut self, address: usize) -> u8 {
        self.read_mapped(address)
    }

    fn write(&mut self, address: usize, value: u8) {
        self.write_mapped(address, value)
    }
}

impl Cartridge for Cart {
    fn get_reset_vector(&self) -> u16 {
        self.reset_vector()
    }

    fn get_size(&self) -> usize {
        self.prg_rom.len()
    }

    fn begin(&self) -> usize {
        0x8000
    }
}

/// Copies `len` bytes of `src` starting at `start` into a fresh vector.
pub fn copy_range(src: &Vec<u8>, start: usize, len: usize) -> (v: Vec<u8>)
    requires
        start + len <= src@.len(),
    ensures
        v@ == src@.subrange(start as int, start as int + len as int),
{
    let mut v: Vec<u8> = Vec::new();
    let mut k: usize = 0;
    let n = src.len();
    while k < len
        invariant
            k <= len,
            start + len <= n,
            n == src@.len(),
            v@ == src@.subrange(start as int, start as int + k as int),
        decreases len - k,
    {
        v.push(src[start + k]);
        assert(v@ == src@.subrange(start as int, start as int + (k + 1) as int));
        k = k + 1;
    }
    v
}

} // verus!
