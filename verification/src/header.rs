//! The 16-byte iNES file header.

use vstd::prelude::*;

verus! {

/// Control byte one, iNES byte 6: mirroring, battery RAM, trainer,
/// four-screen layout, and the low nibble of the mapper number.
#[derive(Debug, Clone, Copy, PartialEq, Eq, Structural)]
pub struct ControlOne {
    pub bits: u8,
}

/// Vertical-versus-horizontal nametable mirroring.
pub const MIRRORING_BIT: u8 = 0x01;
/// Battery-backed cartridge RAM is present.
pub const RAM_BIT: u8 = 0x02;
/// A 512-byte trainer precedes the program data.
pub const TRAINER_BIT: u8 = 0x04;
/// Four-screen nametable layout.
pub const FOUR_SCREEN_BIT: u8 = 0x08;

impl ControlOne {
    /// Wraps a raw control byte.
    pub fn from_bits(bits: u8) -> (c: ControlOne)
        ensures
            c.bits == bits,
    {
        ControlOne { bits }
    }

    /// True when any bit of `mask` is set.
    pub fn contains(&self, mask: u8) -> (r: bool)
        ensures
            r == crate::status::bit_set(self.bits, mask),
    {
        self.bits & mask != 0
    }
}

/// Control byte two, iNES byte 7: the iNES format marker and the high nibble
/// of the mapper number.
#[derive(Debug, Clone, Copy, PartialEq, Eq, Structural)]
pub struct ControlTwo {
    pub bits: u8,
}

impl ControlTwo {
    /// Wraps a raw control byte.
    pub fn from_bits(bits: u8) -> (c: ControlTwo)
        ensures
            c.bits == bits,
    {
        ControlTwo { bits }
    }
}

/// The two control bytes together.
#[derive(Debug, Clone, Copy, PartialEq, Eq, Structural)]
pub struct Control {
    pub control_one: ControlOne,
    pub control_two: ControlTwo,
}

impl Control {
    /// Pairs the two raw control bytes.
    pub fn new(first_byte: u8, second_byte: u8) -> (c: Control)
        ensures
            c.control_one.bits == first_byte,
            c.control_two.bits == second_byte,
    {
        Control { control_one: ControlOne { bits: first_byte }, control_two: ControlTwo {
            bits: second_byte,
        } }
    }

    /// The mapper number: high nibble from control byte two, low nibble from
    /// control byte one.
    pub fn get_mapper(&self) -> (r: u8)
        ensures
            r == (self.control_two.bits / 16) * 16 + self.control_one.bits / 16,
    {
        (self.control_two.bits / 16) * 16 + self.control_one.bits / 16
    }
}

/// The parsed iNES header.
#[derive(Debug, Clone, Copy)]
pub struct Header {
    pub format_tag: [u8; 4],
    pub num_prg_banks: u8,
    pub num_chr_banks: u8,
    pub control: Control,
    pub num_ram_banks: u8,
}

/// The header occupies the first sixteen bytes of an iNES image.
pub const HEADER_SIZE: usize = 16;

impl Header {
    /// Reads the header fields out of the first sixteen bytes of an image:
    /// the four magic bytes, the PRG and CHR bank counts, the two control
    /// bytes, and the RAM bank count.
    pub fn new(ines_data: &Vec<u8>) -> (h: Header)
        requires
            ines_data@.len() >= 16,
        ensures
            h.format_tag@ == seq![
                ines_data@[0],
                ines_data@[1],
                ines_data@[2],
                ines_data@[3],
            ],
            h.num_prg_banks == ines_data@[4],
            h.num_chr_banks == ines_data@[5],
            h.control.control_one.bits == ines_data@[6],
            h.control.control_two.bits == ines_data@[7],
            h.num_ram_banks == ines_data@[8],
    {
        Header {
            format_tag: [ines_data[0], ines_data[1], ines_data[2], ines_data[3]],
            num_prg_banks: ines_data[4],
            num_chr_banks: ines_data[5],
            control: Control::new(ines_data[6], ines_data[7]),
            num_ram_banks: ines_data[8],
        }
    }

    /// True exactly when the magic bytes read "NES" followed by 0x1A.
    pub fn is_valid_tag(&self) -> (r: bool)
        ensures
            r == (self.format_tag@[0] == 0x4E && self.format_tag@[1] == 0x45 && self.format_tag@[2]
                == 0x53 && self.format_tag@[3] == 0x1A),
    {
        self.format_tag[0] == 0x4E && self.format_tag[1] == 0x45 && self.format_tag[2] == 0x53
            && self.format_tag[3] == 0x1A
    }
}

} // verus!
