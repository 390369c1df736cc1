//! A raw RGB frame buffer and the tile viewer that fills it from character
//! ROM.

use vstd::prelude::*;

use super::chr::tile_pixel;

verus! {

/// Frame width in pixels.
pub const FRAME_WIDTH: usize = 256;
/// Frame height in pixels.
pub const FRAME_HEIGHT: usize = 240;

/// A frame of 256 by 240 pixels, three bytes each.
pub struct Frame {
    pub data: Vec<u8>,
}

/// Where a pixel's first byte lives in the buffer.
pub open spec fn pixel_index(x: int, y: int) -> int {
    (x + y * 256) * 3
}

impl Frame {
    /// The buffer holds exactly one frame.
    pub open spec fn wf(&self) -> bool {
        self.data@.len() == 256 * 240 * 3
    }

    /// A black frame.
    pub fn new() -> (f: Frame)
        ensures
            f.wf(),
    {
        Frame { data: crate::ram::zero_filled(FRAME_WIDTH * FRAME_HEIGHT * 3) }
    }

    /// Sets one pixel to the given colour.
    pub fn write(&mut self, x: usize, y: usize, color: (u8, u8, u8))
        requires
            old(self).wf(),
            x < 256,
            y < 240,
        ensures
            final(self).wf(),
            final(self).data@ == old(self).data@.update(pixel_index(x as int, y as int), color.0)
                .update(pixel_index(x as int, y as int) + 1, color.1).update(
                pixel_index(x as int, y as int) + 2,
                color.2,
            ),
    {
        let index = (x + y * 256) * 3;
        self.data[index] = color.0;
        self.data[index + 1] = color.1;
        self.data[index + 2] = color.2;
    }
}

/// One entry of the system palette: the RGB colour of a six-bit colour
/// index. Indices past the palette fold back onto it.
pub fn palette_color(index: u8) -> (u8, u8, u8) {
    let i = index % 64;
    if i < 16 {
        if i < 8 {
            match i {
                0 => (0x80, 0x80, 0x80),
                1 => (0x00, 0x3D, 0xA6),
                2 => (0x00, 0x12, 0xB0),
                3 => (0x44, 0x00, 0x96),
                4 => (0xA1, 0x00, 0x5E),
                5 => (0xC7, 0x00, 0x28),
                6 => (0xBA, 0x06, 0x00),
                _ => (0x8C, 0x17, 0x00),
            }
        } else {
            match i {
                8 => (0x5C, 0x2F, 0x00),
                9 => (0x10, 0x45, 0x00),
                10 => (0x05, 0x4A, 0x00),
                11 => (0x00, 0x47, 0x2E),
                12 => (0x00, 0x41, 0x66),
                13 => (0x00, 0x00, 0x00),
                _ => (0x05, 0x05, 0x05),
            }
        }
    } else if i < 32 {
        if i < 24 {
            match i {
                16 => (0xC7, 0xC7, 0xC7),
                17 => (0x00, 0x77, 0xFF),
                18 => (0x21, 0x55, 0xFF),
                19 => (0x82, 0x37, 0xFA),
                20 => (0xEB, 0x2F, 0xB5),
                21 => (0xFF, 0x29, 0x50),
                22 => (0xFF, 0x22, 0x00),
                _ => (0xD6, 0x32, 0x00),
            }
        } else {
            match i {
                24 => (0xC4, 0x62, 0x00),
                25 => (0x35, 0x80, 0x00),
                26 => (0x05, 0x8F, 0x00),
                27 => (0x00, 0x8A, 0x55),
                28 => (0x00, 0x99, 0xCC),
                29 => (0x21, 0x21, 0x21),
                _ => (0x09, 0x09, 0x09),
            }
        }
    } else if i < 48 {
        if i < 40 {
            match i {
                32 => (0xFF, 0xFF, 0xFF),
                33 => (0x0F, 0xD7, 0xFF),
                34 => (0x69, 0xA2, 0xFF),
                35 => (0xD4, 0x80, 0xFF),
                36 => (0xFF, 0x45, 0xF3),
                37 => (0xFF, 0x61, 0x8B),
                38 => (0xFF, 0x88, 0x33),
                _ => (0xFF, 0x9C, 0x12),
            }
        } else {
            match i {
                40 => (0xFA, 0xBC, 0x20),
                41 => (0x9F, 0xE3, 0x0E),
                42 => (0x2B, 0xF0, 0x35),
                43 => (0x0C, 0xF0, 0xA4),
                44 => (0x05, 0xFB, 0xFF),
                45 => (0x5E, 0x5E, 0x5E),
                _ => (0x0D, 0x0D, 0x0D),
            }
        }
    } else {
        if i < 56 {
            match i {
                48 => (0xFF, 0xFF, 0xFF),
                49 => (0xA6, 0xFC, 0xFF),
                50 => (0xB3, 0xEC, 0xFF),
                51 => (0xDA, 0xAB, 0xEB),
                52 => (0xFF, 0xA8, 0xF9),
                53 => (0xFF, 0xAB, 0xB3),
                54 => (0xFF, 0xD2, 0xB0),
                _ => (0xFF, 0xEF, 0xA6),
            }
        } else {
            match i {
                56 => (0xFF, 0xF7, 0x9C),
                57 => (0xD7, 0xE8, 0x95),
                58 => (0xA6, 0xED, 0xAF),
                59 => (0xA2, 0xF2, 0xDA),
                60 => (0x99, 0xFF, 0xFC),
                61 => (0xDD, 0xDD, 0xDD),
                _ => (0x11, 0x11, 0x11),
            }
        }
    }
}

/// The default colour of a two-bit tile pixel in the viewer.
pub fn tile_color(value: u8) -> (u8, u8, u8) {
    if value == 0 {
        palette_color(0x01)
    } else if value == 1 {
        palette_color(0x23)
    } else if value == 2 {
        palette_color(0x27)
    } else {
        palette_color(0x30)
    }
}

/// Renders one bank of character ROM as a grid of tiles, twenty per row,
/// for inspection.
pub fn show_tile_bank(chr_rom: &Vec<u8>, bank: usize) -> (f: Frame)
    requires
        bank <= 1,
        chr_rom@.len() >= (bank + 1) * 0x1000,
    ensures
        f.wf(),
{
    let mut frame = Frame::new();
    let base = bank * 0x1000;
    let mut tile_n: usize = 0;
    while tile_n < 255
        invariant
            tile_n <= 255,
            bank <= 1,
            chr_rom@.len() >= (bank + 1) * 0x1000,
            base == bank * 0x1000,
            frame.wf(),
        decreases 255 - tile_n,
    {
        let tile_x = 10 * (tile_n % 20);
        let tile_y = 10 * (tile_n / 20);
        let mut y: usize = 0;
        while y < 8
            invariant
                y <= 8,
                tile_x <= 190,
                tile_y <= 120,
                tile_n < 255,
                bank <= 1,
                chr_rom@.len() >= (bank + 1) * 0x1000,
                base == bank * 0x1000,
                frame.wf(),
            decreases 8 - y,
        {
            let upper = chr_rom[base + tile_n * 16 + y];
            let lower = chr_rom[base + tile_n * 16 + y + 8];
            let mut x: usize = 0;
            while x < 8
                invariant
                    x <= 8,
                    y < 8,
                    tile_x <= 190,
                    tile_y <= 120,
                    frame.wf(),
                decreases 8 - x,
            {
                let shift = (7 - x) as u8;
                proof {
                    assert(((upper >> shift) & 1) < 2 && ((lower >> shift) & 1)
                        < 2) by (bit_vector);
                }
                let value = (((upper >> shift) & 1) * 2) + ((lower >> shift) & 1);
                frame.write(tile_x + x, tile_y + y, tile_color(value));
                x = x + 1;
            }
            y = y + 1;
        }
        tile_n = tile_n + 1;
    }
    frame
}

} // verus!
