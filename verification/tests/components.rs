//! The cartridge container, the PPU internals, the tile helpers and the
//! whole-machine driver.

use nes_core::cart::Cart;
use nes_core::errors::EmuError;
use nes_core::header::Header;
use nes_core::nes::Nes;
use nes_core::ppu::address::AddressRegister;
use nes_core::ppu::chr::{ChrRom, ChrTile};
use nes_core::ppu::control::Control as PpuControl;
use nes_core::ppu::frame::{show_tile_bank, Frame};
use nes_core::ppu::vram::{VRam, VramMirror};
use nes_core::ram::Ram;

fn ines_image(prg_banks: u8, chr_banks: u8) -> Vec<u8> {
    let mut raw = vec![0x4E, 0x45, 0x53, 0x1A, prg_banks, chr_banks, 0, 0, 0, 0, 0, 0, 0, 0, 0, 0];
    for i in 0..(prg_banks as usize * 0x4000) {
        raw.push((i % 251) as u8);
    }
    for i in 0..(chr_banks as usize * 0x2000) {
        raw.push((i % 13) as u8);
    }
    raw
}

#[test]
fn cart_parses_a_valid_image() {
    let raw = ines_image(1, 1);
    let cart = Cart::new(&raw).unwrap();
    assert_eq!(cart.prg_rom.len(), 0x4000);
    assert_eq!(cart.chr_rom.len(), 0x2000);
    assert_eq!(cart.header.num_prg_banks, 1);
    assert_eq!(cart.header.num_chr_banks, 1);
    assert_eq!(cart.prg_rom[0], raw[16]);
    assert_eq!(cart.chr_rom[0], raw[16 + 0x4000]);
}

#[test]
fn cart_rejects_bad_magic() {
    let mut raw = ines_image(1, 0);
    raw[0] = 0x4D;
    assert!(matches!(Cart::new(&raw), Err(EmuError::InvalidRom)));
}

#[test]
fn cart_rejects_short_image() {
    let mut raw = ines_image(1, 1);
    raw.truncate(1000);
    assert!(matches!(Cart::new(&raw), Err(EmuError::InvalidRom)));
    assert!(matches!(Cart::new(&vec![1, 2, 3]), Err(EmuError::InvalidRom)));
}

#[test]
fn cart_mirrors_a_single_bank() {
    let mut raw = ines_image(1, 0);
    raw[16] = 0x5A;
    raw[16 + 0x3FFC] = 0x00;
    raw[16 + 0x3FFD] = 0xC0;
    let cart = Cart::new(&raw).unwrap();
    // A 16 KiB image repeats itself across the 32 KiB window.
    assert_eq!(cart.read_mapped(0x8000), 0x5A);
    assert_eq!(cart.read_mapped(0xC000), 0x5A);
    // The reset vector comes from the mirrored top of the bank.
    assert_eq!(cart.reset_vector(), 0xC000);
    // Below the program window the cartridge answers zero.
    assert_eq!(cart.read_mapped(0x5000), 0);
}

#[test]
fn cart_honours_the_trainer_offset() {
    let mut raw = vec![0x4E, 0x45, 0x53, 0x1A, 1, 0, 0x04, 0, 0, 0, 0, 0, 0, 0, 0, 0];
    for _ in 0..512 {
        raw.push(0xEE);
    }
    for i in 0..0x4000 {
        raw.push((i % 7) as u8);
    }
    let cart = Cart::new(&raw).unwrap();
    assert_eq!(cart.prg_rom[0], 0);
    assert_eq!(cart.prg_rom[1], 1);
}

#[test]
fn header_reads_its_fields() {
    let raw = vec![0x4E, 0x45, 0x53, 0x1A, 2, 1, 0x13, 0x20, 1, 0, 0, 0, 0, 0, 0, 0];
    let header = Header::new(&raw);
    assert!(header.is_valid_tag());
    assert_eq!(header.num_prg_banks, 2);
    assert_eq!(header.num_chr_banks, 1);
    assert_eq!(header.num_ram_banks, 1);
    assert_eq!(header.control.control_one.bits, 0x13);
    assert_eq!(header.control.control_two.bits, 0x20);
    // Mapper: high nibble from control two, low nibble from control one.
    assert_eq!(header.control.get_mapper(), 0x21);
    let bad = Header::new(&vec![0, 0, 0, 0, 0, 0, 0, 0, 0, 0, 0, 0, 0, 0, 0, 0]);
    assert!(!bad.is_valid_tag());
}

#[test]
fn ram_mirrors_onto_two_kib() {
    assert_eq!(Ram::map_address(0x0000), 0x0000);
    assert_eq!(Ram::map_address(0x0801), 0x0001);
    assert_eq!(Ram::map_address(0x1FFF), 0x07FF);
    let mut ram = Ram::new();
    ram.write(0x1800, 0x42);
    assert_eq!(ram.read(0x0000), 0x42);
}

#[test]
fn address_register_builds_big_endian() {
    let mut reg = AddressRegister::default();
    reg.write(0x21);
    reg.write(0x08);
    assert_eq!(reg.read(), 0x2108);
    reg.increment(0x20);
    assert_eq!(reg.read(), 0x2128);
    reg.write(0x10);
    assert_eq!(reg.read(), 0x1028);
    reg.reset_latch();
    reg.write(0x3F);
    assert_eq!(reg.read(), 0x3F28);
}

#[test]
fn control_register_selectors() {
    let ctrl = PpuControl::from_bits(0x07);
    assert_eq!(ctrl.get_nametable_base(), 0x2C00);
    assert_eq!(ctrl.get_increment(), 32);
    let ctrl = PpuControl::from_bits(0x18);
    assert_eq!(ctrl.get_increment(), 1);
    assert_eq!(ctrl.get_sprite_pattern_address(), 0x1000);
    assert_eq!(ctrl.get_background_pattern_address(), 0x1000);
    assert_eq!(PpuControl::from_bits(0).get_nametable_base(), 0x2000);
}

#[test]
fn vram_mirroring_rules() {
    let mut v = VRam::default();
    assert!(matches!(v.mirror, VramMirror::Horizontal));
    // Horizontal: tables zero and one share memory.
    v.write(0x2000, 0x11);
    assert_eq!(v.read(0x2400), 0x11);
    v.write(0x2800, 0x22);
    assert_eq!(v.read(0x2C00), 0x22);
    // The 0x3000 mirror folds down.
    assert_eq!(v.read(0x3000), 0x11);

    let mut v = VRam { memory: vec![0; 0x800], mirror: VramMirror::Vertical };
    v.write(0x2000, 0x33);
    assert_eq!(v.read(0x2800), 0x33);
    v.write(0x2400, 0x44);
    assert_eq!(v.read(0x2C00), 0x44);
}

#[test]
fn ppu_data_reads_are_buffered() {
    let raw = ines_image(1, 1);
    let cart = Cart::new(&raw).unwrap();
    let mut nes = Nes::new(cart);
    // Point the VRAM address at a nametable byte and store 0x66 there.
    nes.write(0x2006, 0x20);
    nes.write(0x2006, 0x05);
    nes.write(0x2007, 0x66);
    // Read it back: the first read returns the stale buffer.
    nes.write(0x2006, 0x20);
    nes.write(0x2006, 0x05);
    let first = nes.read(0x2007);
    let second = nes.read(0x2007);
    assert_eq!(first, 0x00);
    assert_ne!(second, first);
    assert_eq!(second, 0x66);
}

#[test]
fn ppu_oam_cursor() {
    let raw = ines_image(1, 0);
    let mut nes = Nes::new(Cart::new(&raw).unwrap());
    nes.write(0x2003, 0x10);
    nes.write(0x2004, 0xAA);
    nes.write(0x2004, 0xBB);
    nes.write(0x2003, 0x10);
    assert_eq!(nes.read(0x2004), 0xAA);
    // A read does not move the cursor.
    assert_eq!(nes.read(0x2004), 0xAA);
    nes.write(0x2003, 0x11);
    assert_eq!(nes.read(0x2004), 0xBB);
}

#[test]
fn chr_tiles_decode_their_pixels() {
    let mut chr = vec![0u8; 0x1000];
    // One tile: plane bytes chosen so pixel (0,0) reads 0b01 and (1,0) 0b10.
    chr[0] = 0x80;
    chr[8 + 1] = 0x80;
    let tile = ChrTile::from_chr(&chr, 0);
    assert_eq!(tile.read(0, 0), 2);
    assert_eq!(tile.read(1, 0), 1);
    assert_eq!(tile.read(0, 1), 0);

    let rom = ChrRom::from_chr(&chr);
    assert_eq!(rom.banks.len(), 1);
    assert_eq!(rom.read(0, 0).read(0, 0), 2);
}

#[test]
fn frame_writes_pixels() {
    let mut frame = Frame::new();
    assert_eq!(frame.data.len(), 256 * 240 * 3);
    frame.write(2, 1, (9, 8, 7));
    let base = (2 + 256) * 3;
    assert_eq!(frame.data[base], 9);
    assert_eq!(frame.data[base + 1], 8);
    assert_eq!(frame.data[base + 2], 7);
}

#[test]
fn tile_bank_renders() {
    let chr = vec![0xFFu8; 0x2000];
    let frame = show_tile_bank(&chr, 1);
    assert_eq!(frame.data.len(), 256 * 240 * 3);
    // The first pixel of the first tile is colour 3 of the viewer palette.
    assert_eq!(frame.data[0], 0xFF);
}

#[test]
fn nes_runs_a_program() {
    let mut raw = ines_image(1, 0);
    // Program at the reset vector: LDA #0x42 ; TAX ; NOP.
    raw[16] = 0xA9;
    raw[17] = 0x42;
    raw[18] = 0xAA;
    raw[19] = 0xEA;
    raw[16 + 0x3FFC] = 0x00;
    raw[16 + 0x3FFD] = 0x80;
    let mut nes = Nes::new(Cart::new(&raw).unwrap());
    assert_eq!(nes.bus.cpu.program_counter, 0x8000);
    let d1 = nes.tick().unwrap();
    assert_eq!(nes.bus.cpu.accumulator, 0x42);
    assert_eq!(d1, 2);
    let d2 = nes.tick().unwrap();
    assert_eq!(nes.bus.cpu.index_x, 0x42);
    assert_eq!(d2, 2);
    let _ = nes.tick().unwrap();
    assert_eq!(nes.bus.cpu.program_counter, 0x8004);
}

#[test]
fn nes_halts_after_kil() {
    let mut raw = ines_image(1, 0);
    raw[16] = 0x02;
    raw[16 + 0x3FFC] = 0x00;
    raw[16 + 0x3FFD] = 0x80;
    let mut nes = Nes::new(Cart::new(&raw).unwrap());
    let _ = nes.tick().unwrap();
    assert!(nes.bus.cpu.halted);
    let pc = nes.bus.cpu.program_counter;
    let d = nes.tick().unwrap();
    assert_eq!(d, 0);
    assert_eq!(nes.bus.cpu.program_counter, pc);
}
