//! The PPU front-end: the eight memory-mapped registers in the mirrored
//! window 0x2000-0x3FFF, the OAM DMA port at 0x4014, and the scanline clock
//! that raises an NMI once per frame at the start of vertical blanking.

pub mod address;
pub mod chr;
pub mod control;
pub mod frame;
pub mod mask;
pub mod status;
pub mod vram;

use vstd::prelude::*;

use crate::cart::Cart;
use crate::cpu::{hi_byte, lo_byte, wrap_add16, wrap_inc8};
use crate::ram::zero_filled;
use crate::status::{bit_set, with_flag};
use address::{address_value, AddressRegister};
use frame::Frame;
use control::{vram_step, Control, NMI_ENABLE};
use mask::Mask;
use status::{Status, SPRITE_ZERO_HIT, VBLANK};
use vram::{vram_physical, VRam, VramMirror};

verus! {

/// The PPU runs three cycles for every CPU cycle.
pub const CPU_TO_PPU_CYCLE_SCALE: i64 = 3;
/// A frame has 262 scanlines.
pub const NUM_SCANLINES: usize = 262;
/// A scanline lasts 341 PPU cycles.
pub const CYCLES_PER_SCANLINE: i64 = 341;
/// Vertical blanking, and the NMI, start at scanline 241.
pub const SCANLINE_NMI_TRIGGER: usize = 241;

/// First CPU address of the PPU register window.
pub const PPU_BEGIN: usize = 0x2000;
/// Last CPU address of the PPU register window.
pub const PPU_END: usize = 0x3FFF;
/// The OAM DMA port.
pub const PPU_DMA: usize = 0x4014;

/// The PPU front-end state.
pub struct Ppu {
    pub control: Control,
    pub mask: Mask,
    pub status: Status,
    pub oam_address: u8,
    pub scroll: u8,
    pub oam_dma: u8,
    pub oam_data: Vec<u8>,
    pub address: AddressRegister,
    pub vram: VRam,
    pub buffer: u8,
    pub chr_rom: Vec<u8>,
    pub palette: Vec<u8>,
    pub clock: i64,
    pub curr_scanline: usize,
    pub is_nmi_interrupt: bool,
}

/// The register a CPU address in the window names: the window mirrors every
/// eight bytes down onto 0x2000-0x2007.
pub open spec fn register_of(address: int) -> int {
    0x2000 + (address - 0x2000) % 8
}

/// Maps a CPU address in the mirrored window onto its register.
pub fn mirror_register(address: usize) -> (r: usize)
    requires
        0x2000 <= address <= 0x3FFF,
    ensures
        r == register_of(address as int),
        0x2000 <= r <= 0x2007,
{
    0x2000 + (address - 0x2000) % 8
}

/// Law: the register window mirrors every eight bytes, so 0x3FF8 names the
/// CTRL register at 0x2000, and in general two addresses whose distance from
/// 0x2000 agrees modulo eight name the same register.
pub proof fn lemma_register_mirroring(a: int, b: int)
    requires
        0x2000 <= a <= 0x3FFF,
        0x2000 <= b <= 0x3FFF,
        (a - 0x2000) % 8 == (b - 0x2000) % 8,
    ensures
        register_of(a) == register_of(b),
        register_of(0x3FF8) == 0x2000,
{
}

/// The internal VRAM address the DATA register currently points at, folded
/// onto the PPU address space.
pub open spec fn vram_addr(p: Ppu) -> int {
    address_value(p.address) as int % 0x4000
}

/// The pattern byte at CHR address `a`; absent character ROM reads as zero.
pub open spec fn chr_byte(p: Ppu, a: int) -> u8 {
    if 0 <= a < p.chr_rom@.len() {
        p.chr_rom@[a]
    } else {
        0
    }
}

/// What a DATA read returns: the buffered byte, except that the palette
/// range answers immediately.
pub open spec fn data_read_result(p: Ppu) -> u8 {
    let a = vram_addr(p);
    if a < 0x3F00 {
        p.buffer
    } else {
        p.palette@[(a - 0x3F00) % 0x20]
    }
}

/// What the read buffer holds after a DATA read: the byte at the current
/// VRAM address, except that a palette read leaves it alone.
pub open spec fn data_buffer_after(p: Ppu) -> u8 {
    let a = vram_addr(p);
    if a < 0x2000 {
        chr_byte(p, a)
    } else if a < 0x3F00 {
        p.vram.memory@[vram_physical(p.vram.mirror, a)]
    } else {
        p.buffer
    }
}

/// The address register after the post-access increment selected by CTRL.
pub open spec fn addr_after_inc(r: AddressRegister, step: u16) -> AddressRegister {
    AddressRegister {
        high: hi_byte(wrap_add16(address_value(r), step)),
        low: lo_byte(wrap_add16(address_value(r), step)),
        latch_high: r.latch_high,
    }
}

impl Ppu {
    /// The shape every operation relies on: 256 bytes of OAM, well-formed
    /// nametable memory, a 32-byte palette, a cycle counter inside one
    /// scanline and a scanline counter inside one frame.
    pub open spec fn wf(&self) -> bool {
        &&& self.oam_data@.len() == 256
        &&& self.vram.wf()
        &&& self.palette@.len() == 32
        &&& 0 <= self.clock < 341
        &&& self.curr_scanline < 262
    }
}

/// The PPU state left untouched by a register read: everything except the
/// STATUS bits, the address latch and the read buffer.
pub open spec fn ppu_read_frame(pre: Ppu, post: Ppu) -> bool {
    &&& post.control == pre.control
    &&& post.mask == pre.mask
    &&& post.oam_address == pre.oam_address
    &&& post.scroll == pre.scroll
    &&& post.oam_dma == pre.oam_dma
    &&& post.oam_data@ == pre.oam_data@
    &&& post.vram.mirror == pre.vram.mirror
    &&& post.vram.memory@ == pre.vram.memory@
    &&& post.chr_rom@ == pre.chr_rom@
    &&& post.palette@ == pre.palette@
    &&& post.clock == pre.clock
    &&& post.curr_scanline == pre.curr_scanline
    &&& post.is_nmi_interrupt == pre.is_nmi_interrupt
}

/// How a CPU read of the register window changes the PPU and what it
/// returns. Reading STATUS clears VBlank and the shared write latch; reading
/// OAMDATA has no side effect; reading DATA returns the buffered byte and
/// advances the VRAM address; the write-only registers read as zero.
pub open spec fn ppu_read_rel(pre: Ppu, post: Ppu, address: int, result: u8) -> bool {
    let reg = register_of(address);
    &&& ppu_read_frame(pre, post)
    &&& if reg == 0x2002 {
        &&& result == pre.status.bits
        &&& post.status.bits == with_flag(pre.status.bits, VBLANK, false)
        &&& post.address == (AddressRegister { latch_high: true, ..pre.address })
        &&& post.buffer == pre.buffer
    } else if reg == 0x2004 {
        &&& result == pre.oam_data@[pre.oam_address as int]
        &&& post.status == pre.status
        &&& post.address == pre.address
        &&& post.buffer == pre.buffer
    } else if reg == 0x2007 {
        &&& result == data_read_result(pre)
        &&& post.buffer == data_buffer_after(pre)
        &&& post.address == addr_after_inc(pre.address, vram_step(pre.control.bits))
        &&& post.status == pre.status
    } else {
        &&& result == 0
        &&& post.status == pre.status
        &&& post.address == pre.address
        &&& post.buffer == pre.buffer
    }
}

/// The PPU state a register write never touches.
pub open spec fn ppu_write_frame(pre: Ppu, post: Ppu) -> bool {
    &&& post.buffer == pre.buffer
    &&& post.clock == pre.clock
    &&& post.curr_scanline == pre.curr_scanline
}

/// Whether a CTRL write raises an immediate pending NMI: the previous CTRL
/// had NMI disabled, the new one enables it, and VBlank is currently set.
pub open spec fn ctrl_write_raises_nmi(pre: Ppu, value: u8) -> bool {
    &&& !bit_set(pre.control.bits, NMI_ENABLE)
    &&& bit_set(value, NMI_ENABLE)
    &&& bit_set(pre.status.bits, VBLANK)
}

/// How a CPU write to the register window, or to the DMA port, changes the
/// PPU.
pub open spec fn ppu_write_rel(pre: Ppu, post: Ppu, address: int, value: u8) -> bool {
    &&& ppu_write_frame(pre, post)
    &&& if address == 0x4014 {
        post == (Ppu { oam_dma: value, ..pre })
    } else {
        let reg = register_of(address);
        if reg == 0x2000 {
            post == (Ppu {
                control: Control { bits: value },
                is_nmi_interrupt: pre.is_nmi_interrupt || ctrl_write_raises_nmi(pre, value),
                ..pre
            })
        } else if reg == 0x2001 {
            post == (Ppu { mask: Mask { bits: value }, ..pre })
        } else if reg == 0x2003 {
            post == (Ppu { oam_address: value, ..pre })
        } else if reg == 0x2004 {
            &&& post.oam_data@ == pre.oam_data@.update(pre.oam_address as int, value)
            &&& post.oam_address == wrap_inc8(pre.oam_address)
            &&& post.control == pre.control
            &&& post.mask == pre.mask
            &&& post.status == pre.status
            &&& post.scroll == pre.scroll
            &&& post.oam_dma == pre.oam_dma
            &&& post.address == pre.address
            &&& post.vram.mirror == pre.vram.mirror
            &&& post.vram.memory@ == pre.vram.memory@
            &&& post.chr_rom@ == pre.chr_rom@
            &&& post.palette@ == pre.palette@
            &&& post.is_nmi_interrupt == pre.is_nmi_interrupt
        } else if reg == 0x2005 {
            post == (Ppu {
                scroll: value,
                address: AddressRegister { latch_high: !pre.address.latch_high, ..pre.address },
                ..pre
            })
        } else if reg == 0x2006 {
            post == (Ppu {
                address: if pre.address.latch_high {
                    AddressRegister { high: value, latch_high: false, ..pre.address }
                } else {
                    AddressRegister { low: value, latch_high: true, ..pre.address }
                },
                ..pre
            })
        } else if reg == 0x2007 {
            let a = vram_addr(pre);
            &&& post.address == addr_after_inc(pre.address, vram_step(pre.control.bits))
            &&& post.control == pre.control
            &&& post.mask == pre.mask
            &&& post.status == pre.status
            &&& post.oam_address == pre.oam_address
            &&& post.scroll == pre.scroll
            &&& post.oam_dma == pre.oam_dma
            &&& post.oam_data@ == pre.oam_data@
            &&& post.vram.mirror == pre.vram.mirror
            &&& post.is_nmi_interrupt == pre.is_nmi_interrupt
            &&& if a < 0x2000 {
                &&& post.chr_rom@ == (if a < pre.chr_rom@.len() {
                    pre.chr_rom@.update(a, value)
                } else {
                    pre.chr_rom@
                })
                &&& post.vram.memory@ == pre.vram.memory@
                &&& post.palette@ == pre.palette@
            } else if a < 0x3F00 {
                &&& post.vram.memory@ == pre.vram.memory@.update(
                    vram_physical(pre.vram.mirror, a),
                    value,
                )
                &&& post.chr_rom@ == pre.chr_rom@
                &&& post.palette@ == pre.palette@
            } else {
                &&& post.palette@ == pre.palette@.update((a - 0x3F00) % 0x20, value)
                &&& post.chr_rom@ == pre.chr_rom@
                &&& post.vram.memory@ == pre.vram.memory@
            }
        } else {
            // 0x2002 is read-only: the write is dropped.
            post == pre
        }
    }
}

/// How `tick` moves the scanline clock. The added cycle count stays within
/// one scanline, so at most one scanline boundary is crossed: reaching
/// scanline 241 with NMI enabled raises the pending NMI and sets VBlank;
/// wrapping past the last scanline clears VBlank, the sprite-zero hit and
/// the pending NMI.
pub open spec fn ppu_tick_rel(pre: Ppu, post: Ppu, n: int) -> bool {
    &&& post.control == pre.control
    &&& post.mask == pre.mask
    &&& post.oam_address == pre.oam_address
    &&& post.scroll == pre.scroll
    &&& post.oam_dma == pre.oam_dma
    &&& post.oam_data@ == pre.oam_data@
    &&& post.address == pre.address
    &&& post.vram.mirror == pre.vram.mirror
    &&& post.vram.memory@ == pre.vram.memory@
    &&& post.buffer == pre.buffer
    &&& post.chr_rom@ == pre.chr_rom@
    &&& post.palette@ == pre.palette@
    &&& if pre.clock + n < 341 {
        &&& post.clock == pre.clock + n
        &&& post.curr_scanline == pre.curr_scanline
        &&& post.status == pre.status
        &&& post.is_nmi_interrupt == pre.is_nmi_interrupt
    } else {
        let s = pre.curr_scanline + 1;
        &&& post.clock == pre.clock + n - 341
        &&& if s >= 262 {
            &&& post.curr_scanline == 0
            &&& post.is_nmi_interrupt == false
            &&& post.status.bits == with_flag(
                with_flag(pre.status.bits, VBLANK, false),
                SPRITE_ZERO_HIT,
                false,
            )
        } else if s == 241 && bit_set(pre.control.bits, NMI_ENABLE) {
            &&& post.curr_scanline == s
            &&& post.is_nmi_interrupt == true
            &&& post.status.bits == with_flag(pre.status.bits, VBLANK, true)
        } else {
            &&& post.curr_scanline == s
            &&& post.is_nmi_interrupt == pre.is_nmi_interrupt
            &&& post.status == pre.status
        }
    }
}

impl Ppu {
    /// A fresh PPU holding the cartridge's character ROM.
    pub fn new(cart: &Cart) -> (p: Ppu)
        ensures
            p.wf(),
            p.control.bits == 0,
            p.status.bits == 0,
            p.clock == 0,
            p.curr_scanline == 0,
            !p.is_nmi_interrupt,
            p.chr_rom@ == cart.chr_rom@,
            p.address.latch_high,
    {
        Ppu {
            control: Control::default(),
            mask: Mask::default(),
            status: Status::default(),
            oam_address: 0,
            scroll: 0,
            oam_dma: 0,
            oam_data: zero_filled(256),
            address: AddressRegister::default(),
            vram: VRam::default(),
            buffer: 0,
            chr_rom: crate::cart::copy_range(&cart.chr_rom, 0, cart.chr_rom.len()),
            palette: zero_filled(32),
            clock: 0,
            curr_scanline: 0,
            is_nmi_interrupt: false,
        }
    }

    /// A fresh PPU with no character ROM at all.
    pub fn empty() -> (p: Ppu)
        ensures
            p.wf(),
            p.control.bits == 0,
            p.status.bits == 0,
            p.clock == 0,
            p.curr_scanline == 0,
            !p.is_nmi_interrupt,
            p.chr_rom@.len() == 0,
            p.address.latch_high,
    {
        Ppu {
            control: Control::default(),
            mask: Mask::default(),
            status: Status::default(),
            oam_address: 0,
            scroll: 0,
            oam_dma: 0,
            oam_data: zero_filled(256),
            address: AddressRegister::default(),
            vram: VRam::default(),
            buffer: 0,
            chr_rom: Vec::new(),
            palette: zero_filled(32),
            clock: 0,
            curr_scanline: 0,
            is_nmi_interrupt: false,
        }
    }

    /// Puts every register, counter and memory except the character ROM back
    /// into its power-on state, matching a freshly built PPU.
    pub fn reset(&mut self)
        ensures
            final(self).wf(),
            final(self).control.bits == 0,
            final(self).mask.bits == 0,
            final(self).status.bits == 0,
            final(self).oam_address == 0,
            final(self).scroll == 0,
            final(self).buffer == 0,
            final(self).clock == 0,
            final(self).curr_scanline == 0,
            !final(self).is_nmi_interrupt,
            final(self).address.latch_high,
            final(self).chr_rom@ == old(self).chr_rom@,
    {
        self.control = Control::default();
        self.mask = Mask::default();
        self.status = Status::default();
        self.oam_address = 0;
        self.scroll = 0;
        self.oam_dma = 0;
        self.oam_data = zero_filled(256);
        self.address = AddressRegister::default();
        self.vram = VRam::default();
        self.buffer = 0;
        self.palette = zero_filled(32);
        self.clock = 0;
        self.curr_scanline = 0;
        self.is_nmi_interrupt = false;
    }

    /// Reads the OAM byte under the cursor; the cursor does not move.
    pub fn oam_read(&mut self) -> (v: u8)
        requires
            old(self).wf(),
        ensures
            *final(self) == *old(self),
            v == old(self).oam_data@[old(self).oam_address as int],
    {
        let address = self.oam_address as usize;
        self.oam_data[address]
    }

    /// Stores a byte under the OAM cursor and advances the cursor.
    pub fn oam_write(&mut self, value: u8)
        requires
            old(self).wf(),
        ensures
            final(self).wf(),
            *final(self) == (Ppu {
                oam_data: final(self).oam_data,
                oam_address: wrap_inc8(old(self).oam_address),
                ..*old(self)
            }),
            final(self).oam_data@ == old(self).oam_data@.update(
                old(self).oam_address as int,
                value,
            ),
    {
        let address = self.oam_address as usize;
        self.oam_data[address] = value;
        if self.oam_address == 0xFF {
            self.oam_address = 0;
        } else {
            self.oam_address = self.oam_address + 1;
        }
    }

    /// Moves the OAM cursor.
    pub fn set_oam_address(&mut self, value: u8)
        ensures
            *final(self) == (Ppu { oam_address: value, ..*old(self) }),
    {
        self.oam_address = value;
    }

    /// One write to the SCROLL register: stores the byte and toggles the
    /// shared write latch.
    pub fn scroll_write(&mut self, value: u8)
        ensures
            *final(self) == (Ppu {
                scroll: value,
                address: (AddressRegister {
                    latch_high: !old(self).address.latch_high,
                    ..old(self).address
                }),
                ..*old(self)
            }),
    {
        self.scroll = value;
        self.address.latch_high = !self.address.latch_high;
    }

    /// One write to the CTRL register. Enabling NMI while VBlank is set
    /// raises an immediate pending NMI.
    pub fn control_write(&mut self, value: u8)
        ensures
            *final(self) == (Ppu {
                control: (Control { bits: value }),
                is_nmi_interrupt: old(self).is_nmi_interrupt || ctrl_write_raises_nmi(
                    *old(self),
                    value,
                ),
                ..*old(self)
            }),
    {
        let was_enabled = self.control.contains(NMI_ENABLE);
        let now_enabled = value & NMI_ENABLE != 0;
        let in_vblank = self.status.contains(VBLANK);
        if !was_enabled && now_enabled && in_vblank {
            self.is_nmi_interrupt = true;
        }
        self.control = Control::from_bits(value);
    }

    /// Moves the VRAM address by the step CTRL selects.
    pub fn increment_address(&mut self)
        ensures
            *final(self) == (Ppu {
                address: addr_after_inc(old(self).address, vram_step(old(self).control.bits)),
                ..*old(self)
            }),
    {
        let step = self.control.get_increment();
        self.address.increment(step);
    }

    /// A buffered read of character ROM: returns the previous buffer and
    /// refills it from CHR. Absent character ROM reads as zero.
    pub fn chr_read(&mut self, address: usize) -> (v: u8)
        ensures
            v == old(self).buffer,
            *final(self) == (Ppu { buffer: chr_byte(*old(self), address as int), ..*old(self) }),
    {
        let result = self.buffer;
        self.buffer = if address < self.chr_rom.len() {
            self.chr_rom[address]
        } else {
            0
        };
        result
    }

    /// Writes into character memory; out-of-range writes are dropped.
    pub fn chr_write(&mut self, address: usize, value: u8)
        ensures
            final(self).chr_rom@ == (if address < old(self).chr_rom@.len() {
                old(self).chr_rom@.update(address as int, value)
            } else {
                old(self).chr_rom@
            }),
            *final(self) == (Ppu { chr_rom: final(self).chr_rom, ..*old(self) }),
    {
        if address < self.chr_rom.len() {
            self.chr_rom[address] = value;
        }
    }

    /// A buffered read of nametable memory.
    pub fn ram_read(&mut self, address: usize) -> (v: u8)
        requires
            old(self).wf(),
            0x2000 <= address < 0x3F00,
        ensures
            v == old(self).buffer,
            *final(self) == (Ppu {
                buffer: old(self).vram.memory@[vram_physical(
                    old(self).vram.mirror,
                    address as int,
                )],
                ..*old(self)
            }),
    {
        let result = self.buffer;
        self.buffer = self.vram.read(address);
        result
    }

    /// Writes a byte of nametable memory.
    pub fn ram_write(&mut self, address: usize, value: u8)
        requires
            old(self).wf(),
            0x2000 <= address < 0x3F00,
        ensures
            final(self).wf(),
            final(self).vram.memory@ == old(self).vram.memory@.update(
                vram_physical(old(self).vram.mirror, address as int),
                value,
            ),
            final(self).vram.mirror == old(self).vram.mirror,
            *final(self) == (Ppu { vram: final(self).vram, ..*old(self) }),
    {
        self.vram.write(address, value);
    }

    /// A CPU read of one of the eight registers, or of the DMA port.
    pub fn read(&mut self, address: usize) -> (v: u8)
        requires
            old(self).wf(),
            0x2000 <= address <= 0x3FFF,
        ensures
            final(self).wf(),
            ppu_read_rel(*old(self), *final(self), address as int, v),
    {
        let reg = mirror_register(address);
        if reg == 0x2002 {
            let result = self.status.bits;
            self.status.set_flags(VBLANK, false);
            self.address.reset_latch();
            result
        } else if reg == 0x2004 {
            self.oam_read()
        } else if reg == 0x2007 {
            self.internal_read()
        } else {
            0
        }
    }

    /// A CPU write to one of the eight registers, or to the DMA port.
    pub fn write(&mut self, address: usize, value: u8)
        requires
            old(self).wf(),
            0x2000 <= address <= 0x3FFF || address == 0x4014,
        ensures
            final(self).wf(),
            ppu_write_rel(*old(self), *final(self), address as int, value),
    {
        if address == 0x4014 {
            self.oam_dma = value;
            return ;
        }
        let reg = mirror_register(address);
        if reg == 0x2000 {
            self.control_write(value);
        } else if reg == 0x2001 {
            self.mask = Mask::from_bits(value);
        } else if reg == 0x2003 {
            self.set_oam_address(value);
        } else if reg == 0x2004 {
            self.oam_write(value);
        } else if reg == 0x2005 {
            self.scroll_write(value);
        } else if reg == 0x2006 {
            self.address.write(value);
        } else if reg == 0x2007 {
            self.internal_write(value);
        }
    }

    /// A read through the DATA register: hand out the buffered byte (the
    /// palette answers immediately instead), refill the buffer, and advance
    /// the VRAM address.
    pub fn internal_read(&mut self) -> (v: u8)
        requires
            old(self).wf(),
        ensures
            final(self).wf(),
            v == data_read_result(*old(self)),
            *final(self) == (Ppu {
                buffer: data_buffer_after(*old(self)),
                address: addr_after_inc(old(self).address, vram_step(old(self).control.bits)),
                ..*old(self)
            }),
    {
        let a = (self.address.read() % 0x4000) as usize;
        let result: u8;
        if a < 0x2000 {
            result = self.buffer;
            self.buffer = if a < self.chr_rom.len() {
                self.chr_rom[a]
            } else {
                0
            };
        } else if a < 0x3F00 {
            result = self.buffer;
            self.buffer = self.vram.read(a);
        } else {
            result = self.palette[(a - 0x3F00) % 0x20];
        }
        self.increment_address();
        result
    }

    /// A write through the DATA register, then the same address increment.
    pub fn internal_write(&mut self, value: u8)
        requires
            old(self).wf(),
        ensures
            final(self).wf(),
            ppu_write_rel(*old(self), *final(self), 0x2007, value),
    {
        let a = (self.address.read() % 0x4000) as usize;
        if a < 0x2000 {
            self.chr_write(a, value);
        } else if a < 0x3F00 {
            self.vram.write(a, value);
        } else {
            let index = (a - 0x3F00) % 0x20;
            self.palette[index] = value;
        }
        self.increment_address();
    }

    /// Advances the scanline clock by `n_cycles` PPU cycles. The bus hands
    /// the PPU one instruction's worth of cycles at a time, always below the
    /// 341 cycles of one scanline, so at most one boundary is crossed per
    /// call.
    pub fn tick(&mut self, n_cycles: i64)
        requires
            old(self).wf(),
            0 <= n_cycles < CYCLES_PER_SCANLINE,
        ensures
            final(self).wf(),
            ppu_tick_rel(*old(self), *final(self), n_cycles as int),
    {
        self.clock = self.clock + n_cycles;
        if self.clock >= CYCLES_PER_SCANLINE {
            self.clock = self.clock - CYCLES_PER_SCANLINE;
            let next = self.curr_scanline + 1;
            if next >= NUM_SCANLINES {
                self.curr_scanline = 0;
                self.is_nmi_interrupt = false;
                self.status.set_flags(VBLANK, false);
                self.status.set_flags(SPRITE_ZERO_HIT, false);
            } else {
                self.curr_scanline = next;
                if next == SCANLINE_NMI_TRIGGER && self.control.contains(NMI_ENABLE) {
                    self.is_nmi_interrupt = true;
                    self.status.set_flags(VBLANK, true);
                }
            }
        }
    }
}

impl Default for Ppu {
    /// A fresh PPU with no character ROM, as `empty` builds it.
    fn default() -> (p: Ppu)
        ensures
            p.wf(),
            p.control.bits == 0,
            p.status.bits == 0,
            p.clock == 0,
            p.curr_scanline == 0,
            !p.is_nmi_interrupt,
            p.chr_rom@.len() == 0,
            p.address.latch_high,
    {
        Ppu::empty()
    }
}

impl Ppu {
    /// Renders one tile of this PPU's character ROM for inspection.
    pub fn render_chr_tile(&self, bank: usize, tile_n: usize) -> (f: Frame)
        requires
            bank <= 1,
            tile_n < 256,
            self.chr_rom@.len() >= bank * 0x1000 + tile_n * 16 + 16,
        ensures
            f.wf(),
    {
        let mut result = Frame::new();
        let base = bank * 0x1000 + tile_n * 16;
        let total = self.chr_rom.len();
        let mut y: usize = 0;
        while y < 8
            invariant
                y <= 8,
                total == self.chr_rom@.len(),
                base + 16 <= total,
                result.wf(),
            decreases 8 - y,
        {
            let upper = self.chr_rom[base + y];
            let lower = self.chr_rom[base + y + 8];
            let mut x: usize = 0;
            while x < 8
                invariant
                    x <= 8,
                    y < 8,
                    result.wf(),
                decreases 8 - x,
            {
                let shift = (7 - x) as u8;
                proof {
                    assert(((upper >> shift) & 1) < 2 && ((lower >> shift) & 1)
                        < 2) by (bit_vector);
                }
                let value = (((upper >> shift) & 1) * 2) + ((lower >> shift) & 1);
                result.write(x, y, frame::tile_color(value));
                x = x + 1;
            }
            y = y + 1;
        }
        result
    }

    /// Renders a whole bank of character data as a tile grid.
    pub fn render_chr_tile_bank(chr_rom: &Vec<u8>, bank: usize) -> (f: Frame)
        requires
            bank <= 1,
            chr_rom@.len() >= (bank + 1) * 0x1000,
        ensures
            f.wf(),
    {
        frame::show_tile_bank(chr_rom, bank)
    }
}

} // verus!
