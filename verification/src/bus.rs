//! The memory bus: routes CPU addresses to RAM, PPU or cartridge, owns the
//! free-running cycle clock, and carries the stack discipline.

use vstd::prelude::*;

use crate::cartridge::Cartridge;
use crate::cpu::{hi_byte, lo_byte, wrap_add16, wrap_dec8, wrap_inc8, word, Cpu};
use crate::memory::Memory;
use crate::ppu::{ppu_read_rel, ppu_tick_rel, ppu_write_rel, Ppu, CYCLES_PER_SCANLINE};
use crate::ram::{ram_index, Ram};

verus! {

/// Everything the processor can reach, in one aggregate: registers, RAM,
/// PPU, cartridge and the cycle clock.
pub struct Bus<C: Cartridge + Memory> {
    pub cart: C,
    pub cpu: Cpu,
    pub ppu: Ppu,
    pub ram: Ram,
    pub clock: i64,
}

impl<C: Cartridge + Memory> Bus<C> {
    /// The shape every bus operation relies on.
    pub open spec fn wf(&self) -> bool {
        &&& self.ram.wf()
        &&& self.ppu.wf()
    }

    /// A bus around the given cartridge, with RESET already performed.
    pub fn new(cart: C) -> (b: Bus<C>)
        ensures
            b.wf(),
            b.cart == cart,
            b.cpu.accumulator == 0,
            b.cpu.index_x == 0,
            b.cpu.index_y == 0,
            b.cpu.stack_ptr == crate::cpu::STACK_PTR_INIT,
            b.cpu.status.bits == 0x24,
            !b.cpu.halted,
            b.clock == 7,
            forall|i: int| 0 <= i < 0x800 ==> b.ram.memory@[i] == 0,
            !b.ppu.is_nmi_interrupt,
    {
        let mut result = Bus {
            cart,
            cpu: Cpu::default(),
            ppu: Ppu::empty(),
            ram: Ram::new(),
            clock: 7,
        };
        result.reset();
        result
    }

    /// RESET: registers to their power-on values, the program counter from
    /// the cartridge's reset vector, RAM and the PPU registers cleared, and
    /// the clock at 7 for the latency of the reset sequence itself. The PPU
    /// is advanced to match the clock.
    pub fn reset(&mut self)
        ensures
            final(self).wf(),
            final(self).cart == old(self).cart,
            final(self).cpu.accumulator == 0,
            final(self).cpu.index_x == 0,
            final(self).cpu.index_y == 0,
            final(self).cpu.stack_ptr == crate::cpu::STACK_PTR_INIT,
            final(self).cpu.status.bits == 0x24,
            !final(self).cpu.halted,
            final(self).clock == 7,
            forall|i: int| 0 <= i < 0x800 ==> final(self).ram.memory@[i] == 0,
            final(self).ppu.chr_rom@ == old(self).ppu.chr_rom@,
            final(self).ppu.clock == 21,
            final(self).ppu.curr_scanline == 0,
            !final(self).ppu.is_nmi_interrupt,
            final(self).ppu.control.bits == 0,
            final(self).ppu.status.bits == 0,
    {
        let reset_vector = self.cart.get_reset_vector();
        self.cpu = Cpu::default();
        self.cpu.program_counter = reset_vector;
        self.ram = Ram::new();
        self.ppu.reset();
        self.clock = 7;
        self.ppu.tick(21);
    }

    /// Reads one byte at a CPU address. The regions the bus owns answer
    /// exactly: RAM through its mirror, the PPU through its register rules,
    /// and the unimplemented region 0x4000-0x401F as zero. The cartridge
    /// window answers whatever the cartridge decides.
    pub fn read(&mut self, address: usize) -> (v: u8)
        requires
            old(self).wf(),
            address <= 0xFFFF,
        ensures
            final(self).wf(),
            final(self).cpu == old(self).cpu,
            final(self).ram.memory@ == old(self).ram.memory@,
            final(self).clock == old(self).clock,
            address < 0x2000 ==> v == old(self).ram.memory@[ram_index(address as int)]
                && final(self).ppu == old(self).ppu && final(self).cart == old(self).cart,
            0x2000 <= address <= 0x3FFF ==> ppu_read_rel(
                old(self).ppu,
                final(self).ppu,
                address as int,
                v,
            ) && final(self).cart == old(self).cart,
            0x4000 <= address < 0x4020 ==> v == 0 && final(self).ppu == old(self).ppu && final(self).cart == old(self).cart,
            0x4020 <= address ==> final(self).ppu == old(self).ppu,
    {
        if address < 0x2000 {
            self.ram.read(address)
        } else if address <= 0x3FFF {
            self.ppu.read(address)
        } else if address < 0x4020 {
            0
        } else {
            self.cart.read(address)
        }
    }

    /// Writes one byte at a CPU address, with the same routing as `read`.
    /// Writes into the unimplemented region are dropped.
    pub fn write(&mut self, address: usize, value: u8)
        requires
            old(self).wf(),
            address <= 0xFFFF,
        ensures
            final(self).wf(),
            final(self).cpu == old(self).cpu,
            final(self).clock == old(self).clock,
            address < 0x2000 ==> final(self).ram.memory@ == old(self).ram.memory@.update(
                ram_index(address as int),
                value,
            ) && final(self).ppu == old(self).ppu && final(self).cart == old(self).cart,
            0x2000 <= address <= 0x3FFF || address == 0x4014 ==> ppu_write_rel(
                old(self).ppu,
                final(self).ppu,
                address as int,
                value,
            ) && final(self).ram.memory@ == old(self).ram.memory@ && final(self).cart == old(self).cart,
            0x4000 <= address < 0x4020 && address != 0x4014 ==> final(self).ram.memory@ == old(self).ram.memory@ && final(self).ppu == old(self).ppu && final(self).cart == old(self).cart,
            0x4020 <= address ==> final(self).ram.memory@ == old(self).ram.memory@ && final(self).ppu == old(self).ppu,
    {
        if address < 0x2000 {
            self.ram.write(address, value);
        } else if address <= 0x3FFF {
            self.ppu.write(address, value);
        } else if address == 0x4014 {
            self.ppu.write(address, value);
        } else if address < 0x4020 {
            // Unimplemented region: the write is dropped.
        } else {
            self.cart.write(address, value);
        }
    }

    /// Adds `n_cycles` to the CPU clock and runs the PPU three times as far.
    /// The clock never decreases. One call carries at most one instruction's
    /// worth of cycles, so the PPU's share stays below one scanline.
    pub fn tick(&mut self, n_cycles: i64)
        requires
            old(self).wf(),
            0 <= n_cycles,
            3 * n_cycles < CYCLES_PER_SCANLINE,
            old(self).clock + n_cycles <= i64::MAX,
        ensures
            final(self).wf(),
            final(self).clock == old(self).clock + n_cycles,
            final(self).cpu == old(self).cpu,
            final(self).ram.memory@ == old(self).ram.memory@,
            final(self).cart == old(self).cart,
            ppu_tick_rel(old(self).ppu, final(self).ppu, 3 * n_cycles as int),
    {
        self.clock = self.clock + n_cycles;
        self.ppu.tick(n_cycles * 3);
    }

    /// Pushes a byte: stores at 0x0100 plus the stack pointer, then lowers
    /// the pointer, wrapping within the byte. Every such store lands in the
    /// stack page of internal RAM.
    pub fn stack_push(&mut self, value: u8)
        requires
            old(self).wf(),
        ensures
            final(self).wf(),
            final(self).ram.memory@ == old(self).ram.memory@.update(
                0x100 + old(self).cpu.stack_ptr as int,
                value,
            ),
            final(self).cpu == (Cpu {
                stack_ptr: wrap_dec8(old(self).cpu.stack_ptr),
                ..old(self).cpu
            }),
            final(self).ppu == old(self).ppu,
            final(self).cart == old(self).cart,
            final(self).clock == old(self).clock,
    {
        let address = 0x100 + self.cpu.stack_ptr as usize;
        self.ram.write(address, value);
        if self.cpu.stack_ptr == 0 {
            self.cpu.stack_ptr = 0xFF;
        } else {
            self.cpu.stack_ptr = self.cpu.stack_ptr - 1;
        }
    }

    /// Pops a byte: raises the stack pointer, wrapping within the byte, then
    /// reads at 0x0100 plus the new pointer.
    pub fn stack_pop(&mut self) -> (v: u8)
        requires
            old(self).wf(),
        ensures
            final(self).wf(),
            v == old(self).ram.memory@[0x100 + wrap_inc8(old(self).cpu.stack_ptr) as int],
            final(self).ram.memory@ == old(self).ram.memory@,
            final(self).cpu == (Cpu {
                stack_ptr: wrap_inc8(old(self).cpu.stack_ptr),
                ..old(self).cpu
            }),
            final(self).ppu == old(self).ppu,
            final(self).cart == old(self).cart,
            final(self).clock == old(self).clock,
    {
        if self.cpu.stack_ptr == 0xFF {
            self.cpu.stack_ptr = 0;
        } else {
            self.cpu.stack_ptr = self.cpu.stack_ptr + 1;
        }
        let address = 0x100 + self.cpu.stack_ptr as usize;
        self.ram.read(address)
    }
}

/// Law: every stack access lands in internal RAM. For any stack pointer
/// value, the stack address 0x0100 plus the pointer lies inside the physical
/// 2 KiB, and RAM mirroring maps it onto itself.
pub proof fn lemma_stack_lands_in_ram(sp: u8)
    ensures
        (0x100 + sp as int) < 0x800,
        ram_index(0x100 + sp as int) == 0x100 + sp as int,
{
}

/// Law: the stack round trip. Pushing a byte and popping again yields the
/// byte back and restores the stack pointer, for every pointer value and
/// every RAM state.
pub proof fn lemma_stack_round_trip(ram: Seq<u8>, sp: u8, v: u8)
    requires
        ram.len() == 0x800,
    ensures
        wrap_inc8(wrap_dec8(sp)) == sp,
        ram.update(0x100 + sp as int, v)[0x100 + wrap_inc8(wrap_dec8(sp)) as int] == v,
{
}

/// Law: JSR followed by a balanced RTS. JSR pushes the address one before
/// its return address, high byte first; RTS pops the two bytes and adds one.
/// For every RAM state, stack pointer and return address, running the two
/// pushes and then the two pops restores the stack pointer and yields
/// exactly the return address.
pub proof fn lemma_jsr_rts_round_trip(ram: Seq<u8>, sp: u8, return_addr: u16)
    requires
        ram.len() == 0x800,
    ensures
        ({
            let pushed = crate::instructions::jsr_pushed(return_addr);
            let sp1 = wrap_dec8(sp);
            let sp2 = wrap_dec8(sp1);
            let ram2 = ram.update(0x100 + sp as int, hi_byte(pushed)).update(
                0x100 + sp1 as int,
                lo_byte(pushed),
            );
            let lo = ram2[0x100 + wrap_inc8(sp2) as int];
            let hi = ram2[0x100 + wrap_inc8(wrap_inc8(sp2)) as int];
            wrap_add16(word(lo, hi), 1) == return_addr && wrap_inc8(wrap_inc8(sp2)) == sp
        }),
{
    let pushed = crate::instructions::jsr_pushed(return_addr);
    let sp1 = wrap_dec8(sp);
    let sp2 = wrap_dec8(sp1);
    assert(wrap_inc8(sp2) == sp1);
    assert(wrap_inc8(sp1) == sp);
    assert(sp1 != sp);
    let ram2 = ram.update(0x100 + sp as int, hi_byte(pushed)).update(
        0x100 + sp1 as int,
        lo_byte(pushed),
    );
    assert(ram2[0x100 + sp1 as int] == lo_byte(pushed));
    assert(ram2[0x100 + sp as int] == hi_byte(pushed));
    assert(word(lo_byte(pushed), hi_byte(pushed)) == pushed);
    assert(wrap_add16(word(lo_byte(pushed), hi_byte(pushed)), 1) == return_addr);
}

} // verus!
