//! The RESET and NMI sequences.

use vstd::prelude::*;

use crate::bus::Bus;
use crate::cartridge::Cartridge;
use crate::cpu::{hi_byte, lo_byte, wrap_dec8, Cpu};
use crate::memory::Memory;
use crate::ppu::ppu_tick_rel;
use crate::status::{bit_set, with_flag, Status, INTERRUPT_DISABLE, UNUSED};

verus! {

/// What the NMI sequence does to the machine: the return address and the
/// status with B cleared and Unused set go to the stack, high byte first;
/// InterruptDisable is set; seven cycles are charged, driving the PPU its
/// twenty-one; the other registers are untouched. The new program counter
/// comes through the cartridge's vector and is the cartridge's affair.
pub open spec fn nmi_rel<C: Cartridge + Memory>(pre: Bus<C>, post: Bus<C>) -> bool {
    &&& post.clock == pre.clock + 7
    &&& post.cpu.stack_ptr == wrap_dec8(wrap_dec8(wrap_dec8(pre.cpu.stack_ptr)))
    &&& post.cpu.accumulator == pre.cpu.accumulator
    &&& post.cpu.index_x == pre.cpu.index_x
    &&& post.cpu.index_y == pre.cpu.index_y
    &&& post.cpu.halted == pre.cpu.halted
    &&& post.cpu.status.bits == with_flag(pre.cpu.status.bits, INTERRUPT_DISABLE, true)
    &&& post.ram.memory@ == pre.ram.memory@.update(
        0x100 + pre.cpu.stack_ptr as int,
        hi_byte(pre.cpu.program_counter),
    ).update(
        0x100 + wrap_dec8(pre.cpu.stack_ptr) as int,
        lo_byte(pre.cpu.program_counter),
    ).update(
        0x100 + wrap_dec8(wrap_dec8(pre.cpu.stack_ptr)) as int,
        crate::cpu::nmi_pushed(pre.cpu.status.bits),
    )
    &&& ppu_tick_rel(pre.ppu, post.ppu, 21)
}

/// RESET: loads the program counter from the reset vector, puts every
/// register at its power-on value, clears RAM and the PPU registers, and
/// starts the clock at 7 for the latency of the sequence itself.
pub fn reset<C: Cartridge + Memory>(bus: &mut Bus<C>)
    ensures
        final(bus).wf(),
        final(bus).cart == old(bus).cart,
        final(bus).cpu.accumulator == 0,
        final(bus).cpu.index_x == 0,
        final(bus).cpu.index_y == 0,
        final(bus).cpu.stack_ptr == crate::cpu::STACK_PTR_INIT,
        final(bus).cpu.status.bits == 0x24,
        !final(bus).cpu.halted,
        final(bus).clock == 7,
        forall|i: int| 0 <= i < 0x800 ==> final(bus).ram.memory@[i] == 0,
        final(bus).ppu.chr_rom@ == old(bus).ppu.chr_rom@,
        !final(bus).ppu.is_nmi_interrupt,
{
    bus.reset();
}

/// NMI: pushes the program counter high byte first, pushes the status with B
/// cleared and Unused set, masks IRQ, jumps through the vector at 0xFFFA,
/// and charges seven cycles. The pushed status byte always has its Unused
/// bit set.
pub fn nmi<C: Cartridge + Memory>(bus: &mut Bus<C>)
    requires
        old(bus).wf(),
        old(bus).clock + 7 <= i64::MAX,
    ensures
        final(bus).wf(),
        nmi_rel(*old(bus), *final(bus)),
        bit_set(crate::cpu::nmi_pushed(old(bus).cpu.status.bits), UNUSED),
{
    let pc = bus.cpu.program_counter;
    bus.stack_push((pc / 256) as u8);
    bus.stack_push((pc % 256) as u8);
    let pushed = (bus.cpu.status.bits() & !crate::status::BREAK_FLAG) | UNUSED;
    bus.stack_push(pushed);
    bus.cpu.status.set_flags(Status::from_bits(INTERRUPT_DISABLE), true);
    let lo = bus.read(0xFFFA);
    let hi = bus.read(0xFFFB);
    bus.cpu.program_counter = crate::cpu::make_word(lo, hi);
    bus.tick(7);
    proof {
        crate::cpu::lemma_unused_bit_stays_set(old(bus).cpu.status.bits, 0, 0, false, 0, false);
    }
}

} // verus!
