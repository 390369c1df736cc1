//! The whole machine: a bus around an iNES cartridge, driven one
//! instruction at a time.

use vstd::prelude::*;

use crate::bus::Bus;
use crate::cart::Cart;
use crate::cpu::{wrap_inc16, Cpu};
use crate::errors::EmuError;
use crate::instructions::{decode, execute, execute_rel, fetch, opcode_table};
use crate::interrupts::{nmi, nmi_rel};
use crate::ppu::{ppu_read_rel, ppu_write_rel, Ppu};
use crate::ram::ram_index;

verus! {

/// The emulator: fetch, decode, execute, account cycles, service NMI.
pub struct Nes {
    pub bus: Bus<Cart>,
}

/// How one step treats a pending NMI, as the bus discipline demands: when
/// the instruction left the pending flag set, the flag is cleared and the
/// NMI sequence runs exactly once; otherwise the machine is left as the
/// instruction left it.
pub open spec fn nmi_serviced(mid: Bus<Cart>, post: Bus<Cart>) -> bool {
    if mid.ppu.is_nmi_interrupt {
        nmi_rel((Bus { ppu: (Ppu { is_nmi_interrupt: false, ..mid.ppu }), ..mid }), post)
    } else {
        post == mid
    }
}

impl Nes {
    /// A machine around the given cartridge, with RESET performed, the
    /// program counter loaded from the reset vector, and the PPU holding the
    /// cartridge's character ROM.
    pub fn new(cart: Cart) -> (n: Nes)
        ensures
            n.bus.wf(),
            n.bus.clock == 7,
            !n.bus.cpu.halted,
            n.bus.cpu.accumulator == 0,
            n.bus.cpu.index_x == 0,
            n.bus.cpu.index_y == 0,
            n.bus.cpu.stack_ptr == crate::cpu::STACK_PTR_INIT,
            n.bus.cpu.status.bits == 0x24,
            n.bus.cpu.program_counter == crate::cpu::word(
                crate::cart::prg_mapped(cart.prg_rom@, 0xFFFC),
                crate::cart::prg_mapped(cart.prg_rom@, 0xFFFD),
            ),
            n.bus.ppu.chr_rom@ == cart.chr_rom@,
    {
        let mut bus = Bus::new(cart);
        let vector = bus.cart.reset_vector();
        bus.cpu.program_counter = vector;
        let chr = crate::cart::copy_range(&bus.cart.chr_rom, 0, bus.cart.chr_rom.len());
        bus.ppu.chr_rom = chr;
        Nes { bus }
    }

    /// Performs the RESET sequence again.
    pub fn reset(&mut self)
        ensures
            final(self).bus.wf(),
            final(self).bus.clock == 7,
            !final(self).bus.cpu.halted,
    {
        self.bus.reset();
    }

    /// Executes exactly one instruction and returns how many cycles it took;
    /// the clock never moves backwards. A halted machine executes nothing
    /// and reports zero cycles; the unstable unofficial opcodes surface as
    /// `Unimplemented`, with the cycles spent up to the refusal. When the
    /// program counter sits in RAM, the step is pinned completely: the
    /// opcode fetched is the RAM byte under the counter, the machine moves
    /// by that instruction's own relation, and a pending NMI left behind by
    /// the instruction is serviced exactly once, through the NMI sequence,
    /// with the pending flag cleared first.
    #[verifier::rlimit(100)]
    pub fn tick(&mut self) -> (r: Result<i64, EmuError>)
        requires
            old(self).bus.wf(),
            old(self).bus.clock + 32 <= i64::MAX,
        ensures
            final(self).bus.wf(),
            final(self).bus.clock >= old(self).bus.clock,
            r matches Ok(d) ==> d == final(self).bus.clock - old(self).bus.clock && d >= 0,
            old(self).bus.cpu.halted ==> *final(self) == *old(self) && r == Ok::<i64, EmuError>(
                0,
            ),
            !old(self).bus.cpu.halted ==> (exists|mid: Bus<Cart>|
                #[trigger] nmi_serviced(mid, final(self).bus)),
            !old(self).bus.cpu.halted && old(self).bus.cpu.program_counter < 0x2000 && r is Ok
                ==> (exists|fetched: Bus<Cart>, mid: Bus<Cart>|
                {
                    &&& fetched.cpu == (Cpu {
                        program_counter: wrap_inc16(old(self).bus.cpu.program_counter),
                        ..old(self).bus.cpu
                    })
                    &&& fetched.ram.memory@ == old(self).bus.ram.memory@
                    &&& fetched.ppu == old(self).bus.ppu
                    &&& fetched.cart == old(self).bus.cart
                    &&& fetched.clock == old(self).bus.clock
                    &&& #[trigger] execute_rel(
                        fetched,
                        mid,
                        opcode_table(
                            old(self).bus.ram.memory@[ram_index(
                                old(self).bus.cpu.program_counter as int,
                            )],
                        ),
                    )
                    &&& nmi_serviced(mid, final(self).bus)
                }),
    {
        if self.bus.cpu.halted {
            return Ok(0);
        }
        let start = self.bus.clock;
        let op_code = fetch(&mut self.bus);
        let ghost fetched_state = self.bus;
        let instruction = decode(op_code);
        let outcome = execute(&mut self.bus, &instruction);
        let ghost mid_state = self.bus;
        if self.bus.ppu.is_nmi_interrupt {
            self.bus.ppu.is_nmi_interrupt = false;
            nmi(&mut self.bus);
        }
        proof {
            assert(nmi_serviced(mid_state, self.bus));
            if old(self).bus.cpu.program_counter < 0x2000 && outcome is Ok {
                assert(execute_rel(
                    fetched_state,
                    mid_state,
                    opcode_table(
                        old(self).bus.ram.memory@[ram_index(
                            old(self).bus.cpu.program_counter as int,
                        )],
                    ),
                ));
            }
        }
        match outcome {
            Ok(_) => Ok(self.bus.clock - start),
            Err(e) => Err(e),
        }
    }

    /// Reads one byte through the bus, as a test harness does, with the
    /// bus's own routing guarantees.
    pub fn read(&mut self, address: usize) -> (v: u8)
        requires
            old(self).bus.wf(),
            address <= 0xFFFF,
        ensures
            final(self).bus.wf(),
            final(self).bus.cpu == old(self).bus.cpu,
            final(self).bus.ram.memory@ == old(self).bus.ram.memory@,
            final(self).bus.clock == old(self).bus.clock,
            address < 0x2000 ==> v == old(self).bus.ram.memory@[ram_index(address as int)]
                && final(self).bus.ppu == old(self).bus.ppu,
            0x2000 <= address <= 0x3FFF ==> ppu_read_rel(
                old(self).bus.ppu,
                final(self).bus.ppu,
                address as int,
                v,
            ),
            0x4000 <= address < 0x4020 ==> v == 0 && final(self).bus.ppu == old(self).bus.ppu,
    {
        self.bus.read(address)
    }

    /// Writes one byte through the bus, as a test harness does, with the
    /// bus's own routing guarantees.
    pub fn write(&mut self, address: usize, value: u8)
        requires
            old(self).bus.wf(),
            address <= 0xFFFF,
        ensures
            final(self).bus.wf(),
            final(self).bus.cpu == old(self).bus.cpu,
            final(self).bus.clock == old(self).bus.clock,
            address < 0x2000 ==> final(self).bus.ram.memory@ == old(
                self,
            ).bus.ram.memory@.update(ram_index(address as int), value) && final(self).bus.ppu
                == old(self).bus.ppu,
            0x2000 <= address <= 0x3FFF || address == 0x4014 ==> ppu_write_rel(
                old(self).bus.ppu,
                final(self).bus.ppu,
                address as int,
                value,
            ) && final(self).bus.ram.memory@ == old(self).bus.ram.memory@,
            0x4000 <= address < 0x4020 && address != 0x4014 ==> final(self).bus.ram.memory@
                == old(self).bus.ram.memory@ && final(self).bus.ppu == old(self).bus.ppu,
    {
        self.bus.write(address, value)
    }
}

} // verus!
