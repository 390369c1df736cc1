//! Addressing modes: how an instruction names its operand.
//!
//! The arithmetic that turns operand bytes and index registers into an
//! effective address is kept in pure functions here, each with an exact
//! contract; the bus-facing decoders in the same module fetch the operand
//! bytes and then apply them.

use vstd::prelude::*;

use crate::bus::Bus;
use crate::cartridge::Cartridge;
use crate::cpu::{hi_byte, word, wrap_add16, wrap_inc16, Cpu};
use crate::memory::Memory;
use crate::ram::ram_index;

verus! {

/// The thirteen addressing modes of the processor.
#[derive(Debug, Clone, Copy, PartialEq, Eq, Structural)]
pub enum AddressMode {
    Absolute,
    AbsoluteX,
    AbsoluteY,
    Accumulator,
    Immediate,
    Implied,
    Indirect,
    IndirectX,
    IndirectY,
    ZeroPage,
    ZeroPageX,
    ZeroPageY,
    Relative,
}

/// How many operand bytes a mode consumes from the instruction stream.
pub open spec fn operand_len(mode: AddressMode) -> u16 {
    match mode {
        AddressMode::Absolute => 2,
        AddressMode::AbsoluteX => 2,
        AddressMode::AbsoluteY => 2,
        AddressMode::Indirect => 2,
        AddressMode::Accumulator => 0,
        AddressMode::Implied => 0,
        _ => 1,
    }
}

/// Whether the mode yields an effective address at all; Implied and
/// Accumulator name a register instead.
pub open spec fn is_operand_mode(mode: AddressMode) -> bool {
    mode != AddressMode::Accumulator && mode != AddressMode::Implied
}

/// The 256-byte page an address belongs to; its high byte.
pub open spec fn page_of(addr: u16) -> int {
    addr as int / 256
}

/// True when two addresses lie on the same 256-byte page.
pub fn pages_match(addr_a: u16, addr_b: u16) -> (r: bool)
    ensures
        r == (page_of(addr_a) == page_of(addr_b)),
{
    addr_a / 256 == addr_b / 256
}

/// Zero-page indexing as a value: the sum wraps within page zero.
pub open spec fn zp_index(base: u8, index: u8) -> u8 {
    ((base + index) % 256) as u8
}

/// Zero-page indexing: the sum wraps within page zero and never escapes it.
pub fn zero_page_indexed(base: u8, index: u8) -> (r: u8)
    ensures
        r == zp_index(base, index),
        r == (base + index) % 256,
{
    ((base as u16 + index as u16) % 256) as u8
}

/// Absolute indexing: 16-bit wrap-around addition, and whether the result
/// stayed on the base address's page. `same_page` is false exactly when the
/// high byte of the base differs from the high byte of base plus index.
pub fn absolute_indexed(base: u16, index: u8) -> (r: (u16, bool))
    ensures
        r.0 == wrap_add16(base, index as u16),
        r.1 == (page_of(base) == page_of(r.0)),
        r.1 == (hi_byte(base) == hi_byte(r.0)),
{
    let target: u16 = ((base as u32 + index as u32) % 0x10000) as u16;
    let same = pages_match(base, target);
    (target, same)
}

/// Where the high pointer byte of an indirect JMP is read from. The
/// processor bug: when the pointer's low byte is 0xFF, the high byte comes
/// from the start of the same page, not from the next page.
pub open spec fn indirect_hi_addr(pointer: u16) -> u16 {
    if pointer % 256 == 0xFF {
        (pointer - 0xFF) as u16
    } else {
        (pointer + 1) as u16
    }
}

/// Where the two pointer bytes of an indirect JMP are read from, with the
/// page-wrap bug on the high byte.
pub fn indirect_pointer_addresses(pointer: u16) -> (r: (u16, u16))
    ensures
        r.0 == pointer,
        r.1 == indirect_hi_addr(pointer),
        pointer % 256 == 0xFF ==> r.1 == pointer - 0xFF,
        pointer % 256 != 0xFF ==> r.1 == pointer + 1,
{
    if pointer % 256 == 0xFF {
        (pointer, pointer - 0xFF)
    } else {
        (pointer, pointer + 1)
    }
}

/// The target of a relative branch: the operand byte is a two's-complement
/// displacement from the address just past the operand.
pub open spec fn relative_target(pc: u16, offset: u8) -> u16 {
    ((pc + offset + (if offset >= 0x80 {
        0xFF00int
    } else {
        0int
    })) % 0x10000) as u16
}

/// Computes a relative branch target and whether it stays on the page of the
/// instruction that follows the branch.
pub fn relative_indexed(pc: u16, offset: u8) -> (r: (u16, bool))
    ensures
        r.0 == relative_target(pc, offset),
        r.1 == (page_of(pc) == page_of(r.0)),
{
    let extend: u32 = if offset >= 0x80 {
        0xFF00
    } else {
        0
    };
    let target: u16 = ((pc as u32 + offset as u32 + extend) % 0x10000) as u16;
    let same = pages_match(pc, target);
    (target, same)
}

/// The effective address an addressing mode names, pinned as far as the
/// bus's own memory reaches: whenever the operand bytes, and any pointer
/// bytes, lie in internal RAM, the address is exactly the one the mode's
/// rule computes from those bytes. Operand bytes served by the cartridge
/// stay unconstrained, since the cartridge's behaviour is its own.
pub open spec fn effective_addr_rel<C: Cartridge + Memory>(
    pre: Bus<C>,
    mode: AddressMode,
    a: int,
) -> bool {
    let pc = pre.cpu.program_counter;
    let ram = pre.ram.memory@;
    &&& 0 <= a <= 0xFFFF
    &&& (mode == AddressMode::Immediate ==> a == pc)
    &&& (mode == AddressMode::ZeroPage ==> a <= 0xFF && (pc < 0x2000 ==> a == ram[ram_index(
        pc as int,
    )]))
    &&& (mode == AddressMode::ZeroPageX ==> a <= 0xFF && (pc < 0x2000 ==> a == zp_index(
        ram[ram_index(pc as int)],
        pre.cpu.index_x,
    )))
    &&& (mode == AddressMode::ZeroPageY ==> a <= 0xFF && (pc < 0x2000 ==> a == zp_index(
        ram[ram_index(pc as int)],
        pre.cpu.index_y,
    )))
    &&& (mode == AddressMode::Absolute ==> (pc < 0x1FFF ==> a == word(
        ram[ram_index(pc as int)],
        ram[ram_index(pc as int + 1)],
    )))
    &&& (mode == AddressMode::AbsoluteX ==> (pc < 0x1FFF ==> a == wrap_add16(
        word(ram[ram_index(pc as int)], ram[ram_index(pc as int + 1)]),
        pre.cpu.index_x as u16,
    )))
    &&& (mode == AddressMode::AbsoluteY ==> (pc < 0x1FFF ==> a == wrap_add16(
        word(ram[ram_index(pc as int)], ram[ram_index(pc as int + 1)]),
        pre.cpu.index_y as u16,
    )))
    &&& (mode == AddressMode::Indirect ==> (pc < 0x1FFF ==> {
        let pointer = word(ram[ram_index(pc as int)], ram[ram_index(pc as int + 1)]);
        pointer < 0x2000 && indirect_hi_addr(pointer) < 0x2000 ==> a == word(
            ram[ram_index(pointer as int)],
            ram[ram_index(indirect_hi_addr(pointer) as int)],
        )
    }))
    &&& (mode == AddressMode::IndirectX ==> (pc < 0x2000 ==> {
        let p1 = zp_index(ram[ram_index(pc as int)], pre.cpu.index_x);
        a == word(ram[p1 as int], ram[zp_index(p1, 1) as int])
    }))
    &&& (mode == AddressMode::IndirectY ==> (pc < 0x2000 ==> {
        let b = ram[ram_index(pc as int)];
        a == wrap_add16(word(ram[b as int], ram[zp_index(b, 1) as int]), pre.cpu.index_y as u16)
    }))
    &&& (mode == AddressMode::Relative ==> (pc < 0x2000 ==> a == relative_target(
        wrap_inc16(pc),
        ram[ram_index(pc as int)],
    )))
}

/// An effective address together with the operand byte found there: a byte
/// read from RAM is exactly the mirrored RAM byte.
pub open spec fn operand_rel<C: Cartridge + Memory>(
    pre: Bus<C>,
    mode: AddressMode,
    a: int,
    m: u8,
) -> bool {
    &&& effective_addr_rel(pre, mode, a)
    &&& (a < 0x2000 ==> m == pre.ram.memory@[ram_index(a)])
}

/// What every operand decoder leaves alone: the registers other than the
/// program counter, all of RAM, and the clock. The program counter moves
/// past the operand bytes of the mode.
pub open spec fn decode_frame<C: Cartridge + Memory>(
    pre: Bus<C>,
    post: Bus<C>,
    mode: AddressMode,
) -> bool {
    &&& post.cpu == (Cpu {
        program_counter: wrap_add16(pre.cpu.program_counter, operand_len(mode)),
        ..pre.cpu
    })
    &&& post.ram.memory@ == pre.ram.memory@
    &&& post.clock == pre.clock
}

/// Decodes the operand of one instruction: consumes the operand bytes,
/// advancing the program counter, and returns the effective address together
/// with the same-page marker that feeds the page-cross cycle penalty.
pub fn decode_address<C: Cartridge + Memory>(bus: &mut Bus<C>, address_mode: &AddressMode) -> (r:
    (usize, bool))
    requires
        old(bus).wf(),
        is_operand_mode(*address_mode),
    ensures
        final(bus).wf(),
        decode_frame(*old(bus), *final(bus), *address_mode),
        r.0 <= 0xFFFF,
        effective_addr_rel(*old(bus), *address_mode, r.0 as int),
        *address_mode == AddressMode::Immediate ==> r.0 == old(bus).cpu.program_counter && !r.1,
        *address_mode == AddressMode::ZeroPage || *address_mode == AddressMode::ZeroPageX
            || *address_mode == AddressMode::ZeroPageY ==> r.0 <= 0xFF && r.1,
        *address_mode == AddressMode::AbsoluteX ==> (exists|base: u16|
            r.0 == #[trigger] wrap_add16(base, old(bus).cpu.index_x as u16) && r.1 == (page_of(
                base,
            ) == page_of(r.0 as u16))),
        *address_mode == AddressMode::AbsoluteY || *address_mode == AddressMode::IndirectY ==> (
        exists|base: u16|
            r.0 == #[trigger] wrap_add16(base, old(bus).cpu.index_y as u16) && r.1 == (page_of(
                base,
            ) == page_of(r.0 as u16))),
        *address_mode == AddressMode::Relative ==> (exists|offset: u8|
            {
                &&& r.0 == #[trigger] relative_target(
                    wrap_inc16(old(bus).cpu.program_counter),
                    offset,
                )
                &&& r.1 == (page_of(wrap_inc16(old(bus).cpu.program_counter)) == page_of(
                    r.0 as u16,
                ))
                &&& (old(bus).cpu.program_counter < 0x2000 ==> offset == old(
                    bus,
                ).ram.memory@[ram_index(old(bus).cpu.program_counter as int)])
            }),
{
    match address_mode {
        AddressMode::Absolute => absolute(bus),
        AddressMode::AbsoluteX => absolute_x(bus),
        AddressMode::AbsoluteY => absolute_y(bus),
        AddressMode::Immediate => immediate(bus),
        AddressMode::Indirect => indirect(bus),
        AddressMode::IndirectX => indirect_x(bus),
        AddressMode::IndirectY => indirect_y(bus),
        AddressMode::ZeroPage => zero_page(bus),
        AddressMode::ZeroPageX => zero_page_x(bus),
        AddressMode::ZeroPageY => zero_page_y(bus),
        AddressMode::Relative => relative(bus),
        _ => (0, false),
    }
}

/// Fetches a little-endian operand word at the program counter. When the
/// word lies in RAM, it is exactly the two mirrored RAM bytes.
fn fetch_16<C: Cartridge + Memory>(bus: &mut Bus<C>) -> (w: u16)
    requires
        old(bus).wf(),
    ensures
        final(bus).wf(),
        final(bus).cpu == (Cpu {
            program_counter: wrap_add16(old(bus).cpu.program_counter, 2),
            ..old(bus).cpu
        }),
        final(bus).ram.memory@ == old(bus).ram.memory@,
        final(bus).clock == old(bus).clock,
        old(bus).cpu.program_counter < 0x1FFF ==> w == word(
            old(bus).ram.memory@[ram_index(old(bus).cpu.program_counter as int)],
            old(bus).ram.memory@[ram_index(old(bus).cpu.program_counter as int + 1)],
        ),
{
    let lo = crate::instructions::fetch(bus);
    let hi = crate::instructions::fetch(bus);
    proof {
        assert(wrap_inc16(wrap_inc16(old(bus).cpu.program_counter)) == wrap_add16(
            old(bus).cpu.program_counter,
            2,
        ));
    }
    crate::cpu::make_word(lo, hi)
}

/// Absolute: the operand word itself. An operand in RAM is pinned exactly.
pub fn absolute<C: Cartridge + Memory>(bus: &mut Bus<C>) -> (r: (usize, bool))
    requires
        old(bus).wf(),
    ensures
        final(bus).wf(),
        decode_frame(*old(bus), *final(bus), AddressMode::Absolute),
        r.0 <= 0xFFFF,
        !r.1,
        effective_addr_rel(*old(bus), AddressMode::Absolute, r.0 as int),
        old(bus).cpu.program_counter < 0x1FFF ==> r.0 == word(
            old(bus).ram.memory@[ram_index(old(bus).cpu.program_counter as int)],
            old(bus).ram.memory@[ram_index(old(bus).cpu.program_counter as int + 1)],
        ),
{
    let result = fetch_16(bus);
    (result as usize, false)
}

/// AbsoluteX: the operand word plus X, with the page-cross marker.
pub fn absolute_x<C: Cartridge + Memory>(bus: &mut Bus<C>) -> (r: (usize, bool))
    requires
        old(bus).wf(),
    ensures
        final(bus).wf(),
        decode_frame(*old(bus), *final(bus), AddressMode::AbsoluteX),
        r.0 <= 0xFFFF,
        effective_addr_rel(*old(bus), AddressMode::AbsoluteX, r.0 as int),
        exists|base: u16|
            r.0 == #[trigger] wrap_add16(base, old(bus).cpu.index_x as u16) && r.1 == (page_of(
                base,
            ) == page_of(r.0 as u16)),
{
    let param = fetch_16(bus);
    let index = bus.cpu.index_x;
    let (target, same) = absolute_indexed(param, index);
    (target as usize, same)
}

/// AbsoluteY: the operand word plus Y, with the page-cross marker.
pub fn absolute_y<C: Cartridge + Memory>(bus: &mut Bus<C>) -> (r: (usize, bool))
    requires
        old(bus).wf(),
    ensures
        final(bus).wf(),
        decode_frame(*old(bus), *final(bus), AddressMode::AbsoluteY),
        r.0 <= 0xFFFF,
        effective_addr_rel(*old(bus), AddressMode::AbsoluteY, r.0 as int),
        exists|base: u16|
            r.0 == #[trigger] wrap_add16(base, old(bus).cpu.index_y as u16) && r.1 == (page_of(
                base,
            ) == page_of(r.0 as u16)),
{
    let param = fetch_16(bus);
    let index = bus.cpu.index_y;
    let (target, same) = absolute_indexed(param, index);
    (target as usize, same)
}

/// Immediate: the operand is the byte at the program counter itself.
pub fn immediate<C: Cartridge + Memory>(bus: &mut Bus<C>) -> (r: (usize, bool))
    requires
        old(bus).wf(),
    ensures
        final(bus).wf(),
        decode_frame(*old(bus), *final(bus), AddressMode::Immediate),
        r.0 == old(bus).cpu.program_counter,
        !r.1,
        effective_addr_rel(*old(bus), AddressMode::Immediate, r.0 as int),
{
    let result = bus.cpu.program_counter as usize;
    bus.cpu.increment_pc();
    proof {
        assert(wrap_inc16(old(bus).cpu.program_counter) == wrap_add16(
            old(bus).cpu.program_counter,
            1,
        ));
    }
    (result, false)
}

/// Indirect, used only by JMP: the word stored at the operand pointer, with
/// the page-wrap bug on a pointer whose low byte is 0xFF.
pub fn indirect<C: Cartridge + Memory>(bus: &mut Bus<C>) -> (r: (usize, bool))
    requires
        old(bus).wf(),
    ensures
        final(bus).wf(),
        decode_frame(*old(bus), *final(bus), AddressMode::Indirect),
        r.0 <= 0xFFFF,
        !r.1,
        effective_addr_rel(*old(bus), AddressMode::Indirect, r.0 as int),
{
    let param = fetch_16(bus);
    let (lo_addr, hi_addr) = indirect_pointer_addresses(param);
    let lo = bus.read(lo_addr as usize);
    let hi = bus.read(hi_addr as usize);
    let result = crate::cpu::make_word(lo, hi);
    (result as usize, false)
}

/// IndirectX, pre-indexed: the pointer lives in page zero at operand plus X,
/// wrapping within the page.
pub fn indirect_x<C: Cartridge + Memory>(bus: &mut Bus<C>) -> (r: (usize, bool))
    requires
        old(bus).wf(),
    ensures
        final(bus).wf(),
        decode_frame(*old(bus), *final(bus), AddressMode::IndirectX),
        r.0 <= 0xFFFF,
        !r.1,
        effective_addr_rel(*old(bus), AddressMode::IndirectX, r.0 as int),
{
    let param = crate::instructions::fetch(bus);
    let index = bus.cpu.index_x;
    let address1 = zero_page_indexed(param, index);
    let address2 = zero_page_indexed(address1, 1);
    let lo = bus.read(address1 as usize);
    let hi = bus.read(address2 as usize);
    let result = crate::cpu::make_word(lo, hi);
    (result as usize, false)
}

/// IndirectY, post-indexed: the pointer lives in page zero at the operand,
/// and Y is added to the stored word, with the page-cross marker.
pub fn indirect_y<C: Cartridge + Memory>(bus: &mut Bus<C>) -> (r: (usize, bool))
    requires
        old(bus).wf(),
    ensures
        final(bus).wf(),
        decode_frame(*old(bus), *final(bus), AddressMode::IndirectY),
        r.0 <= 0xFFFF,
        effective_addr_rel(*old(bus), AddressMode::IndirectY, r.0 as int),
        exists|base: u16|
            r.0 == #[trigger] wrap_add16(base, old(bus).cpu.index_y as u16) && r.1 == (page_of(
                base,
            ) == page_of(r.0 as u16)),
{
    let address1 = crate::instructions::fetch(bus);
    let address2 = zero_page_indexed(address1, 1);
    let lo = bus.read(address1 as usize);
    let hi = bus.read(address2 as usize);
    let pointer = crate::cpu::make_word(lo, hi);
    let index = bus.cpu.index_y;
    let (target, same) = absolute_indexed(pointer, index);
    (target as usize, same)
}

/// Relative, used only by branches: a signed displacement from the address
/// just past the operand.
pub fn relative<C: Cartridge + Memory>(bus: &mut Bus<C>) -> (r: (usize, bool))
    requires
        old(bus).wf(),
    ensures
        final(bus).wf(),
        decode_frame(*old(bus), *final(bus), AddressMode::Relative),
        r.0 <= 0xFFFF,
        effective_addr_rel(*old(bus), AddressMode::Relative, r.0 as int),
        exists|offset: u8|
            {
                &&& r.0 == #[trigger] relative_target(
                    wrap_inc16(old(bus).cpu.program_counter),
                    offset,
                )
                &&& r.1 == (page_of(wrap_inc16(old(bus).cpu.program_counter)) == page_of(
                    r.0 as u16,
                ))
                &&& (old(bus).cpu.program_counter < 0x2000 ==> offset == old(
                    bus,
                ).ram.memory@[ram_index(old(bus).cpu.program_counter as int)])
            },
{
    let param = crate::instructions::fetch(bus);
    let program_counter = bus.cpu.program_counter;
    let (target, same) = relative_indexed(program_counter, param);
    proof {
        assert(wrap_inc16(old(bus).cpu.program_counter) == wrap_add16(
            old(bus).cpu.program_counter,
            1,
        ));
    }
    (target as usize, same)
}

/// ZeroPage: the operand byte names an address in page zero.
pub fn zero_page<C: Cartridge + Memory>(bus: &mut Bus<C>) -> (r: (usize, bool))
    requires
        old(bus).wf(),
    ensures
        final(bus).wf(),
        decode_frame(*old(bus), *final(bus), AddressMode::ZeroPage),
        r.0 <= 0xFF,
        r.1,
        effective_addr_rel(*old(bus), AddressMode::ZeroPage, r.0 as int),
        old(bus).cpu.program_counter < 0x2000 ==> r.0 == old(bus).ram.memory@[ram_index(
            old(bus).cpu.program_counter as int,
        )],
{
    let result = crate::instructions::fetch(bus);
    proof {
        assert(wrap_inc16(old(bus).cpu.program_counter) == wrap_add16(
            old(bus).cpu.program_counter,
            1,
        ));
    }
    (result as usize, true)
}

/// ZeroPageX: operand plus X, wrapping within page zero.
pub fn zero_page_x<C: Cartridge + Memory>(bus: &mut Bus<C>) -> (r: (usize, bool))
    requires
        old(bus).wf(),
    ensures
        final(bus).wf(),
        decode_frame(*old(bus), *final(bus), AddressMode::ZeroPageX),
        r.0 <= 0xFF,
        r.1,
        effective_addr_rel(*old(bus), AddressMode::ZeroPageX, r.0 as int),
        exists|base: u8| r.0 == #[trigger] zp_index(base, old(bus).cpu.index_x),
{
    let param = crate::instructions::fetch(bus);
    let index = bus.cpu.index_x;
    let result = zero_page_indexed(param, index);
    proof {
        assert(wrap_inc16(old(bus).cpu.program_counter) == wrap_add16(
            old(bus).cpu.program_counter,
            1,
        ));
    }
    (result as usize, true)
}

/// ZeroPageY: operand plus Y, wrapping within page zero.
pub fn zero_page_y<C: Cartridge + Memory>(bus: &mut Bus<C>) -> (r: (usize, bool))
    requires
        old(bus).wf(),
    ensures
        final(bus).wf(),
        decode_frame(*old(bus), *final(bus), AddressMode::ZeroPageY),
        r.0 <= 0xFF,
        r.1,
        effective_addr_rel(*old(bus), AddressMode::ZeroPageY, r.0 as int),
        exists|base: u8| r.0 == #[trigger] zp_index(base, old(bus).cpu.index_y),
{
    let param = crate::instructions::fetch(bus);
    let index = bus.cpu.index_y;
    let result = zero_page_indexed(param, index);
    proof {
        assert(wrap_inc16(old(bus).cpu.program_counter) == wrap_add16(
            old(bus).cpu.program_counter,
            1,
        ));
    }
    (result as usize, true)
}

/// Law: relative displacement really is signed. An offset below 0x80 moves
/// the program counter forward by the offset, modulo the address space; an
/// offset of 0x80 or above moves it back by `0x100 - offset`.
pub proof fn lemma_relative_target_signed(pc: u16, offset: u8)
    ensures
        offset < 0x80 ==> relative_target(pc, offset) == (pc + offset) % 0x10000,
        offset >= 0x80 ==> relative_target(pc, offset) == (pc + 0x10000 - (0x100 - offset))
            % 0x10000,
{
    if offset >= 0x80 {
        assert((pc + offset + 0xFF00int) % 0x10000 == (pc + 0x10000 - (0x100 - offset))
            % 0x10000);
    }
}

} // verus!
