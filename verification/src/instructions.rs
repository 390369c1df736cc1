//! The instruction set: the opcode table, the decoder, the dispatcher, and
//! one routine per mnemonic.
//!
//! Each routine decodes its operand, applies the value-level operation from
//! `crate::cpu`, and accounts its cycles: the base count from the table, the
//! page-cross penalty on the read instructions that use an indexed mode, and
//! the taken-branch penalty.

use vstd::prelude::*;

use crate::addressing::{
    decode_address, decode_frame, effective_addr_rel, is_operand_mode, operand_len, operand_rel,
    page_of, relative_target, AddressMode,
};
use crate::bus::Bus;
use crate::cartridge::Cartridge;
use crate::cpu::{
    adc_output, asl_output, hi_byte, lo_byte, nz, php_pushed, plp_merge, rol_output, ror_output,
    lsr_output, status_after_adc, status_after_bit, status_after_compare, status_after_lsr,
    status_after_shift,
    sub_output, wrap_add16, wrap_dec8, wrap_inc16, wrap_inc8, word, Cpu,
};
use crate::errors::EmuError;
use crate::memory::Memory;
use crate::ram::ram_index;
use crate::status::{bit_set, with_flag, Status};
use crate::status::{CARRY, DECIMAL, INTERRUPT_DISABLE, NEGATIVE, OVERFLOW, UNUSED, ZERO};

verus! {

/// The address JSR pushes: one before the address execution resumes at
/// after the matching RTS adds one back.
pub open spec fn jsr_pushed(return_addr: u16) -> u16 {
    ((return_addr + 0xFFFF) % 0x10000) as u16
}

/// The modes whose read instructions pay one extra cycle when the effective
/// address crosses a page.
pub open spec fn penalty_mode(mode: AddressMode) -> bool {
    mode == AddressMode::AbsoluteX || mode == AddressMode::AbsoluteY || mode
        == AddressMode::IndirectY
}

/// Whether a mnemonic carries an addressing mode it can actually execute.
/// The decoder only ever produces such pairs.
pub open spec fn valid_operands(instruction: Instruction) -> bool {
    match instruction {
        Instruction::ASL(m) => m == AddressMode::Accumulator || is_operand_mode(m),
        Instruction::LSR(m) => m == AddressMode::Accumulator || is_operand_mode(m),
        Instruction::ROL(m) => m == AddressMode::Accumulator || is_operand_mode(m),
        Instruction::ROR(m) => m == AddressMode::Accumulator || is_operand_mode(m),
        Instruction::BCC(m) => m == AddressMode::Relative,
        Instruction::BCS(m) => m == AddressMode::Relative,
        Instruction::BEQ(m) => m == AddressMode::Relative,
        Instruction::BMI(m) => m == AddressMode::Relative,
        Instruction::BNE(m) => m == AddressMode::Relative,
        Instruction::BPL(m) => m == AddressMode::Relative,
        Instruction::BVC(m) => m == AddressMode::Relative,
        Instruction::BVS(m) => m == AddressMode::Relative,
        Instruction::BRK(_) => true,
        Instruction::CLC(_) => true,
        Instruction::CLD(_) => true,
        Instruction::CLI(_) => true,
        Instruction::CLV(_) => true,
        Instruction::DEX(_) => true,
        Instruction::DEY(_) => true,
        Instruction::INX(_) => true,
        Instruction::INY(_) => true,
        Instruction::NOP(_) => true,
        Instruction::PHA(_) => true,
        Instruction::PHP(_) => true,
        Instruction::PLA(_) => true,
        Instruction::PLP(_) => true,
        Instruction::RTI(_) => true,
        Instruction::RTS(_) => true,
        Instruction::SEC(_) => true,
        Instruction::SED(_) => true,
        Instruction::SEI(_) => true,
        Instruction::TAX(_) => true,
        Instruction::TAY(_) => true,
        Instruction::TSX(_) => true,
        Instruction::TXA(_) => true,
        Instruction::TXS(_) => true,
        Instruction::TYA(_) => true,
        Instruction::KIL(_) => true,
        Instruction::ATX(_) => true,
        Instruction::AXA(_) => true,
        Instruction::LAR(_) => true,
        Instruction::SXA(_) => true,
        Instruction::SYA(_) => true,
        Instruction::XAA(_) => true,
        Instruction::XAS(_) => true,
        Instruction::ADC(m) => is_operand_mode(m),
        Instruction::AND(m) => is_operand_mode(m),
        Instruction::BIT(m) => is_operand_mode(m),
        Instruction::CMP(m) => is_operand_mode(m),
        Instruction::CPX(m) => is_operand_mode(m),
        Instruction::CPY(m) => is_operand_mode(m),
        Instruction::DEC(m) => is_operand_mode(m),
        Instruction::EOR(m) => is_operand_mode(m),
        Instruction::INC(m) => is_operand_mode(m),
        Instruction::JMP(m) => is_operand_mode(m),
        Instruction::JSR(m) => is_operand_mode(m),
        Instruction::LDA(m) => is_operand_mode(m),
        Instruction::LDX(m) => is_operand_mode(m),
        Instruction::LDY(m) => is_operand_mode(m),
        Instruction::ORA(m) => is_operand_mode(m),
        Instruction::SBC(m) => is_operand_mode(m),
        Instruction::STA(m) => is_operand_mode(m),
        Instruction::STX(m) => is_operand_mode(m),
        Instruction::STY(m) => is_operand_mode(m),
        Instruction::AAC(m) => is_operand_mode(m),
        Instruction::AAX(m) => is_operand_mode(m),
        Instruction::ARR(m) => is_operand_mode(m),
        Instruction::ASR(m) => is_operand_mode(m),
        Instruction::AXS(m) => is_operand_mode(m),
        Instruction::DCP(m) => is_operand_mode(m),
        Instruction::DOP(m) => is_operand_mode(m),
        Instruction::ISC(m) => is_operand_mode(m),
        Instruction::LAX(m) => is_operand_mode(m),
        Instruction::RLA(m) => is_operand_mode(m),
        Instruction::RRA(m) => is_operand_mode(m),
        Instruction::SLO(m) => is_operand_mode(m),
        Instruction::SRE(m) => is_operand_mode(m),
        Instruction::TOP(m) => is_operand_mode(m),
    }
}

/// The unstable unofficial opcodes this core refuses to emulate.
pub open spec fn is_unstable(instruction: Instruction) -> bool {
    match instruction {
        Instruction::ATX(_) => true,
        Instruction::AXA(_) => true,
        Instruction::LAR(_) => true,
        Instruction::SXA(_) => true,
        Instruction::SYA(_) => true,
        Instruction::XAA(_) => true,
        Instruction::XAS(_) => true,
        _ => false,
    }
}

/// Reads the byte at the program counter and steps the counter, wrapping
/// 0xFFFF to 0x0000.
pub fn fetch<C: Cartridge + Memory>(bus: &mut Bus<C>) -> (v: u8)
    requires
        old(bus).wf(),
    ensures
        final(bus).wf(),
        final(bus).cpu == (Cpu {
            program_counter: wrap_inc16(old(bus).cpu.program_counter),
            ..old(bus).cpu
        }),
        final(bus).ram.memory@ == old(bus).ram.memory@,
        final(bus).clock == old(bus).clock,
        old(bus).cpu.program_counter < 0x2000 ==> v == old(bus).ram.memory@[ram_index(
            old(bus).cpu.program_counter as int,
        )] && final(bus).ppu == old(bus).ppu && final(bus).cart == old(bus).cart,
{
    let address = bus.cpu.program_counter as usize;
    let value = bus.read(address);
    bus.cpu.increment_pc();
    value
}

/// The page-cross rule: the read instructions in an indexed mode pay one
/// extra cycle when the operand decoder reported a page cross; every other
/// mode pays nothing.
pub fn cycle_rule_one<C: Cartridge + Memory>(
    bus: &mut Bus<C>,
    address_mode: &AddressMode,
    is_same_page: bool,
)
    requires
        old(bus).wf(),
        old(bus).clock + 1 <= i64::MAX,
    ensures
        final(bus).wf(),
        final(bus).cpu == old(bus).cpu,
        final(bus).ram.memory@ == old(bus).ram.memory@,
        final(bus).clock == old(bus).clock + (if penalty_mode(*address_mode) && !is_same_page {
            1int
        } else {
            0int
        }),
{
    match address_mode {
        AddressMode::AbsoluteX | AddressMode::AbsoluteY | AddressMode::IndirectY => {
            if !is_same_page {
                bus.tick(1);
            }
        },
        _ => {},
    }
}

/// One decoded instruction: a mnemonic together with its addressing mode.
#[derive(Debug, Clone, Copy, PartialEq, Eq, Structural)]
pub enum Instruction {
    ADC(AddressMode),
    AND(AddressMode),
    ASL(AddressMode),
    BCC(AddressMode),
    BCS(AddressMode),
    BEQ(AddressMode),
    BIT(AddressMode),
    BMI(AddressMode),
    BNE(AddressMode),
    BPL(AddressMode),
    BRK(AddressMode),
    BVC(AddressMode),
    BVS(AddressMode),
    CLC(AddressMode),
    CLD(AddressMode),
    CLI(AddressMode),
    CLV(AddressMode),
    CMP(AddressMode),
    CPX(AddressMode),
    CPY(AddressMode),
    DEC(AddressMode),
    DEX(AddressMode),
    DEY(AddressMode),
    EOR(AddressMode),
    INC(AddressMode),
    INX(AddressMode),
    INY(AddressMode),
    JMP(AddressMode),
    JSR(AddressMode),
    LDA(AddressMode),
    LDX(AddressMode),
    LDY(AddressMode),
    LSR(AddressMode),
    NOP(AddressMode),
    ORA(AddressMode),
    PHA(AddressMode),
    PHP(AddressMode),
    PLA(AddressMode),
    PLP(AddressMode),
    ROL(AddressMode),
    ROR(AddressMode),
    RTI(AddressMode),
    RTS(AddressMode),
    SBC(AddressMode),
    SEC(AddressMode),
    SED(AddressMode),
    SEI(AddressMode),
    STA(AddressMode),
    STX(AddressMode),
    STY(AddressMode),
    TAX(AddressMode),
    TAY(AddressMode),
    TSX(AddressMode),
    TXA(AddressMode),
    TXS(AddressMode),
    TYA(AddressMode),
    AAC(AddressMode),
    AAX(AddressMode),
    ARR(AddressMode),
    ASR(AddressMode),
    ATX(AddressMode),
    AXA(AddressMode),
    AXS(AddressMode),
    DCP(AddressMode),
    DOP(AddressMode),
    ISC(AddressMode),
    KIL(AddressMode),
    LAR(AddressMode),
    LAX(AddressMode),
    RLA(AddressMode),
    RRA(AddressMode),
    SLO(AddressMode),
    SRE(AddressMode),
    SXA(AddressMode),
    SYA(AddressMode),
    TOP(AddressMode),
    XAA(AddressMode),
    XAS(AddressMode),
}

/// The normative opcode table: which mnemonic and addressing mode each of
/// the 256 opcode bytes decodes to. Every byte decodes to something; the
/// unofficial opcodes appear under their customary names.
pub open spec fn opcode_table(op: u8) -> Instruction {
    match op {
        0x00 => Instruction::BRK(AddressMode::Implied),
        0x01 => Instruction::ORA(AddressMode::IndirectX),
        0x02 => Instruction::KIL(AddressMode::Implied),
        0x03 => Instruction::SLO(AddressMode::IndirectX),
        0x04 => Instruction::DOP(AddressMode::ZeroPage),
        0x05 => Instruction::ORA(AddressMode::ZeroPage),
        0x06 => Instruction::ASL(AddressMode::ZeroPage),
        0x07 => Instruction::SLO(AddressMode::ZeroPage),
        0x08 => Instruction::PHP(AddressMode::Implied),
        0x09 => Instruction::ORA(AddressMode::Immediate),
        0x0A => Instruction::ASL(AddressMode::Accumulator),
        0x0B => Instruction::AAC(AddressMode::Immediate),
        0x0C => Instruction::TOP(AddressMode::Absolute),
        0x0D => Instruction::ORA(AddressMode::Absolute),
        0x0E => Instruction::ASL(AddressMode::Absolute),
        0x0F => Instruction::SLO(AddressMode::Absolute),
        0x10 => Instruction::BPL(AddressMode::Relative),
        0x11 => Instruction::ORA(AddressMode::IndirectY),
        0x12 => Instruction::KIL(AddressMode::Implied),
        0x13 => Instruction::SLO(AddressMode::IndirectY),
        0x14 => Instruction::DOP(AddressMode::ZeroPageX),
        0x15 => Instruction::ORA(AddressMode::ZeroPageX),
        0x16 => Instruction::ASL(AddressMode::ZeroPageX),
        0x17 => Instruction::SLO(AddressMode::ZeroPageX),
        0x18 => Instruction::CLC(AddressMode::Implied),
        0x19 => Instruction::ORA(AddressMode::AbsoluteY),
        0x1A => Instruction::NOP(AddressMode::Implied),
        0x1B => Instruction::SLO(AddressMode::AbsoluteY),
        0x1C => Instruction::TOP(AddressMode::AbsoluteX),
        0x1D => Instruction::ORA(AddressMode::AbsoluteX),
        0x1E => Instruction::ASL(AddressMode::AbsoluteX),
        0x1F => Instruction::SLO(AddressMode::AbsoluteX),
        0x20 => Instruction::JSR(AddressMode::Absolute),
        0x21 => Instruction::AND(AddressMode::IndirectX),
        0x22 => Instruction::KIL(AddressMode::Implied),
        0x23 => Instruction::RLA(AddressMode::IndirectX),
        0x24 => Instruction::BIT(AddressMode::ZeroPage),
        0x25 => Instruction::AND(AddressMode::ZeroPage),
        0x26 => Instruction::ROL(AddressMode::ZeroPage),
        0x27 => Instruction::RLA(AddressMode::ZeroPage),
        0x28 => Instruction::PLP(AddressMode::Implied),
        0x29 => Instruction::AND(AddressMode::Immediate),
        0x2A => Instruction::ROL(AddressMode::Accumulator),
        0x2B => Instruction::AAC(AddressMode::Immediate),
        0x2C => Instruction::BIT(AddressMode::Absolute),
        0x2D => Instruction::AND(AddressMode::Absolute),
        0x2E => Instruction::ROL(AddressMode::Absolute),
        0x2F => Instruction::RLA(AddressMode::Absolute),
        0x30 => Instruction::BMI(AddressMode::Relative),
        0x31 => Instruction::AND(AddressMode::IndirectY),
        0x32 => Instruction::KIL(AddressMode::Implied),
        0x33 => Instruction::RLA(AddressMode::IndirectY),
        0x34 => Instruction::DOP(AddressMode::ZeroPageX),
        0x35 => Instruction::AND(AddressMode::ZeroPageX),
        0x36 => Instruction::ROL(AddressMode::ZeroPageX),
        0x37 => Instruction::RLA(AddressMode::ZeroPageX),
        0x38 => Instruction::SEC(AddressMode::Implied),
        0x39 => Instruction::AND(AddressMode::AbsoluteY),
        0x3A => Instruction::NOP(AddressMode::Implied),
        0x3B => Instruction::RLA(AddressMode::AbsoluteY),
        0x3C => Instruction::TOP(AddressMode::AbsoluteX),
        0x3D => Instruction::AND(AddressMode::AbsoluteX),
        0x3E => Instruction::ROL(AddressMode::AbsoluteX),
        0x3F => Instruction::RLA(AddressMode::AbsoluteX),
        0x40 => Instruction::RTI(AddressMode::Implied),
        0x41 => Instruction::EOR(AddressMode::IndirectX),
        0x42 => Instruction::KIL(AddressMode::Implied),
        0x43 => Instruction::SRE(AddressMode::IndirectX),
        0x44 => Instruction::DOP(AddressMode::ZeroPage),
        0x45 => Instruction::EOR(AddressMode::ZeroPage),
        0x46 => Instruction::LSR(AddressMode::ZeroPage),
        0x47 => Instruction::SRE(AddressMode::ZeroPage),
        0x48 => Instruction::PHA(AddressMode::Implied),
        0x49 => Instruction::EOR(AddressMode::Immediate),
        0x4A => Instruction::LSR(AddressMode::Accumulator),
        0x4B => Instruction::ASR(AddressMode::Immediate),
        0x4C => Instruction::JMP(AddressMode::Absolute),
        0x4D => Instruction::EOR(AddressMode::Absolute),
        0x4E => Instruction::LSR(AddressMode::Absolute),
        0x4F => Instruction::SRE(AddressMode::Absolute),
        0x50 => Instruction::BVC(AddressMode::Relative),
        0x51 => Instruction::EOR(AddressMode::IndirectY),
        0x52 => Instruction::KIL(AddressMode::Implied),
        0x53 => Instruction::SRE(AddressMode::IndirectY),
        0x54 => Instruction::DOP(AddressMode::ZeroPageX),
        0x55 => Instruction::EOR(AddressMode::ZeroPageX),
        0x56 => Instruction::LSR(AddressMode::ZeroPageX),
        0x57 => Instruction::SRE(AddressMode::ZeroPageX),
        0x58 => Instruction::CLI(AddressMode::Implied),
        0x59 => Instruction::EOR(AddressMode::AbsoluteY),
        0x5A => Instruction::NOP(AddressMode::Implied),
        0x5B => Instruction::SRE(AddressMode::AbsoluteY),
        0x5C => Instruction::TOP(AddressMode::AbsoluteX),
        0x5D => Instruction::EOR(AddressMode::AbsoluteX),
        0x5E => Instruction::LSR(AddressMode::AbsoluteX),
        0x5F => Instruction::SRE(AddressMode::AbsoluteX),
        0x60 => Instruction::RTS(AddressMode::Implied),
        0x61 => Instruction::ADC(AddressMode::IndirectX),
        0x62 => Instruction::KIL(AddressMode::Implied),
        0x63 => Instruction::RRA(AddressMode::IndirectX),
        0x64 => Instruction::DOP(AddressMode::ZeroPage),
        0x65 => Instruction::ADC(AddressMode::ZeroPage),
        0x66 => Instruction::ROR(AddressMode::ZeroPage),
        0x67 => Instruction::RRA(AddressMode::ZeroPage),
        0x68 => Instruction::PLA(AddressMode::Implied),
        0x69 => Instruction::ADC(AddressMode::Immediate),
        0x6A => Instruction::ROR(AddressMode::Accumulator),
        0x6B => Instruction::ARR(AddressMode::Immediate),
        0x6C => Instruction::JMP(AddressMode::Indirect),
        0x6D => Instruction::ADC(AddressMode::Absolute),
        0x6E => Instruction::ROR(AddressMode::Absolute),
        0x6F => Instruction::RRA(AddressMode::Absolute),
        0x70 => Instruction::BVS(AddressMode::Relative),
        0x71 => Instruction::ADC(AddressMode::IndirectY),
        0x72 => Instruction::KIL(AddressMode::Implied),
        0x73 => Instruction::RRA(AddressMode::IndirectY),
        0x74 => Instruction::DOP(AddressMode::ZeroPageX),
        0x75 => Instruction::ADC(AddressMode::ZeroPageX),
        0x76 => Instruction::ROR(AddressMode::ZeroPageX),
        0x77 => Instruction::RRA(AddressMode::ZeroPageX),
        0x78 => Instruction::SEI(AddressMode::Implied),
        0x79 => Instruction::ADC(AddressMode::AbsoluteY),
        0x7A => Instruction::NOP(AddressMode::Implied),
        0x7B => Instruction::RRA(AddressMode::AbsoluteY),
        0x7C => Instruction::TOP(AddressMode::AbsoluteX),
        0x7D => Instruction::ADC(AddressMode::AbsoluteX),
        0x7E => Instruction::ROR(AddressMode::AbsoluteX),
        0x7F => Instruction::RRA(AddressMode::AbsoluteX),
        0x80 => Instruction::DOP(AddressMode::Immediate),
        0x81 => Instruction::STA(AddressMode::IndirectX),
        0x82 => Instruction::DOP(AddressMode::Immediate),
        0x83 => Instruction::AAX(AddressMode::IndirectX),
        0x84 => Instruction::STY(AddressMode::ZeroPage),
        0x85 => Instruction::STA(AddressMode::ZeroPage),
        0x86 => Instruction::STX(AddressMode::ZeroPage),
        0x87 => Instruction::AAX(AddressMode::ZeroPage),
        0x88 => Instruction::DEY(AddressMode::Implied),
        0x89 => Instruction::DOP(AddressMode::Immediate),
        0x8A => Instruction::TXA(AddressMode::Implied),
        0x8B => Instruction::XAA(AddressMode::Immediate),
        0x8C => Instruction::STY(AddressMode::Absolute),
        0x8D => Instruction::STA(AddressMode::Absolute),
        0x8E => Instruction::STX(AddressMode::Absolute),
        0x8F => Instruction::AAX(AddressMode::Absolute),
        0x90 => Instruction::BCC(AddressMode::Relative),
        0x91 => Instruction::STA(AddressMode::IndirectY),
        0x92 => Instruction::KIL(AddressMode::Implied),
        0x93 => Instruction::AXA(AddressMode::IndirectY),
        0x94 => Instruction::STY(AddressMode::ZeroPageX),
        0x95 => Instruction::STA(AddressMode::ZeroPageX),
        0x96 => Instruction::STX(AddressMode::ZeroPageY),
        0x97 => Instruction::AAX(AddressMode::ZeroPageY),
        0x98 => Instruction::TYA(AddressMode::Implied),
        0x99 => Instruction::STA(AddressMode::AbsoluteY),
        0x9A => Instruction::TXS(AddressMode::Implied),
        0x9B => Instruction::XAS(AddressMode::Immediate),
        0x9C => Instruction::SYA(AddressMode::AbsoluteX),
        0x9D => Instruction::STA(AddressMode::AbsoluteX),
        0x9E => Instruction::SXA(AddressMode::AbsoluteY),
        0x9F => Instruction::AXA(AddressMode::AbsoluteY),
        0xA0 => Instruction::LDY(AddressMode::Immediate),
        0xA1 => Instruction::LDA(AddressMode::IndirectX),
        0xA2 => Instruction::LDX(AddressMode::Immediate),
        0xA3 => Instruction::LAX(AddressMode::IndirectX),
        0xA4 => Instruction::LDY(AddressMode::ZeroPage),
        0xA5 => Instruction::LDA(AddressMode::ZeroPage),
        0xA6 => Instruction::LDX(AddressMode::ZeroPage),
        0xA7 => Instruction::LAX(AddressMode::ZeroPage),
        0xA8 => Instruction::TAY(AddressMode::Implied),
        0xA9 => Instruction::LDA(AddressMode::Immediate),
        0xAA => Instruction::TAX(AddressMode::Implied),
        0xAB => Instruction::ATX(AddressMode::Immediate),
        0xAC => Instruction::LDY(AddressMode::Absolute),
        0xAD => Instruction::LDA(AddressMode::Absolute),
        0xAE => Instruction::LDX(AddressMode::Absolute),
        0xAF => Instruction::LAX(AddressMode::Absolute),
        0xB0 => Instruction::BCS(AddressMode::Relative),
        0xB1 => Instruction::LDA(AddressMode::IndirectY),
        0xB2 => Instruction::KIL(AddressMode::Implied),
        0xB3 => Instruction::LAX(AddressMode::IndirectY),
        0xB4 => Instruction::LDY(AddressMode::ZeroPageX),
        0xB5 => Instruction::LDA(AddressMode::ZeroPageX),
        0xB6 => Instruction::LDX(AddressMode::ZeroPageY),
        0xB7 => Instruction::LAX(AddressMode::ZeroPageY),
        0xB8 => Instruction::CLV(AddressMode::Implied),
        0xB9 => Instruction::LDA(AddressMode::AbsoluteY),
        0xBA => Instruction::TSX(AddressMode::Implied),
        0xBB => Instruction::LAR(AddressMode::AbsoluteY),
        0xBC => Instruction::LDY(AddressMode::AbsoluteX),
        0xBD => Instruction::LDA(AddressMode::AbsoluteX),
        0xBE => Instruction::LDX(AddressMode::AbsoluteY),
        0xBF => Instruction::LAX(AddressMode::AbsoluteY),
        0xC0 => Instruction::CPY(AddressMode::Immediate),
        0xC1 => Instruction::CMP(AddressMode::IndirectX),
        0xC2 => Instruction::DOP(AddressMode::Immediate),
        0xC3 => Instruction::DCP(AddressMode::IndirectX),
        0xC4 => Instruction::CPY(AddressMode::ZeroPage),
        0xC5 => Instruction::CMP(AddressMode::ZeroPage),
        0xC6 => Instruction::DEC(AddressMode::ZeroPage),
        0xC7 => Instruction::DCP(AddressMode::ZeroPage),
        0xC8 => Instruction::INY(AddressMode::Implied),
        0xC9 => Instruction::CMP(AddressMode::Immediate),
        0xCA => Instruction::DEX(AddressMode::Implied),
        0xCB => Instruction::AXS(AddressMode::Immediate),
        0xCC => Instruction::CPY(AddressMode::Absolute),
        0xCD => Instruction::CMP(AddressMode::Absolute),
        0xCE => Instruction::DEC(AddressMode::Absolute),
        0xCF => Instruction::DCP(AddressMode::Absolute),
        0xD0 => Instruction::BNE(AddressMode::Relative),
        0xD1 => Instruction::CMP(AddressMode::IndirectY),
        0xD2 => Instruction::KIL(AddressMode::Implied),
        0xD3 => Instruction::DCP(AddressMode::IndirectY),
        0xD4 => Instruction::DOP(AddressMode::ZeroPageX),
        0xD5 => Instruction::CMP(AddressMode::ZeroPageX),
        0xD6 => Instruction::DEC(AddressMode::ZeroPageX),
        0xD7 => Instruction::DCP(AddressMode::ZeroPageX),
        0xD8 => Instruction::CLD(AddressMode::Implied),
        0xD9 => Instruction::CMP(AddressMode::AbsoluteY),
        0xDA => Instruction::NOP(AddressMode::Implied),
        0xDB => Instruction::DCP(AddressMode::AbsoluteY),
        0xDC => Instruction::TOP(AddressMode::AbsoluteX),
        0xDD => Instruction::CMP(AddressMode::AbsoluteX),
        0xDE => Instruction::DEC(AddressMode::AbsoluteX),
        0xDF => Instruction::DCP(AddressMode::AbsoluteX),
        0xE0 => Instruction::CPX(AddressMode::Immediate),
        0xE1 => Instruction::SBC(AddressMode::IndirectX),
        0xE2 => Instruction::DOP(AddressMode::Immediate),
        0xE3 => Instruction::ISC(AddressMode::IndirectX),
        0xE4 => Instruction::CPX(AddressMode::ZeroPage),
        0xE5 => Instruction::SBC(AddressMode::ZeroPage),
        0xE6 => Instruction::INC(AddressMode::ZeroPage),
        0xE7 => Instruction::ISC(AddressMode::ZeroPage),
        0xE8 => Instruction::INX(AddressMode::Implied),
        0xE9 => Instruction::SBC(AddressMode::Immediate),
        0xEA => Instruction::NOP(AddressMode::Implied),
        0xEB => Instruction::SBC(AddressMode::Immediate),
        0xEC => Instruction::CPX(AddressMode::Absolute),
        0xED => Instruction::SBC(AddressMode::Absolute),
        0xEE => Instruction::INC(AddressMode::Absolute),
        0xEF => Instruction::ISC(AddressMode::Absolute),
        0xF0 => Instruction::BEQ(AddressMode::Relative),
        0xF1 => Instruction::SBC(AddressMode::IndirectY),
        0xF2 => Instruction::KIL(AddressMode::Implied),
        0xF3 => Instruction::ISC(AddressMode::IndirectY),
        0xF4 => Instruction::DOP(AddressMode::ZeroPageX),
        0xF5 => Instruction::SBC(AddressMode::ZeroPageX),
        0xF6 => Instruction::INC(AddressMode::ZeroPageX),
        0xF7 => Instruction::ISC(AddressMode::ZeroPageX),
        0xF8 => Instruction::SED(AddressMode::Implied),
        0xF9 => Instruction::SBC(AddressMode::AbsoluteY),
        0xFA => Instruction::NOP(AddressMode::Implied),
        0xFB => Instruction::ISC(AddressMode::AbsoluteY),
        0xFC => Instruction::TOP(AddressMode::AbsoluteX),
        0xFD => Instruction::SBC(AddressMode::AbsoluteX),
        0xFE => Instruction::INC(AddressMode::AbsoluteX),
        _ => Instruction::ISC(AddressMode::AbsoluteX),
    }
}

/// Decodes one opcode byte. The decoder only produces mnemonic and mode
/// pairs the dispatcher can execute.
#[verifier::rlimit(100)]
pub fn decode(op_code: u8) -> (r: Instruction)
    ensures
        r == opcode_table(op_code),
        valid_operands(r),
{
    match op_code {
        0x00 => Instruction::BRK(AddressMode::Implied),
        0x01 => Instruction::ORA(AddressMode::IndirectX),
        0x02 => Instruction::KIL(AddressMode::Implied),
        0x03 => Instruction::SLO(AddressMode::IndirectX),
        0x04 => Instruction::DOP(AddressMode::ZeroPage),
        0x05 => Instruction::ORA(AddressMode::ZeroPage),
        0x06 => Instruction::ASL(AddressMode::ZeroPage),
        0x07 => Instruction::SLO(AddressMode::ZeroPage),
        0x08 => Instruction::PHP(AddressMode::Implied),
        0x09 => Instruction::ORA(AddressMode::Immediate),
        0x0A => Instruction::ASL(AddressMode::Accumulator),
        0x0B => Instruction::AAC(AddressMode::Immediate),
        0x0C => Instruction::TOP(AddressMode::Absolute),
        0x0D => Instruction::ORA(AddressMode::Absolute),
        0x0E => Instruction::ASL(AddressMode::Absolute),
        0x0F => Instruction::SLO(AddressMode::Absolute),
        0x10 => Instruction::BPL(AddressMode::Relative),
        0x11 => Instruction::ORA(AddressMode::IndirectY),
        0x12 => Instruction::KIL(AddressMode::Implied),
        0x13 => Instruction::SLO(AddressMode::IndirectY),
        0x14 => Instruction::DOP(AddressMode::ZeroPageX),
        0x15 => Instruction::ORA(AddressMode::ZeroPageX),
        0x16 => Instruction::ASL(AddressMode::ZeroPageX),
        0x17 => Instruction::SLO(AddressMode::ZeroPageX),
        0x18 => Instruction::CLC(AddressMode::Implied),
        0x19 => Instruction::ORA(AddressMode::AbsoluteY),
        0x1A => Instruction::NOP(AddressMode::Implied),
        0x1B => Instruction::SLO(AddressMode::AbsoluteY),
        0x1C => Instruction::TOP(AddressMode::AbsoluteX),
        0x1D => Instruction::ORA(AddressMode::AbsoluteX),
        0x1E => Instruction::ASL(AddressMode::AbsoluteX),
        0x1F => Instruction::SLO(AddressMode::AbsoluteX),
        0x20 => Instruction::JSR(AddressMode::Absolute),
        0x21 => Instruction::AND(AddressMode::IndirectX),
        0x22 => Instruction::KIL(AddressMode::Implied),
        0x23 => Instruction::RLA(AddressMode::IndirectX),
        0x24 => Instruction::BIT(AddressMode::ZeroPage),
        0x25 => Instruction::AND(AddressMode::ZeroPage),
        0x26 => Instruction::ROL(AddressMode::ZeroPage),
        0x27 => Instruction::RLA(AddressMode::ZeroPage),
        0x28 => Instruction::PLP(AddressMode::Implied),
        0x29 => Instruction::AND(AddressMode::Immediate),
        0x2A => Instruction::ROL(AddressMode::Accumulator),
        0x2B => Instruction::AAC(AddressMode::Immediate),
        0x2C => Instruction::BIT(AddressMode::Absolute),
        0x2D => Instruction::AND(AddressMode::Absolute),
        0x2E => Instruction::ROL(AddressMode::Absolute),
        0x2F => Instruction::RLA(AddressMode::Absolute),
        0x30 => Instruction::BMI(AddressMode::Relative),
        0x31 => Instruction::AND(AddressMode::IndirectY),
        0x32 => Instruction::KIL(AddressMode::Implied),
        0x33 => Instruction::RLA(AddressMode::IndirectY),
        0x34 => Instruction::DOP(AddressMode::ZeroPageX),
        0x35 => Instruction::AND(AddressMode::ZeroPageX),
        0x36 => Instruction::ROL(AddressMode::ZeroPageX),
        0x37 => Instruction::RLA(AddressMode::ZeroPageX),
        0x38 => Instruction::SEC(AddressMode::Implied),
        0x39 => Instruction::AND(AddressMode::AbsoluteY),
        0x3A => Instruction::NOP(AddressMode::Implied),
        0x3B => Instruction::RLA(AddressMode::AbsoluteY),
        0x3C => Instruction::TOP(AddressMode::AbsoluteX),
        0x3D => Instruction::AND(AddressMode::AbsoluteX),
        0x3E => Instruction::ROL(AddressMode::AbsoluteX),
        0x3F => Instruction::RLA(AddressMode::AbsoluteX),
        0x40 => Instruction::RTI(AddressMode::Implied),
        0x41 => Instruction::EOR(AddressMode::IndirectX),
        0x42 => Instruction::KIL(AddressMode::Implied),
        0x43 => Instruction::SRE(AddressMode::IndirectX),
        0x44 => Instruction::DOP(AddressMode::ZeroPage),
        0x45 => Instruction::EOR(AddressMode::ZeroPage),
        0x46 => Instruction::LSR(AddressMode::ZeroPage),
        0x47 => Instruction::SRE(AddressMode::ZeroPage),
        0x48 => Instruction::PHA(AddressMode::Implied),
        0x49 => Instruction::EOR(AddressMode::Immediate),
        0x4A => Instruction::LSR(AddressMode::Accumulator),
        0x4B => Instruction::ASR(AddressMode::Immediate),
        0x4C => Instruction::JMP(AddressMode::Absolute),
        0x4D => Instruction::EOR(AddressMode::Absolute),
        0x4E => Instruction::LSR(AddressMode::Absolute),
        0x4F => Instruction::SRE(AddressMode::Absolute),
        0x50 => Instruction::BVC(AddressMode::Relative),
        0x51 => Instruction::EOR(AddressMode::IndirectY),
        0x52 => Instruction::KIL(AddressMode::Implied),
        0x53 => Instruction::SRE(AddressMode::IndirectY),
        0x54 => Instruction::DOP(AddressMode::ZeroPageX),
        0x55 => Instruction::EOR(AddressMode::ZeroPageX),
        0x56 => Instruction::LSR(AddressMode::ZeroPageX),
        0x57 => Instruction::SRE(AddressMode::ZeroPageX),
        0x58 => Instruction::CLI(AddressMode::Implied),
        0x59 => Instruction::EOR(AddressMode::AbsoluteY),
        0x5A => Instruction::NOP(AddressMode::Implied),
        0x5B => Instruction::SRE(AddressMode::AbsoluteY),
        0x5C => Instruction::TOP(AddressMode::AbsoluteX),
        0x5D => Instruction::EOR(AddressMode::AbsoluteX),
        0x5E => Instruction::LSR(AddressMode::AbsoluteX),
        0x5F => Instruction::SRE(AddressMode::AbsoluteX),
        0x60 => Instruction::RTS(AddressMode::Implied),
        0x61 => Instruction::ADC(AddressMode::IndirectX),
        0x62 => Instruction::KIL(AddressMode::Implied),
        0x63 => Instruction::RRA(AddressMode::IndirectX),
        0x64 => Instruction::DOP(AddressMode::ZeroPage),
        0x65 => Instruction::ADC(AddressMode::ZeroPage),
        0x66 => Instruction::ROR(AddressMode::ZeroPage),
        0x67 => Instruction::RRA(AddressMode::ZeroPage),
        0x68 => Instruction::PLA(AddressMode::Implied),
        0x69 => Instruction::ADC(AddressMode::Immediate),
        0x6A => Instruction::ROR(AddressMode::Accumulator),
        0x6B => Instruction::ARR(AddressMode::Immediate),
        0x6C => Instruction::JMP(AddressMode::Indirect),
        0x6D => Instruction::ADC(AddressMode::Absolute),
        0x6E => Instruction::ROR(AddressMode::Absolute),
        0x6F => Instruction::RRA(AddressMode::Absolute),
        0x70 => Instruction::BVS(AddressMode::Relative),
        0x71 => Instruction::ADC(AddressMode::IndirectY),
        0x72 => Instruction::KIL(AddressMode::Implied),
        0x73 => Instruction::RRA(AddressMode::IndirectY),
        0x74 => Instruction::DOP(AddressMode::ZeroPageX),
        0x75 => Instruction::ADC(AddressMode::ZeroPageX),
        0x76 => Instruction::ROR(AddressMode::ZeroPageX),
        0x77 => Instruction::RRA(AddressMode::ZeroPageX),
        0x78 => Instruction::SEI(AddressMode::Implied),
        0x79 => Instruction::ADC(AddressMode::AbsoluteY),
        0x7A => Instruction::NOP(AddressMode::Implied),
        0x7B => Instruction::RRA(AddressMode::AbsoluteY),
        0x7C => Instruction::TOP(AddressMode::AbsoluteX),
        0x7D => Instruction::ADC(AddressMode::AbsoluteX),
        0x7E => Instruction::ROR(AddressMode::AbsoluteX),
        0x7F => Instruction::RRA(AddressMode::AbsoluteX),
        0x80 => Instruction::DOP(AddressMode::Immediate),
        0x81 => Instruction::STA(AddressMode::IndirectX),
        0x82 => Instruction::DOP(AddressMode::Immediate),
        0x83 => Instruction::AAX(AddressMode::IndirectX),
        0x84 => Instruction::STY(AddressMode::ZeroPage),
        0x85 => Instruction::STA(AddressMode::ZeroPage),
        0x86 => Instruction::STX(AddressMode::ZeroPage),
        0x87 => Instruction::AAX(AddressMode::ZeroPage),
        0x88 => Instruction::DEY(AddressMode::Implied),
        0x89 => Instruction::DOP(AddressMode::Immediate),
        0x8A => Instruction::TXA(AddressMode::Implied),
        0x8B => Instruction::XAA(AddressMode::Immediate),
        0x8C => Instruction::STY(AddressMode::Absolute),
        0x8D => Instruction::STA(AddressMode::Absolute),
        0x8E => Instruction::STX(AddressMode::Absolute),
        0x8F => Instruction::AAX(AddressMode::Absolute),
        0x90 => Instruction::BCC(AddressMode::Relative),
        0x91 => Instruction::STA(AddressMode::IndirectY),
        0x92 => Instruction::KIL(AddressMode::Implied),
        0x93 => Instruction::AXA(AddressMode::IndirectY),
        0x94 => Instruction::STY(AddressMode::ZeroPageX),
        0x95 => Instruction::STA(AddressMode::ZeroPageX),
        0x96 => Instruction::STX(AddressMode::ZeroPageY),
        0x97 => Instruction::AAX(AddressMode::ZeroPageY),
        0x98 => Instruction::TYA(AddressMode::Implied),
        0x99 => Instruction::STA(AddressMode::AbsoluteY),
        0x9A => Instruction::TXS(AddressMode::Implied),
        0x9B => Instruction::XAS(AddressMode::Immediate),
        0x9C => Instruction::SYA(AddressMode::AbsoluteX),
        0x9D => Instruction::STA(AddressMode::AbsoluteX),
        0x9E => Instruction::SXA(AddressMode::AbsoluteY),
        0x9F => Instruction::AXA(AddressMode::AbsoluteY),
        0xA0 => Instruction::LDY(AddressMode::Immediate),
        0xA1 => Instruction::LDA(AddressMode::IndirectX),
        0xA2 => Instruction::LDX(AddressMode::Immediate),
        0xA3 => Instruction::LAX(AddressMode::IndirectX),
        0xA4 => Instruction::LDY(AddressMode::ZeroPage),
        0xA5 => Instruction::LDA(AddressMode::ZeroPage),
        0xA6 => Instruction::LDX(AddressMode::ZeroPage),
        0xA7 => Instruction::LAX(AddressMode::ZeroPage),
        0xA8 => Instruction::TAY(AddressMode::Implied),
        0xA9 => Instruction::LDA(AddressMode::Immediate),
        0xAA => Instruction::TAX(AddressMode::Implied),
        0xAB => Instruction::ATX(AddressMode::Immediate),
        0xAC => Instruction::LDY(AddressMode::Absolute),
        0xAD => Instruction::LDA(AddressMode::Absolute),
        0xAE => Instruction::LDX(AddressMode::Absolute),
        0xAF => Instruction::LAX(AddressMode::Absolute),
        0xB0 => Instruction::BCS(AddressMode::Relative),
        0xB1 => Instruction::LDA(AddressMode::IndirectY),
        0xB2 => Instruction::KIL(AddressMode::Implied),
        0xB3 => Instruction::LAX(AddressMode::IndirectY),
        0xB4 => Instruction::LDY(AddressMode::ZeroPageX),
        0xB5 => Instruction::LDA(AddressMode::ZeroPageX),
        0xB6 => Instruction::LDX(AddressMode::ZeroPageY),
        0xB7 => Instruction::LAX(AddressMode::ZeroPageY),
        0xB8 => Instruction::CLV(AddressMode::Implied),
        0xB9 => Instruction::LDA(AddressMode::AbsoluteY),
        0xBA => Instruction::TSX(AddressMode::Implied),
        0xBB => Instruction::LAR(AddressMode::AbsoluteY),
        0xBC => Instruction::LDY(AddressMode::AbsoluteX),
        0xBD => Instruction::LDA(AddressMode::AbsoluteX),
        0xBE => Instruction::LDX(AddressMode::AbsoluteY),
        0xBF => Instruction::LAX(AddressMode::AbsoluteY),
        0xC0 => Instruction::CPY(AddressMode::Immediate),
        0xC1 => Instruction::CMP(AddressMode::IndirectX),
        0xC2 => Instruction::DOP(AddressMode::Immediate),
        0xC3 => Instruction::DCP(AddressMode::IndirectX),
        0xC4 => Instruction::CPY(AddressMode::ZeroPage),
        0xC5 => Instruction::CMP(AddressMode::ZeroPage),
        0xC6 => Instruction::DEC(AddressMode::ZeroPage),
        0xC7 => Instruction::DCP(AddressMode::ZeroPage),
        0xC8 => Instruction::INY(AddressMode::Implied),
        0xC9 => Instruction::CMP(AddressMode::Immediate),
        0xCA => Instruction::DEX(AddressMode::Implied),
        0xCB => Instruction::AXS(AddressMode::Immediate),
        0xCC => Instruction::CPY(AddressMode::Absolute),
        0xCD => Instruction::CMP(AddressMode::Absolute),
        0xCE => Instruction::DEC(AddressMode::Absolute),
        0xCF => Instruction::DCP(AddressMode::Absolute),
        0xD0 => Instruction::BNE(AddressMode::Relative),
        0xD1 => Instruction::CMP(AddressMode::IndirectY),
        0xD2 => Instruction::KIL(AddressMode::Implied),
        0xD3 => Instruction::DCP(AddressMode::IndirectY),
        0xD4 => Instruction::DOP(AddressMode::ZeroPageX),
        0xD5 => Instruction::CMP(AddressMode::ZeroPageX),
        0xD6 => Instruction::DEC(AddressMode::ZeroPageX),
        0xD7 => Instruction::DCP(AddressMode::ZeroPageX),
        0xD8 => Instruction::CLD(AddressMode::Implied),
        0xD9 => Instruction::CMP(AddressMode::AbsoluteY),
        0xDA => Instruction::NOP(AddressMode::Implied),
        0xDB => Instruction::DCP(AddressMode::AbsoluteY),
        0xDC => Instruction::TOP(AddressMode::AbsoluteX),
        0xDD => Instruction::CMP(AddressMode::AbsoluteX),
        0xDE => Instruction::DEC(AddressMode::AbsoluteX),
        0xDF => Instruction::DCP(AddressMode::AbsoluteX),
        0xE0 => Instruction::CPX(AddressMode::Immediate),
        0xE1 => Instruction::SBC(AddressMode::IndirectX),
        0xE2 => Instruction::DOP(AddressMode::Immediate),
        0xE3 => Instruction::ISC(AddressMode::IndirectX),
        0xE4 => Instruction::CPX(AddressMode::ZeroPage),
        0xE5 => Instruction::SBC(AddressMode::ZeroPage),
        0xE6 => Instruction::INC(AddressMode::ZeroPage),
        0xE7 => Instruction::ISC(AddressMode::ZeroPage),
        0xE8 => Instruction::INX(AddressMode::Implied),
        0xE9 => Instruction::SBC(AddressMode::Immediate),
        0xEA => Instruction::NOP(AddressMode::Implied),
        0xEB => Instruction::SBC(AddressMode::Immediate),
        0xEC => Instruction::CPX(AddressMode::Absolute),
        0xED => Instruction::SBC(AddressMode::Absolute),
        0xEE => Instruction::INC(AddressMode::Absolute),
        0xEF => Instruction::ISC(AddressMode::Absolute),
        0xF0 => Instruction::BEQ(AddressMode::Relative),
        0xF1 => Instruction::SBC(AddressMode::IndirectY),
        0xF2 => Instruction::KIL(AddressMode::Implied),
        0xF3 => Instruction::ISC(AddressMode::IndirectY),
        0xF4 => Instruction::DOP(AddressMode::ZeroPageX),
        0xF5 => Instruction::SBC(AddressMode::ZeroPageX),
        0xF6 => Instruction::INC(AddressMode::ZeroPageX),
        0xF7 => Instruction::ISC(AddressMode::ZeroPageX),
        0xF8 => Instruction::SED(AddressMode::Implied),
        0xF9 => Instruction::SBC(AddressMode::AbsoluteY),
        0xFA => Instruction::NOP(AddressMode::Implied),
        0xFB => Instruction::ISC(AddressMode::AbsoluteY),
        0xFC => Instruction::TOP(AddressMode::AbsoluteX),
        0xFD => Instruction::SBC(AddressMode::AbsoluteX),
        0xFE => Instruction::INC(AddressMode::AbsoluteX),
        _ => Instruction::ISC(AddressMode::AbsoluteX),
    }
}

/// The base cycle count of each instruction, before the page-cross and
/// taken-branch penalties.
pub open spec fn base_cycles_spec(instruction: Instruction) -> u8 {
    match instruction {
        Instruction::ADC(mode) => match mode {
            AddressMode::IndirectX => 6,
            AddressMode::ZeroPage => 3,
            AddressMode::Immediate => 2,
            AddressMode::Absolute => 4,
            AddressMode::IndirectY => 5,
            AddressMode::ZeroPageX => 4,
            AddressMode::AbsoluteY => 4,
            AddressMode::AbsoluteX => 4,
            _ => 2,
        },
        Instruction::AND(mode) => match mode {
            AddressMode::IndirectX => 6,
            AddressMode::ZeroPage => 3,
            AddressMode::Immediate => 2,
            AddressMode::Absolute => 4,
            AddressMode::IndirectY => 5,
            AddressMode::ZeroPageX => 4,
            AddressMode::AbsoluteY => 4,
            AddressMode::AbsoluteX => 4,
            _ => 2,
        },
        Instruction::ASL(mode) => match mode {
            AddressMode::ZeroPage => 5,
            AddressMode::Accumulator => 2,
            AddressMode::Absolute => 6,
            AddressMode::ZeroPageX => 6,
            AddressMode::AbsoluteX => 7,
            _ => 2,
        },
        Instruction::BCC(_) => 2,
        Instruction::BCS(_) => 2,
        Instruction::BEQ(_) => 2,
        Instruction::BIT(mode) => match mode {
            AddressMode::ZeroPage => 3,
            AddressMode::Absolute => 4,
            _ => 2,
        },
        Instruction::BMI(_) => 2,
        Instruction::BNE(_) => 2,
        Instruction::BPL(_) => 2,
        Instruction::BRK(_) => 7,
        Instruction::BVC(_) => 2,
        Instruction::BVS(_) => 2,
        Instruction::CLC(_) => 2,
        Instruction::CLD(_) => 2,
        Instruction::CLI(_) => 2,
        Instruction::CLV(_) => 2,
        Instruction::CMP(mode) => match mode {
            AddressMode::IndirectX => 6,
            AddressMode::ZeroPage => 3,
            AddressMode::Immediate => 2,
            AddressMode::Absolute => 4,
            AddressMode::IndirectY => 5,
            AddressMode::ZeroPageX => 4,
            AddressMode::AbsoluteY => 4,
            AddressMode::AbsoluteX => 4,
            _ => 2,
        },
        Instruction::CPX(mode) => match mode {
            AddressMode::Immediate => 2,
            AddressMode::ZeroPage => 3,
            AddressMode::Absolute => 4,
            _ => 2,
        },
        Instruction::CPY(mode) => match mode {
            AddressMode::Immediate => 2,
            AddressMode::ZeroPage => 3,
            AddressMode::Absolute => 4,
            _ => 2,
        },
        Instruction::DEC(mode) => match mode {
            AddressMode::ZeroPage => 5,
            AddressMode::Absolute => 6,
            AddressMode::ZeroPageX => 6,
            AddressMode::AbsoluteX => 7,
            _ => 2,
        },
        Instruction::DEX(_) => 2,
        Instruction::DEY(_) => 2,
        Instruction::EOR(mode) => match mode {
            AddressMode::IndirectX => 6,
            AddressMode::ZeroPage => 3,
            AddressMode::Immediate => 2,
            AddressMode::Absolute => 4,
            AddressMode::IndirectY => 5,
            AddressMode::ZeroPageX => 4,
            AddressMode::AbsoluteY => 4,
            AddressMode::AbsoluteX => 4,
            _ => 2,
        },
        Instruction::INC(mode) => match mode {
            AddressMode::ZeroPage => 5,
            AddressMode::Absolute => 6,
            AddressMode::ZeroPageX => 6,
            AddressMode::AbsoluteX => 7,
            _ => 2,
        },
        Instruction::INX(_) => 2,
        Instruction::INY(_) => 2,
        Instruction::JMP(mode) => match mode {
            AddressMode::Absolute => 3,
            AddressMode::Indirect => 5,
            _ => 2,
        },
        Instruction::JSR(_) => 6,
        Instruction::LDA(mode) => match mode {
            AddressMode::IndirectX => 6,
            AddressMode::ZeroPage => 3,
            AddressMode::Immediate => 2,
            AddressMode::Absolute => 4,
            AddressMode::IndirectY => 5,
            AddressMode::ZeroPageX => 4,
            AddressMode::AbsoluteY => 4,
            AddressMode::AbsoluteX => 4,
            _ => 2,
        },
        Instruction::LDX(mode) => match mode {
            AddressMode::Immediate => 2,
            AddressMode::ZeroPage => 3,
            AddressMode::Absolute => 4,
            AddressMode::ZeroPageY => 4,
            AddressMode::AbsoluteY => 4,
            _ => 2,
        },
        Instruction::LDY(mode) => match mode {
            AddressMode::Immediate => 2,
            AddressMode::ZeroPage => 3,
            AddressMode::Absolute => 4,
            AddressMode::ZeroPageX => 4,
            AddressMode::AbsoluteX => 4,
            _ => 2,
        },
        Instruction::LSR(mode) => match mode {
            AddressMode::ZeroPage => 5,
            AddressMode::Accumulator => 2,
            AddressMode::Absolute => 6,
            AddressMode::ZeroPageX => 6,
            AddressMode::AbsoluteX => 7,
            _ => 2,
        },
        Instruction::NOP(_) => 2,
        Instruction::ORA(mode) => match mode {
            AddressMode::IndirectX => 6,
            AddressMode::ZeroPage => 3,
            AddressMode::Immediate => 2,
            AddressMode::Absolute => 4,
            AddressMode::IndirectY => 5,
            AddressMode::ZeroPageX => 4,
            AddressMode::AbsoluteY => 4,
            AddressMode::AbsoluteX => 4,
            _ => 2,
        },
        Instruction::PHA(_) => 3,
        Instruction::PHP(_) => 3,
        Instruction::PLA(_) => 4,
        Instruction::PLP(_) => 4,
        Instruction::ROL(mode) => match mode {
            AddressMode::ZeroPage => 5,
            AddressMode::Accumulator => 2,
            AddressMode::Absolute => 6,
            AddressMode::ZeroPageX => 6,
            AddressMode::AbsoluteX => 7,
            _ => 2,
        },
        Instruction::ROR(mode) => match mode {
            AddressMode::ZeroPage => 5,
            AddressMode::Accumulator => 2,
            AddressMode::Absolute => 6,
            AddressMode::ZeroPageX => 6,
            AddressMode::AbsoluteX => 7,
            _ => 2,
        },
        Instruction::RTI(_) => 6,
        Instruction::RTS(_) => 6,
        Instruction::SBC(mode) => match mode {
            AddressMode::IndirectX => 6,
            AddressMode::ZeroPage => 3,
            AddressMode::Immediate => 2,
            AddressMode::Absolute => 4,
            AddressMode::IndirectY => 5,
            AddressMode::ZeroPageX => 4,
            AddressMode::AbsoluteY => 4,
            AddressMode::AbsoluteX => 4,
            _ => 2,
        },
        Instruction::SEC(_) => 2,
        Instruction::SED(_) => 2,
        Instruction::SEI(_) => 2,
        Instruction::STA(mode) => match mode {
            AddressMode::IndirectX => 6,
            AddressMode::ZeroPage => 3,
            AddressMode::Absolute => 4,
            AddressMode::IndirectY => 6,
            AddressMode::ZeroPageX => 4,
            AddressMode::AbsoluteY => 5,
            AddressMode::AbsoluteX => 5,
            _ => 2,
        },
        Instruction::STX(mode) => match mode {
            AddressMode::ZeroPage => 3,
            AddressMode::Absolute => 4,
            AddressMode::ZeroPageY => 4,
            _ => 2,
        },
        Instruction::STY(mode) => match mode {
            AddressMode::ZeroPage => 3,
            AddressMode::Absolute => 4,
            AddressMode::ZeroPageX => 4,
            _ => 2,
        },
        Instruction::TAX(_) => 2,
        Instruction::TAY(_) => 2,
        Instruction::TSX(_) => 2,
        Instruction::TXA(_) => 2,
        Instruction::TXS(_) => 2,
        Instruction::TYA(_) => 2,
        Instruction::AAC(_) => 2,
        Instruction::AAX(mode) => match mode {
            AddressMode::IndirectX => 6,
            AddressMode::ZeroPage => 3,
            AddressMode::Absolute => 4,
            AddressMode::ZeroPageY => 4,
            _ => 2,
        },
        Instruction::ARR(_) => 2,
        Instruction::ASR(_) => 2,
        Instruction::ATX(_) => 2,
        Instruction::AXA(_) => 2,
        Instruction::AXS(_) => 2,
        Instruction::DCP(mode) => match mode {
            AddressMode::IndirectX => 8,
            AddressMode::ZeroPage => 5,
            AddressMode::Absolute => 6,
            AddressMode::IndirectY => 8,
            AddressMode::ZeroPageX => 6,
            AddressMode::AbsoluteY => 7,
            AddressMode::AbsoluteX => 7,
            _ => 2,
        },
        Instruction::DOP(mode) => match mode {
            AddressMode::ZeroPage => 3,
            AddressMode::ZeroPageX => 4,
            AddressMode::Immediate => 2,
            _ => 2,
        },
        Instruction::ISC(mode) => match mode {
            AddressMode::IndirectX => 8,
            AddressMode::ZeroPage => 5,
            AddressMode::Absolute => 6,
            AddressMode::IndirectY => 8,
            AddressMode::ZeroPageX => 6,
            AddressMode::AbsoluteY => 7,
            AddressMode::AbsoluteX => 7,
            _ => 2,
        },
        Instruction::KIL(_) => 2,
        Instruction::LAR(_) => 2,
        Instruction::LAX(mode) => match mode {
            AddressMode::IndirectX => 6,
            AddressMode::ZeroPage => 3,
            AddressMode::Absolute => 4,
            AddressMode::IndirectY => 5,
            AddressMode::ZeroPageY => 4,
            AddressMode::AbsoluteY => 4,
            _ => 2,
        },
        Instruction::RLA(mode) => match mode {
            AddressMode::IndirectX => 8,
            AddressMode::ZeroPage => 5,
            AddressMode::Absolute => 6,
            AddressMode::IndirectY => 8,
            AddressMode::ZeroPageX => 6,
            AddressMode::AbsoluteY => 7,
            AddressMode::AbsoluteX => 7,
            _ => 2,
        },
        Instruction::RRA(mode) => match mode {
            AddressMode::IndirectX => 8,
            AddressMode::ZeroPage => 5,
            AddressMode::Absolute => 6,
            AddressMode::IndirectY => 8,
            AddressMode::ZeroPageX => 6,
            AddressMode::AbsoluteY => 7,
            AddressMode::AbsoluteX => 7,
            _ => 2,
        },
        Instruction::SLO(mode) => match mode {
            AddressMode::IndirectX => 8,
            AddressMode::ZeroPage => 5,
            AddressMode::Absolute => 6,
            AddressMode::IndirectY => 8,
            AddressMode::ZeroPageX => 6,
            AddressMode::AbsoluteY => 7,
            AddressMode::AbsoluteX => 7,
            _ => 2,
        },
        Instruction::SRE(mode) => match mode {
            AddressMode::IndirectX => 8,
            AddressMode::ZeroPage => 5,
            AddressMode::Absolute => 6,
            AddressMode::IndirectY => 8,
            AddressMode::ZeroPageX => 6,
            AddressMode::AbsoluteY => 7,
            AddressMode::AbsoluteX => 7,
            _ => 2,
        },
        Instruction::SXA(_) => 2,
        Instruction::SYA(_) => 2,
        Instruction::TOP(_) => 4,
        Instruction::XAA(_) => 2,
        Instruction::XAS(_) => 2,
    }
}

/// Looks up the base cycle count.
pub fn base_cycles(instruction: &Instruction) -> (c: u8)
    ensures
        c == base_cycles_spec(*instruction),
{
    match *instruction {
        Instruction::ADC(mode) => match mode {
            AddressMode::IndirectX => 6,
            AddressMode::ZeroPage => 3,
            AddressMode::Immediate => 2,
            AddressMode::Absolute => 4,
            AddressMode::IndirectY => 5,
            AddressMode::ZeroPageX => 4,
            AddressMode::AbsoluteY => 4,
            AddressMode::AbsoluteX => 4,
            _ => 2,
        },
        Instruction::AND(mode) => match mode {
            AddressMode::IndirectX => 6,
            AddressMode::ZeroPage => 3,
            AddressMode::Immediate => 2,
            AddressMode::Absolute => 4,
            AddressMode::IndirectY => 5,
            AddressMode::ZeroPageX => 4,
            AddressMode::AbsoluteY => 4,
            AddressMode::AbsoluteX => 4,
            _ => 2,
        },
        Instruction::ASL(mode) => match mode {
            AddressMode::ZeroPage => 5,
            AddressMode::Accumulator => 2,
            AddressMode::Absolute => 6,
            AddressMode::ZeroPageX => 6,
            AddressMode::AbsoluteX => 7,
            _ => 2,
        },
        Instruction::BCC(_) => 2,
        Instruction::BCS(_) => 2,
        Instruction::BEQ(_) => 2,
        Instruction::BIT(mode) => match mode {
            AddressMode::ZeroPage => 3,
            AddressMode::Absolute => 4,
            _ => 2,
        },
        Instruction::BMI(_) => 2,
        Instruction::BNE(_) => 2,
        Instruction::BPL(_) => 2,
        Instruction::BRK(_) => 7,
        Instruction::BVC(_) => 2,
        Instruction::BVS(_) => 2,
        Instruction::CLC(_) => 2,
        Instruction::CLD(_) => 2,
        Instruction::CLI(_) => 2,
        Instruction::CLV(_) => 2,
        Instruction::CMP(mode) => match mode {
            AddressMode::IndirectX => 6,
            AddressMode::ZeroPage => 3,
            AddressMode::Immediate => 2,
            AddressMode::Absolute => 4,
            AddressMode::IndirectY => 5,
            AddressMode::ZeroPageX => 4,
            AddressMode::AbsoluteY => 4,
            AddressMode::AbsoluteX => 4,
            _ => 2,
        },
        Instruction::CPX(mode) => match mode {
            AddressMode::Immediate => 2,
            AddressMode::ZeroPage => 3,
            AddressMode::Absolute => 4,
            _ => 2,
        },
        Instruction::CPY(mode) => match mode {
            AddressMode::Immediate => 2,
            AddressMode::ZeroPage => 3,
            AddressMode::Absolute => 4,
            _ => 2,
        },
        Instruction::DEC(mode) => match mode {
            AddressMode::ZeroPage => 5,
            AddressMode::Absolute => 6,
            AddressMode::ZeroPageX => 6,
            AddressMode::AbsoluteX => 7,
            _ => 2,
        },
        Instruction::DEX(_) => 2,
        Instruction::DEY(_) => 2,
        Instruction::EOR(mode) => match mode {
            AddressMode::IndirectX => 6,
            AddressMode::ZeroPage => 3,
            AddressMode::Immediate => 2,
            AddressMode::Absolute => 4,
            AddressMode::IndirectY => 5,
            AddressMode::ZeroPageX => 4,
            AddressMode::AbsoluteY => 4,
            AddressMode::AbsoluteX => 4,
            _ => 2,
        },
        Instruction::INC(mode) => match mode {
            AddressMode::ZeroPage => 5,
            AddressMode::Absolute => 6,
            AddressMode::ZeroPageX => 6,
            AddressMode::AbsoluteX => 7,
            _ => 2,
        },
        Instruction::INX(_) => 2,
        Instruction::INY(_) => 2,
        Instruction::JMP(mode) => match mode {
            AddressMode::Absolute => 3,
            AddressMode::Indirect => 5,
            _ => 2,
        },
        Instruction::JSR(_) => 6,
        Instruction::LDA(mode) => match mode {
            AddressMode::IndirectX => 6,
            AddressMode::ZeroPage => 3,
            AddressMode::Immediate => 2,
            AddressMode::Absolute => 4,
            AddressMode::IndirectY => 5,
            AddressMode::ZeroPageX => 4,
            AddressMode::AbsoluteY => 4,
            AddressMode::AbsoluteX => 4,
            _ => 2,
        },
        Instruction::LDX(mode) => match mode {
            AddressMode::Immediate => 2,
            AddressMode::ZeroPage => 3,
            AddressMode::Absolute => 4,
            AddressMode::ZeroPageY => 4,
            AddressMode::AbsoluteY => 4,
            _ => 2,
        },
        Instruction::LDY(mode) => match mode {
            AddressMode::Immediate => 2,
            AddressMode::ZeroPage => 3,
            AddressMode::Absolute => 4,
            AddressMode::ZeroPageX => 4,
            AddressMode::AbsoluteX => 4,
            _ => 2,
        },
        Instruction::LSR(mode) => match mode {
            AddressMode::ZeroPage => 5,
            AddressMode::Accumulator => 2,
            AddressMode::Absolute => 6,
            AddressMode::ZeroPageX => 6,
            AddressMode::AbsoluteX => 7,
            _ => 2,
        },
        Instruction::NOP(_) => 2,
        Instruction::ORA(mode) => match mode {
            AddressMode::IndirectX => 6,
            AddressMode::ZeroPage => 3,
            AddressMode::Immediate => 2,
            AddressMode::Absolute => 4,
            AddressMode::IndirectY => 5,
            AddressMode::ZeroPageX => 4,
            AddressMode::AbsoluteY => 4,
            AddressMode::AbsoluteX => 4,
            _ => 2,
        },
        Instruction::PHA(_) => 3,
        Instruction::PHP(_) => 3,
        Instruction::PLA(_) => 4,
        Instruction::PLP(_) => 4,
        Instruction::ROL(mode) => match mode {
            AddressMode::ZeroPage => 5,
            AddressMode::Accumulator => 2,
            AddressMode::Absolute => 6,
            AddressMode::ZeroPageX => 6,
            AddressMode::AbsoluteX => 7,
            _ => 2,
        },
        Instruction::ROR(mode) => match mode {
            AddressMode::ZeroPage => 5,
            AddressMode::Accumulator => 2,
            AddressMode::Absolute => 6,
            AddressMode::ZeroPageX => 6,
            AddressMode::AbsoluteX => 7,
            _ => 2,
        },
        Instruction::RTI(_) => 6,
        Instruction::RTS(_) => 6,
        Instruction::SBC(mode) => match mode {
            AddressMode::IndirectX => 6,
            AddressMode::ZeroPage => 3,
            AddressMode::Immediate => 2,
            AddressMode::Absolute => 4,
            AddressMode::IndirectY => 5,
            AddressMode::ZeroPageX => 4,
            AddressMode::AbsoluteY => 4,
            AddressMode::AbsoluteX => 4,
            _ => 2,
        },
        Instruction::SEC(_) => 2,
        Instruction::SED(_) => 2,
        Instruction::SEI(_) => 2,
        Instruction::STA(mode) => match mode {
            AddressMode::IndirectX => 6,
            AddressMode::ZeroPage => 3,
            AddressMode::Absolute => 4,
            AddressMode::IndirectY => 6,
            AddressMode::ZeroPageX => 4,
            AddressMode::AbsoluteY => 5,
            AddressMode::AbsoluteX => 5,
            _ => 2,
        },
        Instruction::STX(mode) => match mode {
            AddressMode::ZeroPage => 3,
            AddressMode::Absolute => 4,
            AddressMode::ZeroPageY => 4,
            _ => 2,
        },
        Instruction::STY(mode) => match mode {
            AddressMode::ZeroPage => 3,
            AddressMode::Absolute => 4,
            AddressMode::ZeroPageX => 4,
            _ => 2,
        },
        Instruction::TAX(_) => 2,
        Instruction::TAY(_) => 2,
        Instruction::TSX(_) => 2,
        Instruction::TXA(_) => 2,
        Instruction::TXS(_) => 2,
        Instruction::TYA(_) => 2,
        Instruction::AAC(_) => 2,
        Instruction::AAX(mode) => match mode {
            AddressMode::IndirectX => 6,
            AddressMode::ZeroPage => 3,
            AddressMode::Absolute => 4,
            AddressMode::ZeroPageY => 4,
            _ => 2,
        },
        Instruction::ARR(_) => 2,
        Instruction::ASR(_) => 2,
        Instruction::ATX(_) => 2,
        Instruction::AXA(_) => 2,
        Instruction::AXS(_) => 2,
        Instruction::DCP(mode) => match mode {
            AddressMode::IndirectX => 8,
            AddressMode::ZeroPage => 5,
            AddressMode::Absolute => 6,
            AddressMode::IndirectY => 8,
            AddressMode::ZeroPageX => 6,
            AddressMode::AbsoluteY => 7,
            AddressMode::AbsoluteX => 7,
            _ => 2,
        },
        Instruction::DOP(mode) => match mode {
            AddressMode::ZeroPage => 3,
            AddressMode::ZeroPageX => 4,
            AddressMode::Immediate => 2,
            _ => 2,
        },
        Instruction::ISC(mode) => match mode {
            AddressMode::IndirectX => 8,
            AddressMode::ZeroPage => 5,
            AddressMode::Absolute => 6,
            AddressMode::IndirectY => 8,
            AddressMode::ZeroPageX => 6,
            AddressMode::AbsoluteY => 7,
            AddressMode::AbsoluteX => 7,
            _ => 2,
        },
        Instruction::KIL(_) => 2,
        Instruction::LAR(_) => 2,
        Instruction::LAX(mode) => match mode {
            AddressMode::IndirectX => 6,
            AddressMode::ZeroPage => 3,
            AddressMode::Absolute => 4,
            AddressMode::IndirectY => 5,
            AddressMode::ZeroPageY => 4,
            AddressMode::AbsoluteY => 4,
            _ => 2,
        },
        Instruction::RLA(mode) => match mode {
            AddressMode::IndirectX => 8,
            AddressMode::ZeroPage => 5,
            AddressMode::Absolute => 6,
            AddressMode::IndirectY => 8,
            AddressMode::ZeroPageX => 6,
            AddressMode::AbsoluteY => 7,
            AddressMode::AbsoluteX => 7,
            _ => 2,
        },
        Instruction::RRA(mode) => match mode {
            AddressMode::IndirectX => 8,
            AddressMode::ZeroPage => 5,
            AddressMode::Absolute => 6,
            AddressMode::IndirectY => 8,
            AddressMode::ZeroPageX => 6,
            AddressMode::AbsoluteY => 7,
            AddressMode::AbsoluteX => 7,
            _ => 2,
        },
        Instruction::SLO(mode) => match mode {
            AddressMode::IndirectX => 8,
            AddressMode::ZeroPage => 5,
            AddressMode::Absolute => 6,
            AddressMode::IndirectY => 8,
            AddressMode::ZeroPageX => 6,
            AddressMode::AbsoluteY => 7,
            AddressMode::AbsoluteX => 7,
            _ => 2,
        },
        Instruction::SRE(mode) => match mode {
            AddressMode::IndirectX => 8,
            AddressMode::ZeroPage => 5,
            AddressMode::Absolute => 6,
            AddressMode::IndirectY => 8,
            AddressMode::ZeroPageX => 6,
            AddressMode::AbsoluteY => 7,
            AddressMode::AbsoluteX => 7,
            _ => 2,
        },
        Instruction::SXA(_) => 2,
        Instruction::SYA(_) => 2,
        Instruction::TOP(_) => 4,
        Instruction::XAA(_) => 2,
        Instruction::XAS(_) => 2,
    }
}


// ---------------------------------------------------------------------------
// State transformers: what each instruction does to the registers, as a
// function of the operand byte it read.
// ---------------------------------------------------------------------------

/// The registers with the program counter moved past `n` operand bytes.
pub open spec fn pc_plus(c: Cpu, n: u16) -> Cpu {
    Cpu { program_counter: wrap_add16(c.program_counter, n), ..c }
}

/// RAM after a store at a CPU address: a write below 0x2000 lands in RAM
/// through the mirror; any other address leaves RAM alone.
pub open spec fn ram_after_write(ram: Seq<u8>, address: int, v: u8) -> Seq<u8> {
    if address < 0x2000 {
        ram.update(ram_index(address), v)
    } else {
        ram
    }
}

/// ADC: accumulator and flags after adding the operand and the carry.
pub open spec fn cpu_after_adc(c: Cpu, m: u8) -> Cpu {
    Cpu {
        accumulator: adc_output(c.accumulator, m, bit_set(c.status.bits, CARRY)),
        status: Status {
            bits: status_after_adc(c.status.bits, c.accumulator, m, bit_set(c.status.bits, CARRY)),
        },
        ..c
    }
}

/// SBC is ADC of the one's complement of the operand.
pub open spec fn cpu_after_sbc(c: Cpu, m: u8) -> Cpu {
    cpu_after_adc(c, !m)
}

/// AND: accumulator conjunction with Negative and Zero.
pub open spec fn cpu_after_and(c: Cpu, m: u8) -> Cpu {
    Cpu {
        accumulator: c.accumulator & m,
        status: Status { bits: nz(c.status.bits, c.accumulator & m) },
        ..c
    }
}

/// EOR: accumulator exclusive-or with Negative and Zero.
pub open spec fn cpu_after_eor(c: Cpu, m: u8) -> Cpu {
    Cpu {
        accumulator: c.accumulator ^ m,
        status: Status { bits: nz(c.status.bits, c.accumulator ^ m) },
        ..c
    }
}

/// ORA: accumulator disjunction with Negative and Zero.
pub open spec fn cpu_after_ora(c: Cpu, m: u8) -> Cpu {
    Cpu {
        accumulator: c.accumulator | m,
        status: Status { bits: nz(c.status.bits, c.accumulator | m) },
        ..c
    }
}

/// LDA: the operand into the accumulator with Negative and Zero.
pub open spec fn cpu_after_lda(c: Cpu, m: u8) -> Cpu {
    Cpu { accumulator: m, status: Status { bits: nz(c.status.bits, m) }, ..c }
}

/// LDX: the operand into X with Negative and Zero.
pub open spec fn cpu_after_ldx(c: Cpu, m: u8) -> Cpu {
    Cpu { index_x: m, status: Status { bits: nz(c.status.bits, m) }, ..c }
}

/// LDY: the operand into Y with Negative and Zero.
pub open spec fn cpu_after_ldy(c: Cpu, m: u8) -> Cpu {
    Cpu { index_y: m, status: Status { bits: nz(c.status.bits, m) }, ..c }
}

/// LAX: the operand into both the accumulator and X.
pub open spec fn cpu_after_lax(c: Cpu, m: u8) -> Cpu {
    Cpu { accumulator: m, index_x: m, status: Status { bits: nz(c.status.bits, m) }, ..c }
}

/// A compare of `left` against the operand: flags only.
pub open spec fn cpu_after_compare(c: Cpu, left: u8, m: u8) -> Cpu {
    Cpu { status: Status { bits: status_after_compare(c.status.bits, left, m) }, ..c }
}

/// BIT: flags from the accumulator test and from bits 7 and 6 of the operand.
pub open spec fn cpu_after_bit(c: Cpu, m: u8) -> Cpu {
    Cpu { status: Status { bits: status_after_bit(c.status.bits, c.accumulator, m) }, ..c }
}

/// AAC: AND the operand into the flags; Carry mirrors Negative.
pub open spec fn cpu_after_aac(c: Cpu, m: u8) -> Cpu {
    Cpu {
        status: Status {
            bits: with_flag(
                with_flag(c.status.bits, NEGATIVE | CARRY, bit_set(c.accumulator & m, NEGATIVE)),
                ZERO,
                c.accumulator & m == 0,
            ),
        },
        ..c
    }
}

/// ASR: AND the operand into the accumulator, then shift it right.
pub open spec fn cpu_after_asr(c: Cpu, m: u8) -> Cpu {
    Cpu {
        accumulator: ((c.accumulator & m) / 2) as u8,
        status: Status {
            bits: status_after_lsr(
                c.status.bits,
                bit_set(c.accumulator & m, 0x01),
                ((c.accumulator & m) / 2) as u8,
            ),
        },
        ..c
    }
}

/// ARR: AND the operand into the accumulator and rotate right; Carry comes
/// from bit 6 of the result and Overflow from bits 6 and 5 disagreeing.
pub open spec fn cpu_after_arr(c: Cpu, m: u8) -> Cpu {
    let r = ror_output(c.accumulator & m, bit_set(c.status.bits, CARRY));
    Cpu {
        accumulator: r,
        status: Status {
            bits: with_flag(
                with_flag(
                    with_flag(
                        with_flag(c.status.bits, NEGATIVE, bit_set(r, NEGATIVE)),
                        ZERO,
                        r == 0,
                    ),
                    CARRY,
                    bit_set(r, 0x40),
                ),
                OVERFLOW,
                bit_set(r, 0x40) != bit_set(r, 0x20),
            ),
        },
        ..c
    }
}

/// AXS: X becomes A AND X minus the operand, with compare-style Carry.
pub open spec fn cpu_after_axs(c: Cpu, m: u8) -> Cpu {
    let t = c.accumulator & c.index_x;
    Cpu {
        index_x: sub_output(t, m),
        status: Status {
            bits: nz(with_flag(c.status.bits, CARRY, t >= m), sub_output(t, m)),
        },
        ..c
    }
}

/// Adds the operand and the carry into the accumulator. For some operand byte the bus handed back, the registers are the
/// ADC transform of that byte; the base cycles are charged, plus the
/// page-cross penalty in an indexed mode.
pub fn adc<C: Cartridge + Memory>(bus: &mut Bus<C>, address_mode: &AddressMode)
    requires
        old(bus).wf(),
        is_operand_mode(*address_mode),
        old(bus).clock + 16 <= i64::MAX,
    ensures
        final(bus).wf(),
        bit_set(old(bus).cpu.status.bits, UNUSED) ==> bit_set(final(bus).cpu.status.bits, UNUSED),
        final(bus).ram.memory@ == old(bus).ram.memory@,
        exists|a: int, m: u8|
            #[trigger] operand_rel(*old(bus), *address_mode, a, m) && final(bus).cpu == cpu_after_adc(
                pc_plus(old(bus).cpu, operand_len(*address_mode)),
                m,
            ),
        !penalty_mode(*address_mode) ==> final(bus).clock == old(bus).clock + base_cycles_spec(
            Instruction::ADC(*address_mode),
        ),
        penalty_mode(*address_mode) ==> old(bus).clock + base_cycles_spec(
            Instruction::ADC(*address_mode),
        ) <= final(bus).clock <= old(bus).clock + base_cycles_spec(
            Instruction::ADC(*address_mode),
        ) + 1,
{
    proof {
        crate::cpu::lemma_flag_updates_keep_unused();
    }
    let (address, is_same_page) = decode_address(bus, address_mode);
    let param = bus.read(address);
    crate::cpu::adc_value(&mut bus.cpu, param);
    bus.tick(base_cycles(&Instruction::ADC(*address_mode)) as i64);
    cycle_rule_one(bus, address_mode, is_same_page);
    proof {
        assert(operand_rel(*old(bus), *address_mode, address as int, param));
        assert(final(bus).cpu == cpu_after_adc(
            pc_plus(old(bus).cpu, operand_len(*address_mode)),
            param,
        ));
    }
}

/// Ands the operand into the accumulator. For some operand byte the bus handed back, the registers are the
/// AND transform of that byte; the base cycles are charged, plus the
/// page-cross penalty in an indexed mode.
pub fn and<C: Cartridge + Memory>(bus: &mut Bus<C>, address_mode: &AddressMode)
    requires
        old(bus).wf(),
        is_operand_mode(*address_mode),
        old(bus).clock + 16 <= i64::MAX,
    ensures
        final(bus).wf(),
        bit_set(old(bus).cpu.status.bits, UNUSED) ==> bit_set(final(bus).cpu.status.bits, UNUSED),
        final(bus).ram.memory@ == old(bus).ram.memory@,
        exists|a: int, m: u8|
            #[trigger] operand_rel(*old(bus), *address_mode, a, m) && final(bus).cpu == cpu_after_and(
                pc_plus(old(bus).cpu, operand_len(*address_mode)),
                m,
            ),
        !penalty_mode(*address_mode) ==> final(bus).clock == old(bus).clock + base_cycles_spec(
            Instruction::AND(*address_mode),
        ),
        penalty_mode(*address_mode) ==> old(bus).clock + base_cycles_spec(
            Instruction::AND(*address_mode),
        ) <= final(bus).clock <= old(bus).clock + base_cycles_spec(
            Instruction::AND(*address_mode),
        ) + 1,
{
    proof {
        crate::cpu::lemma_flag_updates_keep_unused();
    }
    let (address, is_same_page) = decode_address(bus, address_mode);
    let param = bus.read(address);
    let result = bus.cpu.accumulator & param;
    crate::cpu::load_accumulator(&mut bus.cpu, result);
    bus.tick(base_cycles(&Instruction::AND(*address_mode)) as i64);
    cycle_rule_one(bus, address_mode, is_same_page);
    proof {
        assert(operand_rel(*old(bus), *address_mode, address as int, param));
        assert(final(bus).cpu == cpu_after_and(
            pc_plus(old(bus).cpu, operand_len(*address_mode)),
            param,
        ));
    }
}

/// Exclusive-ors the operand into the accumulator. For some operand byte the bus handed back, the registers are the
/// EOR transform of that byte; the base cycles are charged, plus the
/// page-cross penalty in an indexed mode.
pub fn eor<C: Cartridge + Memory>(bus: &mut Bus<C>, address_mode: &AddressMode)
    requires
        old(bus).wf(),
        is_operand_mode(*address_mode),
        old(bus).clock + 16 <= i64::MAX,
    ensures
        final(bus).wf(),
        bit_set(old(bus).cpu.status.bits, UNUSED) ==> bit_set(final(bus).cpu.status.bits, UNUSED),
        final(bus).ram.memory@ == old(bus).ram.memory@,
        exists|a: int, m: u8|
            #[trigger] operand_rel(*old(bus), *address_mode, a, m) && final(bus).cpu == cpu_after_eor(
                pc_plus(old(bus).cpu, operand_len(*address_mode)),
                m,
            ),
        !penalty_mode(*address_mode) ==> final(bus).clock == old(bus).clock + base_cycles_spec(
            Instruction::EOR(*address_mode),
        ),
        penalty_mode(*address_mode) ==> old(bus).clock + base_cycles_spec(
            Instruction::EOR(*address_mode),
        ) <= final(bus).clock <= old(bus).clock + base_cycles_spec(
            Instruction::EOR(*address_mode),
        ) + 1,
{
    proof {
        crate::cpu::lemma_flag_updates_keep_unused();
    }
    let (address, is_same_page) = decode_address(bus, address_mode);
    let param = bus.read(address);
    let result = bus.cpu.accumulator ^ param;
    crate::cpu::load_accumulator(&mut bus.cpu, result);
    bus.tick(base_cycles(&Instruction::EOR(*address_mode)) as i64);
    cycle_rule_one(bus, address_mode, is_same_page);
    proof {
        assert(operand_rel(*old(bus), *address_mode, address as int, param));
        assert(final(bus).cpu == cpu_after_eor(
            pc_plus(old(bus).cpu, operand_len(*address_mode)),
            param,
        ));
    }
}

/// Ors the operand into the accumulator. For some operand byte the bus handed back, the registers are the
/// ORA transform of that byte; the base cycles are charged, plus the
/// page-cross penalty in an indexed mode.
pub fn ora<C: Cartridge + Memory>(bus: &mut Bus<C>, address_mode: &AddressMode)
    requires
        old(bus).wf(),
        is_operand_mode(*address_mode),
        old(bus).clock + 16 <= i64::MAX,
    ensures
        final(bus).wf(),
        bit_set(old(bus).cpu.status.bits, UNUSED) ==> bit_set(final(bus).cpu.status.bits, UNUSED),
        final(bus).ram.memory@ == old(bus).ram.memory@,
        exists|a: int, m: u8|
            #[trigger] operand_rel(*old(bus), *address_mode, a, m) && final(bus).cpu == cpu_after_ora(
                pc_plus(old(bus).cpu, operand_len(*address_mode)),
                m,
            ),
        !penalty_mode(*address_mode) ==> final(bus).clock == old(bus).clock + base_cycles_spec(
            Instruction::ORA(*address_mode),
        ),
        penalty_mode(*address_mode) ==> old(bus).clock + base_cycles_spec(
            Instruction::ORA(*address_mode),
        ) <= final(bus).clock <= old(bus).clock + base_cycles_spec(
            Instruction::ORA(*address_mode),
        ) + 1,
{
    proof {
        crate::cpu::lemma_flag_updates_keep_unused();
    }
    let (address, is_same_page) = decode_address(bus, address_mode);
    let param = bus.read(address);
    let result = bus.cpu.accumulator | param;
    crate::cpu::load_accumulator(&mut bus.cpu, result);
    bus.tick(base_cycles(&Instruction::ORA(*address_mode)) as i64);
    cycle_rule_one(bus, address_mode, is_same_page);
    proof {
        assert(operand_rel(*old(bus), *address_mode, address as int, param));
        assert(final(bus).cpu == cpu_after_ora(
            pc_plus(old(bus).cpu, operand_len(*address_mode)),
            param,
        ));
    }
}

/// Loads the operand into the accumulator. For some operand byte the bus handed back, the registers are the
/// LDA transform of that byte; the base cycles are charged, plus the
/// page-cross penalty in an indexed mode.
pub fn lda<C: Cartridge + Memory>(bus: &mut Bus<C>, address_mode: &AddressMode)
    requires
        old(bus).wf(),
        is_operand_mode(*address_mode),
        old(bus).clock + 16 <= i64::MAX,
    ensures
        final(bus).wf(),
        bit_set(old(bus).cpu.status.bits, UNUSED) ==> bit_set(final(bus).cpu.status.bits, UNUSED),
        final(bus).ram.memory@ == old(bus).ram.memory@,
        exists|a: int, m: u8|
            #[trigger] operand_rel(*old(bus), *address_mode, a, m) && final(bus).cpu == cpu_after_lda(
                pc_plus(old(bus).cpu, operand_len(*address_mode)),
                m,
            ),
        !penalty_mode(*address_mode) ==> final(bus).clock == old(bus).clock + base_cycles_spec(
            Instruction::LDA(*address_mode),
        ),
        penalty_mode(*address_mode) ==> old(bus).clock + base_cycles_spec(
            Instruction::LDA(*address_mode),
        ) <= final(bus).clock <= old(bus).clock + base_cycles_spec(
            Instruction::LDA(*address_mode),
        ) + 1,
{
    proof {
        crate::cpu::lemma_flag_updates_keep_unused();
    }
    let (address, is_same_page) = decode_address(bus, address_mode);
    let param = bus.read(address);
    crate::cpu::load_accumulator(&mut bus.cpu, param);
    bus.tick(base_cycles(&Instruction::LDA(*address_mode)) as i64);
    cycle_rule_one(bus, address_mode, is_same_page);
    proof {
        assert(operand_rel(*old(bus), *address_mode, address as int, param));
        assert(final(bus).cpu == cpu_after_lda(
            pc_plus(old(bus).cpu, operand_len(*address_mode)),
            param,
        ));
    }
}

/// Loads the operand into X. For some operand byte the bus handed back, the registers are the
/// LDX transform of that byte; the base cycles are charged, plus the
/// page-cross penalty in an indexed mode.
pub fn ldx<C: Cartridge + Memory>(bus: &mut Bus<C>, address_mode: &AddressMode)
    requires
        old(bus).wf(),
        is_operand_mode(*address_mode),
        old(bus).clock + 16 <= i64::MAX,
    ensures
        final(bus).wf(),
        bit_set(old(bus).cpu.status.bits, UNUSED) ==> bit_set(final(bus).cpu.status.bits, UNUSED),
        final(bus).ram.memory@ == old(bus).ram.memory@,
        exists|a: int, m: u8|
            #[trigger] operand_rel(*old(bus), *address_mode, a, m) && final(bus).cpu == cpu_after_ldx(
                pc_plus(old(bus).cpu, operand_len(*address_mode)),
                m,
            ),
        !penalty_mode(*address_mode) ==> final(bus).clock == old(bus).clock + base_cycles_spec(
            Instruction::LDX(*address_mode),
        ),
        penalty_mode(*address_mode) ==> old(bus).clock + base_cycles_spec(
            Instruction::LDX(*address_mode),
        ) <= final(bus).clock <= old(bus).clock + base_cycles_spec(
            Instruction::LDX(*address_mode),
        ) + 1,
{
    proof {
        crate::cpu::lemma_flag_updates_keep_unused();
    }
    let (address, is_same_page) = decode_address(bus, address_mode);
    let param = bus.read(address);
    crate::cpu::load_index_x(&mut bus.cpu, param);
    bus.tick(base_cycles(&Instruction::LDX(*address_mode)) as i64);
    cycle_rule_one(bus, address_mode, is_same_page);
    proof {
        assert(operand_rel(*old(bus), *address_mode, address as int, param));
        assert(final(bus).cpu == cpu_after_ldx(
            pc_plus(old(bus).cpu, operand_len(*address_mode)),
            param,
        ));
    }
}

/// Loads the operand into Y. For some operand byte the bus handed back, the registers are the
/// LDY transform of that byte; the base cycles are charged, plus the
/// page-cross penalty in an indexed mode.
pub fn ldy<C: Cartridge + Memory>(bus: &mut Bus<C>, address_mode: &AddressMode)
    requires
        old(bus).wf(),
        is_operand_mode(*address_mode),
        old(bus).clock + 16 <= i64::MAX,
    ensures
        final(bus).wf(),
        bit_set(old(bus).cpu.status.bits, UNUSED) ==> bit_set(final(bus).cpu.status.bits, UNUSED),
        final(bus).ram.memory@ == old(bus).ram.memory@,
        exists|a: int, m: u8|
            #[trigger] operand_rel(*old(bus), *address_mode, a, m) && final(bus).cpu == cpu_after_ldy(
                pc_plus(old(bus).cpu, operand_len(*address_mode)),
                m,
            ),
        !penalty_mode(*address_mode) ==> final(bus).clock == old(bus).clock + base_cycles_spec(
            Instruction::LDY(*address_mode),
        ),
        penalty_mode(*address_mode) ==> old(bus).clock + base_cycles_spec(
            Instruction::LDY(*address_mode),
        ) <= final(bus).clock <= old(bus).clock + base_cycles_spec(
            Instruction::LDY(*address_mode),
        ) + 1,
{
    proof {
        crate::cpu::lemma_flag_updates_keep_unused();
    }
    let (address, is_same_page) = decode_address(bus, address_mode);
    let param = bus.read(address);
    crate::cpu::load_index_y(&mut bus.cpu, param);
    bus.tick(base_cycles(&Instruction::LDY(*address_mode)) as i64);
    cycle_rule_one(bus, address_mode, is_same_page);
    proof {
        assert(operand_rel(*old(bus), *address_mode, address as int, param));
        assert(final(bus).cpu == cpu_after_ldy(
            pc_plus(old(bus).cpu, operand_len(*address_mode)),
            param,
        ));
    }
}

/// Tests the accumulator against the operand. For some operand byte the bus handed back, the registers are the
/// BIT transform of that byte; the base cycles are charged, plus the
/// page-cross penalty in an indexed mode.
pub fn bit<C: Cartridge + Memory>(bus: &mut Bus<C>, address_mode: &AddressMode)
    requires
        old(bus).wf(),
        is_operand_mode(*address_mode),
        old(bus).clock + 16 <= i64::MAX,
    ensures
        final(bus).wf(),
        bit_set(old(bus).cpu.status.bits, UNUSED) ==> bit_set(final(bus).cpu.status.bits, UNUSED),
        final(bus).ram.memory@ == old(bus).ram.memory@,
        exists|a: int, m: u8|
            #[trigger] operand_rel(*old(bus), *address_mode, a, m) && final(bus).cpu == cpu_after_bit(
                pc_plus(old(bus).cpu, operand_len(*address_mode)),
                m,
            ),
        !penalty_mode(*address_mode) ==> final(bus).clock == old(bus).clock + base_cycles_spec(
            Instruction::BIT(*address_mode),
        ),
        penalty_mode(*address_mode) ==> old(bus).clock + base_cycles_spec(
            Instruction::BIT(*address_mode),
        ) <= final(bus).clock <= old(bus).clock + base_cycles_spec(
            Instruction::BIT(*address_mode),
        ) + 1,
{
    proof {
        crate::cpu::lemma_flag_updates_keep_unused();
    }
    let (address, is_same_page) = decode_address(bus, address_mode);
    let param = bus.read(address);
    crate::cpu::bit_value(&mut bus.cpu, param);
    bus.tick(base_cycles(&Instruction::BIT(*address_mode)) as i64);
    cycle_rule_one(bus, address_mode, is_same_page);
    proof {
        assert(operand_rel(*old(bus), *address_mode, address as int, param));
        assert(final(bus).cpu == cpu_after_bit(
            pc_plus(old(bus).cpu, operand_len(*address_mode)),
            param,
        ));
    }
}

/// Loads the operand into the accumulator and X at once. For some operand byte the bus handed back, the registers are the
/// LAX transform of that byte; the base cycles are charged, plus the
/// page-cross penalty in an indexed mode.
pub fn lax<C: Cartridge + Memory>(bus: &mut Bus<C>, address_mode: &AddressMode)
    requires
        old(bus).wf(),
        is_operand_mode(*address_mode),
        old(bus).clock + 16 <= i64::MAX,
    ensures
        final(bus).wf(),
        bit_set(old(bus).cpu.status.bits, UNUSED) ==> bit_set(final(bus).cpu.status.bits, UNUSED),
        final(bus).ram.memory@ == old(bus).ram.memory@,
        exists|a: int, m: u8|
            #[trigger] operand_rel(*old(bus), *address_mode, a, m) && final(bus).cpu == cpu_after_lax(
                pc_plus(old(bus).cpu, operand_len(*address_mode)),
                m,
            ),
        !penalty_mode(*address_mode) ==> final(bus).clock == old(bus).clock + base_cycles_spec(
            Instruction::LAX(*address_mode),
        ),
        penalty_mode(*address_mode) ==> old(bus).clock + base_cycles_spec(
            Instruction::LAX(*address_mode),
        ) <= final(bus).clock <= old(bus).clock + base_cycles_spec(
            Instruction::LAX(*address_mode),
        ) + 1,
{
    proof {
        crate::cpu::lemma_flag_updates_keep_unused();
    }
    let (address, is_same_page) = decode_address(bus, address_mode);
    let param = bus.read(address);
    bus.cpu.accumulator = param;
    bus.cpu.index_x = param;
    crate::cpu::test_and_set_negative_flag(&mut bus.cpu, param);
    crate::cpu::test_and_set_zero_flag(&mut bus.cpu, param);
    bus.tick(base_cycles(&Instruction::LAX(*address_mode)) as i64);
    cycle_rule_one(bus, address_mode, is_same_page);
    proof {
        assert(operand_rel(*old(bus), *address_mode, address as int, param));
        assert(final(bus).cpu == cpu_after_lax(
            pc_plus(old(bus).cpu, operand_len(*address_mode)),
            param,
        ));
    }
}

/// Ands the operand into the flags, Carry mirroring Negative. For some operand byte the bus handed back, the registers are the
/// AAC transform of that byte; the base cycles are charged, plus the
/// page-cross penalty in an indexed mode.
pub fn aac<C: Cartridge + Memory>(bus: &mut Bus<C>, address_mode: &AddressMode)
    requires
        old(bus).wf(),
        is_operand_mode(*address_mode),
        old(bus).clock + 16 <= i64::MAX,
    ensures
        final(bus).wf(),
        bit_set(old(bus).cpu.status.bits, UNUSED) ==> bit_set(final(bus).cpu.status.bits, UNUSED),
        final(bus).ram.memory@ == old(bus).ram.memory@,
        exists|a: int, m: u8|
            #[trigger] operand_rel(*old(bus), *address_mode, a, m) && final(bus).cpu == cpu_after_aac(
                pc_plus(old(bus).cpu, operand_len(*address_mode)),
                m,
            ),
        !penalty_mode(*address_mode) ==> final(bus).clock == old(bus).clock + base_cycles_spec(
            Instruction::AAC(*address_mode),
        ),
        penalty_mode(*address_mode) ==> old(bus).clock + base_cycles_spec(
            Instruction::AAC(*address_mode),
        ) <= final(bus).clock <= old(bus).clock + base_cycles_spec(
            Instruction::AAC(*address_mode),
        ) + 1,
{
    proof {
        crate::cpu::lemma_flag_updates_keep_unused();
    }
    let (address, is_same_page) = decode_address(bus, address_mode);
    let param = bus.read(address);
    let result = bus.cpu.accumulator & param;
    let is_negative = result & NEGATIVE != 0;
    bus.cpu.status.set_flags(Status::from_bits(NEGATIVE | CARRY), is_negative);
    bus.cpu.status.set_flags(Status::from_bits(ZERO), result == 0);
    bus.tick(base_cycles(&Instruction::AAC(*address_mode)) as i64);
    cycle_rule_one(bus, address_mode, is_same_page);
    proof {
        assert(operand_rel(*old(bus), *address_mode, address as int, param));
        assert(final(bus).cpu == cpu_after_aac(
            pc_plus(old(bus).cpu, operand_len(*address_mode)),
            param,
        ));
    }
}

/// Ands the operand into the accumulator and shifts it right. For some operand byte the bus handed back, the registers are the
/// ASR transform of that byte; the base cycles are charged, plus the
/// page-cross penalty in an indexed mode.
pub fn asr<C: Cartridge + Memory>(bus: &mut Bus<C>, address_mode: &AddressMode)
    requires
        old(bus).wf(),
        is_operand_mode(*address_mode),
        old(bus).clock + 16 <= i64::MAX,
    ensures
        final(bus).wf(),
        bit_set(old(bus).cpu.status.bits, UNUSED) ==> bit_set(final(bus).cpu.status.bits, UNUSED),
        final(bus).ram.memory@ == old(bus).ram.memory@,
        exists|a: int, m: u8|
            #[trigger] operand_rel(*old(bus), *address_mode, a, m) && final(bus).cpu == cpu_after_asr(
                pc_plus(old(bus).cpu, operand_len(*address_mode)),
                m,
            ),
        !penalty_mode(*address_mode) ==> final(bus).clock == old(bus).clock + base_cycles_spec(
            Instruction::ASR(*address_mode),
        ),
        penalty_mode(*address_mode) ==> old(bus).clock + base_cycles_spec(
            Instruction::ASR(*address_mode),
        ) <= final(bus).clock <= old(bus).clock + base_cycles_spec(
            Instruction::ASR(*address_mode),
        ) + 1,
{
    proof {
        crate::cpu::lemma_flag_updates_keep_unused();
    }
    let (address, is_same_page) = decode_address(bus, address_mode);
    let param = bus.read(address);
    let anded = bus.cpu.accumulator & param;
    let result = crate::cpu::lsr_value(&mut bus.cpu, anded);
    bus.cpu.accumulator = result;
    bus.tick(base_cycles(&Instruction::ASR(*address_mode)) as i64);
    cycle_rule_one(bus, address_mode, is_same_page);
    proof {
        assert(operand_rel(*old(bus), *address_mode, address as int, param));
        assert(final(bus).cpu == cpu_after_asr(
            pc_plus(old(bus).cpu, operand_len(*address_mode)),
            param,
        ));
    }
}

/// Ands the operand into the accumulator and rotates it right. For some operand byte the bus handed back, the registers are the
/// ARR transform of that byte; the base cycles are charged, plus the
/// page-cross penalty in an indexed mode.
pub fn arr<C: Cartridge + Memory>(bus: &mut Bus<C>, address_mode: &AddressMode)
    requires
        old(bus).wf(),
        is_operand_mode(*address_mode),
        old(bus).clock + 16 <= i64::MAX,
    ensures
        final(bus).wf(),
        bit_set(old(bus).cpu.status.bits, UNUSED) ==> bit_set(final(bus).cpu.status.bits, UNUSED),
        final(bus).ram.memory@ == old(bus).ram.memory@,
        exists|a: int, m: u8|
            #[trigger] operand_rel(*old(bus), *address_mode, a, m) && final(bus).cpu == cpu_after_arr(
                pc_plus(old(bus).cpu, operand_len(*address_mode)),
                m,
            ),
        !penalty_mode(*address_mode) ==> final(bus).clock == old(bus).clock + base_cycles_spec(
            Instruction::ARR(*address_mode),
        ),
        penalty_mode(*address_mode) ==> old(bus).clock + base_cycles_spec(
            Instruction::ARR(*address_mode),
        ) <= final(bus).clock <= old(bus).clock + base_cycles_spec(
            Instruction::ARR(*address_mode),
        ) + 1,
{
    proof {
        crate::cpu::lemma_flag_updates_keep_unused();
    }
    let (address, is_same_page) = decode_address(bus, address_mode);
    let param = bus.read(address);
    let anded = bus.cpu.accumulator & param;
    let carry_in = bus.cpu.status.contains(Status::from_bits(CARRY));
    let high: u8 = if carry_in {
        128
    } else {
        0
    };
    let result: u8 = anded / 2 + high;
    bus.cpu.accumulator = result;
    bus.cpu.status.set_flags(Status::from_bits(NEGATIVE), result & NEGATIVE != 0);
    bus.cpu.status.set_flags(Status::from_bits(ZERO), result == 0);
    bus.cpu.status.set_flags(Status::from_bits(CARRY), result & 0x40 != 0);
    bus.cpu.status.set_flags(
        Status::from_bits(OVERFLOW),
        (result & 0x40 != 0) != (result & 0x20 != 0),
    );
    bus.tick(base_cycles(&Instruction::ARR(*address_mode)) as i64);
    cycle_rule_one(bus, address_mode, is_same_page);
    proof {
        assert(operand_rel(*old(bus), *address_mode, address as int, param));
        assert(final(bus).cpu == cpu_after_arr(
            pc_plus(old(bus).cpu, operand_len(*address_mode)),
            param,
        ));
    }
}

/// Subtracts the operand from A AND X into X. For some operand byte the bus handed back, the registers are the
/// AXS transform of that byte; the base cycles are charged, plus the
/// page-cross penalty in an indexed mode.
pub fn axs<C: Cartridge + Memory>(bus: &mut Bus<C>, address_mode: &AddressMode)
    requires
        old(bus).wf(),
        is_operand_mode(*address_mode),
        old(bus).clock + 16 <= i64::MAX,
    ensures
        final(bus).wf(),
        bit_set(old(bus).cpu.status.bits, UNUSED) ==> bit_set(final(bus).cpu.status.bits, UNUSED),
        final(bus).ram.memory@ == old(bus).ram.memory@,
        exists|a: int, m: u8|
            #[trigger] operand_rel(*old(bus), *address_mode, a, m) && final(bus).cpu == cpu_after_axs(
                pc_plus(old(bus).cpu, operand_len(*address_mode)),
                m,
            ),
        !penalty_mode(*address_mode) ==> final(bus).clock == old(bus).clock + base_cycles_spec(
            Instruction::AXS(*address_mode),
        ),
        penalty_mode(*address_mode) ==> old(bus).clock + base_cycles_spec(
            Instruction::AXS(*address_mode),
        ) <= final(bus).clock <= old(bus).clock + base_cycles_spec(
            Instruction::AXS(*address_mode),
        ) + 1,
{
    proof {
        crate::cpu::lemma_flag_updates_keep_unused();
    }
    let (address, is_same_page) = decode_address(bus, address_mode);
    let param = bus.read(address);
    let t = bus.cpu.accumulator & bus.cpu.index_x;
    let diff: u8 = ((t as u16 + 256 - param as u16) % 256) as u8;
    bus.cpu.status.set_flags(Status::from_bits(CARRY), t >= param);
    bus.cpu.index_x = diff;
    crate::cpu::test_and_set_negative_flag(&mut bus.cpu, diff);
    crate::cpu::test_and_set_zero_flag(&mut bus.cpu, diff);
    bus.tick(base_cycles(&Instruction::AXS(*address_mode)) as i64);
    cycle_rule_one(bus, address_mode, is_same_page);
    proof {
        assert(operand_rel(*old(bus), *address_mode, address as int, param));
        assert(final(bus).cpu == cpu_after_axs(
            pc_plus(old(bus).cpu, operand_len(*address_mode)),
            param,
        ));
    }
}

/// Subtracts the operand and the borrow from the accumulator: the ADC rule
/// applied to the operand's one's complement.
pub fn sbc<C: Cartridge + Memory>(bus: &mut Bus<C>, address_mode: &AddressMode)
    requires
        old(bus).wf(),
        is_operand_mode(*address_mode),
        old(bus).clock + 16 <= i64::MAX,
    ensures
        final(bus).wf(),
        bit_set(old(bus).cpu.status.bits, UNUSED) ==> bit_set(final(bus).cpu.status.bits, UNUSED),
        final(bus).ram.memory@ == old(bus).ram.memory@,
        exists|a: int, m: u8|
            #[trigger] operand_rel(*old(bus), *address_mode, a, m) && final(bus).cpu == cpu_after_sbc(
                pc_plus(old(bus).cpu, operand_len(*address_mode)),
                m,
            ),
        !penalty_mode(*address_mode) ==> final(bus).clock == old(bus).clock + base_cycles_spec(
            Instruction::SBC(*address_mode),
        ),
        penalty_mode(*address_mode) ==> old(bus).clock + base_cycles_spec(
            Instruction::SBC(*address_mode),
        ) <= final(bus).clock <= old(bus).clock + base_cycles_spec(
            Instruction::SBC(*address_mode),
        ) + 1,
{
    proof {
        crate::cpu::lemma_flag_updates_keep_unused();
    }
    let (address, is_same_page) = decode_address(bus, address_mode);
    let param = bus.read(address);
    crate::cpu::adc_value(&mut bus.cpu, !param);
    bus.tick(base_cycles(&Instruction::SBC(*address_mode)) as i64);
    cycle_rule_one(bus, address_mode, is_same_page);
    proof {
        assert(operand_rel(*old(bus), *address_mode, address as int, param));
        assert(final(bus).cpu == cpu_after_sbc(
            pc_plus(old(bus).cpu, operand_len(*address_mode)),
            param,
        ));
    }
}

/// Compares the accumulator register with the operand, setting Carry, Zero and
/// Negative and discarding the difference.
pub fn cmp<C: Cartridge + Memory>(bus: &mut Bus<C>, address_mode: &AddressMode)
    requires
        old(bus).wf(),
        is_operand_mode(*address_mode),
        old(bus).clock + 16 <= i64::MAX,
    ensures
        final(bus).wf(),
        bit_set(old(bus).cpu.status.bits, UNUSED) ==> bit_set(final(bus).cpu.status.bits, UNUSED),
        final(bus).ram.memory@ == old(bus).ram.memory@,
        exists|a: int, m: u8|
            #[trigger] operand_rel(*old(bus), *address_mode, a, m) && final(bus).cpu
                == cpu_after_compare(
                pc_plus(old(bus).cpu, operand_len(*address_mode)),
                old(bus).cpu.accumulator,
                m,
            ),
        !penalty_mode(*address_mode) ==> final(bus).clock == old(bus).clock + base_cycles_spec(
            Instruction::CMP(*address_mode),
        ),
        penalty_mode(*address_mode) ==> old(bus).clock + base_cycles_spec(
            Instruction::CMP(*address_mode),
        ) <= final(bus).clock <= old(bus).clock + base_cycles_spec(
            Instruction::CMP(*address_mode),
        ) + 1,
{
    proof {
        crate::cpu::lemma_flag_updates_keep_unused();
    }
    let (address, is_same_page) = decode_address(bus, address_mode);
    let param = bus.read(address);
    let left = bus.cpu.accumulator;
    crate::cpu::compare_value(&mut bus.cpu, left, param);
    bus.tick(base_cycles(&Instruction::CMP(*address_mode)) as i64);
    cycle_rule_one(bus, address_mode, is_same_page);
    proof {
        assert(operand_rel(*old(bus), *address_mode, address as int, param));
        assert(final(bus).cpu == cpu_after_compare(
            pc_plus(old(bus).cpu, operand_len(*address_mode)),
            old(bus).cpu.accumulator,
            param,
        ));
    }
}

/// Compares the X index register with the operand, setting Carry, Zero and
/// Negative and discarding the difference.
pub fn cpx<C: Cartridge + Memory>(bus: &mut Bus<C>, address_mode: &AddressMode)
    requires
        old(bus).wf(),
        is_operand_mode(*address_mode),
        old(bus).clock + 16 <= i64::MAX,
    ensures
        final(bus).wf(),
        bit_set(old(bus).cpu.status.bits, UNUSED) ==> bit_set(final(bus).cpu.status.bits, UNUSED),
        final(bus).ram.memory@ == old(bus).ram.memory@,
        exists|a: int, m: u8|
            #[trigger] operand_rel(*old(bus), *address_mode, a, m) && final(bus).cpu
                == cpu_after_compare(
                pc_plus(old(bus).cpu, operand_len(*address_mode)),
                old(bus).cpu.index_x,
                m,
            ),
        !penalty_mode(*address_mode) ==> final(bus).clock == old(bus).clock + base_cycles_spec(
            Instruction::CPX(*address_mode),
        ),
        penalty_mode(*address_mode) ==> old(bus).clock + base_cycles_spec(
            Instruction::CPX(*address_mode),
        ) <= final(bus).clock <= old(bus).clock + base_cycles_spec(
            Instruction::CPX(*address_mode),
        ) + 1,
{
    proof {
        crate::cpu::lemma_flag_updates_keep_unused();
    }
    let (address, is_same_page) = decode_address(bus, address_mode);
    let param = bus.read(address);
    let left = bus.cpu.index_x;
    crate::cpu::compare_value(&mut bus.cpu, left, param);
    bus.tick(base_cycles(&Instruction::CPX(*address_mode)) as i64);
    cycle_rule_one(bus, address_mode, is_same_page);
    proof {
        assert(operand_rel(*old(bus), *address_mode, address as int, param));
        assert(final(bus).cpu == cpu_after_compare(
            pc_plus(old(bus).cpu, operand_len(*address_mode)),
            old(bus).cpu.index_x,
            param,
        ));
    }
}

/// Compares the Y index register with the operand, setting Carry, Zero and
/// Negative and discarding the difference.
pub fn cpy<C: Cartridge + Memory>(bus: &mut Bus<C>, address_mode: &AddressMode)
    requires
        old(bus).wf(),
        is_operand_mode(*address_mode),
        old(bus).clock + 16 <= i64::MAX,
    ensures
        final(bus).wf(),
        bit_set(old(bus).cpu.status.bits, UNUSED) ==> bit_set(final(bus).cpu.status.bits, UNUSED),
        final(bus).ram.memory@ == old(bus).ram.memory@,
        exists|a: int, m: u8|
            #[trigger] operand_rel(*old(bus), *address_mode, a, m) && final(bus).cpu
                == cpu_after_compare(
                pc_plus(old(bus).cpu, operand_len(*address_mode)),
                old(bus).cpu.index_y,
                m,
            ),
        !penalty_mode(*address_mode) ==> final(bus).clock == old(bus).clock + base_cycles_spec(
            Instruction::CPY(*address_mode),
        ),
        penalty_mode(*address_mode) ==> old(bus).clock + base_cycles_spec(
            Instruction::CPY(*address_mode),
        ) <= final(bus).clock <= old(bus).clock + base_cycles_spec(
            Instruction::CPY(*address_mode),
        ) + 1,
{
    proof {
        crate::cpu::lemma_flag_updates_keep_unused();
    }
    let (address, is_same_page) = decode_address(bus, address_mode);
    let param = bus.read(address);
    let left = bus.cpu.index_y;
    crate::cpu::compare_value(&mut bus.cpu, left, param);
    bus.tick(base_cycles(&Instruction::CPY(*address_mode)) as i64);
    cycle_rule_one(bus, address_mode, is_same_page);
    proof {
        assert(operand_rel(*old(bus), *address_mode, address as int, param));
        assert(final(bus).cpu == cpu_after_compare(
            pc_plus(old(bus).cpu, operand_len(*address_mode)),
            old(bus).cpu.index_y,
            param,
        ));
    }
}

/// Stores the accumulator at the effective address; no flags change. A store
/// never pays the page-cross penalty.
pub fn sta<C: Cartridge + Memory>(bus: &mut Bus<C>, address_mode: &AddressMode)
    requires
        old(bus).wf(),
        is_operand_mode(*address_mode),
        old(bus).clock + 16 <= i64::MAX,
    ensures
        final(bus).wf(),
        final(bus).cpu == pc_plus(old(bus).cpu, operand_len(*address_mode)),
        final(bus).clock == old(bus).clock + base_cycles_spec(Instruction::STA(*address_mode)),
        exists|a: int|
            #[trigger] effective_addr_rel(*old(bus), *address_mode, a) && final(bus).ram.memory@
                == ram_after_write(old(bus).ram.memory@, a, old(bus).cpu.accumulator),
{
    let (address, _) = decode_address(bus, address_mode);
    let value = bus.cpu.accumulator;
    bus.write(address, value);
    bus.tick(base_cycles(&Instruction::STA(*address_mode)) as i64);
    proof {
        assert(effective_addr_rel(*old(bus), *address_mode, address as int));
        assert(final(bus).ram.memory@ == ram_after_write(
            old(bus).ram.memory@,
            address as int,
            old(bus).cpu.accumulator,
        ));
    }
}

/// Stores X at the effective address; no flags change. A store
/// never pays the page-cross penalty.
pub fn stx<C: Cartridge + Memory>(bus: &mut Bus<C>, address_mode: &AddressMode)
    requires
        old(bus).wf(),
        is_operand_mode(*address_mode),
        old(bus).clock + 16 <= i64::MAX,
    ensures
        final(bus).wf(),
        final(bus).cpu == pc_plus(old(bus).cpu, operand_len(*address_mode)),
        final(bus).clock == old(bus).clock + base_cycles_spec(Instruction::STX(*address_mode)),
        exists|a: int|
            #[trigger] effective_addr_rel(*old(bus), *address_mode, a) && final(bus).ram.memory@
                == ram_after_write(old(bus).ram.memory@, a, old(bus).cpu.index_x),
{
    let (address, _) = decode_address(bus, address_mode);
    let value = bus.cpu.index_x;
    bus.write(address, value);
    bus.tick(base_cycles(&Instruction::STX(*address_mode)) as i64);
    proof {
        assert(effective_addr_rel(*old(bus), *address_mode, address as int));
        assert(final(bus).ram.memory@ == ram_after_write(
            old(bus).ram.memory@,
            address as int,
            old(bus).cpu.index_x,
        ));
    }
}

/// Stores Y at the effective address; no flags change. A store
/// never pays the page-cross penalty.
pub fn sty<C: Cartridge + Memory>(bus: &mut Bus<C>, address_mode: &AddressMode)
    requires
        old(bus).wf(),
        is_operand_mode(*address_mode),
        old(bus).clock + 16 <= i64::MAX,
    ensures
        final(bus).wf(),
        final(bus).cpu == pc_plus(old(bus).cpu, operand_len(*address_mode)),
        final(bus).clock == old(bus).clock + base_cycles_spec(Instruction::STY(*address_mode)),
        exists|a: int|
            #[trigger] effective_addr_rel(*old(bus), *address_mode, a) && final(bus).ram.memory@
                == ram_after_write(old(bus).ram.memory@, a, old(bus).cpu.index_y),
{
    let (address, _) = decode_address(bus, address_mode);
    let value = bus.cpu.index_y;
    bus.write(address, value);
    bus.tick(base_cycles(&Instruction::STY(*address_mode)) as i64);
    proof {
        assert(effective_addr_rel(*old(bus), *address_mode, address as int));
        assert(final(bus).ram.memory@ == ram_after_write(
            old(bus).ram.memory@,
            address as int,
            old(bus).cpu.index_y,
        ));
    }
}

/// Stores the conjunction of the accumulator and X at the effective address;
/// no flags change.
pub fn aax<C: Cartridge + Memory>(bus: &mut Bus<C>, address_mode: &AddressMode)
    requires
        old(bus).wf(),
        is_operand_mode(*address_mode),
        old(bus).clock + 16 <= i64::MAX,
    ensures
        final(bus).wf(),
        final(bus).cpu == pc_plus(old(bus).cpu, operand_len(*address_mode)),
        final(bus).clock == old(bus).clock + base_cycles_spec(Instruction::AAX(*address_mode)),
        exists|a: int|
            #[trigger] effective_addr_rel(*old(bus), *address_mode, a) && final(bus).ram.memory@
                == ram_after_write(old(bus).ram.memory@, a, old(bus).cpu.accumulator & old(bus).cpu.index_x),
{
    let (address, _) = decode_address(bus, address_mode);
    let value = bus.cpu.accumulator & bus.cpu.index_x;
    bus.write(address, value);
    bus.tick(base_cycles(&Instruction::AAX(*address_mode)) as i64);
    proof {
        assert(effective_addr_rel(*old(bus), *address_mode, address as int));
        assert(final(bus).ram.memory@ == ram_after_write(
            old(bus).ram.memory@,
            address as int,
            old(bus).cpu.accumulator & old(bus).cpu.index_x,
        ));
    }
}

/// What a read-modify-write instruction guarantees of memory: the rewritten
/// byte stands at the mode's effective address (pinned through RAM-resident
/// operand bytes; stores outside RAM leave RAM alone), and an operand that
/// lay in RAM is exactly the byte that was read there.
pub open spec fn rmw_effect<C: Cartridge + Memory>(
    pre: Bus<C>,
    post: Bus<C>,
    mode: AddressMode,
    a: int,
    m: u8,
    written: u8,
) -> bool {
    &&& effective_addr_rel(pre, mode, a)
    &&& (a < 0x2000 ==> m == pre.ram.memory@[ram_index(a)])
    &&& post.ram.memory@ == ram_after_write(pre.ram.memory@, a, written)
}

/// Shifts the operand left one bit in place: either the accumulator, or a memory
/// operand rewritten where it stands. Carry receives the shifted-out bit.
pub fn asl<C: Cartridge + Memory>(bus: &mut Bus<C>, address_mode: &AddressMode)
    requires
        old(bus).wf(),
        *address_mode == AddressMode::Accumulator || is_operand_mode(*address_mode),
        old(bus).clock + 16 <= i64::MAX,
    ensures
        final(bus).wf(),
        bit_set(old(bus).cpu.status.bits, UNUSED) ==> bit_set(final(bus).cpu.status.bits, UNUSED),
        final(bus).clock == old(bus).clock + base_cycles_spec(Instruction::ASL(*address_mode)),
        *address_mode == AddressMode::Accumulator ==> final(bus).ram.memory@ == old(
            bus,
        ).ram.memory@ && final(bus).cpu == (Cpu {
            accumulator: asl_output(old(bus).cpu.accumulator),
            status: (Status { bits: status_after_shift(old(bus).cpu.status.bits, bit_set(old(bus).cpu.accumulator, 0x80), asl_output(old(bus).cpu.accumulator)) }),
            ..old(bus).cpu
        }),
        *address_mode != AddressMode::Accumulator ==> (exists|a: int, m: u8|
            #[trigger] rmw_effect(*old(bus), *final(bus), *address_mode, a, m, asl_output(m)) && final(bus).cpu == (
            Cpu {
                    status: (Status { bits: status_after_shift(old(bus).cpu.status.bits, bit_set(m, 0x80), asl_output(m)) }),
                    ..pc_plus(old(bus).cpu, operand_len(*address_mode))
                })),
{
    proof {
        crate::cpu::lemma_flag_updates_keep_unused();
    }
    match address_mode {
        AddressMode::Accumulator => {
            let param = bus.cpu.accumulator;
            let result = crate::cpu::asl_value(&mut bus.cpu, param);
            bus.cpu.accumulator = result;
            bus.tick(base_cycles(&Instruction::ASL(*address_mode)) as i64);
        },
        _ => {
            let (address, _) = decode_address(bus, address_mode);
            let param = bus.read(address);
            let result = crate::cpu::asl_value(&mut bus.cpu, param);
            bus.write(address, result);
            bus.tick(base_cycles(&Instruction::ASL(*address_mode)) as i64);
            proof {
                assert(rmw_effect(*old(bus), *final(bus), *address_mode, address as int, param, asl_output(param)));
                assert(final(bus).cpu == (Cpu {
                        status: (Status { bits: status_after_shift(old(bus).cpu.status.bits, bit_set(param, 0x80), asl_output(param)) }),
                        ..pc_plus(old(bus).cpu, operand_len(*address_mode))
                    }));
            }
        },
    }
}

/// Shifts the operand right one bit in place: either the accumulator, or a memory
/// operand rewritten where it stands. Carry receives the shifted-out bit.
pub fn lsr<C: Cartridge + Memory>(bus: &mut Bus<C>, address_mode: &AddressMode)
    requires
        old(bus).wf(),
        *address_mode == AddressMode::Accumulator || is_operand_mode(*address_mode),
        old(bus).clock + 16 <= i64::MAX,
    ensures
        final(bus).wf(),
        bit_set(old(bus).cpu.status.bits, UNUSED) ==> bit_set(final(bus).cpu.status.bits, UNUSED),
        final(bus).clock == old(bus).clock + base_cycles_spec(Instruction::LSR(*address_mode)),
        *address_mode == AddressMode::Accumulator ==> final(bus).ram.memory@ == old(
            bus,
        ).ram.memory@ && final(bus).cpu == (Cpu {
            accumulator: (old(bus).cpu.accumulator / 2) as u8,
            status: (Status { bits: status_after_lsr(old(bus).cpu.status.bits, bit_set(old(bus).cpu.accumulator, 0x01), (old(bus).cpu.accumulator / 2) as u8) }),
            ..old(bus).cpu
        }),
        *address_mode != AddressMode::Accumulator ==> (exists|a: int, m: u8|
            #[trigger] rmw_effect(*old(bus), *final(bus), *address_mode, a, m, lsr_output(m)) && final(bus).cpu == (
            Cpu {
                    status: (Status { bits: status_after_lsr(old(bus).cpu.status.bits, bit_set(m, 0x01), (m / 2) as u8) }),
                    ..pc_plus(old(bus).cpu, operand_len(*address_mode))
                })),
{
    proof {
        crate::cpu::lemma_flag_updates_keep_unused();
    }
    match address_mode {
        AddressMode::Accumulator => {
            let param = bus.cpu.accumulator;
            let result = crate::cpu::lsr_value(&mut bus.cpu, param);
            bus.cpu.accumulator = result;
            bus.tick(base_cycles(&Instruction::LSR(*address_mode)) as i64);
        },
        _ => {
            let (address, _) = decode_address(bus, address_mode);
            let param = bus.read(address);
            let result = crate::cpu::lsr_value(&mut bus.cpu, param);
            bus.write(address, result);
            bus.tick(base_cycles(&Instruction::LSR(*address_mode)) as i64);
            proof {
                assert(rmw_effect(*old(bus), *final(bus), *address_mode, address as int, param, lsr_output(param)));
                assert(final(bus).cpu == (Cpu {
                        status: (Status { bits: status_after_lsr(old(bus).cpu.status.bits, bit_set(param, 0x01), (param / 2) as u8) }),
                        ..pc_plus(old(bus).cpu, operand_len(*address_mode))
                    }));
            }
        },
    }
}

/// Rotates the operand left through the carry in place: either the accumulator, or a memory
/// operand rewritten where it stands. Carry receives the shifted-out bit.
pub fn rol<C: Cartridge + Memory>(bus: &mut Bus<C>, address_mode: &AddressMode)
    requires
        old(bus).wf(),
        *address_mode == AddressMode::Accumulator || is_operand_mode(*address_mode),
        old(bus).clock + 16 <= i64::MAX,
    ensures
        final(bus).wf(),
        bit_set(old(bus).cpu.status.bits, UNUSED) ==> bit_set(final(bus).cpu.status.bits, UNUSED),
        final(bus).clock == old(bus).clock + base_cycles_spec(Instruction::ROL(*address_mode)),
        *address_mode == AddressMode::Accumulator ==> final(bus).ram.memory@ == old(
            bus,
        ).ram.memory@ && final(bus).cpu == (Cpu {
            accumulator: rol_output(old(bus).cpu.accumulator, bit_set(old(bus).cpu.status.bits, CARRY)),
            status: (Status { bits: status_after_shift(old(bus).cpu.status.bits, bit_set(old(bus).cpu.accumulator, 0x80), rol_output(old(bus).cpu.accumulator, bit_set(old(bus).cpu.status.bits, CARRY))) }),
            ..old(bus).cpu
        }),
        *address_mode != AddressMode::Accumulator ==> (exists|a: int, m: u8|
            #[trigger] rmw_effect(*old(bus), *final(bus), *address_mode, a, m, rol_output(m, bit_set(old(bus).cpu.status.bits, CARRY))) && final(bus).cpu == (
            Cpu {
                    status: (Status { bits: status_after_shift(old(bus).cpu.status.bits, bit_set(m, 0x80), rol_output(m, bit_set(old(bus).cpu.status.bits, CARRY))) }),
                    ..pc_plus(old(bus).cpu, operand_len(*address_mode))
                })),
{
    proof {
        crate::cpu::lemma_flag_updates_keep_unused();
    }
    match address_mode {
        AddressMode::Accumulator => {
            let param = bus.cpu.accumulator;
            let result = crate::cpu::rol_value(&mut bus.cpu, param);
            bus.cpu.accumulator = result;
            bus.tick(base_cycles(&Instruction::ROL(*address_mode)) as i64);
        },
        _ => {
            let (address, _) = decode_address(bus, address_mode);
            let param = bus.read(address);
            let result = crate::cpu::rol_value(&mut bus.cpu, param);
            bus.write(address, result);
            bus.tick(base_cycles(&Instruction::ROL(*address_mode)) as i64);
            proof {
                assert(rmw_effect(*old(bus), *final(bus), *address_mode, address as int, param, rol_output(param, bit_set(old(bus).cpu.status.bits, CARRY))));
                assert(final(bus).cpu == (Cpu {
                        status: (Status { bits: status_after_shift(old(bus).cpu.status.bits, bit_set(param, 0x80), rol_output(param, bit_set(old(bus).cpu.status.bits, CARRY))) }),
                        ..pc_plus(old(bus).cpu, operand_len(*address_mode))
                    }));
            }
        },
    }
}

/// Rotates the operand right through the carry in place: either the accumulator, or a memory
/// operand rewritten where it stands. Carry receives the shifted-out bit.
pub fn ror<C: Cartridge + Memory>(bus: &mut Bus<C>, address_mode: &AddressMode)
    requires
        old(bus).wf(),
        *address_mode == AddressMode::Accumulator || is_operand_mode(*address_mode),
        old(bus).clock + 16 <= i64::MAX,
    ensures
        final(bus).wf(),
        bit_set(old(bus).cpu.status.bits, UNUSED) ==> bit_set(final(bus).cpu.status.bits, UNUSED),
        final(bus).clock == old(bus).clock + base_cycles_spec(Instruction::ROR(*address_mode)),
        *address_mode == AddressMode::Accumulator ==> final(bus).ram.memory@ == old(
            bus,
        ).ram.memory@ && final(bus).cpu == (Cpu {
            accumulator: ror_output(old(bus).cpu.accumulator, bit_set(old(bus).cpu.status.bits, CARRY)),
            status: (Status { bits: status_after_shift(old(bus).cpu.status.bits, bit_set(old(bus).cpu.accumulator, 0x01), ror_output(old(bus).cpu.accumulator, bit_set(old(bus).cpu.status.bits, CARRY))) }),
            ..old(bus).cpu
        }),
        *address_mode != AddressMode::Accumulator ==> (exists|a: int, m: u8|
            #[trigger] rmw_effect(*old(bus), *final(bus), *address_mode, a, m, ror_output(m, bit_set(old(bus).cpu.status.bits, CARRY))) && final(bus).cpu == (
            Cpu {
                    status: (Status { bits: status_after_shift(old(bus).cpu.status.bits, bit_set(m, 0x01), ror_output(m, bit_set(old(bus).cpu.status.bits, CARRY))) }),
                    ..pc_plus(old(bus).cpu, operand_len(*address_mode))
                })),
{
    proof {
        crate::cpu::lemma_flag_updates_keep_unused();
    }
    match address_mode {
        AddressMode::Accumulator => {
            let param = bus.cpu.accumulator;
            let result = crate::cpu::ror_value(&mut bus.cpu, param);
            bus.cpu.accumulator = result;
            bus.tick(base_cycles(&Instruction::ROR(*address_mode)) as i64);
        },
        _ => {
            let (address, _) = decode_address(bus, address_mode);
            let param = bus.read(address);
            let result = crate::cpu::ror_value(&mut bus.cpu, param);
            bus.write(address, result);
            bus.tick(base_cycles(&Instruction::ROR(*address_mode)) as i64);
            proof {
                assert(rmw_effect(*old(bus), *final(bus), *address_mode, address as int, param, ror_output(param, bit_set(old(bus).cpu.status.bits, CARRY))));
                assert(final(bus).cpu == (Cpu {
                        status: (Status { bits: status_after_shift(old(bus).cpu.status.bits, bit_set(param, 0x01), ror_output(param, bit_set(old(bus).cpu.status.bits, CARRY))) }),
                        ..pc_plus(old(bus).cpu, operand_len(*address_mode))
                    }));
            }
        },
    }
}

/// Adds one to the memory operand in place, with Negative and Zero from
/// the result.
pub fn inc<C: Cartridge + Memory>(bus: &mut Bus<C>, address_mode: &AddressMode)
    requires
        old(bus).wf(),
        is_operand_mode(*address_mode),
        old(bus).clock + 16 <= i64::MAX,
    ensures
        final(bus).wf(),
        bit_set(old(bus).cpu.status.bits, UNUSED) ==> bit_set(final(bus).cpu.status.bits, UNUSED),
        final(bus).clock == old(bus).clock + base_cycles_spec(Instruction::INC(*address_mode)),
        exists|a: int, m: u8|
            #[trigger] rmw_effect(*old(bus), *final(bus), *address_mode, a, m, wrap_inc8(m)) && final(bus).cpu == (
            Cpu {
                    status: (Status { bits: nz(old(bus).cpu.status.bits, wrap_inc8(m)) }),
                    ..pc_plus(old(bus).cpu, operand_len(*address_mode))
                }),
{
    proof {
        crate::cpu::lemma_flag_updates_keep_unused();
    }
    let (address, _) = decode_address(bus, address_mode);
    let param = bus.read(address);
    let result: u8 = if param == 0xFF { 0 } else { param + 1 };
    bus.write(address, result);
    crate::cpu::test_and_set_negative_flag(&mut bus.cpu, result);
    crate::cpu::test_and_set_zero_flag(&mut bus.cpu, result);
    bus.tick(base_cycles(&Instruction::INC(*address_mode)) as i64);
    proof {
        assert(rmw_effect(*old(bus), *final(bus), *address_mode, address as int, param, wrap_inc8(param)));
                assert(final(bus).cpu == (Cpu {
                status: (Status { bits: nz(old(bus).cpu.status.bits, wrap_inc8(param)) }),
                ..pc_plus(old(bus).cpu, operand_len(*address_mode))
            }));
    }
}

/// Subtracts one from the memory operand in place, with Negative and Zero from
/// the result.
pub fn dec<C: Cartridge + Memory>(bus: &mut Bus<C>, address_mode: &AddressMode)
    requires
        old(bus).wf(),
        is_operand_mode(*address_mode),
        old(bus).clock + 16 <= i64::MAX,
    ensures
        final(bus).wf(),
        bit_set(old(bus).cpu.status.bits, UNUSED) ==> bit_set(final(bus).cpu.status.bits, UNUSED),
        final(bus).clock == old(bus).clock + base_cycles_spec(Instruction::DEC(*address_mode)),
        exists|a: int, m: u8|
            #[trigger] rmw_effect(*old(bus), *final(bus), *address_mode, a, m, wrap_dec8(m)) && final(bus).cpu == (
            Cpu {
                    status: (Status { bits: nz(old(bus).cpu.status.bits, wrap_dec8(m)) }),
                    ..pc_plus(old(bus).cpu, operand_len(*address_mode))
                }),
{
    proof {
        crate::cpu::lemma_flag_updates_keep_unused();
    }
    let (address, _) = decode_address(bus, address_mode);
    let param = bus.read(address);
    let result: u8 = if param == 0 { 0xFF } else { param - 1 };
    bus.write(address, result);
    crate::cpu::test_and_set_negative_flag(&mut bus.cpu, result);
    crate::cpu::test_and_set_zero_flag(&mut bus.cpu, result);
    bus.tick(base_cycles(&Instruction::DEC(*address_mode)) as i64);
    proof {
        assert(rmw_effect(*old(bus), *final(bus), *address_mode, address as int, param, wrap_dec8(param)));
                assert(final(bus).cpu == (Cpu {
                status: (Status { bits: nz(old(bus).cpu.status.bits, wrap_dec8(param)) }),
                ..pc_plus(old(bus).cpu, operand_len(*address_mode))
            }));
    }
}

/// Copies the accumulator into X, with Negative and Zero.
pub fn tax<C: Cartridge + Memory>(bus: &mut Bus<C>, address_mode: &AddressMode)
    requires
        old(bus).wf(),
        old(bus).clock + 16 <= i64::MAX,
    ensures
        final(bus).wf(),
        bit_set(old(bus).cpu.status.bits, UNUSED) ==> bit_set(final(bus).cpu.status.bits, UNUSED),
        final(bus).ram.memory@ == old(bus).ram.memory@,
        final(bus).clock == old(bus).clock + base_cycles_spec(Instruction::TAX(*address_mode)),
        final(bus).cpu == (Cpu { index_x: old(bus).cpu.accumulator, status: (Status { bits: nz(old(bus).cpu.status.bits, old(bus).cpu.accumulator) }), ..old(bus).cpu }),
{
    proof {
        crate::cpu::lemma_flag_updates_keep_unused();
    }
    let value = bus.cpu.accumulator;
    crate::cpu::load_index_x(&mut bus.cpu, value);
    bus.tick(base_cycles(&Instruction::TAX(*address_mode)) as i64);
}

/// Copies the accumulator into Y, with Negative and Zero.
pub fn tay<C: Cartridge + Memory>(bus: &mut Bus<C>, address_mode: &AddressMode)
    requires
        old(bus).wf(),
        old(bus).clock + 16 <= i64::MAX,
    ensures
        final(bus).wf(),
        bit_set(old(bus).cpu.status.bits, UNUSED) ==> bit_set(final(bus).cpu.status.bits, UNUSED),
        final(bus).ram.memory@ == old(bus).ram.memory@,
        final(bus).clock == old(bus).clock + base_cycles_spec(Instruction::TAY(*address_mode)),
        final(bus).cpu == (Cpu { index_y: old(bus).cpu.accumulator, status: (Status { bits: nz(old(bus).cpu.status.bits, old(bus).cpu.accumulator) }), ..old(bus).cpu }),
{
    proof {
        crate::cpu::lemma_flag_updates_keep_unused();
    }
    let value = bus.cpu.accumulator;
    crate::cpu::load_index_y(&mut bus.cpu, value);
    bus.tick(base_cycles(&Instruction::TAY(*address_mode)) as i64);
}

/// Copies the stack pointer into X, with Negative and Zero.
pub fn tsx<C: Cartridge + Memory>(bus: &mut Bus<C>, address_mode: &AddressMode)
    requires
        old(bus).wf(),
        old(bus).clock + 16 <= i64::MAX,
    ensures
        final(bus).wf(),
        bit_set(old(bus).cpu.status.bits, UNUSED) ==> bit_set(final(bus).cpu.status.bits, UNUSED),
        final(bus).ram.memory@ == old(bus).ram.memory@,
        final(bus).clock == old(bus).clock + base_cycles_spec(Instruction::TSX(*address_mode)),
        final(bus).cpu == (Cpu { index_x: old(bus).cpu.stack_ptr, status: (Status { bits: nz(old(bus).cpu.status.bits, old(bus).cpu.stack_ptr) }), ..old(bus).cpu }),
{
    proof {
        crate::cpu::lemma_flag_updates_keep_unused();
    }
    let value = bus.cpu.stack_ptr;
    crate::cpu::load_index_x(&mut bus.cpu, value);
    bus.tick(base_cycles(&Instruction::TSX(*address_mode)) as i64);
}

/// Copies X into the accumulator, with Negative and Zero.
pub fn txa<C: Cartridge + Memory>(bus: &mut Bus<C>, address_mode: &AddressMode)
    requires
        old(bus).wf(),
        old(bus).clock + 16 <= i64::MAX,
    ensures
        final(bus).wf(),
        bit_set(old(bus).cpu.status.bits, UNUSED) ==> bit_set(final(bus).cpu.status.bits, UNUSED),
        final(bus).ram.memory@ == old(bus).ram.memory@,
        final(bus).clock == old(bus).clock + base_cycles_spec(Instruction::TXA(*address_mode)),
        final(bus).cpu == (Cpu { accumulator: old(bus).cpu.index_x, status: (Status { bits: nz(old(bus).cpu.status.bits, old(bus).cpu.index_x) }), ..old(bus).cpu }),
{
    proof {
        crate::cpu::lemma_flag_updates_keep_unused();
    }
    let value = bus.cpu.index_x;
    crate::cpu::load_accumulator(&mut bus.cpu, value);
    bus.tick(base_cycles(&Instruction::TXA(*address_mode)) as i64);
}

/// Copies X into the stack pointer; no flags change.
pub fn txs<C: Cartridge + Memory>(bus: &mut Bus<C>, address_mode: &AddressMode)
    requires
        old(bus).wf(),
        old(bus).clock + 16 <= i64::MAX,
    ensures
        final(bus).wf(),
        final(bus).ram.memory@ == old(bus).ram.memory@,
        final(bus).clock == old(bus).clock + base_cycles_spec(Instruction::TXS(*address_mode)),
        final(bus).cpu == (Cpu { stack_ptr: old(bus).cpu.index_x, ..old(bus).cpu }),
{
    bus.cpu.stack_ptr = bus.cpu.index_x;
    bus.tick(base_cycles(&Instruction::TXS(*address_mode)) as i64);
}

/// Copies Y into the accumulator, with Negative and Zero.
pub fn tya<C: Cartridge + Memory>(bus: &mut Bus<C>, address_mode: &AddressMode)
    requires
        old(bus).wf(),
        old(bus).clock + 16 <= i64::MAX,
    ensures
        final(bus).wf(),
        bit_set(old(bus).cpu.status.bits, UNUSED) ==> bit_set(final(bus).cpu.status.bits, UNUSED),
        final(bus).ram.memory@ == old(bus).ram.memory@,
        final(bus).clock == old(bus).clock + base_cycles_spec(Instruction::TYA(*address_mode)),
        final(bus).cpu == (Cpu { accumulator: old(bus).cpu.index_y, status: (Status { bits: nz(old(bus).cpu.status.bits, old(bus).cpu.index_y) }), ..old(bus).cpu }),
{
    proof {
        crate::cpu::lemma_flag_updates_keep_unused();
    }
    let value = bus.cpu.index_y;
    crate::cpu::load_accumulator(&mut bus.cpu, value);
    bus.tick(base_cycles(&Instruction::TYA(*address_mode)) as i64);
}

/// Adds one to X, wrapping within the byte, with Negative and Zero.
pub fn inx<C: Cartridge + Memory>(bus: &mut Bus<C>, address_mode: &AddressMode)
    requires
        old(bus).wf(),
        old(bus).clock + 16 <= i64::MAX,
    ensures
        final(bus).wf(),
        bit_set(old(bus).cpu.status.bits, UNUSED) ==> bit_set(final(bus).cpu.status.bits, UNUSED),
        final(bus).ram.memory@ == old(bus).ram.memory@,
        final(bus).clock == old(bus).clock + base_cycles_spec(Instruction::INX(*address_mode)),
        final(bus).cpu == (Cpu { index_x: wrap_inc8(old(bus).cpu.index_x), status: (Status { bits: nz(old(bus).cpu.status.bits, wrap_inc8(old(bus).cpu.index_x)) }), ..old(bus).cpu }),
{
    proof {
        crate::cpu::lemma_flag_updates_keep_unused();
    }
    let value = bus.cpu.index_x;
    let result: u8 = if value == 0xFF { 0 } else { value + 1 };
    crate::cpu::load_index_x(&mut bus.cpu, result);
    bus.tick(base_cycles(&Instruction::INX(*address_mode)) as i64);
}

/// Adds one to Y, wrapping within the byte, with Negative and Zero.
pub fn iny<C: Cartridge + Memory>(bus: &mut Bus<C>, address_mode: &AddressMode)
    requires
        old(bus).wf(),
        old(bus).clock + 16 <= i64::MAX,
    ensures
        final(bus).wf(),
        bit_set(old(bus).cpu.status.bits, UNUSED) ==> bit_set(final(bus).cpu.status.bits, UNUSED),
        final(bus).ram.memory@ == old(bus).ram.memory@,
        final(bus).clock == old(bus).clock + base_cycles_spec(Instruction::INY(*address_mode)),
        final(bus).cpu == (Cpu { index_y: wrap_inc8(old(bus).cpu.index_y), status: (Status { bits: nz(old(bus).cpu.status.bits, wrap_inc8(old(bus).cpu.index_y)) }), ..old(bus).cpu }),
{
    proof {
        crate::cpu::lemma_flag_updates_keep_unused();
    }
    let value = bus.cpu.index_y;
    let result: u8 = if value == 0xFF { 0 } else { value + 1 };
    crate::cpu::load_index_y(&mut bus.cpu, result);
    bus.tick(base_cycles(&Instruction::INY(*address_mode)) as i64);
}

/// Subtracts one from X, wrapping within the byte, with Negative and Zero.
pub fn dex<C: Cartridge + Memory>(bus: &mut Bus<C>, address_mode: &AddressMode)
    requires
        old(bus).wf(),
        old(bus).clock + 16 <= i64::MAX,
    ensures
        final(bus).wf(),
        bit_set(old(bus).cpu.status.bits, UNUSED) ==> bit_set(final(bus).cpu.status.bits, UNUSED),
        final(bus).ram.memory@ == old(bus).ram.memory@,
        final(bus).clock == old(bus).clock + base_cycles_spec(Instruction::DEX(*address_mode)),
        final(bus).cpu == (Cpu { index_x: wrap_dec8(old(bus).cpu.index_x), status: (Status { bits: nz(old(bus).cpu.status.bits, wrap_dec8(old(bus).cpu.index_x)) }), ..old(bus).cpu }),
{
    proof {
        crate::cpu::lemma_flag_updates_keep_unused();
    }
    let value = bus.cpu.index_x;
    let result: u8 = if value == 0 { 0xFF } else { value - 1 };
    crate::cpu::load_index_x(&mut bus.cpu, result);
    bus.tick(base_cycles(&Instruction::DEX(*address_mode)) as i64);
}

/// Subtracts one from Y, wrapping within the byte, with Negative and Zero.
pub fn dey<C: Cartridge + Memory>(bus: &mut Bus<C>, address_mode: &AddressMode)
    requires
        old(bus).wf(),
        old(bus).clock + 16 <= i64::MAX,
    ensures
        final(bus).wf(),
        bit_set(old(bus).cpu.status.bits, UNUSED) ==> bit_set(final(bus).cpu.status.bits, UNUSED),
        final(bus).ram.memory@ == old(bus).ram.memory@,
        final(bus).clock == old(bus).clock + base_cycles_spec(Instruction::DEY(*address_mode)),
        final(bus).cpu == (Cpu { index_y: wrap_dec8(old(bus).cpu.index_y), status: (Status { bits: nz(old(bus).cpu.status.bits, wrap_dec8(old(bus).cpu.index_y)) }), ..old(bus).cpu }),
{
    proof {
        crate::cpu::lemma_flag_updates_keep_unused();
    }
    let value = bus.cpu.index_y;
    let result: u8 = if value == 0 { 0xFF } else { value - 1 };
    crate::cpu::load_index_y(&mut bus.cpu, result);
    bus.tick(base_cycles(&Instruction::DEY(*address_mode)) as i64);
}

/// Clears the Carry flag.
pub fn clc<C: Cartridge + Memory>(bus: &mut Bus<C>, address_mode: &AddressMode)
    requires
        old(bus).wf(),
        old(bus).clock + 16 <= i64::MAX,
    ensures
        final(bus).wf(),
        bit_set(old(bus).cpu.status.bits, UNUSED) ==> bit_set(final(bus).cpu.status.bits, UNUSED),
        final(bus).ram.memory@ == old(bus).ram.memory@,
        final(bus).clock == old(bus).clock + base_cycles_spec(Instruction::CLC(*address_mode)),
        final(bus).cpu == (Cpu { status: (Status { bits: with_flag(old(bus).cpu.status.bits, CARRY, false) }), ..old(bus).cpu }),
{
    proof {
        crate::cpu::lemma_flag_updates_keep_unused();
    }
    bus.cpu.status.set_flags(Status::from_bits(CARRY), false);
    bus.tick(base_cycles(&Instruction::CLC(*address_mode)) as i64);
}

/// Clears the Decimal flag.
pub fn cld<C: Cartridge + Memory>(bus: &mut Bus<C>, address_mode: &AddressMode)
    requires
        old(bus).wf(),
        old(bus).clock + 16 <= i64::MAX,
    ensures
        final(bus).wf(),
        bit_set(old(bus).cpu.status.bits, UNUSED) ==> bit_set(final(bus).cpu.status.bits, UNUSED),
        final(bus).ram.memory@ == old(bus).ram.memory@,
        final(bus).clock == old(bus).clock + base_cycles_spec(Instruction::CLD(*address_mode)),
        final(bus).cpu == (Cpu { status: (Status { bits: with_flag(old(bus).cpu.status.bits, DECIMAL, false) }), ..old(bus).cpu }),
{
    proof {
        crate::cpu::lemma_flag_updates_keep_unused();
    }
    bus.cpu.status.set_flags(Status::from_bits(DECIMAL), false);
    bus.tick(base_cycles(&Instruction::CLD(*address_mode)) as i64);
}

/// Clears the InterruptDisable flag.
pub fn cli<C: Cartridge + Memory>(bus: &mut Bus<C>, address_mode: &AddressMode)
    requires
        old(bus).wf(),
        old(bus).clock + 16 <= i64::MAX,
    ensures
        final(bus).wf(),
        bit_set(old(bus).cpu.status.bits, UNUSED) ==> bit_set(final(bus).cpu.status.bits, UNUSED),
        final(bus).ram.memory@ == old(bus).ram.memory@,
        final(bus).clock == old(bus).clock + base_cycles_spec(Instruction::CLI(*address_mode)),
        final(bus).cpu == (Cpu { status: (Status { bits: with_flag(old(bus).cpu.status.bits, INTERRUPT_DISABLE, false) }), ..old(bus).cpu }),
{
    proof {
        crate::cpu::lemma_flag_updates_keep_unused();
    }
    bus.cpu.status.set_flags(Status::from_bits(INTERRUPT_DISABLE), false);
    bus.tick(base_cycles(&Instruction::CLI(*address_mode)) as i64);
}

/// Clears the Overflow flag.
pub fn clv<C: Cartridge + Memory>(bus: &mut Bus<C>, address_mode: &AddressMode)
    requires
        old(bus).wf(),
        old(bus).clock + 16 <= i64::MAX,
    ensures
        final(bus).wf(),
        bit_set(old(bus).cpu.status.bits, UNUSED) ==> bit_set(final(bus).cpu.status.bits, UNUSED),
        final(bus).ram.memory@ == old(bus).ram.memory@,
        final(bus).clock == old(bus).clock + base_cycles_spec(Instruction::CLV(*address_mode)),
        final(bus).cpu == (Cpu { status: (Status { bits: with_flag(old(bus).cpu.status.bits, OVERFLOW, false) }), ..old(bus).cpu }),
{
    proof {
        crate::cpu::lemma_flag_updates_keep_unused();
    }
    bus.cpu.status.set_flags(Status::from_bits(OVERFLOW), false);
    bus.tick(base_cycles(&Instruction::CLV(*address_mode)) as i64);
}

/// Sets the Carry flag.
pub fn sec<C: Cartridge + Memory>(bus: &mut Bus<C>, address_mode: &AddressMode)
    requires
        old(bus).wf(),
        old(bus).clock + 16 <= i64::MAX,
    ensures
        final(bus).wf(),
        bit_set(old(bus).cpu.status.bits, UNUSED) ==> bit_set(final(bus).cpu.status.bits, UNUSED),
        final(bus).ram.memory@ == old(bus).ram.memory@,
        final(bus).clock == old(bus).clock + base_cycles_spec(Instruction::SEC(*address_mode)),
        final(bus).cpu == (Cpu { status: (Status { bits: with_flag(old(bus).cpu.status.bits, CARRY, true) }), ..old(bus).cpu }),
{
    proof {
        crate::cpu::lemma_flag_updates_keep_unused();
    }
    bus.cpu.status.set_flags(Status::from_bits(CARRY), true);
    bus.tick(base_cycles(&Instruction::SEC(*address_mode)) as i64);
}

/// Sets the Decimal flag. Decimal mode still has no effect on arithmetic.
pub fn sed<C: Cartridge + Memory>(bus: &mut Bus<C>, address_mode: &AddressMode)
    requires
        old(bus).wf(),
        old(bus).clock + 16 <= i64::MAX,
    ensures
        final(bus).wf(),
        bit_set(old(bus).cpu.status.bits, UNUSED) ==> bit_set(final(bus).cpu.status.bits, UNUSED),
        final(bus).ram.memory@ == old(bus).ram.memory@,
        final(bus).clock == old(bus).clock + base_cycles_spec(Instruction::SED(*address_mode)),
        final(bus).cpu == (Cpu { status: (Status { bits: with_flag(old(bus).cpu.status.bits, DECIMAL, true) }), ..old(bus).cpu }),
{
    proof {
        crate::cpu::lemma_flag_updates_keep_unused();
    }
    bus.cpu.status.set_flags(Status::from_bits(DECIMAL), true);
    bus.tick(base_cycles(&Instruction::SED(*address_mode)) as i64);
}

/// Sets the InterruptDisable flag.
pub fn sei<C: Cartridge + Memory>(bus: &mut Bus<C>, address_mode: &AddressMode)
    requires
        old(bus).wf(),
        old(bus).clock + 16 <= i64::MAX,
    ensures
        final(bus).wf(),
        bit_set(old(bus).cpu.status.bits, UNUSED) ==> bit_set(final(bus).cpu.status.bits, UNUSED),
        final(bus).ram.memory@ == old(bus).ram.memory@,
        final(bus).clock == old(bus).clock + base_cycles_spec(Instruction::SEI(*address_mode)),
        final(bus).cpu == (Cpu { status: (Status { bits: with_flag(old(bus).cpu.status.bits, INTERRUPT_DISABLE, true) }), ..old(bus).cpu }),
{
    proof {
        crate::cpu::lemma_flag_updates_keep_unused();
    }
    bus.cpu.status.set_flags(Status::from_bits(INTERRUPT_DISABLE), true);
    bus.tick(base_cycles(&Instruction::SEI(*address_mode)) as i64);
}

/// Does nothing for two cycles.
pub fn nop<C: Cartridge + Memory>(bus: &mut Bus<C>, address_mode: &AddressMode)
    requires
        old(bus).wf(),
        old(bus).clock + 16 <= i64::MAX,
    ensures
        final(bus).wf(),
        final(bus).ram.memory@ == old(bus).ram.memory@,
        final(bus).clock == old(bus).clock + base_cycles_spec(Instruction::NOP(*address_mode)),
        final(bus).cpu == (old(bus).cpu),
{
    bus.tick(base_cycles(&Instruction::NOP(*address_mode)) as i64);
}

/// Halts the processor: every later step executes nothing.
pub fn kil<C: Cartridge + Memory>(bus: &mut Bus<C>, address_mode: &AddressMode)
    requires
        old(bus).wf(),
        old(bus).clock + 16 <= i64::MAX,
    ensures
        final(bus).wf(),
        final(bus).ram.memory@ == old(bus).ram.memory@,
        final(bus).clock == old(bus).clock + base_cycles_spec(Instruction::KIL(*address_mode)),
        final(bus).cpu == (Cpu { halted: true, ..old(bus).cpu }),
{
    bus.cpu.halted = true;
    bus.tick(base_cycles(&Instruction::KIL(*address_mode)) as i64);
}

/// Pushes the accumulator.
pub fn pha<C: Cartridge + Memory>(bus: &mut Bus<C>, address_mode: &AddressMode)
    requires
        old(bus).wf(),
        old(bus).clock + 16 <= i64::MAX,
    ensures
        final(bus).wf(),
        final(bus).clock == old(bus).clock + 3,
        final(bus).cpu == (Cpu {
            stack_ptr: wrap_dec8(old(bus).cpu.stack_ptr),
            ..old(bus).cpu
        }),
        final(bus).ram.memory@ == old(bus).ram.memory@.update(
            0x100 + old(bus).cpu.stack_ptr as int,
            old(bus).cpu.accumulator,
        ),
{
    let value = bus.cpu.accumulator;
    bus.stack_push(value);
    bus.tick(base_cycles(&Instruction::PHA(*address_mode)) as i64);
}

/// Pushes the status byte with B and Unused set in the pushed copy; the live
/// register does not change.
pub fn php<C: Cartridge + Memory>(bus: &mut Bus<C>, address_mode: &AddressMode)
    requires
        old(bus).wf(),
        old(bus).clock + 16 <= i64::MAX,
    ensures
        final(bus).wf(),
        final(bus).clock == old(bus).clock + 3,
        final(bus).cpu == (Cpu {
            stack_ptr: wrap_dec8(old(bus).cpu.stack_ptr),
            ..old(bus).cpu
        }),
        final(bus).ram.memory@ == old(bus).ram.memory@.update(
            0x100 + old(bus).cpu.stack_ptr as int,
            php_pushed(old(bus).cpu.status.bits),
        ),
        bit_set(php_pushed(old(bus).cpu.status.bits), UNUSED),
{
    let value = bus.cpu.status.bits() | (crate::status::BREAK_FLAG | UNUSED);
    bus.stack_push(value);
    bus.tick(base_cycles(&Instruction::PHP(*address_mode)) as i64);
    proof {
        crate::cpu::lemma_unused_bit_stays_set(old(bus).cpu.status.bits, 0, 0, false, 0, false);
    }
}

/// Pops into the accumulator, with Negative and Zero.
pub fn pla<C: Cartridge + Memory>(bus: &mut Bus<C>, address_mode: &AddressMode)
    requires
        old(bus).wf(),
        old(bus).clock + 16 <= i64::MAX,
    ensures
        final(bus).wf(),
        bit_set(old(bus).cpu.status.bits, UNUSED) ==> bit_set(final(bus).cpu.status.bits, UNUSED),
        final(bus).clock == old(bus).clock + 4,
        final(bus).ram.memory@ == old(bus).ram.memory@,
        final(bus).cpu == ({
            let v = old(bus).ram.memory@[0x100 + wrap_inc8(old(bus).cpu.stack_ptr) as int];
            Cpu {
                accumulator: v,
                stack_ptr: wrap_inc8(old(bus).cpu.stack_ptr),
                status: (Status { bits: nz(old(bus).cpu.status.bits, v) }),
                ..old(bus).cpu
            }
        }),
{
    proof {
        crate::cpu::lemma_flag_updates_keep_unused();
    }
    let value = bus.stack_pop();
    crate::cpu::test_and_set_negative_flag(&mut bus.cpu, value);
    crate::cpu::test_and_set_zero_flag(&mut bus.cpu, value);
    bus.cpu.accumulator = value;
    bus.tick(base_cycles(&Instruction::PLA(*address_mode)) as i64);
}

/// Pops the status byte; bits 4 and 5 of the popped byte do not reach the
/// live register.
pub fn plp<C: Cartridge + Memory>(bus: &mut Bus<C>, address_mode: &AddressMode)
    requires
        old(bus).wf(),
        old(bus).clock + 16 <= i64::MAX,
    ensures
        final(bus).wf(),
        bit_set(old(bus).cpu.status.bits, UNUSED) ==> bit_set(final(bus).cpu.status.bits, UNUSED),
        final(bus).clock == old(bus).clock + 4,
        final(bus).ram.memory@ == old(bus).ram.memory@,
        final(bus).cpu == (Cpu {
            stack_ptr: wrap_inc8(old(bus).cpu.stack_ptr),
            status: (Status {
                bits: plp_merge(
                    old(bus).cpu.status.bits,
                    old(bus).ram.memory@[0x100 + wrap_inc8(old(bus).cpu.stack_ptr) as int],
                ),
            }),
            ..old(bus).cpu
        }),
{
    proof {
        crate::cpu::lemma_flag_updates_keep_unused();
    }
    let value = bus.stack_pop();
    crate::cpu::plp_value(&mut bus.cpu, value);
    bus.tick(base_cycles(&Instruction::PLP(*address_mode)) as i64);
}

/// Returns from an interrupt: pops the status byte (B and Unused keep their
/// live values), then the program counter, low byte first.
pub fn rti<C: Cartridge + Memory>(bus: &mut Bus<C>, address_mode: &AddressMode)
    requires
        old(bus).wf(),
        old(bus).clock + 16 <= i64::MAX,
    ensures
        final(bus).wf(),
        bit_set(old(bus).cpu.status.bits, UNUSED) ==> bit_set(final(bus).cpu.status.bits, UNUSED),
        final(bus).clock == old(bus).clock + 6,
        final(bus).ram.memory@ == old(bus).ram.memory@,
        final(bus).cpu == ({
            let sp = old(bus).cpu.stack_ptr;
            let popped = old(bus).ram.memory@[0x100 + wrap_inc8(sp) as int];
            let lo = old(bus).ram.memory@[0x100 + wrap_inc8(wrap_inc8(sp)) as int];
            let hi = old(bus).ram.memory@[0x100 + wrap_inc8(wrap_inc8(wrap_inc8(sp))) as int];
            Cpu {
                stack_ptr: wrap_inc8(wrap_inc8(wrap_inc8(sp))),
                status: (Status { bits: plp_merge(old(bus).cpu.status.bits, popped) }),
                program_counter: word(lo, hi),
                ..old(bus).cpu
            }
        }),
{
    proof {
        crate::cpu::lemma_flag_updates_keep_unused();
    }
    let value = bus.stack_pop();
    crate::cpu::plp_value(&mut bus.cpu, value);
    let lo = bus.stack_pop();
    let hi = bus.stack_pop();
    bus.cpu.program_counter = crate::cpu::make_word(lo, hi);
    bus.tick(base_cycles(&Instruction::RTI(*address_mode)) as i64);
}

/// Returns from a subroutine: pops the return address, low byte first, and
/// resumes one byte past it.
pub fn rts<C: Cartridge + Memory>(bus: &mut Bus<C>, address_mode: &AddressMode)
    requires
        old(bus).wf(),
        old(bus).clock + 16 <= i64::MAX,
    ensures
        final(bus).wf(),
        final(bus).clock == old(bus).clock + 6,
        final(bus).ram.memory@ == old(bus).ram.memory@,
        final(bus).cpu == ({
            let sp = old(bus).cpu.stack_ptr;
            let lo = old(bus).ram.memory@[0x100 + wrap_inc8(sp) as int];
            let hi = old(bus).ram.memory@[0x100 + wrap_inc8(wrap_inc8(sp)) as int];
            Cpu {
                stack_ptr: wrap_inc8(wrap_inc8(sp)),
                program_counter: wrap_add16(word(lo, hi), 1),
                ..old(bus).cpu
            }
        }),
{
    let lo = bus.stack_pop();
    let hi = bus.stack_pop();
    let target = crate::cpu::make_word(lo, hi);
    let next: u16 = if target == 0xFFFF {
        0
    } else {
        target + 1
    };
    bus.cpu.program_counter = next;
    bus.tick(base_cycles(&Instruction::RTS(*address_mode)) as i64);
    proof {
        assert(wrap_add16(target, 1) == next);
    }
}

/// Calls a subroutine: pushes the address of the last operand byte (one
/// before the return address), high byte first, and jumps to the operand.
pub fn jsr<C: Cartridge + Memory>(bus: &mut Bus<C>, address_mode: &AddressMode)
    requires
        old(bus).wf(),
        is_operand_mode(*address_mode),
        old(bus).clock + 16 <= i64::MAX,
    ensures
        final(bus).wf(),
        final(bus).clock == old(bus).clock + 6,
        final(bus).cpu.stack_ptr == wrap_dec8(wrap_dec8(old(bus).cpu.stack_ptr)),
        final(bus).cpu.accumulator == old(bus).cpu.accumulator,
        final(bus).cpu.index_x == old(bus).cpu.index_x,
        final(bus).cpu.index_y == old(bus).cpu.index_y,
        final(bus).cpu.status == old(bus).cpu.status,
        final(bus).cpu.halted == old(bus).cpu.halted,
        final(bus).ram.memory@ == ({
            let ret = wrap_add16(old(bus).cpu.program_counter, operand_len(*address_mode));
            let sp = old(bus).cpu.stack_ptr;
            old(bus).ram.memory@.update(0x100 + sp as int, hi_byte(jsr_pushed(ret))).update(
                0x100 + wrap_dec8(sp) as int,
                lo_byte(jsr_pushed(ret)),
            )
        }),
        exists|a: int|
            #[trigger] effective_addr_rel(*old(bus), *address_mode, a) && final(bus).cpu.program_counter == a as u16,
{
    let (param, _) = decode_address(bus, address_mode);
    let pc = bus.cpu.program_counter;
    let pushed: u16 = if pc == 0 {
        0xFFFF
    } else {
        pc - 1
    };
    proof {
        assert(jsr_pushed(pc) == pushed);
        assert(effective_addr_rel(*old(bus), *address_mode, param as int));
    }
    bus.stack_push((pushed / 256) as u8);
    bus.stack_push((pushed % 256) as u8);
    bus.cpu.program_counter = param as u16;
    bus.tick(base_cycles(&Instruction::JSR(*address_mode)) as i64);
}

/// Jumps to the effective address: the operand word, or for the indirect
/// form the word it points at, with the page-wrap quirk.
pub fn jmp<C: Cartridge + Memory>(bus: &mut Bus<C>, address_mode: &AddressMode)
    requires
        old(bus).wf(),
        is_operand_mode(*address_mode),
        old(bus).clock + 16 <= i64::MAX,
    ensures
        final(bus).wf(),
        final(bus).clock == old(bus).clock + base_cycles_spec(Instruction::JMP(*address_mode)),
        final(bus).ram.memory@ == old(bus).ram.memory@,
        final(bus).cpu.accumulator == old(bus).cpu.accumulator,
        final(bus).cpu.index_x == old(bus).cpu.index_x,
        final(bus).cpu.index_y == old(bus).cpu.index_y,
        final(bus).cpu.stack_ptr == old(bus).cpu.stack_ptr,
        final(bus).cpu.status == old(bus).cpu.status,
        final(bus).cpu.halted == old(bus).cpu.halted,
        exists|a: int|
            #[trigger] effective_addr_rel(*old(bus), *address_mode, a) && final(bus).cpu.program_counter == a as u16,
{
    let (address, _) = decode_address(bus, address_mode);
    bus.cpu.program_counter = address as u16;
    bus.tick(base_cycles(&Instruction::JMP(*address_mode)) as i64);
    proof {
        assert(effective_addr_rel(*old(bus), *address_mode, address as int));
    }
}

/// The shared branch rule: decode the relative operand; when the condition
/// holds, move the program counter to the target and pay one cycle, plus a
/// second when the target sits on another page than the instruction that
/// follows the branch.
pub fn branch_helper<C: Cartridge + Memory>(
    bus: &mut Bus<C>,
    address_mode: &AddressMode,
    is_branch: bool,
)
    requires
        old(bus).wf(),
        *address_mode == AddressMode::Relative,
        old(bus).clock + 2 <= i64::MAX,
    ensures
        final(bus).wf(),
        final(bus).ram.memory@ == old(bus).ram.memory@,
        final(bus).cpu.accumulator == old(bus).cpu.accumulator,
        final(bus).cpu.index_x == old(bus).cpu.index_x,
        final(bus).cpu.index_y == old(bus).cpu.index_y,
        final(bus).cpu.stack_ptr == old(bus).cpu.stack_ptr,
        final(bus).cpu.status == old(bus).cpu.status,
        final(bus).cpu.halted == old(bus).cpu.halted,
        !is_branch ==> final(bus).cpu.program_counter == wrap_inc16(old(bus).cpu.program_counter)
            && final(bus).clock == old(bus).clock,
        is_branch ==> (exists|offset: u8|
            {
                let target = #[trigger] relative_target(
                    wrap_inc16(old(bus).cpu.program_counter),
                    offset,
                );
                &&& final(bus).cpu.program_counter == target
                &&& (old(bus).cpu.program_counter < 0x2000 ==> offset == old(
                    bus,
                ).ram.memory@[ram_index(old(bus).cpu.program_counter as int)])
                &&& final(bus).clock == old(bus).clock + (if page_of(
                    wrap_inc16(old(bus).cpu.program_counter),
                ) == page_of(target) {
                    1int
                } else {
                    2int
                })
            }),
{
    let (address, is_same_page) = decode_address(bus, address_mode);
    if is_branch {
        bus.cpu.program_counter = address as u16;
        if is_same_page {
            bus.tick(1);
        } else {
            bus.tick(2);
        }
    }
}

/// Branches when Carry is clear. A branch not taken costs the two base
/// cycles and falls through to the byte after the operand; a taken branch
/// pays one more cycle, and a second if it lands on another page.
pub fn bcc<C: Cartridge + Memory>(bus: &mut Bus<C>, address_mode: &AddressMode)
    requires
        old(bus).wf(),
        *address_mode == AddressMode::Relative,
        old(bus).clock + 16 <= i64::MAX,
    ensures
        final(bus).wf(),
        final(bus).ram.memory@ == old(bus).ram.memory@,
        final(bus).cpu.accumulator == old(bus).cpu.accumulator,
        final(bus).cpu.index_x == old(bus).cpu.index_x,
        final(bus).cpu.index_y == old(bus).cpu.index_y,
        final(bus).cpu.stack_ptr == old(bus).cpu.stack_ptr,
        final(bus).cpu.status == old(bus).cpu.status,
        final(bus).cpu.halted == old(bus).cpu.halted,
        bit_set(old(bus).cpu.status.bits, CARRY) ==> final(bus).cpu.program_counter == wrap_inc16(
            old(bus).cpu.program_counter,
        ) && final(bus).clock == old(bus).clock + 2,
        !bit_set(old(bus).cpu.status.bits, CARRY) ==> (exists|offset: u8|
            {
                let target = #[trigger] relative_target(
                    wrap_inc16(old(bus).cpu.program_counter),
                    offset,
                );
                &&& final(bus).cpu.program_counter == target
                &&& (old(bus).cpu.program_counter < 0x2000 ==> offset == old(
                    bus,
                ).ram.memory@[ram_index(old(bus).cpu.program_counter as int)])
                &&& final(bus).clock == old(bus).clock + 2 + (if page_of(
                    wrap_inc16(old(bus).cpu.program_counter),
                ) == page_of(target) {
                    1int
                } else {
                    2int
                })
            }),
{
    let is_branch = !bus.cpu.status.contains(Status::from_bits(CARRY));
    branch_helper(bus, address_mode, is_branch);
    bus.tick(base_cycles(&Instruction::BCC(*address_mode)) as i64);
}

/// Branches when Carry is set. A branch not taken costs the two base
/// cycles and falls through to the byte after the operand; a taken branch
/// pays one more cycle, and a second if it lands on another page.
pub fn bcs<C: Cartridge + Memory>(bus: &mut Bus<C>, address_mode: &AddressMode)
    requires
        old(bus).wf(),
        *address_mode == AddressMode::Relative,
        old(bus).clock + 16 <= i64::MAX,
    ensures
        final(bus).wf(),
        final(bus).ram.memory@ == old(bus).ram.memory@,
        final(bus).cpu.accumulator == old(bus).cpu.accumulator,
        final(bus).cpu.index_x == old(bus).cpu.index_x,
        final(bus).cpu.index_y == old(bus).cpu.index_y,
        final(bus).cpu.stack_ptr == old(bus).cpu.stack_ptr,
        final(bus).cpu.status == old(bus).cpu.status,
        final(bus).cpu.halted == old(bus).cpu.halted,
        !bit_set(old(bus).cpu.status.bits, CARRY) ==> final(bus).cpu.program_counter == wrap_inc16(
            old(bus).cpu.program_counter,
        ) && final(bus).clock == old(bus).clock + 2,
        bit_set(old(bus).cpu.status.bits, CARRY) ==> (exists|offset: u8|
            {
                let target = #[trigger] relative_target(
                    wrap_inc16(old(bus).cpu.program_counter),
                    offset,
                );
                &&& final(bus).cpu.program_counter == target
                &&& (old(bus).cpu.program_counter < 0x2000 ==> offset == old(
                    bus,
                ).ram.memory@[ram_index(old(bus).cpu.program_counter as int)])
                &&& final(bus).clock == old(bus).clock + 2 + (if page_of(
                    wrap_inc16(old(bus).cpu.program_counter),
                ) == page_of(target) {
                    1int
                } else {
                    2int
                })
            }),
{
    let is_branch = bus.cpu.status.contains(Status::from_bits(CARRY));
    branch_helper(bus, address_mode, is_branch);
    bus.tick(base_cycles(&Instruction::BCS(*address_mode)) as i64);
}

/// Branches when Zero is set. A branch not taken costs the two base
/// cycles and falls through to the byte after the operand; a taken branch
/// pays one more cycle, and a second if it lands on another page.
pub fn beq<C: Cartridge + Memory>(bus: &mut Bus<C>, address_mode: &AddressMode)
    requires
        old(bus).wf(),
        *address_mode == AddressMode::Relative,
        old(bus).clock + 16 <= i64::MAX,
    ensures
        final(bus).wf(),
        final(bus).ram.memory@ == old(bus).ram.memory@,
        final(bus).cpu.accumulator == old(bus).cpu.accumulator,
        final(bus).cpu.index_x == old(bus).cpu.index_x,
        final(bus).cpu.index_y == old(bus).cpu.index_y,
        final(bus).cpu.stack_ptr == old(bus).cpu.stack_ptr,
        final(bus).cpu.status == old(bus).cpu.status,
        final(bus).cpu.halted == old(bus).cpu.halted,
        !bit_set(old(bus).cpu.status.bits, ZERO) ==> final(bus).cpu.program_counter == wrap_inc16(
            old(bus).cpu.program_counter,
        ) && final(bus).clock == old(bus).clock + 2,
        bit_set(old(bus).cpu.status.bits, ZERO) ==> (exists|offset: u8|
            {
                let target = #[trigger] relative_target(
                    wrap_inc16(old(bus).cpu.program_counter),
                    offset,
                );
                &&& final(bus).cpu.program_counter == target
                &&& (old(bus).cpu.program_counter < 0x2000 ==> offset == old(
                    bus,
                ).ram.memory@[ram_index(old(bus).cpu.program_counter as int)])
                &&& final(bus).clock == old(bus).clock + 2 + (if page_of(
                    wrap_inc16(old(bus).cpu.program_counter),
                ) == page_of(target) {
                    1int
                } else {
                    2int
                })
            }),
{
    let is_branch = bus.cpu.status.contains(Status::from_bits(ZERO));
    branch_helper(bus, address_mode, is_branch);
    bus.tick(base_cycles(&Instruction::BEQ(*address_mode)) as i64);
}

/// Branches when Zero is clear. A branch not taken costs the two base
/// cycles and falls through to the byte after the operand; a taken branch
/// pays one more cycle, and a second if it lands on another page.
pub fn bne<C: Cartridge + Memory>(bus: &mut Bus<C>, address_mode: &AddressMode)
    requires
        old(bus).wf(),
        *address_mode == AddressMode::Relative,
        old(bus).clock + 16 <= i64::MAX,
    ensures
        final(bus).wf(),
        final(bus).ram.memory@ == old(bus).ram.memory@,
        final(bus).cpu.accumulator == old(bus).cpu.accumulator,
        final(bus).cpu.index_x == old(bus).cpu.index_x,
        final(bus).cpu.index_y == old(bus).cpu.index_y,
        final(bus).cpu.stack_ptr == old(bus).cpu.stack_ptr,
        final(bus).cpu.status == old(bus).cpu.status,
        final(bus).cpu.halted == old(bus).cpu.halted,
        bit_set(old(bus).cpu.status.bits, ZERO) ==> final(bus).cpu.program_counter == wrap_inc16(
            old(bus).cpu.program_counter,
        ) && final(bus).clock == old(bus).clock + 2,
        !bit_set(old(bus).cpu.status.bits, ZERO) ==> (exists|offset: u8|
            {
                let target = #[trigger] relative_target(
                    wrap_inc16(old(bus).cpu.program_counter),
                    offset,
                );
                &&& final(bus).cpu.program_counter == target
                &&& (old(bus).cpu.program_counter < 0x2000 ==> offset == old(
                    bus,
                ).ram.memory@[ram_index(old(bus).cpu.program_counter as int)])
                &&& final(bus).clock == old(bus).clock + 2 + (if page_of(
                    wrap_inc16(old(bus).cpu.program_counter),
                ) == page_of(target) {
                    1int
                } else {
                    2int
                })
            }),
{
    let is_branch = !bus.cpu.status.contains(Status::from_bits(ZERO));
    branch_helper(bus, address_mode, is_branch);
    bus.tick(base_cycles(&Instruction::BNE(*address_mode)) as i64);
}

/// Branches when Negative is set. A branch not taken costs the two base
/// cycles and falls through to the byte after the operand; a taken branch
/// pays one more cycle, and a second if it lands on another page.
pub fn bmi<C: Cartridge + Memory>(bus: &mut Bus<C>, address_mode: &AddressMode)
    requires
        old(bus).wf(),
        *address_mode == AddressMode::Relative,
        old(bus).clock + 16 <= i64::MAX,
    ensures
        final(bus).wf(),
        final(bus).ram.memory@ == old(bus).ram.memory@,
        final(bus).cpu.accumulator == old(bus).cpu.accumulator,
        final(bus).cpu.index_x == old(bus).cpu.index_x,
        final(bus).cpu.index_y == old(bus).cpu.index_y,
        final(bus).cpu.stack_ptr == old(bus).cpu.stack_ptr,
        final(bus).cpu.status == old(bus).cpu.status,
        final(bus).cpu.halted == old(bus).cpu.halted,
        !bit_set(old(bus).cpu.status.bits, NEGATIVE) ==> final(bus).cpu.program_counter == wrap_inc16(
            old(bus).cpu.program_counter,
        ) && final(bus).clock == old(bus).clock + 2,
        bit_set(old(bus).cpu.status.bits, NEGATIVE) ==> (exists|offset: u8|
            {
                let target = #[trigger] relative_target(
                    wrap_inc16(old(bus).cpu.program_counter),
                    offset,
                );
                &&& final(bus).cpu.program_counter == target
                &&& (old(bus).cpu.program_counter < 0x2000 ==> offset == old(
                    bus,
                ).ram.memory@[ram_index(old(bus).cpu.program_counter as int)])
                &&& final(bus).clock == old(bus).clock + 2 + (if page_of(
                    wrap_inc16(old(bus).cpu.program_counter),
                ) == page_of(target) {
                    1int
                } else {
                    2int
                })
            }),
{
    let is_branch = bus.cpu.status.contains(Status::from_bits(NEGATIVE));
    branch_helper(bus, address_mode, is_branch);
    bus.tick(base_cycles(&Instruction::BMI(*address_mode)) as i64);
}

/// Branches when Negative is clear. A branch not taken costs the two base
/// cycles and falls through to the byte after the operand; a taken branch
/// pays one more cycle, and a second if it lands on another page.
pub fn bpl<C: Cartridge + Memory>(bus: &mut Bus<C>, address_mode: &AddressMode)
    requires
        old(bus).wf(),
        *address_mode == AddressMode::Relative,
        old(bus).clock + 16 <= i64::MAX,
    ensures
        final(bus).wf(),
        final(bus).ram.memory@ == old(bus).ram.memory@,
        final(bus).cpu.accumulator == old(bus).cpu.accumulator,
        final(bus).cpu.index_x == old(bus).cpu.index_x,
        final(bus).cpu.index_y == old(bus).cpu.index_y,
        final(bus).cpu.stack_ptr == old(bus).cpu.stack_ptr,
        final(bus).cpu.status == old(bus).cpu.status,
        final(bus).cpu.halted == old(bus).cpu.halted,
        bit_set(old(bus).cpu.status.bits, NEGATIVE) ==> final(bus).cpu.program_counter == wrap_inc16(
            old(bus).cpu.program_counter,
        ) && final(bus).clock == old(bus).clock + 2,
        !bit_set(old(bus).cpu.status.bits, NEGATIVE) ==> (exists|offset: u8|
            {
                let target = #[trigger] relative_target(
                    wrap_inc16(old(bus).cpu.program_counter),
                    offset,
                );
                &&& final(bus).cpu.program_counter == target
                &&& (old(bus).cpu.program_counter < 0x2000 ==> offset == old(
                    bus,
                ).ram.memory@[ram_index(old(bus).cpu.program_counter as int)])
                &&& final(bus).clock == old(bus).clock + 2 + (if page_of(
                    wrap_inc16(old(bus).cpu.program_counter),
                ) == page_of(target) {
                    1int
                } else {
                    2int
                })
            }),
{
    let is_branch = !bus.cpu.status.contains(Status::from_bits(NEGATIVE));
    branch_helper(bus, address_mode, is_branch);
    bus.tick(base_cycles(&Instruction::BPL(*address_mode)) as i64);
}

/// Branches when Overflow is set. A branch not taken costs the two base
/// cycles and falls through to the byte after the operand; a taken branch
/// pays one more cycle, and a second if it lands on another page.
pub fn bvs<C: Cartridge + Memory>(bus: &mut Bus<C>, address_mode: &AddressMode)
    requires
        old(bus).wf(),
        *address_mode == AddressMode::Relative,
        old(bus).clock + 16 <= i64::MAX,
    ensures
        final(bus).wf(),
        final(bus).ram.memory@ == old(bus).ram.memory@,
        final(bus).cpu.accumulator == old(bus).cpu.accumulator,
        final(bus).cpu.index_x == old(bus).cpu.index_x,
        final(bus).cpu.index_y == old(bus).cpu.index_y,
        final(bus).cpu.stack_ptr == old(bus).cpu.stack_ptr,
        final(bus).cpu.status == old(bus).cpu.status,
        final(bus).cpu.halted == old(bus).cpu.halted,
        !bit_set(old(bus).cpu.status.bits, OVERFLOW) ==> final(bus).cpu.program_counter == wrap_inc16(
            old(bus).cpu.program_counter,
        ) && final(bus).clock == old(bus).clock + 2,
        bit_set(old(bus).cpu.status.bits, OVERFLOW) ==> (exists|offset: u8|
            {
                let target = #[trigger] relative_target(
                    wrap_inc16(old(bus).cpu.program_counter),
                    offset,
                );
                &&& final(bus).cpu.program_counter == target
                &&& (old(bus).cpu.program_counter < 0x2000 ==> offset == old(
                    bus,
                ).ram.memory@[ram_index(old(bus).cpu.program_counter as int)])
                &&& final(bus).clock == old(bus).clock + 2 + (if page_of(
                    wrap_inc16(old(bus).cpu.program_counter),
                ) == page_of(target) {
                    1int
                } else {
                    2int
                })
            }),
{
    let is_branch = bus.cpu.status.contains(Status::from_bits(OVERFLOW));
    branch_helper(bus, address_mode, is_branch);
    bus.tick(base_cycles(&Instruction::BVS(*address_mode)) as i64);
}

/// Branches when Overflow is clear. A branch not taken costs the two base
/// cycles and falls through to the byte after the operand; a taken branch
/// pays one more cycle, and a second if it lands on another page.
pub fn bvc<C: Cartridge + Memory>(bus: &mut Bus<C>, address_mode: &AddressMode)
    requires
        old(bus).wf(),
        *address_mode == AddressMode::Relative,
        old(bus).clock + 16 <= i64::MAX,
    ensures
        final(bus).wf(),
        final(bus).ram.memory@ == old(bus).ram.memory@,
        final(bus).cpu.accumulator == old(bus).cpu.accumulator,
        final(bus).cpu.index_x == old(bus).cpu.index_x,
        final(bus).cpu.index_y == old(bus).cpu.index_y,
        final(bus).cpu.stack_ptr == old(bus).cpu.stack_ptr,
        final(bus).cpu.status == old(bus).cpu.status,
        final(bus).cpu.halted == old(bus).cpu.halted,
        bit_set(old(bus).cpu.status.bits, OVERFLOW) ==> final(bus).cpu.program_counter == wrap_inc16(
            old(bus).cpu.program_counter,
        ) && final(bus).clock == old(bus).clock + 2,
        !bit_set(old(bus).cpu.status.bits, OVERFLOW) ==> (exists|offset: u8|
            {
                let target = #[trigger] relative_target(
                    wrap_inc16(old(bus).cpu.program_counter),
                    offset,
                );
                &&& final(bus).cpu.program_counter == target
                &&& (old(bus).cpu.program_counter < 0x2000 ==> offset == old(
                    bus,
                ).ram.memory@[ram_index(old(bus).cpu.program_counter as int)])
                &&& final(bus).clock == old(bus).clock + 2 + (if page_of(
                    wrap_inc16(old(bus).cpu.program_counter),
                ) == page_of(target) {
                    1int
                } else {
                    2int
                })
            }),
{
    let is_branch = !bus.cpu.status.contains(Status::from_bits(OVERFLOW));
    branch_helper(bus, address_mode, is_branch);
    bus.tick(base_cycles(&Instruction::BVC(*address_mode)) as i64);
}

/// Decrements the memory operand in place, then compares the accumulator
/// against the decremented byte.
pub fn dcp<C: Cartridge + Memory>(bus: &mut Bus<C>, address_mode: &AddressMode)
    requires
        old(bus).wf(),
        is_operand_mode(*address_mode),
        old(bus).clock + 16 <= i64::MAX,
    ensures
        final(bus).wf(),
        bit_set(old(bus).cpu.status.bits, UNUSED) ==> bit_set(final(bus).cpu.status.bits, UNUSED),
        final(bus).clock == old(bus).clock + base_cycles_spec(Instruction::DCP(*address_mode)),
        exists|a: int, m: u8|
            #[trigger] rmw_effect(*old(bus), *final(bus), *address_mode, a, m, wrap_dec8(m)) && final(bus).cpu == (
            Cpu { status: (Status { bits: status_after_compare(old(bus).cpu.status.bits, old(bus).cpu.accumulator, wrap_dec8(m)) }), ..pc_plus(old(bus).cpu, operand_len(*address_mode)) }),
{
    proof {
        crate::cpu::lemma_flag_updates_keep_unused();
    }
    let (address, _) = decode_address(bus, address_mode);
    let param = bus.read(address);
    let result: u8 = if param == 0 {
        0xFF
    } else {
        param - 1
    };
    let left = bus.cpu.accumulator;
    crate::cpu::compare_value(&mut bus.cpu, left, result);
    bus.write(address, result);
    bus.tick(base_cycles(&Instruction::DCP(*address_mode)) as i64);
    proof {
        assert(rmw_effect(*old(bus), *final(bus), *address_mode, address as int, param, wrap_dec8(param)));
                assert(final(bus).cpu == (Cpu { status: (Status { bits: status_after_compare(old(bus).cpu.status.bits, old(bus).cpu.accumulator, wrap_dec8(param)) }), ..pc_plus(old(bus).cpu, operand_len(*address_mode)) }));
    }
}

/// Increments the memory operand in place, then subtracts it from the
/// accumulator by the SBC rule.
pub fn isc<C: Cartridge + Memory>(bus: &mut Bus<C>, address_mode: &AddressMode)
    requires
        old(bus).wf(),
        is_operand_mode(*address_mode),
        old(bus).clock + 16 <= i64::MAX,
    ensures
        final(bus).wf(),
        bit_set(old(bus).cpu.status.bits, UNUSED) ==> bit_set(final(bus).cpu.status.bits, UNUSED),
        final(bus).clock == old(bus).clock + base_cycles_spec(Instruction::ISC(*address_mode)),
        exists|a: int, m: u8|
            #[trigger] rmw_effect(*old(bus), *final(bus), *address_mode, a, m, wrap_inc8(m)) && final(bus).cpu == (
            Cpu { accumulator: adc_output(old(bus).cpu.accumulator, !wrap_inc8(m), bit_set(old(bus).cpu.status.bits, CARRY)), status: (Status { bits: status_after_adc(old(bus).cpu.status.bits, old(bus).cpu.accumulator, !wrap_inc8(m), bit_set(old(bus).cpu.status.bits, CARRY)) }), ..pc_plus(old(bus).cpu, operand_len(*address_mode)) }),
{
    proof {
        crate::cpu::lemma_flag_updates_keep_unused();
    }
    let (address, _) = decode_address(bus, address_mode);
    let param = bus.read(address);
    let result: u8 = if param == 0xFF {
        0
    } else {
        param + 1
    };
    crate::cpu::adc_value(&mut bus.cpu, !result);
    bus.write(address, result);
    bus.tick(base_cycles(&Instruction::ISC(*address_mode)) as i64);
    proof {
        assert(rmw_effect(*old(bus), *final(bus), *address_mode, address as int, param, wrap_inc8(param)));
                assert(final(bus).cpu == (Cpu { accumulator: adc_output(old(bus).cpu.accumulator, !wrap_inc8(param), bit_set(old(bus).cpu.status.bits, CARRY)), status: (Status { bits: status_after_adc(old(bus).cpu.status.bits, old(bus).cpu.accumulator, !wrap_inc8(param), bit_set(old(bus).cpu.status.bits, CARRY)) }), ..pc_plus(old(bus).cpu, operand_len(*address_mode)) }));
    }
}

/// Shifts the memory operand left in place, Carry receiving bit 7, then
/// ors the shifted byte into the accumulator.
pub fn slo<C: Cartridge + Memory>(bus: &mut Bus<C>, address_mode: &AddressMode)
    requires
        old(bus).wf(),
        is_operand_mode(*address_mode),
        old(bus).clock + 16 <= i64::MAX,
    ensures
        final(bus).wf(),
        bit_set(old(bus).cpu.status.bits, UNUSED) ==> bit_set(final(bus).cpu.status.bits, UNUSED),
        final(bus).clock == old(bus).clock + base_cycles_spec(Instruction::SLO(*address_mode)),
        exists|a: int, m: u8|
            #[trigger] rmw_effect(*old(bus), *final(bus), *address_mode, a, m, asl_output(m)) && final(bus).cpu == (
            Cpu { accumulator: old(bus).cpu.accumulator | asl_output(m), status: (Status { bits: nz(with_flag(old(bus).cpu.status.bits, CARRY, bit_set(m, 0x80)), old(bus).cpu.accumulator | asl_output(m)) }), ..pc_plus(old(bus).cpu, operand_len(*address_mode)) }),
{
    proof {
        crate::cpu::lemma_flag_updates_keep_unused();
    }
    let (address, _) = decode_address(bus, address_mode);
    let param = bus.read(address);
    bus.cpu.status.set_flags(Status::from_bits(CARRY), param & 0x80 != 0);
    let shifted: u8 = ((param as u16 * 2) % 256) as u8;
    bus.write(address, shifted);
    let result = bus.cpu.accumulator | shifted;
    bus.cpu.accumulator = result;
    crate::cpu::test_and_set_negative_flag(&mut bus.cpu, result);
    crate::cpu::test_and_set_zero_flag(&mut bus.cpu, result);
    bus.tick(base_cycles(&Instruction::SLO(*address_mode)) as i64);
    proof {
        assert(rmw_effect(*old(bus), *final(bus), *address_mode, address as int, param, asl_output(param)));
                assert(final(bus).cpu == (Cpu { accumulator: old(bus).cpu.accumulator | asl_output(param), status: (Status { bits: nz(with_flag(old(bus).cpu.status.bits, CARRY, bit_set(param, 0x80)), old(bus).cpu.accumulator | asl_output(param)) }), ..pc_plus(old(bus).cpu, operand_len(*address_mode)) }));
    }
}

/// Shifts the memory operand right in place, Carry receiving bit 0, then
/// exclusive-ors the shifted byte into the accumulator.
pub fn sre<C: Cartridge + Memory>(bus: &mut Bus<C>, address_mode: &AddressMode)
    requires
        old(bus).wf(),
        is_operand_mode(*address_mode),
        old(bus).clock + 16 <= i64::MAX,
    ensures
        final(bus).wf(),
        bit_set(old(bus).cpu.status.bits, UNUSED) ==> bit_set(final(bus).cpu.status.bits, UNUSED),
        final(bus).clock == old(bus).clock + base_cycles_spec(Instruction::SRE(*address_mode)),
        exists|a: int, m: u8|
            #[trigger] rmw_effect(*old(bus), *final(bus), *address_mode, a, m, lsr_output(m)) && final(bus).cpu == (
            Cpu { accumulator: old(bus).cpu.accumulator ^ (m / 2), status: (Status { bits: nz(with_flag(old(bus).cpu.status.bits, CARRY, bit_set(m, 0x01)), old(bus).cpu.accumulator ^ (m / 2)) }), ..pc_plus(old(bus).cpu, operand_len(*address_mode)) }),
{
    proof {
        crate::cpu::lemma_flag_updates_keep_unused();
    }
    let (address, _) = decode_address(bus, address_mode);
    let param = bus.read(address);
    bus.cpu.status.set_flags(Status::from_bits(CARRY), param & 0x01 != 0);
    let shifted: u8 = param / 2;
    bus.write(address, shifted);
    let result = bus.cpu.accumulator ^ shifted;
    bus.cpu.accumulator = result;
    crate::cpu::test_and_set_negative_flag(&mut bus.cpu, result);
    crate::cpu::test_and_set_zero_flag(&mut bus.cpu, result);
    bus.tick(base_cycles(&Instruction::SRE(*address_mode)) as i64);
    proof {
        assert(rmw_effect(*old(bus), *final(bus), *address_mode, address as int, param, lsr_output(param)));
                assert(final(bus).cpu == (Cpu { accumulator: old(bus).cpu.accumulator ^ (param / 2), status: (Status { bits: nz(with_flag(old(bus).cpu.status.bits, CARRY, bit_set(param, 0x01)), old(bus).cpu.accumulator ^ (param / 2)) }), ..pc_plus(old(bus).cpu, operand_len(*address_mode)) }));
    }
}

/// Rotates the memory operand left through the carry in place, Carry then
/// receiving bit 7, and ands the rotated byte into the accumulator.
pub fn rla<C: Cartridge + Memory>(bus: &mut Bus<C>, address_mode: &AddressMode)
    requires
        old(bus).wf(),
        is_operand_mode(*address_mode),
        old(bus).clock + 16 <= i64::MAX,
    ensures
        final(bus).wf(),
        bit_set(old(bus).cpu.status.bits, UNUSED) ==> bit_set(final(bus).cpu.status.bits, UNUSED),
        final(bus).clock == old(bus).clock + base_cycles_spec(Instruction::RLA(*address_mode)),
        exists|a: int, m: u8|
            #[trigger] rmw_effect(*old(bus), *final(bus), *address_mode, a, m, rol_output(m, bit_set(old(bus).cpu.status.bits, CARRY))) && final(bus).cpu == (
            Cpu { accumulator: old(bus).cpu.accumulator & rol_output(m, bit_set(old(bus).cpu.status.bits, CARRY)), status: (Status { bits: nz(with_flag(old(bus).cpu.status.bits, CARRY, bit_set(m, 0x80)), old(bus).cpu.accumulator & rol_output(m, bit_set(old(bus).cpu.status.bits, CARRY))) }), ..pc_plus(old(bus).cpu, operand_len(*address_mode)) }),
{
    proof {
        crate::cpu::lemma_flag_updates_keep_unused();
    }
    let (address, _) = decode_address(bus, address_mode);
    let param = bus.read(address);
    let carry_in: u16 = if bus.cpu.status.contains(Status::from_bits(CARRY)) {
        1
    } else {
        0
    };
    let rotated: u8 = ((param as u16 * 2 + carry_in) % 256) as u8;
    bus.cpu.status.set_flags(Status::from_bits(CARRY), param & 0x80 != 0);
    bus.write(address, rotated);
    let result = bus.cpu.accumulator & rotated;
    bus.cpu.accumulator = result;
    crate::cpu::test_and_set_negative_flag(&mut bus.cpu, result);
    crate::cpu::test_and_set_zero_flag(&mut bus.cpu, result);
    bus.tick(base_cycles(&Instruction::RLA(*address_mode)) as i64);
    proof {
        assert(rmw_effect(*old(bus), *final(bus), *address_mode, address as int, param, rol_output(param, bit_set(old(bus).cpu.status.bits, CARRY))));
                assert(final(bus).cpu == (Cpu { accumulator: old(bus).cpu.accumulator & rol_output(param, bit_set(old(bus).cpu.status.bits, CARRY)), status: (Status { bits: nz(with_flag(old(bus).cpu.status.bits, CARRY, bit_set(param, 0x80)), old(bus).cpu.accumulator & rol_output(param, bit_set(old(bus).cpu.status.bits, CARRY))) }), ..pc_plus(old(bus).cpu, operand_len(*address_mode)) }));
    }
}

/// Rotates the memory operand right through the carry in place, Carry then
/// receiving bit 0, and adds the rotated byte to the accumulator with that
/// new carry.
pub fn rra<C: Cartridge + Memory>(bus: &mut Bus<C>, address_mode: &AddressMode)
    requires
        old(bus).wf(),
        is_operand_mode(*address_mode),
        old(bus).clock + 16 <= i64::MAX,
    ensures
        final(bus).wf(),
        bit_set(old(bus).cpu.status.bits, UNUSED) ==> bit_set(final(bus).cpu.status.bits, UNUSED),
        final(bus).clock == old(bus).clock + base_cycles_spec(Instruction::RRA(*address_mode)),
        exists|a: int, m: u8|
            #[trigger] rmw_effect(*old(bus), *final(bus), *address_mode, a, m, ror_output(m, bit_set(old(bus).cpu.status.bits, CARRY))) && final(bus).cpu == (
            Cpu { accumulator: adc_output(old(bus).cpu.accumulator, ror_output(m, bit_set(old(bus).cpu.status.bits, CARRY)), bit_set(m, 0x01)), status: (Status { bits: status_after_adc(with_flag(old(bus).cpu.status.bits, CARRY, bit_set(m, 0x01)), old(bus).cpu.accumulator, ror_output(m, bit_set(old(bus).cpu.status.bits, CARRY)), bit_set(m, 0x01)) }), ..pc_plus(old(bus).cpu, operand_len(*address_mode)) }),
{
    proof {
        crate::cpu::lemma_flag_updates_keep_unused();
    }
    let (address, _) = decode_address(bus, address_mode);
    let param = bus.read(address);
    let high: u8 = if bus.cpu.status.contains(Status::from_bits(CARRY)) {
        128
    } else {
        0
    };
    let rotated: u8 = param / 2 + high;
    bus.cpu.status.set_flags(Status::from_bits(CARRY), param & 0x01 != 0);
    bus.write(address, rotated);
    crate::cpu::adc_value(&mut bus.cpu, rotated);
    proof {
        let p0 = old(bus).cpu.status.bits;
        assert(bit_set(with_flag(p0, CARRY, bit_set(param, 0x01)), CARRY) == bit_set(
            param,
            0x01,
        )) by (bit_vector);
    }
    bus.tick(base_cycles(&Instruction::RRA(*address_mode)) as i64);
    proof {
        assert(rmw_effect(*old(bus), *final(bus), *address_mode, address as int, param, ror_output(param, bit_set(old(bus).cpu.status.bits, CARRY))));
                assert(final(bus).cpu == (Cpu { accumulator: adc_output(old(bus).cpu.accumulator, ror_output(param, bit_set(old(bus).cpu.status.bits, CARRY)), bit_set(param, 0x01)), status: (Status { bits: status_after_adc(with_flag(old(bus).cpu.status.bits, CARRY, bit_set(param, 0x01)), old(bus).cpu.accumulator, ror_output(param, bit_set(old(bus).cpu.status.bits, CARRY)), bit_set(param, 0x01)) }), ..pc_plus(old(bus).cpu, operand_len(*address_mode)) }));
    }
}

/// A skip-NOP with a one-byte operand: decodes and discards it.
pub fn dop<C: Cartridge + Memory>(bus: &mut Bus<C>, address_mode: &AddressMode)
    requires
        old(bus).wf(),
        is_operand_mode(*address_mode),
        old(bus).clock + 16 <= i64::MAX,
    ensures
        final(bus).wf(),
        final(bus).ram.memory@ == old(bus).ram.memory@,
        final(bus).cpu == pc_plus(old(bus).cpu, operand_len(*address_mode)),
        final(bus).clock == old(bus).clock + base_cycles_spec(Instruction::DOP(*address_mode)),
{
    let (_, _) = decode_address(bus, address_mode);
    bus.tick(base_cycles(&Instruction::DOP(*address_mode)) as i64);
}

/// A skip-NOP with a two-byte operand: decodes and discards it, paying the
/// page-cross penalty like the read instructions.
pub fn top<C: Cartridge + Memory>(bus: &mut Bus<C>, address_mode: &AddressMode)
    requires
        old(bus).wf(),
        is_operand_mode(*address_mode),
        old(bus).clock + 16 <= i64::MAX,
    ensures
        final(bus).wf(),
        final(bus).ram.memory@ == old(bus).ram.memory@,
        final(bus).cpu == pc_plus(old(bus).cpu, operand_len(*address_mode)),
        !penalty_mode(*address_mode) ==> final(bus).clock == old(bus).clock + base_cycles_spec(
            Instruction::TOP(*address_mode),
        ),
        penalty_mode(*address_mode) ==> old(bus).clock + base_cycles_spec(
            Instruction::TOP(*address_mode),
        ) <= final(bus).clock <= old(bus).clock + base_cycles_spec(
            Instruction::TOP(*address_mode),
        ) + 1,
{
    let (_, is_same_page) = decode_address(bus, address_mode);
    bus.tick(base_cycles(&Instruction::TOP(*address_mode)) as i64);
    cycle_rule_one(bus, address_mode, is_same_page);
}

/// Forces an interrupt: pushes the address one past the padding byte, pushes
/// the status with B and Unused set, sets InterruptDisable, and jumps through
/// the vector at 0xFFFE.
pub fn brk<C: Cartridge + Memory>(bus: &mut Bus<C>, address_mode: &AddressMode)
    requires
        old(bus).wf(),
        old(bus).clock + 16 <= i64::MAX,
    ensures
        final(bus).wf(),
        bit_set(old(bus).cpu.status.bits, UNUSED) ==> bit_set(final(bus).cpu.status.bits, UNUSED),
        final(bus).clock == old(bus).clock + 7,
        final(bus).cpu.stack_ptr == wrap_dec8(wrap_dec8(wrap_dec8(old(bus).cpu.stack_ptr))),
        final(bus).cpu.accumulator == old(bus).cpu.accumulator,
        final(bus).cpu.index_x == old(bus).cpu.index_x,
        final(bus).cpu.index_y == old(bus).cpu.index_y,
        final(bus).cpu.halted == old(bus).cpu.halted,
        final(bus).cpu.status.bits == with_flag(
            old(bus).cpu.status.bits,
            INTERRUPT_DISABLE,
            true,
        ),
        final(bus).ram.memory@ == ({
            let ret = wrap_inc16(old(bus).cpu.program_counter);
            let sp = old(bus).cpu.stack_ptr;
            old(bus).ram.memory@.update(0x100 + sp as int, hi_byte(ret)).update(
                0x100 + wrap_dec8(sp) as int,
                lo_byte(ret),
            ).update(
                0x100 + wrap_dec8(wrap_dec8(sp)) as int,
                php_pushed(old(bus).cpu.status.bits),
            )
        }),
{
    proof {
        crate::cpu::lemma_flag_updates_keep_unused();
    }
    let pc = bus.cpu.program_counter;
    let ret: u16 = if pc == 0xFFFF {
        0
    } else {
        pc + 1
    };
    bus.stack_push((ret / 256) as u8);
    bus.stack_push((ret % 256) as u8);
    let pushed = bus.cpu.status.bits() | (crate::status::BREAK_FLAG | UNUSED);
    bus.stack_push(pushed);
    bus.cpu.status.set_flags(Status::from_bits(INTERRUPT_DISABLE), true);
    let lo = bus.read(0xFFFE);
    let hi = bus.read(0xFFFF);
    bus.cpu.program_counter = crate::cpu::make_word(lo, hi);
    bus.tick(base_cycles(&Instruction::BRK(*address_mode)) as i64);
}

/// ATX is unstable on real hardware; this core refuses it and leaves the
/// machine untouched.
pub fn atx<C: Cartridge + Memory>(bus: &mut Bus<C>, address_mode: &AddressMode) -> (r: Result<
    (),
    EmuError,
>)
    ensures
        *final(bus) == *old(bus),
        r == Err::<(), EmuError>(EmuError::Unimplemented),
{
    let _ = address_mode;
    Err(EmuError::Unimplemented)
}

/// AXA is unstable on real hardware; this core refuses it and leaves the
/// machine untouched.
pub fn axa<C: Cartridge + Memory>(bus: &mut Bus<C>, address_mode: &AddressMode) -> (r: Result<
    (),
    EmuError,
>)
    ensures
        *final(bus) == *old(bus),
        r == Err::<(), EmuError>(EmuError::Unimplemented),
{
    let _ = address_mode;
    Err(EmuError::Unimplemented)
}

/// LAR is unstable on real hardware; this core refuses it and leaves the
/// machine untouched.
pub fn lar<C: Cartridge + Memory>(bus: &mut Bus<C>, address_mode: &AddressMode) -> (r: Result<
    (),
    EmuError,
>)
    ensures
        *final(bus) == *old(bus),
        r == Err::<(), EmuError>(EmuError::Unimplemented),
{
    let _ = address_mode;
    Err(EmuError::Unimplemented)
}

/// SXA is unstable on real hardware; this core refuses it and leaves the
/// machine untouched.
pub fn sxa<C: Cartridge + Memory>(bus: &mut Bus<C>, address_mode: &AddressMode) -> (r: Result<
    (),
    EmuError,
>)
    ensures
        *final(bus) == *old(bus),
        r == Err::<(), EmuError>(EmuError::Unimplemented),
{
    let _ = address_mode;
    Err(EmuError::Unimplemented)
}

/// SYA is unstable on real hardware; this core refuses it and leaves the
/// machine untouched.
pub fn sya<C: Cartridge + Memory>(bus: &mut Bus<C>, address_mode: &AddressMode) -> (r: Result<
    (),
    EmuError,
>)
    ensures
        *final(bus) == *old(bus),
        r == Err::<(), EmuError>(EmuError::Unimplemented),
{
    let _ = address_mode;
    Err(EmuError::Unimplemented)
}

/// XAA is unstable on real hardware; this core refuses it and leaves the
/// machine untouched.
pub fn xaa<C: Cartridge + Memory>(bus: &mut Bus<C>, address_mode: &AddressMode) -> (r: Result<
    (),
    EmuError,
>)
    ensures
        *final(bus) == *old(bus),
        r == Err::<(), EmuError>(EmuError::Unimplemented),
{
    let _ = address_mode;
    Err(EmuError::Unimplemented)
}

/// XAS is unstable on real hardware; this core refuses it and leaves the
/// machine untouched.
pub fn xas<C: Cartridge + Memory>(bus: &mut Bus<C>, address_mode: &AddressMode) -> (r: Result<
    (),
    EmuError,
>)
    ensures
        *final(bus) == *old(bus),
        r == Err::<(), EmuError>(EmuError::Unimplemented),
{
    let _ = address_mode;
    Err(EmuError::Unimplemented)
}

/// What one executed instruction does to the machine, mnemonic by
/// mnemonic: the same register, flag, memory and stack outcomes that the
/// individual instruction routines promise, gathered so that the dispatcher
/// can hand them on. Cycle accounting stays with the routines; the unstable
/// opcodes never execute, so nothing is stated of them here.
pub open spec fn execute_rel<C: Cartridge + Memory>(
    pre: Bus<C>,
    post: Bus<C>,
    instruction: Instruction,
) -> bool {
    match instruction {
        Instruction::AAC(mode) => {
            &&& (post.ram.memory@ == pre.ram.memory@)
            &&& (exists|a: int, m: u8|
                #[trigger] operand_rel(pre, mode, a, m) && post.cpu == cpu_after_aac(
                    pc_plus(pre.cpu, operand_len(mode)),
                    m,
                ))
        },
        Instruction::AAX(mode) => {
            &&& (post.cpu == pc_plus(pre.cpu, operand_len(mode)))
            &&& (exists|a: int|
                #[trigger] effective_addr_rel(pre, mode, a) && post.ram.memory@
                    == ram_after_write(pre.ram.memory@, a, pre.cpu.accumulator & pre.cpu.index_x))
        },
        Instruction::ADC(mode) => {
            &&& (post.ram.memory@ == pre.ram.memory@)
            &&& (exists|a: int, m: u8|
                #[trigger] operand_rel(pre, mode, a, m) && post.cpu == cpu_after_adc(
                    pc_plus(pre.cpu, operand_len(mode)),
                    m,
                ))
        },
        Instruction::AND(mode) => {
            &&& (post.ram.memory@ == pre.ram.memory@)
            &&& (exists|a: int, m: u8|
                #[trigger] operand_rel(pre, mode, a, m) && post.cpu == cpu_after_and(
                    pc_plus(pre.cpu, operand_len(mode)),
                    m,
                ))
        },
        Instruction::ARR(mode) => {
            &&& (post.ram.memory@ == pre.ram.memory@)
            &&& (exists|a: int, m: u8|
                #[trigger] operand_rel(pre, mode, a, m) && post.cpu == cpu_after_arr(
                    pc_plus(pre.cpu, operand_len(mode)),
                    m,
                ))
        },
        Instruction::ASL(mode) => {
            &&& (mode == AddressMode::Accumulator ==> post.ram.memory@ == pre.ram.memory@ && post.cpu == (Cpu {
                accumulator: asl_output(pre.cpu.accumulator),
                status: (Status { bits: status_after_shift(pre.cpu.status.bits, bit_set(pre.cpu.accumulator, 0x80), asl_output(pre.cpu.accumulator)) }),
                ..pre.cpu
            }))
            &&& (mode != AddressMode::Accumulator ==> (exists|a: int, m: u8|
                #[trigger] rmw_effect(pre, post, mode, a, m, asl_output(m)) && post.cpu == (
                Cpu {
                        status: (Status { bits: status_after_shift(pre.cpu.status.bits, bit_set(m, 0x80), asl_output(m)) }),
                        ..pc_plus(pre.cpu, operand_len(mode))
                    })))
        },
        Instruction::ASR(mode) => {
            &&& (post.ram.memory@ == pre.ram.memory@)
            &&& (exists|a: int, m: u8|
                #[trigger] operand_rel(pre, mode, a, m) && post.cpu == cpu_after_asr(
                    pc_plus(pre.cpu, operand_len(mode)),
                    m,
                ))
        },
        Instruction::AXS(mode) => {
            &&& (post.ram.memory@ == pre.ram.memory@)
            &&& (exists|a: int, m: u8|
                #[trigger] operand_rel(pre, mode, a, m) && post.cpu == cpu_after_axs(
                    pc_plus(pre.cpu, operand_len(mode)),
                    m,
                ))
        },
        Instruction::BCC(mode) => {
            &&& (post.ram.memory@ == pre.ram.memory@)
            &&& (post.cpu.accumulator == pre.cpu.accumulator)
            &&& (post.cpu.index_x == pre.cpu.index_x)
            &&& (post.cpu.index_y == pre.cpu.index_y)
            &&& (post.cpu.stack_ptr == pre.cpu.stack_ptr)
            &&& (post.cpu.status == pre.cpu.status)
            &&& (post.cpu.halted == pre.cpu.halted)
            &&& (bit_set(pre.cpu.status.bits, CARRY) ==> post.cpu.program_counter == wrap_inc16(pre.cpu.program_counter))
            &&& (!bit_set(pre.cpu.status.bits, CARRY) ==> (exists|offset: u8|
                {
                    &&& post.cpu.program_counter == #[trigger] relative_target(
                        wrap_inc16(pre.cpu.program_counter),
                        offset,
                    )
                    &&& (pre.cpu.program_counter < 0x2000 ==> offset == pre.ram.memory@[ram_index(
                        pre.cpu.program_counter as int,
                    )])
                }))
        },
        Instruction::BCS(mode) => {
            &&& (post.ram.memory@ == pre.ram.memory@)
            &&& (post.cpu.accumulator == pre.cpu.accumulator)
            &&& (post.cpu.index_x == pre.cpu.index_x)
            &&& (post.cpu.index_y == pre.cpu.index_y)
            &&& (post.cpu.stack_ptr == pre.cpu.stack_ptr)
            &&& (post.cpu.status == pre.cpu.status)
            &&& (post.cpu.halted == pre.cpu.halted)
            &&& (!bit_set(pre.cpu.status.bits, CARRY) ==> post.cpu.program_counter == wrap_inc16(pre.cpu.program_counter))
            &&& (bit_set(pre.cpu.status.bits, CARRY) ==> (exists|offset: u8|
                {
                    &&& post.cpu.program_counter == #[trigger] relative_target(
                        wrap_inc16(pre.cpu.program_counter),
                        offset,
                    )
                    &&& (pre.cpu.program_counter < 0x2000 ==> offset == pre.ram.memory@[ram_index(
                        pre.cpu.program_counter as int,
                    )])
                }))
        },
        Instruction::BEQ(mode) => {
            &&& (post.ram.memory@ == pre.ram.memory@)
            &&& (post.cpu.accumulator == pre.cpu.accumulator)
            &&& (post.cpu.index_x == pre.cpu.index_x)
            &&& (post.cpu.index_y == pre.cpu.index_y)
            &&& (post.cpu.stack_ptr == pre.cpu.stack_ptr)
            &&& (post.cpu.status == pre.cpu.status)
            &&& (post.cpu.halted == pre.cpu.halted)
            &&& (!bit_set(pre.cpu.status.bits, ZERO) ==> post.cpu.program_counter == wrap_inc16(pre.cpu.program_counter))
            &&& (bit_set(pre.cpu.status.bits, ZERO) ==> (exists|offset: u8|
                {
                    &&& post.cpu.program_counter == #[trigger] relative_target(
                        wrap_inc16(pre.cpu.program_counter),
                        offset,
                    )
                    &&& (pre.cpu.program_counter < 0x2000 ==> offset == pre.ram.memory@[ram_index(
                        pre.cpu.program_counter as int,
                    )])
                }))
        },
        Instruction::BIT(mode) => {
            &&& (post.ram.memory@ == pre.ram.memory@)
            &&& (exists|a: int, m: u8|
                #[trigger] operand_rel(pre, mode, a, m) && post.cpu == cpu_after_bit(
                    pc_plus(pre.cpu, operand_len(mode)),
                    m,
                ))
        },
        Instruction::BMI(mode) => {
            &&& (post.ram.memory@ == pre.ram.memory@)
            &&& (post.cpu.accumulator == pre.cpu.accumulator)
            &&& (post.cpu.index_x == pre.cpu.index_x)
            &&& (post.cpu.index_y == pre.cpu.index_y)
            &&& (post.cpu.stack_ptr == pre.cpu.stack_ptr)
            &&& (post.cpu.status == pre.cpu.status)
            &&& (post.cpu.halted == pre.cpu.halted)
            &&& (!bit_set(pre.cpu.status.bits, NEGATIVE) ==> post.cpu.program_counter == wrap_inc16(pre.cpu.program_counter))
            &&& (bit_set(pre.cpu.status.bits, NEGATIVE) ==> (exists|offset: u8|
                {
                    &&& post.cpu.program_counter == #[trigger] relative_target(
                        wrap_inc16(pre.cpu.program_counter),
                        offset,
                    )
                    &&& (pre.cpu.program_counter < 0x2000 ==> offset == pre.ram.memory@[ram_index(
                        pre.cpu.program_counter as int,
                    )])
                }))
        },
        Instruction::BNE(mode) => {
            &&& (post.ram.memory@ == pre.ram.memory@)
            &&& (post.cpu.accumulator == pre.cpu.accumulator)
            &&& (post.cpu.index_x == pre.cpu.index_x)
            &&& (post.cpu.index_y == pre.cpu.index_y)
            &&& (post.cpu.stack_ptr == pre.cpu.stack_ptr)
            &&& (post.cpu.status == pre.cpu.status)
            &&& (post.cpu.halted == pre.cpu.halted)
            &&& (bit_set(pre.cpu.status.bits, ZERO) ==> post.cpu.program_counter == wrap_inc16(pre.cpu.program_counter))
            &&& (!bit_set(pre.cpu.status.bits, ZERO) ==> (exists|offset: u8|
                {
                    &&& post.cpu.program_counter == #[trigger] relative_target(
                        wrap_inc16(pre.cpu.program_counter),
                        offset,
                    )
                    &&& (pre.cpu.program_counter < 0x2000 ==> offset == pre.ram.memory@[ram_index(
                        pre.cpu.program_counter as int,
                    )])
                }))
        },
        Instruction::BPL(mode) => {
            &&& (post.ram.memory@ == pre.ram.memory@)
            &&& (post.cpu.accumulator == pre.cpu.accumulator)
            &&& (post.cpu.index_x == pre.cpu.index_x)
            &&& (post.cpu.index_y == pre.cpu.index_y)
            &&& (post.cpu.stack_ptr == pre.cpu.stack_ptr)
            &&& (post.cpu.status == pre.cpu.status)
            &&& (post.cpu.halted == pre.cpu.halted)
            &&& (bit_set(pre.cpu.status.bits, NEGATIVE) ==> post.cpu.program_counter == wrap_inc16(pre.cpu.program_counter))
            &&& (!bit_set(pre.cpu.status.bits, NEGATIVE) ==> (exists|offset: u8|
                {
                    &&& post.cpu.program_counter == #[trigger] relative_target(
                        wrap_inc16(pre.cpu.program_counter),
                        offset,
                    )
                    &&& (pre.cpu.program_counter < 0x2000 ==> offset == pre.ram.memory@[ram_index(
                        pre.cpu.program_counter as int,
                    )])
                }))
        },
        Instruction::BRK(mode) => {
            &&& (post.cpu.stack_ptr == wrap_dec8(wrap_dec8(wrap_dec8(pre.cpu.stack_ptr))))
            &&& (post.cpu.accumulator == pre.cpu.accumulator)
            &&& (post.cpu.index_x == pre.cpu.index_x)
            &&& (post.cpu.index_y == pre.cpu.index_y)
            &&& (post.cpu.halted == pre.cpu.halted)
            &&& (post.cpu.status.bits == with_flag(
                pre.cpu.status.bits,
                INTERRUPT_DISABLE,
                true,
            ))
            &&& (post.ram.memory@ == ({
                let ret = wrap_inc16(pre.cpu.program_counter);
                let sp = pre.cpu.stack_ptr;
                pre.ram.memory@.update(0x100 + sp as int, hi_byte(ret)).update(
                    0x100 + wrap_dec8(sp) as int,
                    lo_byte(ret),
                ).update(
                    0x100 + wrap_dec8(wrap_dec8(sp)) as int,
                    php_pushed(pre.cpu.status.bits),
                )
            }))
        },
        Instruction::BVC(mode) => {
            &&& (post.ram.memory@ == pre.ram.memory@)
            &&& (post.cpu.accumulator == pre.cpu.accumulator)
            &&& (post.cpu.index_x == pre.cpu.index_x)
            &&& (post.cpu.index_y == pre.cpu.index_y)
            &&& (post.cpu.stack_ptr == pre.cpu.stack_ptr)
            &&& (post.cpu.status == pre.cpu.status)
            &&& (post.cpu.halted == pre.cpu.halted)
            &&& (bit_set(pre.cpu.status.bits, OVERFLOW) ==> post.cpu.program_counter == wrap_inc16(pre.cpu.program_counter))
            &&& (!bit_set(pre.cpu.status.bits, OVERFLOW) ==> (exists|offset: u8|
                {
                    &&& post.cpu.program_counter == #[trigger] relative_target(
                        wrap_inc16(pre.cpu.program_counter),
                        offset,
                    )
                    &&& (pre.cpu.program_counter < 0x2000 ==> offset == pre.ram.memory@[ram_index(
                        pre.cpu.program_counter as int,
                    )])
                }))
        },
        Instruction::BVS(mode) => {
            &&& (post.ram.memory@ == pre.ram.memory@)
            &&& (post.cpu.accumulator == pre.cpu.accumulator)
            &&& (post.cpu.index_x == pre.cpu.index_x)
            &&& (post.cpu.index_y == pre.cpu.index_y)
            &&& (post.cpu.stack_ptr == pre.cpu.stack_ptr)
            &&& (post.cpu.status == pre.cpu.status)
            &&& (post.cpu.halted == pre.cpu.halted)
            &&& (!bit_set(pre.cpu.status.bits, OVERFLOW) ==> post.cpu.program_counter == wrap_inc16(pre.cpu.program_counter))
            &&& (bit_set(pre.cpu.status.bits, OVERFLOW) ==> (exists|offset: u8|
                {
                    &&& post.cpu.program_counter == #[trigger] relative_target(
                        wrap_inc16(pre.cpu.program_counter),
                        offset,
                    )
                    &&& (pre.cpu.program_counter < 0x2000 ==> offset == pre.ram.memory@[ram_index(
                        pre.cpu.program_counter as int,
                    )])
                }))
        },
        Instruction::CLC(mode) => {
            &&& (post.ram.memory@ == pre.ram.memory@)
            &&& (post.cpu == (Cpu { status: (Status { bits: with_flag(pre.cpu.status.bits, CARRY, false) }), ..pre.cpu }))
        },
        Instruction::CLD(mode) => {
            &&& (post.ram.memory@ == pre.ram.memory@)
            &&& (post.cpu == (Cpu { status: (Status { bits: with_flag(pre.cpu.status.bits, DECIMAL, false) }), ..pre.cpu }))
        },
        Instruction::CLI(mode) => {
            &&& (post.ram.memory@ == pre.ram.memory@)
            &&& (post.cpu == (Cpu { status: (Status { bits: with_flag(pre.cpu.status.bits, INTERRUPT_DISABLE, false) }), ..pre.cpu }))
        },
        Instruction::CLV(mode) => {
            &&& (post.ram.memory@ == pre.ram.memory@)
            &&& (post.cpu == (Cpu { status: (Status { bits: with_flag(pre.cpu.status.bits, OVERFLOW, false) }), ..pre.cpu }))
        },
        Instruction::CMP(mode) => {
            &&& (post.ram.memory@ == pre.ram.memory@)
            &&& (exists|a: int, m: u8|
                #[trigger] operand_rel(pre, mode, a, m) && post.cpu
                    == cpu_after_compare(
                    pc_plus(pre.cpu, operand_len(mode)),
                    pre.cpu.accumulator,
                    m,
                ))
        },
        Instruction::CPX(mode) => {
            &&& (post.ram.memory@ == pre.ram.memory@)
            &&& (exists|a: int, m: u8|
                #[trigger] operand_rel(pre, mode, a, m) && post.cpu
                    == cpu_after_compare(
                    pc_plus(pre.cpu, operand_len(mode)),
                    pre.cpu.index_x,
                    m,
                ))
        },
        Instruction::CPY(mode) => {
            &&& (post.ram.memory@ == pre.ram.memory@)
            &&& (exists|a: int, m: u8|
                #[trigger] operand_rel(pre, mode, a, m) && post.cpu
                    == cpu_after_compare(
                    pc_plus(pre.cpu, operand_len(mode)),
                    pre.cpu.index_y,
                    m,
                ))
        },
        Instruction::DCP(mode) => exists|a: int, m: u8|
            #[trigger] rmw_effect(pre, post, mode, a, m, wrap_dec8(m)) && post.cpu == (
            Cpu { status: (Status { bits: status_after_compare(pre.cpu.status.bits, pre.cpu.accumulator, wrap_dec8(m)) }), ..pc_plus(pre.cpu, operand_len(mode)) }),
        Instruction::DEC(mode) => exists|a: int, m: u8|
            #[trigger] rmw_effect(pre, post, mode, a, m, wrap_dec8(m)) && post.cpu == (
            Cpu {
                    status: (Status { bits: nz(pre.cpu.status.bits, wrap_dec8(m)) }),
                    ..pc_plus(pre.cpu, operand_len(mode))
                }),
        Instruction::DEX(mode) => {
            &&& (post.ram.memory@ == pre.ram.memory@)
            &&& (post.cpu == (Cpu { index_x: wrap_dec8(pre.cpu.index_x), status: (Status { bits: nz(pre.cpu.status.bits, wrap_dec8(pre.cpu.index_x)) }), ..pre.cpu }))
        },
        Instruction::DEY(mode) => {
            &&& (post.ram.memory@ == pre.ram.memory@)
            &&& (post.cpu == (Cpu { index_y: wrap_dec8(pre.cpu.index_y), status: (Status { bits: nz(pre.cpu.status.bits, wrap_dec8(pre.cpu.index_y)) }), ..pre.cpu }))
        },
        Instruction::DOP(mode) => {
            &&& (post.ram.memory@ == pre.ram.memory@)
            &&& (post.cpu == pc_plus(pre.cpu, operand_len(mode)))
        },
        Instruction::EOR(mode) => {
            &&& (post.ram.memory@ == pre.ram.memory@)
            &&& (exists|a: int, m: u8|
                #[trigger] operand_rel(pre, mode, a, m) && post.cpu == cpu_after_eor(
                    pc_plus(pre.cpu, operand_len(mode)),
                    m,
                ))
        },
        Instruction::INC(mode) => exists|a: int, m: u8|
            #[trigger] rmw_effect(pre, post, mode, a, m, wrap_inc8(m)) && post.cpu == (
            Cpu {
                    status: (Status { bits: nz(pre.cpu.status.bits, wrap_inc8(m)) }),
                    ..pc_plus(pre.cpu, operand_len(mode))
                }),
        Instruction::INX(mode) => {
            &&& (post.ram.memory@ == pre.ram.memory@)
            &&& (post.cpu == (Cpu { index_x: wrap_inc8(pre.cpu.index_x), status: (Status { bits: nz(pre.cpu.status.bits, wrap_inc8(pre.cpu.index_x)) }), ..pre.cpu }))
        },
        Instruction::INY(mode) => {
            &&& (post.ram.memory@ == pre.ram.memory@)
            &&& (post.cpu == (Cpu { index_y: wrap_inc8(pre.cpu.index_y), status: (Status { bits: nz(pre.cpu.status.bits, wrap_inc8(pre.cpu.index_y)) }), ..pre.cpu }))
        },
        Instruction::ISC(mode) => exists|a: int, m: u8|
            #[trigger] rmw_effect(pre, post, mode, a, m, wrap_inc8(m)) && post.cpu == (
            Cpu { accumulator: adc_output(pre.cpu.accumulator, !wrap_inc8(m), bit_set(pre.cpu.status.bits, CARRY)), status: (Status { bits: status_after_adc(pre.cpu.status.bits, pre.cpu.accumulator, !wrap_inc8(m), bit_set(pre.cpu.status.bits, CARRY)) }), ..pc_plus(pre.cpu, operand_len(mode)) }),
        Instruction::JMP(mode) => {
            &&& (post.ram.memory@ == pre.ram.memory@)
            &&& (post.cpu.accumulator == pre.cpu.accumulator)
            &&& (post.cpu.index_x == pre.cpu.index_x)
            &&& (post.cpu.index_y == pre.cpu.index_y)
            &&& (post.cpu.stack_ptr == pre.cpu.stack_ptr)
            &&& (post.cpu.status == pre.cpu.status)
            &&& (post.cpu.halted == pre.cpu.halted)
            &&& (exists|a: int|
                #[trigger] effective_addr_rel(pre, mode, a) && post.cpu.program_counter == a as u16)
        },
        Instruction::JSR(mode) => {
            &&& (post.cpu.stack_ptr == wrap_dec8(wrap_dec8(pre.cpu.stack_ptr)))
            &&& (post.cpu.accumulator == pre.cpu.accumulator)
            &&& (post.cpu.index_x == pre.cpu.index_x)
            &&& (post.cpu.index_y == pre.cpu.index_y)
            &&& (post.cpu.status == pre.cpu.status)
            &&& (post.cpu.halted == pre.cpu.halted)
            &&& (post.ram.memory@ == ({
                let ret = wrap_add16(pre.cpu.program_counter, operand_len(mode));
                let sp = pre.cpu.stack_ptr;
                pre.ram.memory@.update(0x100 + sp as int, hi_byte(jsr_pushed(ret))).update(
                    0x100 + wrap_dec8(sp) as int,
                    lo_byte(jsr_pushed(ret)),
                )
            }))
            &&& (exists|a: int|
                #[trigger] effective_addr_rel(pre, mode, a) && post.cpu.program_counter == a as u16)
        },
        Instruction::KIL(mode) => {
            &&& (post.ram.memory@ == pre.ram.memory@)
            &&& (post.cpu == (Cpu { halted: true, ..pre.cpu }))
        },
        Instruction::LAX(mode) => {
            &&& (post.ram.memory@ == pre.ram.memory@)
            &&& (exists|a: int, m: u8|
                #[trigger] operand_rel(pre, mode, a, m) && post.cpu == cpu_after_lax(
                    pc_plus(pre.cpu, operand_len(mode)),
                    m,
                ))
        },
        Instruction::LDA(mode) => {
            &&& (post.ram.memory@ == pre.ram.memory@)
            &&& (exists|a: int, m: u8|
                #[trigger] operand_rel(pre, mode, a, m) && post.cpu == cpu_after_lda(
                    pc_plus(pre.cpu, operand_len(mode)),
                    m,
                ))
        },
        Instruction::LDX(mode) => {
            &&& (post.ram.memory@ == pre.ram.memory@)
            &&& (exists|a: int, m: u8|
                #[trigger] operand_rel(pre, mode, a, m) && post.cpu == cpu_after_ldx(
                    pc_plus(pre.cpu, operand_len(mode)),
                    m,
                ))
        },
        Instruction::LDY(mode) => {
            &&& (post.ram.memory@ == pre.ram.memory@)
            &&& (exists|a: int, m: u8|
                #[trigger] operand_rel(pre, mode, a, m) && post.cpu == cpu_after_ldy(
                    pc_plus(pre.cpu, operand_len(mode)),
                    m,
                ))
        },
        Instruction::LSR(mode) => {
            &&& (mode == AddressMode::Accumulator ==> post.ram.memory@ == pre.ram.memory@ && post.cpu == (Cpu {
                accumulator: (pre.cpu.accumulator / 2) as u8,
                status: (Status { bits: status_after_lsr(pre.cpu.status.bits, bit_set(pre.cpu.accumulator, 0x01), (pre.cpu.accumulator / 2) as u8) }),
                ..pre.cpu
            }))
            &&& (mode != AddressMode::Accumulator ==> (exists|a: int, m: u8|
                #[trigger] rmw_effect(pre, post, mode, a, m, lsr_output(m)) && post.cpu == (
                Cpu {
                        status: (Status { bits: status_after_lsr(pre.cpu.status.bits, bit_set(m, 0x01), (m / 2) as u8) }),
                        ..pc_plus(pre.cpu, operand_len(mode))
                    })))
        },
        Instruction::NOP(mode) => {
            &&& (post.ram.memory@ == pre.ram.memory@)
            &&& (post.cpu == (pre.cpu))
        },
        Instruction::ORA(mode) => {
            &&& (post.ram.memory@ == pre.ram.memory@)
            &&& (exists|a: int, m: u8|
                #[trigger] operand_rel(pre, mode, a, m) && post.cpu == cpu_after_ora(
                    pc_plus(pre.cpu, operand_len(mode)),
                    m,
                ))
        },
        Instruction::PHA(mode) => {
            &&& (post.cpu == (Cpu {
                stack_ptr: wrap_dec8(pre.cpu.stack_ptr),
                ..pre.cpu
            }))
            &&& (post.ram.memory@ == pre.ram.memory@.update(
                0x100 + pre.cpu.stack_ptr as int,
                pre.cpu.accumulator,
            ))
        },
        Instruction::PHP(mode) => {
            &&& (post.cpu == (Cpu {
                stack_ptr: wrap_dec8(pre.cpu.stack_ptr),
                ..pre.cpu
            }))
            &&& (post.ram.memory@ == pre.ram.memory@.update(
                0x100 + pre.cpu.stack_ptr as int,
                php_pushed(pre.cpu.status.bits),
            ))
            &&& (bit_set(php_pushed(pre.cpu.status.bits), UNUSED))
        },
        Instruction::PLA(mode) => {
            &&& (post.ram.memory@ == pre.ram.memory@)
            &&& (post.cpu == ({
                let v = pre.ram.memory@[0x100 + wrap_inc8(pre.cpu.stack_ptr) as int];
                Cpu {
                    accumulator: v,
                    stack_ptr: wrap_inc8(pre.cpu.stack_ptr),
                    status: (Status { bits: nz(pre.cpu.status.bits, v) }),
                    ..pre.cpu
                }
            }))
        },
        Instruction::PLP(mode) => {
            &&& (post.ram.memory@ == pre.ram.memory@)
            &&& (post.cpu == (Cpu {
                stack_ptr: wrap_inc8(pre.cpu.stack_ptr),
                status: (Status {
                    bits: plp_merge(
                        pre.cpu.status.bits,
                        pre.ram.memory@[0x100 + wrap_inc8(pre.cpu.stack_ptr) as int],
                    ),
                }),
                ..pre.cpu
            }))
        },
        Instruction::RLA(mode) => exists|a: int, m: u8|
            #[trigger] rmw_effect(pre, post, mode, a, m, rol_output(m, bit_set(pre.cpu.status.bits, CARRY))) && post.cpu == (
            Cpu { accumulator: pre.cpu.accumulator & rol_output(m, bit_set(pre.cpu.status.bits, CARRY)), status: (Status { bits: nz(with_flag(pre.cpu.status.bits, CARRY, bit_set(m, 0x80)), pre.cpu.accumulator & rol_output(m, bit_set(pre.cpu.status.bits, CARRY))) }), ..pc_plus(pre.cpu, operand_len(mode)) }),
        Instruction::ROL(mode) => {
            &&& (mode == AddressMode::Accumulator ==> post.ram.memory@ == pre.ram.memory@ && post.cpu == (Cpu {
                accumulator: rol_output(pre.cpu.accumulator, bit_set(pre.cpu.status.bits, CARRY)),
                status: (Status { bits: status_after_shift(pre.cpu.status.bits, bit_set(pre.cpu.accumulator, 0x80), rol_output(pre.cpu.accumulator, bit_set(pre.cpu.status.bits, CARRY))) }),
                ..pre.cpu
            }))
            &&& (mode != AddressMode::Accumulator ==> (exists|a: int, m: u8|
                #[trigger] rmw_effect(pre, post, mode, a, m, rol_output(m, bit_set(pre.cpu.status.bits, CARRY))) && post.cpu == (
                Cpu {
                        status: (Status { bits: status_after_shift(pre.cpu.status.bits, bit_set(m, 0x80), rol_output(m, bit_set(pre.cpu.status.bits, CARRY))) }),
                        ..pc_plus(pre.cpu, operand_len(mode))
                    })))
        },
        Instruction::ROR(mode) => {
            &&& (mode == AddressMode::Accumulator ==> post.ram.memory@ == pre.ram.memory@ && post.cpu == (Cpu {
                accumulator: ror_output(pre.cpu.accumulator, bit_set(pre.cpu.status.bits, CARRY)),
                status: (Status { bits: status_after_shift(pre.cpu.status.bits, bit_set(pre.cpu.accumulator, 0x01), ror_output(pre.cpu.accumulator, bit_set(pre.cpu.status.bits, CARRY))) }),
                ..pre.cpu
            }))
            &&& (mode != AddressMode::Accumulator ==> (exists|a: int, m: u8|
                #[trigger] rmw_effect(pre, post, mode, a, m, ror_output(m, bit_set(pre.cpu.status.bits, CARRY))) && post.cpu == (
                Cpu {
                        status: (Status { bits: status_after_shift(pre.cpu.status.bits, bit_set(m, 0x01), ror_output(m, bit_set(pre.cpu.status.bits, CARRY))) }),
                        ..pc_plus(pre.cpu, operand_len(mode))
                    })))
        },
        Instruction::RRA(mode) => exists|a: int, m: u8|
            #[trigger] rmw_effect(pre, post, mode, a, m, ror_output(m, bit_set(pre.cpu.status.bits, CARRY))) && post.cpu == (
            Cpu { accumulator: adc_output(pre.cpu.accumulator, ror_output(m, bit_set(pre.cpu.status.bits, CARRY)), bit_set(m, 0x01)), status: (Status { bits: status_after_adc(with_flag(pre.cpu.status.bits, CARRY, bit_set(m, 0x01)), pre.cpu.accumulator, ror_output(m, bit_set(pre.cpu.status.bits, CARRY)), bit_set(m, 0x01)) }), ..pc_plus(pre.cpu, operand_len(mode)) }),
        Instruction::RTI(mode) => {
            &&& (post.ram.memory@ == pre.ram.memory@)
            &&& (post.cpu == ({
                let sp = pre.cpu.stack_ptr;
                let popped = pre.ram.memory@[0x100 + wrap_inc8(sp) as int];
                let lo = pre.ram.memory@[0x100 + wrap_inc8(wrap_inc8(sp)) as int];
                let hi = pre.ram.memory@[0x100 + wrap_inc8(wrap_inc8(wrap_inc8(sp))) as int];
                Cpu {
                    stack_ptr: wrap_inc8(wrap_inc8(wrap_inc8(sp))),
                    status: (Status { bits: plp_merge(pre.cpu.status.bits, popped) }),
                    program_counter: word(lo, hi),
                    ..pre.cpu
                }
            }))
        },
        Instruction::RTS(mode) => {
            &&& (post.ram.memory@ == pre.ram.memory@)
            &&& (post.cpu == ({
                let sp = pre.cpu.stack_ptr;
                let lo = pre.ram.memory@[0x100 + wrap_inc8(sp) as int];
                let hi = pre.ram.memory@[0x100 + wrap_inc8(wrap_inc8(sp)) as int];
                Cpu {
                    stack_ptr: wrap_inc8(wrap_inc8(sp)),
                    program_counter: wrap_add16(word(lo, hi), 1),
                    ..pre.cpu
                }
            }))
        },
        Instruction::SBC(mode) => {
            &&& (post.ram.memory@ == pre.ram.memory@)
            &&& (exists|a: int, m: u8|
                #[trigger] operand_rel(pre, mode, a, m) && post.cpu == cpu_after_sbc(
                    pc_plus(pre.cpu, operand_len(mode)),
                    m,
                ))
        },
        Instruction::SEC(mode) => {
            &&& (post.ram.memory@ == pre.ram.memory@)
            &&& (post.cpu == (Cpu { status: (Status { bits: with_flag(pre.cpu.status.bits, CARRY, true) }), ..pre.cpu }))
        },
        Instruction::SED(mode) => {
            &&& (post.ram.memory@ == pre.ram.memory@)
            &&& (post.cpu == (Cpu { status: (Status { bits: with_flag(pre.cpu.status.bits, DECIMAL, true) }), ..pre.cpu }))
        },
        Instruction::SEI(mode) => {
            &&& (post.ram.memory@ == pre.ram.memory@)
            &&& (post.cpu == (Cpu { status: (Status { bits: with_flag(pre.cpu.status.bits, INTERRUPT_DISABLE, true) }), ..pre.cpu }))
        },
        Instruction::SLO(mode) => exists|a: int, m: u8|
            #[trigger] rmw_effect(pre, post, mode, a, m, asl_output(m)) && post.cpu == (
            Cpu { accumulator: pre.cpu.accumulator | asl_output(m), status: (Status { bits: nz(with_flag(pre.cpu.status.bits, CARRY, bit_set(m, 0x80)), pre.cpu.accumulator | asl_output(m)) }), ..pc_plus(pre.cpu, operand_len(mode)) }),
        Instruction::SRE(mode) => exists|a: int, m: u8|
            #[trigger] rmw_effect(pre, post, mode, a, m, lsr_output(m)) && post.cpu == (
            Cpu { accumulator: pre.cpu.accumulator ^ (m / 2), status: (Status { bits: nz(with_flag(pre.cpu.status.bits, CARRY, bit_set(m, 0x01)), pre.cpu.accumulator ^ (m / 2)) }), ..pc_plus(pre.cpu, operand_len(mode)) }),
        Instruction::STA(mode) => {
            &&& (post.cpu == pc_plus(pre.cpu, operand_len(mode)))
            &&& (exists|a: int|
                #[trigger] effective_addr_rel(pre, mode, a) && post.ram.memory@
                    == ram_after_write(pre.ram.memory@, a, pre.cpu.accumulator))
        },
        Instruction::STX(mode) => {
            &&& (post.cpu == pc_plus(pre.cpu, operand_len(mode)))
            &&& (exists|a: int|
                #[trigger] effective_addr_rel(pre, mode, a) && post.ram.memory@
                    == ram_after_write(pre.ram.memory@, a, pre.cpu.index_x))
        },
        Instruction::STY(mode) => {
            &&& (post.cpu == pc_plus(pre.cpu, operand_len(mode)))
            &&& (exists|a: int|
                #[trigger] effective_addr_rel(pre, mode, a) && post.ram.memory@
                    == ram_after_write(pre.ram.memory@, a, pre.cpu.index_y))
        },
        Instruction::TAX(mode) => {
            &&& (post.ram.memory@ == pre.ram.memory@)
            &&& (post.cpu == (Cpu { index_x: pre.cpu.accumulator, status: (Status { bits: nz(pre.cpu.status.bits, pre.cpu.accumulator) }), ..pre.cpu }))
        },
        Instruction::TAY(mode) => {
            &&& (post.ram.memory@ == pre.ram.memory@)
            &&& (post.cpu == (Cpu { index_y: pre.cpu.accumulator, status: (Status { bits: nz(pre.cpu.status.bits, pre.cpu.accumulator) }), ..pre.cpu }))
        },
        Instruction::TOP(mode) => {
            &&& (post.ram.memory@ == pre.ram.memory@)
            &&& (post.cpu == pc_plus(pre.cpu, operand_len(mode)))
        },
        Instruction::TSX(mode) => {
            &&& (post.ram.memory@ == pre.ram.memory@)
            &&& (post.cpu == (Cpu { index_x: pre.cpu.stack_ptr, status: (Status { bits: nz(pre.cpu.status.bits, pre.cpu.stack_ptr) }), ..pre.cpu }))
        },
        Instruction::TXA(mode) => {
            &&& (post.ram.memory@ == pre.ram.memory@)
            &&& (post.cpu == (Cpu { accumulator: pre.cpu.index_x, status: (Status { bits: nz(pre.cpu.status.bits, pre.cpu.index_x) }), ..pre.cpu }))
        },
        Instruction::TXS(mode) => {
            &&& (post.ram.memory@ == pre.ram.memory@)
            &&& (post.cpu == (Cpu { stack_ptr: pre.cpu.index_x, ..pre.cpu }))
        },
        Instruction::TYA(mode) => {
            &&& (post.ram.memory@ == pre.ram.memory@)
            &&& (post.cpu == (Cpu { accumulator: pre.cpu.index_y, status: (Status { bits: nz(pre.cpu.status.bits, pre.cpu.index_y) }), ..pre.cpu }))
        },
        Instruction::ATX(_) => true,
        Instruction::AXA(_) => true,
        Instruction::LAR(_) => true,
        Instruction::SXA(_) => true,
        Instruction::SYA(_) => true,
        Instruction::XAA(_) => true,
        Instruction::XAS(_) => true,
    }
}

/// Runs one decoded instruction against the bus. The clock never moves
/// backwards; the well-formedness of the machine is preserved; the unstable
/// unofficial opcodes are refused with `Unimplemented` and leave the machine
/// untouched, and every other instruction succeeds. The dispatch is sliced
/// into small groups so that each slice stays simple.
#[verifier::rlimit(100)]
pub fn execute<C: Cartridge + Memory>(bus: &mut Bus<C>, instruction: &Instruction) -> (r: Result<
    (),
    EmuError,
>)
    requires
        old(bus).wf(),
        valid_operands(*instruction),
        old(bus).clock + 16 <= i64::MAX,
    ensures
        final(bus).wf(),
        r is Ok ==> execute_rel(*old(bus), *final(bus), *instruction),
        bit_set(old(bus).cpu.status.bits, UNUSED) ==> bit_set(final(bus).cpu.status.bits, UNUSED),
        old(bus).clock <= final(bus).clock <= old(bus).clock + 16,
        r is Err <==> is_unstable(*instruction),
        !is_unstable(*instruction) ==> final(bus).clock >= old(bus).clock + 2,
        is_unstable(*instruction) ==> *final(bus) == *old(bus) && r == Err::<(), EmuError>(
            EmuError::Unimplemented,
        ),
{
    if matches!(instruction, Instruction::ADC(_))
        || matches!(instruction, Instruction::AND(_))
        || matches!(instruction, Instruction::ASL(_))
        || matches!(instruction, Instruction::BCC(_))
        || matches!(instruction, Instruction::BCS(_))
        || matches!(instruction, Instruction::BEQ(_))
        || matches!(instruction, Instruction::BIT(_))
        || matches!(instruction, Instruction::BMI(_))
        || matches!(instruction, Instruction::BNE(_))
        || matches!(instruction, Instruction::BPL(_)) {
        execute_group_1(bus, instruction)
    } else if matches!(instruction, Instruction::BRK(_))
        || matches!(instruction, Instruction::BVC(_))
        || matches!(instruction, Instruction::BVS(_))
        || matches!(instruction, Instruction::CLC(_))
        || matches!(instruction, Instruction::CLD(_))
        || matches!(instruction, Instruction::CLI(_))
        || matches!(instruction, Instruction::CLV(_))
        || matches!(instruction, Instruction::CMP(_))
        || matches!(instruction, Instruction::CPX(_))
        || matches!(instruction, Instruction::CPY(_)) {
        execute_group_2(bus, instruction)
    } else if matches!(instruction, Instruction::DEC(_))
        || matches!(instruction, Instruction::DEX(_))
        || matches!(instruction, Instruction::DEY(_))
        || matches!(instruction, Instruction::EOR(_))
        || matches!(instruction, Instruction::INC(_))
        || matches!(instruction, Instruction::INX(_))
        || matches!(instruction, Instruction::INY(_))
        || matches!(instruction, Instruction::JMP(_))
        || matches!(instruction, Instruction::JSR(_))
        || matches!(instruction, Instruction::LDA(_)) {
        execute_group_3(bus, instruction)
    } else if matches!(instruction, Instruction::LDX(_))
        || matches!(instruction, Instruction::LDY(_))
        || matches!(instruction, Instruction::LSR(_))
        || matches!(instruction, Instruction::NOP(_))
        || matches!(instruction, Instruction::ORA(_))
        || matches!(instruction, Instruction::PHA(_))
        || matches!(instruction, Instruction::PHP(_))
        || matches!(instruction, Instruction::PLA(_))
        || matches!(instruction, Instruction::PLP(_))
        || matches!(instruction, Instruction::ROL(_)) {
        execute_group_4(bus, instruction)
    } else if matches!(instruction, Instruction::ROR(_))
        || matches!(instruction, Instruction::RTI(_))
        || matches!(instruction, Instruction::RTS(_))
        || matches!(instruction, Instruction::SBC(_))
        || matches!(instruction, Instruction::SEC(_))
        || matches!(instruction, Instruction::SED(_))
        || matches!(instruction, Instruction::SEI(_))
        || matches!(instruction, Instruction::STA(_))
        || matches!(instruction, Instruction::STX(_))
        || matches!(instruction, Instruction::STY(_)) {
        execute_group_5(bus, instruction)
    } else if matches!(instruction, Instruction::TAX(_))
        || matches!(instruction, Instruction::TAY(_))
        || matches!(instruction, Instruction::TSX(_))
        || matches!(instruction, Instruction::TXA(_))
        || matches!(instruction, Instruction::TXS(_))
        || matches!(instruction, Instruction::TYA(_))
        || matches!(instruction, Instruction::AAC(_))
        || matches!(instruction, Instruction::AAX(_))
        || matches!(instruction, Instruction::ARR(_))
        || matches!(instruction, Instruction::ASR(_)) {
        execute_group_6(bus, instruction)
    } else if matches!(instruction, Instruction::AXS(_))
        || matches!(instruction, Instruction::DCP(_))
        || matches!(instruction, Instruction::DOP(_))
        || matches!(instruction, Instruction::ISC(_))
        || matches!(instruction, Instruction::KIL(_))
        || matches!(instruction, Instruction::LAX(_))
        || matches!(instruction, Instruction::RLA(_))
        || matches!(instruction, Instruction::RRA(_))
        || matches!(instruction, Instruction::SLO(_))
        || matches!(instruction, Instruction::SRE(_)) {
        execute_group_7(bus, instruction)
    } else {
        execute_group_8(bus, instruction)
    }
}

/// One slice of the mnemonics, for the dispatcher below.
pub open spec fn in_group_1(instruction: Instruction) -> bool {
    ||| instruction matches Instruction::ADC(_)
    ||| instruction matches Instruction::AND(_)
    ||| instruction matches Instruction::ASL(_)
    ||| instruction matches Instruction::BCC(_)
    ||| instruction matches Instruction::BCS(_)
    ||| instruction matches Instruction::BEQ(_)
    ||| instruction matches Instruction::BIT(_)
    ||| instruction matches Instruction::BMI(_)
    ||| instruction matches Instruction::BNE(_)
    ||| instruction matches Instruction::BPL(_)
}

/// One slice of the dispatcher.
#[verifier::rlimit(100)]
fn execute_group_1<C: Cartridge + Memory>(bus: &mut Bus<C>, instruction: &Instruction) -> (r: Result<
    (),
    EmuError,
>)
    requires
        in_group_1(*instruction),
        old(bus).wf(),
        valid_operands(*instruction),
        old(bus).clock + 16 <= i64::MAX,
    ensures
        final(bus).wf(),
        r is Ok ==> execute_rel(*old(bus), *final(bus), *instruction),
        bit_set(old(bus).cpu.status.bits, UNUSED) ==> bit_set(final(bus).cpu.status.bits, UNUSED),
        old(bus).clock <= final(bus).clock <= old(bus).clock + 16,
        r is Err <==> is_unstable(*instruction),
        !is_unstable(*instruction) ==> final(bus).clock >= old(bus).clock + 2,
        is_unstable(*instruction) ==> *final(bus) == *old(bus) && r == Err::<(), EmuError>(
            EmuError::Unimplemented,
        ),
{
    match *instruction {
        Instruction::ADC(address_mode) => {
            adc(bus, &address_mode);
            Ok(())
        },
        Instruction::AND(address_mode) => {
            and(bus, &address_mode);
            Ok(())
        },
        Instruction::ASL(address_mode) => {
            asl(bus, &address_mode);
            Ok(())
        },
        Instruction::BCC(address_mode) => {
            bcc(bus, &address_mode);
            Ok(())
        },
        Instruction::BCS(address_mode) => {
            bcs(bus, &address_mode);
            Ok(())
        },
        Instruction::BEQ(address_mode) => {
            beq(bus, &address_mode);
            Ok(())
        },
        Instruction::BIT(address_mode) => {
            bit(bus, &address_mode);
            Ok(())
        },
        Instruction::BMI(address_mode) => {
            bmi(bus, &address_mode);
            Ok(())
        },
        Instruction::BNE(address_mode) => {
            bne(bus, &address_mode);
            Ok(())
        },
        Instruction::BPL(address_mode) => {
            bpl(bus, &address_mode);
            Ok(())
        },
        _ => Ok(()),
    }
}

/// One slice of the mnemonics, for the dispatcher below.
pub open spec fn in_group_2(instruction: Instruction) -> bool {
    ||| instruction matches Instruction::BRK(_)
    ||| instruction matches Instruction::BVC(_)
    ||| instruction matches Instruction::BVS(_)
    ||| instruction matches Instruction::CLC(_)
    ||| instruction matches Instruction::CLD(_)
    ||| instruction matches Instruction::CLI(_)
    ||| instruction matches Instruction::CLV(_)
    ||| instruction matches Instruction::CMP(_)
    ||| instruction matches Instruction::CPX(_)
    ||| instruction matches Instruction::CPY(_)
}

/// One slice of the dispatcher.
#[verifier::rlimit(100)]
fn execute_group_2<C: Cartridge + Memory>(bus: &mut Bus<C>, instruction: &Instruction) -> (r: Result<
    (),
    EmuError,
>)
    requires
        in_group_2(*instruction),
        old(bus).wf(),
        valid_operands(*instruction),
        old(bus).clock + 16 <= i64::MAX,
    ensures
        final(bus).wf(),
        r is Ok ==> execute_rel(*old(bus), *final(bus), *instruction),
        bit_set(old(bus).cpu.status.bits, UNUSED) ==> bit_set(final(bus).cpu.status.bits, UNUSED),
        old(bus).clock <= final(bus).clock <= old(bus).clock + 16,
        r is Err <==> is_unstable(*instruction),
        !is_unstable(*instruction) ==> final(bus).clock >= old(bus).clock + 2,
        is_unstable(*instruction) ==> *final(bus) == *old(bus) && r == Err::<(), EmuError>(
            EmuError::Unimplemented,
        ),
{
    match *instruction {
        Instruction::BRK(address_mode) => {
            brk(bus, &address_mode);
            Ok(())
        },
        Instruction::BVC(address_mode) => {
            bvc(bus, &address_mode);
            Ok(())
        },
        Instruction::BVS(address_mode) => {
            bvs(bus, &address_mode);
            Ok(())
        },
        Instruction::CLC(address_mode) => {
            clc(bus, &address_mode);
            Ok(())
        },
        Instruction::CLD(address_mode) => {
            cld(bus, &address_mode);
            Ok(())
        },
        Instruction::CLI(address_mode) => {
            cli(bus, &address_mode);
            Ok(())
        },
        Instruction::CLV(address_mode) => {
            clv(bus, &address_mode);
            Ok(())
        },
        Instruction::CMP(address_mode) => {
            cmp(bus, &address_mode);
            Ok(())
        },
        Instruction::CPX(address_mode) => {
            cpx(bus, &address_mode);
            Ok(())
        },
        Instruction::CPY(address_mode) => {
            cpy(bus, &address_mode);
            Ok(())
        },
        _ => Ok(()),
    }
}

/// One slice of the mnemonics, for the dispatcher below.
pub open spec fn in_group_3(instruction: Instruction) -> bool {
    ||| instruction matches Instruction::DEC(_)
    ||| instruction matches Instruction::DEX(_)
    ||| instruction matches Instruction::DEY(_)
    ||| instruction matches Instruction::EOR(_)
    ||| instruction matches Instruction::INC(_)
    ||| instruction matches Instruction::INX(_)
    ||| instruction matches Instruction::INY(_)
    ||| instruction matches Instruction::JMP(_)
    ||| instruction matches Instruction::JSR(_)
    ||| instruction matches Instruction::LDA(_)
}

/// One slice of the dispatcher.
#[verifier::rlimit(100)]
fn execute_group_3<C: Cartridge + Memory>(bus: &mut Bus<C>, instruction: &Instruction) -> (r: Result<
    (),
    EmuError,
>)
    requires
        in_group_3(*instruction),
        old(bus).wf(),
        valid_operands(*instruction),
        old(bus).clock + 16 <= i64::MAX,
    ensures
        final(bus).wf(),
        r is Ok ==> execute_rel(*old(bus), *final(bus), *instruction),
        bit_set(old(bus).cpu.status.bits, UNUSED) ==> bit_set(final(bus).cpu.status.bits, UNUSED),
        old(bus).clock <= final(bus).clock <= old(bus).clock + 16,
        r is Err <==> is_unstable(*instruction),
        !is_unstable(*instruction) ==> final(bus).clock >= old(bus).clock + 2,
        is_unstable(*instruction) ==> *final(bus) == *old(bus) && r == Err::<(), EmuError>(
            EmuError::Unimplemented,
        ),
{
    match *instruction {
        Instruction::DEC(address_mode) => {
            dec(bus, &address_mode);
            Ok(())
        },
        Instruction::DEX(address_mode) => {
            dex(bus, &address_mode);
            Ok(())
        },
        Instruction::DEY(address_mode) => {
            dey(bus, &address_mode);
            Ok(())
        },
        Instruction::EOR(address_mode) => {
            eor(bus, &address_mode);
            Ok(())
        },
        Instruction::INC(address_mode) => {
            inc(bus, &address_mode);
            Ok(())
        },
        Instruction::INX(address_mode) => {
            inx(bus, &address_mode);
            Ok(())
        },
        Instruction::INY(address_mode) => {
            iny(bus, &address_mode);
            Ok(())
        },
        Instruction::JMP(address_mode) => {
            jmp(bus, &address_mode);
            Ok(())
        },
        Instruction::JSR(address_mode) => {
            jsr(bus, &address_mode);
            Ok(())
        },
        Instruction::LDA(address_mode) => {
            lda(bus, &address_mode);
            Ok(())
        },
        _ => Ok(()),
    }
}

/// One slice of the mnemonics, for the dispatcher below.
pub open spec fn in_group_4(instruction: Instruction) -> bool {
    ||| instruction matches Instruction::LDX(_)
    ||| instruction matches Instruction::LDY(_)
    ||| instruction matches Instruction::LSR(_)
    ||| instruction matches Instruction::NOP(_)
    ||| instruction matches Instruction::ORA(_)
    ||| instruction matches Instruction::PHA(_)
    ||| instruction matches Instruction::PHP(_)
    ||| instruction matches Instruction::PLA(_)
    ||| instruction matches Instruction::PLP(_)
    ||| instruction matches Instruction::ROL(_)
}

/// One slice of the dispatcher.
#[verifier::rlimit(100)]
fn execute_group_4<C: Cartridge + Memory>(bus: &mut Bus<C>, instruction: &Instruction) -> (r: Result<
    (),
    EmuError,
>)
    requires
        in_group_4(*instruction),
        old(bus).wf(),
        valid_operands(*instruction),
        old(bus).clock + 16 <= i64::MAX,
    ensures
        final(bus).wf(),
        r is Ok ==> execute_rel(*old(bus), *final(bus), *instruction),
        bit_set(old(bus).cpu.status.bits, UNUSED) ==> bit_set(final(bus).cpu.status.bits, UNUSED),
        old(bus).clock <= final(bus).clock <= old(bus).clock + 16,
        r is Err <==> is_unstable(*instruction),
        !is_unstable(*instruction) ==> final(bus).clock >= old(bus).clock + 2,
        is_unstable(*instruction) ==> *final(bus) == *old(bus) && r == Err::<(), EmuError>(
            EmuError::Unimplemented,
        ),
{
    match *instruction {
        Instruction::LDX(address_mode) => {
            ldx(bus, &address_mode);
            Ok(())
        },
        Instruction::LDY(address_mode) => {
            ldy(bus, &address_mode);
            Ok(())
        },
        Instruction::LSR(address_mode) => {
            lsr(bus, &address_mode);
            Ok(())
        },
        Instruction::NOP(address_mode) => {
            nop(bus, &address_mode);
            Ok(())
        },
        Instruction::ORA(address_mode) => {
            ora(bus, &address_mode);
            Ok(())
        },
        Instruction::PHA(address_mode) => {
            pha(bus, &address_mode);
            Ok(())
        },
        Instruction::PHP(address_mode) => {
            php(bus, &address_mode);
            Ok(())
        },
        Instruction::PLA(address_mode) => {
            pla(bus, &address_mode);
            Ok(())
        },
        Instruction::PLP(address_mode) => {
            plp(bus, &address_mode);
            Ok(())
        },
        Instruction::ROL(address_mode) => {
            rol(bus, &address_mode);
            Ok(())
        },
        _ => Ok(()),
    }
}

/// One slice of the mnemonics, for the dispatcher below.
pub open spec fn in_group_5(instruction: Instruction) -> bool {
    ||| instruction matches Instruction::ROR(_)
    ||| instruction matches Instruction::RTI(_)
    ||| instruction matches Instruction::RTS(_)
    ||| instruction matches Instruction::SBC(_)
    ||| instruction matches Instruction::SEC(_)
    ||| instruction matches Instruction::SED(_)
    ||| instruction matches Instruction::SEI(_)
    ||| instruction matches Instruction::STA(_)
    ||| instruction matches Instruction::STX(_)
    ||| instruction matches Instruction::STY(_)
}

/// One slice of the dispatcher.
#[verifier::rlimit(100)]
fn execute_group_5<C: Cartridge + Memory>(bus: &mut Bus<C>, instruction: &Instruction) -> (r: Result<
    (),
    EmuError,
>)
    requires
        in_group_5(*instruction),
        old(bus).wf(),
        valid_operands(*instruction),
        old(bus).clock + 16 <= i64::MAX,
    ensures
        final(bus).wf(),
        r is Ok ==> execute_rel(*old(bus), *final(bus), *instruction),
        bit_set(old(bus).cpu.status.bits, UNUSED) ==> bit_set(final(bus).cpu.status.bits, UNUSED),
        old(bus).clock <= final(bus).clock <= old(bus).clock + 16,
        r is Err <==> is_unstable(*instruction),
        !is_unstable(*instruction) ==> final(bus).clock >= old(bus).clock + 2,
        is_unstable(*instruction) ==> *final(bus) == *old(bus) && r == Err::<(), EmuError>(
            EmuError::Unimplemented,
        ),
{
    match *instruction {
        Instruction::ROR(address_mode) => {
            ror(bus, &address_mode);
            Ok(())
        },
        Instruction::RTI(address_mode) => {
            rti(bus, &address_mode);
            Ok(())
        },
        Instruction::RTS(address_mode) => {
            rts(bus, &address_mode);
            Ok(())
        },
        Instruction::SBC(address_mode) => {
            sbc(bus, &address_mode);
            Ok(())
        },
        Instruction::SEC(address_mode) => {
            sec(bus, &address_mode);
            Ok(())
        },
        Instruction::SED(address_mode) => {
            sed(bus, &address_mode);
            Ok(())
        },
        Instruction::SEI(address_mode) => {
            sei(bus, &address_mode);
            Ok(())
        },
        Instruction::STA(address_mode) => {
            sta(bus, &address_mode);
            Ok(())
        },
        Instruction::STX(address_mode) => {
            stx(bus, &address_mode);
            Ok(())
        },
        Instruction::STY(address_mode) => {
            sty(bus, &address_mode);
            Ok(())
        },
        _ => Ok(()),
    }
}

/// One slice of the mnemonics, for the dispatcher below.
pub open spec fn in_group_6(instruction: Instruction) -> bool {
    ||| instruction matches Instruction::TAX(_)
    ||| instruction matches Instruction::TAY(_)
    ||| instruction matches Instruction::TSX(_)
    ||| instruction matches Instruction::TXA(_)
    ||| instruction matches Instruction::TXS(_)
    ||| instruction matches Instruction::TYA(_)
    ||| instruction matches Instruction::AAC(_)
    ||| instruction matches Instruction::AAX(_)
    ||| instruction matches Instruction::ARR(_)
    ||| instruction matches Instruction::ASR(_)
}

/// One slice of the dispatcher.
#[verifier::rlimit(100)]
fn execute_group_6<C: Cartridge + Memory>(bus: &mut Bus<C>, instruction: &Instruction) -> (r: Result<
    (),
    EmuError,
>)
    requires
        in_group_6(*instruction),
        old(bus).wf(),
        valid_operands(*instruction),
        old(bus).clock + 16 <= i64::MAX,
    ensures
        final(bus).wf(),
        r is Ok ==> execute_rel(*old(bus), *final(bus), *instruction),
        bit_set(old(bus).cpu.status.bits, UNUSED) ==> bit_set(final(bus).cpu.status.bits, UNUSED),
        old(bus).clock <= final(bus).clock <= old(bus).clock + 16,
        r is Err <==> is_unstable(*instruction),
        !is_unstable(*instruction) ==> final(bus).clock >= old(bus).clock + 2,
        is_unstable(*instruction) ==> *final(bus) == *old(bus) && r == Err::<(), EmuError>(
            EmuError::Unimplemented,
        ),
{
    match *instruction {
        Instruction::TAX(address_mode) => {
            tax(bus, &address_mode);
            Ok(())
        },
        Instruction::TAY(address_mode) => {
            tay(bus, &address_mode);
            Ok(())
        },
        Instruction::TSX(address_mode) => {
            tsx(bus, &address_mode);
            Ok(())
        },
        Instruction::TXA(address_mode) => {
            txa(bus, &address_mode);
            Ok(())
        },
        Instruction::TXS(address_mode) => {
            txs(bus, &address_mode);
            Ok(())
        },
        Instruction::TYA(address_mode) => {
            tya(bus, &address_mode);
            Ok(())
        },
        Instruction::AAC(address_mode) => {
            aac(bus, &address_mode);
            Ok(())
        },
        Instruction::AAX(address_mode) => {
            aax(bus, &address_mode);
            Ok(())
        },
        Instruction::ARR(address_mode) => {
            arr(bus, &address_mode);
            Ok(())
        },
        Instruction::ASR(address_mode) => {
            asr(bus, &address_mode);
            Ok(())
        },
        _ => Ok(()),
    }
}

/// One slice of the mnemonics, for the dispatcher below.
pub open spec fn in_group_7(instruction: Instruction) -> bool {
    ||| instruction matches Instruction::AXS(_)
    ||| instruction matches Instruction::DCP(_)
    ||| instruction matches Instruction::DOP(_)
    ||| instruction matches Instruction::ISC(_)
    ||| instruction matches Instruction::KIL(_)
    ||| instruction matches Instruction::LAX(_)
    ||| instruction matches Instruction::RLA(_)
    ||| instruction matches Instruction::RRA(_)
    ||| instruction matches Instruction::SLO(_)
    ||| instruction matches Instruction::SRE(_)
}

/// One slice of the dispatcher.
#[verifier::rlimit(100)]
fn execute_group_7<C: Cartridge + Memory>(bus: &mut Bus<C>, instruction: &Instruction) -> (r: Result<
    (),
    EmuError,
>)
    requires
        in_group_7(*instruction),
        old(bus).wf(),
        valid_operands(*instruction),
        old(bus).clock + 16 <= i64::MAX,
    ensures
        final(bus).wf(),
        r is Ok ==> execute_rel(*old(bus), *final(bus), *instruction),
        bit_set(old(bus).cpu.status.bits, UNUSED) ==> bit_set(final(bus).cpu.status.bits, UNUSED),
        old(bus).clock <= final(bus).clock <= old(bus).clock + 16,
        r is Err <==> is_unstable(*instruction),
        !is_unstable(*instruction) ==> final(bus).clock >= old(bus).clock + 2,
        is_unstable(*instruction) ==> *final(bus) == *old(bus) && r == Err::<(), EmuError>(
            EmuError::Unimplemented,
        ),
{
    match *instruction {
        Instruction::AXS(address_mode) => {
            axs(bus, &address_mode);
            Ok(())
        },
        Instruction::DCP(address_mode) => {
            dcp(bus, &address_mode);
            Ok(())
        },
        Instruction::DOP(address_mode) => {
            dop(bus, &address_mode);
            Ok(())
        },
        Instruction::ISC(address_mode) => {
            isc(bus, &address_mode);
            Ok(())
        },
        Instruction::KIL(address_mode) => {
            kil(bus, &address_mode);
            Ok(())
        },
        Instruction::LAX(address_mode) => {
            lax(bus, &address_mode);
            Ok(())
        },
        Instruction::RLA(address_mode) => {
            rla(bus, &address_mode);
            Ok(())
        },
        Instruction::RRA(address_mode) => {
            rra(bus, &address_mode);
            Ok(())
        },
        Instruction::SLO(address_mode) => {
            slo(bus, &address_mode);
            Ok(())
        },
        Instruction::SRE(address_mode) => {
            sre(bus, &address_mode);
            Ok(())
        },
        _ => Ok(()),
    }
}

/// One slice of the mnemonics, for the dispatcher below.
pub open spec fn in_group_8(instruction: Instruction) -> bool {
    ||| instruction matches Instruction::TOP(_)
    ||| instruction matches Instruction::ATX(_)
    ||| instruction matches Instruction::AXA(_)
    ||| instruction matches Instruction::LAR(_)
    ||| instruction matches Instruction::SXA(_)
    ||| instruction matches Instruction::SYA(_)
    ||| instruction matches Instruction::XAA(_)
    ||| instruction matches Instruction::XAS(_)
}

/// One slice of the dispatcher.
#[verifier::rlimit(100)]
fn execute_group_8<C: Cartridge + Memory>(bus: &mut Bus<C>, instruction: &Instruction) -> (r: Result<
    (),
    EmuError,
>)
    requires
        in_group_8(*instruction),
        old(bus).wf(),
        valid_operands(*instruction),
        old(bus).clock + 16 <= i64::MAX,
    ensures
        final(bus).wf(),
        r is Ok ==> execute_rel(*old(bus), *final(bus), *instruction),
        bit_set(old(bus).cpu.status.bits, UNUSED) ==> bit_set(final(bus).cpu.status.bits, UNUSED),
        old(bus).clock <= final(bus).clock <= old(bus).clock + 16,
        r is Err <==> is_unstable(*instruction),
        !is_unstable(*instruction) ==> final(bus).clock >= old(bus).clock + 2,
        is_unstable(*instruction) ==> *final(bus) == *old(bus) && r == Err::<(), EmuError>(
            EmuError::Unimplemented,
        ),
{
    match *instruction {
        Instruction::TOP(address_mode) => {
            top(bus, &address_mode);
            Ok(())
        },
        Instruction::ATX(address_mode) => atx(bus, &address_mode),
        Instruction::AXA(address_mode) => axa(bus, &address_mode),
        Instruction::LAR(address_mode) => lar(bus, &address_mode),
        Instruction::SXA(address_mode) => sxa(bus, &address_mode),
        Instruction::SYA(address_mode) => sya(bus, &address_mode),
        Instruction::XAA(address_mode) => xaa(bus, &address_mode),
        Instruction::XAS(address_mode) => xas(bus, &address_mode),
        _ => Ok(()),
    }
}

} // verus!
