//! Per-instruction behaviour, exercised through a small writable cartridge
//! mapped at 0x8000, the way a test ROM would.

use nes_core::addressing::AddressMode;
use nes_core::bus::Bus;
use nes_core::cartridge::Cartridge;
use nes_core::cpu::STACK_PTR_INIT;
use nes_core::instructions::{execute, Instruction};
use nes_core::memory::Memory;
use nes_core::status::{Status, CARRY, DECIMAL, INTERRUPT_DISABLE, NEGATIVE, OVERFLOW, ZERO};

pub struct TestCart {
    pub mem: Vec<u8>,
}

impl Memory for TestCart {
    fn read(&mut self, address: usize) -> u8 {
        self.mem[address - TestCart::BEGIN]
    }

    fn write(&mut self, address: usize, value: u8) {
        self.mem[address - TestCart::BEGIN] = value;
    }
}

impl Cartridge for TestCart {
    fn get_reset_vector(&self) -> u16 {
        0x8000
    }

    fn get_size(&self) -> usize {
        self.mem.len()
    }

    fn begin(&self) -> usize {
        TestCart::BEGIN
    }
}

impl TestCart {
    pub const BEGIN: usize = 0x8000;

    pub fn new(mem: Vec<u8>) -> Self {
        TestCart { mem }
    }
}

fn base_status() -> u8 {
    Status::default().bits()
}


#[test]
fn adc() {
    let test_code = vec![0x01, 0x7F, 0x80, 0x01];
    let mut bus = Bus::new(TestCart::new(test_code));
    let instruction = Instruction::ADC(AddressMode::Immediate);
    bus.reset();
    {
        // Basic addition
        let _ = execute(&mut bus, &instruction);
        assert_eq!(bus.cpu.accumulator, 1);
        assert_eq!(bus.cpu.status.bits(), base_status());
    }
    {
        // Check overflow and negative
        let _ = execute(&mut bus, &instruction);
        assert_eq!(bus.cpu.accumulator, 0x80);
        assert_eq!(bus.cpu.status.bits(), base_status() | OVERFLOW | NEGATIVE);
    }
    {
        let _ = execute(&mut bus, &instruction);
        assert_eq!(bus.cpu.accumulator, 0);
        assert_eq!(bus.cpu.status.bits(), base_status() | CARRY | ZERO | OVERFLOW);
    }
    {
        let _ = execute(&mut bus, &instruction);
        assert_eq!(bus.cpu.accumulator, 2);
        assert_eq!(bus.cpu.status.bits(), base_status());
    }
}

#[test]
fn and() {
    let test_code = vec![0xF1, 0x01, 0x80];
    let mut bus = Bus::new(TestCart::new(test_code));
    let instruction = Instruction::AND(AddressMode::Immediate);
    bus.reset();
    bus.cpu.accumulator = 0xFF;
    {
        let _ = execute(&mut bus, &instruction);
        assert_eq!(bus.cpu.accumulator, 0xF1);
        assert_eq!(bus.cpu.status.bits(), base_status() | NEGATIVE);
    }
    {
        let _ = execute(&mut bus, &instruction);
        assert_eq!(bus.cpu.accumulator, 0x01);
        assert_eq!(bus.cpu.status.bits(), base_status());
    }
    {
        let _ = execute(&mut bus, &instruction);
        assert_eq!(bus.cpu.accumulator, 0x00);
        assert_eq!(bus.cpu.status.bits(), base_status() | ZERO);
    }
}

#[test]
fn asl() {
    let test_code = vec![0x02, 0x01, 0x02];
    let mut bus = Bus::new(TestCart::new(test_code));
    let instruction = Instruction::ASL(AddressMode::Accumulator);
    bus.cpu.accumulator = 0x80 >> 2;
    {
        let _ = execute(&mut bus, &instruction);
        assert_eq!(bus.cpu.accumulator, 0x80 >> 1);
        assert_eq!(bus.cpu.status.bits(), base_status());
    }
    {
        let _ = execute(&mut bus, &instruction);
        assert_eq!(bus.cpu.accumulator, 0x80);
        assert_eq!(bus.cpu.status.bits(), base_status() | NEGATIVE);
    }
    {
        let _ = execute(&mut bus, &instruction);
        assert_eq!(bus.cpu.accumulator, 0);
        assert_eq!(bus.cpu.status.bits(), base_status() | CARRY | ZERO);
    }
    {
        let instruction = Instruction::ASL(AddressMode::ZeroPage);
        bus.ram.memory[2] = 2;
        let _ = execute(&mut bus, &instruction);
        assert_eq!(bus.ram.memory[2], 4);
        assert_eq!(bus.cpu.status.bits(), base_status());
    }
}

#[test]
fn bcc() {
    let test_code = vec![0x01, 0x7F, (-2i8) as u8];
    let mut bus = Bus::new(TestCart::new(test_code));
    let instruction = Instruction::BCC(AddressMode::Relative);
    bus.reset();
    {
        let _ = execute(&mut bus, &instruction);
    }
    {
        let _ = execute(&mut bus, &instruction);
    }
    {
        bus.cpu.status = Status::from_bits(bus.cpu.status.bits() | CARRY);
        let _ = execute(&mut bus, &instruction);
    }
    assert_eq!(bus.cpu.program_counter, 0x02 + TestCart::BEGIN as u16);
}

#[test]
fn bcs() {
    let test_code = vec![0x01, 0x7F, (-2i8) as u8];
    let mut bus = Bus::new(TestCart::new(test_code));
    let instruction = Instruction::BCS(AddressMode::Relative);
    bus.reset();
    bus.cpu.status = Status::from_bits(bus.cpu.status.bits() | CARRY);
    {
        let _ = execute(&mut bus, &instruction);
    }
    {
        let _ = execute(&mut bus, &instruction);
    }
    {
        bus.cpu.status = Status::default();
        let _ = execute(&mut bus, &instruction);
    }
    assert_eq!(bus.cpu.program_counter, 0x02 + TestCart::BEGIN as u16);
}

#[test]
fn beq() {
    let test_code = vec![0x01, 0x7F, (-2i8) as u8];
    let mut bus = Bus::new(TestCart::new(test_code));
    let instruction = Instruction::BEQ(AddressMode::Relative);
    bus.reset();
    bus.cpu.status = Status::from_bits(bus.cpu.status.bits() | ZERO);
    {
        let _ = execute(&mut bus, &instruction);
    }
    {
        let _ = execute(&mut bus, &instruction);
    }
    {
        bus.cpu.status = Status::default();
        let _ = execute(&mut bus, &instruction);
    }
    assert_eq!(bus.cpu.program_counter, 0x02 + TestCart::BEGIN as u16);
}

#[test]
fn bit() {
    let test_code = vec![0x00, 0x80 >> 1, 0xFF, 0x02];
    let mut bus = Bus::new(TestCart::new(test_code));
    let instruction = Instruction::BIT(AddressMode::Immediate);
    bus.reset();
    bus.cpu.accumulator = 0xFF;
    {
        let _ = execute(&mut bus, &instruction);
        assert_eq!(bus.cpu.status.bits(), base_status() | ZERO);
    }
    {
        let _ = execute(&mut bus, &instruction);
        assert_eq!(bus.cpu.status.bits(), base_status() | OVERFLOW);
    }
    {
        let _ = execute(&mut bus, &instruction);
        assert_eq!(bus.cpu.status.bits(), base_status() | OVERFLOW | NEGATIVE);
    }
    {
        let _ = execute(&mut bus, &instruction);
        assert_eq!(bus.cpu.status.bits(), base_status());
    }
    assert_eq!(bus.cpu.accumulator, 0xFF);
}

#[test]
fn bmi() {
    let test_code = vec![0x01, 0x7F, (-2i8) as u8];
    let mut bus = Bus::new(TestCart::new(test_code));
    let instruction = Instruction::BMI(AddressMode::Relative);
    bus.reset();
    bus.cpu.status = Status::from_bits(bus.cpu.status.bits() | NEGATIVE);
    {
        let _ = execute(&mut bus, &instruction);
    }
    {
        let _ = execute(&mut bus, &instruction);
    }
    {
        bus.cpu.status = Status::default();
        let _ = execute(&mut bus, &instruction);
    }
    assert_eq!(bus.cpu.program_counter, 0x02 + TestCart::BEGIN as u16);
}

#[test]
fn bne() {
    let test_code = vec![0x01, 0x7F, (-2i8) as u8];
    let mut bus = Bus::new(TestCart::new(test_code));
    let instruction = Instruction::BNE(AddressMode::Relative);
    bus.reset();
    {
        let _ = execute(&mut bus, &instruction);
    }
    {
        let _ = execute(&mut bus, &instruction);
    }
    {
        bus.cpu.status = Status::from_bits(bus.cpu.status.bits() | ZERO);
        let _ = execute(&mut bus, &instruction);
    }
    assert_eq!(bus.cpu.program_counter, 0x02 + TestCart::BEGIN as u16);
}

#[test]
fn bpl() {
    let test_code = vec![0x01, 0x7F, (-2i8) as u8];
    let mut bus = Bus::new(TestCart::new(test_code));
    let instruction = Instruction::BPL(AddressMode::Relative);
    bus.reset();
    {
        let _ = execute(&mut bus, &instruction);
    }
    {
        let _ = execute(&mut bus, &instruction);
    }
    {
        bus.cpu.status = Status::from_bits(bus.cpu.status.bits() | NEGATIVE);
        let _ = execute(&mut bus, &instruction);
    }
    assert_eq!(bus.cpu.program_counter, 0x02 + TestCart::BEGIN as u16);
}

#[test]
fn brk() {}

#[test]
fn bvc() {
    let test_code = vec![0x01, 0x7F, (-2i8) as u8];
    let mut bus = Bus::new(TestCart::new(test_code));
    let instruction = Instruction::BVC(AddressMode::Relative);
    bus.reset();
    {
        let _ = execute(&mut bus, &instruction);
    }
    {
        let _ = execute(&mut bus, &instruction);
    }
    {
        bus.cpu.status = Status::from_bits(bus.cpu.status.bits() | OVERFLOW);
        let _ = execute(&mut bus, &instruction);
    }
    assert_eq!(bus.cpu.program_counter, 0x02 + TestCart::BEGIN as u16);
}

#[test]
fn bvs() {
    let test_code = vec![0x01, 0x7F, (-2i8) as u8];
    let mut bus = Bus::new(TestCart::new(test_code));
    let instruction = Instruction::BVS(AddressMode::Relative);
    bus.reset();
    bus.cpu.status = Status::from_bits(bus.cpu.status.bits() | OVERFLOW);
    {
        let _ = execute(&mut bus, &instruction);
    }
    {
        let _ = execute(&mut bus, &instruction);
    }
    {
        bus.cpu.status = Status::default();
        let _ = execute(&mut bus, &instruction);
    }
    assert_eq!(bus.cpu.program_counter, 0x02 + TestCart::BEGIN as u16);
}

#[test]
fn clc() {
    let test_code = vec![0x01, 0x7F, (-2i8) as u8];
    let mut bus = Bus::new(TestCart::new(test_code));
    let instruction = Instruction::CLC(AddressMode::Implied);
    bus.reset();
    {
        let _ = execute(&mut bus, &instruction);
        assert_eq!(bus.cpu.status.bits(), base_status());
    }
    {
        bus.cpu.status = Status::all_flags();
        let _ = execute(&mut bus, &instruction);
        assert_eq!(bus.cpu.status.bits(), 0xFF & !CARRY);
    }
}

#[test]
fn cld() {
    let test_code = vec![0x01, 0x7F, (-2i8) as u8];
    let mut bus = Bus::new(TestCart::new(test_code));
    let instruction = Instruction::CLD(AddressMode::Implied);
    bus.reset();
    {
        let _ = execute(&mut bus, &instruction);
        assert_eq!(bus.cpu.status.bits(), base_status());
    }
    {
        bus.cpu.status = Status::all_flags();
        let _ = execute(&mut bus, &instruction);
        assert_eq!(bus.cpu.status.bits(), 0xFF & !DECIMAL);
    }
}

#[test]
fn cli() {
    let test_code = vec![0x01, 0x7F, (-2i8) as u8];
    let mut bus = Bus::new(TestCart::new(test_code));
    let instruction = Instruction::CLI(AddressMode::Implied);
    bus.reset();
    {
        let _ = execute(&mut bus, &instruction);
        assert_eq!(bus.cpu.status.bits(), base_status() & !INTERRUPT_DISABLE);
    }
    {
        bus.cpu.status = Status::all_flags();
        let _ = execute(&mut bus, &instruction);
        assert_eq!(bus.cpu.status.bits(), 0xFF & !INTERRUPT_DISABLE);
    }
}

#[test]
fn clv() {
    let test_code = vec![0x01, 0x7F, (-2i8) as u8];
    let mut bus = Bus::new(TestCart::new(test_code));
    let instruction = Instruction::CLV(AddressMode::Implied);
    bus.reset();
    {
        let _ = execute(&mut bus, &instruction);
        assert_eq!(bus.cpu.status.bits(), base_status());
    }
    {
        bus.cpu.status = Status::all_flags();
        let _ = execute(&mut bus, &instruction);
        assert_eq!(bus.cpu.status.bits(), 0xFF & !OVERFLOW);
    }
}

#[test]
fn cmp() {
    let param = 0x10;
    let test_code = vec![param];
    let mut bus = Bus::new(TestCart::new(test_code));
    let instruction = Instruction::CMP(AddressMode::Immediate);
    {
        bus.reset();
        let _ = execute(&mut bus, &instruction);
        assert_eq!(bus.cpu.status.bits(), base_status() | NEGATIVE);
    }
    {
        bus.reset();
        bus.cpu.accumulator = param;
        let _ = execute(&mut bus, &instruction);
        assert_eq!(bus.cpu.status.bits(), base_status() | ZERO | CARRY);
    }
    {
        bus.reset();
        bus.cpu.accumulator = param + 1;
        let _ = execute(&mut bus, &instruction);
        assert_eq!(bus.cpu.status.bits(), base_status() | CARRY);
    }
}

#[test]
fn cpx() {
    let param = 0x10;
    let test_code = vec![param];
    let mut bus = Bus::new(TestCart::new(test_code));
    let instruction = Instruction::CPX(AddressMode::Immediate);
    {
        bus.reset();
        let _ = execute(&mut bus, &instruction);
        assert_eq!(bus.cpu.status.bits(), base_status() | NEGATIVE);
    }
    {
        bus.reset();
        bus.cpu.index_x = param;
        let _ = execute(&mut bus, &instruction);
        assert_eq!(bus.cpu.status.bits(), base_status() | ZERO | CARRY);
    }
    {
        bus.reset();
        bus.cpu.index_x = param + 1;
        let _ = execute(&mut bus, &instruction);
        assert_eq!(bus.cpu.status.bits(), base_status() | CARRY);
    }
}

#[test]
fn cpy() {
    let param = 0x10;
    let test_code = vec![param];
    let mut bus = Bus::new(TestCart::new(test_code));
    let instruction = Instruction::CPY(AddressMode::Immediate);
    {
        bus.reset();
        let _ = execute(&mut bus, &instruction);
        assert_eq!(bus.cpu.status.bits(), base_status() | NEGATIVE);
    }
    {
        bus.reset();
        bus.cpu.index_y = param;
        let _ = execute(&mut bus, &instruction);
        assert_eq!(bus.cpu.status.bits(), base_status() | ZERO | CARRY);
    }
    {
        bus.reset();
        bus.cpu.index_y = param + 1;
        let _ = execute(&mut bus, &instruction);
        assert_eq!(bus.cpu.status.bits(), base_status() | CARRY);
    }
}

#[test]
fn dec() {
    let test_code = vec![0x10, 0x01, 0xFF];
    let mut bus = Bus::new(TestCart::new(test_code));
    let instruction = Instruction::DEC(AddressMode::Immediate);
    {
        let _ = execute(&mut bus, &instruction);
        assert_eq!(bus.cpu.status.bits(), base_status());
        assert_eq!(bus.cart.mem[0], 0x0F);
    }
    {
        let _ = execute(&mut bus, &instruction);
        assert_eq!(bus.cpu.status.bits(), base_status() | ZERO);
        assert_eq!(bus.cart.mem[1], 0x00);
    }
    {
        let _ = execute(&mut bus, &instruction);
        assert_eq!(bus.cpu.status.bits(), base_status() | NEGATIVE);
        assert_eq!(bus.cart.mem[2], 0xFE);
    }
}

#[test]
fn dex() {
    let test_code = vec![0x10, 0x01, 0xFF];
    let mut bus = Bus::new(TestCart::new(test_code));
    let instruction = Instruction::DEX(AddressMode::Implied);
    {
        bus.cpu.index_x = 0x10;
        let _ = execute(&mut bus, &instruction);
        assert_eq!(bus.cpu.status.bits(), base_status());
        assert_eq!(bus.cpu.index_x, 0x0F);
    }
    {
        bus.cpu.index_x = 0x01;
        let _ = execute(&mut bus, &instruction);
        assert_eq!(bus.cpu.status.bits(), base_status() | ZERO);
        assert_eq!(bus.cpu.index_x, 0x00);
    }
    {
        bus.cpu.index_x = 0xFF;
        let _ = execute(&mut bus, &instruction);
        assert_eq!(bus.cpu.status.bits(), base_status() | NEGATIVE);
        assert_eq!(bus.cpu.index_x, 0xFE);
    }
}

#[test]
fn dey() {
    let test_code = vec![0x10, 0x01, 0xFF];
    let mut bus = Bus::new(TestCart::new(test_code));
    let instruction = Instruction::DEY(AddressMode::Implied);
    {
        bus.cpu.index_y = 0x10;
        let _ = execute(&mut bus, &instruction);
        assert_eq!(bus.cpu.status.bits(), base_status());
        assert_eq!(bus.cpu.index_y, 0x0F);
    }
    {
        bus.cpu.index_y = 0x01;
        let _ = execute(&mut bus, &instruction);
        assert_eq!(bus.cpu.status.bits(), base_status() | ZERO);
        assert_eq!(bus.cpu.index_y, 0x00);
    }
    {
        bus.cpu.index_y = 0xFF;
        let _ = execute(&mut bus, &instruction);
        assert_eq!(bus.cpu.status.bits(), base_status() | NEGATIVE);
        assert_eq!(bus.cpu.index_y, 0xFE);
    }
}

#[test]
fn eor() {
    let test_code = vec![0b10101010];
    let mut bus = Bus::new(TestCart::new(test_code));
    let instruction = Instruction::EOR(AddressMode::Immediate);
    bus.reset();
    {
        bus.reset();
        bus.cpu.accumulator = 0b10101011;
        bus.cpu.status = Status::from_bits(bus.cpu.status.bits() | NEGATIVE | ZERO);
        let _ = execute(&mut bus, &instruction);
        assert_eq!(bus.cpu.status.bits(), base_status());
        assert_eq!(bus.cpu.accumulator, 1);
    }
    {
        bus.reset();
        bus.cpu.accumulator = 0b10101010;
        let _ = execute(&mut bus, &instruction);
        assert_eq!(bus.cpu.status.bits(), base_status() | ZERO);
        assert_eq!(bus.cpu.accumulator, 0x00);
    }
    {
        bus.reset();
        bus.cpu.accumulator = 0b00101011;
        let _ = execute(&mut bus, &instruction);
        assert_eq!(bus.cpu.status.bits(), base_status() | NEGATIVE);
        assert_eq!(bus.cpu.accumulator, 0b10000001);
    }
}

#[test]
fn inc() {
    let test_code = vec![0x10, 0xFF, 0xFD];
    let mut bus = Bus::new(TestCart::new(test_code));
    let instruction = Instruction::INC(AddressMode::Immediate);
    {
        bus.cpu.status = Status::from_bits(bus.cpu.status.bits() | ZERO | NEGATIVE);
        let _ = execute(&mut bus, &instruction);
        assert_eq!(bus.cpu.status.bits(), base_status());
        assert_eq!(bus.cart.mem[0], 0x11);
    }
    {
        let _ = execute(&mut bus, &instruction);
        assert_eq!(bus.cpu.status.bits(), base_status() | ZERO);
        assert_eq!(bus.cart.mem[1], 0x00);
    }
    {
        let _ = execute(&mut bus, &instruction);
        assert_eq!(bus.cpu.status.bits(), base_status() | NEGATIVE);
        assert_eq!(bus.cart.mem[2], 0xFE);
    }
}

#[test]
fn inx() {
    let test_code = vec![0x10, 0x01, 0xFF];
    let mut bus = Bus::new(TestCart::new(test_code));
    let instruction = Instruction::INX(AddressMode::Implied);
    {
        bus.cpu.index_x = 0x0E;
        bus.cpu.status = Status::from_bits(bus.cpu.status.bits() | ZERO | NEGATIVE);
        let _ = execute(&mut bus, &instruction);
        assert_eq!(bus.cpu.status.bits(), base_status());
        assert_eq!(bus.cpu.index_x, 0x0F);
    }
    {
        bus.cpu.index_x = 0xFF;
        let _ = execute(&mut bus, &instruction);
        assert_eq!(bus.cpu.status.bits(), base_status() | ZERO);
        assert_eq!(bus.cpu.index_x, 0x00);
    }
    {
        bus.cpu.index_x = 0xFD;
        let _ = execute(&mut bus, &instruction);
        assert_eq!(bus.cpu.status.bits(), base_status() | NEGATIVE);
        assert_eq!(bus.cpu.index_x, 0xFE);
    }
}

#[test]
fn iny() {
    let test_code = vec![0x10, 0x01, 0xFF];
    let mut bus = Bus::new(TestCart::new(test_code));
    let instruction = Instruction::INY(AddressMode::Implied);
    {
        bus.cpu.index_y = 0x0E;
        let _ = execute(&mut bus, &instruction);
        assert_eq!(bus.cpu.status.bits(), base_status());
        assert_eq!(bus.cpu.index_y, 0x0F);
    }
    {
        bus.cpu.index_y = 0xFF;
        let _ = execute(&mut bus, &instruction);
        assert_eq!(bus.cpu.status.bits(), base_status() | ZERO);
        assert_eq!(bus.cpu.index_y, 0x00);
    }
    {
        bus.cpu.index_y = 0xFD;
        let _ = execute(&mut bus, &instruction);
        assert_eq!(bus.cpu.status.bits(), base_status() | NEGATIVE);
        assert_eq!(bus.cpu.index_y, 0xFE);
    }
}

#[test]
fn jmp() {
    let test_code = vec![0x00, 0x10, 0xFF];
    let mut bus = Bus::new(TestCart::new(test_code));
    let instruction = Instruction::JMP(AddressMode::Absolute);
    let _ = execute(&mut bus, &instruction);
    assert_eq!(bus.cpu.program_counter, 0x1000);
}

#[test]
fn jsr() {
    let test_code = vec![0x03, 0x80, 0xFF, 0x02, 0x80];
    let mut bus = Bus::new(TestCart::new(test_code));
    let instruction = Instruction::JSR(AddressMode::Absolute);
    let _ = execute(&mut bus, &instruction);
    let _ = execute(&mut bus, &instruction);
    assert_eq!(bus.cpu.program_counter, 0x8002);
    assert_eq!(bus.cpu.stack_ptr, STACK_PTR_INIT - 4);
}

#[test]
fn lda() {
    let test_code = vec![0x00, 0xFF, 0x01];
    let mut bus = Bus::new(TestCart::new(test_code));
    let instruction = Instruction::LDA(AddressMode::Immediate);
    {
        let _ = execute(&mut bus, &instruction);
        assert_eq!(bus.cpu.accumulator, 0);
        assert_eq!(bus.cpu.status.bits(), base_status() | ZERO);
    }
    {
        let _ = execute(&mut bus, &instruction);
        assert_eq!(bus.cpu.accumulator, 0xFF);
        assert_eq!(bus.cpu.status.bits(), base_status() | NEGATIVE);
    }
    {
        let _ = execute(&mut bus, &instruction);
        assert_eq!(bus.cpu.accumulator, 0x01);
        assert_eq!(bus.cpu.status.bits(), base_status());
    }
}

#[test]
fn ldx() {
    let test_code = vec![0x00, 0xFF, 0x01];
    let mut bus = Bus::new(TestCart::new(test_code));
    let instruction = Instruction::LDX(AddressMode::Immediate);
    {
        let _ = execute(&mut bus, &instruction);
        assert_eq!(bus.cpu.index_x, 0);
        assert_eq!(bus.cpu.status.bits(), base_status() | ZERO);
    }
    {
        let _ = execute(&mut bus, &instruction);
        assert_eq!(bus.cpu.index_x, 0xFF);
        assert_eq!(bus.cpu.status.bits(), base_status() | NEGATIVE);
    }
    {
        let _ = execute(&mut bus, &instruction);
        assert_eq!(bus.cpu.index_x, 0x01);
        assert_eq!(bus.cpu.status.bits(), base_status());
    }
}

#[test]
fn ldy() {
    let test_code = vec![0x00, 0xFF, 0x01];
    let mut bus = Bus::new(TestCart::new(test_code));
    let instruction = Instruction::LDY(AddressMode::Immediate);
    {
        let _ = execute(&mut bus, &instruction);
        assert_eq!(bus.cpu.index_y, 0);
        assert_eq!(bus.cpu.status.bits(), base_status() | ZERO);
    }
    {
        let _ = execute(&mut bus, &instruction);
        assert_eq!(bus.cpu.index_y, 0xFF);
        assert_eq!(bus.cpu.status.bits(), base_status() | NEGATIVE);
    }
    {
        let _ = execute(&mut bus, &instruction);
        assert_eq!(bus.cpu.index_y, 0x01);
        assert_eq!(bus.cpu.status.bits(), base_status());
    }
}

#[test]
fn lsr() {
    let test_code = vec![0x02, 0x80, 0x08];
    let mut bus = Bus::new(TestCart::new(test_code));
    let instruction = Instruction::LSR(AddressMode::Accumulator);
    {
        bus.cpu.accumulator = 0x80;
        let _ = execute(&mut bus, &instruction);
        assert_eq!(bus.cpu.accumulator, 0x80 >> 1);
        assert_eq!(bus.cpu.status.bits(), base_status());
    }
    {
        bus.cpu.accumulator = 0x2;
        let _ = execute(&mut bus, &instruction);
        assert_eq!(bus.cpu.accumulator, 0x1);
        assert_eq!(bus.cpu.status.bits(), base_status());
    }
    {
        let _ = execute(&mut bus, &instruction);
        assert_eq!(bus.cpu.accumulator, 0);
        assert_eq!(bus.cpu.status.bits(), base_status() | CARRY | ZERO);
    }
    {
        let instruction = Instruction::LSR(AddressMode::Absolute);
        let _ = execute(&mut bus, &instruction);
        assert_eq!(bus.cart.mem[2], 4);
        assert_eq!(bus.cpu.status.bits(), base_status());
    }
}

#[test]
fn nop() {}

#[test]
fn ora() {
    let test_code = vec![0x00, 0x01, 0x80];
    let mut bus = Bus::new(TestCart::new(test_code));
    let instruction = Instruction::ORA(AddressMode::Immediate);
    {
        let _ = execute(&mut bus, &instruction);
        assert_eq!(bus.cpu.accumulator, 0);
        assert_eq!(bus.cpu.status.bits(), base_status() | ZERO);
    }
    {
        let _ = execute(&mut bus, &instruction);
        assert_eq!(bus.cpu.accumulator, 0x1);
        assert_eq!(bus.cpu.status.bits(), base_status());
    }
    {
        let _ = execute(&mut bus, &instruction);
        assert_eq!(bus.cpu.accumulator, 0x81);
        assert_eq!(bus.cpu.status.bits(), base_status() | NEGATIVE);
    }
}

#[test]
fn pha() {
    let test_code = vec![0x00, 0x01, 0x80];
    let mut bus = Bus::new(TestCart::new(test_code));
    let instruction = Instruction::PHA(AddressMode::Implied);
    {
        bus.cpu.accumulator = 0x10;
        let _ = execute(&mut bus, &instruction);
        assert_eq!(bus.cpu.accumulator, bus.ram.memory[0x1FD]);
        assert_eq!(bus.cpu.stack_ptr, 0xFC);
    }
    {
        bus.cpu.accumulator = 0x20;
        let _ = execute(&mut bus, &instruction);
        assert_eq!(bus.cpu.accumulator, bus.ram.memory[0x1FC]);
        assert_eq!(bus.cpu.stack_ptr, 0xFB);
    }
}

#[test]
fn pla() {
    let test_code = vec![0x00, 0x01, 0x80];
    let mut bus = Bus::new(TestCart::new(test_code));
    let instruction = Instruction::PLA(AddressMode::Implied);
    {
        let instruction = Instruction::PHA(AddressMode::Implied);
        bus.cpu.accumulator = 0x10;
        let _ = execute(&mut bus, &instruction);
        bus.cpu.accumulator = 0x20;
        let _ = execute(&mut bus, &instruction);
        bus.cpu.accumulator = 0;
    }
    {
        let _ = execute(&mut bus, &instruction);
        assert_eq!(bus.cpu.accumulator, 0x20);
        assert_eq!(bus.cpu.stack_ptr, 0xFC);
    }
    {
        let _ = execute(&mut bus, &instruction);
        assert_eq!(bus.cpu.accumulator, 0x10);
        assert_eq!(bus.cpu.stack_ptr, 0xFD);
    }
}

#[test]
fn php() {
    let test_code = vec![0x00, 0x01, 0x80];
    let mut bus = Bus::new(TestCart::new(test_code));
    let instruction = Instruction::PHP(AddressMode::Implied);
    {
        let _ = execute(&mut bus, &instruction);
        // The pushed copy carries B and Unused; the live register does not.
        assert_eq!(bus.cpu.status.bits() | 0x30, bus.ram.memory[0x1FD]);
        assert_eq!(bus.cpu.stack_ptr, 0xFC);
    }
    {
        bus.cpu.status = Status::all_bits();
        let _ = execute(&mut bus, &instruction);
        assert_eq!(bus.cpu.status.bits() | 0x30, bus.ram.memory[0x1FC]);
        assert_eq!(bus.cpu.stack_ptr, 0xFB);
    }
}

#[test]
fn plp() {
    let test_code = vec![0x00, 0x01, 0x80];
    let mut bus = Bus::new(TestCart::new(test_code));
    let instruction = Instruction::PLP(AddressMode::Implied);
    {
        let instruction = Instruction::PHP(AddressMode::Implied);
        let _ = execute(&mut bus, &instruction);
        bus.cpu.status = Status::all_flags();
        let _ = execute(&mut bus, &instruction);
        bus.cpu.status = Status::default();
    }
    {
        let _ = execute(&mut bus, &instruction);
        // Bits 4 and 5 of the popped 0xFF do not reach the live register:
        // B stays clear, Unused stays set.
        assert_eq!(bus.cpu.status.bits(), 0xEF);
        assert_eq!(bus.cpu.stack_ptr, 0xFC);
    }
    {
        let _ = execute(&mut bus, &instruction);
        assert_eq!(bus.cpu.status.bits(), Status::default().bits());
        assert_eq!(bus.cpu.stack_ptr, 0xFD);
    }
}

#[test]
fn rol() {
    let test_code = vec![0x02, 0x80, 0x02];
    let mut bus = Bus::new(TestCart::new(test_code));
    let instruction = Instruction::ROL(AddressMode::Accumulator);
    bus.cpu.accumulator = 0x80 >> 2;
    {
        let _ = execute(&mut bus, &instruction);
        assert_eq!(bus.cpu.accumulator, 0x80 >> 1);
        assert_eq!(bus.cpu.status.bits(), base_status());
    }
    {
        let _ = execute(&mut bus, &instruction);
        assert_eq!(bus.cpu.accumulator, 0x80);
        assert_eq!(bus.cpu.status.bits(), base_status() | NEGATIVE);
    }
    {
        let _ = execute(&mut bus, &instruction);
        assert_eq!(bus.cpu.accumulator, 0);
        assert_eq!(bus.cpu.status.bits(), base_status() | CARRY | ZERO);
    }
    {
        let instruction = Instruction::ROL(AddressMode::Absolute);
        let _ = execute(&mut bus, &instruction);
        assert_eq!(bus.cart.mem[2], 5);
        assert_eq!(bus.cpu.status.bits(), base_status());
    }
}

#[test]
fn ror() {
    let test_code = vec![0x02, 0x80, 0x02];
    let mut bus = Bus::new(TestCart::new(test_code));
    let instruction = Instruction::ROR(AddressMode::Accumulator);
    bus.cpu.accumulator = 0x01;
    {
        let _ = execute(&mut bus, &instruction);
        assert_eq!(bus.cpu.accumulator, 0);
        assert_eq!(bus.cpu.status.bits(), base_status() | CARRY | ZERO);
    }
    {
        let _ = execute(&mut bus, &instruction);
        assert_eq!(bus.cpu.accumulator, 0x80);
        assert_eq!(bus.cpu.status.bits(), base_status() | NEGATIVE);
    }
    {
        let instruction = Instruction::ROR(AddressMode::Absolute);
        let _ = execute(&mut bus, &instruction);
        assert_eq!(bus.cart.mem[2], 1);
        assert_eq!(bus.cpu.status.bits(), base_status());
    }
}

#[test]
fn rti() {}

#[test]
fn rts() {
    let test_code = vec![0x06, 0x80, 0xFF, 0, 0, 0, 0x02, 0x80];
    let mut bus = Bus::new(TestCart::new(test_code));
    {
        let instruction = Instruction::JSR(AddressMode::Absolute);
        let _ = execute(&mut bus, &instruction);
        let _ = execute(&mut bus, &instruction);
    }
    {
        let instruction = Instruction::RTS(AddressMode::Implied);
        let _ = execute(&mut bus, &instruction);
        assert_eq!(bus.cpu.program_counter, 0x8008);
        assert_eq!(bus.cpu.stack_ptr, 0xFB);
        let _ = execute(&mut bus, &instruction);
        assert_eq!(bus.cpu.program_counter, 0x8002);
        assert_eq!(bus.cpu.stack_ptr, 0xFD);
    }
}

#[test]
fn sbc() {
    let test_code = vec![0x01, 0x01, 0x7D, 0x01];
    let mut bus = Bus::new(TestCart::new(test_code));
    let instruction = Instruction::SBC(AddressMode::Immediate);
    bus.cpu.accumulator = 0x80;
    {
        let _ = execute(&mut bus, &instruction);
        assert_eq!(bus.cpu.accumulator, 0x7E);
        assert_eq!(bus.cpu.status.bits(), base_status() | OVERFLOW | CARRY);
    }
    {
        let _ = execute(&mut bus, &instruction);
        assert_eq!(bus.cpu.accumulator, 0x7D);
        assert_eq!(bus.cpu.status.bits(), base_status() | CARRY);
    }
    {
        let _ = execute(&mut bus, &instruction);
        assert_eq!(bus.cpu.accumulator, 0);
        assert_eq!(bus.cpu.status.bits(), base_status() | ZERO | CARRY);
    }
    {
        let _ = execute(&mut bus, &instruction);
        assert_eq!(bus.cpu.accumulator, 0xFF);
        assert_eq!(bus.cpu.status.bits(), base_status() | NEGATIVE);
    }
}

#[test]
fn sec() {
    let test_code = vec![0x01, 0x7F, (-2i8) as u8];
    let mut bus = Bus::new(TestCart::new(test_code));
    let instruction = Instruction::SEC(AddressMode::Implied);
    {
        let _ = execute(&mut bus, &instruction);
        assert_eq!(bus.cpu.status.bits(), base_status() | CARRY);
    }
}

#[test]
fn sed() {
    let test_code = vec![0x01, 0x7F, (-2i8) as u8];
    let mut bus = Bus::new(TestCart::new(test_code));
    let instruction = Instruction::SED(AddressMode::Implied);
    {
        let _ = execute(&mut bus, &instruction);
        assert_eq!(bus.cpu.status.bits(), base_status() | DECIMAL);
    }
}

#[test]
fn sei() {
    let test_code = vec![0x01, 0x7F, (-2i8) as u8];
    let mut bus = Bus::new(TestCart::new(test_code));
    let instruction = Instruction::SEI(AddressMode::Implied);
    {
        let _ = execute(&mut bus, &instruction);
        assert_eq!(bus.cpu.status.bits(), base_status() | INTERRUPT_DISABLE);
    }
}

#[test]
fn sta() {
    let test_code = vec![0x01, 0x00, 0x05, 0x00];
    let mut bus = Bus::new(TestCart::new(test_code));
    let instruction = Instruction::STA(AddressMode::Absolute);
    {
        bus.cpu.accumulator = 0x20;
        let _ = execute(&mut bus, &instruction);
        assert_eq!(bus.ram.memory[0x01], 0x20);
    }
    {
        bus.cpu.accumulator = 0x80;
        let _ = execute(&mut bus, &instruction);
        assert_eq!(bus.ram.memory[0x05], 0x80);
    }
}

#[test]
fn stx() {
    let test_code = vec![0x01, 0x00, 0x05, 0x00];
    let mut bus = Bus::new(TestCart::new(test_code));
    let instruction = Instruction::STX(AddressMode::Absolute);
    {
        bus.cpu.index_x = 0x20;
        let _ = execute(&mut bus, &instruction);
        assert_eq!(bus.ram.memory[0x01], 0x20);
    }
    {
        bus.cpu.index_x = 0x80;
        let _ = execute(&mut bus, &instruction);
        assert_eq!(bus.ram.memory[0x05], 0x80);
    }
}

#[test]
fn sty() {
    let test_code = vec![0x01, 0x00, 0x05, 0x00];
    let mut bus = Bus::new(TestCart::new(test_code));
    let instruction = Instruction::STY(AddressMode::Absolute);
    {
        bus.cpu.index_y = 0x20;
        let _ = execute(&mut bus, &instruction);
        assert_eq!(bus.ram.memory[0x01], 0x20);
    }
    {
        bus.cpu.index_y = 0x80;
        let _ = execute(&mut bus, &instruction);
        assert_eq!(bus.ram.memory[0x05], 0x80);
    }
}

#[test]
fn tax() {
    let test_code = vec![0x01, 0x00, 0x05, 0x00];
    let mut bus = Bus::new(TestCart::new(test_code));
    let instruction = Instruction::TAX(AddressMode::Implied);
    {
        bus.cpu.accumulator = 0x20;
        let _ = execute(&mut bus, &instruction);
        assert_eq!(bus.cpu.index_x, 0x20);
        assert_eq!(bus.cpu.status.bits(), base_status());
    }
    {
        bus.cpu.accumulator = 0x0;
        let _ = execute(&mut bus, &instruction);
        assert_eq!(bus.cpu.index_x, 0x0);
        assert_eq!(bus.cpu.status.bits(), base_status() | ZERO);
    }
    {
        bus.cpu.accumulator = 0xFF;
        let _ = execute(&mut bus, &instruction);
        assert_eq!(bus.cpu.index_x, 0xFF);
        assert_eq!(bus.cpu.status.bits(), base_status() | NEGATIVE);
    }
}

#[test]
fn tay() {
    let test_code = vec![0x01, 0x00, 0x05, 0x00];
    let mut bus = Bus::new(TestCart::new(test_code));
    let instruction = Instruction::TAY(AddressMode::Implied);
    {
        bus.cpu.accumulator = 0x20;
        let _ = execute(&mut bus, &instruction);
        assert_eq!(bus.cpu.index_y, 0x20);
        assert_eq!(bus.cpu.status.bits(), base_status());
    }
    {
        bus.cpu.accumulator = 0x0;
        let _ = execute(&mut bus, &instruction);
        assert_eq!(bus.cpu.index_y, 0x0);
        assert_eq!(bus.cpu.status.bits(), base_status() | ZERO);
    }
    {
        bus.cpu.accumulator = 0xFF;
        let _ = execute(&mut bus, &instruction);
        assert_eq!(bus.cpu.index_y, 0xFF);
        assert_eq!(bus.cpu.status.bits(), base_status() | NEGATIVE);
    }
}

#[test]
fn tsx() {
    let test_code = vec![0x01, 0x00, 0x05, 0x00];
    let mut bus = Bus::new(TestCart::new(test_code));
    let instruction = Instruction::TSX(AddressMode::Implied);
    {
        bus.cpu.stack_ptr = 0x20;
        let _ = execute(&mut bus, &instruction);
        assert_eq!(bus.cpu.index_x, 0x20);
        assert_eq!(bus.cpu.status.bits(), base_status());
    }
    {
        bus.cpu.stack_ptr = 0x0;
        let _ = execute(&mut bus, &instruction);
        assert_eq!(bus.cpu.index_x, 0x0);
        assert_eq!(bus.cpu.status.bits(), base_status() | ZERO);
    }
    {
        bus.cpu.stack_ptr = 0xFF;
        let _ = execute(&mut bus, &instruction);
        assert_eq!(bus.cpu.index_x, 0xFF);
        assert_eq!(bus.cpu.status.bits(), base_status() | NEGATIVE);
    }
}

#[test]
fn txa() {
    let test_code = vec![0x01, 0x00, 0x05, 0x00];
    let mut bus = Bus::new(TestCart::new(test_code));
    let instruction = Instruction::TXA(AddressMode::Implied);
    {
        bus.cpu.index_x = 0x20;
        let _ = execute(&mut bus, &instruction);
        assert_eq!(bus.cpu.accumulator, 0x20);
        assert_eq!(bus.cpu.status.bits(), base_status());
    }
    {
        bus.cpu.index_x = 0x0;
        let _ = execute(&mut bus, &instruction);
        assert_eq!(bus.cpu.accumulator, 0x0);
        assert_eq!(bus.cpu.status.bits(), base_status() | ZERO);
    }
    {
        bus.cpu.index_x = 0xFF;
        let _ = execute(&mut bus, &instruction);
        assert_eq!(bus.cpu.accumulator, 0xFF);
        assert_eq!(bus.cpu.status.bits(), base_status() | NEGATIVE);
    }
}
