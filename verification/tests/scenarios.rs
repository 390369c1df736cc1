//! End-to-end scenarios: the documented invariants and boundary behaviours
//! of the processor, the bus and the PPU, run on concrete programs.

use nes_core::addressing::{
    absolute_indexed, indirect_pointer_addresses, relative_indexed, zero_page_indexed, AddressMode,
};
use nes_core::bus::Bus;
use nes_core::cartridge::Cartridge;
use nes_core::errors::EmuError;
use nes_core::instructions::{execute, fetch, Instruction};
use nes_core::interrupts::nmi;
use nes_core::memory::Memory;
use nes_core::status::{Status, CARRY, NEGATIVE, OVERFLOW, UNUSED, ZERO};

pub struct TestCart {
    pub mem: Vec<u8>,
}

impl Memory for TestCart {
    fn read(&mut self, address: usize) -> u8 {
        self.mem[address - 0x8000]
    }

    fn write(&mut self, address: usize, value: u8) {
        self.mem[address - 0x8000] = value;
    }
}

impl Cartridge for TestCart {
    fn get_reset_vector(&self) -> u16 {
        0x8000
    }

    fn get_size(&self) -> usize {
        self.mem.len()
    }

    fn begin(&self) -> usize {
        0x8000
    }
}

impl TestCart {
    pub fn new(mem: Vec<u8>) -> Self {
        TestCart { mem }
    }
}

/// The stack round trip: pushing a byte and popping it again yields the byte
/// and restores the stack pointer, including across the wrap at zero.
#[test]
fn stack_push_pop_round_trip() {
    let mut bus = Bus::new(TestCart::new(vec![0; 4]));
    for &sp in &[0xFDu8, 0x00, 0xFF, 0x80] {
        for &v in &[0x00u8, 0x5A, 0xFF] {
            bus.cpu.stack_ptr = sp;
            bus.stack_push(v);
            let back = bus.stack_pop();
            assert_eq!(back, v);
            assert_eq!(bus.cpu.stack_ptr, sp);
        }
    }
}

/// A push with stack pointer zero lands at 0x0100, inside RAM, and the
/// pointer wraps to 0xFF.
#[test]
fn stack_push_lands_in_ram() {
    let mut bus = Bus::new(TestCart::new(vec![0; 4]));
    bus.cpu.stack_ptr = 0x00;
    bus.stack_push(0x77);
    assert_eq!(bus.ram.memory[0x100], 0x77);
    assert_eq!(bus.cpu.stack_ptr, 0xFF);
}

/// Fetch wraps the program counter from 0xFFFF to 0x0000.
#[test]
fn fetch_wraps_program_counter() {
    let mut mem = vec![0u8; 0x8000];
    mem[0x7FFF] = 0xEA;
    let mut bus = Bus::new(TestCart::new(mem));
    bus.cpu.program_counter = 0xFFFF;
    let v = fetch(&mut bus);
    assert_eq!(v, 0xEA);
    assert_eq!(bus.cpu.program_counter, 0x0000);
}

/// The byte PHP pushes always has the Unused bit set, whatever the live
/// status holds.
#[test]
fn pushed_status_has_unused_bit() {
    let mut bus = Bus::new(TestCart::new(vec![0; 4]));
    bus.cpu.status = Status::from_bits(0x00);
    let _ = execute(&mut bus, &Instruction::PHP(AddressMode::Implied));
    assert_eq!(bus.ram.memory[0x1FD] & UNUSED, UNUSED);
    bus.cpu.status = Status::from_bits(0xCF);
    let _ = execute(&mut bus, &Instruction::PHP(AddressMode::Implied));
    assert_eq!(bus.ram.memory[0x1FC] & UNUSED, UNUSED);
}

/// The clock only ever grows, instruction after instruction.
#[test]
fn clock_is_monotonic() {
    let test_code = vec![0x01, 0x02, 0x03, 0x04];
    let mut bus = Bus::new(TestCart::new(test_code));
    let mut last = bus.clock;
    for _ in 0..8 {
        bus.cpu.program_counter = 0x8000;
        let _ = execute(&mut bus, &Instruction::LDA(AddressMode::Immediate));
        assert!(bus.clock >= last);
        last = bus.clock;
    }
}

/// ADC and SBC are duals: subtracting the complement gives the same
/// accumulator and the same Carry, Overflow, Zero and Negative flags.
#[test]
fn adc_sbc_duality() {
    let cases: Vec<(u8, u8, bool)> = vec![
        (0x00, 0x00, false),
        (0x7F, 0x00, true),
        (0x80, 0x01, false),
        (0xFF, 0xFF, true),
        (0x3C, 0xA5, false),
    ];
    for &(a, m, c) in &cases {
        let mut adc_bus = Bus::new(TestCart::new(vec![m]));
        adc_bus.cpu.accumulator = a;
        adc_bus.cpu.status.set_flags(Status::from_bits(CARRY), c);
        let _ = execute(&mut adc_bus, &Instruction::ADC(AddressMode::Immediate));

        let mut sbc_bus = Bus::new(TestCart::new(vec![!m]));
        sbc_bus.cpu.accumulator = a;
        sbc_bus.cpu.status.set_flags(Status::from_bits(CARRY), c);
        let _ = execute(&mut sbc_bus, &Instruction::SBC(AddressMode::Immediate));

        assert_eq!(adc_bus.cpu.accumulator, sbc_bus.cpu.accumulator);
        assert_eq!(adc_bus.cpu.status.bits(), sbc_bus.cpu.status.bits());
    }
}

/// Branch timing: not taken costs the two base cycles; taken on the same
/// page costs three; taken across a page costs four.
#[test]
fn branch_cycle_penalties() {
    let mut mem = vec![0u8; 0x200];
    mem[0x000] = 0x10;
    mem[0x0F0] = 0x10;
    let mut bus = Bus::new(TestCart::new(mem));

    // Not taken: Zero is clear after reset.
    bus.cpu.program_counter = 0x8000;
    let before = bus.clock;
    let _ = execute(&mut bus, &Instruction::BEQ(AddressMode::Relative));
    assert_eq!(bus.clock - before, 2);
    assert_eq!(bus.cpu.program_counter, 0x8001);

    // Taken, same page: 0x8001 + 0x10 stays on page 0x80.
    bus.cpu.program_counter = 0x8000;
    bus.cpu.status.set_flags(Status::from_bits(ZERO), true);
    let before = bus.clock;
    let _ = execute(&mut bus, &Instruction::BEQ(AddressMode::Relative));
    assert_eq!(bus.clock - before, 3);
    assert_eq!(bus.cpu.program_counter, 0x8011);

    // Taken, page crossed: 0x80F1 + 0x10 lands on page 0x81.
    bus.cpu.program_counter = 0x80F0;
    let before = bus.clock;
    let _ = execute(&mut bus, &Instruction::BEQ(AddressMode::Relative));
    assert_eq!(bus.clock - before, 4);
    assert_eq!(bus.cpu.program_counter, 0x8101);
}

/// The indirect JMP bug: a pointer at the end of a page takes its high byte
/// from the start of the same page, not the next one.
#[test]
fn indirect_jmp_page_wrap_bug() {
    let test_code = vec![0xFF, 0x02];
    let mut bus = Bus::new(TestCart::new(test_code));
    bus.ram.memory[0x2FF] = 0x34;
    bus.ram.memory[0x200] = 0x12;
    bus.ram.memory[0x300] = 0x78;
    let _ = execute(&mut bus, &Instruction::JMP(AddressMode::Indirect));
    assert_eq!(bus.cpu.program_counter, 0x1234);
}

/// The pure pointer rule behind the bug, on both sides of the boundary.
#[test]
fn indirect_pointer_rule() {
    assert_eq!(indirect_pointer_addresses(0x02FF), (0x02FF, 0x0200));
    assert_eq!(indirect_pointer_addresses(0x02FE), (0x02FE, 0x02FF));
    assert_eq!(indirect_pointer_addresses(0xFFFF), (0xFFFF, 0xFF00));
}

/// Zero-page indexing wraps inside page zero: 0x80 plus 0xFF names 0x007F.
#[test]
fn zero_page_indexed_wraps() {
    let test_code = vec![0x80];
    let mut bus = Bus::new(TestCart::new(test_code));
    bus.ram.memory[0x07F] = 0xAB;
    bus.ram.memory[0x17F] = 0xCD;
    bus.cpu.index_x = 0xFF;
    let _ = execute(&mut bus, &Instruction::LDA(AddressMode::ZeroPageX));
    assert_eq!(bus.cpu.accumulator, 0xAB);
    assert_eq!(zero_page_indexed(0x80, 0xFF), 0x7F);
}

/// The page-cross marker of indexed addressing is false exactly when the
/// high byte changes.
#[test]
fn page_cross_marker() {
    assert_eq!(absolute_indexed(0x80F0, 0x20), (0x8110, false));
    assert_eq!(absolute_indexed(0x8010, 0x20), (0x8030, true));
    assert_eq!(absolute_indexed(0xFFFF, 0x01), (0x0000, false));
    assert_eq!(relative_indexed(0x80F1, 0x10).1, false);
    assert_eq!(relative_indexed(0x8001, 0x10).1, true);
    assert_eq!(relative_indexed(0x8010, 0xFE), (0x800E, true));
}

/// RAM mirroring: one write shows at all four mirrors.
#[test]
fn ram_mirroring() {
    let mut bus = Bus::new(TestCart::new(vec![0; 4]));
    bus.write(0x0000, 0xAB);
    assert_eq!(bus.read(0x0800), 0xAB);
    assert_eq!(bus.read(0x1000), 0xAB);
    assert_eq!(bus.read(0x1800), 0xAB);
}

/// PPU register mirroring: a CTRL write through 0x3FF8 is a write to 0x2000.
#[test]
fn ppu_register_mirroring() {
    let mut bus = Bus::new(TestCart::new(vec![0; 4]));
    bus.write(0x3FF8, 0x55);
    assert_eq!(bus.ppu.control.bits, 0x55);
    bus.write(0x2001, 0x1E);
    assert_eq!(bus.ppu.mask.bits, 0x1E);
}

/// Reading STATUS clears VBlank and the shared address latch.
#[test]
fn status_read_side_effects() {
    let mut bus = Bus::new(TestCart::new(vec![0; 4]));
    bus.ppu.status = nes_core::ppu::status::Status::from_bits(0x80);
    bus.ppu.address.latch_high = false;
    let v = bus.read(0x2002);
    assert_eq!(v, 0x80);
    assert_eq!(bus.ppu.status.bits, 0x00);
    assert!(bus.ppu.address.latch_high);
}

/// PLP leaves the live B and Unused bits alone, whatever was popped.
#[test]
fn plp_ignores_break_and_unused() {
    let mut bus = Bus::new(TestCart::new(vec![0; 4]));
    bus.stack_push(0xFF);
    bus.cpu.status = Status::from_bits(UNUSED);
    let _ = execute(&mut bus, &Instruction::PLP(AddressMode::Implied));
    assert_eq!(bus.cpu.status.bits(), 0xEF);

    bus.stack_push(0x30);
    bus.cpu.status = Status::from_bits(UNUSED | CARRY);
    let _ = execute(&mut bus, &Instruction::PLP(AddressMode::Implied));
    assert_eq!(bus.cpu.status.bits(), UNUSED);
}

/// BIT takes Negative and Overflow from the operand even when the AND
/// result is zero.
#[test]
fn bit_flags_come_from_operand() {
    let test_code = vec![0xC0];
    let mut bus = Bus::new(TestCart::new(test_code));
    bus.cpu.accumulator = 0x00;
    let _ = execute(&mut bus, &Instruction::BIT(AddressMode::Immediate));
    let p = bus.cpu.status.bits();
    assert_eq!(p & ZERO, ZERO);
    assert_eq!(p & NEGATIVE, NEGATIVE);
    assert_eq!(p & OVERFLOW, OVERFLOW);
}

/// The ADC chain: A at 0x7F, Carry set, adding zero overflows into the sign
/// bit.
#[test]
fn adc_chain_overflow() {
    let test_code = vec![0x00];
    let mut bus = Bus::new(TestCart::new(test_code));
    bus.reset();
    bus.cpu.accumulator = 0x7F;
    let _ = execute(&mut bus, &Instruction::SEC(AddressMode::Implied));
    bus.cpu.program_counter = 0x8000;
    let _ = execute(&mut bus, &Instruction::ADC(AddressMode::Immediate));
    assert_eq!(bus.cpu.accumulator, 0x80);
    let p = bus.cpu.status.bits();
    assert_eq!(p & NEGATIVE, NEGATIVE);
    assert_eq!(p & OVERFLOW, OVERFLOW);
    assert_eq!(p & ZERO, 0);
    assert_eq!(p & CARRY, 0);
}

/// Two nested subroutine calls return to the outer flow with the stack
/// balanced.
#[test]
fn jsr_rts_depth_two() {
    let test_code = vec![0x06, 0x80, 0xFF, 0, 0, 0, 0x02, 0x80];
    let mut bus = Bus::new(TestCart::new(test_code));
    let initial_sp = bus.cpu.stack_ptr;
    let _ = execute(&mut bus, &Instruction::JSR(AddressMode::Absolute));
    let _ = execute(&mut bus, &Instruction::JSR(AddressMode::Absolute));
    let _ = execute(&mut bus, &Instruction::RTS(AddressMode::Implied));
    let _ = execute(&mut bus, &Instruction::RTS(AddressMode::Implied));
    assert_eq!(bus.cpu.program_counter, 0x8002);
    assert_eq!(bus.cpu.stack_ptr, initial_sp);
}

/// From reset with NMI enabled, the PPU raises the pending NMI at scanline
/// 241, and servicing it pushes three bytes and jumps through the vector at
/// 0xFFFA.
#[test]
fn ppu_raises_nmi_at_vblank() {
    let mut mem = vec![0u8; 0x8000];
    mem[0x7FFA] = 0x34;
    mem[0x7FFB] = 0x12;
    let mut bus = Bus::new(TestCart::new(mem));
    bus.write(0x2000, 0x80);
    let mut guard = 0;
    while !bus.ppu.is_nmi_interrupt && guard < 40000 {
        bus.tick(1);
        guard += 1;
    }
    assert!(bus.ppu.is_nmi_interrupt);
    assert_eq!(bus.ppu.curr_scanline, 241);
    assert_eq!(bus.clock, 27394);

    let sp_before = bus.cpu.stack_ptr;
    bus.ppu.is_nmi_interrupt = false;
    nmi(&mut bus);
    assert_eq!(bus.cpu.program_counter, 0x1234);
    assert_eq!(bus.cpu.stack_ptr, sp_before.wrapping_sub(3));
    // Three bytes pushed: return address and the status with B clear, U set.
    let pushed_status = bus.ram.memory[0x100 + sp_before.wrapping_sub(2) as usize];
    assert_eq!(pushed_status & 0x30, UNUSED);
}

/// At the pre-render scanline the frame wraps: VBlank and the pending NMI
/// are cleared again.
#[test]
fn ppu_frame_wrap_clears_vblank() {
    let mut bus = Bus::new(TestCart::new(vec![0; 4]));
    bus.write(0x2000, 0x80);
    let mut guard = 0;
    while !bus.ppu.is_nmi_interrupt && guard < 40000 {
        bus.tick(1);
        guard += 1;
    }
    assert!(bus.ppu.is_nmi_interrupt);
    assert_eq!(bus.ppu.status.bits & 0x80, 0x80);
    let mut guard = 0;
    while bus.ppu.curr_scanline != 0 && guard < 5000 {
        bus.tick(1);
        guard += 1;
    }
    assert_eq!(bus.ppu.curr_scanline, 0);
    assert!(!bus.ppu.is_nmi_interrupt);
    assert_eq!(bus.ppu.status.bits & 0x80, 0x00);
}

/// A KIL opcode halts the processor for good.
#[test]
fn kil_halts_the_processor() {
    let test_code = vec![0x00];
    let mut bus = Bus::new(TestCart::new(test_code));
    let _ = execute(&mut bus, &Instruction::KIL(AddressMode::Implied));
    assert!(bus.cpu.halted);
}

/// The unstable unofficial opcodes are refused and leave the machine alone.
#[test]
fn unstable_opcodes_are_refused() {
    let test_code = vec![0x00];
    let mut bus = Bus::new(TestCart::new(test_code));
    let pc = bus.cpu.program_counter;
    let clock = bus.clock;
    let r = execute(&mut bus, &Instruction::XAA(AddressMode::Immediate));
    assert_eq!(r, Err(EmuError::Unimplemented));
    assert_eq!(bus.cpu.program_counter, pc);
    assert_eq!(bus.clock, clock);
    let r = execute(&mut bus, &Instruction::ATX(AddressMode::Immediate));
    assert_eq!(r, Err(EmuError::Unimplemented));
}

/// LAX loads the accumulator and X at once; DCP decrements and compares.
#[test]
fn unofficial_lax_and_dcp() {
    let test_code = vec![0x10];
    let mut bus = Bus::new(TestCart::new(test_code));
    bus.ram.memory[0x10] = 0x9C;
    let _ = execute(&mut bus, &Instruction::LAX(AddressMode::ZeroPage));
    assert_eq!(bus.cpu.accumulator, 0x9C);
    assert_eq!(bus.cpu.index_x, 0x9C);
    assert_eq!(bus.cpu.status.bits() & NEGATIVE, NEGATIVE);

    bus.cpu.program_counter = 0x8000;
    bus.cpu.accumulator = 0x9B;
    let _ = execute(&mut bus, &Instruction::DCP(AddressMode::ZeroPage));
    assert_eq!(bus.ram.memory[0x10], 0x9B);
    let p = bus.cpu.status.bits();
    assert_eq!(p & ZERO, ZERO);
    assert_eq!(p & CARRY, CARRY);
}
