//! Processor registers and the value-level arithmetic, logic, shift and flag
//! operations that the instruction set is built from.
//!
//! Every operation here is a total function of register values and an operand
//! byte; the memory bus is not involved. The instruction routines fetch the
//! operand and then call one of these.

use vstd::prelude::*;

use crate::status::{
    bit_set, with_flag, Status, BREAK_FLAG, CARRY, DECIMAL, INTERRUPT_DISABLE, NEGATIVE, OVERFLOW,
    UNUSED, ZERO,
};

verus! {

/// The stack pointer value established by RESET.
pub const STACK_PTR_INIT: u8 = 0xFD;

/// The 16-bit program counter incremented by one, wrapping 0xFFFF to 0x0000.
pub open spec fn wrap_inc16(pc: u16) -> u16 {
    if pc == 0xFFFF {
        0
    } else {
        (pc + 1) as u16
    }
}

/// 16-bit addition modulo 0x10000.
pub open spec fn wrap_add16(a: u16, n: u16) -> u16 {
    ((a + n) % 0x10000) as u16
}

/// The 16-bit word assembled from a low and a high byte (little-endian order).
pub open spec fn word(lo: u8, hi: u8) -> u16 {
    (lo + hi * 256) as u16
}

/// The low byte of a 16-bit word.
pub open spec fn lo_byte(w: u16) -> u8 {
    (w % 256) as u8
}

/// The high byte of a 16-bit word.
pub open spec fn hi_byte(w: u16) -> u8 {
    (w / 256) as u8
}

/// 8-bit increment with wrap-around.
pub open spec fn wrap_inc8(v: u8) -> u8 {
    if v == 0xFF {
        0
    } else {
        (v + 1) as u8
    }
}

/// 8-bit decrement with wrap-around.
pub open spec fn wrap_dec8(v: u8) -> u8 {
    if v == 0 {
        0xFF
    } else {
        (v - 1) as u8
    }
}

/// The registers of the processor. RAM lives on the bus, not here.
#[derive(Clone, Copy, Debug, PartialEq, Eq, Structural)]
pub struct Cpu {
    pub accumulator: u8,
    pub index_x: u8,
    pub index_y: u8,
    pub program_counter: u16,
    pub stack_ptr: u8,
    pub status: Status,
    /// Set by a KIL opcode; a halted processor executes nothing further.
    pub halted: bool,
}

impl Default for Cpu {
    /// The register file after RESET, except for the program counter, which
    /// RESET loads from the reset vector.
    fn default() -> (c: Cpu)
        ensures
            c.accumulator == 0,
            c.index_x == 0,
            c.index_y == 0,
            c.program_counter == 0,
            c.stack_ptr == STACK_PTR_INIT,
            c.status.bits == 0x24,
            !c.halted,
    {
        Cpu {
            accumulator: 0,
            index_x: 0,
            index_y: 0,
            program_counter: 0,
            stack_ptr: STACK_PTR_INIT,
            status: Status { bits: 0x24 },
            halted: false,
        }
    }
}

impl Cpu {
    /// Advances the program counter by one, wrapping 0xFFFF to 0x0000.
    pub fn increment_pc(&mut self)
        ensures
            *final(self) == (Cpu { program_counter: wrap_inc16(old(self).program_counter), ..*old(
                self,
            ) }),
    {
        if self.program_counter == 0xFFFF {
            self.program_counter = 0;
        } else {
            self.program_counter = self.program_counter + 1;
        }
    }
}

/// Assembles a little-endian word from two bytes.
pub fn make_word(lo: u8, hi: u8) -> (w: u16)
    ensures
        w == word(lo, hi),
{
    lo as u16 + hi as u16 * 256
}

// ---------------------------------------------------------------------------
// Flag update rules
// ---------------------------------------------------------------------------

/// The status byte after the Negative-then-Zero update that the load, logic,
/// transfer and increment instructions perform on their result `r`.
pub open spec fn nz(p: u8, r: u8) -> u8 {
    with_flag(with_flag(p, NEGATIVE, bit_set(r, NEGATIVE)), ZERO, r == 0)
}

/// Sets the Negative flag from bit 7 of `result`.
pub fn test_and_set_negative_flag(cpu: &mut Cpu, result: u8)
    ensures
        *final(cpu) == (Cpu {
            status: Status {
                bits: with_flag(old(cpu).status.bits, NEGATIVE, bit_set(result, NEGATIVE)),
            },
            ..*old(cpu)
        }),
{
    let is_negative = result & NEGATIVE != 0;
    cpu.status.set_flags(Status::from_bits(NEGATIVE), is_negative);
}

/// Sets the Zero flag exactly when `result` is zero.
pub fn test_and_set_zero_flag(cpu: &mut Cpu, result: u8)
    ensures
        *final(cpu) == (Cpu {
            status: Status { bits: with_flag(old(cpu).status.bits, ZERO, result == 0) },
            ..*old(cpu)
        }),
{
    let is_zero = result == 0;
    cpu.status.set_flags(Status::from_bits(ZERO), is_zero);
}

/// Sets the Overflow flag by the two's-complement rule
/// `(result XOR a) AND (result XOR m) AND 0x80 != 0`.
pub fn test_and_set_overflow_flag(cpu: &mut Cpu, acc: u8, param: u8, result: u8)
    ensures
        *final(cpu) == (Cpu {
            status: Status {
                bits: with_flag(old(cpu).status.bits, OVERFLOW, overflow_from(acc, param, result)),
            },
            ..*old(cpu)
        }),
{
    let is_overflow = ((result ^ acc) & (result ^ param) & 0x80) != 0;
    cpu.status.set_flags(Status::from_bits(OVERFLOW), is_overflow);
}

// ---------------------------------------------------------------------------
// Addition and subtraction
// ---------------------------------------------------------------------------

/// The accumulator after `A + M + C`, truncated to eight bits.
pub open spec fn adc_output(a: u8, m: u8, carry_in: bool) -> u8 {
    ((a + m + (if carry_in {
        1int
    } else {
        0int
    })) % 256) as u8
}

/// Whether `A + M + C` exceeds 0xFF.
pub open spec fn adc_carry_out(a: u8, m: u8, carry_in: bool) -> bool {
    a + m + (if carry_in {
        1int
    } else {
        0int
    }) > 255
}

/// The signed-overflow rule for addition.
pub open spec fn overflow_from(a: u8, m: u8, r: u8) -> bool {
    (r ^ a) & (r ^ m) & 0x80 != 0
}

/// The status byte after ADC sets Carry, Overflow, Zero and Negative.
pub open spec fn status_after_adc(p: u8, a: u8, m: u8, carry_in: bool) -> u8 {
    let r = adc_output(a, m, carry_in);
    with_flag(
        with_flag(
            with_flag(with_flag(p, CARRY, adc_carry_out(a, m, carry_in)), OVERFLOW, overflow_from(a, m, r)),
            ZERO,
            r == 0,
        ),
        NEGATIVE,
        bit_set(r, NEGATIVE),
    )
}

/// Adds `m` and the current Carry into the accumulator and updates the
/// Carry, Overflow, Zero and Negative flags. Decimal mode is ignored, as on
/// the NES processor variant.
pub fn adc_value(cpu: &mut Cpu, m: u8)
    ensures
        *final(cpu) == (Cpu {
            accumulator: adc_output(
                old(cpu).accumulator,
                m,
                bit_set(old(cpu).status.bits, CARRY),
            ),
            status: Status {
                bits: status_after_adc(
                    old(cpu).status.bits,
                    old(cpu).accumulator,
                    m,
                    bit_set(old(cpu).status.bits, CARRY),
                ),
            },
            ..*old(cpu)
        }),
{
    let a = cpu.accumulator;
    let carry_in: u16 = if cpu.status.contains(Status::from_bits(CARRY)) {
        1
    } else {
        0
    };
    let sum: u16 = a as u16 + m as u16 + carry_in;
    let result: u8 = (sum % 256) as u8;
    let is_carry = sum > 255;
    cpu.status.set_flags(Status::from_bits(CARRY), is_carry);
    test_and_set_overflow_flag(cpu, a, m, result);
    test_and_set_zero_flag(cpu, result);
    test_and_set_negative_flag(cpu, result);
    cpu.accumulator = result;
}

/// Law: subtraction is addition of the one's complement. For every
/// accumulator `a`, operand `m` and carry `c`, applying the ADC rule to `!m`
/// yields the same accumulator and the same Carry, Overflow, Zero and
/// Negative flags as applying it to the operand that SBC complements back to
/// `m`; that is, `ADC(a, m, c)` and `SBC(a, !m, c)` agree bit for bit.
pub proof fn lemma_adc_sbc_duality(p: u8, a: u8, m: u8, c: bool)
    ensures
        adc_output(a, !(!m), c) == adc_output(a, m, c),
        status_after_adc(p, a, !(!m), c) == status_after_adc(p, a, m, c),
{
    assert(!(!m) == m) by (bit_vector);
}

// ---------------------------------------------------------------------------
// Logic operations
// ---------------------------------------------------------------------------

/// Replaces the accumulator and updates Negative and Zero.
pub fn load_accumulator(cpu: &mut Cpu, value: u8)
    ensures
        *final(cpu) == (Cpu {
            accumulator: value,
            status: Status { bits: nz(old(cpu).status.bits, value) },
            ..*old(cpu)
        }),
{
    cpu.accumulator = value;
    test_and_set_negative_flag(cpu, value);
    test_and_set_zero_flag(cpu, value);
}

/// Replaces the X index register and updates Negative and Zero.
pub fn load_index_x(cpu: &mut Cpu, value: u8)
    ensures
        *final(cpu) == (Cpu {
            index_x: value,
            status: Status { bits: nz(old(cpu).status.bits, value) },
            ..*old(cpu)
        }),
{
    cpu.index_x = value;
    test_and_set_negative_flag(cpu, value);
    test_and_set_zero_flag(cpu, value);
}

/// Replaces the Y index register and updates Negative and Zero.
pub fn load_index_y(cpu: &mut Cpu, value: u8)
    ensures
        *final(cpu) == (Cpu {
            index_y: value,
            status: Status { bits: nz(old(cpu).status.bits, value) },
            ..*old(cpu)
        }),
{
    cpu.index_y = value;
    test_and_set_negative_flag(cpu, value);
    test_and_set_zero_flag(cpu, value);
}

// ---------------------------------------------------------------------------
// Compare
// ---------------------------------------------------------------------------

/// The byte `(l - r) mod 256`, written without a negative intermediate.
pub open spec fn sub_output(l: u8, r: u8) -> u8 {
    ((l + 256 - r) % 256) as u8
}

/// The status byte after a compare: Carry when no borrow, Zero on equality,
/// Negative from bit 7 of the discarded difference.
pub open spec fn status_after_compare(p: u8, l: u8, r: u8) -> u8 {
    with_flag(
        with_flag(with_flag(p, CARRY, l >= r), ZERO, l == r),
        NEGATIVE,
        bit_set(sub_output(l, r), NEGATIVE),
    )
}

/// Compares `left` with `right` as CMP, CPX and CPY do, updating Carry, Zero
/// and Negative and discarding the difference.
pub fn compare_value(cpu: &mut Cpu, left: u8, right: u8)
    ensures
        *final(cpu) == (Cpu {
            status: Status { bits: status_after_compare(old(cpu).status.bits, left, right) },
            ..*old(cpu)
        }),
{
    let diff: u8 = ((left as u16 + 256 - right as u16) % 256) as u8;
    cpu.status.set_flags(Status::from_bits(CARRY), left >= right);
    cpu.status.set_flags(Status::from_bits(ZERO), left == right);
    cpu.status.set_flags(Status::from_bits(NEGATIVE), diff & NEGATIVE != 0);
}

// ---------------------------------------------------------------------------
// Shifts and rotates
// ---------------------------------------------------------------------------

/// The status byte after ASL, ROL and ROR: Carry from the shifted-out bit,
/// then Negative and Zero from the result.
pub open spec fn status_after_shift(p: u8, carry: bool, r: u8) -> u8 {
    with_flag(with_flag(with_flag(p, CARRY, carry), NEGATIVE, bit_set(r, NEGATIVE)), ZERO, r == 0)
}

/// The status byte after LSR: Carry from bit 0, Negative always cleared,
/// Zero from the result.
pub open spec fn status_after_lsr(p: u8, carry: bool, r: u8) -> u8 {
    with_flag(with_flag(with_flag(p, CARRY, carry), NEGATIVE, false), ZERO, r == 0)
}

/// The byte shifted left by one, truncated.
pub open spec fn asl_output(m: u8) -> u8 {
    ((m * 2) % 256) as u8
}

/// The byte shifted right by one.
pub open spec fn lsr_output(m: u8) -> u8 {
    (m / 2) as u8
}

/// The byte rotated left through the carry.
pub open spec fn rol_output(m: u8, carry_in: bool) -> u8 {
    ((m * 2 + (if carry_in {
        1int
    } else {
        0int
    })) % 256) as u8
}

/// The byte rotated right through the carry.
pub open spec fn ror_output(m: u8, carry_in: bool) -> u8 {
    (m / 2 + (if carry_in {
        128int
    } else {
        0int
    })) as u8
}

/// Shifts `m` left one bit; Carry receives bit 7.
pub fn asl_value(cpu: &mut Cpu, m: u8) -> (r: u8)
    ensures
        r == asl_output(m),
        *final(cpu) == (Cpu {
            status: Status {
                bits: status_after_shift(old(cpu).status.bits, bit_set(m, 0x80), asl_output(m)),
            },
            ..*old(cpu)
        }),
{
    let is_carry = m & 0x80 != 0;
    let result: u8 = ((m as u16 * 2) % 256) as u8;
    cpu.status.set_flags(Status::from_bits(CARRY), is_carry);
    test_and_set_negative_flag(cpu, result);
    test_and_set_zero_flag(cpu, result);
    result
}

/// Shifts `m` right one bit; Carry receives bit 0; Negative is cleared.
pub fn lsr_value(cpu: &mut Cpu, m: u8) -> (r: u8)
    ensures
        r == m / 2,
        *final(cpu) == (Cpu {
            status: Status {
                bits: status_after_lsr(old(cpu).status.bits, bit_set(m, 0x01), (m / 2) as u8),
            },
            ..*old(cpu)
        }),
{
    let is_carry = m & 0x01 != 0;
    let result: u8 = m / 2;
    cpu.status.set_flags(Status::from_bits(CARRY), is_carry);
    cpu.status.set_flags(Status::from_bits(NEGATIVE), false);
    test_and_set_zero_flag(cpu, result);
    result
}

/// Rotates `m` left through the Carry flag.
pub fn rol_value(cpu: &mut Cpu, m: u8) -> (r: u8)
    ensures
        r == rol_output(m, bit_set(old(cpu).status.bits, CARRY)),
        *final(cpu) == (Cpu {
            status: Status {
                bits: status_after_shift(
                    old(cpu).status.bits,
                    bit_set(m, 0x80),
                    rol_output(m, bit_set(old(cpu).status.bits, CARRY)),
                ),
            },
            ..*old(cpu)
        }),
{
    let carry_in: u16 = if cpu.status.contains(Status::from_bits(CARRY)) {
        1
    } else {
        0
    };
    let is_carry = m & 0x80 != 0;
    let result: u8 = ((m as u16 * 2 + carry_in) % 256) as u8;
    cpu.status.set_flags(Status::from_bits(CARRY), is_carry);
    test_and_set_negative_flag(cpu, result);
    test_and_set_zero_flag(cpu, result);
    result
}

/// Rotates `m` right through the Carry flag.
pub fn ror_value(cpu: &mut Cpu, m: u8) -> (r: u8)
    ensures
        r == ror_output(m, bit_set(old(cpu).status.bits, CARRY)),
        *final(cpu) == (Cpu {
            status: Status {
                bits: status_after_shift(
                    old(cpu).status.bits,
                    bit_set(m, 0x01),
                    ror_output(m, bit_set(old(cpu).status.bits, CARRY)),
                ),
            },
            ..*old(cpu)
        }),
{
    let high: u8 = if cpu.status.contains(Status::from_bits(CARRY)) {
        128
    } else {
        0
    };
    let is_carry = m & 0x01 != 0;
    let result: u8 = m / 2 + high;
    cpu.status.set_flags(Status::from_bits(CARRY), is_carry);
    test_and_set_negative_flag(cpu, result);
    test_and_set_zero_flag(cpu, result);
    result
}

// ---------------------------------------------------------------------------
// Bit test
// ---------------------------------------------------------------------------

/// The status byte after BIT: Zero from `A AND M`; Overflow and Negative are
/// copied from bits 6 and 7 of the memory operand itself, never from the AND
/// result.
pub open spec fn status_after_bit(p: u8, a: u8, m: u8) -> u8 {
    with_flag(
        with_flag(with_flag(p, ZERO, (a & m) == 0), OVERFLOW, bit_set(m, OVERFLOW)),
        NEGATIVE,
        bit_set(m, NEGATIVE),
    )
}

/// Tests the accumulator against `m` as BIT does. Whatever the AND result,
/// Negative and Overflow come from bits 7 and 6 of `m` respectively.
pub fn bit_value(cpu: &mut Cpu, m: u8)
    ensures
        *final(cpu) == (Cpu {
            status: Status {
                bits: status_after_bit(old(cpu).status.bits, old(cpu).accumulator, m),
            },
            ..*old(cpu)
        }),
{
    let a = cpu.accumulator;
    cpu.status.set_flags(Status::from_bits(ZERO), (a & m) == 0);
    cpu.status.set_flags(Status::from_bits(OVERFLOW), m & OVERFLOW != 0);
    cpu.status.set_flags(Status::from_bits(NEGATIVE), m & NEGATIVE != 0);
}

// ---------------------------------------------------------------------------
// Status transfers through the stack
// ---------------------------------------------------------------------------

/// The live status byte after PLP or RTI pop `popped`: bits 4 and 5 keep
/// their live values; every other bit comes from the popped byte.
pub open spec fn plp_merge(live: u8, popped: u8) -> u8 {
    (live & (BREAK_FLAG | UNUSED)) | (popped & !(BREAK_FLAG | UNUSED))
}

/// The byte PHP and BRK push: the live status with B and Unused set.
pub open spec fn php_pushed(live: u8) -> u8 {
    live | (BREAK_FLAG | UNUSED)
}

/// The byte NMI pushes: the live status with B cleared and Unused set.
pub open spec fn nmi_pushed(live: u8) -> u8 {
    (live & !BREAK_FLAG) | UNUSED
}

/// Merges a popped status byte into the live register as PLP and RTI do.
pub fn plp_value(cpu: &mut Cpu, popped: u8)
    ensures
        *final(cpu) == (Cpu {
            status: Status { bits: plp_merge(old(cpu).status.bits, popped) },
            ..*old(cpu)
        }),
{
    let kept = cpu.status.bits & (BREAK_FLAG | UNUSED);
    cpu.status = Status::from_bits(kept | (popped & !(BREAK_FLAG | UNUSED)));
}

/// Law: bits 4 and 5 of a popped status byte never reach the live register.
/// After PLP or RTI, the B and Unused bits are exactly what they were before
/// the pop, and each functional flag is exactly the corresponding bit of the
/// popped byte.
pub proof fn lemma_plp_ignores_break_and_unused(live: u8, popped: u8)
    ensures
        bit_set(plp_merge(live, popped), BREAK_FLAG) == bit_set(live, BREAK_FLAG),
        bit_set(plp_merge(live, popped), UNUSED) == bit_set(live, UNUSED),
        bit_set(plp_merge(live, popped), CARRY) == bit_set(popped, CARRY),
        bit_set(plp_merge(live, popped), ZERO) == bit_set(popped, ZERO),
        bit_set(plp_merge(live, popped), 0x04) == bit_set(popped, 0x04),
        bit_set(plp_merge(live, popped), 0x08) == bit_set(popped, 0x08),
        bit_set(plp_merge(live, popped), OVERFLOW) == bit_set(popped, OVERFLOW),
        bit_set(plp_merge(live, popped), NEGATIVE) == bit_set(popped, NEGATIVE),
{
    let merged = plp_merge(live, popped);
    assert((((live & (0x10u8 | 0x20u8)) | (popped & !(0x10u8 | 0x20u8))) & 0x10 == live & 0x10)
        && (((live & (0x10u8 | 0x20u8)) | (popped & !(0x10u8 | 0x20u8))) & 0x20 == live & 0x20)
        && (((live & (0x10u8 | 0x20u8)) | (popped & !(0x10u8 | 0x20u8))) & 0x01 == popped & 0x01)
        && (((live & (0x10u8 | 0x20u8)) | (popped & !(0x10u8 | 0x20u8))) & 0x02 == popped & 0x02)
        && (((live & (0x10u8 | 0x20u8)) | (popped & !(0x10u8 | 0x20u8))) & 0x04 == popped & 0x04)
        && (((live & (0x10u8 | 0x20u8)) | (popped & !(0x10u8 | 0x20u8))) & 0x08 == popped & 0x08)
        && (((live & (0x10u8 | 0x20u8)) | (popped & !(0x10u8 | 0x20u8))) & 0x40 == popped & 0x40)
        && (((live & (0x10u8 | 0x20u8)) | (popped & !(0x10u8 | 0x20u8))) & 0x80 == popped
        & 0x80)) by (bit_vector);
}

/// Law: the Unused bit is set in every status byte the processor exposes,
/// and no arithmetic, logic, shift, compare or bit-test flag update changes
/// it: if it was set before the operation, it is set after.
pub proof fn lemma_unused_bit_stays_set(p: u8, a: u8, m: u8, c: bool, r: u8, b: bool)
    ensures
        bit_set(php_pushed(p), UNUSED),
        bit_set(nmi_pushed(p), UNUSED),
        bit_set(status_after_adc(p, a, m, c), UNUSED) == bit_set(p, UNUSED),
        bit_set(nz(p, r), UNUSED) == bit_set(p, UNUSED),
        bit_set(status_after_compare(p, a, m), UNUSED) == bit_set(p, UNUSED),
        bit_set(status_after_shift(p, b, r), UNUSED) == bit_set(p, UNUSED),
        bit_set(status_after_lsr(p, b, r), UNUSED) == bit_set(p, UNUSED),
        bit_set(status_after_bit(p, a, m), UNUSED) == bit_set(p, UNUSED),
{
    lemma_flag_updates_keep_unused();
    assert(bit_set(php_pushed(p), UNUSED)) by (bit_vector);
    assert(bit_set(nmi_pushed(p), UNUSED)) by (bit_vector);
}

/// Every flag update with a mask disjoint from the Unused bit leaves the
/// Unused bit alone; the masks the update rules use are all disjoint from
/// it; and the PLP merge keeps the live Unused bit.
pub proof fn lemma_flag_updates_keep_unused()
    by (bit_vector)
    ensures
        forall|p: u8, m: u8, on: bool|
            m & UNUSED == 0 ==> (#[trigger] with_flag(p, m, on)) & UNUSED == p & UNUSED,
        forall|live: u8, popped: u8|
            (#[trigger] plp_merge(live, popped)) & UNUSED == live & UNUSED,
        CARRY & UNUSED == 0,
        ZERO & UNUSED == 0,
        OVERFLOW & UNUSED == 0,
        NEGATIVE & UNUSED == 0,
        DECIMAL & UNUSED == 0,
        INTERRUPT_DISABLE & UNUSED == 0,
        (NEGATIVE | CARRY) & UNUSED == 0,
{
}

} // verus!
