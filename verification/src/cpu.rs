//! The register file and the operations that work on registers alone:
//! loads, transfers, arithmetic, logic, shifts, compares and flag writes.

use vstd::prelude::*;
use crate::flags::{
    assign_flag, flag_is_set, is_flag, lemma_with_flag, lemma_zero_negative, test_flag,
    with_flag, with_zero_negative, zero_negative, CARRY, DECIMAL, INTERRUPT_DISABLE, NEGATIVE,
    OVERFLOW, ZERO,
};

verus! {

/// The registers of the processor. Every field is public: a host may
/// preset and inspect them between runs.
#[derive(Clone, Copy, Debug, PartialEq, Eq, Structural)]
pub struct CPU {
    /// The accumulator.
    pub register_a: u8,
    /// Index register X.
    pub register_x: u8,
    /// Index register Y.
    pub register_y: u8,
    /// The status flags, one bit each.
    pub status: u8,
    /// Offset of the next free byte of the stack within page 1.
    pub stack_pointer: u8,
    /// Address of the next opcode to fetch.
    pub program_counter: u16,
}

/// `value + 1`, wrapping from 0xFF to 0x00.
pub open spec fn incremented(value: u8) -> u8 {
    if value == 0xFF {
        0
    } else {
        (value + 1) as u8
    }
}

/// `value - 1`, wrapping from 0x00 to 0xFF.
pub open spec fn decremented(value: u8) -> u8 {
    if value == 0 {
        0xFF
    } else {
        (value - 1) as u8
    }
}

/// `register - value` modulo 256.
pub open spec fn difference(register: u8, value: u8) -> u8 {
    if register >= value {
        (register - value) as u8
    } else {
        (register + 256 - value) as u8
    }
}

/// `value` moved one bit to the left, with `carry_in` as the new bit 0.
/// Bit 7 of `value` falls out.
pub open spec fn shifted_left(value: u8, carry_in: bool) -> u8 {
    ((value * 2) % 256 + if carry_in { 1int } else { 0int }) as u8
}

/// `value` moved one bit to the right, with `carry_in` as the new bit 7.
/// Bit 0 of `value` falls out.
pub open spec fn shifted_right(value: u8, carry_in: bool) -> u8 {
    (value / 2 + if carry_in { 128int } else { 0int }) as u8
}

/// Signed overflow of an addition: the two operands have the same sign and
/// the result has the other one.
pub open spec fn sign_lost(left: u8, right: u8, result: u8) -> bool {
    (left >= 0x80) == (right >= 0x80) && (result >= 0x80) != (left >= 0x80)
}

/// The status byte after a shift or rotate that gave `result` and pushed
/// out `carry_out`.
pub open spec fn with_result_and_carry(status: u8, result: u8, carry_out: bool) -> u8 {
    with_flag(with_zero_negative(status, result), CARRY, carry_out)
}

impl CPU {
    /// Whether `flag` is set.
    pub open spec fn has(self, flag: u8) -> bool {
        flag_is_set(self.status, flag)
    }

    /// The Carry flag as the number it adds.
    pub open spec fn carry_in(self) -> int {
        if self.has(CARRY) {
            1
        } else {
            0
        }
    }

    /// This state with `value` in the accumulator and Zero/Negative set
    /// from it.
    pub open spec fn with_a(self, value: u8) -> CPU {
        CPU { register_a: value, status: with_zero_negative(self.status, value), ..self }
    }

    /// This state with `value` in X and Zero/Negative set from it.
    pub open spec fn with_x(self, value: u8) -> CPU {
        CPU { register_x: value, status: with_zero_negative(self.status, value), ..self }
    }

    /// This state with `value` in Y and Zero/Negative set from it.
    pub open spec fn with_y(self, value: u8) -> CPU {
        CPU { register_y: value, status: with_zero_negative(self.status, value), ..self }
    }

    /// This state with one flag written and nothing else touched.
    pub open spec fn with_status_flag(self, flag: u8, on: bool) -> CPU {
        CPU { status: with_flag(self.status, flag, on), ..self }
    }

    /// This state after adding `value` and the incoming Carry to the
    /// accumulator: Carry says that the sum left the 8-bit range, Overflow
    /// that the sign was lost.
    pub open spec fn added(self, value: u8) -> CPU {
        let sum = self.register_a + value + self.carry_in();
        let result = (sum % 256) as u8;
        let carried = with_flag(self.status, CARRY, sum > 0xFF);
        let signed = with_flag(carried, OVERFLOW, sign_lost(self.register_a, value, result));
        CPU { register_a: result, status: with_zero_negative(signed, result), ..self }
    }

    /// This state after subtracting `value` from the accumulator: the
    /// addition of its complement, with the incoming Carry as "no borrow".
    pub open spec fn subtracted(self, value: u8) -> CPU {
        self.added(!value)
    }

    /// This state after comparing `register` with `value`: Carry says
    /// `register >= value`, Zero/Negative describe the difference, and no
    /// register changes.
    pub open spec fn compared(self, register: u8, value: u8) -> CPU {
        CPU {
            status: with_flag(
                with_zero_negative(self.status, difference(register, value)),
                CARRY,
                register >= value,
            ),
            ..self
        }
    }

    /// This state after a bit test of the accumulator against `value`: Zero
    /// says that they share no bit, Overflow and Negative are bits 6 and 7
    /// of `value`.
    pub open spec fn bit_tested(self, value: u8) -> CPU {
        let zero = with_flag(self.status, ZERO, self.register_a & value == 0);
        let overflow = with_flag(zero, OVERFLOW, value & OVERFLOW != 0);
        CPU { status: with_flag(overflow, NEGATIVE, value & NEGATIVE != 0), ..self }
    }

    /// This state with the status byte that a shift or rotate leaves.
    pub open spec fn with_shift_flags(self, result: u8, carry_out: bool) -> CPU {
        CPU { status: with_result_and_carry(self.status, result, carry_out), ..self }
    }

    /// This state with only Zero/Negative rewritten for `result`.
    pub open spec fn reporting(self, result: u8) -> CPU {
        CPU { status: with_zero_negative(self.status, result), ..self }
    }

    /// A processor with every register, the flags, the stack pointer and
    /// the program counter at zero.
    pub fn new() -> (cpu: CPU)
        ensures
            cpu == (CPU {
                register_a: 0,
                register_x: 0,
                register_y: 0,
                status: 0,
                stack_pointer: 0,
                program_counter: 0,
            }),
    {
        CPU {
            register_a: 0,
            register_x: 0,
            register_y: 0,
            status: 0,
            stack_pointer: 0,
            program_counter: 0,
        }
    }

    /// Puts every register, the flags and the stack pointer back to zero
    /// and the program counter to `start`, for the next run.
    pub fn reset(&mut self, start: u16)
        ensures
            *final(self) == (CPU {
                register_a: 0,
                register_x: 0,
                register_y: 0,
                status: 0,
                stack_pointer: 0,
                program_counter: start,
            }),
    {
        *self = CPU::new();
        self.program_counter = start;
    }

    /// Tests one flag.
    pub fn flag(&self, flag: u8) -> (set: bool)
        ensures
            set == self.has(flag),
    {
        test_flag(self.status, flag)
    }

    /// Sets or clears one flag.
    pub fn set_flag(&mut self, flag: u8, on: bool)
        ensures
            *final(self) == old(self).with_status_flag(flag, on),
    {
        self.status = assign_flag(self.status, flag, on);
    }

    /// The shared rule: Zero set iff `result` is zero, Negative set iff bit
    /// 7 of `result` is set; the other six flags keep their value.
    pub fn update_zero_and_negative_flags(&mut self, result: u8)
        ensures
            *final(self) == old(self).reporting(result),
            final(self).has(ZERO) == (result == 0),
            final(self).has(NEGATIVE) == (result & 0x80 != 0),
            forall|other: u8|
                is_flag(other) && other != ZERO && other != NEGATIVE ==> final(self).has(other)
                    == old(self).has(other),
    {
        proof {
            lemma_zero_negative(self.status, result, CARRY);
            assert forall|other: u8|
                is_flag(other) && other != ZERO && other != NEGATIVE implies flag_is_set(
                with_zero_negative(self.status, result),
                other,
            ) == flag_is_set(self.status, other) by {
                lemma_zero_negative(self.status, result, other);
            }
        }
        self.status = zero_negative(self.status, result);
    }

    /// LDA: loads the accumulator. Zero and Negative describe `value`;
    /// Carry and Overflow are untouched.
    pub fn lda(&mut self, value: u8)
        ensures
            *final(self) == old(self).with_a(value),
            final(self).has(ZERO) == (value == 0),
            final(self).has(NEGATIVE) == (value & 0x80 != 0),
            final(self).has(CARRY) == old(self).has(CARRY),
            final(self).has(OVERFLOW) == old(self).has(OVERFLOW),
    {
        proof {
            lemma_zero_negative(self.status, value, CARRY);
            lemma_zero_negative(self.status, value, OVERFLOW);
        }
        self.register_a = value;
        self.update_zero_and_negative_flags(value);
    }

    /// LDX: loads X. Zero and Negative describe `value`; Carry and Overflow
    /// are untouched.
    pub fn ldx(&mut self, value: u8)
        ensures
            *final(self) == old(self).with_x(value),
            final(self).has(ZERO) == (value == 0),
            final(self).has(NEGATIVE) == (value & 0x80 != 0),
            final(self).has(CARRY) == old(self).has(CARRY),
            final(self).has(OVERFLOW) == old(self).has(OVERFLOW),
    {
        proof {
            lemma_zero_negative(self.status, value, CARRY);
            lemma_zero_negative(self.status, value, OVERFLOW);
        }
        self.register_x = value;
        self.update_zero_and_negative_flags(value);
    }

    /// LDY: loads Y. Zero and Negative describe `value`; Carry and Overflow
    /// are untouched.
    pub fn ldy(&mut self, value: u8)
        ensures
            *final(self) == old(self).with_y(value),
            final(self).has(ZERO) == (value == 0),
            final(self).has(NEGATIVE) == (value & 0x80 != 0),
            final(self).has(CARRY) == old(self).has(CARRY),
            final(self).has(OVERFLOW) == old(self).has(OVERFLOW),
    {
        proof {
            lemma_zero_negative(self.status, value, CARRY);
            lemma_zero_negative(self.status, value, OVERFLOW);
        }
        self.register_y = value;
        self.update_zero_and_negative_flags(value);
    }

    /// TAX: copies the accumulator to X.
    pub fn tax(&mut self)
        ensures
            *final(self) == old(self).with_x(old(self).register_a),
    {
        self.register_x = self.register_a;
        self.update_zero_and_negative_flags(self.register_x);
    }

    /// TAY: copies the accumulator to Y.
    pub fn tay(&mut self)
        ensures
            *final(self) == old(self).with_y(old(self).register_a),
    {
        self.register_y = self.register_a;
        self.update_zero_and_negative_flags(self.register_y);
    }

    /// TXA: copies X to the accumulator.
    pub fn txa(&mut self)
        ensures
            *final(self) == old(self).with_a(old(self).register_x),
    {
        self.register_a = self.register_x;
        self.update_zero_and_negative_flags(self.register_a);
    }

    /// TYA: copies Y to the accumulator.
    pub fn tya(&mut self)
        ensures
            *final(self) == old(self).with_a(old(self).register_y),
    {
        self.register_a = self.register_y;
        self.update_zero_and_negative_flags(self.register_a);
    }

    /// TSX: copies the stack pointer to X.
    pub fn tsx(&mut self)
        ensures
            *final(self) == old(self).with_x(old(self).stack_pointer),
    {
        self.register_x = self.stack_pointer;
        self.update_zero_and_negative_flags(self.register_x);
    }

    /// TXS: copies X to the stack pointer. No flag changes.
    pub fn txs(&mut self)
        ensures
            *final(self) == (CPU { stack_pointer: old(self).register_x, ..*old(self) }),
    {
        self.stack_pointer = self.register_x;
    }

    /// ADC: adds `value` and the incoming Carry to the accumulator.
    pub fn adc(&mut self, value: u8)
        ensures
            *final(self) == old(self).added(value),
    {
        let a: u8 = self.register_a;
        let carry: u16 = if test_flag(self.status, CARRY) { 1 } else { 0 };
        let sum: u16 = a as u16 + value as u16 + carry;
        let low: u16 = sum & 0xFF;
        assert(low == sum % 256) by (bit_vector)
            requires
                low == sum & 0xFF,
        ;
        let result: u8 = low as u8;
        let signs: u8 = (a ^ result) & (value ^ result) & 0x80;
        assert((signs != 0) == ((a >= 0x80) == (value >= 0x80) && (result >= 0x80) != (a >= 0x80)))
            by (bit_vector)
            requires
                signs == (a ^ result) & (value ^ result) & 0x80,
        ;
        self.status = assign_flag(self.status, CARRY, sum > 0xFF);
        self.status = assign_flag(self.status, OVERFLOW, signs != 0);
        self.register_a = result;
        self.update_zero_and_negative_flags(result);
    }

    /// SBC: subtracts `value` and the borrow (the complement of the
    /// incoming Carry) from the accumulator.
    pub fn sbc(&mut self, value: u8)
        ensures
            *final(self) == old(self).subtracted(value),
    {
        self.adc(!value);
    }

    /// INX: adds one to X, wrapping.
    pub fn inx(&mut self)
        ensures
            *final(self) == old(self).with_x(incremented(old(self).register_x)),
    {
        self.register_x = self.register_x.wrapping_add(1);
        self.update_zero_and_negative_flags(self.register_x);
    }

    /// INY: adds one to Y, wrapping.
    pub fn iny(&mut self)
        ensures
            *final(self) == old(self).with_y(incremented(old(self).register_y)),
    {
        self.register_y = self.register_y.wrapping_add(1);
        self.update_zero_and_negative_flags(self.register_y);
    }

    /// DEX: subtracts one from X, wrapping.
    pub fn dex(&mut self)
        ensures
            *final(self) == old(self).with_x(decremented(old(self).register_x)),
    {
        self.register_x = self.register_x.wrapping_sub(1);
        self.update_zero_and_negative_flags(self.register_x);
    }

    /// DEY: subtracts one from Y, wrapping.
    pub fn dey(&mut self)
        ensures
            *final(self) == old(self).with_y(decremented(old(self).register_y)),
    {
        self.register_y = self.register_y.wrapping_sub(1);
        self.update_zero_and_negative_flags(self.register_y);
    }

    /// INC on a byte: returns `value + 1`, wrapping, and reports on it.
    pub fn inc(&mut self, value: u8) -> (result: u8)
        ensures
            result == incremented(value),
            *final(self) == old(self).reporting(result),
    {
        let result: u8 = value.wrapping_add(1);
        self.update_zero_and_negative_flags(result);
        result
    }

    /// DEC on a byte: returns `value - 1`, wrapping, and reports on it.
    pub fn dec(&mut self, value: u8) -> (result: u8)
        ensures
            result == decremented(value),
            *final(self) == old(self).reporting(result),
    {
        let result: u8 = value.wrapping_sub(1);
        self.update_zero_and_negative_flags(result);
        result
    }

    /// ASL on a byte: shifts left, zero into bit 0, bit 7 into Carry.
    pub fn asl(&mut self, value: u8) -> (result: u8)
        ensures
            result == shifted_left(value, false),
            *final(self) == old(self).with_shift_flags(result, value >= 0x80),
    {
        let result: u8 = value << 1;
        assert(result == (value * 2) % 256 && (value & 0x80 != 0) == (value >= 0x80))
            by (bit_vector)
            requires
                result == value << 1,
        ;
        self.update_zero_and_negative_flags(result);
        self.status = assign_flag(self.status, CARRY, value & 0x80 != 0);
        result
    }

    /// LSR on a byte: shifts right, zero into bit 7, bit 0 into Carry.
    pub fn lsr(&mut self, value: u8) -> (result: u8)
        ensures
            result == shifted_right(value, false),
            *final(self) == old(self).with_shift_flags(result, value % 2 == 1),
    {
        let result: u8 = value >> 1;
        assert(result == value / 2 && (value & 0x01 != 0) == (value % 2 == 1)) by (bit_vector)
            requires
                result == value >> 1,
        ;
        self.update_zero_and_negative_flags(result);
        self.status = assign_flag(self.status, CARRY, value & 0x01 != 0);
        result
    }

    /// ROL on a byte: shifts left, Carry into bit 0, bit 7 into Carry.
    pub fn rol(&mut self, value: u8) -> (result: u8)
        ensures
            result == shifted_left(value, old(self).has(CARRY)),
            *final(self) == old(self).with_shift_flags(result, value >= 0x80),
    {
        let old_carry: u8 = if test_flag(self.status, CARRY) { 1 } else { 0 };
        let result: u8 = (value << 1) | old_carry;
        assert(result == (value * 2) % 256 + old_carry && (value & 0x80 != 0) == (value >= 0x80)
            && old_carry <= 1) by (bit_vector)
            requires
                result == (value << 1) | old_carry,
                old_carry == 0 || old_carry == 1,
        ;
        self.update_zero_and_negative_flags(result);
        self.status = assign_flag(self.status, CARRY, value & 0x80 != 0);
        result
    }

    /// ROR on a byte: shifts right, Carry into bit 7, bit 0 into Carry.
    pub fn ror(&mut self, value: u8) -> (result: u8)
        ensures
            result == shifted_right(value, old(self).has(CARRY)),
            *final(self) == old(self).with_shift_flags(result, value % 2 == 1),
    {
        let old_carry: u8 = if test_flag(self.status, CARRY) { 1 } else { 0 };
        let result: u8 = (value >> 1) | (old_carry << 7);
        assert(result == value / 2 + old_carry * 128 && (value & 0x01 != 0) == (value % 2 == 1))
            by (bit_vector)
            requires
                result == (value >> 1) | (old_carry << 7),
                old_carry == 0 || old_carry == 1,
        ;
        self.update_zero_and_negative_flags(result);
        self.status = assign_flag(self.status, CARRY, value & 0x01 != 0);
        result
    }

    /// ASL on the accumulator.
    pub fn asl_accumulator(&mut self)
        ensures
            *final(self) == (CPU {
                register_a: shifted_left(old(self).register_a, false),
                ..old(self).with_shift_flags(
                    shifted_left(old(self).register_a, false),
                    old(self).register_a >= 0x80,
                )
            }),
    {
        self.register_a = self.asl(self.register_a);
    }

    /// LSR on the accumulator.
    pub fn lsr_accumulator(&mut self)
        ensures
            *final(self) == (CPU {
                register_a: shifted_right(old(self).register_a, false),
                ..old(self).with_shift_flags(
                    shifted_right(old(self).register_a, false),
                    old(self).register_a % 2 == 1,
                )
            }),
    {
        self.register_a = self.lsr(self.register_a);
    }

    /// ROL on the accumulator.
    pub fn rol_accumulator(&mut self)
        ensures
            *final(self) == (CPU {
                register_a: shifted_left(old(self).register_a, old(self).has(CARRY)),
                ..old(self).with_shift_flags(
                    shifted_left(old(self).register_a, old(self).has(CARRY)),
                    old(self).register_a >= 0x80,
                )
            }),
    {
        self.register_a = self.rol(self.register_a);
    }

    /// ROR on the accumulator.
    pub fn ror_accumulator(&mut self)
        ensures
            *final(self) == (CPU {
                register_a: shifted_right(old(self).register_a, old(self).has(CARRY)),
                ..old(self).with_shift_flags(
                    shifted_right(old(self).register_a, old(self).has(CARRY)),
                    old(self).register_a % 2 == 1,
                )
            }),
    {
        self.register_a = self.ror(self.register_a);
    }

    /// CLC: clears Carry.
    pub fn clc(&mut self)
        ensures
            *final(self) == old(self).with_status_flag(CARRY, false),
    {
        self.set_flag(CARRY, false);
    }

    /// CLD: clears Decimal.
    pub fn cld(&mut self)
        ensures
            *final(self) == old(self).with_status_flag(DECIMAL, false),
    {
        self.set_flag(DECIMAL, false);
    }

    /// CLI: clears Interrupt-disable.
    pub fn cli(&mut self)
        ensures
            *final(self) == old(self).with_status_flag(INTERRUPT_DISABLE, false),
    {
        self.set_flag(INTERRUPT_DISABLE, false);
    }

    /// CLV: clears Overflow.
    pub fn clv(&mut self)
        ensures
            *final(self) == old(self).with_status_flag(OVERFLOW, false),
    {
        self.set_flag(OVERFLOW, false);
    }

    /// SEC: sets Carry.
    pub fn sec(&mut self)
        ensures
            *final(self) == old(self).with_status_flag(CARRY, true),
    {
        self.set_flag(CARRY, true);
    }

    /// SED: sets Decimal.
    pub fn sed(&mut self)
        ensures
            *final(self) == old(self).with_status_flag(DECIMAL, true),
    {
        self.set_flag(DECIMAL, true);
    }

    /// SEI: sets Interrupt-disable.
    pub fn sei(&mut self)
        ensures
            *final(self) == old(self).with_status_flag(INTERRUPT_DISABLE, true),
    {
        self.set_flag(INTERRUPT_DISABLE, true);
    }

    /// AND: bitwise and into the accumulator.
    pub fn and(&mut self, value: u8)
        ensures
            *final(self) == old(self).with_a(old(self).register_a & value),
    {
        self.register_a = self.register_a & value;
        self.update_zero_and_negative_flags(self.register_a);
    }

    /// EOR: bitwise exclusive or into the accumulator.
    pub fn eor(&mut self, value: u8)
        ensures
            *final(self) == old(self).with_a(old(self).register_a ^ value),
    {
        self.register_a = self.register_a ^ value;
        self.update_zero_and_negative_flags(self.register_a);
    }

    /// ORA: bitwise or into the accumulator.
    pub fn ora(&mut self, value: u8)
        ensures
            *final(self) == old(self).with_a(old(self).register_a | value),
    {
        self.register_a = self.register_a | value;
        self.update_zero_and_negative_flags(self.register_a);
    }

    /// Compares `register` with `value` and writes the flags.
    fn compare(&mut self, register: u8, value: u8)
        ensures
            *final(self) == old(self).compared(register, value),
            final(self).has(CARRY) == (register >= value),
    {
        let result: u8 = register.wrapping_sub(value);
        self.update_zero_and_negative_flags(result);
        proof {
            lemma_with_flag(self.status, CARRY, register >= value, CARRY);
        }
        self.status = assign_flag(self.status, CARRY, register >= value);
    }

    /// CPY: compares Y with `value`. Carry is set iff `Y >= value`
    /// (unsigned); Y keeps its value.
    pub fn cpy(&mut self, value: u8)
        ensures
            *final(self) == old(self).compared(old(self).register_y, value),
            final(self).has(CARRY) == (old(self).register_y >= value),
            final(self).register_y == old(self).register_y,
    {
        self.compare(self.register_y, value);
    }

    /// CPX: compares X with `value`. Carry is set iff `X >= value`
    /// (unsigned); X keeps its value.
    pub fn cpx(&mut self, value: u8)
        ensures
            *final(self) == old(self).compared(old(self).register_x, value),
            final(self).has(CARRY) == (old(self).register_x >= value),
            final(self).register_x == old(self).register_x,
    {
        self.compare(self.register_x, value);
    }

    /// CMP: compares the accumulator with `value`. Carry is set iff
    /// `A >= value` (unsigned); the accumulator keeps its value.
    pub fn cmp(&mut self, value: u8)
        ensures
            *final(self) == old(self).compared(old(self).register_a, value),
            final(self).has(CARRY) == (old(self).register_a >= value),
            final(self).register_a == old(self).register_a,
    {
        self.compare(self.register_a, value);
    }

    /// BIT: tests the accumulator against `value` without storing anything.
    pub fn bit(&mut self, value: u8)
        ensures
            *final(self) == old(self).bit_tested(value),
    {
        let result: u8 = self.register_a & value;
        let zero: u8 = assign_flag(self.status, ZERO, result == 0);
        let copied: u8 = (zero & 0x3F) | (value & 0xC0);
        assert(copied == with_flag(
            with_flag(zero, 0x40, value & 0x40 != 0),
            0x80,
            value & 0x80 != 0,
        )) by (bit_vector)
            requires
                copied == (zero & 0x3F) | (value & 0xC0),
        ;
        self.status = copied;
    }
}

} // verus!
