//! The register file and the arithmetic of the instruction set.
//!
//! Everything here is a function of the registers and an operand byte: no
//! memory is involved. The definitions are written in integer arithmetic; the
//! interpreter computes the same results with shifts and masks.
use vstd::prelude::*;
use crate::bits::{
    lemma_bit_seven,
    lemma_bit_six,
    lemma_carry_into_bit_seven,
    lemma_difference,
    lemma_high_byte,
    lemma_low_byte,
    lemma_pack,
    lemma_rotate_left,
    lemma_shift_left,
    lemma_shift_right,
    lemma_sign_of_xor,
    lemma_unpack,
};
use crate::instruction::Operation;

verus! {

/// The registers and status flags of the processor.
#[derive(Clone, Copy, Debug, PartialEq, Eq, Structural)]
pub struct Registers {
    /// Accumulator.
    pub reg_a: u8,
    /// Index register X.
    pub reg_x: u8,
    /// Index register Y.
    pub reg_y: u8,
    /// Stack pointer: the low byte of the next free address in page 1.
    pub reg_sp: u8,
    /// Program counter.
    pub reg_pc: u16,
    /// N: bit 7 of the last result.
    pub f_negative: bool,
    /// V: the last addition or subtraction left the signed range.
    pub f_overflow: bool,
    /// B: a break instruction was executed.
    pub f_break: bool,
    /// D: decimal mode is selected. Arithmetic stays binary all the same.
    pub f_decimal: bool,
    /// I: interrupts are disabled.
    pub f_interrupt: bool,
    /// Z: the last result was zero.
    pub f_zero: bool,
    /// C: carry out of the last addition or shift; no borrow in the last
    /// subtraction or comparison.
    pub f_carry: bool,
}

/// A byte read as a two's-complement number.
pub open spec fn signed(x: u8) -> int {
    if x >= 128 {
        x - 256
    } else {
        x as int
    }
}

/// A flag as a number.
pub open spec fn bit(flag: bool) -> int {
    if flag {
        1
    } else {
        0
    }
}

/// The successor of a byte, wrapping from 255 to 0.
pub open spec fn increment(value: u8) -> u8 {
    ((value + 1) % 256) as u8
}

/// The predecessor of a byte, wrapping from 0 to 255.
pub open spec fn decrement(value: u8) -> u8 {
    ((value + 255) % 256) as u8
}

impl Registers {
    /// The registers of a processor that has just been built: everything
    /// clear but the break flag, the stack empty.
    pub open spec fn initial() -> Registers {
        Registers {
            reg_a: 0,
            reg_x: 0,
            reg_y: 0,
            reg_sp: 0xff,
            reg_pc: 0,
            f_negative: false,
            f_overflow: false,
            f_break: true,
            f_decimal: false,
            f_interrupt: false,
            f_zero: false,
            f_carry: false,
        }
    }

    /// The registers after a reset that found `vector` in the reset vector.
    pub open spec fn after_reset(vector: u16) -> Registers {
        Registers { reg_sp: 0xfd, reg_pc: vector, ..Registers::initial() }
    }

    /// Z and N set from `value`.
    pub open spec fn with_zn(self, value: u8) -> Registers {
        Registers { f_zero: value == 0, f_negative: value >= 128, ..self }
    }

    /// The carry flag as 0 or 1.
    pub open spec fn carry_amount(self) -> int {
        bit(self.f_carry)
    }

    /// Add with carry: A, C, V, Z and N after `value` and the carry are added
    /// to the accumulator.
    ///
    /// C is the carry out of bit 7. V says that the sum of the operands, read
    /// as signed numbers, does not fit a signed byte.
    pub open spec fn adc(self, value: u8) -> Registers {
        let sum: int = self.reg_a + value + self.carry_amount();
        let signed_sum: int = signed(self.reg_a) + signed(value) + self.carry_amount();
        let result: u8 = (sum % 256) as u8;
        Registers {
            reg_a: result,
            f_carry: sum > 255,
            f_overflow: signed_sum < -128 || signed_sum > 127,
            ..self
        }.with_zn(result)
    }

    /// Subtract with borrow: the addition of the one's complement of `value`.
    /// The carry flag is the complement of the borrow, going in and coming out.
    pub open spec fn sbc(self, value: u8) -> Registers {
        self.adc((255 - value) as u8)
    }

    /// Compare `register` with `value`: C, Z and N from the difference; no
    /// register changes.
    pub open spec fn compare(self, register: u8, value: u8) -> Registers {
        self.with_difference(register - value)
    }

    /// C, Z and N set from a difference: C if it is not negative, Z and N from
    /// its low byte in two's complement.
    pub open spec fn with_difference(self, difference: int) -> Registers {
        let low_byte: int = difference % 256;
        Registers {
            f_carry: difference >= 0,
            f_zero: low_byte == 0,
            f_negative: low_byte >= 128,
            ..self
        }
    }

    /// Bit test: Z says that A and `value` share no bit; N and V are bits 7
    /// and 6 of `value`.
    pub open spec fn bit_test(self, value: u8) -> Registers {
        Registers {
            f_zero: self.reg_a & value == 0,
            f_negative: value >= 128,
            f_overflow: (value / 64) % 2 == 1,
            ..self
        }
    }

    /// Shift left: the result and the flags. Bit 7 goes to C, bit 0 is clear.
    pub open spec fn asl(self, value: u8) -> (u8, Registers) {
        let result: u8 = ((2 * value) % 256) as u8;
        (result, Registers { f_carry: value >= 128, ..self }.with_zn(result))
    }

    /// Shift right: the result and the flags. Bit 0 goes to C, bit 7 is clear.
    pub open spec fn lsr(self, value: u8) -> (u8, Registers) {
        let result: u8 = value / 2;
        (result, Registers { f_carry: value % 2 == 1, ..self }.with_zn(result))
    }

    /// Rotate left through carry: the result and the flags. Bit 7 goes to C,
    /// the old C comes in as bit 0.
    pub open spec fn rol(self, value: u8) -> (u8, Registers) {
        let result: u8 = ((2 * value + self.carry_amount()) % 256) as u8;
        (result, Registers { f_carry: value >= 128, ..self }.with_zn(result))
    }

    /// Rotate right through carry: the result and the flags. Bit 0 goes to C,
    /// the old C comes in as bit 7.
    pub open spec fn ror(self, value: u8) -> (u8, Registers) {
        let result: u8 = (value / 2 + 128 * self.carry_amount()) as u8;
        (result, Registers { f_carry: value % 2 == 1, ..self }.with_zn(result))
    }

    /// The flags packed into a byte, `N V 1 B D I Z C` from bit 7 down. Bit 5
    /// always reads as 1.
    pub open spec fn status(self) -> u8 {
        (128 * bit(self.f_negative) + 64 * bit(self.f_overflow) + 32 + 16 * bit(self.f_break) + 8
            * bit(self.f_decimal) + 4 * bit(self.f_interrupt) + 2 * bit(self.f_zero) + bit(
            self.f_carry,
        )) as u8
    }

    /// The flags taken from a packed byte. Bit 5 is ignored.
    pub open spec fn with_status(self, packed: u8) -> Registers {
        Registers {
            f_negative: (packed / 128) % 2 == 1,
            f_overflow: (packed / 64) % 2 == 1,
            f_break: (packed / 16) % 2 == 1,
            f_decimal: (packed / 8) % 2 == 1,
            f_interrupt: (packed / 4) % 2 == 1,
            f_zero: (packed / 2) % 2 == 1,
            f_carry: packed % 2 == 1,
            ..self
        }
    }
    /// The registers after an operation that takes an operand byte and leaves
    /// memory alone: the loads, the logic and arithmetic operations, the
    /// comparisons and the bit test.
    pub open spec fn with_operand(self, operation: Operation, value: u8) -> Registers {
        match operation {
            Operation::Lda => Registers { reg_a: value, ..self }.with_zn(value),
            Operation::Ldx => Registers { reg_x: value, ..self }.with_zn(value),
            Operation::Ldy => Registers { reg_y: value, ..self }.with_zn(value),
            Operation::And => Registers { reg_a: self.reg_a & value, ..self }.with_zn(
                self.reg_a & value,
            ),
            Operation::Ora => Registers { reg_a: self.reg_a | value, ..self }.with_zn(
                self.reg_a | value,
            ),
            Operation::Eor => Registers { reg_a: self.reg_a ^ value, ..self }.with_zn(
                self.reg_a ^ value,
            ),
            Operation::Adc => self.adc(value),
            Operation::Sbc => self.sbc(value),
            Operation::Cmp => self.compare(self.reg_a, value),
            Operation::Cpx => self.compare(self.reg_x, value),
            Operation::Cpy => self.compare(self.reg_y, value),
            Operation::Bit => self.bit_test(value),
            _ => self,
        }
    }

    /// The byte that a read-modify-write operation puts back in place of
    /// `value`, and the registers afterwards. Increment and decrement wrap and
    /// set Z and N; they leave the carry alone.
    pub open spec fn modify(self, operation: Operation, value: u8) -> (u8, Registers) {
        match operation {
            Operation::Asl => self.asl(value),
            Operation::Lsr => self.lsr(value),
            Operation::Rol => self.rol(value),
            Operation::Ror => self.ror(value),
            Operation::Inc => (increment(value), self.with_zn(increment(value))),
            Operation::Dec => (decrement(value), self.with_zn(decrement(value))),
            _ => (value, self),
        }
    }

    /// The register that a store operation writes.
    pub open spec fn stored(self, operation: Operation) -> u8 {
        match operation {
            Operation::Sta => self.reg_a,
            Operation::Stx => self.reg_x,
            Operation::Sty => self.reg_y,
            _ => 0,
        }
    }

    /// Whether a branch operation finds its condition met. An operation that
    /// is no branch never does.
    pub open spec fn takes_branch(self, operation: Operation) -> bool {
        match operation {
            Operation::Bcc => !self.f_carry,
            Operation::Bcs => self.f_carry,
            Operation::Beq => self.f_zero,
            Operation::Bne => !self.f_zero,
            Operation::Bmi => self.f_negative,
            Operation::Bpl => !self.f_negative,
            Operation::Bvc => !self.f_overflow,
            Operation::Bvs => self.f_overflow,
            _ => false,
        }
    }

    /// The registers after an operation that touches nothing but registers:
    /// the index steps, which wrap; the transfers, which set Z and N unless
    /// the stack pointer is the target; the single-flag writes; no-operation.
    pub open spec fn implied(self, operation: Operation) -> Registers {
        match operation {
            Operation::Inx => Registers { reg_x: increment(self.reg_x), ..self }.with_zn(
                increment(self.reg_x),
            ),
            Operation::Iny => Registers { reg_y: increment(self.reg_y), ..self }.with_zn(
                increment(self.reg_y),
            ),
            Operation::Dex => Registers { reg_x: decrement(self.reg_x), ..self }.with_zn(
                decrement(self.reg_x),
            ),
            Operation::Dey => Registers { reg_y: decrement(self.reg_y), ..self }.with_zn(
                decrement(self.reg_y),
            ),
            Operation::Tax => Registers { reg_x: self.reg_a, ..self }.with_zn(self.reg_a),
            Operation::Tay => Registers { reg_y: self.reg_a, ..self }.with_zn(self.reg_a),
            Operation::Txa => Registers { reg_a: self.reg_x, ..self }.with_zn(self.reg_x),
            Operation::Tya => Registers { reg_a: self.reg_y, ..self }.with_zn(self.reg_y),
            Operation::Tsx => Registers { reg_x: self.reg_sp, ..self }.with_zn(self.reg_sp),
            Operation::Txs => Registers { reg_sp: self.reg_x, ..self },
            Operation::Clc => Registers { f_carry: false, ..self },
            Operation::Sec => Registers { f_carry: true, ..self },
            Operation::Cld => Registers { f_decimal: false, ..self },
            Operation::Sed => Registers { f_decimal: true, ..self },
            Operation::Cli => Registers { f_interrupt: false, ..self },
            Operation::Sei => Registers { f_interrupt: true, ..self },
            Operation::Clv => Registers { f_overflow: false, ..self },
            _ => self,
        }
    }
}

impl Registers {
    /// Sets Z and N from `value`.
    pub fn update_zn(&mut self, value: u8)
        ensures
            *final(self) == old(self).with_zn(value),
    {
        proof {
            lemma_bit_seven(value);
        }
        self.f_zero = value == 0;
        self.f_negative = (value & 0x80) == 0x80;
    }

    /// Sets Z, C and N from the difference of two bytes.
    pub fn update_zcn(&mut self, difference: i32)
        requires
            -255 <= difference <= 255,
        ensures
            *final(self) == old(self).with_difference(difference as int),
    {
        proof {
            lemma_difference(difference);
        }
        self.f_negative = (difference & 0x80) == 0x80;
        self.f_zero = (#[verifier::truncate] (difference as u8)) == 0;
        self.f_carry = difference >= 0;
    }

    /// Adds `value` and the carry to the accumulator.
    pub fn add_with_carry(&mut self, value: u8)
        ensures
            *final(self) == old(self).adc(value),
    {
        let a: u8 = self.reg_a;
        let carry: u16 = if self.f_carry {
            1
        } else {
            0
        };
        let sum: u16 = (a as u16) + (value as u16) + carry;
        let result: u8 = #[verifier::truncate] (sum as u8);
        proof {
            lemma_low_byte(sum);
            lemma_high_byte(sum);
            lemma_sign_of_xor(a, value);
            lemma_sign_of_xor(a, result);
        }
        self.f_carry = sum & 0xff00 > 0;
        self.f_overflow = (a ^ value) & 0x80 == 0 && (a ^ result) & 0x80 == 0x80;
        self.reg_a = result;
        self.update_zn(result);
    }

    /// Subtracts `value` and the borrow from the accumulator.
    pub fn subtract_with_borrow(&mut self, value: u8)
        ensures
            *final(self) == old(self).sbc(value),
    {
        self.add_with_carry(255 - value);
    }

    /// Tests the bits of `value` against the accumulator.
    pub fn test_bits(&mut self, value: u8)
        ensures
            *final(self) == old(self).bit_test(value),
    {
        proof {
            lemma_bit_seven(value);
            lemma_bit_six(value);
        }
        self.f_zero = (self.reg_a & value) == 0;
        self.f_negative = (value & 0x80) == 0x80;
        self.f_overflow = (value & 0x40) == 0x40;
    }

    /// Shifts `value` left.
    pub fn shift_left(&mut self, value: u8) -> (result: u8)
        ensures
            (result, *final(self)) == old(self).asl(value),
    {
        let wide: u16 = (value as u16) << 1;
        let result: u8 = #[verifier::truncate] (wide as u8);
        proof {
            lemma_shift_left(value);
            lemma_low_byte(wide);
            lemma_high_byte(wide);
        }
        self.f_carry = wide & 0xff00 > 0;
        self.update_zn(result);
        result
    }

    /// Shifts `value` right.
    pub fn shift_right(&mut self, value: u8) -> (result: u8)
        ensures
            (result, *final(self)) == old(self).lsr(value),
    {
        proof {
            lemma_shift_right(value);
        }
        self.f_carry = (value & 0x01) == 0x01;
        let result: u8 = value >> 1;
        self.update_zn(result);
        result
    }

    /// Rotates `value` left through the carry.
    pub fn rotate_left(&mut self, value: u8) -> (result: u8)
        ensures
            (result, *final(self)) == old(self).rol(value),
    {
        let carry: u16 = if self.f_carry {
            0x01
        } else {
            0
        };
        let wide: u16 = (value as u16) << 1 | carry;
        let result: u8 = #[verifier::truncate] (wide as u8);
        proof {
            lemma_rotate_left(value, carry);
            lemma_low_byte(wide);
            lemma_high_byte(wide);
        }
        self.f_carry = (wide & 0xff00) > 0;
        self.update_zn(result);
        result
    }

    /// Rotates `value` right through the carry.
    pub fn rotate_right(&mut self, value: u8) -> (result: u8)
        ensures
            (result, *final(self)) == old(self).ror(value),
    {
        let carry: u8 = if self.f_carry {
            0x80
        } else {
            0
        };
        proof {
            lemma_shift_right(value);
            lemma_carry_into_bit_seven(value, carry);
        }
        self.f_carry = (value & 0x01) == 0x01;
        let result: u8 = carry | (value >> 1);
        self.update_zn(result);
        result
    }

    /// The flags as a packed status byte.
    pub fn pack(&self) -> (packed: u8)
        ensures
            packed == self.status(),
    {
        let n: u8 = if self.f_negative {
            0x80
        } else {
            0
        };
        let v: u8 = if self.f_overflow {
            0x40
        } else {
            0
        };
        let b: u8 = if self.f_break {
            0x10
        } else {
            0
        };
        let d: u8 = if self.f_decimal {
            0x08
        } else {
            0
        };
        let i: u8 = if self.f_interrupt {
            0x04
        } else {
            0
        };
        let z: u8 = if self.f_zero {
            0x02
        } else {
            0
        };
        let c: u8 = if self.f_carry {
            0x01
        } else {
            0
        };
        proof {
            lemma_pack(n, v, b, d, i, z, c);
        }
        n | v | 0x20 | b | d | i | z | c
    }

    /// Takes the flags from a packed status byte.
    pub fn unpack(&mut self, packed: u8)
        ensures
            *final(self) == old(self).with_status(packed),
    {
        proof {
            lemma_unpack(packed);
        }
        self.f_negative = (packed & 0x80) == 0x80;
        self.f_overflow = (packed & 0x40) == 0x40;
        self.f_break = (packed & 0x10) == 0x10;
        self.f_decimal = (packed & 0x08) == 0x08;
        self.f_interrupt = (packed & 0x04) == 0x04;
        self.f_zero = (packed & 0x02) == 0x02;
        self.f_carry = (packed & 0x01) == 0x01;
    }

    /// Applies an operation that takes an operand byte and leaves memory alone.
    pub fn apply_operand(&mut self, operation: Operation, value: u8)
        ensures
            *final(self) == old(self).with_operand(operation, value),
    {
        match operation {
            Operation::Lda => {
                self.reg_a = value;
                self.update_zn(value);
            },
            Operation::Ldx => {
                self.reg_x = value;
                self.update_zn(value);
            },
            Operation::Ldy => {
                self.reg_y = value;
                self.update_zn(value);
            },
            Operation::And => {
                let result: u8 = self.reg_a & value;
                self.reg_a = result;
                self.update_zn(result);
            },
            Operation::Ora => {
                let result: u8 = self.reg_a | value;
                self.reg_a = result;
                self.update_zn(result);
            },
            Operation::Eor => {
                let result: u8 = self.reg_a ^ value;
                self.reg_a = result;
                self.update_zn(result);
            },
            Operation::Adc => self.add_with_carry(value),
            Operation::Sbc => self.subtract_with_borrow(value),
            Operation::Cmp => self.update_zcn((self.reg_a as i32) - (value as i32)),
            Operation::Cpx => self.update_zcn((self.reg_x as i32) - (value as i32)),
            Operation::Cpy => self.update_zcn((self.reg_y as i32) - (value as i32)),
            Operation::Bit => self.test_bits(value),
            _ => {},
        }
    }

    /// Applies a read-modify-write operation to `value` and returns the byte
    /// to put back.
    pub fn apply_modify(&mut self, operation: Operation, value: u8) -> (result: u8)
        ensures
            (result, *final(self)) == old(self).modify(operation, value),
    {
        match operation {
            Operation::Asl => self.shift_left(value),
            Operation::Lsr => self.shift_right(value),
            Operation::Rol => self.rotate_left(value),
            Operation::Ror => self.rotate_right(value),
            Operation::Inc => {
                let result: u8 = value.wrapping_add(1);
                self.update_zn(result);
                result
            },
            Operation::Dec => {
                let result: u8 = value.wrapping_sub(1);
                self.update_zn(result);
                result
            },
            _ => value,
        }
    }

    /// Applies an operation that touches nothing but registers.
    pub fn apply_implied(&mut self, operation: Operation)
        ensures
            *final(self) == old(self).implied(operation),
    {
        match operation {
            Operation::Inx => {
                self.reg_x = self.reg_x.wrapping_add(1);
                self.update_zn(self.reg_x);
            },
            Operation::Iny => {
                self.reg_y = self.reg_y.wrapping_add(1);
                self.update_zn(self.reg_y);
            },
            Operation::Dex => {
                self.reg_x = self.reg_x.wrapping_sub(1);
                self.update_zn(self.reg_x);
            },
            Operation::Dey => {
                self.reg_y = self.reg_y.wrapping_sub(1);
                self.update_zn(self.reg_y);
            },
            Operation::Tax => {
                self.reg_x = self.reg_a;
                self.update_zn(self.reg_x);
            },
            Operation::Tay => {
                self.reg_y = self.reg_a;
                self.update_zn(self.reg_y);
            },
            Operation::Txa => {
                self.reg_a = self.reg_x;
                self.update_zn(self.reg_a);
            },
            Operation::Tya => {
                self.reg_a = self.reg_y;
                self.update_zn(self.reg_a);
            },
            Operation::Tsx => {
                self.reg_x = self.reg_sp;
                self.update_zn(self.reg_x);
            },
            Operation::Txs => {
                self.reg_sp = self.reg_x;
            },
            Operation::Clc => {
                self.f_carry = false;
            },
            Operation::Sec => {
                self.f_carry = true;
            },
            Operation::Cld => {
                self.f_decimal = false;
            },
            Operation::Sed => {
                self.f_decimal = true;
            },
            Operation::Cli => {
                self.f_interrupt = false;
            },
            Operation::Sei => {
                self.f_interrupt = true;
            },
            Operation::Clv => {
                self.f_overflow = false;
            },
            _ => {},
        }
    }

    /// Whether a branch operation finds its condition met.
    pub fn branch_taken(&self, operation: Operation) -> (taken: bool)
        ensures
            taken == self.takes_branch(operation),
    {
        match operation {
            Operation::Bcc => !self.f_carry,
            Operation::Bcs => self.f_carry,
            Operation::Beq => self.f_zero,
            Operation::Bne => !self.f_zero,
            Operation::Bmi => self.f_negative,
            Operation::Bpl => !self.f_negative,
            Operation::Bvc => !self.f_overflow,
            Operation::Bvs => self.f_overflow,
            _ => false,
        }
    }

    /// The register that a store operation writes.
    pub fn store_value(&self, operation: Operation) -> (value: u8)
        ensures
            value == self.stored(operation),
    {
        match operation {
            Operation::Sta => self.reg_a,
            Operation::Stx => self.reg_x,
            Operation::Sty => self.reg_y,
            _ => 0,
        }
    }
}

/// What an addition leaves behind.
///
/// The accumulator holds the sum modulo 256, Z and N describe it, C is the
/// carry out, and V is set exactly when the operands agree in sign and the
/// result does not.
pub proof fn lemma_adc(regs: Registers, value: u8)
    ensures
        regs.adc(value).reg_a == (regs.reg_a + value + bit(regs.f_carry)) % 256,
        regs.adc(value).f_zero == (regs.adc(value).reg_a == 0),
        regs.adc(value).f_negative == (regs.adc(value).reg_a & 0x80 == 0x80),
        regs.adc(value).f_carry == (regs.reg_a + value + bit(regs.f_carry) > 255),
        regs.adc(value).f_overflow == ((regs.reg_a ^ value) & 0x80 == 0 && (regs.reg_a
            ^ regs.adc(value).reg_a) & 0x80 != 0),
{
    let result: u8 = regs.adc(value).reg_a;
    lemma_sign_of_xor(regs.reg_a, value);
    lemma_sign_of_xor(regs.reg_a, result);
    lemma_bit_seven(result);
}

/// What a subtraction leaves behind.
///
/// With `borrow` standing for the complement of the carry that came in, the
/// accumulator holds the difference `A - value - borrow` modulo 256, C is set
/// exactly when no borrow was needed, and V is set exactly when the difference
/// of the operands, read as signed numbers, does not fit a signed byte.
pub proof fn lemma_sbc(regs: Registers, value: u8)
    ensures
        regs.sbc(value).reg_a == (regs.reg_a - value - bit(!regs.f_carry)) % 256,
        regs.sbc(value).f_carry == (regs.reg_a - value - bit(!regs.f_carry) >= 0),
        regs.sbc(value).f_overflow == !(-128 <= signed(regs.reg_a) - signed(value) - bit(
            !regs.f_carry,
        ) <= 127),
        regs.sbc(value).f_zero == (regs.sbc(value).reg_a == 0),
        regs.sbc(value).f_negative == (regs.sbc(value).reg_a >= 128),
{
    let difference: int = regs.reg_a - value - bit(!regs.f_carry);
    let sum: int = regs.reg_a + (255 - value) + bit(regs.f_carry);
    assert(sum == difference + 256);
    assert(sum % 256 == difference % 256) by {
        vstd::arithmetic::div_mod::lemma_mod_add_multiples_vanish(difference, 256);
    }
    assert(signed((255 - value) as u8) == -signed(value) - 1);
}

/// What a comparison leaves behind: C says that the register is at least the
/// operand, Z that they are equal, and N is bit 7 of their difference modulo 256.
pub proof fn lemma_compare(regs: Registers, register: u8, value: u8)
    ensures
        regs.compare(register, value).f_carry == (register >= value),
        regs.compare(register, value).f_zero == (register == value),
        regs.compare(register, value).f_negative == ((((register - value) % 256) as u8) & 0x80
            == 0x80),
{
    lemma_bit_seven((((register - value) % 256) as u8));
}

/// A shift left followed by a shift right keeps the low seven bits and clears
/// bit 7, which the first shift left in the carry.
pub proof fn lemma_asl_then_lsr(regs: Registers, value: u8)
    ensures
        ({
            let (shifted, after_left) = regs.asl(value);
            let (back, after_right) = after_left.lsr(shifted);
            &&& back == value % 128
            &&& after_left.f_carry == (value >= 128)
            &&& value == back + 128 * bit(after_left.f_carry)
            &&& !after_right.f_carry
        }),
{
}

/// A shift right followed by a shift left keeps the high seven bits and clears
/// bit 0, which the first shift left in the carry.
pub proof fn lemma_lsr_then_asl(regs: Registers, value: u8)
    ensures
        ({
            let (shifted, after_right) = regs.lsr(value);
            let (back, after_left) = after_right.asl(shifted);
            &&& back == value - value % 2
            &&& after_right.f_carry == (value % 2 == 1)
            &&& value == back + bit(after_right.f_carry)
            &&& !after_left.f_carry
        }),
{
}

/// A rotate left followed by a rotate right restores the byte and the carry.
pub proof fn lemma_rol_then_ror(regs: Registers, value: u8)
    ensures
        ({
            let (rotated, between) = regs.rol(value);
            let (back, after) = between.ror(rotated);
            &&& back == value
            &&& after.f_carry == regs.f_carry
        }),
{
}

/// A rotate right followed by a rotate left restores the byte and the carry.
pub proof fn lemma_ror_then_rol(regs: Registers, value: u8)
    ensures
        ({
            let (rotated, between) = regs.ror(value);
            let (back, after) = between.rol(rotated);
            &&& back == value
            &&& after.f_carry == regs.f_carry
        }),
{
}

/// Packing the flags and unpacking them again changes nothing.
pub proof fn lemma_status_round_trip(regs: Registers)
    ensures
        regs.with_status(regs.status()) == regs,
{
}

} // verus!
