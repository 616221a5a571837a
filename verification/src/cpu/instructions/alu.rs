use vstd::prelude::*;
use crate::cpu::cpu::{AddressingMode, CPU};
use crate::cpu::flags::{Flag, with_flag, with_zero_negative};
use crate::cpu::model::{
    CpuView, address_ok, after_operand, carry_in, operand_value, signed,
};

verus! {

/// Whether a signed sum leaves the range of a signed byte.
pub open spec fn signed_overflow(t: int) -> bool {
    t < -128 || t > 127
}

/// Adding `value` and the carry to the accumulator: the accumulator takes the
/// sum modulo 256; zero and negative describe it; carry tells whether the
/// unsigned sum passed 0xFF; overflow tells whether the signed sum left the
/// range of a signed byte.
pub open spec fn add_with_carry_next(s: CpuView, value: u8) -> CpuView {
    let c = carry_in(s.status);
    let sum = s.a + value + c;
    let result = (sum % 256) as u8;
    CpuView {
        a: result,
        status: with_flag(
            with_flag(with_zero_negative(s.status, result), Flag::CARRY, sum > 0xFF),
            Flag::OVERFLOW,
            signed_overflow(signed(s.a) + signed(value) + c),
        ),
        ..s
    }
}

/// ADC: add the operand and the carry to the accumulator.
pub open spec fn adc_next(s: CpuView, mode: AddressingMode) -> CpuView {
    add_with_carry_next(after_operand(s, mode), operand_value(s, mode))
}

/// SBC: the accumulator takes `a - m - (1 - c)` modulo 256; zero and negative
/// describe it; carry is set when no borrow occurred (the difference is not
/// negative); overflow tells whether the signed difference left the range of a
/// signed byte.
pub open spec fn sbc_next(s: CpuView, mode: AddressingMode) -> CpuView {
    let m = operand_value(s, mode);
    let c = carry_in(s.status);
    let diff = s.a - m - (1 - c);
    let result = (diff % 256) as u8;
    CpuView {
        a: result,
        status: with_flag(
            with_flag(with_zero_negative(s.status, result), Flag::CARRY, diff >= 0),
            Flag::OVERFLOW,
            signed_overflow(signed(s.a) - signed(m) - (1 - c)),
        ),
        ..after_operand(s, mode)
    }
}

/// A comparison of `register` with the operand: zero and negative describe
/// `register - m` modulo 256, carry tells whether `register >= m`.
pub open spec fn compare_next(s: CpuView, mode: AddressingMode, register: u8) -> CpuView {
    let m = operand_value(s, mode);
    CpuView {
        status: with_flag(
            with_zero_negative(s.status, ((register - m) % 256) as u8),
            Flag::CARRY,
            register >= m,
        ),
        ..after_operand(s, mode)
    }
}

/// The sign rule of two's complement addition equals the range test on the
/// signed sum: `(a ^ r) & (v ^ r) & 0x80` is set exactly when the signed sum
/// overflows.
pub proof fn lemma_overflow_bits(a: u8, v: u8, c: int)
    requires
        c == 0 || c == 1,
    ensures
        ({
            let r = ((a + v + c) % 256) as u8;
            ((a ^ r) & (v ^ r) & 0x80u8 != 0) == signed_overflow(signed(a) + signed(v) + c)
        }),
{
    let sum = a + v + c;
    let r = (sum % 256) as u8;
    assert(((a ^ r) & (v ^ r) & 0x80u8 != 0) == (((a < 128) == (v < 128)) && ((r < 128) != (a
        < 128)))) by (bit_vector);
    if sum < 256 {
        assert(r == sum);
    } else {
        assert(r == sum - 256);
    }
}

/// Subtracting with borrow is adding the complement: running the adder on
/// `255 - m` gives the state that the subtraction describes.
pub proof fn lemma_sbc_is_adc_of_complement(s: CpuView, mode: AddressingMode)
    ensures
        add_with_carry_next(after_operand(s, mode), (255 - operand_value(s, mode)) as u8)
            == sbc_next(s, mode),
{
    let m = operand_value(s, mode);
    let inv = (255 - m) as u8;
    let c = carry_in(s.status);
    let sum = s.a + inv + c;
    let diff = s.a - m - (1 - c);
    assert(sum == diff + 256);
    assert(sum % 256 == diff % 256);
    assert(signed(inv) == -signed(m) - 1);
}

impl CPU {
    fn add_with_carry(&mut self, value: u8)
        ensures
            final(self)@ == add_with_carry_next(old(self)@, value),
    {
        let a = self.register.a;
        let carry: u16 = if self.status.get_flag(Flag::CARRY) { 1 } else { 0 };

        let sum = a as u16 + value as u16 + carry;
        let result = sum as u8;
        let overflow = (a ^ result) & (value ^ result) & 0x80;
        proof {
            assert(sum as u8 == sum % 256) by (bit_vector);
            lemma_overflow_bits(a, value, carry as int);
        }

        self.register.a = result;

        self.status.update_zero_and_negative_flags(result);
        self.status.update_carry_flags(sum > 0xFF);
        self.status.update_overflow_flags(overflow != 0);
    }

    pub(crate) fn adc(&mut self, mode: AddressingMode)
        requires
            address_ok(old(self)@, mode),
        ensures
            final(self)@ == adc_next(old(self)@, mode),
    {
        let value = self.get_operand_value(mode);
        self.add_with_carry(value);
    }

    pub(crate) fn sbc(&mut self, mode: AddressingMode)
        requires
            address_ok(old(self)@, mode),
        ensures
            final(self)@ == sbc_next(old(self)@, mode),
    {
        let value = self.get_operand_value(mode);
        // the complement of the operand: -m - 1, so that a + !m + c = a - m - (1 - c)
        let invert = 0u8.wrapping_sub(value).wrapping_sub(1);
        proof {
            lemma_sbc_is_adc_of_complement(old(self)@, mode);
        }
        self.add_with_carry(invert);
    }

    fn compare(&mut self, mode: AddressingMode, register: u8)
        requires
            address_ok(old(self)@, mode),
        ensures
            final(self)@ == compare_next(old(self)@, mode, register),
    {
        let value = self.get_operand_value(mode);

        self.status.update_zero_and_negative_flags(register.wrapping_sub(value));
        self.status.update_carry_flags(register >= value);
    }

    pub(crate) fn cmp(&mut self, mode: AddressingMode)
        requires
            address_ok(old(self)@, mode),
        ensures
            final(self)@ == compare_next(old(self)@, mode, old(self)@.a),
    {
        self.compare(mode, self.register.a);
    }

    pub(crate) fn cpx(&mut self, mode: AddressingMode)
        requires
            address_ok(old(self)@, mode),
        ensures
            final(self)@ == compare_next(old(self)@, mode, old(self)@.x),
    {
        self.compare(mode, self.register.x);
    }

    pub(crate) fn cpy(&mut self, mode: AddressingMode)
        requires
            address_ok(old(self)@, mode),
        ensures
            final(self)@ == compare_next(old(self)@, mode, old(self)@.y),
    {
        self.compare(mode, self.register.y);
    }
}

} // verus!
