use vstd::prelude::*;
use crate::cpu::cpu::{AddressingMode, CPU};
use crate::cpu::flags::{Flag, with_flag, with_zero_negative};
use crate::cpu::model::{CpuView, address_ok, after_operand, operand_value};

verus! {

/// AND: the accumulator takes its bitwise and with the operand; zero and negative describe it.
pub open spec fn and_next(s: CpuView, mode: AddressingMode) -> CpuView {
    let r = s.a & operand_value(s, mode);
    CpuView { a: r, status: with_zero_negative(s.status, r), ..after_operand(s, mode) }
}

/// ORA: the accumulator takes its bitwise or with the operand; zero and negative describe it.
pub open spec fn ora_next(s: CpuView, mode: AddressingMode) -> CpuView {
    let r = s.a | operand_value(s, mode);
    CpuView { a: r, status: with_zero_negative(s.status, r), ..after_operand(s, mode) }
}

/// EOR: the accumulator takes its bitwise exclusive or with the operand; zero and negative describe it.
pub open spec fn eor_next(s: CpuView, mode: AddressingMode) -> CpuView {
    let r = s.a ^ operand_value(s, mode);
    CpuView { a: r, status: with_zero_negative(s.status, r), ..after_operand(s, mode) }
}

/// BIT: zero tells whether the accumulator and the operand share no bit;
/// overflow and negative copy bits 6 and 7 of the operand. The accumulator is kept.
pub open spec fn bit_next(s: CpuView, mode: AddressingMode) -> CpuView {
    let m = operand_value(s, mode);
    CpuView {
        status: with_flag(
            with_flag(with_flag(s.status, Flag::ZERO, s.a & m == 0), Flag::OVERFLOW, m & 0x40 != 0),
            Flag::NEGATIVE,
            m >= 0x80,
        ),
        ..after_operand(s, mode)
    }
}

impl CPU {
    pub(crate) fn and(&mut self, mode: AddressingMode)
        requires
            address_ok(old(self)@, mode),
        ensures
            final(self)@ == and_next(old(self)@, mode),
    {
        let value = self.get_operand_value(mode);
        self.register.a = self.register.a & value;
        self.status.update_zero_and_negative_flags(self.register.a);
    }

    pub(crate) fn ora(&mut self, mode: AddressingMode)
        requires
            address_ok(old(self)@, mode),
        ensures
            final(self)@ == ora_next(old(self)@, mode),
    {
        let value = self.get_operand_value(mode);
        self.register.a = self.register.a | value;
        self.status.update_zero_and_negative_flags(self.register.a);
    }

    pub(crate) fn eor(&mut self, mode: AddressingMode)
        requires
            address_ok(old(self)@, mode),
        ensures
            final(self)@ == eor_next(old(self)@, mode),
    {
        let value = self.get_operand_value(mode);
        self.register.a = self.register.a ^ value;
        self.status.update_zero_and_negative_flags(self.register.a);
    }

    pub(crate) fn bit(&mut self, mode: AddressingMode)
        requires
            address_ok(old(self)@, mode),
        ensures
            final(self)@ == bit_next(old(self)@, mode),
    {
        let value = self.get_operand_value(mode);
        self.status.set_flag(Flag::ZERO, self.register.a & value == 0);
        self.status.set_flag(Flag::OVERFLOW, value & 0x40 != 0);
        let negative = value & 0x80 != 0;
        assert(negative == (value >= 0x80)) by (bit_vector)
            requires negative == (value & 0x80u8 != 0);
        self.status.set_flag(Flag::NEGATIVE, negative);
    }
}

} // verus!
