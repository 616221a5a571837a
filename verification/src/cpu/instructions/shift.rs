use vstd::prelude::*;
use crate::cpu::cpu::{AddressingMode, CPU};
use crate::cpu::flags::{Flag, with_flag, with_zero_negative};
use crate::cpu::model::{CpuView, carry_in, rmw_ok, rmw_value, rmw_write};

verus! {

/// A shift or rotate: carry takes `carry_out`, zero and negative describe
/// `result`, and `result` is stored back into the accumulator or memory.
pub open spec fn shift_next(s: CpuView, mode: AddressingMode, result: u8, carry_out: bool) -> CpuView {
    rmw_write(
        CpuView {
            status: with_zero_negative(with_flag(s.status, Flag::CARRY, carry_out), result),
            ..s
        },
        mode,
        result,
    )
}

/// ASL: the operand doubles modulo 256; bit 7 goes to carry.
pub open spec fn asl_next(s: CpuView, mode: AddressingMode) -> CpuView {
    let v = rmw_value(s, mode);
    shift_next(s, mode, ((v * 2) % 256) as u8, v >= 0x80)
}

/// LSR: the operand halves; bit 0 goes to carry.
pub open spec fn lsr_next(s: CpuView, mode: AddressingMode) -> CpuView {
    let v = rmw_value(s, mode);
    shift_next(s, mode, (v / 2) as u8, v % 2 == 1)
}

/// ROL: the operand doubles and takes the old carry as bit 0; bit 7 goes to carry.
pub open spec fn rol_next(s: CpuView, mode: AddressingMode) -> CpuView {
    let v = rmw_value(s, mode);
    shift_next(s, mode, ((v * 2 + carry_in(s.status)) % 256) as u8, v >= 0x80)
}

/// ROR: the operand halves and takes the old carry as bit 7; bit 0 goes to carry.
pub open spec fn ror_next(s: CpuView, mode: AddressingMode) -> CpuView {
    let v = rmw_value(s, mode);
    shift_next(s, mode, (v / 2 + 128 * carry_in(s.status)) as u8, v % 2 == 1)
}

impl CPU {
    fn write_back(&mut self, target: Option<u16>, value: u8)
        ensures
            target is None ==> final(self)@ == (CpuView { a: value, ..old(self)@ }),
            target matches Some(addr) ==> final(self)@ == (CpuView {
                mem: old(self)@.mem.update(addr as int, value),
                ..old(self)@
            }),
    {
        match target {
            Some(addr) => self.memory.mem_write(addr, value),
            None => self.register.a = value,
        }
    }

    fn shift(&mut self, mode: AddressingMode, target: Option<u16>, result: u8, carry_out: bool)
        requires
            mode == AddressingMode::Accumulator ==> target is None,
        ensures
            target is None ==> final(self)@ == (CpuView {
                a: result,
                status: with_zero_negative(with_flag(old(self)@.status, Flag::CARRY, carry_out), result),
                ..old(self)@
            }),
            target matches Some(addr) ==> final(self)@ == (CpuView {
                mem: old(self)@.mem.update(addr as int, result),
                status: with_zero_negative(with_flag(old(self)@.status, Flag::CARRY, carry_out), result),
                ..old(self)@
            }),
    {
        self.status.update_carry_flags(carry_out);
        self.status.update_zero_and_negative_flags(result);
        self.write_back(target, result);
    }

    pub(crate) fn asl(&mut self, mode: AddressingMode)
        requires
            rmw_ok(old(self)@, mode),
        ensures
            final(self)@ == asl_next(old(self)@, mode),
    {
        let (target, value) = self.get_operand(mode);
        let result = value << 1u8;
        let carry_out = value & 0x80 != 0;
        assert(result == (value * 2) % 256 && carry_out == (value >= 0x80)) by (bit_vector)
            requires result == value << 1u8, carry_out == (value & 0x80u8 != 0);
        self.shift(mode, target, result, carry_out);
    }

    pub(crate) fn lsr(&mut self, mode: AddressingMode)
        requires
            rmw_ok(old(self)@, mode),
        ensures
            final(self)@ == lsr_next(old(self)@, mode),
    {
        let (target, value) = self.get_operand(mode);
        let result = value >> 1u8;
        let carry_out = value & 0x01 != 0;
        assert(result == value / 2 && carry_out == (value % 2 == 1)) by (bit_vector)
            requires result == value >> 1u8, carry_out == (value & 0x01u8 != 0);
        self.shift(mode, target, result, carry_out);
    }

    pub(crate) fn rol(&mut self, mode: AddressingMode)
        requires
            rmw_ok(old(self)@, mode),
        ensures
            final(self)@ == rol_next(old(self)@, mode),
    {
        let carry: u8 = if self.status.get_flag(Flag::CARRY) { 1 } else { 0 };
        let (target, value) = self.get_operand(mode);
        let result = (value << 1u8) | carry;
        let carry_out = value & 0x80 != 0;
        assert(result == (value * 2 + carry) % 256 && carry_out == (value >= 0x80)) by (bit_vector)
            requires
                result == (value << 1u8) | carry,
                carry_out == (value & 0x80u8 != 0),
                carry == 0 || carry == 1,
        ;
        self.shift(mode, target, result, carry_out);
    }

    pub(crate) fn ror(&mut self, mode: AddressingMode)
        requires
            rmw_ok(old(self)@, mode),
        ensures
            final(self)@ == ror_next(old(self)@, mode),
    {
        let carry: u8 = if self.status.get_flag(Flag::CARRY) { 1 } else { 0 };
        let (target, value) = self.get_operand(mode);
        let result = (value >> 1u8) | (carry << 7u8);
        let carry_out = value & 0x01 != 0;
        assert(result == value / 2 + 128 * carry && carry_out == (value % 2 == 1)) by (bit_vector)
            requires
                result == (value >> 1u8) | (carry << 7u8),
                carry_out == (value & 0x01u8 != 0),
                carry == 0 || carry == 1,
        ;
        self.shift(mode, target, result, carry_out);
    }
}

} // verus!
