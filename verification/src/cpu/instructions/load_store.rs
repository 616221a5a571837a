use vstd::prelude::*;
use crate::cpu::cpu::{AddressingMode, CPU};
use crate::cpu::flags::with_zero_negative;
use crate::cpu::model::{CpuView, address_ok, after_operand, operand_address, operand_value};

verus! {

/// LDA: the accumulator takes the operand value, and the zero and negative flags describe it.
pub open spec fn lda_next(s: CpuView, mode: AddressingMode) -> CpuView {
    let v = operand_value(s, mode);
    CpuView { a: v, status: with_zero_negative(s.status, v), ..after_operand(s, mode) }
}

/// LDX: the X register takes the operand value, and the zero and negative flags describe it.
pub open spec fn ldx_next(s: CpuView, mode: AddressingMode) -> CpuView {
    let v = operand_value(s, mode);
    CpuView { x: v, status: with_zero_negative(s.status, v), ..after_operand(s, mode) }
}

/// LDY: the Y register takes the operand value, and the zero and negative flags describe it.
pub open spec fn ldy_next(s: CpuView, mode: AddressingMode) -> CpuView {
    let v = operand_value(s, mode);
    CpuView { y: v, status: with_zero_negative(s.status, v), ..after_operand(s, mode) }
}

/// A store: `value` is written at the operand address; no flag changes.
pub open spec fn store_next(s: CpuView, mode: AddressingMode, value: u8) -> CpuView {
    CpuView { mem: s.mem.update(operand_address(s, mode) as int, value), ..after_operand(s, mode) }
}

impl CPU {
    fn load(&mut self, mode: AddressingMode) -> (value: u8)
        requires
            address_ok(old(self)@, mode),
        ensures
            value == operand_value(old(self)@, mode),
            final(self)@ == (CpuView {
                status: with_zero_negative(old(self)@.status, value),
                ..after_operand(old(self)@, mode)
            }),
    {
        let value = self.get_operand_value(mode);
        self.status.update_zero_and_negative_flags(value);
        value
    }

    fn store(&mut self, register: u8, mode: AddressingMode)
        requires
            address_ok(old(self)@, mode),
        ensures
            final(self)@ == store_next(old(self)@, mode, register),
    {
        let address = self.get_operand_address(mode);
        self.memory.mem_write(address, register);
    }

    pub(crate) fn lda(&mut self, mode: AddressingMode)
        requires
            address_ok(old(self)@, mode),
        ensures
            final(self)@ == lda_next(old(self)@, mode),
    {
        self.register.a = self.load(mode);
    }

    pub(crate) fn ldx(&mut self, mode: AddressingMode)
        requires
            address_ok(old(self)@, mode),
        ensures
            final(self)@ == ldx_next(old(self)@, mode),
    {
        self.register.x = self.load(mode);
    }

    pub(crate) fn ldy(&mut self, mode: AddressingMode)
        requires
            address_ok(old(self)@, mode),
        ensures
            final(self)@ == ldy_next(old(self)@, mode),
    {
        self.register.y = self.load(mode);
    }

    pub(crate) fn sta(&mut self, mode: AddressingMode)
        requires
            address_ok(old(self)@, mode),
        ensures
            final(self)@ == store_next(old(self)@, mode, old(self)@.a),
    {
        self.store(self.register.a, mode);
    }

    pub(crate) fn stx(&mut self, mode: AddressingMode)
        requires
            address_ok(old(self)@, mode),
        ensures
            final(self)@ == store_next(old(self)@, mode, old(self)@.x),
    {
        self.store(self.register.x, mode);
    }

    pub(crate) fn sty(&mut self, mode: AddressingMode)
        requires
            address_ok(old(self)@, mode),
        ensures
            final(self)@ == store_next(old(self)@, mode, old(self)@.y),
    {
        self.store(self.register.y, mode);
    }
}

} // verus!
