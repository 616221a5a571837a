use vstd::prelude::*;
use crate::cpu::cpu::{AddressingMode, CPU};
use crate::cpu::flags::with_zero_negative;
use crate::cpu::model::{CpuView, address_ok, rmw_value, rmw_write};

verus! {

/// One more, wrapping from 0xFF to 0.
pub open spec fn wrapping_inc(v: u8) -> u8 {
    ((v + 1) % 256) as u8
}

/// One less, wrapping from 0 to 0xFF.
pub open spec fn wrapping_dec(v: u8) -> u8 {
    ((v + 255) % 256) as u8
}

/// INC/DEC on memory: the operand byte is replaced by `result`, and the
/// zero and negative flags describe it.
pub open spec fn memory_op_next(s: CpuView, mode: AddressingMode, result: u8) -> CpuView {
    rmw_write(CpuView { status: with_zero_negative(s.status, result), ..s }, mode, result)
}

/// INC: the operand byte goes up by one.
pub open spec fn inc_next(s: CpuView, mode: AddressingMode) -> CpuView {
    memory_op_next(s, mode, wrapping_inc(rmw_value(s, mode)))
}

/// DEC: the operand byte goes down by one.
pub open spec fn dec_next(s: CpuView, mode: AddressingMode) -> CpuView {
    memory_op_next(s, mode, wrapping_dec(rmw_value(s, mode)))
}

/// INX: X goes up by one; the zero and negative flags describe it.
pub open spec fn inx_next(s: CpuView) -> CpuView {
    CpuView { x: wrapping_inc(s.x), status: with_zero_negative(s.status, wrapping_inc(s.x)), ..s }
}

/// INY: Y goes up by one; the zero and negative flags describe it.
pub open spec fn iny_next(s: CpuView) -> CpuView {
    CpuView { y: wrapping_inc(s.y), status: with_zero_negative(s.status, wrapping_inc(s.y)), ..s }
}

/// DEX: X goes down by one; the zero and negative flags describe it.
pub open spec fn dex_next(s: CpuView) -> CpuView {
    CpuView { x: wrapping_dec(s.x), status: with_zero_negative(s.status, wrapping_dec(s.x)), ..s }
}

/// DEY: Y goes down by one; the zero and negative flags describe it.
pub open spec fn dey_next(s: CpuView) -> CpuView {
    CpuView { y: wrapping_dec(s.y), status: with_zero_negative(s.status, wrapping_dec(s.y)), ..s }
}

impl CPU {
    fn add_operation(x: u8) -> (r: u8)
        ensures
            r == wrapping_inc(x),
    {
        x.wrapping_add(1)
    }

    fn remove_operation(x: u8) -> (r: u8)
        ensures
            r == wrapping_dec(x),
    {
        x.wrapping_sub(1)
    }

    fn update_value(&mut self, register: u8, operation: impl Fn(u8) -> u8) -> (result: u8)
        requires
            call_requires(operation, (register,)),
        ensures
            call_ensures(operation, (register,), result),
            final(self)@ == (CpuView { status: with_zero_negative(old(self)@.status, result), ..old(self)@ }),
    {
        let result = operation(register);
        self.status.update_zero_and_negative_flags(result);
        result
    }

    fn memory_op(&mut self, mode: AddressingMode, operation: impl Fn(u8) -> u8)
        requires
            address_ok(old(self)@, mode),
            call_requires(operation, (rmw_value(old(self)@, mode),)),
        ensures
            exists|result: u8|
                call_ensures(operation, (rmw_value(old(self)@, mode),), result)
                && final(self)@ == #[trigger] memory_op_next(old(self)@, mode, result),
    {
        let (memory_address, value) = self.get_operand(mode);
        let result = self.update_value(value, operation);
        match memory_address {
            Some(addr) => self.memory.mem_write(addr, result),
            None => {
                proof {
                    assert(false);
                }
            },
        }
        assert(final(self)@ == memory_op_next(old(self)@, mode, result));
    }

    pub(crate) fn inc(&mut self, mode: AddressingMode)
        requires
            address_ok(old(self)@, mode),
        ensures
            final(self)@ == inc_next(old(self)@, mode),
    {
        self.memory_op(mode, Self::add_operation);
    }

    pub(crate) fn inx(&mut self)
        ensures
            final(self)@ == inx_next(old(self)@),
    {
        self.register.x = self.update_value(self.register.x, Self::add_operation);
    }

    pub(crate) fn iny(&mut self)
        ensures
            final(self)@ == iny_next(old(self)@),
    {
        self.register.y = self.update_value(self.register.y, Self::add_operation);
    }

    pub(crate) fn dec(&mut self, mode: AddressingMode)
        requires
            address_ok(old(self)@, mode),
        ensures
            final(self)@ == dec_next(old(self)@, mode),
    {
        self.memory_op(mode, Self::remove_operation);
    }

    pub(crate) fn dex(&mut self)
        ensures
            final(self)@ == dex_next(old(self)@),
    {
        self.register.x = self.update_value(self.register.x, Self::remove_operation);
    }

    pub(crate) fn dey(&mut self)
        ensures
            final(self)@ == dey_next(old(self)@),
    {
        self.register.y = self.update_value(self.register.y, Self::remove_operation);
    }
}

} // verus!
