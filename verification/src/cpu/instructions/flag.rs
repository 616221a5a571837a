use vstd::prelude::*;
use crate::cpu::cpu::CPU;
use crate::cpu::flags::{Flag, with_flag};
use crate::cpu::model::CpuView;

verus! {

/// A flag instruction: `flag` becomes `value`; nothing else changes.
pub open spec fn flag_op_next(s: CpuView, flag: Flag, value: bool) -> CpuView {
    CpuView { status: with_flag(s.status, flag, value), ..s }
}

impl CPU {
    pub(crate) fn clc(&mut self)
        ensures
            final(self)@ == flag_op_next(old(self)@, Flag::CARRY, false),
    {
        self.status.update_carry_flags(false);
    }

    pub(crate) fn cld(&mut self)
        ensures
            final(self)@ == flag_op_next(old(self)@, Flag::DECIMAL, false),
    {
        self.status.update_decimal_flags(false);
    }

    pub(crate) fn cli(&mut self)
        ensures
            final(self)@ == flag_op_next(old(self)@, Flag::INTERRUPT, false),
    {
        self.status.update_interrupt_flags(false);
    }

    pub(crate) fn clv(&mut self)
        ensures
            final(self)@ == flag_op_next(old(self)@, Flag::OVERFLOW, false),
    {
        self.status.update_overflow_flags(false);
    }

    pub(crate) fn sec(&mut self)
        ensures
            final(self)@ == flag_op_next(old(self)@, Flag::CARRY, true),
    {
        self.status.update_carry_flags(true);
    }

    pub(crate) fn sed(&mut self)
        ensures
            final(self)@ == flag_op_next(old(self)@, Flag::DECIMAL, true),
    {
        self.status.update_decimal_flags(true);
    }

    pub(crate) fn sei(&mut self)
        ensures
            final(self)@ == flag_op_next(old(self)@, Flag::INTERRUPT, true),
    {
        self.status.update_interrupt_flags(true);
    }
}

} // verus!
