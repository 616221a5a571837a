use vstd::prelude::*;
use crate::cpu::cpu::CPU;
use crate::cpu::flags::with_zero_negative;
use crate::cpu::model::{CpuView, pull, push, top};

verus! {

/// PHA: the accumulator is pushed.
pub open spec fn pha_next(s: CpuView) -> CpuView {
    push(s, s.a)
}

/// PLA: the accumulator takes a pulled value; zero and negative describe it.
pub open spec fn pla_next(s: CpuView) -> CpuView {
    CpuView { a: top(s), status: with_zero_negative(s.status, top(s)), ..pull(s) }
}

/// PHP: the status byte is pushed.
pub open spec fn php_next(s: CpuView) -> CpuView {
    push(s, s.status)
}

/// PLP: the status byte takes a pulled value.
pub open spec fn plp_next(s: CpuView) -> CpuView {
    CpuView { status: top(s), ..pull(s) }
}

impl CPU {
    pub(crate) fn pha(&mut self)
        ensures
            final(self)@ == pha_next(old(self)@),
    {
        self.stack.write_value(&mut self.memory, self.register.a);
    }

    pub(crate) fn pla(&mut self)
        ensures
            final(self)@ == pla_next(old(self)@),
    {
        self.register.a = self.stack.read_value(&mut self.memory);
        self.status.update_zero_and_negative_flags(self.register.a);
    }

    pub(crate) fn php(&mut self)
        ensures
            final(self)@ == php_next(old(self)@),
    {
        let status = self.status.get_status();
        self.stack.write_value(&mut self.memory, status);
    }

    pub(crate) fn plp(&mut self)
        ensures
            final(self)@ == plp_next(old(self)@),
    {
        let stored_status = self.stack.read_value(&mut self.memory);
        self.status.set_status(stored_status);
    }
}

} // verus!
