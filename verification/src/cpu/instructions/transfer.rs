use vstd::prelude::*;
use crate::cpu::cpu::CPU;
use crate::cpu::flags::with_zero_negative;
use crate::cpu::model::CpuView;

verus! {

/// TAX: X takes the accumulator; the zero and negative flags describe it.
pub open spec fn tax_next(s: CpuView) -> CpuView {
    CpuView { x: s.a, status: with_zero_negative(s.status, s.a), ..s }
}

/// TAY: Y takes the accumulator; the zero and negative flags describe it.
pub open spec fn tay_next(s: CpuView) -> CpuView {
    CpuView { y: s.a, status: with_zero_negative(s.status, s.a), ..s }
}

/// TSX: X takes the stack pointer; the zero and negative flags describe it.
pub open spec fn tsx_next(s: CpuView) -> CpuView {
    CpuView { x: s.sp, status: with_zero_negative(s.status, s.sp), ..s }
}

/// TXA: the accumulator takes X; the zero and negative flags describe it.
pub open spec fn txa_next(s: CpuView) -> CpuView {
    CpuView { a: s.x, status: with_zero_negative(s.status, s.x), ..s }
}

/// TXS: the stack pointer takes X; no flag changes.
pub open spec fn txs_next(s: CpuView) -> CpuView {
    CpuView { sp: s.x, ..s }
}

/// TYA: the accumulator takes Y; the zero and negative flags describe it.
pub open spec fn tya_next(s: CpuView) -> CpuView {
    CpuView { a: s.y, status: with_zero_negative(s.status, s.y), ..s }
}

impl CPU {
    fn transfer(&mut self, from: u8) -> (value: u8)
        ensures
            value == from,
            final(self)@ == (CpuView { status: with_zero_negative(old(self)@.status, from), ..old(self)@ }),
    {
        self.status.update_zero_and_negative_flags(from);
        from
    }

    pub(crate) fn tax(&mut self)
        ensures
            final(self)@ == tax_next(old(self)@),
    {
        self.register.x = self.transfer(self.register.a);
    }

    pub(crate) fn tay(&mut self)
        ensures
            final(self)@ == tay_next(old(self)@),
    {
        self.register.y = self.transfer(self.register.a);
    }

    pub(crate) fn tsx(&mut self)
        ensures
            final(self)@ == tsx_next(old(self)@),
    {
        self.register.x = self.transfer(self.stack.get());
    }

    pub(crate) fn txa(&mut self)
        ensures
            final(self)@ == txa_next(old(self)@),
    {
        self.register.a = self.transfer(self.register.x);
    }

    pub(crate) fn txs(&mut self)
        ensures
            final(self)@ == txs_next(old(self)@),
    {
        self.stack.set(self.register.x);
    }

    pub(crate) fn tya(&mut self)
        ensures
            final(self)@ == tya_next(old(self)@),
    {
        self.register.a = self.transfer(self.register.y);
    }
}

} // verus!
