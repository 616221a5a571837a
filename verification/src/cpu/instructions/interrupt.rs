use vstd::prelude::*;
use crate::cpu::cpu::CPU;
use crate::cpu::flags::{Flag, with_flag};
use crate::cpu::model::{CpuView, pull, pull_word, push, push_word, top, top_word, word_at};

verus! {

/// The status byte that BRK raises and pushes: break and interrupt-disable set.
pub open spec fn brk_status(status: u8) -> u8 {
    with_flag(with_flag(status, Flag::BREAK, true), Flag::INTERRUPT, true)
}

/// BRK: the program counter is pushed, break and interrupt-disable are raised,
/// the status byte is pushed, and the program counter takes the word at 0xFFFE.
pub open spec fn brk_next(s: CpuView) -> CpuView {
    let status = brk_status(s.status);
    let pushed = push(CpuView { status, ..push_word(s, s.pc) }, status);
    CpuView { pc: word_at(pushed.mem, 0xFFFE), ..pushed }
}

/// RTI: the status byte is pulled, then the program counter.
pub open spec fn rti_next(s: CpuView) -> CpuView {
    CpuView { status: top(s), pc: top_word(pull(s)), ..pull_word(pull(s)) }
}

impl CPU {
    pub(crate) fn brk(&mut self)
        ensures
            final(self)@ == brk_next(old(self)@),
    {
        self.stack.write_address(&mut self.memory, self.program_counter);

        self.status.set_flag(Flag::BREAK, true);
        self.status.set_flag(Flag::INTERRUPT, true);
        self.stack.write_value(&mut self.memory, self.status.get_status());

        self.program_counter = self.read_from_memory(0xFFFE);
    }

    pub(crate) fn rti(&mut self)
        ensures
            final(self)@ == rti_next(old(self)@),
    {
        let status = self.stack.read_value(&mut self.memory);
        let previous_address = self.stack.read_address(&mut self.memory);

        self.status.set_status(status);
        self.program_counter = previous_address;
    }
}

} // verus!
