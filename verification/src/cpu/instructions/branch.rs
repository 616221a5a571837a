use vstd::prelude::*;
use crate::cpu::cpu::{AddressingMode, CPU};
use crate::cpu::flags::{Flag, flag_set};
use crate::cpu::model::{
    CpuView, address_ok, advance, operand_address, pull_word, push_word, signed, top_word, word_at,
};

verus! {

/// JMP: the program counter takes the operand address.
pub open spec fn jmp_next(s: CpuView, mode: AddressingMode) -> CpuView {
    CpuView { pc: operand_address(s, mode), ..s }
}

/// Where a taken branch lands: `pc` (just past the offset byte) moved by the
/// signed offset, wrapping around the address space.
pub open spec fn branch_target(pc: u16, offset: u8) -> u16 {
    ((pc + signed(offset)) % 0x10000) as u16
}

/// A conditional branch: the offset byte is consumed, and the branch is taken
/// when `flag` is `is_set`.
pub open spec fn branch_next(s: CpuView, flag: Flag, is_set: bool) -> CpuView {
    let next = advance(s, 1);
    if flag_set(s.status, flag) == is_set {
        CpuView { pc: branch_target(next.pc, s.mem[s.pc as int]), ..next }
    } else {
        next
    }
}

/// JSR: the address of the last byte of the instruction is pushed, then the
/// program counter takes the target word.
pub open spec fn jsr_next(s: CpuView) -> CpuView {
    let next = advance(s, 2);
    CpuView { pc: word_at(s.mem, s.pc as int), ..push_word(next, (next.pc - 1) as u16) }
}

/// RTS: a word is pulled and the program counter takes it plus one.
pub open spec fn rts_next(s: CpuView) -> CpuView {
    CpuView { pc: (top_word(s) + 1) as u16, ..pull_word(s) }
}

impl CPU {
    pub(crate) fn jmp(&mut self, mode: AddressingMode)
        requires
            address_ok(old(self)@, mode),
        ensures
            final(self)@ == jmp_next(old(self)@, mode),
    {
        self.program_counter = self.get_operand_address(mode);
    }

    fn branch(&mut self, flag: Flag, is_set: bool)
        requires
            old(self)@.pc < 0xFFFF,
        ensures
            final(self)@ == branch_next(old(self)@, flag, is_set),
    {
        // the offset byte is a signed number
        let offset = self.fetch_byte();
        let jump_address = offset as i8 as i16;
        proof {
            assert(offset < 128 ==> (offset as i8) as i16 == offset as i16) by (bit_vector);
            assert(offset >= 128 ==> (offset as i8) as i16 == (offset as i16) - 256) by (bit_vector);
        }

        if self.status.get_flag(flag) == is_set {
            self.program_counter = self.program_counter.wrapping_add_signed(jump_address);
        }
    }

    pub(crate) fn beq(&mut self)
        requires
            old(self)@.pc < 0xFFFF,
        ensures
            final(self)@ == branch_next(old(self)@, Flag::ZERO, true),
    {
        self.branch(Flag::ZERO, true);
    }

    pub(crate) fn bne(&mut self)
        requires
            old(self)@.pc < 0xFFFF,
        ensures
            final(self)@ == branch_next(old(self)@, Flag::ZERO, false),
    {
        self.branch(Flag::ZERO, false);
    }

    pub(crate) fn bcc(&mut self)
        requires
            old(self)@.pc < 0xFFFF,
        ensures
            final(self)@ == branch_next(old(self)@, Flag::CARRY, false),
    {
        self.branch(Flag::CARRY, false);
    }

    pub(crate) fn bcs(&mut self)
        requires
            old(self)@.pc < 0xFFFF,
        ensures
            final(self)@ == branch_next(old(self)@, Flag::CARRY, true),
    {
        self.branch(Flag::CARRY, true);
    }

    pub(crate) fn bvc(&mut self)
        requires
            old(self)@.pc < 0xFFFF,
        ensures
            final(self)@ == branch_next(old(self)@, Flag::OVERFLOW, false),
    {
        self.branch(Flag::OVERFLOW, false);
    }

    pub(crate) fn bvs(&mut self)
        requires
            old(self)@.pc < 0xFFFF,
        ensures
            final(self)@ == branch_next(old(self)@, Flag::OVERFLOW, true),
    {
        self.branch(Flag::OVERFLOW, true);
    }

    pub(crate) fn bmi(&mut self)
        requires
            old(self)@.pc < 0xFFFF,
        ensures
            final(self)@ == branch_next(old(self)@, Flag::NEGATIVE, true),
    {
        self.branch(Flag::NEGATIVE, true);
    }

    pub(crate) fn bpl(&mut self)
        requires
            old(self)@.pc < 0xFFFF,
        ensures
            final(self)@ == branch_next(old(self)@, Flag::NEGATIVE, false),
    {
        self.branch(Flag::NEGATIVE, false);
    }

    pub(crate) fn jsr(&mut self)
        requires
            old(self)@.pc + 2 <= 0xFFFF,
        ensures
            final(self)@ == jsr_next(old(self)@),
    {
        let address = self.read_from_pc();
        self.stack.write_address(&mut self.memory, self.program_counter - 1);

        self.program_counter = address;
    }

    pub(crate) fn rts(&mut self)
        requires
            top_word(old(self)@) < 0xFFFF,
        ensures
            final(self)@ == rts_next(old(self)@),
    {
        // the pulled word is the address of the last byte of the call
        let address = self.stack.read_address(&mut self.memory) + 1;
        self.program_counter = address;
    }
}

} // verus!
