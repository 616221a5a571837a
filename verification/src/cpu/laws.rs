//! Properties that span several operations of the processor.
use vstd::prelude::*;
use crate::cpu::cpu::{opcode_of, step_next};
use crate::cpu::flags::{Flag, flag_mask, flag_set, lemma_mask_ops, with_flag};
use crate::cpu::instructions::increment::{wrapping_dec, wrapping_inc};
use crate::cpu::instructions::interrupt::brk_status;
use crate::cpu::memory::program_loaded;
use crate::cpu::model::{CpuView, pull, pull_word, push, push_word, top, top_word, word_at};
use crate::cpu::stack::{lemma_make_word, lemma_split_word, sp_after_push, stack_address};

verus! {

/// Raising or clearing a flag makes it read back as the value given.
pub proof fn lemma_flag_reads_back(status: u8, flag: Flag, value: bool)
    ensures
        flag_set(with_flag(status, flag, value), flag) == value,
{
    let m = flag_mask(flag);
    lemma_mask_ops(status, flag);
    lemma_mask_ops(status | m, flag);
    lemma_mask_ops(status & !m, flag);
    assert(m != 0 ==> (status | m) & m != 0) by (bit_vector);
    assert((status & !m) & m == 0) by (bit_vector);
}

/// Raising or clearing a flag leaves every other flag as it was.
pub proof fn lemma_flag_keeps_others(status: u8, flag: Flag, other: Flag, value: bool)
    requires
        flag != other,
    ensures
        flag_set(with_flag(status, flag, value), other) == flag_set(status, other),
{
    let m = flag_mask(flag);
    let o = flag_mask(other);
    lemma_mask_ops(status, flag);
    lemma_mask_ops(status, other);
    lemma_mask_ops(status | m, other);
    lemma_mask_ops(status & !m, other);
    assert(m & o == 0) by (bit_vector)
        requires
            m == 1 || m == 2 || m == 4 || m == 8 || m == 16 || m == 64 || m == 128,
            o == 1 || o == 2 || o == 4 || o == 8 || o == 16 || o == 64 || o == 128,
            m != o,
    ;
    assert(m & o == 0 ==> (((status | m) & o != 0) == (status & o != 0))) by (bit_vector);
    assert(m & o == 0 ==> (((status & !m) & o != 0) == (status & o != 0))) by (bit_vector);
}

/// Counting a byte up and then down, or down and then up, gives it back.
pub proof fn lemma_increment_decrement_inverse(v: u8)
    ensures
        wrapping_dec(wrapping_inc(v)) == v,
        wrapping_inc(wrapping_dec(v)) == v,
{
}

/// Pulling right after a push gives back the pushed value and the stack pointer
/// that was there before the push.
pub proof fn lemma_pull_after_push(s: CpuView, value: u8)
    requires
        s.mem.len() == 0x10000,
    ensures
        top(push(s, value)) == value,
        pull(push(s, value)).sp == s.sp,
{
}

/// The stack is last in, first out: after pushing `first` then `second`, pulls
/// return `second` then `first`, and the stack pointer is back where it started.
pub proof fn lemma_stack_last_in_first_out(s: CpuView, first: u8, second: u8)
    requires
        s.mem.len() == 0x10000,
    ensures
        top(push(push(s, first), second)) == second,
        top(pull(push(push(s, first), second))) == first,
        pull(pull(push(push(s, first), second))).sp == s.sp,
{
}

/// Pulling a word right after pushing it gives back the word and the stack
/// pointer that was there before.
pub proof fn lemma_pull_word_after_push_word(s: CpuView, w: u16)
    requires
        s.mem.len() == 0x10000,
    ensures
        top_word(push_word(s, w)) == w,
        pull_word(push_word(s, w)).sp == s.sp,
{
    lemma_split_word(w);
}

/// After a program is loaded, the reset vector points at 0x8000.
pub proof fn lemma_loaded_program_starts_at_8000(mem: Seq<u8>, program: Seq<u8>)
    requires
        mem.len() == 0x10000,
        program.len() <= 0x8000,
    ensures
        word_at(program_loaded(mem, program), 0xFFFC) == 0x8000,
{
    lemma_make_word(0x00, 0x80);
}

/// A subroutine call followed by a return: when the byte at the program counter
/// is JSR absolute and the target holds RTS, two steps bring the program
/// counter just past the JSR instruction, with the stack pointer, registers and
/// flags as they were. The target must be neither of the two stack bytes the
/// call writes, and below 0xFFFF so that its opcode can be fetched.
pub proof fn lemma_jsr_then_rts_returns(s: CpuView)
    requires
        s.mem.len() == 0x10000,
        s.mem[s.pc as int] == 0x20,
        s.pc <= 0xFFFC,
        word_at(s.mem, s.pc + 1) < 0xFFFF,
        s.mem[word_at(s.mem, s.pc + 1) as int] == 0x60,
        word_at(s.mem, s.pc + 1) != stack_address(s.sp),
        word_at(s.mem, s.pc + 1) != stack_address(sp_after_push(s.sp)),
    ensures
        step_next(s) is Some,
        step_next(step_next(s)->0) is Some,
        ({
            let end = step_next(step_next(s)->0)->0;
            &&& end.pc == s.pc + 3
            &&& end.sp == s.sp
            &&& end.a == s.a
            &&& end.x == s.x
            &&& end.y == s.y
            &&& end.status == s.status
        }),
{
    reveal(opcode_of);
    let target = word_at(s.mem, s.pc + 1);
    let ret = (s.pc + 2) as u16;
    let called = CpuView { pc: target, ..push_word(CpuView { pc: (s.pc + 3) as u16, ..s }, ret) };
    assert(opcode_of(0x20) == crate::cpu::cpu::op(
        crate::cpu::cpu::Instruction::JSR,
        crate::cpu::cpu::AddressingMode::Absolute,
        6,
    ));
    assert(step_next(s) == Some(called));
    assert(called.mem[target as int] == 0x60);
    lemma_pull_word_after_push_word(CpuView { pc: (s.pc + 3) as u16, ..s }, ret);
    assert(top_word(called) == ret);
}

/// A break followed by a return from interrupt: when the byte at the program
/// counter is BRK and the break vector at 0xFFFE points at an RTI, two steps
/// bring the program counter one past the BRK byte and the stack pointer back,
/// with the status byte that BRK pushed (break and interrupt-disable raised).
/// The handler must be none of the three stack bytes BRK writes, and below
/// 0xFFFF so that its opcode can be fetched.
pub proof fn lemma_brk_then_rti_returns(s: CpuView)
    requires
        s.mem.len() == 0x10000,
        s.mem[s.pc as int] == 0x00,
        s.pc < 0xFFFF,
        word_at(s.mem, 0xFFFE) < 0xFFFF,
        s.mem[word_at(s.mem, 0xFFFE) as int] == 0x40,
        word_at(s.mem, 0xFFFE) != stack_address(s.sp),
        word_at(s.mem, 0xFFFE) != stack_address(sp_after_push(s.sp)),
        word_at(s.mem, 0xFFFE) != stack_address(sp_after_push(sp_after_push(s.sp))),
    ensures
        step_next(s) is Some,
        step_next(step_next(s)->0) is Some,
        ({
            let end = step_next(step_next(s)->0)->0;
            &&& end.pc == s.pc + 1
            &&& end.sp == s.sp
            &&& end.status == brk_status(s.status)
            &&& end.a == s.a
            &&& end.x == s.x
            &&& end.y == s.y
        }),
{
    reveal(opcode_of);
    let after = CpuView { pc: (s.pc + 1) as u16, ..s };
    lemma_split_word(after.pc);
    lemma_pull_word_after_push_word(after, after.pc);
    let st = brk_status(s.status);
    let pushed = push(CpuView { status: st, ..push_word(after, after.pc) }, st);
    assert(word_at(pushed.mem, 0xFFFE) == word_at(s.mem, 0xFFFE));
    let handler = word_at(s.mem, 0xFFFE);
    let entered = CpuView { pc: handler, ..pushed };
    assert(step_next(s) == Some(entered));
    assert(entered.mem[handler as int] == 0x40);
    assert(top(entered) == st);
    assert(pull(entered).sp == sp_after_push(sp_after_push(s.sp)));
    assert(top_word(pull(entered)) == after.pc);
}

} // verus!
