//! The mathematical state of the processor and the meaning of its addressing
//! modes and stack, in terms of which every instruction is specified.
use vstd::prelude::*;
use crate::cpu::cpu::AddressingMode;
use crate::cpu::flags::{Flag, flag_set};
use crate::cpu::stack::{high_byte, low_byte, make_word, sp_after_pull, sp_after_push, stack_address};

verus! {

/// The whole visible state of the processor.

pub struct CpuView {
    pub pc: u16,
    pub a: u8,
    pub x: u8,
    pub y: u8,
    pub sp: u8,
    pub status: u8,
    pub mem: Seq<u8>,
}

/// The little-endian word stored at `addr` and `addr + 1`.
pub open spec fn word_at(mem: Seq<u8>, addr: int) -> u16 {
    make_word(mem[addr], mem[addr + 1])
}

/// The state with the program counter moved `n` bytes forward.
pub open spec fn advance(s: CpuView, n: int) -> CpuView {
    CpuView { pc: (s.pc + n) as u16, ..s }
}

/// A byte read as a two's complement number.
pub open spec fn signed(b: u8) -> int {
    if b < 128 {
        b as int
    } else {
        b - 256
    }
}

/// 1 when the carry flag is raised, 0 otherwise.
pub open spec fn carry_in(status: u8) -> int {
    if flag_set(status, Flag::CARRY) {
        1
    } else {
        0
    }
}

/// How many operand bytes follow the opcode.
pub open spec fn operand_len(mode: AddressingMode) -> int {
    match mode {
        AddressingMode::Immediate | AddressingMode::ZeroPage | AddressingMode::ZeroPageX
        | AddressingMode::ZeroPageY | AddressingMode::IndirectX | AddressingMode::IndirectY => 1,
        AddressingMode::Absolute | AddressingMode::AbsoluteX | AddressingMode::AbsoluteY
        | AddressingMode::Indirect => 2,
        _ => 0,
    }
}

/// Whether the mode designates an operand address.
pub open spec fn has_address(mode: AddressingMode) -> bool {
    !(mode == AddressingMode::Implied || mode == AddressingMode::Relative
        || mode == AddressingMode::Accumulator)
}

/// The operand address before it is cut to 16 bits, with `s.pc` at the first operand byte.
/// In immediate mode it is the operand byte itself.
pub open spec fn effective_address(s: CpuView, mode: AddressingMode) -> int {
    let b = s.mem[s.pc as int];
    let w = word_at(s.mem, s.pc as int);
    match mode {
        AddressingMode::Immediate | AddressingMode::ZeroPage => b as int,
        AddressingMode::ZeroPageX => (b + s.x) % 256,
        AddressingMode::ZeroPageY => (b + s.y) % 256,
        AddressingMode::Absolute => w as int,
        AddressingMode::AbsoluteX => w + s.x,
        AddressingMode::AbsoluteY => w + s.y,
        AddressingMode::Indirect => word_at(s.mem, w as int) as int,
        AddressingMode::IndirectX => word_at(s.mem, (b + s.x) % 256) as int,
        AddressingMode::IndirectY => word_at(s.mem, b as int) + s.y,
        _ => 0,
    }
}

/// Whether the operand address can be formed: the mode has one, its operand bytes
/// end before the program counter would pass 0xFFFF, no indexed address passes
/// 0xFFFF, and an indirect pointer is not at 0xFFFF.
pub open spec fn address_ok(s: CpuView, mode: AddressingMode) -> bool {
    &&& has_address(mode)
    &&& s.pc + operand_len(mode) <= 0xFFFF
    &&& effective_address(s, mode) <= 0xFFFF
    &&& (mode == AddressingMode::Indirect ==> word_at(s.mem, s.pc as int) < 0xFFFF)
}

/// The operand address, with `s.pc` at the first operand byte.
pub open spec fn operand_address(s: CpuView, mode: AddressingMode) -> u16 {
    effective_address(s, mode) as u16
}

/// The operand value: the operand byte in immediate mode, the byte at the operand
/// address otherwise.
pub open spec fn operand_value(s: CpuView, mode: AddressingMode) -> u8 {
    if mode == AddressingMode::Immediate {
        s.mem[s.pc as int]
    } else {
        s.mem[operand_address(s, mode) as int]
    }
}

/// The state once the operand bytes have been consumed.
pub open spec fn after_operand(s: CpuView, mode: AddressingMode) -> CpuView {
    advance(s, operand_len(mode))
}

/// Whether a read-modify-write instruction can run in this mode: on the
/// accumulator, or on a memory operand whose address can be formed.
pub open spec fn rmw_ok(s: CpuView, mode: AddressingMode) -> bool {
    mode == AddressingMode::Accumulator || address_ok(s, mode)
}

/// The value a read-modify-write instruction works on.
pub open spec fn rmw_value(s: CpuView, mode: AddressingMode) -> u8 {
    if mode == AddressingMode::Accumulator {
        s.a
    } else {
        s.mem[operand_address(s, mode) as int]
    }
}

/// The state once a read-modify-write instruction has stored `result` back.
pub open spec fn rmw_write(s: CpuView, mode: AddressingMode, result: u8) -> CpuView {
    if mode == AddressingMode::Accumulator {
        CpuView { a: result, ..s }
    } else {
        CpuView {
            mem: s.mem.update(operand_address(s, mode) as int, result),
            ..after_operand(s, mode)
        }
    }
}

/// The state after pushing `value`.
pub open spec fn push(s: CpuView, value: u8) -> CpuView {
    CpuView { mem: s.mem.update(stack_address(s.sp), value), sp: sp_after_push(s.sp), ..s }
}

/// The value that a pull returns.
pub open spec fn top(s: CpuView) -> u8 {
    s.mem[stack_address(sp_after_pull(s.sp))]
}

/// The state after pulling a value.
pub open spec fn pull(s: CpuView) -> CpuView {
    CpuView { sp: sp_after_pull(s.sp), ..s }
}

/// The state after pushing a word, high byte first.
pub open spec fn push_word(s: CpuView, w: u16) -> CpuView {
    push(push(s, high_byte(w)), low_byte(w))
}

/// The word that pulling two bytes, low byte first, returns.
pub open spec fn top_word(s: CpuView) -> u16 {
    make_word(top(s), top(pull(s)))
}

/// The state after pulling a word.
pub open spec fn pull_word(s: CpuView) -> CpuView {
    pull(pull(s))
}

} // verus!
