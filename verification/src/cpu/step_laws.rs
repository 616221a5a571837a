//! What single steps do, stated over the bytes of the state: the opcode at the
//! program counter, its operand bytes, the registers, the status bits and memory.
use vstd::prelude::*;
use crate::cpu::cpu::{AddressingMode, Instruction, op, opcode_of, step_next};
use crate::cpu::flags::{Flag, flag_set, with_flag, with_zero_negative};
use crate::cpu::laws::{lemma_flag_keeps_others, lemma_flag_reads_back};
use crate::cpu::instructions::stack::{php_next, plp_next};
use crate::cpu::model::{CpuView, address_ok, advance, operand_address};

verus! {

/// After the zero and negative flags are made to describe `r`, zero is raised
/// exactly when `r` is 0, negative exactly when bit 7 of `r` is set, and every
/// other flag is as it was.
pub proof fn lemma_zero_negative_flags(status: u8, r: u8)
    ensures
        flag_set(with_zero_negative(status, r), Flag::ZERO) == (r == 0),
        flag_set(with_zero_negative(status, r), Flag::NEGATIVE) == (r >= 0x80),
        forall|f: Flag|
            f != Flag::ZERO && f != Flag::NEGATIVE ==> #[trigger] flag_set(
                with_zero_negative(status, r),
                f,
            ) == flag_set(status, f),
{
    let z = with_flag(status, Flag::ZERO, r == 0);
    lemma_flag_reads_back(status, Flag::ZERO, r == 0);
    lemma_flag_reads_back(z, Flag::NEGATIVE, r >= 0x80);
    lemma_flag_keeps_others(z, Flag::NEGATIVE, Flag::ZERO, r >= 0x80);
    assert forall|f: Flag| f != Flag::ZERO && f != Flag::NEGATIVE implies #[trigger] flag_set(
        with_zero_negative(status, r),
        f,
    ) == flag_set(status, f) by {
        lemma_flag_keeps_others(status, Flag::ZERO, f, r == 0);
        lemma_flag_keeps_others(z, Flag::NEGATIVE, f, r >= 0x80);
    }
}

/// Whether the conditional branch with opcode `byte` is taken under `status`:
/// BPL and BMI test the negative flag (clear, set), BVC and BVS the overflow
/// flag, BCC and BCS the carry flag, BNE and BEQ the zero flag.
pub open spec fn branch_taken(byte: u8, status: u8) -> bool {
    if byte == 0x10 {
        !flag_set(status, Flag::NEGATIVE)
    } else if byte == 0x30 {
        flag_set(status, Flag::NEGATIVE)
    } else if byte == 0x50 {
        !flag_set(status, Flag::OVERFLOW)
    } else if byte == 0x70 {
        flag_set(status, Flag::OVERFLOW)
    } else if byte == 0x90 {
        !flag_set(status, Flag::CARRY)
    } else if byte == 0xB0 {
        flag_set(status, Flag::CARRY)
    } else if byte == 0xD0 {
        !flag_set(status, Flag::ZERO)
    } else {
        flag_set(status, Flag::ZERO)
    }
}

/// A conditional branch is two bytes long. When it is taken, the program
/// counter moves from the byte after it by the offset byte read as a signed
/// number (-128 to 127), wrapping around the 16-bit address space; otherwise it
/// lands on the byte after it. Nothing else changes.
pub proof fn lemma_branch_step(s: CpuView)
    requires
        s.mem.len() == 0x10000,
        s.pc <= 0xFFFD,
        s.mem[s.pc as int] == 0x10 || s.mem[s.pc as int] == 0x30 || s.mem[s.pc as int] == 0x50
            || s.mem[s.pc as int] == 0x70 || s.mem[s.pc as int] == 0x90 || s.mem[s.pc as int]
            == 0xB0 || s.mem[s.pc as int] == 0xD0 || s.mem[s.pc as int] == 0xF0,
    ensures
        step_next(s) is Some,
        ({
            let t = step_next(s)->0;
            let offset = s.mem[s.pc + 1];
            let displacement: int = if offset < 128 { offset as int } else { offset - 256 };
            &&& t.pc == if branch_taken(s.mem[s.pc as int], s.status) {
                (s.pc + 2 + displacement) % 0x10000
            } else {
                s.pc + 2
            }
            &&& t.a == s.a && t.x == s.x && t.y == s.y && t.sp == s.sp
            &&& t.status == s.status
            &&& t.mem == s.mem
        }),
{
    reveal(opcode_of);
}

/// JMP absolute is three bytes long; the program counter takes the
/// little-endian word made of its two operand bytes. Nothing else changes.
pub proof fn lemma_jmp_absolute_step(s: CpuView)
    requires
        s.mem.len() == 0x10000,
        s.pc <= 0xFFFC,
        s.mem[s.pc as int] == 0x4C,
    ensures
        step_next(s) is Some,
        ({
            let t = step_next(s)->0;
            &&& t.pc == s.mem[s.pc + 1] + 256 * s.mem[s.pc + 2]
            &&& t.a == s.a && t.x == s.x && t.y == s.y && t.sp == s.sp
            &&& t.status == s.status
            &&& t.mem == s.mem
        }),
{
    reveal(opcode_of);
}

/// The register transfers TAX, TAY, TSX, TXA, TYA copy one register into
/// another, raise zero exactly when the copied value is 0 and negative exactly
/// when its bit 7 is set, and keep every other flag. TXS copies X into the
/// stack pointer and keeps every flag. Each is one byte long.
pub proof fn lemma_transfer_step(s: CpuView)
    requires
        s.mem.len() == 0x10000,
        s.pc < 0xFFFF,
        s.mem[s.pc as int] == 0xAA || s.mem[s.pc as int] == 0xA8 || s.mem[s.pc as int] == 0xBA
            || s.mem[s.pc as int] == 0x8A || s.mem[s.pc as int] == 0x98 || s.mem[s.pc as int]
            == 0x9A,
    ensures
        step_next(s) is Some,
        ({
            let t = step_next(s)->0;
            let b = s.mem[s.pc as int];
            let v = if b == 0xAA || b == 0xA8 {
                s.a
            } else if b == 0xBA {
                s.sp
            } else if b == 0x8A || b == 0x9A {
                s.x
            } else {
                s.y
            };
            &&& t.pc == s.pc + 1
            &&& t.mem == s.mem
            &&& b == 0xAA ==> t.x == v && t.a == s.a && t.y == s.y && t.sp == s.sp
            &&& b == 0xA8 ==> t.y == v && t.a == s.a && t.x == s.x && t.sp == s.sp
            &&& b == 0xBA ==> t.x == v && t.a == s.a && t.y == s.y && t.sp == s.sp
            &&& b == 0x8A ==> t.a == v && t.x == s.x && t.y == s.y && t.sp == s.sp
            &&& b == 0x98 ==> t.a == v && t.x == s.x && t.y == s.y && t.sp == s.sp
            &&& b == 0x9A ==> t.sp == v && t.a == s.a && t.x == s.x && t.y == s.y && t.status
                == s.status
            &&& b != 0x9A ==> {
                &&& flag_set(t.status, Flag::ZERO) == (v == 0)
                &&& flag_set(t.status, Flag::NEGATIVE) == (v >= 0x80)
                &&& forall|f: Flag|
                    f != Flag::ZERO && f != Flag::NEGATIVE ==> #[trigger] flag_set(t.status, f)
                        == flag_set(s.status, f)
            }
        }),
{
    reveal(opcode_of);
    let b = s.mem[s.pc as int];
    let v = if b == 0xAA || b == 0xA8 {
        s.a
    } else if b == 0xBA {
        s.sp
    } else if b == 0x8A || b == 0x9A {
        s.x
    } else {
        s.y
    };
    lemma_zero_negative_flags(s.status, v);
}

/// The flag instructions are one byte long: CLC and SEC clear and raise carry,
/// CLI and SEI interrupt-disable, CLV clears overflow, CLD and SED clear and
/// raise decimal. Every other flag, the registers and memory are kept.
pub proof fn lemma_flag_instruction_step(s: CpuView)
    requires
        s.mem.len() == 0x10000,
        s.pc < 0xFFFF,
        s.mem[s.pc as int] == 0x18 || s.mem[s.pc as int] == 0x38 || s.mem[s.pc as int] == 0x58
            || s.mem[s.pc as int] == 0x78 || s.mem[s.pc as int] == 0xB8 || s.mem[s.pc as int]
            == 0xD8 || s.mem[s.pc as int] == 0xF8,
    ensures
        step_next(s) is Some,
        ({
            let t = step_next(s)->0;
            let b = s.mem[s.pc as int];
            let f = if b == 0x18 || b == 0x38 {
                Flag::CARRY
            } else if b == 0x58 || b == 0x78 {
                Flag::INTERRUPT
            } else if b == 0xB8 {
                Flag::OVERFLOW
            } else {
                Flag::DECIMAL
            };
            let value = b == 0x38 || b == 0x78 || b == 0xF8;
            &&& flag_set(t.status, f) == value
            &&& forall|g: Flag| g != f ==> #[trigger] flag_set(t.status, g) == flag_set(s.status, g)
            &&& t.pc == s.pc + 1
            &&& t.a == s.a && t.x == s.x && t.y == s.y && t.sp == s.sp
            &&& t.mem == s.mem
        }),
{
    reveal(opcode_of);
    let b = s.mem[s.pc as int];
    let f = if b == 0x18 || b == 0x38 {
        Flag::CARRY
    } else if b == 0x58 || b == 0x78 {
        Flag::INTERRUPT
    } else if b == 0xB8 {
        Flag::OVERFLOW
    } else {
        Flag::DECIMAL
    };
    let value = b == 0x38 || b == 0x78 || b == 0xF8;
    lemma_flag_reads_back(s.status, f, value);
    assert forall|g: Flag| g != f implies #[trigger] flag_set(with_flag(s.status, f, value), g)
        == flag_set(s.status, g) by {
        lemma_flag_keeps_others(s.status, f, g, value);
    }
}

/// The stack instructions are one byte long. PHA and PHP store the accumulator
/// and the status byte at 0x100 + SP and move SP one down (wrapping in page
/// one). PLA and PLP move SP one up (wrapping) and load the byte at 0x100 + SP:
/// PLA into the accumulator, with zero and negative describing it and the other
/// flags kept; PLP into the whole status byte, whatever it held before.
pub proof fn lemma_stack_instruction_step(s: CpuView)
    requires
        s.mem.len() == 0x10000,
        s.pc < 0xFFFF,
        s.mem[s.pc as int] == 0x48 || s.mem[s.pc as int] == 0x08 || s.mem[s.pc as int] == 0x68
            || s.mem[s.pc as int] == 0x28,
    ensures
        step_next(s) is Some,
        ({
            let t = step_next(s)->0;
            let b = s.mem[s.pc as int];
            let down = (s.sp + 255) % 256;
            let up = (s.sp + 1) % 256;
            &&& t.pc == s.pc + 1
            &&& t.x == s.x && t.y == s.y
            &&& b == 0x48 ==> t.mem == s.mem.update(0x100 + s.sp, s.a) && t.sp == down && t.a
                == s.a && t.status == s.status
            &&& b == 0x08 ==> t.mem == s.mem.update(0x100 + s.sp, s.status) && t.sp == down
                && t.a == s.a && t.status == s.status
            &&& b == 0x68 ==> {
                &&& t.a == s.mem[0x100 + up]
                &&& t.sp == up
                &&& t.mem == s.mem
                &&& flag_set(t.status, Flag::ZERO) == (t.a == 0)
                &&& flag_set(t.status, Flag::NEGATIVE) == (t.a >= 0x80)
                &&& forall|f: Flag|
                    f != Flag::ZERO && f != Flag::NEGATIVE ==> #[trigger] flag_set(t.status, f)
                        == flag_set(s.status, f)
            }
            &&& b == 0x28 ==> t.status == s.mem[0x100 + up] && t.sp == up && t.mem == s.mem
                && t.a == s.a
        }),
{
    reveal(opcode_of);
    let up = (s.sp + 1) % 256;
    lemma_zero_negative_flags(s.status, s.mem[0x100 + up]);
}

/// PHP followed by PLP gives back the status byte and the stack pointer, whatever
/// the status was. The PLP byte must not be the stack byte PHP writes.
#[verifier::rlimit(50)]
pub proof fn lemma_php_then_plp_restores_status(s: CpuView)
    requires
        s.mem.len() == 0x10000,
        s.pc <= 0xFFFD,
        s.mem[s.pc as int] == 0x08,
        s.mem[s.pc + 1] == 0x28,
        s.pc + 1 != 0x100 + s.sp,
    ensures
        step_next(s) is Some,
        step_next(step_next(s)->0) is Some,
        ({
            let t = step_next(step_next(s)->0)->0;
            &&& t.status == s.status
            &&& t.sp == s.sp
            &&& t.pc == s.pc + 2
        }),
{
    reveal(opcode_of);
    let t1 = php_next(advance(s, 1));
    assert(step_next(s) == Some(t1));
    assert(t1.mem[t1.pc as int] == 0x28);
    assert(step_next(t1) == Some(plp_next(advance(t1, 1))));
}

/// The operand address of each addressing mode, with the operand bytes at `s.pc`:
/// zero page is the operand byte; zero page,X and zero page,Y add X and Y to it
/// modulo 256; absolute is the little-endian word of the two operand bytes, and
/// absolute,X and absolute,Y add X and Y to it; indirect reads the word at that
/// word; (indirect,X) reads the word at the operand byte plus X modulo 256;
/// (indirect),Y reads the word at the operand byte and adds Y.
pub proof fn lemma_operand_addresses(s: CpuView)
    ensures
        ({
            let b = s.mem[s.pc as int];
            let w = s.mem[s.pc as int] + 256 * s.mem[s.pc + 1];
            let p = (b + s.x) % 256;
            &&& operand_address(s, AddressingMode::ZeroPage) == b
            &&& operand_address(s, AddressingMode::ZeroPageX) == (b + s.x) % 256
            &&& operand_address(s, AddressingMode::ZeroPageY) == (b + s.y) % 256
            &&& operand_address(s, AddressingMode::Absolute) == w
            &&& address_ok(s, AddressingMode::AbsoluteX) ==> operand_address(
                s,
                AddressingMode::AbsoluteX,
            ) == w + s.x
            &&& address_ok(s, AddressingMode::AbsoluteY) ==> operand_address(
                s,
                AddressingMode::AbsoluteY,
            ) == w + s.y
            &&& address_ok(s, AddressingMode::Indirect) ==> operand_address(
                s,
                AddressingMode::Indirect,
            ) == s.mem[w] + 256 * s.mem[w + 1]
            &&& operand_address(s, AddressingMode::IndirectX) == s.mem[p] + 256 * s.mem[p + 1]
            &&& address_ok(s, AddressingMode::IndirectY) ==> operand_address(
                s,
                AddressingMode::IndirectY,
            ) == s.mem[b as int] + 256 * s.mem[b + 1] + s.y
        }),
{
}

/// LDX zero page,Y loads X from the operand byte plus Y (modulo 256); STX zero
/// page,Y stores X there. Both are two bytes long.
pub proof fn lemma_zero_page_y_step(s: CpuView)
    requires
        s.mem.len() == 0x10000,
        s.pc <= 0xFFFD,
        s.mem[s.pc as int] == 0xB6 || s.mem[s.pc as int] == 0x96,
    ensures
        step_next(s) is Some,
        ({
            let t = step_next(s)->0;
            let addr = (s.mem[s.pc + 1] + s.y) % 256;
            &&& t.pc == s.pc + 2
            &&& t.a == s.a && t.y == s.y && t.sp == s.sp
            &&& s.mem[s.pc as int] == 0xB6 ==> t.x == s.mem[addr] && t.mem == s.mem
            &&& s.mem[s.pc as int] == 0x96 ==> t.x == s.x && t.mem == s.mem.update(addr, s.x)
                && t.status == s.status
        }),
{
    reveal(opcode_of);
}

/// INC absolute adds one (modulo 256) to the byte at the address made of its two
/// operand bytes, DEC absolute subtracts one (modulo 256); zero and negative
/// describe the new byte and the other flags are kept. Both are three bytes long.
pub proof fn lemma_inc_dec_absolute_step(s: CpuView)
    requires
        s.mem.len() == 0x10000,
        s.pc <= 0xFFFC,
        s.mem[s.pc as int] == 0xEE || s.mem[s.pc as int] == 0xCE,
    ensures
        step_next(s) is Some,
        ({
            let t = step_next(s)->0;
            let addr = s.mem[s.pc + 1] + 256 * s.mem[s.pc + 2];
            let new = if s.mem[s.pc as int] == 0xEE {
                (s.mem[addr] + 1) % 256
            } else {
                (s.mem[addr] + 255) % 256
            };
            &&& t.mem == s.mem.update(addr, new as u8)
            &&& t.pc == s.pc + 3
            &&& t.a == s.a && t.x == s.x && t.y == s.y && t.sp == s.sp
            &&& flag_set(t.status, Flag::ZERO) == (new == 0)
            &&& flag_set(t.status, Flag::NEGATIVE) == (new >= 0x80)
            &&& forall|f: Flag|
                f != Flag::ZERO && f != Flag::NEGATIVE ==> #[trigger] flag_set(t.status, f)
                    == flag_set(s.status, f)
        }),
{
    reveal(opcode_of);
    let addr = s.mem[s.pc + 1] + 256 * s.mem[s.pc + 2];
    let new = if s.mem[s.pc as int] == 0xEE {
        (s.mem[addr] + 1) % 256
    } else {
        (s.mem[addr] + 255) % 256
    };
    lemma_zero_negative_flags(s.status, new as u8);
}

/// The loads with an immediate operand are two bytes long: LDA, LDX and LDY
/// take the operand byte into A, X and Y; zero and negative describe it and the
/// other flags are kept.
pub proof fn lemma_load_immediate_step(s: CpuView)
    requires
        s.mem.len() == 0x10000,
        s.pc <= 0xFFFD,
        s.mem[s.pc as int] == 0xA9 || s.mem[s.pc as int] == 0xA2 || s.mem[s.pc as int] == 0xA0,
    ensures
        step_next(s) is Some,
        ({
            let t = step_next(s)->0;
            let b = s.mem[s.pc as int];
            let v = s.mem[s.pc + 1];
            &&& t.pc == s.pc + 2
            &&& t.sp == s.sp && t.mem == s.mem
            &&& b == 0xA9 ==> t.a == v && t.x == s.x && t.y == s.y
            &&& b == 0xA2 ==> t.x == v && t.a == s.a && t.y == s.y
            &&& b == 0xA0 ==> t.y == v && t.a == s.a && t.x == s.x
            &&& flag_set(t.status, Flag::ZERO) == (v == 0)
            &&& flag_set(t.status, Flag::NEGATIVE) == (v >= 0x80)
            &&& forall|f: Flag|
                f != Flag::ZERO && f != Flag::NEGATIVE ==> #[trigger] flag_set(t.status, f)
                    == flag_set(s.status, f)
        }),
{
    reveal(opcode_of);
    lemma_zero_negative_flags(s.status, s.mem[s.pc + 1]);
}

/// LDA absolute reads the byte at the little-endian address of its two operand
/// bytes; STA absolute writes the accumulator there and keeps the flags.
pub proof fn lemma_lda_sta_absolute_step(s: CpuView)
    requires
        s.mem.len() == 0x10000,
        s.pc <= 0xFFFC,
        s.mem[s.pc as int] == 0xAD || s.mem[s.pc as int] == 0x8D,
    ensures
        step_next(s) is Some,
        ({
            let t = step_next(s)->0;
            let addr = s.mem[s.pc + 1] + 256 * s.mem[s.pc + 2];
            &&& t.pc == s.pc + 3
            &&& t.x == s.x && t.y == s.y && t.sp == s.sp
            &&& s.mem[s.pc as int] == 0xAD ==> t.a == s.mem[addr] && t.mem == s.mem
            &&& s.mem[s.pc as int] == 0x8D ==> t.a == s.a && t.mem == s.mem.update(addr, s.a)
                && t.status == s.status
        }),
{
    reveal(opcode_of);
}

/// ADC immediate: with c the carry (0 or 1), A takes (A + m + c) mod 256; carry
/// is raised exactly when A + m + c exceeds 0xFF; overflow exactly when the sum of
/// A, m (as signed bytes) and c leaves -128..127; zero and negative describe the
/// new A.
pub proof fn lemma_adc_immediate_step(s: CpuView)
    requires
        s.mem.len() == 0x10000,
        s.pc <= 0xFFFD,
        s.mem[s.pc as int] == 0x69,
    ensures
        step_next(s) is Some,
        ({
            let t = step_next(s)->0;
            let m = s.mem[s.pc + 1];
            let c: int = if flag_set(s.status, Flag::CARRY) { 1 } else { 0 };
            let sa: int = if s.a < 128 { s.a as int } else { s.a - 256 };
            let sm: int = if m < 128 { m as int } else { m - 256 };
            &&& t.a == (s.a + m + c) % 256
            &&& flag_set(t.status, Flag::CARRY) == (s.a + m + c > 0xFF)
            &&& flag_set(t.status, Flag::OVERFLOW) == (sa + sm + c < -128 || sa + sm + c > 127)
            &&& flag_set(t.status, Flag::ZERO) == (t.a == 0)
            &&& flag_set(t.status, Flag::NEGATIVE) == (t.a >= 0x80)
            &&& t.pc == s.pc + 2
            &&& t.x == s.x && t.y == s.y && t.sp == s.sp && t.mem == s.mem
        }),
{
    reveal(opcode_of);
    let m = s.mem[s.pc + 1];
    let c: int = if flag_set(s.status, Flag::CARRY) { 1 } else { 0 };
    let r = ((s.a + m + c) % 256) as u8;
    let z = with_zero_negative(s.status, r);
    let zc = with_flag(z, Flag::CARRY, s.a + m + c > 0xFF);
    let sa: int = if s.a < 128 { s.a as int } else { s.a - 256 };
    let sm: int = if m < 128 { m as int } else { m - 256 };
    let ov = sa + sm + c < -128 || sa + sm + c > 127;
    lemma_zero_negative_flags(s.status, r);
    lemma_flag_reads_back(z, Flag::CARRY, s.a + m + c > 0xFF);
    lemma_flag_keeps_others(z, Flag::CARRY, Flag::ZERO, s.a + m + c > 0xFF);
    lemma_flag_keeps_others(z, Flag::CARRY, Flag::NEGATIVE, s.a + m + c > 0xFF);
    lemma_flag_reads_back(zc, Flag::OVERFLOW, ov);
    lemma_flag_keeps_others(zc, Flag::OVERFLOW, Flag::CARRY, ov);
    lemma_flag_keeps_others(zc, Flag::OVERFLOW, Flag::ZERO, ov);
    lemma_flag_keeps_others(zc, Flag::OVERFLOW, Flag::NEGATIVE, ov);
}

/// SBC immediate: with c the carry (0 or 1), A takes (A - m - (1 - c)) mod 256;
/// carry is raised exactly when A - m - (1 - c) is not negative (no borrow);
/// overflow exactly when the signed difference leaves -128..127.
pub proof fn lemma_sbc_immediate_step(s: CpuView)
    requires
        s.mem.len() == 0x10000,
        s.pc <= 0xFFFD,
        s.mem[s.pc as int] == 0xE9,
    ensures
        step_next(s) is Some,
        ({
            let t = step_next(s)->0;
            let m = s.mem[s.pc + 1];
            let c: int = if flag_set(s.status, Flag::CARRY) { 1 } else { 0 };
            let d = s.a - m - (1 - c);
            let sa: int = if s.a < 128 { s.a as int } else { s.a - 256 };
            let sm: int = if m < 128 { m as int } else { m - 256 };
            &&& t.a == (if d < 0 { d + 256 } else { d })
            &&& flag_set(t.status, Flag::CARRY) == (d >= 0)
            &&& flag_set(t.status, Flag::OVERFLOW) == (sa - sm - (1 - c) < -128 || sa - sm - (1
                - c) > 127)
            &&& flag_set(t.status, Flag::ZERO) == (t.a == 0)
            &&& flag_set(t.status, Flag::NEGATIVE) == (t.a >= 0x80)
            &&& t.pc == s.pc + 2
            &&& t.x == s.x && t.y == s.y && t.sp == s.sp && t.mem == s.mem
        }),
{
    reveal(opcode_of);
    let m = s.mem[s.pc + 1];
    let c: int = if flag_set(s.status, Flag::CARRY) { 1 } else { 0 };
    let d = s.a - m - (1 - c);
    let r = (d % 256) as u8;
    let z = with_zero_negative(s.status, r);
    lemma_zero_negative_flags(s.status, r);
    lemma_flag_reads_back(z, Flag::CARRY, d >= 0);
    lemma_flag_keeps_others(z, Flag::CARRY, Flag::ZERO, d >= 0);
    lemma_flag_keeps_others(z, Flag::CARRY, Flag::NEGATIVE, d >= 0);
    let ov = crate::cpu::instructions::alu::signed_overflow(
        crate::cpu::model::signed(s.a) - crate::cpu::model::signed(m) - (1 - c),
    );
    let zc = with_flag(z, Flag::CARRY, d >= 0);
    lemma_flag_reads_back(zc, Flag::OVERFLOW, ov);
    lemma_flag_keeps_others(zc, Flag::OVERFLOW, Flag::CARRY, ov);
    lemma_flag_keeps_others(zc, Flag::OVERFLOW, Flag::ZERO, ov);
    lemma_flag_keeps_others(zc, Flag::OVERFLOW, Flag::NEGATIVE, ov);
}

/// CMP, CPX and CPY immediate compare A, X and Y with the operand byte m:
/// carry is raised exactly when the register is at least m, zero exactly when
/// they are equal, negative exactly when bit 7 of (register - m) mod 256 is set.
/// No register changes.
pub proof fn lemma_compare_immediate_step(s: CpuView)
    requires
        s.mem.len() == 0x10000,
        s.pc <= 0xFFFD,
        s.mem[s.pc as int] == 0xC9 || s.mem[s.pc as int] == 0xE0 || s.mem[s.pc as int] == 0xC0,
    ensures
        step_next(s) is Some,
        ({
            let t = step_next(s)->0;
            let b = s.mem[s.pc as int];
            let m = s.mem[s.pc + 1];
            let r = if b == 0xC9 { s.a } else if b == 0xE0 { s.x } else { s.y };
            let d = if r >= m { r - m } else { r - m + 256 };
            &&& flag_set(t.status, Flag::CARRY) == (r >= m)
            &&& flag_set(t.status, Flag::ZERO) == (r == m)
            &&& flag_set(t.status, Flag::NEGATIVE) == (d >= 0x80)
            &&& t.pc == s.pc + 2
            &&& t.a == s.a && t.x == s.x && t.y == s.y && t.sp == s.sp && t.mem == s.mem
        }),
{
    reveal(opcode_of);
    let b = s.mem[s.pc as int];
    let m = s.mem[s.pc + 1];
    let r = if b == 0xC9 { s.a } else if b == 0xE0 { s.x } else { s.y };
    let d = ((r - m) % 256) as u8;
    let z = with_zero_negative(s.status, d);
    lemma_zero_negative_flags(s.status, d);
    lemma_flag_reads_back(z, Flag::CARRY, r >= m);
    lemma_flag_keeps_others(z, Flag::CARRY, Flag::ZERO, r >= m);
    lemma_flag_keeps_others(z, Flag::CARRY, Flag::NEGATIVE, r >= m);
}

/// INX and INY add one to X and Y, DEX and DEY subtract one, all modulo 256;
/// zero and negative describe the new value.
pub proof fn lemma_count_register_step(s: CpuView)
    requires
        s.mem.len() == 0x10000,
        s.pc < 0xFFFF,
        s.mem[s.pc as int] == 0xE8 || s.mem[s.pc as int] == 0xC8 || s.mem[s.pc as int] == 0xCA
            || s.mem[s.pc as int] == 0x88,
    ensures
        step_next(s) is Some,
        ({
            let t = step_next(s)->0;
            let b = s.mem[s.pc as int];
            &&& b == 0xE8 ==> t.x == (s.x + 1) % 256 && t.y == s.y
            &&& b == 0xC8 ==> t.y == (s.y + 1) % 256 && t.x == s.x
            &&& b == 0xCA ==> t.x == (s.x + 255) % 256 && t.y == s.y
            &&& b == 0x88 ==> t.y == (s.y + 255) % 256 && t.x == s.x
            &&& (b == 0xE8 || b == 0xCA) ==> flag_set(t.status, Flag::ZERO) == (t.x == 0)
                && flag_set(t.status, Flag::NEGATIVE) == (t.x >= 0x80)
            &&& (b == 0xC8 || b == 0x88) ==> flag_set(t.status, Flag::ZERO) == (t.y == 0)
                && flag_set(t.status, Flag::NEGATIVE) == (t.y >= 0x80)
            &&& t.pc == s.pc + 1
            &&& t.a == s.a && t.sp == s.sp && t.mem == s.mem
        }),
{
    reveal(opcode_of);
    let b = s.mem[s.pc as int];
    let v: u8 = if b == 0xE8 {
        ((s.x + 1) % 256) as u8
    } else if b == 0xC8 {
        ((s.y + 1) % 256) as u8
    } else if b == 0xCA {
        ((s.x + 255) % 256) as u8
    } else {
        ((s.y + 255) % 256) as u8
    };
    lemma_zero_negative_flags(s.status, v);
}

/// AND, ORA and EOR immediate combine A with the operand byte bit by bit (and,
/// or, exclusive or); zero and negative describe the new A.
pub proof fn lemma_logic_immediate_step(s: CpuView)
    requires
        s.mem.len() == 0x10000,
        s.pc <= 0xFFFD,
        s.mem[s.pc as int] == 0x29 || s.mem[s.pc as int] == 0x09 || s.mem[s.pc as int] == 0x49,
    ensures
        step_next(s) is Some,
        ({
            let t = step_next(s)->0;
            let b = s.mem[s.pc as int];
            let m = s.mem[s.pc + 1];
            &&& b == 0x29 ==> t.a == s.a & m
            &&& b == 0x09 ==> t.a == s.a | m
            &&& b == 0x49 ==> t.a == s.a ^ m
            &&& flag_set(t.status, Flag::ZERO) == (t.a == 0)
            &&& flag_set(t.status, Flag::NEGATIVE) == (t.a >= 0x80)
            &&& t.pc == s.pc + 2
            &&& t.x == s.x && t.y == s.y && t.sp == s.sp && t.mem == s.mem
        }),
{
    reveal(opcode_of);
    let b = s.mem[s.pc as int];
    let m = s.mem[s.pc + 1];
    let v: u8 = if b == 0x29 { s.a & m } else if b == 0x09 { s.a | m } else { s.a ^ m };
    lemma_zero_negative_flags(s.status, v);
}

/// The shifts and rotates of the accumulator are one byte long: ASL doubles A
/// modulo 256 and LSR halves it; ROL doubles it and adds the old carry, ROR
/// halves it and adds 128 times the old carry. ASL and ROL move bit 7 into
/// carry, LSR and ROR bit 0.
pub proof fn lemma_shift_accumulator_step(s: CpuView)
    requires
        s.mem.len() == 0x10000,
        s.pc < 0xFFFF,
        s.mem[s.pc as int] == 0x0A || s.mem[s.pc as int] == 0x4A || s.mem[s.pc as int] == 0x2A
            || s.mem[s.pc as int] == 0x6A,
    ensures
        step_next(s) is Some,
        ({
            let t = step_next(s)->0;
            let b = s.mem[s.pc as int];
            let c: int = if flag_set(s.status, Flag::CARRY) { 1 } else { 0 };
            &&& b == 0x0A ==> t.a == (2 * s.a) % 256 && flag_set(t.status, Flag::CARRY) == (s.a
                >= 0x80)
            &&& b == 0x4A ==> t.a == s.a / 2 && flag_set(t.status, Flag::CARRY) == (s.a % 2 == 1)
            &&& b == 0x2A ==> t.a == (2 * s.a + c) % 256 && flag_set(t.status, Flag::CARRY) == (
            s.a >= 0x80)
            &&& b == 0x6A ==> t.a == s.a / 2 + 128 * c && flag_set(t.status, Flag::CARRY) == (s.a
                % 2 == 1)
            &&& flag_set(t.status, Flag::ZERO) == (t.a == 0)
            &&& flag_set(t.status, Flag::NEGATIVE) == (t.a >= 0x80)
            &&& t.pc == s.pc + 1
            &&& t.x == s.x && t.y == s.y && t.sp == s.sp && t.mem == s.mem
        }),
{
    reveal(opcode_of);
    let b = s.mem[s.pc as int];
    let c: int = if flag_set(s.status, Flag::CARRY) { 1 } else { 0 };
    let (r, out): (u8, bool) = if b == 0x0A {
        (((2 * s.a) % 256) as u8, s.a >= 0x80)
    } else if b == 0x4A {
        ((s.a / 2) as u8, s.a % 2 == 1)
    } else if b == 0x2A {
        (((2 * s.a + c) % 256) as u8, s.a >= 0x80)
    } else {
        ((s.a / 2 + 128 * c) as u8, s.a % 2 == 1)
    };
    lemma_flag_reads_back(s.status, Flag::CARRY, out);
    lemma_zero_negative_flags(with_flag(s.status, Flag::CARRY, out), r);
}

/// JSR absolute is three bytes long: it stores the address of its last byte,
/// high byte at 0x100 + SP and low byte just below, moves SP two down (wrapping
/// in page one) and jumps to the little-endian address of its operand bytes.
/// RTS reads the low byte at 0x100 + SP + 1 and the high byte above it (wrapping
/// in page one), moves SP two up and jumps to that address plus one.
pub proof fn lemma_jsr_rts_step(s: CpuView)
    requires
        s.mem.len() == 0x10000,
        s.mem[s.pc as int] == 0x20 ==> s.pc <= 0xFFFC,
        s.mem[s.pc as int] == 0x60 ==> s.pc < 0xFFFF && !(s.mem[0x100 + (s.sp + 1) % 256] == 0xFF
            && s.mem[0x100 + (s.sp + 2) % 256] == 0xFF),
        s.mem[s.pc as int] == 0x20 || s.mem[s.pc as int] == 0x60,
    ensures
        step_next(s) is Some,
        ({
            let t = step_next(s)->0;
            let ret = s.pc + 2;
            &&& t.a == s.a && t.x == s.x && t.y == s.y && t.status == s.status
            &&& s.mem[s.pc as int] == 0x20 ==> {
                &&& t.pc == s.mem[s.pc + 1] + 256 * s.mem[s.pc + 2]
                &&& t.sp == (s.sp + 254) % 256
                &&& t.mem == s.mem.update(0x100 + s.sp, (ret / 256) as u8).update(
                    0x100 + (s.sp + 255) % 256,
                    (ret % 256) as u8,
                )
            }
            &&& s.mem[s.pc as int] == 0x60 ==> {
                &&& t.pc == s.mem[0x100 + (s.sp + 1) % 256] + 256 * s.mem[0x100 + (s.sp + 2)
                    % 256] + 1
                &&& t.sp == (s.sp + 2) % 256
                &&& t.mem == s.mem
            }
        }),
{
    reveal(opcode_of);
}

/// The opcode table, entry by entry (part 1 of 6): instruction,
/// addressing mode and cycle count of each listed byte.
pub proof fn lemma_opcode_table_part_a()
    ensures
        opcode_of(0xA9) == op(Instruction::LDA, AddressingMode::Immediate, 2),
        opcode_of(0xA5) == op(Instruction::LDA, AddressingMode::ZeroPage, 3),
        opcode_of(0xB5) == op(Instruction::LDA, AddressingMode::ZeroPageX, 4),
        opcode_of(0xAD) == op(Instruction::LDA, AddressingMode::Absolute, 4),
        opcode_of(0xBD) == op(Instruction::LDA, AddressingMode::AbsoluteX, 4),
        opcode_of(0xB9) == op(Instruction::LDA, AddressingMode::AbsoluteY, 4),
        opcode_of(0xA1) == op(Instruction::LDA, AddressingMode::IndirectX, 6),
        opcode_of(0xB1) == op(Instruction::LDA, AddressingMode::IndirectY, 5),
        opcode_of(0xA2) == op(Instruction::LDX, AddressingMode::Immediate, 2),
        opcode_of(0xA6) == op(Instruction::LDX, AddressingMode::ZeroPage, 3),
        opcode_of(0xB6) == op(Instruction::LDX, AddressingMode::ZeroPageY, 4),
        opcode_of(0xAE) == op(Instruction::LDX, AddressingMode::Absolute, 4),
        opcode_of(0xBE) == op(Instruction::LDX, AddressingMode::AbsoluteY, 4),
        opcode_of(0xA0) == op(Instruction::LDY, AddressingMode::Immediate, 2),
        opcode_of(0xA4) == op(Instruction::LDX, AddressingMode::ZeroPage, 3),
        opcode_of(0xB4) == op(Instruction::LDX, AddressingMode::ZeroPageX, 4),
        opcode_of(0xAC) == op(Instruction::LDX, AddressingMode::Absolute, 4),
        opcode_of(0xBC) == op(Instruction::LDX, AddressingMode::AbsoluteX, 4),
        opcode_of(0x85) == op(Instruction::STA, AddressingMode::ZeroPage, 3),
        opcode_of(0x95) == op(Instruction::STA, AddressingMode::ZeroPageX, 4),
        opcode_of(0x8D) == op(Instruction::STA, AddressingMode::Absolute, 4),
        opcode_of(0x9D) == op(Instruction::STA, AddressingMode::AbsoluteX, 5),
        opcode_of(0x99) == op(Instruction::STA, AddressingMode::AbsoluteY, 5),
        opcode_of(0x81) == op(Instruction::STA, AddressingMode::IndirectX, 6),
        opcode_of(0x91) == op(Instruction::STA, AddressingMode::IndirectY, 6),
        opcode_of(0x86) == op(Instruction::STX, AddressingMode::ZeroPage, 3),
{
    reveal(opcode_of);
}

/// The opcode table, entry by entry (part 2 of 6): instruction,
/// addressing mode and cycle count of each listed byte.
pub proof fn lemma_opcode_table_part_b()
    ensures
        opcode_of(0x96) == op(Instruction::STX, AddressingMode::ZeroPageY, 4),
        opcode_of(0x8E) == op(Instruction::STX, AddressingMode::Absolute, 4),
        opcode_of(0x84) == op(Instruction::STY, AddressingMode::ZeroPage, 3),
        opcode_of(0x94) == op(Instruction::STY, AddressingMode::ZeroPageX, 4),
        opcode_of(0x8C) == op(Instruction::STY, AddressingMode::Absolute, 4),
        opcode_of(0xAA) == op(Instruction::TAX, AddressingMode::Implied, 2),
        opcode_of(0xA8) == op(Instruction::TAY, AddressingMode::Implied, 2),
        opcode_of(0xBA) == op(Instruction::TSX, AddressingMode::Implied, 2),
        opcode_of(0x8A) == op(Instruction::TXA, AddressingMode::Implied, 2),
        opcode_of(0x9A) == op(Instruction::TXS, AddressingMode::Implied, 2),
        opcode_of(0x98) == op(Instruction::TYA, AddressingMode::Implied, 2),
        opcode_of(0xE6) == op(Instruction::INC, AddressingMode::ZeroPage, 5),
        opcode_of(0xF6) == op(Instruction::INC, AddressingMode::ZeroPageX, 6),
        opcode_of(0xEE) == op(Instruction::INC, AddressingMode::Absolute, 6),
        opcode_of(0xFE) == op(Instruction::INC, AddressingMode::AbsoluteX, 7),
        opcode_of(0xE8) == op(Instruction::INX, AddressingMode::Implied, 2),
        opcode_of(0xC8) == op(Instruction::INY, AddressingMode::Implied, 2),
        opcode_of(0xC6) == op(Instruction::DEC, AddressingMode::ZeroPage, 5),
        opcode_of(0xD6) == op(Instruction::DEC, AddressingMode::ZeroPageX, 6),
        opcode_of(0xCE) == op(Instruction::DEC, AddressingMode::Absolute, 6),
        opcode_of(0xDE) == op(Instruction::DEC, AddressingMode::AbsoluteX, 7),
        opcode_of(0xCA) == op(Instruction::DEX, AddressingMode::Implied, 2),
        opcode_of(0x88) == op(Instruction::DEY, AddressingMode::Implied, 2),
        opcode_of(0x69) == op(Instruction::ADC, AddressingMode::Immediate, 2),
        opcode_of(0x65) == op(Instruction::ADC, AddressingMode::ZeroPage, 3),
        opcode_of(0x75) == op(Instruction::ADC, AddressingMode::ZeroPageX, 4),
{
    reveal(opcode_of);
}

/// The opcode table, entry by entry (part 3 of 6): instruction,
/// addressing mode and cycle count of each listed byte.
pub proof fn lemma_opcode_table_part_c()
    ensures
        opcode_of(0x6D) == op(Instruction::ADC, AddressingMode::Absolute, 4),
        opcode_of(0x7D) == op(Instruction::ADC, AddressingMode::AbsoluteX, 4),
        opcode_of(0x79) == op(Instruction::ADC, AddressingMode::AbsoluteY, 4),
        opcode_of(0x61) == op(Instruction::ADC, AddressingMode::IndirectX, 6),
        opcode_of(0x71) == op(Instruction::ADC, AddressingMode::IndirectY, 5),
        opcode_of(0xE9) == op(Instruction::SBC, AddressingMode::Immediate, 2),
        opcode_of(0xE5) == op(Instruction::SBC, AddressingMode::ZeroPage, 3),
        opcode_of(0xF5) == op(Instruction::SBC, AddressingMode::ZeroPageX, 4),
        opcode_of(0xED) == op(Instruction::SBC, AddressingMode::Absolute, 4),
        opcode_of(0xFD) == op(Instruction::SBC, AddressingMode::AbsoluteX, 4),
        opcode_of(0xF9) == op(Instruction::SBC, AddressingMode::AbsoluteY, 4),
        opcode_of(0xE1) == op(Instruction::SBC, AddressingMode::IndirectX, 6),
        opcode_of(0xF1) == op(Instruction::SBC, AddressingMode::IndirectY, 5),
        opcode_of(0xC9) == op(Instruction::CMP, AddressingMode::Immediate, 2),
        opcode_of(0xC5) == op(Instruction::CMP, AddressingMode::ZeroPage, 3),
        opcode_of(0xD5) == op(Instruction::CMP, AddressingMode::ZeroPageX, 4),
        opcode_of(0xCD) == op(Instruction::CMP, AddressingMode::Absolute, 4),
        opcode_of(0xDD) == op(Instruction::CMP, AddressingMode::AbsoluteX, 4),
        opcode_of(0xD9) == op(Instruction::CMP, AddressingMode::AbsoluteY, 4),
        opcode_of(0xC1) == op(Instruction::CMP, AddressingMode::IndirectX, 6),
        opcode_of(0xD1) == op(Instruction::CMP, AddressingMode::IndirectY, 5),
        opcode_of(0xE0) == op(Instruction::CPX, AddressingMode::Immediate, 2),
        opcode_of(0xE4) == op(Instruction::CPX, AddressingMode::ZeroPage, 3),
        opcode_of(0xEC) == op(Instruction::CPX, AddressingMode::Absolute, 4),
        opcode_of(0xC0) == op(Instruction::CPY, AddressingMode::Immediate, 2),
        opcode_of(0xC4) == op(Instruction::CPY, AddressingMode::ZeroPage, 3),
{
    reveal(opcode_of);
}

/// The opcode table, entry by entry (part 4 of 6): instruction,
/// addressing mode and cycle count of each listed byte.
pub proof fn lemma_opcode_table_part_d()
    ensures
        opcode_of(0xCC) == op(Instruction::CPY, AddressingMode::Absolute, 4),
        opcode_of(0x29) == op(Instruction::AND, AddressingMode::Immediate, 2),
        opcode_of(0x25) == op(Instruction::AND, AddressingMode::ZeroPage, 3),
        opcode_of(0x35) == op(Instruction::AND, AddressingMode::ZeroPageX, 4),
        opcode_of(0x2D) == op(Instruction::AND, AddressingMode::Absolute, 4),
        opcode_of(0x3D) == op(Instruction::AND, AddressingMode::AbsoluteX, 4),
        opcode_of(0x39) == op(Instruction::AND, AddressingMode::AbsoluteY, 4),
        opcode_of(0x21) == op(Instruction::AND, AddressingMode::IndirectX, 6),
        opcode_of(0x31) == op(Instruction::AND, AddressingMode::IndirectY, 5),
        opcode_of(0x09) == op(Instruction::ORA, AddressingMode::Immediate, 2),
        opcode_of(0x05) == op(Instruction::ORA, AddressingMode::ZeroPage, 3),
        opcode_of(0x15) == op(Instruction::ORA, AddressingMode::ZeroPageX, 4),
        opcode_of(0x0D) == op(Instruction::ORA, AddressingMode::Absolute, 4),
        opcode_of(0x1D) == op(Instruction::ORA, AddressingMode::AbsoluteX, 4),
        opcode_of(0x19) == op(Instruction::ORA, AddressingMode::AbsoluteY, 4),
        opcode_of(0x01) == op(Instruction::ORA, AddressingMode::IndirectX, 6),
        opcode_of(0x11) == op(Instruction::ORA, AddressingMode::IndirectY, 5),
        opcode_of(0x49) == op(Instruction::EOR, AddressingMode::Immediate, 2),
        opcode_of(0x45) == op(Instruction::EOR, AddressingMode::ZeroPage, 3),
        opcode_of(0x55) == op(Instruction::EOR, AddressingMode::ZeroPageX, 4),
        opcode_of(0x4D) == op(Instruction::EOR, AddressingMode::Absolute, 4),
        opcode_of(0x5D) == op(Instruction::EOR, AddressingMode::AbsoluteX, 4),
        opcode_of(0x59) == op(Instruction::EOR, AddressingMode::AbsoluteY, 4),
        opcode_of(0x41) == op(Instruction::EOR, AddressingMode::IndirectX, 6),
        opcode_of(0x51) == op(Instruction::EOR, AddressingMode::IndirectY, 5),
        opcode_of(0x24) == op(Instruction::BIT, AddressingMode::ZeroPage, 3),
{
    reveal(opcode_of);
}

/// The opcode table, entry by entry (part 5 of 6): instruction,
/// addressing mode and cycle count of each listed byte.
pub proof fn lemma_opcode_table_part_e()
    ensures
        opcode_of(0x2C) == op(Instruction::BIT, AddressingMode::Absolute, 4),
        opcode_of(0x0A) == op(Instruction::ASL, AddressingMode::Accumulator, 2),
        opcode_of(0x06) == op(Instruction::ASL, AddressingMode::ZeroPage, 5),
        opcode_of(0x16) == op(Instruction::ASL, AddressingMode::ZeroPageX, 6),
        opcode_of(0x0E) == op(Instruction::ASL, AddressingMode::Absolute, 6),
        opcode_of(0x1E) == op(Instruction::ASL, AddressingMode::AbsoluteX, 7),
        opcode_of(0x4A) == op(Instruction::LSR, AddressingMode::Accumulator, 2),
        opcode_of(0x46) == op(Instruction::LSR, AddressingMode::ZeroPage, 5),
        opcode_of(0x56) == op(Instruction::LSR, AddressingMode::ZeroPageX, 6),
        opcode_of(0x4E) == op(Instruction::LSR, AddressingMode::Absolute, 6),
        opcode_of(0x5E) == op(Instruction::LSR, AddressingMode::AbsoluteX, 7),
        opcode_of(0x2A) == op(Instruction::ROL, AddressingMode::Accumulator, 2),
        opcode_of(0x26) == op(Instruction::ROL, AddressingMode::ZeroPage, 5),
        opcode_of(0x36) == op(Instruction::ROL, AddressingMode::ZeroPageX, 6),
        opcode_of(0x2E) == op(Instruction::ROL, AddressingMode::Absolute, 6),
        opcode_of(0x3E) == op(Instruction::ROL, AddressingMode::AbsoluteX, 7),
        opcode_of(0x6A) == op(Instruction::ROR, AddressingMode::Accumulator, 2),
        opcode_of(0x66) == op(Instruction::ROR, AddressingMode::ZeroPage, 5),
        opcode_of(0x76) == op(Instruction::ROR, AddressingMode::ZeroPageX, 6),
        opcode_of(0x6E) == op(Instruction::ROR, AddressingMode::Absolute, 6),
        opcode_of(0x7E) == op(Instruction::ROR, AddressingMode::AbsoluteX, 7),
        opcode_of(0x4C) == op(Instruction::JMP, AddressingMode::Absolute, 3),
        opcode_of(0x6C) == op(Instruction::JMP, AddressingMode::Indirect, 5),
        opcode_of(0x18) == op(Instruction::CLC, AddressingMode::Implied, 2),
        opcode_of(0xD8) == op(Instruction::CLD, AddressingMode::Implied, 2),
        opcode_of(0x58) == op(Instruction::CLI, AddressingMode::Implied, 2),
{
    reveal(opcode_of);
}

/// The opcode table, entry by entry (part 6 of 6): instruction,
/// addressing mode and cycle count of each listed byte.
pub proof fn lemma_opcode_table_part_f()
    ensures
        opcode_of(0xB8) == op(Instruction::CLV, AddressingMode::Implied, 2),
        opcode_of(0x38) == op(Instruction::SEC, AddressingMode::Implied, 2),
        opcode_of(0xF8) == op(Instruction::SED, AddressingMode::Implied, 2),
        opcode_of(0x78) == op(Instruction::SEI, AddressingMode::Implied, 2),
        opcode_of(0xF0) == op(Instruction::BEQ, AddressingMode::Relative, 2),
        opcode_of(0xD0) == op(Instruction::BNE, AddressingMode::Relative, 2),
        opcode_of(0x90) == op(Instruction::BCC, AddressingMode::Relative, 2),
        opcode_of(0xB0) == op(Instruction::BCS, AddressingMode::Relative, 2),
        opcode_of(0x50) == op(Instruction::BVC, AddressingMode::Relative, 2),
        opcode_of(0x70) == op(Instruction::BVS, AddressingMode::Relative, 2),
        opcode_of(0x30) == op(Instruction::BMI, AddressingMode::Relative, 2),
        opcode_of(0x10) == op(Instruction::BPL, AddressingMode::Relative, 2),
        opcode_of(0x48) == op(Instruction::PHA, AddressingMode::Implied, 3),
        opcode_of(0x68) == op(Instruction::PLA, AddressingMode::Implied, 4),
        opcode_of(0x08) == op(Instruction::PHP, AddressingMode::Implied, 3),
        opcode_of(0x28) == op(Instruction::PLP, AddressingMode::Implied, 4),
        opcode_of(0x20) == op(Instruction::JSR, AddressingMode::Absolute, 6),
        opcode_of(0x60) == op(Instruction::RTS, AddressingMode::Implied, 6),
        opcode_of(0x00) == op(Instruction::BRK, AddressingMode::Implied, 7),
        opcode_of(0x40) == op(Instruction::RTI, AddressingMode::Implied, 6),
        opcode_of(0xEA) == op(Instruction::RTI, AddressingMode::Implied, 2),
{
    reveal(opcode_of);
}

/// Every byte that the opcode table does not list is a no-operation that takes
/// no cycle.
#[verifier::rlimit(100)]
pub proof fn lemma_opcode_table_unlisted(byte: u8)
    requires
        byte != 0xA9,
        byte != 0xA5,
        byte != 0xB5,
        byte != 0xAD,
        byte != 0xBD,
        byte != 0xB9,
        byte != 0xA1,
        byte != 0xB1,
        byte != 0xA2,
        byte != 0xA6,
        byte != 0xB6,
        byte != 0xAE,
        byte != 0xBE,
        byte != 0xA0,
        byte != 0xA4,
        byte != 0xB4,
        byte != 0xAC,
        byte != 0xBC,
        byte != 0x85,
        byte != 0x95,
        byte != 0x8D,
        byte != 0x9D,
        byte != 0x99,
        byte != 0x81,
        byte != 0x91,
        byte != 0x86,
        byte != 0x96,
        byte != 0x8E,
        byte != 0x84,
        byte != 0x94,
        byte != 0x8C,
        byte != 0xAA,
        byte != 0xA8,
        byte != 0xBA,
        byte != 0x8A,
        byte != 0x9A,
        byte != 0x98,
        byte != 0xE6,
        byte != 0xF6,
        byte != 0xEE,
        byte != 0xFE,
        byte != 0xE8,
        byte != 0xC8,
        byte != 0xC6,
        byte != 0xD6,
        byte != 0xCE,
        byte != 0xDE,
        byte != 0xCA,
        byte != 0x88,
        byte != 0x69,
        byte != 0x65,
        byte != 0x75,
        byte != 0x6D,
        byte != 0x7D,
        byte != 0x79,
        byte != 0x61,
        byte != 0x71,
        byte != 0xE9,
        byte != 0xE5,
        byte != 0xF5,
        byte != 0xED,
        byte != 0xFD,
        byte != 0xF9,
        byte != 0xE1,
        byte != 0xF1,
        byte != 0xC9,
        byte != 0xC5,
        byte != 0xD5,
        byte != 0xCD,
        byte != 0xDD,
        byte != 0xD9,
        byte != 0xC1,
        byte != 0xD1,
        byte != 0xE0,
        byte != 0xE4,
        byte != 0xEC,
        byte != 0xC0,
        byte != 0xC4,
        byte != 0xCC,
        byte != 0x29,
        byte != 0x25,
        byte != 0x35,
        byte != 0x2D,
        byte != 0x3D,
        byte != 0x39,
        byte != 0x21,
        byte != 0x31,
        byte != 0x09,
        byte != 0x05,
        byte != 0x15,
        byte != 0x0D,
        byte != 0x1D,
        byte != 0x19,
        byte != 0x01,
        byte != 0x11,
        byte != 0x49,
        byte != 0x45,
        byte != 0x55,
        byte != 0x4D,
        byte != 0x5D,
        byte != 0x59,
        byte != 0x41,
        byte != 0x51,
        byte != 0x24,
        byte != 0x2C,
        byte != 0x0A,
        byte != 0x06,
        byte != 0x16,
        byte != 0x0E,
        byte != 0x1E,
        byte != 0x4A,
        byte != 0x46,
        byte != 0x56,
        byte != 0x4E,
        byte != 0x5E,
        byte != 0x2A,
        byte != 0x26,
        byte != 0x36,
        byte != 0x2E,
        byte != 0x3E,
        byte != 0x6A,
        byte != 0x66,
        byte != 0x76,
        byte != 0x6E,
        byte != 0x7E,
        byte != 0x4C,
        byte != 0x6C,
        byte != 0x18,
        byte != 0xD8,
        byte != 0x58,
        byte != 0xB8,
        byte != 0x38,
        byte != 0xF8,
        byte != 0x78,
        byte != 0xF0,
        byte != 0xD0,
        byte != 0x90,
        byte != 0xB0,
        byte != 0x50,
        byte != 0x70,
        byte != 0x30,
        byte != 0x10,
        byte != 0x48,
        byte != 0x68,
        byte != 0x08,
        byte != 0x28,
        byte != 0x20,
        byte != 0x60,
        byte != 0x00,
        byte != 0x40,
        byte != 0xEA,
    ensures
        opcode_of(byte) == op(Instruction::NOP, AddressingMode::Implied, 0),
{
    reveal(opcode_of);
}

} // verus!
