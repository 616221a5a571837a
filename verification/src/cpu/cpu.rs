use vstd::prelude::*;
use crate::cpu::flags::Flags;
use crate::cpu::memory::Memory;
use crate::cpu::flags::Flag;
use crate::cpu::instructions::alu::{adc_next, compare_next, sbc_next};
use crate::cpu::instructions::branch::{branch_next, jmp_next, jsr_next, rts_next};
use crate::cpu::instructions::flag::flag_op_next;
use crate::cpu::instructions::increment::{dec_next, dex_next, dey_next, inc_next, inx_next, iny_next};
use crate::cpu::instructions::interrupt::{brk_next, rti_next};
use crate::cpu::instructions::load_store::{lda_next, ldx_next, ldy_next, store_next};
use crate::cpu::instructions::logic::{and_next, bit_next, eor_next, ora_next};
use crate::cpu::instructions::shift::{asl_next, lsr_next, rol_next, ror_next};
use crate::cpu::instructions::stack::{pha_next, php_next, pla_next, plp_next};
use crate::cpu::instructions::transfer::{tax_next, tay_next, tsx_next, txa_next, txs_next, tya_next};
use crate::cpu::model::{
    CpuView, address_ok, advance, after_operand, operand_address, operand_value, rmw_ok,
    rmw_value, top_word, word_at,
};
use crate::cpu::registers::Registers;
use crate::cpu::stack::{STACK_BASE, Stack, lemma_make_word};

verus! {

/// The processor: program counter, registers, stack pointer, status and memory.
pub struct CPU {
    pub program_counter: u16,
    pub register: Registers,
    pub stack: Stack,
    pub status: Flags,
    pub memory: Memory,
}

impl View for CPU {
    type V = CpuView;

    open spec fn view(&self) -> CpuView {
        CpuView {
            pc: self.program_counter,
            a: self.register.a,
            x: self.register.x,
            y: self.register.y,
            sp: self.stack@,
            status: self.status@,
            mem: self.memory@,
        }
    }
}

/// How an instruction finds its operand.
#[derive(Copy, Clone, Debug, PartialEq, Eq, Structural)]
pub enum AddressingMode {
    Implied,
    Relative,
    Immediate,
    Accumulator,
    ZeroPage,
    ZeroPageX,
    ZeroPageY,
    Absolute,
    AbsoluteX,
    AbsoluteY,
    Indirect,
    IndirectX,
    IndirectY,
}

/// The operation of an opcode.
#[derive(Copy, Clone, Debug, PartialEq, Eq, Structural)]
pub enum Instruction {
    LDA,
    LDX,
    LDY,
    STA,
    STX,
    STY,
    TAX,
    TAY,
    TSX,
    TXA,
    TXS,
    TYA,
    INC,
    INX,
    INY,
    DEC,
    DEX,
    DEY,
    ADC,
    SBC,
    CMP,
    CPX,
    CPY,
    AND,
    ORA,
    EOR,
    BIT,
    ASL,
    LSR,
    ROL,
    ROR,
    JMP,
    CLC,
    CLD,
    CLI,
    CLV,
    SEC,
    SED,
    SEI,
    BEQ,
    BNE,
    BCC,
    BCS,
    BVC,
    BVS,
    BMI,
    BPL,
    PHA,
    PLA,
    PHP,
    PLP,
    JSR,
    RTS,
    BRK,
    RTI,
    NOP,
}

/// What one opcode byte means: operation, addressing mode and cycle count.
#[derive(Copy, Clone, Debug, PartialEq, Eq, Structural)]
pub struct Opcode {
    pub instruction: Instruction,
    pub mode: AddressingMode,
    pub cycles: u8,
}

/// Builds an opcode entry.
#[verifier::allow_in_spec]
pub fn op(instruction: Instruction, mode: AddressingMode, cycles: u8) -> Opcode
    returns
        (Opcode { instruction, mode, cycles }),
{
    Opcode { instruction, mode, cycles }
}

/// The opcode table: what each byte means. Bytes that are not listed are
/// illegal opcodes, executed as a no-operation that takes no cycle.
#[verifier::opaque]
pub open spec fn opcode_of(byte: u8) -> Opcode {
    match byte {
        0xA9 => op(Instruction::LDA, AddressingMode::Immediate, 2),
        0xA5 => op(Instruction::LDA, AddressingMode::ZeroPage, 3),
        0xB5 => op(Instruction::LDA, AddressingMode::ZeroPageX, 4),
        0xAD => op(Instruction::LDA, AddressingMode::Absolute, 4),
        0xBD => op(Instruction::LDA, AddressingMode::AbsoluteX, 4),
        0xB9 => op(Instruction::LDA, AddressingMode::AbsoluteY, 4),
        0xA1 => op(Instruction::LDA, AddressingMode::IndirectX, 6),
        0xB1 => op(Instruction::LDA, AddressingMode::IndirectY, 5),
        0xA2 => op(Instruction::LDX, AddressingMode::Immediate, 2),
        0xA6 => op(Instruction::LDX, AddressingMode::ZeroPage, 3),
        0xB6 => op(Instruction::LDX, AddressingMode::ZeroPageY, 4),
        0xAE => op(Instruction::LDX, AddressingMode::Absolute, 4),
        0xBE => op(Instruction::LDX, AddressingMode::AbsoluteY, 4),
        0xA0 => op(Instruction::LDY, AddressingMode::Immediate, 2),
        0xA4 => op(Instruction::LDX, AddressingMode::ZeroPage, 3),
        0xB4 => op(Instruction::LDX, AddressingMode::ZeroPageX, 4),
        0xAC => op(Instruction::LDX, AddressingMode::Absolute, 4),
        0xBC => op(Instruction::LDX, AddressingMode::AbsoluteX, 4),
        0x85 => op(Instruction::STA, AddressingMode::ZeroPage, 3),
        0x95 => op(Instruction::STA, AddressingMode::ZeroPageX, 4),
        0x8D => op(Instruction::STA, AddressingMode::Absolute, 4),
        0x9D => op(Instruction::STA, AddressingMode::AbsoluteX, 5),
        0x99 => op(Instruction::STA, AddressingMode::AbsoluteY, 5),
        0x81 => op(Instruction::STA, AddressingMode::IndirectX, 6),
        0x91 => op(Instruction::STA, AddressingMode::IndirectY, 6),
        0x86 => op(Instruction::STX, AddressingMode::ZeroPage, 3),
        0x96 => op(Instruction::STX, AddressingMode::ZeroPageY, 4),
        0x8E => op(Instruction::STX, AddressingMode::Absolute, 4),
        0x84 => op(Instruction::STY, AddressingMode::ZeroPage, 3),
        0x94 => op(Instruction::STY, AddressingMode::ZeroPageX, 4),
        0x8C => op(Instruction::STY, AddressingMode::Absolute, 4),
        0xAA => op(Instruction::TAX, AddressingMode::Implied, 2),
        0xA8 => op(Instruction::TAY, AddressingMode::Implied, 2),
        0xBA => op(Instruction::TSX, AddressingMode::Implied, 2),
        0x8A => op(Instruction::TXA, AddressingMode::Implied, 2),
        0x9A => op(Instruction::TXS, AddressingMode::Implied, 2),
        0x98 => op(Instruction::TYA, AddressingMode::Implied, 2),
        0xE6 => op(Instruction::INC, AddressingMode::ZeroPage, 5),
        0xF6 => op(Instruction::INC, AddressingMode::ZeroPageX, 6),
        0xEE => op(Instruction::INC, AddressingMode::Absolute, 6),
        0xFE => op(Instruction::INC, AddressingMode::AbsoluteX, 7),
        0xE8 => op(Instruction::INX, AddressingMode::Implied, 2),
        0xC8 => op(Instruction::INY, AddressingMode::Implied, 2),
        0xC6 => op(Instruction::DEC, AddressingMode::ZeroPage, 5),
        0xD6 => op(Instruction::DEC, AddressingMode::ZeroPageX, 6),
        0xCE => op(Instruction::DEC, AddressingMode::Absolute, 6),
        0xDE => op(Instruction::DEC, AddressingMode::AbsoluteX, 7),
        0xCA => op(Instruction::DEX, AddressingMode::Implied, 2),
        0x88 => op(Instruction::DEY, AddressingMode::Implied, 2),
        0x69 => op(Instruction::ADC, AddressingMode::Immediate, 2),
        0x65 => op(Instruction::ADC, AddressingMode::ZeroPage, 3),
        0x75 => op(Instruction::ADC, AddressingMode::ZeroPageX, 4),
        0x6D => op(Instruction::ADC, AddressingMode::Absolute, 4),
        0x7D => op(Instruction::ADC, AddressingMode::AbsoluteX, 4),
        0x79 => op(Instruction::ADC, AddressingMode::AbsoluteY, 4),
        0x61 => op(Instruction::ADC, AddressingMode::IndirectX, 6),
        0x71 => op(Instruction::ADC, AddressingMode::IndirectY, 5),
        0xE9 => op(Instruction::SBC, AddressingMode::Immediate, 2),
        0xE5 => op(Instruction::SBC, AddressingMode::ZeroPage, 3),
        0xF5 => op(Instruction::SBC, AddressingMode::ZeroPageX, 4),
        0xED => op(Instruction::SBC, AddressingMode::Absolute, 4),
        0xFD => op(Instruction::SBC, AddressingMode::AbsoluteX, 4),
        0xF9 => op(Instruction::SBC, AddressingMode::AbsoluteY, 4),
        0xE1 => op(Instruction::SBC, AddressingMode::IndirectX, 6),
        0xF1 => op(Instruction::SBC, AddressingMode::IndirectY, 5),
        0xC9 => op(Instruction::CMP, AddressingMode::Immediate, 2),
        0xC5 => op(Instruction::CMP, AddressingMode::ZeroPage, 3),
        0xD5 => op(Instruction::CMP, AddressingMode::ZeroPageX, 4),
        0xCD => op(Instruction::CMP, AddressingMode::Absolute, 4),
        0xDD => op(Instruction::CMP, AddressingMode::AbsoluteX, 4),
        0xD9 => op(Instruction::CMP, AddressingMode::AbsoluteY, 4),
        0xC1 => op(Instruction::CMP, AddressingMode::IndirectX, 6),
        0xD1 => op(Instruction::CMP, AddressingMode::IndirectY, 5),
        0xE0 => op(Instruction::CPX, AddressingMode::Immediate, 2),
        0xE4 => op(Instruction::CPX, AddressingMode::ZeroPage, 3),
        0xEC => op(Instruction::CPX, AddressingMode::Absolute, 4),
        0xC0 => op(Instruction::CPY, AddressingMode::Immediate, 2),
        0xC4 => op(Instruction::CPY, AddressingMode::ZeroPage, 3),
        0xCC => op(Instruction::CPY, AddressingMode::Absolute, 4),
        0x29 => op(Instruction::AND, AddressingMode::Immediate, 2),
        0x25 => op(Instruction::AND, AddressingMode::ZeroPage, 3),
        0x35 => op(Instruction::AND, AddressingMode::ZeroPageX, 4),
        0x2D => op(Instruction::AND, AddressingMode::Absolute, 4),
        0x3D => op(Instruction::AND, AddressingMode::AbsoluteX, 4),
        0x39 => op(Instruction::AND, AddressingMode::AbsoluteY, 4),
        0x21 => op(Instruction::AND, AddressingMode::IndirectX, 6),
        0x31 => op(Instruction::AND, AddressingMode::IndirectY, 5),
        0x09 => op(Instruction::ORA, AddressingMode::Immediate, 2),
        0x05 => op(Instruction::ORA, AddressingMode::ZeroPage, 3),
        0x15 => op(Instruction::ORA, AddressingMode::ZeroPageX, 4),
        0x0D => op(Instruction::ORA, AddressingMode::Absolute, 4),
        0x1D => op(Instruction::ORA, AddressingMode::AbsoluteX, 4),
        0x19 => op(Instruction::ORA, AddressingMode::AbsoluteY, 4),
        0x01 => op(Instruction::ORA, AddressingMode::IndirectX, 6),
        0x11 => op(Instruction::ORA, AddressingMode::IndirectY, 5),
        0x49 => op(Instruction::EOR, AddressingMode::Immediate, 2),
        0x45 => op(Instruction::EOR, AddressingMode::ZeroPage, 3),
        0x55 => op(Instruction::EOR, AddressingMode::ZeroPageX, 4),
        0x4D => op(Instruction::EOR, AddressingMode::Absolute, 4),
        0x5D => op(Instruction::EOR, AddressingMode::AbsoluteX, 4),
        0x59 => op(Instruction::EOR, AddressingMode::AbsoluteY, 4),
        0x41 => op(Instruction::EOR, AddressingMode::IndirectX, 6),
        0x51 => op(Instruction::EOR, AddressingMode::IndirectY, 5),
        0x24 => op(Instruction::BIT, AddressingMode::ZeroPage, 3),
        0x2C => op(Instruction::BIT, AddressingMode::Absolute, 4),
        0x0A => op(Instruction::ASL, AddressingMode::Accumulator, 2),
        0x06 => op(Instruction::ASL, AddressingMode::ZeroPage, 5),
        0x16 => op(Instruction::ASL, AddressingMode::ZeroPageX, 6),
        0x0E => op(Instruction::ASL, AddressingMode::Absolute, 6),
        0x1E => op(Instruction::ASL, AddressingMode::AbsoluteX, 7),
        0x4A => op(Instruction::LSR, AddressingMode::Accumulator, 2),
        0x46 => op(Instruction::LSR, AddressingMode::ZeroPage, 5),
        0x56 => op(Instruction::LSR, AddressingMode::ZeroPageX, 6),
        0x4E => op(Instruction::LSR, AddressingMode::Absolute, 6),
        0x5E => op(Instruction::LSR, AddressingMode::AbsoluteX, 7),
        0x2A => op(Instruction::ROL, AddressingMode::Accumulator, 2),
        0x26 => op(Instruction::ROL, AddressingMode::ZeroPage, 5),
        0x36 => op(Instruction::ROL, AddressingMode::ZeroPageX, 6),
        0x2E => op(Instruction::ROL, AddressingMode::Absolute, 6),
        0x3E => op(Instruction::ROL, AddressingMode::AbsoluteX, 7),
        0x6A => op(Instruction::ROR, AddressingMode::Accumulator, 2),
        0x66 => op(Instruction::ROR, AddressingMode::ZeroPage, 5),
        0x76 => op(Instruction::ROR, AddressingMode::ZeroPageX, 6),
        0x6E => op(Instruction::ROR, AddressingMode::Absolute, 6),
        0x7E => op(Instruction::ROR, AddressingMode::AbsoluteX, 7),
        0x4C => op(Instruction::JMP, AddressingMode::Absolute, 3),
        0x6C => op(Instruction::JMP, AddressingMode::Indirect, 5),
        0x18 => op(Instruction::CLC, AddressingMode::Implied, 2),
        0xD8 => op(Instruction::CLD, AddressingMode::Implied, 2),
        0x58 => op(Instruction::CLI, AddressingMode::Implied, 2),
        0xB8 => op(Instruction::CLV, AddressingMode::Implied, 2),
        0x38 => op(Instruction::SEC, AddressingMode::Implied, 2),
        0xF8 => op(Instruction::SED, AddressingMode::Implied, 2),
        0x78 => op(Instruction::SEI, AddressingMode::Implied, 2),
        0xF0 => op(Instruction::BEQ, AddressingMode::Relative, 2),
        0xD0 => op(Instruction::BNE, AddressingMode::Relative, 2),
        0x90 => op(Instruction::BCC, AddressingMode::Relative, 2),
        0xB0 => op(Instruction::BCS, AddressingMode::Relative, 2),
        0x50 => op(Instruction::BVC, AddressingMode::Relative, 2),
        0x70 => op(Instruction::BVS, AddressingMode::Relative, 2),
        0x30 => op(Instruction::BMI, AddressingMode::Relative, 2),
        0x10 => op(Instruction::BPL, AddressingMode::Relative, 2),
        0x48 => op(Instruction::PHA, AddressingMode::Implied, 3),
        0x68 => op(Instruction::PLA, AddressingMode::Implied, 4),
        0x08 => op(Instruction::PHP, AddressingMode::Implied, 3),
        0x28 => op(Instruction::PLP, AddressingMode::Implied, 4),
        0x20 => op(Instruction::JSR, AddressingMode::Absolute, 6),
        0x60 => op(Instruction::RTS, AddressingMode::Implied, 6),
        0x00 => op(Instruction::BRK, AddressingMode::Implied, 7),
        0x40 => op(Instruction::RTI, AddressingMode::Implied, 6),
        0xEA => op(Instruction::RTI, AddressingMode::Implied, 2),
        _ => op(Instruction::NOP, AddressingMode::Implied, 0),
    }
}

/// Decodes one opcode byte.
#[verifier::rlimit(100)]
pub fn decode(byte: u8) -> (opcode: Opcode)
    ensures
        opcode == opcode_of(byte),
{
    reveal(opcode_of);
    match byte {
        0xA9 => op(Instruction::LDA, AddressingMode::Immediate, 2),
        0xA5 => op(Instruction::LDA, AddressingMode::ZeroPage, 3),
        0xB5 => op(Instruction::LDA, AddressingMode::ZeroPageX, 4),
        0xAD => op(Instruction::LDA, AddressingMode::Absolute, 4),
        0xBD => op(Instruction::LDA, AddressingMode::AbsoluteX, 4),
        0xB9 => op(Instruction::LDA, AddressingMode::AbsoluteY, 4),
        0xA1 => op(Instruction::LDA, AddressingMode::IndirectX, 6),
        0xB1 => op(Instruction::LDA, AddressingMode::IndirectY, 5),
        0xA2 => op(Instruction::LDX, AddressingMode::Immediate, 2),
        0xA6 => op(Instruction::LDX, AddressingMode::ZeroPage, 3),
        0xB6 => op(Instruction::LDX, AddressingMode::ZeroPageY, 4),
        0xAE => op(Instruction::LDX, AddressingMode::Absolute, 4),
        0xBE => op(Instruction::LDX, AddressingMode::AbsoluteY, 4),
        0xA0 => op(Instruction::LDY, AddressingMode::Immediate, 2),
        0xA4 => op(Instruction::LDX, AddressingMode::ZeroPage, 3),
        0xB4 => op(Instruction::LDX, AddressingMode::ZeroPageX, 4),
        0xAC => op(Instruction::LDX, AddressingMode::Absolute, 4),
        0xBC => op(Instruction::LDX, AddressingMode::AbsoluteX, 4),
        0x85 => op(Instruction::STA, AddressingMode::ZeroPage, 3),
        0x95 => op(Instruction::STA, AddressingMode::ZeroPageX, 4),
        0x8D => op(Instruction::STA, AddressingMode::Absolute, 4),
        0x9D => op(Instruction::STA, AddressingMode::AbsoluteX, 5),
        0x99 => op(Instruction::STA, AddressingMode::AbsoluteY, 5),
        0x81 => op(Instruction::STA, AddressingMode::IndirectX, 6),
        0x91 => op(Instruction::STA, AddressingMode::IndirectY, 6),
        0x86 => op(Instruction::STX, AddressingMode::ZeroPage, 3),
        0x96 => op(Instruction::STX, AddressingMode::ZeroPageY, 4),
        0x8E => op(Instruction::STX, AddressingMode::Absolute, 4),
        0x84 => op(Instruction::STY, AddressingMode::ZeroPage, 3),
        0x94 => op(Instruction::STY, AddressingMode::ZeroPageX, 4),
        0x8C => op(Instruction::STY, AddressingMode::Absolute, 4),
        0xAA => op(Instruction::TAX, AddressingMode::Implied, 2),
        0xA8 => op(Instruction::TAY, AddressingMode::Implied, 2),
        0xBA => op(Instruction::TSX, AddressingMode::Implied, 2),
        0x8A => op(Instruction::TXA, AddressingMode::Implied, 2),
        0x9A => op(Instruction::TXS, AddressingMode::Implied, 2),
        0x98 => op(Instruction::TYA, AddressingMode::Implied, 2),
        0xE6 => op(Instruction::INC, AddressingMode::ZeroPage, 5),
        0xF6 => op(Instruction::INC, AddressingMode::ZeroPageX, 6),
        0xEE => op(Instruction::INC, AddressingMode::Absolute, 6),
        0xFE => op(Instruction::INC, AddressingMode::AbsoluteX, 7),
        0xE8 => op(Instruction::INX, AddressingMode::Implied, 2),
        0xC8 => op(Instruction::INY, AddressingMode::Implied, 2),
        0xC6 => op(Instruction::DEC, AddressingMode::ZeroPage, 5),
        0xD6 => op(Instruction::DEC, AddressingMode::ZeroPageX, 6),
        0xCE => op(Instruction::DEC, AddressingMode::Absolute, 6),
        0xDE => op(Instruction::DEC, AddressingMode::AbsoluteX, 7),
        0xCA => op(Instruction::DEX, AddressingMode::Implied, 2),
        0x88 => op(Instruction::DEY, AddressingMode::Implied, 2),
        0x69 => op(Instruction::ADC, AddressingMode::Immediate, 2),
        0x65 => op(Instruction::ADC, AddressingMode::ZeroPage, 3),
        0x75 => op(Instruction::ADC, AddressingMode::ZeroPageX, 4),
        0x6D => op(Instruction::ADC, AddressingMode::Absolute, 4),
        0x7D => op(Instruction::ADC, AddressingMode::AbsoluteX, 4),
        0x79 => op(Instruction::ADC, AddressingMode::AbsoluteY, 4),
        0x61 => op(Instruction::ADC, AddressingMode::IndirectX, 6),
        0x71 => op(Instruction::ADC, AddressingMode::IndirectY, 5),
        0xE9 => op(Instruction::SBC, AddressingMode::Immediate, 2),
        0xE5 => op(Instruction::SBC, AddressingMode::ZeroPage, 3),
        0xF5 => op(Instruction::SBC, AddressingMode::ZeroPageX, 4),
        0xED => op(Instruction::SBC, AddressingMode::Absolute, 4),
        0xFD => op(Instruction::SBC, AddressingMode::AbsoluteX, 4),
        0xF9 => op(Instruction::SBC, AddressingMode::AbsoluteY, 4),
        0xE1 => op(Instruction::SBC, AddressingMode::IndirectX, 6),
        0xF1 => op(Instruction::SBC, AddressingMode::IndirectY, 5),
        0xC9 => op(Instruction::CMP, AddressingMode::Immediate, 2),
        0xC5 => op(Instruction::CMP, AddressingMode::ZeroPage, 3),
        0xD5 => op(Instruction::CMP, AddressingMode::ZeroPageX, 4),
        0xCD => op(Instruction::CMP, AddressingMode::Absolute, 4),
        0xDD => op(Instruction::CMP, AddressingMode::AbsoluteX, 4),
        0xD9 => op(Instruction::CMP, AddressingMode::AbsoluteY, 4),
        0xC1 => op(Instruction::CMP, AddressingMode::IndirectX, 6),
        0xD1 => op(Instruction::CMP, AddressingMode::IndirectY, 5),
        0xE0 => op(Instruction::CPX, AddressingMode::Immediate, 2),
        0xE4 => op(Instruction::CPX, AddressingMode::ZeroPage, 3),
        0xEC => op(Instruction::CPX, AddressingMode::Absolute, 4),
        0xC0 => op(Instruction::CPY, AddressingMode::Immediate, 2),
        0xC4 => op(Instruction::CPY, AddressingMode::ZeroPage, 3),
        0xCC => op(Instruction::CPY, AddressingMode::Absolute, 4),
        0x29 => op(Instruction::AND, AddressingMode::Immediate, 2),
        0x25 => op(Instruction::AND, AddressingMode::ZeroPage, 3),
        0x35 => op(Instruction::AND, AddressingMode::ZeroPageX, 4),
        0x2D => op(Instruction::AND, AddressingMode::Absolute, 4),
        0x3D => op(Instruction::AND, AddressingMode::AbsoluteX, 4),
        0x39 => op(Instruction::AND, AddressingMode::AbsoluteY, 4),
        0x21 => op(Instruction::AND, AddressingMode::IndirectX, 6),
        0x31 => op(Instruction::AND, AddressingMode::IndirectY, 5),
        0x09 => op(Instruction::ORA, AddressingMode::Immediate, 2),
        0x05 => op(Instruction::ORA, AddressingMode::ZeroPage, 3),
        0x15 => op(Instruction::ORA, AddressingMode::ZeroPageX, 4),
        0x0D => op(Instruction::ORA, AddressingMode::Absolute, 4),
        0x1D => op(Instruction::ORA, AddressingMode::AbsoluteX, 4),
        0x19 => op(Instruction::ORA, AddressingMode::AbsoluteY, 4),
        0x01 => op(Instruction::ORA, AddressingMode::IndirectX, 6),
        0x11 => op(Instruction::ORA, AddressingMode::IndirectY, 5),
        0x49 => op(Instruction::EOR, AddressingMode::Immediate, 2),
        0x45 => op(Instruction::EOR, AddressingMode::ZeroPage, 3),
        0x55 => op(Instruction::EOR, AddressingMode::ZeroPageX, 4),
        0x4D => op(Instruction::EOR, AddressingMode::Absolute, 4),
        0x5D => op(Instruction::EOR, AddressingMode::AbsoluteX, 4),
        0x59 => op(Instruction::EOR, AddressingMode::AbsoluteY, 4),
        0x41 => op(Instruction::EOR, AddressingMode::IndirectX, 6),
        0x51 => op(Instruction::EOR, AddressingMode::IndirectY, 5),
        0x24 => op(Instruction::BIT, AddressingMode::ZeroPage, 3),
        0x2C => op(Instruction::BIT, AddressingMode::Absolute, 4),
        0x0A => op(Instruction::ASL, AddressingMode::Accumulator, 2),
        0x06 => op(Instruction::ASL, AddressingMode::ZeroPage, 5),
        0x16 => op(Instruction::ASL, AddressingMode::ZeroPageX, 6),
        0x0E => op(Instruction::ASL, AddressingMode::Absolute, 6),
        0x1E => op(Instruction::ASL, AddressingMode::AbsoluteX, 7),
        0x4A => op(Instruction::LSR, AddressingMode::Accumulator, 2),
        0x46 => op(Instruction::LSR, AddressingMode::ZeroPage, 5),
        0x56 => op(Instruction::LSR, AddressingMode::ZeroPageX, 6),
        0x4E => op(Instruction::LSR, AddressingMode::Absolute, 6),
        0x5E => op(Instruction::LSR, AddressingMode::AbsoluteX, 7),
        0x2A => op(Instruction::ROL, AddressingMode::Accumulator, 2),
        0x26 => op(Instruction::ROL, AddressingMode::ZeroPage, 5),
        0x36 => op(Instruction::ROL, AddressingMode::ZeroPageX, 6),
        0x2E => op(Instruction::ROL, AddressingMode::Absolute, 6),
        0x3E => op(Instruction::ROL, AddressingMode::AbsoluteX, 7),
        0x6A => op(Instruction::ROR, AddressingMode::Accumulator, 2),
        0x66 => op(Instruction::ROR, AddressingMode::ZeroPage, 5),
        0x76 => op(Instruction::ROR, AddressingMode::ZeroPageX, 6),
        0x6E => op(Instruction::ROR, AddressingMode::Absolute, 6),
        0x7E => op(Instruction::ROR, AddressingMode::AbsoluteX, 7),
        0x4C => op(Instruction::JMP, AddressingMode::Absolute, 3),
        0x6C => op(Instruction::JMP, AddressingMode::Indirect, 5),
        0x18 => op(Instruction::CLC, AddressingMode::Implied, 2),
        0xD8 => op(Instruction::CLD, AddressingMode::Implied, 2),
        0x58 => op(Instruction::CLI, AddressingMode::Implied, 2),
        0xB8 => op(Instruction::CLV, AddressingMode::Implied, 2),
        0x38 => op(Instruction::SEC, AddressingMode::Implied, 2),
        0xF8 => op(Instruction::SED, AddressingMode::Implied, 2),
        0x78 => op(Instruction::SEI, AddressingMode::Implied, 2),
        0xF0 => op(Instruction::BEQ, AddressingMode::Relative, 2),
        0xD0 => op(Instruction::BNE, AddressingMode::Relative, 2),
        0x90 => op(Instruction::BCC, AddressingMode::Relative, 2),
        0xB0 => op(Instruction::BCS, AddressingMode::Relative, 2),
        0x50 => op(Instruction::BVC, AddressingMode::Relative, 2),
        0x70 => op(Instruction::BVS, AddressingMode::Relative, 2),
        0x30 => op(Instruction::BMI, AddressingMode::Relative, 2),
        0x10 => op(Instruction::BPL, AddressingMode::Relative, 2),
        0x48 => op(Instruction::PHA, AddressingMode::Implied, 3),
        0x68 => op(Instruction::PLA, AddressingMode::Implied, 4),
        0x08 => op(Instruction::PHP, AddressingMode::Implied, 3),
        0x28 => op(Instruction::PLP, AddressingMode::Implied, 4),
        0x20 => op(Instruction::JSR, AddressingMode::Absolute, 6),
        0x60 => op(Instruction::RTS, AddressingMode::Implied, 6),
        0x00 => op(Instruction::BRK, AddressingMode::Implied, 7),
        0x40 => op(Instruction::RTI, AddressingMode::Implied, 6),
        0xEA => op(Instruction::RTI, AddressingMode::Implied, 2),
        _ => op(Instruction::NOP, AddressingMode::Implied, 0),
    }
}

/// The full opcode table, indexed by opcode byte.
pub fn build_table() -> (table: [Opcode; 256])
    ensures
        forall|i: int| 0 <= i < 256 ==> #[trigger] table@[i] == opcode_of(i as u8),
{
    let mut table = [op(Instruction::NOP, AddressingMode::Implied, 0); 256];
    let mut i: usize = 0;
    while i < 256
        invariant
            i <= 256,
            table@.len() == 256,
            forall|j: int| 0 <= j < i ==> #[trigger] table@[j] == opcode_of(j as u8),
        decreases 256 - i,
    {
        table[i] = decode(i as u8);
        i += 1;
    }
    table
}

/// What executing `opcode` does to a state whose program counter is just past
/// the opcode byte; `None` where the instruction cannot run without an
/// arithmetic overflow (see `address_ok`), or where a return address of 0xFFFF
/// would have to be stepped past.
pub open spec fn execute(s: CpuView, opcode: Opcode) -> Option<CpuView> {
    let mode = opcode.mode;
    match opcode.instruction {
        Instruction::LDA => if address_ok(s, mode) { Some(lda_next(s, mode)) } else { None },
        Instruction::LDX => if address_ok(s, mode) { Some(ldx_next(s, mode)) } else { None },
        Instruction::LDY => if address_ok(s, mode) { Some(ldy_next(s, mode)) } else { None },
        Instruction::STA => if address_ok(s, mode) { Some(store_next(s, mode, s.a)) } else { None },
        Instruction::STX => if address_ok(s, mode) { Some(store_next(s, mode, s.x)) } else { None },
        Instruction::STY => if address_ok(s, mode) { Some(store_next(s, mode, s.y)) } else { None },
        Instruction::TAX => Some(tax_next(s)),
        Instruction::TAY => Some(tay_next(s)),
        Instruction::TSX => Some(tsx_next(s)),
        Instruction::TXA => Some(txa_next(s)),
        Instruction::TXS => Some(txs_next(s)),
        Instruction::TYA => Some(tya_next(s)),
        Instruction::INC => if address_ok(s, mode) { Some(inc_next(s, mode)) } else { None },
        Instruction::INX => Some(inx_next(s)),
        Instruction::INY => Some(iny_next(s)),
        Instruction::DEC => if address_ok(s, mode) { Some(dec_next(s, mode)) } else { None },
        Instruction::DEX => Some(dex_next(s)),
        Instruction::DEY => Some(dey_next(s)),
        Instruction::ADC => if address_ok(s, mode) { Some(adc_next(s, mode)) } else { None },
        Instruction::SBC => if address_ok(s, mode) { Some(sbc_next(s, mode)) } else { None },
        Instruction::CMP => if address_ok(s, mode) { Some(compare_next(s, mode, s.a)) } else { None },
        Instruction::CPX => if address_ok(s, mode) { Some(compare_next(s, mode, s.x)) } else { None },
        Instruction::CPY => if address_ok(s, mode) { Some(compare_next(s, mode, s.y)) } else { None },
        Instruction::AND => if address_ok(s, mode) { Some(and_next(s, mode)) } else { None },
        Instruction::ORA => if address_ok(s, mode) { Some(ora_next(s, mode)) } else { None },
        Instruction::EOR => if address_ok(s, mode) { Some(eor_next(s, mode)) } else { None },
        Instruction::BIT => if address_ok(s, mode) { Some(bit_next(s, mode)) } else { None },
        Instruction::ASL => if rmw_ok(s, mode) { Some(asl_next(s, mode)) } else { None },
        Instruction::LSR => if rmw_ok(s, mode) { Some(lsr_next(s, mode)) } else { None },
        Instruction::ROL => if rmw_ok(s, mode) { Some(rol_next(s, mode)) } else { None },
        Instruction::ROR => if rmw_ok(s, mode) { Some(ror_next(s, mode)) } else { None },
        Instruction::JMP => if address_ok(s, mode) { Some(jmp_next(s, mode)) } else { None },
        Instruction::CLC => Some(flag_op_next(s, Flag::CARRY, false)),
        Instruction::CLD => Some(flag_op_next(s, Flag::DECIMAL, false)),
        Instruction::CLI => Some(flag_op_next(s, Flag::INTERRUPT, false)),
        Instruction::CLV => Some(flag_op_next(s, Flag::OVERFLOW, false)),
        Instruction::SEC => Some(flag_op_next(s, Flag::CARRY, true)),
        Instruction::SED => Some(flag_op_next(s, Flag::DECIMAL, true)),
        Instruction::SEI => Some(flag_op_next(s, Flag::INTERRUPT, true)),
        Instruction::BEQ => if s.pc < 0xFFFF { Some(branch_next(s, Flag::ZERO, true)) } else { None },
        Instruction::BNE => if s.pc < 0xFFFF { Some(branch_next(s, Flag::ZERO, false)) } else { None },
        Instruction::BCC => if s.pc < 0xFFFF { Some(branch_next(s, Flag::CARRY, false)) } else { None },
        Instruction::BCS => if s.pc < 0xFFFF { Some(branch_next(s, Flag::CARRY, true)) } else { None },
        Instruction::BVC => if s.pc < 0xFFFF { Some(branch_next(s, Flag::OVERFLOW, false)) } else { None },
        Instruction::BVS => if s.pc < 0xFFFF { Some(branch_next(s, Flag::OVERFLOW, true)) } else { None },
        Instruction::BMI => if s.pc < 0xFFFF { Some(branch_next(s, Flag::NEGATIVE, true)) } else { None },
        Instruction::BPL => if s.pc < 0xFFFF { Some(branch_next(s, Flag::NEGATIVE, false)) } else { None },
        Instruction::PHA => Some(pha_next(s)),
        Instruction::PLA => Some(pla_next(s)),
        Instruction::PHP => Some(php_next(s)),
        Instruction::PLP => Some(plp_next(s)),
        Instruction::JSR => if s.pc + 2 <= 0xFFFF { Some(jsr_next(s)) } else { None },
        Instruction::RTS => if top_word(s) < 0xFFFF { Some(rts_next(s)) } else { None },
        Instruction::BRK => Some(brk_next(s)),
        Instruction::RTI => Some(rti_next(s)),
        Instruction::NOP => Some(s),
    }
}

/// One step of the processor: the opcode byte at the program counter is read
/// and decoded, and the instruction runs. `None` where the step cannot run:
/// the program counter is at 0xFFFF, or `execute` refuses the instruction.
pub open spec fn step_next(s: CpuView) -> Option<CpuView> {
    if s.pc < 0xFFFF {
        execute(advance(s, 1), opcode_of(s.mem[s.pc as int]))
    } else {
        None
    }
}

/// The group an instruction is dispatched to.
pub open spec fn instruction_group(instruction: Instruction) -> int {
    match instruction {
        Instruction::LDA | Instruction::LDX | Instruction::LDY | Instruction::STA | Instruction::STX | Instruction::STY | Instruction::ADC | Instruction::SBC | Instruction::CMP | Instruction::CPX | Instruction::CPY | Instruction::AND | Instruction::ORA | Instruction::EOR | Instruction::BIT => 0,
        Instruction::INC | Instruction::DEC | Instruction::ASL | Instruction::LSR | Instruction::ROL | Instruction::ROR | Instruction::JMP | Instruction::JSR | Instruction::RTS | Instruction::BRK | Instruction::RTI => 1,
        Instruction::TAX | Instruction::TAY | Instruction::TSX | Instruction::TXA | Instruction::TXS | Instruction::TYA | Instruction::INX | Instruction::INY | Instruction::DEX | Instruction::DEY | Instruction::CLC | Instruction::CLD | Instruction::CLI | Instruction::CLV | Instruction::SEC | Instruction::SED | Instruction::SEI | Instruction::PHA | Instruction::PLA | Instruction::PHP | Instruction::PLP | Instruction::NOP => 2,
        Instruction::BEQ | Instruction::BNE | Instruction::BCC | Instruction::BCS | Instruction::BVC | Instruction::BVS | Instruction::BMI | Instruction::BPL => 3,
    }
}

impl CPU {
    /// A processor over `memory`, with the program counter and registers at zero,
    /// the stack empty and every flag cleared.
    pub fn new(memory: Memory) -> (cpu: Self)
        ensures
            cpu@ == (CpuView { pc: 0, a: 0, x: 0, y: 0, sp: 0xFF, status: 0, mem: memory@ }),
    {
        CPU {
            program_counter: 0,
            register: Registers::new(),
            stack: Stack::new(),
            status: Flags::new(),
            memory,
        }
    }

    /// Loads the program counter from the reset vector at 0xFFFC and clears every flag.
    pub fn reset(&mut self)
        ensures
            final(self)@ == (CpuView {
                pc: word_at(old(self)@.mem, 0xFFFC),
                status: 0,
                ..old(self)@
            }),
    {
        let low_byte = self.memory.mem_read(0xFFFC);
        let high_byte = self.memory.mem_read(0xFFFD);
        proof {
            lemma_make_word(low_byte, high_byte);
        }
        let reset_byte = ((high_byte as u16) << 8) | (low_byte as u16);
        self.program_counter = reset_byte;
        self.status.reset();
    }

    /// Reads the byte at the program counter and moves past it.
    pub fn fetch_byte(&mut self) -> (byte: u8)
        requires
            old(self)@.pc < 0xFFFF,
        ensures
            byte == old(self)@.mem[old(self)@.pc as int],
            final(self)@ == advance(old(self)@, 1),
    {
        let byte = self.memory.mem_read(self.program_counter);
        self.program_counter += 1;
        byte
    }

    /// Reads the little-endian word at the program counter and moves past it.
    pub(crate) fn read_from_pc(&mut self) -> (word: u16)
        requires
            old(self)@.pc + 2 <= 0xFFFF,
        ensures
            word == word_at(old(self)@.mem, old(self)@.pc as int),
            final(self)@ == advance(old(self)@, 2),
    {
        let low_byte = self.fetch_byte();
        let high_byte = self.fetch_byte();
        proof {
            lemma_make_word(low_byte, high_byte);
        }
        ((high_byte as u16) << 8) | (low_byte as u16)
    }

    /// Reads the little-endian word at `addr`.
    pub(crate) fn read_from_memory(&mut self, addr: u16) -> (word: u16)
        requires
            addr < 0xFFFF,
        ensures
            word == word_at(old(self)@.mem, addr as int),
            final(self)@ == old(self)@,
    {
        self.peek_word(addr)
    }

    /// Reads the little-endian word at `addr` without touching the processor.
    fn peek_word(&self, addr: u16) -> (word: u16)
        requires
            addr < 0xFFFF,
        ensures
            word == word_at(self@.mem, addr as int),
    {
        let low_byte = self.memory.mem_read(addr);
        let high_byte = self.memory.mem_read(addr + 1);
        proof {
            lemma_make_word(low_byte, high_byte);
        }
        ((high_byte as u16) << 8) | (low_byte as u16)
    }

    /// Consumes the operand bytes and returns the operand address (in immediate
    /// mode, the operand byte itself).
    pub(crate) fn get_operand_address(&mut self, mode: AddressingMode) -> (addr: u16)
        requires
            address_ok(old(self)@, mode),
        ensures
            addr == operand_address(old(self)@, mode),
            final(self)@ == after_operand(old(self)@, mode),
    {
        match mode {
            AddressingMode::Implied | AddressingMode::Relative | AddressingMode::Accumulator => {
                proof {
                    assert(false);
                }
                0
            },
            AddressingMode::Immediate => self.fetch_byte() as u16,
            AddressingMode::ZeroPage => self.fetch_byte() as u16,
            AddressingMode::ZeroPageX => {
                let mem = self.fetch_byte();
                mem.wrapping_add(self.register.x) as u16
            },
            AddressingMode::ZeroPageY => {
                let mem = self.fetch_byte();
                mem.wrapping_add(self.register.y) as u16
            },
            AddressingMode::Absolute => self.read_from_pc(),
            AddressingMode::AbsoluteX => self.read_from_pc() + self.register.x as u16,
            AddressingMode::AbsoluteY => self.read_from_pc() + self.register.y as u16,
            AddressingMode::Indirect => {
                let address_target = self.read_from_pc();
                self.read_from_memory(address_target)
            },
            AddressingMode::IndirectX => {
                let byte = self.fetch_byte();
                let address_target = byte.wrapping_add(self.register.x) as u16;
                self.read_from_memory(address_target)
            },
            AddressingMode::IndirectY => {
                let address_target = self.fetch_byte() as u16;
                let value = self.read_from_memory(address_target);
                value + self.register.y as u16
            },
        }
    }

    /// Consumes the operand bytes and returns the operand value.
    pub(crate) fn get_operand_value(&mut self, mode: AddressingMode) -> (value: u8)
        requires
            address_ok(old(self)@, mode),
        ensures
            value == operand_value(old(self)@, mode),
            final(self)@ == after_operand(old(self)@, mode),
    {
        let addr = self.get_operand_address(mode);
        match mode {
            AddressingMode::Immediate => addr as u8,
            _ => self.memory.mem_read(addr),
        }
    }

    /// For a read-modify-write instruction: the address of its memory operand
    /// (none for the accumulator) and the value it works on.
    pub(crate) fn get_operand(&mut self, mode: AddressingMode) -> (operand: (Option<u16>, u8))
        requires
            rmw_ok(old(self)@, mode),
        ensures
            operand.1 == rmw_value(old(self)@, mode),
            mode == AddressingMode::Accumulator ==> operand.0 is None && final(self)@ == old(self)@,
            mode != AddressingMode::Accumulator ==> operand.0 == Some(operand_address(old(self)@, mode))
                && final(self)@ == after_operand(old(self)@, mode),
    {
        if mode == AddressingMode::Accumulator {
            return (None, self.register.a);
        }
        let addr = self.get_operand_address(mode);
        (Some(addr), self.memory.mem_read(addr))
    }

    /// Whether the operand address of `mode` can be formed with the operand bytes at `pc`.
    fn address_fits(&self, pc: u16, mode: AddressingMode) -> (fits: bool)
        ensures
            fits == address_ok(CpuView { pc, ..self@ }, mode),
    {
        match mode {
            AddressingMode::Implied | AddressingMode::Relative | AddressingMode::Accumulator => false,
            AddressingMode::Immediate | AddressingMode::ZeroPage | AddressingMode::ZeroPageX
            | AddressingMode::ZeroPageY | AddressingMode::IndirectX => pc < 0xFFFF,
            AddressingMode::IndirectY => pc < 0xFFFF && {
                let base = self.memory.mem_read(pc) as u16;
                (self.peek_word(base) as u32) + (self.register.y as u32) <= 0xFFFF
            },
            AddressingMode::Absolute => pc <= 0xFFFD,
            AddressingMode::AbsoluteX => pc <= 0xFFFD && (self.peek_word(pc) as u32) + (
            self.register.x as u32) <= 0xFFFF,
            AddressingMode::AbsoluteY => pc <= 0xFFFD && (self.peek_word(pc) as u32) + (
            self.register.y as u32) <= 0xFFFF,
            AddressingMode::Indirect => pc <= 0xFFFD && self.peek_word(pc) < 0xFFFF,
        }
    }

    /// Whether `step` can run from this state without an arithmetic overflow.
    pub fn can_step(&self) -> (ok: bool)
        ensures
            ok == (step_next(self@) is Some),
    {
        if self.program_counter == 0xFFFF {
            return false;
        }
        let pc = self.program_counter + 1;
        let opcode = decode(self.memory.mem_read(self.program_counter));
        let mode = opcode.mode;
        match opcode.instruction {
            Instruction::LDA | Instruction::LDX | Instruction::LDY | Instruction::STA
            | Instruction::STX | Instruction::STY | Instruction::INC | Instruction::DEC
            | Instruction::ADC | Instruction::SBC | Instruction::CMP | Instruction::CPX
            | Instruction::CPY | Instruction::AND | Instruction::ORA | Instruction::EOR
            | Instruction::BIT | Instruction::JMP => self.address_fits(pc, mode),
            Instruction::ASL | Instruction::LSR | Instruction::ROL | Instruction::ROR => {
                mode == AddressingMode::Accumulator || self.address_fits(pc, mode)
            },
            Instruction::BEQ | Instruction::BNE | Instruction::BCC | Instruction::BCS
            | Instruction::BVC | Instruction::BVS | Instruction::BMI | Instruction::BPL => pc
                < 0xFFFF,
            Instruction::JSR => pc <= 0xFFFD,
            Instruction::RTS => {
                let low_sp = self.stack.get().wrapping_add(1);
                let high_sp = low_sp.wrapping_add(1);
                let low = self.memory.mem_read(STACK_BASE + low_sp as u16);
                let high = self.memory.mem_read(STACK_BASE + high_sp as u16);
                !(low == 0xFF && high == 0xFF)
            },
            _ => true,
        }
    }

    /// Runs one instruction: reads the opcode byte at the program counter,
    /// decodes it and executes it.
    pub fn step(&mut self)
        requires
            step_next(old(self)@) is Some,
        ensures
            step_next(old(self)@) == Some(final(self)@),
    {
        let byte = self.fetch_byte();
        let opcode = decode(byte);
        self.execute_instruction(opcode);
    }

    /// Executes a decoded instruction whose opcode byte has been consumed.
    fn execute_instruction(&mut self, opcode: Opcode)
        requires
            execute(old(self)@, opcode) is Some,
        ensures
            execute(old(self)@, opcode) == Some(final(self)@),
    {
        match opcode.instruction {
            Instruction::LDA | Instruction::LDX | Instruction::LDY | Instruction::STA | Instruction::STX | Instruction::STY | Instruction::ADC | Instruction::SBC | Instruction::CMP | Instruction::CPX | Instruction::CPY | Instruction::AND | Instruction::ORA | Instruction::EOR | Instruction::BIT => self.execute_operand_instruction(opcode),
            Instruction::INC | Instruction::DEC | Instruction::ASL | Instruction::LSR | Instruction::ROL | Instruction::ROR | Instruction::JMP | Instruction::JSR | Instruction::RTS | Instruction::BRK | Instruction::RTI => self.execute_memory_or_jump_instruction(opcode),
            Instruction::TAX | Instruction::TAY | Instruction::TSX | Instruction::TXA | Instruction::TXS | Instruction::TYA | Instruction::INX | Instruction::INY | Instruction::DEX | Instruction::DEY | Instruction::CLC | Instruction::CLD | Instruction::CLI | Instruction::CLV | Instruction::SEC | Instruction::SED | Instruction::SEI | Instruction::PHA | Instruction::PLA | Instruction::PHP | Instruction::PLP | Instruction::NOP => self.execute_implied_instruction(opcode),
            Instruction::BEQ | Instruction::BNE | Instruction::BCC | Instruction::BCS | Instruction::BVC | Instruction::BVS | Instruction::BMI | Instruction::BPL => self.execute_branch_instruction(opcode),
        }
    }

    /// Loads, stores, arithmetic, comparisons and logic on an operand.
    fn execute_operand_instruction(&mut self, opcode: Opcode)
        requires
            execute(old(self)@, opcode) is Some,
            instruction_group(opcode.instruction) == 0,
        ensures
            execute(old(self)@, opcode) == Some(final(self)@),
    {
        match opcode.instruction {
            Instruction::LDA => self.lda(opcode.mode),
            Instruction::LDX => self.ldx(opcode.mode),
            Instruction::LDY => self.ldy(opcode.mode),
            Instruction::STA => self.sta(opcode.mode),
            Instruction::STX => self.stx(opcode.mode),
            Instruction::STY => self.sty(opcode.mode),
            Instruction::ADC => self.adc(opcode.mode),
            Instruction::SBC => self.sbc(opcode.mode),
            Instruction::CMP => self.cmp(opcode.mode),
            Instruction::CPX => self.cpx(opcode.mode),
            Instruction::CPY => self.cpy(opcode.mode),
            Instruction::AND => self.and(opcode.mode),
            Instruction::ORA => self.ora(opcode.mode),
            Instruction::EOR => self.eor(opcode.mode),
            Instruction::BIT => self.bit(opcode.mode),
            _ => {
                proof {
                    assert(false);
                }
            },
        }
    }

    /// Read-modify-write instructions, jumps, calls, returns and interrupts.
    fn execute_memory_or_jump_instruction(&mut self, opcode: Opcode)
        requires
            execute(old(self)@, opcode) is Some,
            instruction_group(opcode.instruction) == 1,
        ensures
            execute(old(self)@, opcode) == Some(final(self)@),
    {
        match opcode.instruction {
            Instruction::INC => self.inc(opcode.mode),
            Instruction::DEC => self.dec(opcode.mode),
            Instruction::ASL => self.asl(opcode.mode),
            Instruction::LSR => self.lsr(opcode.mode),
            Instruction::ROL => self.rol(opcode.mode),
            Instruction::ROR => self.ror(opcode.mode),
            Instruction::JMP => self.jmp(opcode.mode),
            Instruction::JSR => self.jsr(),
            Instruction::RTS => self.rts(),
            Instruction::BRK => self.brk(),
            Instruction::RTI => self.rti(),
            _ => {
                proof {
                    assert(false);
                }
            },
        }
    }

    /// Register transfers and counters, flag instructions, stack instructions and NOP.
    fn execute_implied_instruction(&mut self, opcode: Opcode)
        requires
            execute(old(self)@, opcode) is Some,
            instruction_group(opcode.instruction) == 2,
        ensures
            execute(old(self)@, opcode) == Some(final(self)@),
    {
        match opcode.instruction {
            Instruction::TAX => self.tax(),
            Instruction::TAY => self.tay(),
            Instruction::TSX => self.tsx(),
            Instruction::TXA => self.txa(),
            Instruction::TXS => self.txs(),
            Instruction::TYA => self.tya(),
            Instruction::INX => self.inx(),
            Instruction::INY => self.iny(),
            Instruction::DEX => self.dex(),
            Instruction::DEY => self.dey(),
            Instruction::CLC => self.clc(),
            Instruction::CLD => self.cld(),
            Instruction::CLI => self.cli(),
            Instruction::CLV => self.clv(),
            Instruction::SEC => self.sec(),
            Instruction::SED => self.sed(),
            Instruction::SEI => self.sei(),
            Instruction::PHA => self.pha(),
            Instruction::PLA => self.pla(),
            Instruction::PHP => self.php(),
            Instruction::PLP => self.plp(),
            Instruction::NOP => {},
            _ => {
                proof {
                    assert(false);
                }
            },
        }
    }

    /// Conditional branches.
    fn execute_branch_instruction(&mut self, opcode: Opcode)
        requires
            execute(old(self)@, opcode) is Some,
            instruction_group(opcode.instruction) == 3,
        ensures
            execute(old(self)@, opcode) == Some(final(self)@),
    {
        match opcode.instruction {
            Instruction::BEQ => self.beq(),
            Instruction::BNE => self.bne(),
            Instruction::BCC => self.bcc(),
            Instruction::BCS => self.bcs(),
            Instruction::BVC => self.bvc(),
            Instruction::BVS => self.bvs(),
            Instruction::BMI => self.bmi(),
            Instruction::BPL => self.bpl(),
            _ => {
                proof {
                    assert(false);
                }
            },
        }
    }
}

} // verus!
