use cpu6502::cpu::cpu::{build_table, decode, op, AddressingMode, Instruction, CPU};
use cpu6502::cpu::cpu_builder::CPUBuilder;
use cpu6502::cpu::flags::{Flag, Flags};
use cpu6502::cpu::memory::Memory;
use cpu6502::cpu::stack::Stack;

const ALL_FLAGS: [Flag; 7] = [
    Flag::CARRY,
    Flag::ZERO,
    Flag::INTERRUPT,
    Flag::DECIMAL,
    Flag::BREAK,
    Flag::OVERFLOW,
    Flag::NEGATIVE,
];

#[test]
fn test_flag_reads_back_and_keeps_others() {
    for start in [0x00u8, 0xFF, 0xA5, 0x5A] {
        for flag in ALL_FLAGS {
            for value in [false, true] {
                let mut flags = Flags::new();
                flags.set_status(start);
                let before: Vec<bool> = ALL_FLAGS.iter().map(|f| flags.get_flag(*f)).collect();
                flags.set_flag(flag, value);
                assert_eq!(flags.get_flag(flag), value);
                for (i, other) in ALL_FLAGS.iter().enumerate() {
                    if *other != flag {
                        assert_eq!(flags.get_flag(*other), before[i]);
                    }
                }
            }
        }
    }
}

#[test]
fn test_flag_bits() {
    assert_eq!(Flag::CARRY.bits(), 0x01);
    assert_eq!(Flag::ZERO.bits(), 0x02);
    assert_eq!(Flag::INTERRUPT.bits(), 0x04);
    assert_eq!(Flag::DECIMAL.bits(), 0x08);
    assert_eq!(Flag::BREAK.bits(), 0x10);
    assert_eq!(Flag::OVERFLOW.bits(), 0x40);
    assert_eq!(Flag::NEGATIVE.bits(), 0x80);
}

#[test]
fn test_update_zero_and_negative_flags() {
    let mut flags = Flags::new();
    flags.update_zero_and_negative_flags(0x00);
    assert_eq!(flags.get_status(), 0x02);
    flags.update_zero_and_negative_flags(0x80);
    assert_eq!(flags.get_status(), 0x80);
    flags.update_zero_and_negative_flags(0x7F);
    assert_eq!(flags.get_status(), 0x00);
    flags.reset();
    assert_eq!(flags.get_status(), 0);
}

#[test]
fn test_stack_value_round_trip() {
    let mut memory = Memory::new();
    let mut stack = Stack::new();
    stack.write_value(&mut memory, 0x11);
    stack.write_value(&mut memory, 0x22);
    assert_eq!(memory.mem_read(0x01FF), 0x11);
    assert_eq!(memory.mem_read(0x01FE), 0x22);
    assert_eq!(stack.get(), 0xFD);
    assert_eq!(stack.read_value(&mut memory), 0x22);
    assert_eq!(stack.read_value(&mut memory), 0x11);
    assert_eq!(stack.get(), 0xFF);
}

#[test]
fn test_stack_word_round_trip() {
    let mut memory = Memory::new();
    let mut stack = Stack::new_sp(0x10);
    stack.write_address(&mut memory, 0xBEEF);
    assert_eq!(memory.mem_read(0x0110), 0xBE);
    assert_eq!(memory.mem_read(0x010F), 0xEF);
    assert_eq!(stack.read_address(&mut memory), 0xBEEF);
    assert_eq!(stack.get(), 0x10);
}

#[test]
fn test_stack_pointer_wraps_within_page_one() {
    let mut memory = Memory::new();
    memory.mem_write(0x0100, 0x77);
    let mut stack = Stack::new();
    assert_eq!(stack.read_value(&mut memory), 0x77);
    assert_eq!(stack.get(), 0x00);
    stack.write_value(&mut memory, 0x33);
    assert_eq!(memory.mem_read(0x0100), 0x33);
    assert_eq!(stack.get(), 0xFF);
}

#[test]
fn test_load_program_points_reset_vector_at_program() {
    let mut memory = Memory::new();
    memory.load_program(&[0xA9, 0x07]);
    assert_eq!(memory.mem_read(0xFFFC), 0x00);
    assert_eq!(memory.mem_read(0xFFFD), 0x80);
    assert_eq!(memory.mem_read(0x8000), 0xA9);
    assert_eq!(memory.mem_read(0x8001), 0x07);
    assert_eq!(memory.mem_read(0x8002), 0x00);

    let mut cpu = CPU::new(memory);
    assert_eq!(cpu.program_counter, 0);
    assert_eq!(cpu.stack.get(), 0xFF);
    cpu.status.set_flag(Flag::CARRY, true);
    cpu.reset();
    assert_eq!(cpu.program_counter, 0x8000);
    assert_eq!(cpu.status.get_status(), 0);
    cpu.step();
    assert_eq!(cpu.register.a, 0x07);
}

#[test]
fn test_fetch_byte_moves_program_counter() {
    let mut cpu = CPUBuilder::new().load_program(&[0x12, 0x34]).build();
    assert_eq!(cpu.fetch_byte(), 0x12);
    assert_eq!(cpu.fetch_byte(), 0x34);
    assert_eq!(cpu.program_counter, 0x8002);
}

#[test]
fn test_decode_table() {
    assert!(decode(0xA9) == op(Instruction::LDA, AddressingMode::Immediate, 2));
    assert!(decode(0x6C) == op(Instruction::JMP, AddressingMode::Indirect, 5));
    // the table lists 0xA4 as LDX zero page
    assert!(decode(0xA4) == op(Instruction::LDX, AddressingMode::ZeroPage, 3));
    // 0xEA is listed as RTI
    assert!(decode(0xEA) == op(Instruction::RTI, AddressingMode::Implied, 2));
    // bytes that are not listed are no-operations taking no cycle
    assert!(decode(0x02) == op(Instruction::NOP, AddressingMode::Implied, 0));
    assert!(decode(0xFF) == op(Instruction::NOP, AddressingMode::Implied, 0));

    let table = build_table();
    for byte in 0..=255u8 {
        assert!(table[byte as usize] == decode(byte));
    }
}

#[test]
fn test_illegal_opcode_only_moves_program_counter() {
    let mut cpu = CPUBuilder::new()
        .set_register_a(0x12)
        .set_flags(Flag::CARRY)
        .load_program(&[0x02])
        .build();
    cpu.step();
    assert_eq!(cpu.program_counter, 0x8001);
    assert_eq!(cpu.register.a, 0x12);
    assert_eq!(cpu.status.get_status(), 0x01);
}

#[test]
fn test_can_step_refuses_overflowing_steps() {
    // program counter at the top of memory: fetching the opcode would overflow
    let cpu = CPUBuilder::new().set_program_counter(0xFFFF).build();
    assert!(!cpu.can_step());

    // LDA $FFFF,X with X = 1 passes the top of memory
    let cpu = CPUBuilder::new()
        .set_register_x(0x01)
        .load_program(&[0xBD, 0xFF, 0xFF])
        .build();
    assert!(!cpu.can_step());
    let cpu = CPUBuilder::new()
        .set_register_x(0x00)
        .load_program(&[0xBD, 0xFF, 0xFF])
        .build();
    assert!(cpu.can_step());

    // JMP ($FFFF): the pointer's second byte lies past the top of memory
    let cpu = CPUBuilder::new().load_program(&[0x6C, 0xFF, 0xFF]).build();
    assert!(!cpu.can_step());

    // LDA ($20),Y with the pointer at 0xFFFF and Y = 1
    let cpu = CPUBuilder::new()
        .set_register_y(0x01)
        .memory(0x0020, 0xFF)
        .memory(0x0021, 0xFF)
        .load_program(&[0xB1, 0x20])
        .build();
    assert!(!cpu.can_step());

    // RTS with 0xFFFF on the stack: the return address would overflow
    let cpu = CPUBuilder::new()
        .set_stack_pointer(0xFD)
        .memory(0x01FE, 0xFF)
        .memory(0x01FF, 0xFF)
        .load_program(&[0x60])
        .build();
    assert!(!cpu.can_step());

    // a branch whose offset byte would be fetched at 0xFFFF
    let cpu = CPUBuilder::new()
        .set_program_counter(0xFFFE)
        .memory(0xFFFE, 0xF0)
        .build();
    assert!(!cpu.can_step());

    // an ordinary instruction
    let cpu = CPUBuilder::new().load_program(&[0xA9, 0x01]).build();
    assert!(cpu.can_step());
}

#[test]
fn test_branch_wraps_below_zero() {
    let mut cpu = CPUBuilder::new()
        .set_program_counter(0x0000)
        .memory(0x0000, 0xD0) // BNE -5
        .memory(0x0001, 0xFB)
        .build();
    cpu.step();
    assert_eq!(cpu.program_counter, 0xFFFD);
}

#[test]
fn test_adc_signed_overflow_exact() {
    let mut cpu = CPUBuilder::new()
        .set_register_a(0x50)
        .load_program(&[0x69, 0x50])
        .build();
    cpu.step();
    assert_eq!(cpu.register.a, 0xA0);
    assert!(cpu.status.get_flag(Flag::OVERFLOW));
    assert!(cpu.status.get_flag(Flag::NEGATIVE));
    assert!(!cpu.status.get_flag(Flag::CARRY));
    assert!(!cpu.status.get_flag(Flag::ZERO));
}

#[test]
fn test_adc_with_carry_in() {
    let mut cpu = CPUBuilder::new()
        .set_register_a(0xFF)
        .set_flags(Flag::CARRY)
        .load_program(&[0x69, 0x00])
        .build();
    cpu.step();
    assert_eq!(cpu.register.a, 0x00);
    assert!(cpu.status.get_flag(Flag::CARRY));
    assert!(cpu.status.get_flag(Flag::ZERO));
    assert!(!cpu.status.get_flag(Flag::OVERFLOW));
}

#[test]
fn test_sbc_borrow_clears_carry() {
    let mut cpu = CPUBuilder::new()
        .set_register_a(0x00)
        .set_flags(Flag::CARRY)
        .load_program(&[0xE9, 0x01])
        .build();
    cpu.step();
    assert_eq!(cpu.register.a, 0xFF);
    assert!(!cpu.status.get_flag(Flag::CARRY));
    assert!(cpu.status.get_flag(Flag::NEGATIVE));
    assert!(!cpu.status.get_flag(Flag::OVERFLOW));
}

#[test]
fn test_and_ora_eor() {
    let mut cpu = CPUBuilder::new()
        .set_register_a(0xF0)
        .load_program(&[0x29, 0x3C, 0x09, 0x01, 0x49, 0xFF])
        .build();
    cpu.step(); // AND #$3C
    assert_eq!(cpu.register.a, 0x30);
    cpu.step(); // ORA #$01
    assert_eq!(cpu.register.a, 0x31);
    cpu.step(); // EOR #$FF
    assert_eq!(cpu.register.a, 0xCE);
    assert!(cpu.status.get_flag(Flag::NEGATIVE));
    assert!(!cpu.status.get_flag(Flag::ZERO));
}

#[test]
fn test_and_zero_result() {
    let mut cpu = CPUBuilder::new()
        .set_register_a(0x0F)
        .memory(0x0010, 0xF0)
        .load_program(&[0x25, 0x10])
        .build();
    cpu.step();
    assert_eq!(cpu.register.a, 0x00);
    assert!(cpu.status.get_flag(Flag::ZERO));
}

#[test]
fn test_bit_copies_operand_bits() {
    let mut cpu = CPUBuilder::new()
        .set_register_a(0x01)
        .memory(0x0010, 0xC0)
        .load_program(&[0x24, 0x10])
        .build();
    cpu.step();
    assert!(cpu.status.get_flag(Flag::ZERO));
    assert!(cpu.status.get_flag(Flag::OVERFLOW));
    assert!(cpu.status.get_flag(Flag::NEGATIVE));
    assert_eq!(cpu.register.a, 0x01);
}

#[test]
fn test_asl_accumulator_and_memory() {
    let mut cpu = CPUBuilder::new()
        .set_register_a(0x81)
        .memory(0x0010, 0x40)
        .load_program(&[0x0A, 0x06, 0x10])
        .build();
    cpu.step(); // ASL A
    assert_eq!(cpu.register.a, 0x02);
    assert!(cpu.status.get_flag(Flag::CARRY));
    assert_eq!(cpu.program_counter, 0x8001);
    cpu.step(); // ASL $10
    assert_eq!(cpu.memory.mem_read(0x0010), 0x80);
    assert!(!cpu.status.get_flag(Flag::CARRY));
    assert!(cpu.status.get_flag(Flag::NEGATIVE));
    assert_eq!(cpu.program_counter, 0x8003);
}

#[test]
fn test_lsr_rol_ror() {
    let mut cpu = CPUBuilder::new()
        .set_register_a(0x03)
        .load_program(&[0x4A, 0x2A, 0x6A, 0x6A])
        .build();
    cpu.step(); // LSR A: 0x01, carry out 1
    assert_eq!(cpu.register.a, 0x01);
    assert!(cpu.status.get_flag(Flag::CARRY));
    cpu.step(); // ROL A: 0x03, carry out 0
    assert_eq!(cpu.register.a, 0x03);
    assert!(!cpu.status.get_flag(Flag::CARRY));
    cpu.step(); // ROR A: 0x01, carry out 1
    assert_eq!(cpu.register.a, 0x01);
    assert!(cpu.status.get_flag(Flag::CARRY));
    cpu.step(); // ROR A: carry comes in as bit 7
    assert_eq!(cpu.register.a, 0x80);
    assert!(cpu.status.get_flag(Flag::CARRY));
    assert!(cpu.status.get_flag(Flag::NEGATIVE));
}

#[test]
fn test_php_plp_round_trip() {
    let mut cpu = CPUBuilder::new()
        .set_flags(Flag::CARRY)
        .set_flags(Flag::NEGATIVE)
        .load_program(&[0x08, 0x18, 0x28])
        .build();
    cpu.step(); // PHP
    cpu.step(); // CLC
    assert!(!cpu.status.get_flag(Flag::CARRY));
    cpu.step(); // PLP
    assert_eq!(cpu.status.get_status(), 0x81);
    assert_eq!(cpu.stack.get(), 0xFF);
}

#[test]
fn test_inx_then_dex_restores_x() {
    for x in [0x00u8, 0x7F, 0x80, 0xFF] {
        let mut cpu = CPUBuilder::new()
            .set_register_x(x)
            .load_program(&[0xE8, 0xCA, 0xCA, 0xE8])
            .build();
        cpu.step();
        cpu.step();
        assert_eq!(cpu.register.x, x);
        cpu.step();
        cpu.step();
        assert_eq!(cpu.register.x, x);
    }
}
