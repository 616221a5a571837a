use cpu6502::cpu::flags::Flag;
use cpu6502::cpu::cpu_builder::CPUBuilder;

#[test]
fn test_inc_zeropage() {
    let mut cpu = CPUBuilder::new()
        .memory(0x10, 0x05)
        .load_program(&[
            0xE6,
            0x10,
        ])
        .build();

    cpu.step();

    assert_eq!(cpu.memory.mem_read(0x10), 0x06);
}

#[test]
fn test_inc_sets_zero_flag() {
    let mut cpu = CPUBuilder::new()
        .memory(0x10, 0xFF)
        .load_program(&[
            0xE6,
            0x10,
        ])
        .build();

    cpu.step();

    assert_eq!(cpu.memory.mem_read(0x10), 0x00);
    assert!(cpu.status.get_flag(Flag::ZERO));
}

#[test]
fn test_inc_sets_negative_flag() {
    let mut cpu = CPUBuilder::new()
        .memory(0x10, 0x7F)
        .load_program(&[
            0xE6,
            0x10,
        ])
        .build();

    cpu.step();

    assert_eq!(cpu.memory.mem_read(0x10), 0x80);
    assert!(cpu.status.get_flag(Flag::NEGATIVE));
}

#[test]
fn test_inx_increment() {
    let mut cpu = CPUBuilder::new()
        .set_register_x(0x41)
        .load_program(&[0xE8])
        .build();

    cpu.step();

    assert_eq!(cpu.register.x, 0x42);
}

#[test]
fn test_inx_overflow() {
    let mut cpu = CPUBuilder::new()
        .set_register_x(0xFF)
        .load_program(&[0xE8])
        .build();

    cpu.step();

    assert_eq!(cpu.register.x, 0x00);
}

#[test]
fn test_inx_flags() {
    let mut cpu = CPUBuilder::new()
        .set_register_x(0xFF)
        .load_program(&[0xE8])
        .build();

    cpu.step();

    assert!(cpu.status.get_flag(Flag::ZERO));
    assert!(!cpu.status.get_flag(Flag::NEGATIVE));

    cpu.register.x = 0x7F;

    cpu.reset();
    cpu.step();

    assert!(!cpu.status.get_flag(Flag::ZERO));
    assert!(cpu.status.get_flag(Flag::NEGATIVE));
}

#[test]
fn test_iny_increment_y() {
    let mut cpu = CPUBuilder::new()
        .set_register_y(0x10)
        .load_program(&[0xC8])
        .build();

    cpu.step();

    assert_eq!(cpu.register.y, 0x11);
}

#[test]
fn test_iny_sets_zero_flag() {
    let mut cpu = CPUBuilder::new()
        .set_register_y(0xFF)
        .load_program(&[0xC8])
        .build();

    cpu.step();

    assert_eq!(cpu.register.y, 0x00);
    assert!(cpu.status.get_flag(Flag::ZERO));
}

#[test]
fn test_iny_sets_negative_flag() {
    let mut cpu = CPUBuilder::new()
        .set_register_y(0x7F)
        .load_program(&[0xC8])
        .build();

    cpu.step();

    assert_eq!(cpu.register.y, 0x80);
    assert!(cpu.status.get_flag(Flag::NEGATIVE));
}

#[test]
fn test_dec_zeropage() {
    let mut cpu = CPUBuilder::new()
        .memory(0x10, 0x05)
        .load_program(&[
            0xC6,
            0x10,
        ])
        .build();

    cpu.step();

    assert_eq!(cpu.memory.mem_read(0x10), 0x04);
}

#[test]
fn test_dec_sets_zero_flag() {
    let mut cpu = CPUBuilder::new()
        .memory(0x10, 0x01)
        .load_program(&[
            0xC6,
            0x10,
        ])
        .build();

    cpu.step();

    assert_eq!(cpu.memory.mem_read(0x10), 0x00);
    assert!(cpu.status.get_flag(Flag::ZERO));
}

#[test]
fn test_dec_sets_negative_flag() {
    let mut cpu = CPUBuilder::new()
        .memory(0x10, 0x00)
        .load_program(&[
            0xC6,
            0x10,
        ])
        .build();

    cpu.step();

    assert_eq!(cpu.memory.mem_read(0x10), 0xFF);
    assert!(cpu.status.get_flag(Flag::NEGATIVE));
}

#[test]
fn test_dex_decrement_x() {
    let mut cpu = CPUBuilder::new()
        .set_register_x(0x10)
        .load_program(&[0xCA])
        .build();

    cpu.step();

    assert_eq!(cpu.register.x, 0x0F);
}

#[test]
fn test_dex_sets_zero_flag() {
    let mut cpu = CPUBuilder::new()
        .set_register_x(0x01)
        .load_program(&[0xCA])
        .build();

    cpu.step();

    assert_eq!(cpu.register.x, 0x00);
    assert!(cpu.status.get_flag(Flag::ZERO));
}

#[test]
fn test_dex_wraps_underflow() {
    let mut cpu = CPUBuilder::new()
        .set_register_x(0x00)
        .load_program(&[0xCA])
        .build();

    cpu.step();

    assert_eq!(cpu.register.x, 0xFF);
}

#[test]
fn test_dex_sets_negative_flag() {
    let mut cpu = CPUBuilder::new()
        .set_register_x(0x00)
        .load_program(&[0xCA])
        .build();

    cpu.step();

    assert!(cpu.status.get_flag(Flag::NEGATIVE));
}

#[test]
fn test_dey_decrement_y() {
    let mut cpu = CPUBuilder::new()
        .set_register_y(0x10)
        .load_program(&[0x88])
        .build();

    cpu.step();

    assert_eq!(cpu.register.y, 0x0F);
}

#[test]
fn test_dey_sets_zero_flag() {
    let mut cpu = CPUBuilder::new()
        .set_register_y(0x01)
        .load_program(&[0x88])
        .build();

    cpu.step();

    assert_eq!(cpu.register.y, 0x00);
    assert!(cpu.status.get_flag(Flag::ZERO));
}

#[test]
fn test_dey_wraps_underflow() {
    let mut cpu = CPUBuilder::new()
        .set_register_y(0x00)
        .load_program(&[0x88])
        .build();

    cpu.step();

    assert_eq!(cpu.register.y, 0xFF);
}

#[test]
fn test_dey_sets_negative_flag() {
    let mut cpu = CPUBuilder::new()
        .set_register_y(0x00)
        .load_program(&[0x88])
        .build();

    cpu.step();

    assert!(cpu.status.get_flag(Flag::NEGATIVE));
}
