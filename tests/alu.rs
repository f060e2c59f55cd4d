use rutil::cpu::instructions::{Instructions, LogicTargets};
use rutil::cpu::CPU;

fn cpu_with_a(a: u8) -> CPU {
    let mut cpu = CPU::new();
    cpu.registry.a = a;
    cpu
}

#[test]
fn add_a_a_half_carry() {
    let mut cpu = cpu_with_a(0x0F);
    cpu.execution(&Instructions::ADD(LogicTargets::A));
    assert_eq!(cpu.registry.a, 0x1E);
    assert!(cpu.registry.f.h_half_carry_bcd);
    assert!(!cpu.registry.f.c_carry);
    assert!(!cpu.registry.f.z_zero);
    assert!(!cpu.registry.f.n_subtraction_bcd);
}

#[test]
fn add_a_a_carry_and_zero() {
    let mut cpu = cpu_with_a(0x80);
    cpu.execution(&Instructions::ADD(LogicTargets::A));
    assert_eq!(cpu.registry.a, 0x00);
    assert!(cpu.registry.f.c_carry);
    assert!(cpu.registry.f.z_zero);
    assert!(!cpu.registry.f.h_half_carry_bcd);
}

#[test]
fn adc_adds_carry_in() {
    let mut cpu = cpu_with_a(0x0E);
    cpu.registry.b = 0x01;
    cpu.registry.f.c_carry = true;
    cpu.execution(&Instructions::ADC(LogicTargets::B));
    assert_eq!(cpu.registry.a, 0x10);
    assert!(cpu.registry.f.h_half_carry_bcd);
    assert!(!cpu.registry.f.c_carry);
}

#[test]
fn add_immediate_reads_byte_after_opcode() {
    let mut cpu = cpu_with_a(0x10);
    cpu.registry.pc = 0xC000;
    cpu.memory.write_byte(0xC000, 0xC6);
    cpu.memory.write_byte(0xC001, 0x05);
    cpu.execution(&Instructions::ADD(LogicTargets::N8));
    assert_eq!(cpu.registry.a, 0x15);
}

#[test]
fn sub_borrow_and_half_borrow() {
    let mut cpu = cpu_with_a(0x10);
    cpu.registry.c = 0x01;
    cpu.execution(&Instructions::SUB(LogicTargets::C));
    assert_eq!(cpu.registry.a, 0x0F);
    assert!(cpu.registry.f.n_subtraction_bcd);
    assert!(cpu.registry.f.h_half_carry_bcd);
    assert!(!cpu.registry.f.c_carry);

    let mut cpu = cpu_with_a(0x00);
    cpu.registry.c = 0x01;
    cpu.execution(&Instructions::SUB(LogicTargets::C));
    assert_eq!(cpu.registry.a, 0xFF);
    assert!(cpu.registry.f.c_carry);
}

#[test]
fn sbc_subtracts_carry_in() {
    let mut cpu = cpu_with_a(0x05);
    cpu.registry.d = 0x05;
    cpu.registry.f.c_carry = true;
    cpu.execution(&Instructions::SBC(LogicTargets::D));
    assert_eq!(cpu.registry.a, 0xFF);
    assert!(cpu.registry.f.c_carry);
    assert!(cpu.registry.f.h_half_carry_bcd);
    assert!(!cpu.registry.f.z_zero);
}

#[test]
fn cp_sets_flags_and_keeps_a() {
    let mut cpu = cpu_with_a(0x42);
    cpu.registry.e = 0x42;
    cpu.execution(&Instructions::CP(LogicTargets::E));
    assert_eq!(cpu.registry.a, 0x42);
    assert!(cpu.registry.f.z_zero);
    assert!(cpu.registry.f.n_subtraction_bcd);
}

#[test]
fn and_or_xor_flags() {
    let mut cpu = cpu_with_a(0xF0);
    cpu.registry.b = 0x0F;
    cpu.registry.f.c_carry = true;
    cpu.execution(&Instructions::AND(LogicTargets::B));
    assert_eq!(cpu.registry.a, 0x00);
    assert!(cpu.registry.f.z_zero && cpu.registry.f.h_half_carry_bcd && !cpu.registry.f.c_carry);

    cpu.execution(&Instructions::OR(LogicTargets::B));
    assert_eq!(cpu.registry.a, 0x0F);
    assert!(!cpu.registry.f.z_zero && !cpu.registry.f.h_half_carry_bcd);

    cpu.execution(&Instructions::XOR(LogicTargets::A));
    assert_eq!(cpu.registry.a, 0x00);
    assert!(cpu.registry.f.z_zero);
}

#[test]
fn inc_and_dec_keep_carry() {
    let mut cpu = CPU::new();
    cpu.registry.h = 0xFF;
    cpu.registry.f.c_carry = true;
    cpu.execution(&Instructions::INC(LogicTargets::H));
    assert_eq!(cpu.registry.h, 0x00);
    assert!(cpu.registry.f.z_zero && cpu.registry.f.h_half_carry_bcd && cpu.registry.f.c_carry);
    cpu.execution(&Instructions::DEC(LogicTargets::H));
    assert_eq!(cpu.registry.h, 0xFF);
    assert!(cpu.registry.f.n_subtraction_bcd && cpu.registry.f.h_half_carry_bcd && cpu.registry.f.c_carry);
}

#[test]
fn inc_and_dec_through_hl() {
    let mut cpu = CPU::new();
    cpu.registry.set_hl(0xC100);
    cpu.memory.write_byte(0xC100, 0x0F);
    cpu.execution(&Instructions::INCHL());
    assert_eq!(cpu.memory.read_byte(0xC100), 0x10);
    assert!(cpu.registry.f.h_half_carry_bcd);
    cpu.execution(&Instructions::DECHL());
    cpu.execution(&Instructions::DECHL());
    assert_eq!(cpu.memory.read_byte(0xC100), 0x0E);
}

#[test]
fn sixteen_bit_inc_dec_wrap_without_flags() {
    let mut cpu = CPU::new();
    cpu.registry.set_bc(0xFFFF);
    cpu.execution(&Instructions::INC(LogicTargets::BC));
    assert_eq!(cpu.registry.get_bc(), 0x0000);
    assert_eq!(cpu.registry.f.get_flags(), 0);
    cpu.execution(&Instructions::DEC(LogicTargets::SP));
    assert_eq!(cpu.registry.sp, 0xFFFF);
    cpu.execution(&Instructions::INC(LogicTargets::SP));
    assert_eq!(cpu.registry.sp, 0x0000);
}

#[test]
fn add_hl_carries_from_bits_eleven_and_fifteen() {
    let mut cpu = CPU::new();
    cpu.registry.set_hl(0x8FFF);
    cpu.registry.set_de(0x8001);
    cpu.registry.f.z_zero = true;
    cpu.execution(&Instructions::ADDHLR16(LogicTargets::DE));
    assert_eq!(cpu.registry.get_hl(), 0x1000);
    assert!(cpu.registry.f.c_carry && cpu.registry.f.h_half_carry_bcd);
    assert!(cpu.registry.f.z_zero);
}

#[test]
fn add_sp_signed_displacement() {
    let mut cpu = CPU::new();
    cpu.registry.sp = 0xFFF8;
    cpu.registry.pc = 0xC000;
    cpu.memory.write_byte(0xC001, 0xFE);
    cpu.registry.f.z_zero = true;
    cpu.execution(&Instructions::ADDSPE8(LogicTargets::E8));
    assert_eq!(cpu.registry.sp, 0xFFF6);
    assert!(!cpu.registry.f.z_zero);
    assert!(cpu.registry.f.c_carry);
    assert!(cpu.registry.f.h_half_carry_bcd);
}
