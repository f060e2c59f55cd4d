use rutil::cpu::instructions::{Instructions, LogicTargets};
use rutil::cpu::CPU;

#[test]
fn rlca_on_0x80() {
    let mut cpu = CPU::new();
    cpu.registry.a = 0x80;
    cpu.execution(&Instructions::RLCA());
    assert_eq!(cpu.registry.a, 0x01);
    assert!(cpu.registry.f.c_carry);
}

#[test]
fn rrca_on_0x01() {
    let mut cpu = CPU::new();
    cpu.registry.a = 0x01;
    cpu.execution(&Instructions::RRCA());
    assert_eq!(cpu.registry.a, 0x80);
    assert!(cpu.registry.f.c_carry);
}

#[test]
fn accumulator_rotates_keep_zero_flag() {
    let mut cpu = CPU::new();
    cpu.registry.a = 0x80;
    cpu.execution(&Instructions::RLA());
    assert_eq!(cpu.registry.a, 0x00);
    assert!(cpu.registry.f.c_carry);
    assert!(!cpu.registry.f.z_zero);

    let mut cpu = CPU::new();
    cpu.registry.b = 0x80;
    cpu.execution(&Instructions::RL(LogicTargets::B));
    assert_eq!(cpu.registry.b, 0x00);
    assert!(cpu.registry.f.z_zero);
}

#[test]
fn rotates_through_carry() {
    let mut cpu = CPU::new();
    cpu.registry.a = 0x01;
    cpu.registry.f.c_carry = true;
    cpu.execution(&Instructions::RRA());
    assert_eq!(cpu.registry.a, 0x80);
    assert!(cpu.registry.f.c_carry);
    cpu.execution(&Instructions::RR(LogicTargets::A));
    assert_eq!(cpu.registry.a, 0xC0);
    assert!(!cpu.registry.f.c_carry);
}

#[test]
fn shifts_on_register_and_memory() {
    let mut cpu = CPU::new();
    cpu.registry.c = 0x81;
    cpu.execution(&Instructions::SRA(LogicTargets::C));
    assert_eq!(cpu.registry.c, 0xC0);
    assert!(cpu.registry.f.c_carry);
    cpu.execution(&Instructions::SRL(LogicTargets::C));
    assert_eq!(cpu.registry.c, 0x60);
    assert!(!cpu.registry.f.c_carry);
    cpu.execution(&Instructions::SLA(LogicTargets::C));
    assert_eq!(cpu.registry.c, 0xC0);

    cpu.registry.set_hl(0xD000);
    cpu.memory.write_byte(0xD000, 0x85);
    cpu.execution(&Instructions::RLC(LogicTargets::HL));
    assert_eq!(cpu.memory.read_byte(0xD000), 0x0B);
    assert!(cpu.registry.f.c_carry);
    cpu.execution(&Instructions::RRC(LogicTargets::HL));
    assert_eq!(cpu.memory.read_byte(0xD000), 0x85);
}

#[test]
fn bit_res_set_swap() {
    let mut cpu = CPU::new();
    cpu.registry.d = 0b1000_0000;
    cpu.registry.f.c_carry = true;
    cpu.execution(&Instructions::BIT(7, LogicTargets::D));
    assert!(!cpu.registry.f.z_zero);
    assert!(cpu.registry.f.h_half_carry_bcd && cpu.registry.f.c_carry);
    cpu.execution(&Instructions::BIT(0, LogicTargets::D));
    assert!(cpu.registry.f.z_zero);
    assert_eq!(cpu.registry.d, 0x80);

    cpu.execution(&Instructions::RES(7, LogicTargets::D));
    assert_eq!(cpu.registry.d, 0x00);
    cpu.execution(&Instructions::SET(3, LogicTargets::D));
    assert_eq!(cpu.registry.d, 0x08);

    cpu.registry.set_hl(0xC010);
    cpu.memory.write_byte(0xC010, 0x3C);
    cpu.execution(&Instructions::SWAP(LogicTargets::HL));
    assert_eq!(cpu.memory.read_byte(0xC010), 0xC3);
    assert!(!cpu.registry.f.z_zero && !cpu.registry.f.c_carry);
    cpu.execution(&Instructions::SET(0, LogicTargets::HL));
    assert_eq!(cpu.memory.read_byte(0xC010), 0xC3);
    cpu.execution(&Instructions::RES(0, LogicTargets::HL));
    assert_eq!(cpu.memory.read_byte(0xC010), 0xC2);
}
