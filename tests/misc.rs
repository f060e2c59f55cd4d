use rutil::cpu::instructions::{Instructions, LogicTargets};
use rutil::cpu::CPU;

#[test]
fn daa_normalises_low_digit() {
    let mut cpu = CPU::new();
    cpu.registry.a = 0x0A;
    cpu.execution(&Instructions::DAA());
    assert_eq!(cpu.registry.a, 0x10);
    assert!(!cpu.registry.f.c_carry && !cpu.registry.f.h_half_carry_bcd && !cpu.registry.f.z_zero);
}

#[test]
fn daa_after_add() {
    let mut cpu = CPU::new();
    cpu.registry.a = 0x09;
    cpu.registry.b = 0x01;
    cpu.execution(&Instructions::ADD(LogicTargets::B));
    assert_eq!(cpu.registry.a, 0x0A);
    cpu.execution(&Instructions::DAA());
    assert_eq!(cpu.registry.a, 0x10);

    let mut cpu = CPU::new();
    cpu.registry.a = 0x19;
    cpu.registry.b = 0x28;
    cpu.execution(&Instructions::ADD(LogicTargets::B));
    assert_eq!(cpu.registry.a, 0x41);
    assert!(cpu.registry.f.h_half_carry_bcd);
    cpu.execution(&Instructions::DAA());
    assert_eq!(cpu.registry.a, 0x47);

    let mut cpu = CPU::new();
    cpu.registry.a = 0x99;
    cpu.registry.b = 0x01;
    cpu.execution(&Instructions::ADD(LogicTargets::B));
    cpu.execution(&Instructions::DAA());
    assert_eq!(cpu.registry.a, 0x00);
    assert!(cpu.registry.f.c_carry && cpu.registry.f.z_zero);
}

#[test]
fn daa_after_sub() {
    let mut cpu = CPU::new();
    cpu.registry.a = 0x10;
    cpu.registry.b = 0x01;
    cpu.execution(&Instructions::SUB(LogicTargets::B));
    assert_eq!(cpu.registry.a, 0x0F);
    cpu.execution(&Instructions::DAA());
    assert_eq!(cpu.registry.a, 0x09);
    assert!(cpu.registry.f.n_subtraction_bcd);

    let mut cpu = CPU::new();
    cpu.registry.a = 0x00;
    cpu.registry.b = 0x01;
    cpu.execution(&Instructions::SUB(LogicTargets::B));
    cpu.execution(&Instructions::DAA());
    assert_eq!(cpu.registry.a, 0x99);
    assert!(cpu.registry.f.c_carry);
}

#[test]
fn halt_sets_mode_and_keeps_registers() {
    let mut cpu = CPU::new();
    cpu.registry.a = 0x12;
    cpu.registry.set_bc(0x3456);
    cpu.registry.sp = 0xFFFE;
    cpu.registry.pc = 0x0150;
    let mut expected = cpu.registry;
    cpu.execution(&Instructions::HALT());
    assert!(cpu.registry.halted);
    expected.halted = true;
    assert_eq!(cpu.registry, expected);
}

#[test]
fn stop_sets_low_power_mode() {
    let mut cpu = CPU::new();
    cpu.execution(&Instructions::STOP());
    assert!(cpu.registry.low_power_mode);
    assert!(!cpu.registry.halted);
}

#[test]
fn di_then_ei_enables_interrupts() {
    let mut cpu = CPU::new();
    cpu.registry.interrupts_enabled = true;
    cpu.execution(&Instructions::DI());
    assert!(!cpu.registry.interrupts_enabled);
    cpu.execution(&Instructions::EI());
    assert!(cpu.registry.interrupts_enabled);
}

#[test]
fn carry_flag_instructions() {
    let mut cpu = CPU::new();
    cpu.registry.f.n_subtraction_bcd = true;
    cpu.registry.f.h_half_carry_bcd = true;
    cpu.execution(&Instructions::SCF());
    assert!(cpu.registry.f.c_carry && !cpu.registry.f.n_subtraction_bcd && !cpu.registry.f.h_half_carry_bcd);
    cpu.execution(&Instructions::CCF());
    assert!(!cpu.registry.f.c_carry);
    cpu.registry.a = 0x35;
    cpu.execution(&Instructions::CPL());
    assert_eq!(cpu.registry.a, 0xCA);
    assert!(cpu.registry.f.n_subtraction_bcd && cpu.registry.f.h_half_carry_bcd);
}
