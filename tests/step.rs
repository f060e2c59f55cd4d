use rutil::cpu::instructions::{Instructions, LogicTargets};
use rutil::cpu::{CpuFault, CPU};

fn cpu_with_program(at: u16, bytes: &[u8]) -> CPU {
    let mut cpu = CPU::new();
    for (i, b) in bytes.iter().enumerate() {
        cpu.memory.write_byte(at + i as u16, *b);
    }
    cpu.registry.pc = at;
    cpu
}

#[test]
fn call_then_ret_keeps_stack_discipline() {
    let mut cpu = cpu_with_program(0x0100, &[0xCD, 0x50, 0x01]);
    cpu.memory.write_byte(0x0150, 0xC9);
    cpu.registry.sp = 0xFFFE;
    assert_eq!(cpu.step(), Ok(()));
    assert_eq!(cpu.registry.pc, 0x0150);
    assert_eq!(cpu.registry.sp, 0xFFFC);
    assert_eq!(cpu.memory.read_word(0xFFFC), 0x0103);
    assert_eq!(cpu.step(), Ok(()));
    assert_eq!(cpu.registry.pc, 0x0103);
    assert_eq!(cpu.registry.sp, 0xFFFE);
    assert_eq!(cpu.last_instruction, Instructions::RET());
}

#[test]
fn pc_advances_past_immediates() {
    // LD A,n8; LD BC,n16; NOP; LD (a16),A
    let mut cpu = cpu_with_program(0xC000, &[0x3E, 0x42, 0x01, 0x34, 0x12, 0x00, 0xEA, 0x00, 0xD0]);
    cpu.step().unwrap();
    assert_eq!(cpu.registry.a, 0x42);
    assert_eq!(cpu.registry.pc, 0xC002);
    cpu.step().unwrap();
    assert_eq!(cpu.registry.get_bc(), 0x1234);
    assert_eq!(cpu.registry.pc, 0xC005);
    cpu.step().unwrap();
    assert_eq!(cpu.registry.pc, 0xC006);
    cpu.step().unwrap();
    assert_eq!(cpu.memory.read_byte(0xD000), 0x42);
    assert_eq!(cpu.registry.pc, 0xC009);
}

#[test]
fn prefixed_instruction_takes_two_bytes() {
    let mut cpu = cpu_with_program(0xC000, &[0xCB, 0x37]);
    cpu.registry.a = 0x12;
    cpu.step().unwrap();
    assert_eq!(cpu.registry.a, 0x21);
    assert_eq!(cpu.registry.pc, 0xC002);
    assert_eq!(cpu.last_instruction, Instructions::SWAP(LogicTargets::A));
}

#[test]
fn relative_jumps() {
    // JR -2 jumps to itself
    let mut cpu = cpu_with_program(0xC000, &[0x18, 0xFE]);
    cpu.step().unwrap();
    assert_eq!(cpu.registry.pc, 0xC000);

    // JR NZ,+4 taken, then not taken once zero is set
    let mut cpu = cpu_with_program(0xC000, &[0x20, 0x04]);
    cpu.step().unwrap();
    assert_eq!(cpu.registry.pc, 0xC006);
    cpu.registry.pc = 0xC000;
    cpu.registry.f.z_zero = true;
    cpu.step().unwrap();
    assert_eq!(cpu.registry.pc, 0xC002);
}

#[test]
fn conditional_jump_and_call_not_taken_skip_operands() {
    let mut cpu = cpu_with_program(0xC000, &[0xDA, 0x00, 0x20, 0xDC, 0x00, 0x30]);
    cpu.registry.sp = 0xFFFE;
    cpu.step().unwrap();
    assert_eq!(cpu.registry.pc, 0xC003);
    cpu.step().unwrap();
    assert_eq!(cpu.registry.pc, 0xC006);
    assert_eq!(cpu.registry.sp, 0xFFFE);
}

#[test]
fn rst_and_jp_hl() {
    let mut cpu = cpu_with_program(0xC000, &[0xEF]);
    cpu.registry.sp = 0xFFFE;
    cpu.step().unwrap();
    assert_eq!(cpu.registry.pc, 0x0028);
    assert_eq!(cpu.memory.read_word(0xFFFC), 0xC001);

    let mut cpu = cpu_with_program(0xC000, &[0xE9]);
    cpu.registry.set_hl(0x4000);
    cpu.step().unwrap();
    assert_eq!(cpu.registry.pc, 0x4000);
}

#[test]
fn push_and_pop() {
    let mut cpu = cpu_with_program(0xC000, &[0xC5, 0xF1]);
    cpu.registry.sp = 0xFFFE;
    cpu.registry.set_bc(0x12FF);
    cpu.step().unwrap();
    assert_eq!(cpu.registry.sp, 0xFFFC);
    assert_eq!(cpu.memory.read_word(0xFFFC), 0x12FF);
    cpu.step().unwrap();
    assert_eq!(cpu.registry.sp, 0xFFFE);
    assert_eq!(cpu.registry.get_af(), 0x12F0);
}

#[test]
fn high_page_loads() {
    // LDH (n8),A ; LDH A,(n8) ; LD (C),A ; LD A,(C)
    let mut cpu = cpu_with_program(0xC000, &[0xE0, 0x80, 0xF0, 0x81, 0xE2, 0xF2]);
    cpu.registry.a = 0x77;
    cpu.memory.write_byte(0xFF81, 0x55);
    cpu.registry.c = 0x90;
    cpu.step().unwrap();
    assert_eq!(cpu.memory.read_byte(0xFF80), 0x77);
    cpu.step().unwrap();
    assert_eq!(cpu.registry.a, 0x55);
    cpu.step().unwrap();
    assert_eq!(cpu.memory.read_byte(0xFF90), 0x55);
    cpu.memory.write_byte(0xFF90, 0x66);
    cpu.step().unwrap();
    assert_eq!(cpu.registry.a, 0x66);
    assert_eq!(cpu.registry.pc, 0xC006);
}

#[test]
fn high_page_guard_on_word_address() {
    let mut cpu = cpu_with_program(0xC000, &[0x00, 0x00, 0xC0]);
    cpu.registry.a = 0x99;
    cpu.execution(&Instructions::LDHN16A(LogicTargets::N16));
    assert_eq!(cpu.memory.read_byte(0xC000), 0x00);
    cpu.execution(&Instructions::LDHAN16(LogicTargets::N16));
    assert_eq!(cpu.registry.a, 0x99);

    let mut cpu = cpu_with_program(0xC000, &[0x00, 0x85, 0xFF]);
    cpu.registry.a = 0x99;
    cpu.execution(&Instructions::LDHN16A(LogicTargets::N16));
    assert_eq!(cpu.memory.read_byte(0xFF85), 0x99);
}

#[test]
fn hl_increment_and_decrement_loads() {
    // LD (HL+),A ; LD (HL-),A ; LD A,(HL+) ; LD A,(HL-)
    let mut cpu = cpu_with_program(0xC000, &[0x22, 0x32, 0x2A, 0x3A]);
    cpu.registry.set_hl(0xD000);
    cpu.registry.a = 0x11;
    cpu.step().unwrap();
    assert_eq!(cpu.memory.read_byte(0xD000), 0x11);
    assert_eq!(cpu.registry.get_hl(), 0xD001);
    cpu.registry.a = 0x22;
    cpu.step().unwrap();
    assert_eq!(cpu.memory.read_byte(0xD001), 0x22);
    assert_eq!(cpu.registry.get_hl(), 0xD000);
    cpu.step().unwrap();
    assert_eq!(cpu.registry.a, 0x11);
    assert_eq!(cpu.registry.get_hl(), 0xD001);
    cpu.step().unwrap();
    assert_eq!(cpu.registry.a, 0x22);
    assert_eq!(cpu.registry.get_hl(), 0xD000);
}

#[test]
fn store_sp_and_load_hl_from_sp() {
    let mut cpu = cpu_with_program(0xC000, &[0x08, 0x00, 0xD0, 0xF8, 0x02]);
    cpu.registry.sp = 0xABCD;
    cpu.step().unwrap();
    assert_eq!(cpu.memory.read_byte(0xD000), 0xCD);
    assert_eq!(cpu.memory.read_byte(0xD001), 0xAB);
    cpu.step().unwrap();
    assert_eq!(cpu.registry.get_hl(), 0xABCF);
    assert_eq!(cpu.registry.sp, 0xABCD);
}

#[test]
fn illegal_opcode_is_reported_and_changes_nothing() {
    let mut cpu = cpu_with_program(0xC000, &[0xD3]);
    cpu.registry.a = 0x5A;
    let before = cpu.registry;
    assert_eq!(cpu.step(), Err(CpuFault::IllegalOpcode(0xD3)));
    assert_eq!(cpu.registry, before);
    assert_eq!(cpu.last_instruction, Instructions::NOP());
}

#[test]
fn halt_through_step_advances_one_byte() {
    let mut cpu = cpu_with_program(0xC000, &[0x76]);
    cpu.step().unwrap();
    assert!(cpu.registry.halted);
    assert_eq!(cpu.registry.pc, 0xC001);
}

#[test]
fn memory_reads_through_pairs() {
    let mut cpu = cpu_with_program(0xC000, &[0x0A, 0x12, 0x7E, 0x70]);
    cpu.registry.set_bc(0xD100);
    cpu.registry.set_de(0xD200);
    cpu.registry.set_hl(0xD300);
    cpu.memory.write_byte(0xD100, 0xAA);
    cpu.memory.write_byte(0xD300, 0xBB);
    cpu.registry.b = 0xD1;
    cpu.step().unwrap();
    assert_eq!(cpu.registry.a, 0xAA);
    cpu.step().unwrap();
    assert_eq!(cpu.memory.read_byte(0xD200), 0xAA);
    cpu.step().unwrap();
    assert_eq!(cpu.registry.a, 0xBB);
    cpu.step().unwrap();
    assert_eq!(cpu.memory.read_byte(0xD300), 0xD1);
    assert_eq!(cpu.target_to_value_r8(&LogicTargets::HL), 0xD1);
    assert_eq!(cpu.target_to_value_r16(&LogicTargets::DE), 0xD200);
}
