use vstd::prelude::*;

use super::CPU;
use super::flags::FlagCondition;
use super::registry::CPURegistry;
use crate::memory::Memory;
use self::bitop::{bitop_spec, is_bitop};
use self::bitshift::{bitshift_spec, is_bitshift};
use self::jumps::{branch_taken, is_jump, jump_spec};
use self::load::{is_load, load_spec};
use self::logic::{is_logic, logic_spec};
use self::misc::{is_misc, misc_spec};

pub mod decoder;
pub mod load;
pub mod logic;
pub mod bitop;
pub mod bitshift;
pub mod jumps;
pub mod misc;

verus! {

/// Operand descriptors. In an 8-bit operand position `BC`, `DE` and `HL`
/// denote the byte addressed by that pair; elsewhere they denote the pair.
/// `N8` and `N16` are the immediate byte and word that follow the opcode,
/// `E8` the immediate byte read as a signed displacement.
#[derive(Clone, Copy, Debug, PartialEq, Eq, Structural)]
pub enum LogicTargets {
    B,
    C,
    D,
    E,
    H,
    L,
    A,
    BC,
    DE,
    AF,
    HL,
    SP,
    N8,
    N16,
    E8,
}

/// One decoded instruction.
#[derive(Clone, Copy, Debug, PartialEq, Eq, Structural)]
pub enum Instructions {
    // arithmetic and logic on the accumulator, 8-bit and 16-bit increments
    ADD(LogicTargets),
    ADC(LogicTargets),
    SUB(LogicTargets),
    SBC(LogicTargets),
    AND(LogicTargets),
    XOR(LogicTargets),
    OR(LogicTargets),
    CP(LogicTargets),
    INC(LogicTargets),
    INCHL(),
    DEC(LogicTargets),
    DECHL(),
    ADDHLR16(LogicTargets),
    ADDSPE8(LogicTargets),
    // single-bit operations
    BIT(u8, LogicTargets),
    RES(u8, LogicTargets),
    SET(u8, LogicTargets),
    SWAP(LogicTargets),
    // rotates and shifts
    RLC(LogicTargets),
    RRC(LogicTargets),
    RL(LogicTargets),
    RR(LogicTargets),
    SLA(LogicTargets),
    SRA(LogicTargets),
    SRL(LogicTargets),
    RLCA(),
    RRCA(),
    RLA(),
    RRA(),
    // loads
    LD(LogicTargets, LogicTargets),
    LDR16R8(LogicTargets, LogicTargets),
    LDHN16A(LogicTargets),
    LDHCA(),
    LDHAN16(LogicTargets),
    LDHAC(),
    LDHLIA(),
    LDHLDA(),
    LDAHLI(),
    LDAHLD(),
    LDN16SP(LogicTargets),
    LDHLSPE8(LogicTargets),
    // jumps, subroutines and the stack
    JP(LogicTargets),
    JPC(FlagCondition, LogicTargets),
    JR(LogicTargets),
    JRC(LogicTargets, FlagCondition),
    CALL(LogicTargets),
    CALLC(FlagCondition, LogicTargets),
    RET(),
    RETC(FlagCondition),
    RETI(),
    RST(u8),
    PUSH(LogicTargets),
    POP(LogicTargets),
    // flag-only and mode instructions
    CCF(),
    CPL(),
    DAA(),
    DI(),
    EI(),
    HALT(),
    NOP(),
    SCF(),
    STOP(),
    // the lead byte of the second opcode table
    PREFIX(),
    // an opcode that the processor does not define
    ILLEGAL(u8),
}

/// One of the seven 8-bit registers.
pub open spec fn is_r8(t: LogicTargets) -> bool {
    matches!(t, LogicTargets::A | LogicTargets::B | LogicTargets::C | LogicTargets::D
        | LogicTargets::E | LogicTargets::H | LogicTargets::L)
}

/// An 8-bit register or the byte addressed by `hl`.
pub open spec fn is_r8_or_mem(t: LogicTargets) -> bool {
    is_r8(t) || t == LogicTargets::HL
}

/// A source of the accumulator operations: register, `(hl)` or immediate byte.
pub open spec fn is_alu_src(t: LogicTargets) -> bool {
    is_r8_or_mem(t) || t == LogicTargets::N8
}

/// A 16-bit register that arithmetic can name.
pub open spec fn is_r16(t: LogicTargets) -> bool {
    matches!(t, LogicTargets::BC | LogicTargets::DE | LogicTargets::HL | LogicTargets::SP)
}

/// A register pair that can be pushed or popped.
pub open spec fn is_stack_pair(t: LogicTargets) -> bool {
    matches!(t, LogicTargets::BC | LogicTargets::DE | LogicTargets::HL | LogicTargets::AF)
}

/// A source of an 8-bit register load: register, byte addressed by a pair,
/// immediate byte, or byte at an immediate address.
pub open spec fn is_load_src8(t: LogicTargets) -> bool {
    is_r8(t) || matches!(t, LogicTargets::BC | LogicTargets::DE | LogicTargets::HL
        | LogicTargets::N8 | LogicTargets::N16)
}

/// Number of immediate bytes an operand descriptor reads.
pub open spec fn operand_len(t: LogicTargets) -> nat {
    match t {
        LogicTargets::N8 | LogicTargets::E8 => 1,
        LogicTargets::N16 => 2,
        _ => 0,
    }
}

/// Value of a 16-bit register.
pub open spec fn reg16(r: CPURegistry, t: LogicTargets) -> u16 {
    match t {
        LogicTargets::BC => r.bc(),
        LogicTargets::DE => r.de(),
        LogicTargets::HL => r.hl(),
        LogicTargets::AF => r.af(),
        _ => r.sp,
    }
}

/// The register file after writing `v` into a 16-bit register.
pub open spec fn with_reg16(r: CPURegistry, t: LogicTargets, v: u16) -> CPURegistry {
    match t {
        LogicTargets::BC => r.with_bc(v),
        LogicTargets::DE => r.with_de(v),
        LogicTargets::HL => r.with_hl(v),
        LogicTargets::AF => r.with_af(v),
        _ => CPURegistry { sp: v, ..r },
    }
}

impl Instructions {
    /// The operand descriptors fit the instruction.
    pub open spec fn well_formed(self) -> bool {
        match self {
            Instructions::ADD(t) | Instructions::ADC(t) | Instructions::SUB(t) | Instructions::SBC(t)
            | Instructions::AND(t) | Instructions::XOR(t) | Instructions::OR(t) | Instructions::CP(
                t,
            ) => is_alu_src(t),
            Instructions::INC(t) | Instructions::DEC(t) => is_r8(t) || is_r16(t),
            Instructions::ADDHLR16(t) => is_r16(t),
            Instructions::ADDSPE8(t) | Instructions::LDHLSPE8(t) => t == LogicTargets::E8,
            Instructions::BIT(b, t) | Instructions::RES(b, t) | Instructions::SET(b, t) => b < 8
                && is_r8_or_mem(t),
            Instructions::SWAP(t) | Instructions::RLC(t) | Instructions::RRC(t) | Instructions::RL(t)
            | Instructions::RR(t) | Instructions::SLA(t) | Instructions::SRA(t) | Instructions::SRL(
                t,
            ) => is_r8_or_mem(t),
            Instructions::LD(dst, src) => (is_r8(dst) && is_load_src8(src)) || (is_r16(dst) && src
                == LogicTargets::N16) || (dst == LogicTargets::SP && src == LogicTargets::HL),
            Instructions::LDR16R8(dst, src) => (matches!(dst, LogicTargets::BC | LogicTargets::DE
                | LogicTargets::N16) && src == LogicTargets::A) || (dst == LogicTargets::HL && (is_r8(
                src,
            ) || src == LogicTargets::N8)),
            Instructions::LDHN16A(t) | Instructions::LDHAN16(t) => t == LogicTargets::N8 || t
                == LogicTargets::N16,
            Instructions::LDN16SP(t) | Instructions::JPC(_, t) | Instructions::CALL(t)
            | Instructions::CALLC(_, t) => t == LogicTargets::N16,
            Instructions::JP(t) => t == LogicTargets::N16 || t == LogicTargets::HL,
            Instructions::JR(t) | Instructions::JRC(t, _) => t == LogicTargets::E8,
            Instructions::RST(n) => n % 8 == 0 && n <= 0x38,
            Instructions::PUSH(t) | Instructions::POP(t) => is_stack_pair(t),
            _ => true,
        }
    }

    /// A well-formed instruction that an execution unit carries out.
    pub open spec fn executable(self) -> bool {
        self.well_formed() && !(self is PREFIX) && !(self is ILLEGAL)
    }

    /// Number of immediate bytes that follow the opcode.
    pub open spec fn imm_len(self) -> nat {
        match self {
            Instructions::ADD(t) | Instructions::ADC(t) | Instructions::SUB(t) | Instructions::SBC(t)
            | Instructions::AND(t) | Instructions::XOR(t) | Instructions::OR(t) | Instructions::CP(
                t,
            ) | Instructions::ADDSPE8(t) | Instructions::LDHLSPE8(t) | Instructions::LDHN16A(t)
            | Instructions::LDHAN16(t) | Instructions::LDN16SP(t) | Instructions::JP(t)
            | Instructions::JPC(_, t) | Instructions::JR(t) | Instructions::JRC(t, _)
            | Instructions::CALL(t) | Instructions::CALLC(_, t) => operand_len(t),
            Instructions::LD(dst, src) | Instructions::LDR16R8(dst, src) => operand_len(dst)
                + operand_len(src),
            _ => 0,
        }
    }

    /// Number of immediate bytes that follow the opcode.
    pub fn immediate_len(&self) -> (r: u16)
        ensures
            r == self.imm_len(),
            r <= 4,
    {
        match self {
            Instructions::ADD(t) | Instructions::ADC(t) | Instructions::SUB(t) | Instructions::SBC(t)
            | Instructions::AND(t) | Instructions::XOR(t) | Instructions::OR(t) | Instructions::CP(
                t,
            ) | Instructions::ADDSPE8(t) | Instructions::LDHLSPE8(t) | Instructions::LDHN16A(t)
            | Instructions::LDHAN16(t) | Instructions::LDN16SP(t) | Instructions::JP(t)
            | Instructions::JPC(_, t) | Instructions::JR(t) | Instructions::JRC(t, _)
            | Instructions::CALL(t) | Instructions::CALLC(_, t) => operand_bytes(t),
            Instructions::LD(dst, src) | Instructions::LDR16R8(dst, src) => operand_bytes(dst)
                + operand_bytes(src),
            _ => 0,
        }
    }
}

/// Number of immediate bytes an operand descriptor reads.
fn operand_bytes(t: &LogicTargets) -> (r: u16)
    ensures
        r == operand_len(*t),
        r <= 2,
{
    match t {
        LogicTargets::N8 | LogicTargets::E8 => 1,
        LogicTargets::N16 => 2,
        _ => 0,
    }
}

/// Effect of an instruction on the register file and the backing store, by
/// the unit that claims it, tried in the order arithmetic/logic, bit
/// operations, bit shifts, loads, control flow, misc.
pub open spec fn execute_spec(r: CPURegistry, m: Memory, ins: Instructions) -> (CPURegistry, Seq<u8>) {
    if is_logic(ins) {
        logic_spec(r, m, ins)
    } else if is_bitop(ins) {
        bitop_spec(r, m, ins)
    } else if is_bitshift(ins) {
        bitshift_spec(r, m, ins)
    } else if is_load(ins) {
        load_spec(r, m, ins)
    } else if is_jump(ins) {
        jump_spec(r, m, ins)
    } else if is_misc(ins) {
        (misc_spec(r, ins), m.memory@)
    } else {
        (r, m.memory@)
    }
}

/// Exactly one execution unit claims each instruction that can be carried out,
/// and none claims PREFIX or ILLEGAL.
pub proof fn lemma_one_unit_per_instruction(ins: Instructions)
    ensures
        ins.executable() ==> is_logic(ins) || is_bitop(ins) || is_bitshift(ins) || is_load(ins)
            || is_jump(ins) || is_misc(ins),
        !(is_logic(ins) && is_bitop(ins)),
        !(is_logic(ins) && is_bitshift(ins)),
        !(is_logic(ins) && is_load(ins)),
        !(is_logic(ins) && is_jump(ins)),
        !(is_logic(ins) && is_misc(ins)),
        !(is_bitop(ins) && is_bitshift(ins)),
        !(is_bitop(ins) && is_load(ins)),
        !(is_bitop(ins) && is_jump(ins)),
        !(is_bitop(ins) && is_misc(ins)),
        !(is_bitshift(ins) && is_load(ins)),
        !(is_bitshift(ins) && is_jump(ins)),
        !(is_bitshift(ins) && is_misc(ins)),
        !(is_load(ins) && is_jump(ins)),
        !(is_load(ins) && is_misc(ins)),
        !(is_jump(ins) && is_misc(ins)),
        (ins is PREFIX || ins is ILLEGAL) ==> !(is_logic(ins) || is_bitop(ins) || is_bitshift(ins)
            || is_load(ins) || is_jump(ins) || is_misc(ins)),
{
}

/// An instruction that takes no branch leaves the program counter as it was,
/// so a step that moves the counter past such an instruction moves it from
/// where the instruction found it.
pub proof fn lemma_pc_kept_unless_branch(r: CPURegistry, m: Memory, ins: Instructions)
    requires
        ins.well_formed(),
    ensures
        !branch_taken(r, ins) ==> execute_spec(r, m, ins).0.pc == r.pc,
{
    match ins {
        Instructions::ADD(_) | Instructions::ADC(_) => reveal(logic::add_effect),
        Instructions::SUB(_) | Instructions::SBC(_) => reveal(logic::sub_effect),
        Instructions::CP(_) => reveal(logic::cp_effect),
        Instructions::AND(_) => reveal(logic::and_effect),
        Instructions::XOR(_) => reveal(logic::xor_effect),
        Instructions::OR(_) => reveal(logic::or_effect),
        Instructions::INC(_) => reveal(logic::inc_effect),
        Instructions::DEC(_) => reveal(logic::dec_effect),
        Instructions::INCHL() => reveal(logic::inc_hl_effect),
        Instructions::DECHL() => reveal(logic::dec_hl_effect),
        Instructions::ADDHLR16(_) => reveal(logic::add_hl_effect),
        Instructions::ADDSPE8(_) => reveal(logic::add_sp_effect),
        Instructions::BIT(..) => reveal(bitop::bit_effect),
        Instructions::RES(..) => reveal(bitop::res_effect),
        Instructions::SET(..) => reveal(bitop::set_effect),
        Instructions::SWAP(_) => reveal(bitop::swap_effect),
        Instructions::RLC(_) | Instructions::RRC(_) | Instructions::RL(_) | Instructions::RR(_)
        | Instructions::SLA(_) | Instructions::SRA(_) | Instructions::SRL(_) => reveal(
            bitshift::shift_effect,
        ),
        Instructions::RLCA() | Instructions::RRCA() | Instructions::RLA() | Instructions::RRA() =>
            reveal(bitshift::rotate_a_effect),
        Instructions::LD(..) => reveal(load::ld_effect),
        Instructions::LDR16R8(..) => reveal(load::ld_mem_effect),
        Instructions::LDHN16A(_) => reveal(load::ldh_store_effect),
        Instructions::LDHAN16(_) => reveal(load::ldh_load_effect),
        Instructions::LDHLIA() | Instructions::LDHLDA() => reveal(load::store_hl_step_effect),
        Instructions::LDAHLI() | Instructions::LDAHLD() => reveal(load::load_hl_step_effect),
        Instructions::LDN16SP(_) => reveal(load::store_sp_effect),
        Instructions::LDHLSPE8(_) => reveal(load::ld_hl_sp_effect),
        Instructions::JPC(..) => reveal(jumps::jp_effect),
        Instructions::JRC(..) => reveal(jumps::jr_effect),
        Instructions::CALLC(..) => reveal(jumps::call_effect),
        Instructions::RETC(_) => reveal(jumps::ret_effect),
        Instructions::PUSH(_) => reveal(jumps::push_effect),
        Instructions::POP(_) => reveal(jumps::pop_effect),
        Instructions::DAA() => reveal(misc::daa_effect),
        _ => {},
    }
}

impl CPU {
    /// Carries out one decoded instruction; the program counter is left to the
    /// caller unless the instruction itself writes it.
    pub fn execution(&mut self, instruction: &Instructions)
        requires
            old(self).wf(),
            instruction.executable(),
        ensures
            final(self).wf(),
            final(self).same_frame(old(self)),
            final(self).machine() == execute_spec(old(self).registry, old(self).memory, *instruction),
    {
        if self.logic_execution(instruction) {
            return ;
        }
        if self.execute_bitop(instruction) {
            return ;
        }
        if self.bitshift_execution(instruction) {
            return ;
        }
        if self.execute_load(instruction) {
            return ;
        }
        if self.jump_execution(instruction) {
            return ;
        }
        self.misc_execution(instruction);
    }
}

} // verus!
