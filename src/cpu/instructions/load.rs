use vstd::prelude::*;

use crate::cpu::CPU;
use crate::cpu::registry::CPURegistry;
use crate::memory::{Memory, next_addr, store_byte, store_word};
use super::{Instructions, LogicTargets, is_load_src8, is_r16, is_r8, is_r8_or_mem, reg16, with_reg16};
use super::logic::offset_sp;

verus! {

/// Start of the high page that the LDH forms address.
pub const HIGH_PAGE: u16 = 0xFF00;

/// The immediate byte that follows the opcode at `pc`.
pub open spec fn imm8(r: CPURegistry, m: Memory) -> u8 {
    m.byte_at(next_addr(r.pc))
}

/// The immediate little-endian word that follows the opcode at `pc`.
pub open spec fn imm16(r: CPURegistry, m: Memory) -> u16 {
    m.word_at(next_addr(r.pc))
}

/// Value of an 8-bit operand.
pub open spec fn operand8(r: CPURegistry, m: Memory, t: LogicTargets) -> u8 {
    match t {
        LogicTargets::A => r.a,
        LogicTargets::B => r.b,
        LogicTargets::C => r.c,
        LogicTargets::D => r.d,
        LogicTargets::E => r.e,
        LogicTargets::H => r.h,
        LogicTargets::L => r.l,
        LogicTargets::BC => m.byte_at(r.bc()),
        LogicTargets::DE => m.byte_at(r.de()),
        LogicTargets::N8 => imm8(r, m),
        LogicTargets::N16 => m.byte_at(imm16(r, m)),
        _ => m.byte_at(r.hl()),
    }
}

/// Value of a 16-bit operand.
pub open spec fn operand16(r: CPURegistry, m: Memory, t: LogicTargets) -> u16 {
    if t == LogicTargets::N16 {
        imm16(r, m)
    } else {
        reg16(r, t)
    }
}

/// Register file and backing store after writing `v` to an 8-bit register or
/// to the byte addressed by `hl`.
pub open spec fn store8(r: CPURegistry, ram: Seq<u8>, t: LogicTargets, v: u8) -> (
    CPURegistry,
    Seq<u8>,
) {
    match t {
        LogicTargets::A => (CPURegistry { a: v, ..r }, ram),
        LogicTargets::B => (CPURegistry { b: v, ..r }, ram),
        LogicTargets::C => (CPURegistry { c: v, ..r }, ram),
        LogicTargets::D => (CPURegistry { d: v, ..r }, ram),
        LogicTargets::E => (CPURegistry { e: v, ..r }, ram),
        LogicTargets::H => (CPURegistry { h: v, ..r }, ram),
        LogicTargets::L => (CPURegistry { l: v, ..r }, ram),
        _ => (r, store_byte(ram, r.hl(), v)),
    }
}

/// Address that an 8-bit store through a pair or immediate address writes.
pub open spec fn store_addr(r: CPURegistry, m: Memory, t: LogicTargets) -> u16 {
    match t {
        LogicTargets::BC => r.bc(),
        LogicTargets::DE => r.de(),
        LogicTargets::N16 => imm16(r, m),
        _ => r.hl(),
    }
}

/// Address of an LDH form: the high page plus the immediate byte, or the
/// immediate word.
pub open spec fn high_addr(r: CPURegistry, m: Memory, t: LogicTargets) -> u16 {
    if t == LogicTargets::N8 {
        (HIGH_PAGE + imm8(r, m)) as u16
    } else {
        imm16(r, m)
    }
}

/// The high page plus `c`.
pub open spec fn high_c_addr(r: CPURegistry) -> u16 {
    (HIGH_PAGE + r.c) as u16
}

/// Whether an instruction belongs to the load unit.
pub open spec fn is_load(ins: Instructions) -> bool {
    ins is LD || ins is LDR16R8 || ins is LDHN16A || ins is LDHCA || ins is LDHAN16 || ins is LDHAC
        || ins is LDHLIA || ins is LDHLDA || ins is LDAHLI || ins is LDAHLD || ins is LDN16SP
        || ins is LDHLSPE8
}

/// Effect of LD: an 8-bit register from an 8-bit operand, or a 16-bit
/// register from the immediate word or `hl`.
#[verifier::opaque]
pub open spec fn ld_effect(r: CPURegistry, m: Memory, dst: LogicTargets, src: LogicTargets) -> (
    CPURegistry,
    Seq<u8>,
) {
    if is_r8(dst) {
        store8(r, m.memory@, dst, operand8(r, m, src))
    } else {
        (with_reg16(r, dst, operand16(r, m, src)), m.memory@)
    }
}

/// Effect of storing an 8-bit operand at the address a pair or the immediate
/// word names.
#[verifier::opaque]
pub open spec fn ld_mem_effect(r: CPURegistry, m: Memory, dst: LogicTargets, src: LogicTargets) -> (
    CPURegistry,
    Seq<u8>,
) {
    (r, store_byte(m.memory@, store_addr(r, m, dst), operand8(r, m, src)))
}

/// Effect of storing `a` through an LDH address: nothing below the high page.
#[verifier::opaque]
pub open spec fn ldh_store_effect(r: CPURegistry, m: Memory, t: LogicTargets) -> (
    CPURegistry,
    Seq<u8>,
) {
    if high_addr(r, m, t) >= HIGH_PAGE {
        (r, store_byte(m.memory@, high_addr(r, m, t), r.a))
    } else {
        (r, m.memory@)
    }
}

/// Effect of loading `a` through an LDH address: nothing below the high page.
#[verifier::opaque]
pub open spec fn ldh_load_effect(r: CPURegistry, m: Memory, t: LogicTargets) -> (
    CPURegistry,
    Seq<u8>,
) {
    if high_addr(r, m, t) >= HIGH_PAGE {
        (CPURegistry { a: m.byte_at(high_addr(r, m, t)), ..r }, m.memory@)
    } else {
        (r, m.memory@)
    }
}

/// Effect of storing `a` at `hl` and then stepping `hl` up (or down).
#[verifier::opaque]
pub open spec fn store_hl_step_effect(r: CPURegistry, m: Memory, up: bool) -> (
    CPURegistry,
    Seq<u8>,
) {
    let hl = if up {
        next_addr(r.hl())
    } else {
        prev_addr(r.hl())
    };
    (r.with_hl(hl), store_byte(m.memory@, r.hl(), r.a))
}

/// Effect of loading `a` from `hl` and then stepping `hl` up (or down).
#[verifier::opaque]
pub open spec fn load_hl_step_effect(r: CPURegistry, m: Memory, up: bool) -> (
    CPURegistry,
    Seq<u8>,
) {
    let hl = if up {
        next_addr(r.hl())
    } else {
        prev_addr(r.hl())
    };
    (CPURegistry { a: m.byte_at(r.hl()), ..r }.with_hl(hl), m.memory@)
}

/// Effect of LD (n16), SP: `sp` stored little-endian at the immediate address.
#[verifier::opaque]
pub open spec fn store_sp_effect(r: CPURegistry, m: Memory) -> (CPURegistry, Seq<u8>) {
    (r, store_word(m.memory@, imm16(r, m), r.sp))
}

/// Effect of LD HL, SP plus the signed immediate byte.
#[verifier::opaque]
pub open spec fn ld_hl_sp_effect(r: CPURegistry, m: Memory) -> (CPURegistry, Seq<u8>) {
    let res = offset_sp(r.sp, imm8(r, m));
    (CPURegistry { f: res.1, ..r }.with_hl(res.0), m.memory@)
}

/// Effect of a load instruction on the register file and the backing store.
pub open spec fn load_spec(r: CPURegistry, m: Memory, ins: Instructions) -> (CPURegistry, Seq<u8>) {
    match ins {
        Instructions::LD(dst, src) => ld_effect(r, m, dst, src),
        Instructions::LDR16R8(dst, src) => ld_mem_effect(r, m, dst, src),
        Instructions::LDHN16A(t) => ldh_store_effect(r, m, t),
        Instructions::LDHCA() => (r, store_byte(m.memory@, high_c_addr(r), r.a)),
        Instructions::LDHAN16(t) => ldh_load_effect(r, m, t),
        Instructions::LDHAC() => (CPURegistry { a: m.byte_at(high_c_addr(r)), ..r }, m.memory@),
        Instructions::LDHLIA() => store_hl_step_effect(r, m, true),
        Instructions::LDHLDA() => store_hl_step_effect(r, m, false),
        Instructions::LDAHLI() => load_hl_step_effect(r, m, true),
        Instructions::LDAHLD() => load_hl_step_effect(r, m, false),
        Instructions::LDN16SP(_) => store_sp_effect(r, m),
        Instructions::LDHLSPE8(_) => ld_hl_sp_effect(r, m),
        _ => (r, m.memory@),
    }
}

/// The address before `addr`, wrapping from 0 to 0xFFFF.
pub open spec fn prev_addr(addr: u16) -> u16 {
    crate::cpu::registry::wrap16(addr - 1)
}

impl CPU {
    /// Value of an 8-bit operand: a register, the byte addressed by a pair,
    /// the immediate byte, or the byte at the immediate address.
    pub fn target_to_value_r8(&self, target: &LogicTargets) -> (r: u8)
        requires
            self.wf(),
            is_load_src8(*target),
        ensures
            r == operand8(self.registry, self.memory, *target),
    {
        match target {
            LogicTargets::A => self.registry.a,
            LogicTargets::B => self.registry.b,
            LogicTargets::C => self.registry.c,
            LogicTargets::D => self.registry.d,
            LogicTargets::E => self.registry.e,
            LogicTargets::H => self.registry.h,
            LogicTargets::L => self.registry.l,
            LogicTargets::N8 => self.memory.read_byte(self.registry.pc.wrapping_add(1)),
            LogicTargets::N16 => {
                let address = self.memory.read_word(self.registry.pc.wrapping_add(1));
                self.memory.read_byte(address)
            },
            _ => {
                let address = self.target_to_value_r16(target);
                self.memory.read_byte(address)
            },
        }
    }

    /// Value of a 16-bit operand: a register pair, `sp`, or the immediate word.
    pub fn target_to_value_r16(&self, target: &LogicTargets) -> (r: u16)
        requires
            self.wf(),
            is_r16(*target) || *target == LogicTargets::AF || *target == LogicTargets::N16,
        ensures
            r == operand16(self.registry, self.memory, *target),
    {
        match target {
            LogicTargets::BC => self.registry.get_bc(),
            LogicTargets::DE => self.registry.get_de(),
            LogicTargets::HL => self.registry.get_hl(),
            LogicTargets::AF => self.registry.get_af(),
            LogicTargets::SP => self.registry.sp,
            _ => self.memory.read_word(self.registry.pc.wrapping_add(1)),
        }
    }

    /// Writes `v` to an 8-bit register or to the byte addressed by `hl`.
    pub(crate) fn write_r8(&mut self, target: &LogicTargets, v: u8)
        requires
            old(self).wf(),
            is_r8_or_mem(*target),
        ensures
            final(self).same_frame(old(self)),
            final(self).machine() == store8(old(self).registry, old(self).memory.memory@, *target, v),
    {
        match target {
            LogicTargets::A => self.registry.a = v,
            LogicTargets::B => self.registry.b = v,
            LogicTargets::C => self.registry.c = v,
            LogicTargets::D => self.registry.d = v,
            LogicTargets::E => self.registry.e = v,
            LogicTargets::H => self.registry.h = v,
            LogicTargets::L => self.registry.l = v,
            _ => {
                let address = self.registry.get_hl();
                self.memory.write_byte(address, v);
            },
        }
    }

    /// Writes `v` to a register pair or `sp`.
    pub(crate) fn write_r16(&mut self, target: &LogicTargets, v: u16)
        requires
            is_r16(*target) || *target == LogicTargets::AF,
        ensures
            final(self).registry == with_reg16(old(self).registry, *target, v),
            final(self).memory == old(self).memory,
            final(self).last_instruction == old(self).last_instruction,
    {
        match target {
            LogicTargets::BC => self.registry.set_bc(v),
            LogicTargets::DE => self.registry.set_de(v),
            LogicTargets::HL => self.registry.set_hl(v),
            LogicTargets::AF => self.registry.set_af(v),
            _ => self.registry.sp = v,
        }
    }

    /// `LD` into an 8-bit register.
    fn ld_r8(&mut self, target: &LogicTargets, value: &LogicTargets)
        requires
            old(self).wf(),
            is_r8(*target),
            is_load_src8(*value),
        ensures
            final(self).same_frame(old(self)),
            final(self).machine() == ld_effect(old(self).registry, old(self).memory, *target, *value),
    {
        proof {
            reveal(ld_effect);
        }
        let v = self.target_to_value_r8(value);
        self.write_r8(target, v);
    }

    /// `LD` into a 16-bit register.
    fn ld_r16(&mut self, target: &LogicTargets, value: &LogicTargets)
        requires
            old(self).wf(),
            is_r16(*target),
            *value == LogicTargets::N16 || *value == LogicTargets::HL,
        ensures
            final(self).same_frame(old(self)),
            final(self).machine() == ld_effect(old(self).registry, old(self).memory, *target, *value),
    {
        proof {
            reveal(ld_effect);
        }
        let v = self.target_to_value_r16(value);
        self.write_r16(target, v);
    }

    /// Stores an 8-bit operand at the address that a pair or the immediate word
    /// names.
    fn ld_mem_r8(&mut self, target: &LogicTargets, value: &LogicTargets)
        requires
            old(self).wf(),
            matches!(*target, LogicTargets::BC | LogicTargets::DE | LogicTargets::HL | LogicTargets::N16),
            is_r8(*value) || *value == LogicTargets::N8,
        ensures
            final(self).same_frame(old(self)),
            final(self).machine() == ld_mem_effect(old(self).registry, old(self).memory, *target, *value),
    {
        proof {
            reveal(ld_mem_effect);
        }
        let v = self.target_to_value_r8(value);
        let address = match target {
            LogicTargets::BC => self.registry.get_bc(),
            LogicTargets::DE => self.registry.get_de(),
            LogicTargets::HL => self.registry.get_hl(),
            _ => self.memory.read_word(self.registry.pc.wrapping_add(1)),
        };
        self.memory.write_byte(address, v);
    }

    /// Address of an LDH form.
    fn high_address(&self, target: &LogicTargets) -> (r: u16)
        requires
            self.wf(),
        ensures
            r == high_addr(self.registry, self.memory, *target),
    {
        match target {
            LogicTargets::N8 => HIGH_PAGE + self.memory.read_byte(self.registry.pc.wrapping_add(1))
                as u16,
            _ => self.memory.read_word(self.registry.pc.wrapping_add(1)),
        }
    }

    /// Stores `a` in the high page; an address below it is left alone.
    fn ldh_r16_mem(&mut self, target: &LogicTargets)
        requires
            old(self).wf(),
        ensures
            final(self).same_frame(old(self)),
            final(self).machine() == ldh_store_effect(old(self).registry, old(self).memory, *target),
    {
        proof {
            reveal(ldh_store_effect);
        }
        let address = self.high_address(target);
        if address >= HIGH_PAGE {
            self.memory.write_byte(address, self.registry.a);
        }
    }

    /// Stores `a` at the high page plus `c`.
    fn ldhc_mem(&mut self)
        requires
            old(self).wf(),
        ensures
            final(self).same_frame(old(self)),
            final(self).machine() == load_spec(
                old(self).registry,
                old(self).memory,
                Instructions::LDHCA(),
            ),
    {
        let address = HIGH_PAGE + self.registry.c as u16;
        self.memory.write_byte(address, self.registry.a);
    }

    /// Loads `a` from the high page; an address below it is not read.
    fn ldh_a_n16(&mut self, target: &LogicTargets)
        requires
            old(self).wf(),
        ensures
            final(self).same_frame(old(self)),
            final(self).machine() == ldh_load_effect(old(self).registry, old(self).memory, *target),
    {
        proof {
            reveal(ldh_load_effect);
        }
        let address = self.high_address(target);
        if address >= HIGH_PAGE {
            self.registry.a = self.memory.read_byte(address);
        }
    }

    /// Loads `a` from the high page plus `c`.
    fn ldh_a_c(&mut self)
        requires
            old(self).wf(),
        ensures
            final(self).same_frame(old(self)),
            final(self).machine() == load_spec(
                old(self).registry,
                old(self).memory,
                Instructions::LDHAC(),
            ),
    {
        let address = HIGH_PAGE + self.registry.c as u16;
        self.registry.a = self.memory.read_byte(address);
    }

    /// Stores `a` at `hl`, then steps `hl` up (or down).
    fn ld_hl_a_step(&mut self, up: bool)
        requires
            old(self).wf(),
        ensures
            final(self).same_frame(old(self)),
            final(self).machine() == store_hl_step_effect(old(self).registry, old(self).memory, up),
    {
        proof {
            reveal(store_hl_step_effect);
        }
        let hl = self.registry.get_hl();
        self.memory.write_byte(hl, self.registry.a);
        if up {
            self.registry.set_hl(hl.wrapping_add(1));
        } else {
            self.registry.set_hl(hl.wrapping_sub(1));
        }
    }

    /// Loads `a` from `hl`, then steps `hl` up (or down).
    fn ld_a_hl_step(&mut self, up: bool)
        requires
            old(self).wf(),
        ensures
            final(self).same_frame(old(self)),
            final(self).machine() == load_hl_step_effect(old(self).registry, old(self).memory, up),
    {
        proof {
            reveal(load_hl_step_effect);
        }
        let hl = self.registry.get_hl();
        self.registry.a = self.memory.read_byte(hl);
        if up {
            self.registry.set_hl(hl.wrapping_add(1));
        } else {
            self.registry.set_hl(hl.wrapping_sub(1));
        }
    }

    /// Stores `sp` little-endian at the immediate address.
    fn ld_n16_sp(&mut self)
        requires
            old(self).wf(),
        ensures
            final(self).same_frame(old(self)),
            final(self).machine() == store_sp_effect(old(self).registry, old(self).memory),
    {
        proof {
            reveal(store_sp_effect);
        }
        let address = self.memory.read_word(self.registry.pc.wrapping_add(1));
        self.memory.write_word(address, self.registry.sp);
    }

    /// Loads `hl` with `sp` plus the signed immediate byte.
    fn ld_hl_sp_e8(&mut self)
        requires
            old(self).wf(),
        ensures
            final(self).same_frame(old(self)),
            final(self).machine() == ld_hl_sp_effect(old(self).registry, old(self).memory),
    {
        proof {
            reveal(ld_hl_sp_effect);
        }
        let e = self.memory.read_byte(self.registry.pc.wrapping_add(1));
        let (v, f) = self.sp_plus_e8(e);
        self.registry.f = f;
        self.registry.set_hl(v);
    }

    /// Carries out a load instruction; returns whether the instruction belongs
    /// to the load unit, and leaves the processor alone when it does not.
    pub fn execute_load(&mut self, instruction: &Instructions) -> (r: bool)
        requires
            old(self).wf(),
            instruction.well_formed(),
        ensures
            r == is_load(*instruction),
            final(self).same_frame(old(self)),
            r ==> final(self).machine() == load_spec(
                old(self).registry,
                old(self).memory,
                *instruction,
            ),
            !r ==> *final(self) == *old(self),
    {
        match instruction {
            Instructions::LD(target, value) => {
                match target {
                    LogicTargets::A | LogicTargets::B | LogicTargets::C | LogicTargets::D
                    | LogicTargets::E | LogicTargets::H | LogicTargets::L => {
                        self.ld_r8(target, value);
                    },
                    _ => {
                        self.ld_r16(target, value);
                    },
                }
            },
            Instructions::LDR16R8(target, value) => self.ld_mem_r8(target, value),
            Instructions::LDHN16A(target) => self.ldh_r16_mem(target),
            Instructions::LDHCA() => self.ldhc_mem(),
            Instructions::LDHAN16(target) => self.ldh_a_n16(target),
            Instructions::LDHAC() => self.ldh_a_c(),
            Instructions::LDHLIA() => self.ld_hl_a_step(true),
            Instructions::LDHLDA() => self.ld_hl_a_step(false),
            Instructions::LDAHLI() => self.ld_a_hl_step(true),
            Instructions::LDAHLD() => self.ld_a_hl_step(false),
            Instructions::LDN16SP(_) => self.ld_n16_sp(),
            Instructions::LDHLSPE8(_) => self.ld_hl_sp_e8(),
            _ => return false,
        }
        true
    }
}

} // verus!
