use vstd::prelude::*;

use crate::cpu::CPU;
use crate::cpu::flags::Flags;
use crate::cpu::registry::{CPURegistry, wrap16, wrap8};
use crate::memory::store_byte;
use crate::memory::Memory;
use super::{Instructions, LogicTargets, is_alu_src, is_r16, is_r8, reg16, with_reg16};
use super::load::{imm8, operand8, store8};

verus! {

/// 1 if the carry flag is set and `use_carry` holds, else 0.
pub open spec fn carry_in(f: Flags, use_carry: bool) -> int {
    if use_carry && f.c_carry {
        1
    } else {
        0
    }
}

/// Result and flags of `a + v + cin` (ADD, ADC).
pub open spec fn add8(a: u8, v: u8, cin: int) -> (u8, Flags) {
    let sum = a + v + cin;
    (
        wrap8(sum),
        Flags {
            z_zero: wrap8(sum) == 0,
            n_subtraction_bcd: false,
            h_half_carry_bcd: a % 16 + v % 16 + cin > 15,
            c_carry: sum > 255,
        },
    )
}

/// Result and flags of `a - v - cin` (SUB, SBC, CP).
pub open spec fn sub8(a: u8, v: u8, cin: int) -> (u8, Flags) {
    let diff = a - v - cin;
    (
        wrap8(diff),
        Flags {
            z_zero: wrap8(diff) == 0,
            n_subtraction_bcd: true,
            h_half_carry_bcd: a % 16 - v % 16 - cin < 0,
            c_carry: diff < 0,
        },
    )
}

/// Flags of AND, OR and XOR with result `res`.
pub open spec fn logic_flags(res: u8, half: bool) -> Flags {
    Flags { z_zero: res == 0, n_subtraction_bcd: false, h_half_carry_bcd: half, c_carry: false }
}

/// Result and flags of an 8-bit increment; the carry flag is kept.
pub open spec fn inc8(v: u8, f: Flags) -> (u8, Flags) {
    (
        wrap8(v + 1),
        Flags {
            z_zero: wrap8(v + 1) == 0,
            n_subtraction_bcd: false,
            h_half_carry_bcd: v % 16 == 15,
            c_carry: f.c_carry,
        },
    )
}

/// Result and flags of an 8-bit decrement; the carry flag is kept.
pub open spec fn dec8(v: u8, f: Flags) -> (u8, Flags) {
    (
        wrap8(v - 1),
        Flags {
            z_zero: wrap8(v - 1) == 0,
            n_subtraction_bcd: true,
            h_half_carry_bcd: v % 16 == 0,
            c_carry: f.c_carry,
        },
    )
}

/// Result and flags of `hl + v`; the zero flag is kept.
pub open spec fn add_hl16(hl: u16, v: u16, f: Flags) -> (u16, Flags) {
    let sum = hl + v;
    (
        wrap16(sum),
        Flags {
            z_zero: f.z_zero,
            n_subtraction_bcd: false,
            h_half_carry_bcd: hl % 4096 + v % 4096 > 4095,
            c_carry: sum > 65535,
        },
    )
}

/// A byte read as a two's-complement displacement.
pub open spec fn sext8(e: u8) -> int {
    if e < 128 {
        e as int
    } else {
        e - 256
    }
}

/// Result and flags of `sp` plus a signed byte; the flags come from adding the
/// byte to the low byte of `sp`.
pub open spec fn offset_sp(sp: u16, e: u8) -> (u16, Flags) {
    (
        wrap16(sp + sext8(e)),
        Flags {
            z_zero: false,
            n_subtraction_bcd: false,
            h_half_carry_bcd: sp % 16 + e % 16 > 15,
            c_carry: sp % 256 + e > 255,
        },
    )
}

/// The register file with a new accumulator and flags.
pub open spec fn with_acc(r: CPURegistry, res: (u8, Flags)) -> CPURegistry {
    CPURegistry { a: res.0, f: res.1, ..r }
}

/// Whether an instruction belongs to the arithmetic/logic unit.
pub open spec fn is_logic(ins: Instructions) -> bool {
    ins is ADD || ins is ADC || ins is SUB || ins is SBC || ins is AND || ins is XOR || ins is OR
        || ins is CP || ins is INC || ins is INCHL || ins is DEC || ins is DECHL || ins is ADDHLR16
        || ins is ADDSPE8
}

/// Effect of ADD (ADC when `use_carry`) with operand `t`.
#[verifier::opaque]
pub open spec fn add_effect(r: CPURegistry, m: Memory, t: LogicTargets, use_carry: bool) -> (
    CPURegistry,
    Seq<u8>,
) {
    (with_acc(r, add8(r.a, operand8(r, m, t), carry_in(r.f, use_carry))), m.memory@)
}

/// Effect of SUB (SBC when `use_carry`) with operand `t`.
#[verifier::opaque]
pub open spec fn sub_effect(r: CPURegistry, m: Memory, t: LogicTargets, use_carry: bool) -> (
    CPURegistry,
    Seq<u8>,
) {
    (with_acc(r, sub8(r.a, operand8(r, m, t), carry_in(r.f, use_carry))), m.memory@)
}

/// Effect of CP with operand `t`: the flags of SUB, `a` kept.
#[verifier::opaque]
pub open spec fn cp_effect(r: CPURegistry, m: Memory, t: LogicTargets) -> (CPURegistry, Seq<u8>) {
    (CPURegistry { f: sub8(r.a, operand8(r, m, t), 0).1, ..r }, m.memory@)
}

/// Effect of AND with operand `t`.
#[verifier::opaque]
pub open spec fn and_effect(r: CPURegistry, m: Memory, t: LogicTargets) -> (CPURegistry, Seq<u8>) {
    let res = r.a & operand8(r, m, t);
    (with_acc(r, (res, logic_flags(res, true))), m.memory@)
}

/// Effect of XOR with operand `t`.
#[verifier::opaque]
pub open spec fn xor_effect(r: CPURegistry, m: Memory, t: LogicTargets) -> (CPURegistry, Seq<u8>) {
    let res = r.a ^ operand8(r, m, t);
    (with_acc(r, (res, logic_flags(res, false))), m.memory@)
}

/// Effect of OR with operand `t`.
#[verifier::opaque]
pub open spec fn or_effect(r: CPURegistry, m: Memory, t: LogicTargets) -> (CPURegistry, Seq<u8>) {
    let res = r.a | operand8(r, m, t);
    (with_acc(r, (res, logic_flags(res, false))), m.memory@)
}

/// Effect of INC on an 8-bit register (with flags) or a 16-bit register
/// (without).
#[verifier::opaque]
pub open spec fn inc_effect(r: CPURegistry, m: Memory, t: LogicTargets) -> (CPURegistry, Seq<u8>) {
    if is_r8(t) {
        let res = inc8(operand8(r, m, t), r.f);
        store8(CPURegistry { f: res.1, ..r }, m.memory@, t, res.0)
    } else {
        (with_reg16(r, t, wrap16(reg16(r, t) + 1)), m.memory@)
    }
}

/// Effect of DEC on an 8-bit register (with flags) or a 16-bit register
/// (without).
#[verifier::opaque]
pub open spec fn dec_effect(r: CPURegistry, m: Memory, t: LogicTargets) -> (CPURegistry, Seq<u8>) {
    if is_r8(t) {
        let res = dec8(operand8(r, m, t), r.f);
        store8(CPURegistry { f: res.1, ..r }, m.memory@, t, res.0)
    } else {
        (with_reg16(r, t, wrap16(reg16(r, t) - 1)), m.memory@)
    }
}

/// Effect of INC on the byte addressed by `hl`.
#[verifier::opaque]
pub open spec fn inc_hl_effect(r: CPURegistry, m: Memory) -> (CPURegistry, Seq<u8>) {
    let res = inc8(m.byte_at(r.hl()), r.f);
    (CPURegistry { f: res.1, ..r }, store_byte(m.memory@, r.hl(), res.0))
}

/// Effect of DEC on the byte addressed by `hl`.
#[verifier::opaque]
pub open spec fn dec_hl_effect(r: CPURegistry, m: Memory) -> (CPURegistry, Seq<u8>) {
    let res = dec8(m.byte_at(r.hl()), r.f);
    (CPURegistry { f: res.1, ..r }, store_byte(m.memory@, r.hl(), res.0))
}

/// Effect of ADD HL with a 16-bit register.
#[verifier::opaque]
pub open spec fn add_hl_effect(r: CPURegistry, m: Memory, t: LogicTargets) -> (CPURegistry, Seq<u8>) {
    let res = add_hl16(r.hl(), reg16(r, t), r.f);
    (CPURegistry { f: res.1, ..r }.with_hl(res.0), m.memory@)
}

/// Effect of ADD SP with the signed immediate byte.
#[verifier::opaque]
pub open spec fn add_sp_effect(r: CPURegistry, m: Memory) -> (CPURegistry, Seq<u8>) {
    let res = offset_sp(r.sp, imm8(r, m));
    (CPURegistry { sp: res.0, f: res.1, ..r }, m.memory@)
}

/// Effect of an arithmetic/logic instruction.
pub open spec fn logic_spec(r: CPURegistry, m: Memory, ins: Instructions) -> (CPURegistry, Seq<u8>) {
    match ins {
        Instructions::ADD(t) => add_effect(r, m, t, false),
        Instructions::ADC(t) => add_effect(r, m, t, true),
        Instructions::SUB(t) => sub_effect(r, m, t, false),
        Instructions::SBC(t) => sub_effect(r, m, t, true),
        Instructions::AND(t) => and_effect(r, m, t),
        Instructions::XOR(t) => xor_effect(r, m, t),
        Instructions::OR(t) => or_effect(r, m, t),
        Instructions::CP(t) => cp_effect(r, m, t),
        Instructions::INC(t) => inc_effect(r, m, t),
        Instructions::DEC(t) => dec_effect(r, m, t),
        Instructions::INCHL() => inc_hl_effect(r, m),
        Instructions::DECHL() => dec_hl_effect(r, m),
        Instructions::ADDHLR16(t) => add_hl_effect(r, m, t),
        Instructions::ADDSPE8(_) => add_sp_effect(r, m),
        _ => (r, m.memory@),
    }
}

impl CPU {
    /// ADD (or ADC when `plus_carry`) of `value` to `a`.
    fn add(&mut self, value: u8, plus_carry: bool)
        ensures
            final(self).only_registers_changed(old(self)),
            final(self).registry == with_acc(
                old(self).registry,
                add8(old(self).registry.a, value, carry_in(old(self).registry.f, plus_carry)),
            ),
    {
        let a = self.registry.a;
        let cin: u8 = if plus_carry && self.registry.f.c_carry {
            1
        } else {
            0
        };
        let sum: u16 = a as u16 + value as u16 + cin as u16;
        let result = (sum % 256) as u8;
        self.registry.a = result;
        self.registry.f = Flags {
            z_zero: result == 0,
            n_subtraction_bcd: false,
            h_half_carry_bcd: a % 16 + value % 16 + cin > 15,
            c_carry: sum > 255,
        };
    }

    /// SUB (or SBC when `minus_carry`) of `value` from `a`; CP when `dont_store`,
    /// which sets the flags alone.
    fn sub_and_cp(&mut self, value: u8, minus_carry: bool, dont_store: bool)
        ensures
            final(self).only_registers_changed(old(self)),
            final(self).registry == if dont_store {
                CPURegistry {
                    f: sub8(old(self).registry.a, value, carry_in(old(self).registry.f, minus_carry)).1,
                    ..old(self).registry
                }
            } else {
                with_acc(
                    old(self).registry,
                    sub8(old(self).registry.a, value, carry_in(old(self).registry.f, minus_carry)),
                )
            },
    {
        let a = self.registry.a;
        let cin: u8 = if minus_carry && self.registry.f.c_carry {
            1
        } else {
            0
        };
        let result = a.wrapping_sub(value).wrapping_sub(cin);
        if !dont_store {
            self.registry.a = result;
        }
        self.registry.f = Flags {
            z_zero: result == 0,
            n_subtraction_bcd: true,
            h_half_carry_bcd: a % 16 < value % 16 + cin,
            c_carry: (a as u16) < value as u16 + cin as u16,
        };
    }

    fn and(&mut self, value: u8)
        ensures
            final(self).only_registers_changed(old(self)),
            final(self).registry == with_acc(
                old(self).registry,
                (old(self).registry.a & value, logic_flags(old(self).registry.a & value, true)),
            ),
    {
        self.registry.a = self.registry.a & value;
        self.registry.f = Flags {
            z_zero: self.registry.a == 0,
            n_subtraction_bcd: false,
            h_half_carry_bcd: true,
            c_carry: false,
        };
    }

    fn or(&mut self, value: u8)
        ensures
            final(self).only_registers_changed(old(self)),
            final(self).registry == with_acc(
                old(self).registry,
                (old(self).registry.a | value, logic_flags(old(self).registry.a | value, false)),
            ),
    {
        self.registry.a = self.registry.a | value;
        self.registry.f = Flags {
            z_zero: self.registry.a == 0,
            n_subtraction_bcd: false,
            h_half_carry_bcd: false,
            c_carry: false,
        };
    }

    fn xor(&mut self, value: u8)
        ensures
            final(self).only_registers_changed(old(self)),
            final(self).registry == with_acc(
                old(self).registry,
                (old(self).registry.a ^ value, logic_flags(old(self).registry.a ^ value, false)),
            ),
    {
        self.registry.a = self.registry.a ^ value;
        self.registry.f = Flags {
            z_zero: self.registry.a == 0,
            n_subtraction_bcd: false,
            h_half_carry_bcd: false,
            c_carry: false,
        };
    }

    /// 8-bit increment of a register.
    fn inc(&mut self, target: &LogicTargets)
        requires
            old(self).wf(),
            is_r8(*target),
        ensures
            final(self).same_frame(old(self)),
            final(self).machine() == inc_effect(old(self).registry, old(self).memory, *target),
    {
        proof {
            reveal(inc_effect);
        }
        let v = self.target_to_value_r8(target);
        let res = v.wrapping_add(1);
        self.registry.f = Flags {
            z_zero: res == 0,
            n_subtraction_bcd: false,
            h_half_carry_bcd: v % 16 == 15,
            c_carry: self.registry.f.c_carry,
        };
        self.write_r8(target, res);
    }

    /// 8-bit decrement of a register.
    fn dec(&mut self, target: &LogicTargets)
        requires
            old(self).wf(),
            is_r8(*target),
        ensures
            final(self).same_frame(old(self)),
            final(self).machine() == dec_effect(old(self).registry, old(self).memory, *target),
    {
        proof {
            reveal(dec_effect);
        }
        let v = self.target_to_value_r8(target);
        let res = v.wrapping_sub(1);
        self.registry.f = Flags {
            z_zero: res == 0,
            n_subtraction_bcd: true,
            h_half_carry_bcd: v % 16 == 0,
            c_carry: self.registry.f.c_carry,
        };
        self.write_r8(target, res);
    }

    /// 16-bit increment, no flags.
    fn inc_16(&mut self, target: &LogicTargets)
        requires
            old(self).wf(),
            is_r16(*target),
        ensures
            final(self).same_frame(old(self)),
            final(self).machine() == inc_effect(old(self).registry, old(self).memory, *target),
    {
        proof {
            reveal(inc_effect);
        }
        let v = self.target_to_value_r16(target);
        self.write_r16(target, v.wrapping_add(1));
    }

    /// 16-bit decrement, no flags.
    fn dec_16(&mut self, target: &LogicTargets)
        requires
            old(self).wf(),
            is_r16(*target),
        ensures
            final(self).same_frame(old(self)),
            final(self).machine() == dec_effect(old(self).registry, old(self).memory, *target),
    {
        proof {
            reveal(dec_effect);
        }
        let v = self.target_to_value_r16(target);
        self.write_r16(target, v.wrapping_sub(1));
    }

    /// Increment of the byte addressed by `hl`.
    fn inc_hl(&mut self)
        requires
            old(self).wf(),
        ensures
            final(self).same_frame(old(self)),
            final(self).machine() == inc_hl_effect(old(self).registry, old(self).memory),
    {
        proof {
            reveal(inc_hl_effect);
        }
        let hl = self.registry.get_hl();
        let v = self.memory.read_byte(hl);
        let res = v.wrapping_add(1);
        self.registry.f = Flags {
            z_zero: res == 0,
            n_subtraction_bcd: false,
            h_half_carry_bcd: v % 16 == 15,
            c_carry: self.registry.f.c_carry,
        };
        self.memory.write_byte(hl, res);
    }

    /// Decrement of the byte addressed by `hl`.
    fn dec_hl(&mut self)
        requires
            old(self).wf(),
        ensures
            final(self).same_frame(old(self)),
            final(self).machine() == dec_hl_effect(old(self).registry, old(self).memory),
    {
        proof {
            reveal(dec_hl_effect);
        }
        let hl = self.registry.get_hl();
        let v = self.memory.read_byte(hl);
        let res = v.wrapping_sub(1);
        self.registry.f = Flags {
            z_zero: res == 0,
            n_subtraction_bcd: true,
            h_half_carry_bcd: v % 16 == 0,
            c_carry: self.registry.f.c_carry,
        };
        self.memory.write_byte(hl, res);
    }

    /// `hl` plus a 16-bit register.
    fn add_hl_r16(&mut self, target: &LogicTargets)
        requires
            old(self).wf(),
            is_r16(*target),
        ensures
            final(self).same_frame(old(self)),
            final(self).machine() == add_hl_effect(old(self).registry, old(self).memory, *target),
    {
        proof {
            reveal(add_hl_effect);
        }
        let v = self.target_to_value_r16(target);
        let hl = self.registry.get_hl();
        self.registry.f = Flags {
            z_zero: self.registry.f.z_zero,
            n_subtraction_bcd: false,
            h_half_carry_bcd: hl % 4096 + v % 4096 > 4095,
            c_carry: hl as u32 + v as u32 > 65535,
        };
        self.registry.set_hl(hl.wrapping_add(v));
    }

    /// `sp` plus the signed byte `e`, with the flags of adding `e` to the low
    /// byte of `sp`.
    pub(crate) fn sp_plus_e8(&self, e: u8) -> (r: (u16, Flags))
        ensures
            r == offset_sp(self.registry.sp, e),
    {
        let sp = self.registry.sp;
        let d: i16 = if e < 128 {
            e as i16
        } else {
            e as i16 - 256
        };
        let flags = Flags {
            z_zero: false,
            n_subtraction_bcd: false,
            h_half_carry_bcd: sp % 16 + (e % 16) as u16 > 15,
            c_carry: sp % 256 + e as u16 > 255,
        };
        (sp.wrapping_add_signed(d), flags)
    }

    /// `sp` plus the signed immediate byte.
    fn add_sp_e8(&mut self)
        requires
            old(self).wf(),
        ensures
            final(self).same_frame(old(self)),
            final(self).machine() == add_sp_effect(old(self).registry, old(self).memory),
    {
        proof {
            reveal(add_sp_effect);
        }
        let e = self.memory.read_byte(self.registry.pc.wrapping_add(1));
        let (sp, f) = self.sp_plus_e8(e);
        self.registry.sp = sp;
        self.registry.f = f;
    }

    /// Carries out an arithmetic/logic instruction; returns whether the
    /// instruction belongs to this unit, and leaves the processor alone when it
    /// does not.
    pub fn logic_execution(&mut self, instruction: &Instructions) -> (r: bool)
        requires
            old(self).wf(),
            instruction.well_formed(),
        ensures
            r == is_logic(*instruction),
            final(self).same_frame(old(self)),
            r ==> final(self).machine() == logic_spec(
                old(self).registry,
                old(self).memory,
                *instruction,
            ),
            !r ==> *final(self) == *old(self),
    {
        match instruction {
            Instructions::ADD(t) => {
                proof {
                    reveal(add_effect);
                }
                let v = self.target_to_value_r8(t);
                self.add(v, false);
            },
            Instructions::ADC(t) => {
                proof {
                    reveal(add_effect);
                }
                let v = self.target_to_value_r8(t);
                self.add(v, true);
            },
            Instructions::SUB(t) => {
                proof {
                    reveal(sub_effect);
                }
                let v = self.target_to_value_r8(t);
                self.sub_and_cp(v, false, false);
            },
            Instructions::SBC(t) => {
                proof {
                    reveal(sub_effect);
                }
                let v = self.target_to_value_r8(t);
                self.sub_and_cp(v, true, false);
            },
            Instructions::AND(t) => {
                proof {
                    reveal(and_effect);
                }
                let v = self.target_to_value_r8(t);
                self.and(v);
            },
            Instructions::XOR(t) => {
                proof {
                    reveal(xor_effect);
                }
                let v = self.target_to_value_r8(t);
                self.xor(v);
            },
            Instructions::OR(t) => {
                proof {
                    reveal(or_effect);
                }
                let v = self.target_to_value_r8(t);
                self.or(v);
            },
            Instructions::CP(t) => {
                proof {
                    reveal(cp_effect);
                }
                let v = self.target_to_value_r8(t);
                self.sub_and_cp(v, false, true);
            },
            Instructions::INC(t) => match t {
                LogicTargets::BC | LogicTargets::DE | LogicTargets::HL | LogicTargets::SP => self.inc_16(t),
                _ => self.inc(t),
            },
            Instructions::DEC(t) => match t {
                LogicTargets::BC | LogicTargets::DE | LogicTargets::HL | LogicTargets::SP => self.dec_16(t),
                _ => self.dec(t),
            },
            Instructions::INCHL() => self.inc_hl(),
            Instructions::DECHL() => self.dec_hl(),
            Instructions::ADDHLR16(t) => self.add_hl_r16(t),
            Instructions::ADDSPE8(_) => self.add_sp_e8(),
            _ => return false,
        }
        true
    }
}

} // verus!
