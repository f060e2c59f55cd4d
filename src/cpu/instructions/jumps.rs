use vstd::prelude::*;

use crate::cpu::CPU;
use crate::cpu::flags::FlagCondition;
use crate::cpu::registry::{CPURegistry, wrap16};
use crate::memory::{Memory, store_word};
use super::{Instructions, LogicTargets, is_stack_pair, reg16, with_reg16};
use super::load::{imm16, imm8};
use super::logic::sext8;

verus! {

/// Target of a relative jump: the address after the two-byte instruction plus
/// the signed immediate displacement.
pub open spec fn rel_target(r: CPURegistry, m: Memory) -> u16 {
    wrap16(r.pc + 2 + sext8(imm8(r, m)))
}

/// Register file and backing store after pushing `ret` and jumping to `target`.
pub open spec fn call_to(r: CPURegistry, m: Memory, target: u16, ret: u16) -> (
    CPURegistry,
    Seq<u8>,
) {
    let sp = wrap16(r.sp - 2);
    (CPURegistry { sp: sp, pc: target, ..r }, store_word(m.memory@, sp, ret))
}

/// Effect of JP to `hl` or to the immediate word, gated by `cond`.
#[verifier::opaque]
pub open spec fn jp_effect(r: CPURegistry, m: Memory, t: LogicTargets, cond: FlagCondition) -> (
    CPURegistry,
    Seq<u8>,
) {
    if r.f.holds(cond) {
        let target = if t == LogicTargets::HL {
            r.hl()
        } else {
            imm16(r, m)
        };
        (CPURegistry { pc: target, ..r }, m.memory@)
    } else {
        (r, m.memory@)
    }
}

/// Effect of JR, gated by `cond`.
#[verifier::opaque]
pub open spec fn jr_effect(r: CPURegistry, m: Memory, cond: FlagCondition) -> (
    CPURegistry,
    Seq<u8>,
) {
    if r.f.holds(cond) {
        (CPURegistry { pc: rel_target(r, m), ..r }, m.memory@)
    } else {
        (r, m.memory@)
    }
}

/// Effect of CALL to the immediate word, gated by `cond`; the return address
/// is that of the next instruction, three bytes on.
#[verifier::opaque]
pub open spec fn call_effect(r: CPURegistry, m: Memory, cond: FlagCondition) -> (
    CPURegistry,
    Seq<u8>,
) {
    if r.f.holds(cond) {
        call_to(r, m, imm16(r, m), wrap16(r.pc + 3))
    } else {
        (r, m.memory@)
    }
}

/// Effect of RET, gated by `cond`.
#[verifier::opaque]
pub open spec fn ret_effect(r: CPURegistry, m: Memory, cond: FlagCondition) -> (
    CPURegistry,
    Seq<u8>,
) {
    if r.f.holds(cond) {
        (CPURegistry { pc: m.word_at(r.sp), sp: wrap16(r.sp + 2), ..r }, m.memory@)
    } else {
        (r, m.memory@)
    }
}

/// Effect of RETI: RET, and interrupts enabled.
#[verifier::opaque]
pub open spec fn reti_effect(r: CPURegistry, m: Memory) -> (CPURegistry, Seq<u8>) {
    (
        CPURegistry {
            pc: m.word_at(r.sp),
            sp: wrap16(r.sp + 2),
            interrupts_enabled: true,
            ..r
        },
        m.memory@,
    )
}

/// Effect of RST `n`: a call to address `n` from a one-byte instruction.
#[verifier::opaque]
pub open spec fn rst_effect(r: CPURegistry, m: Memory, n: u8) -> (CPURegistry, Seq<u8>) {
    call_to(r, m, n as u16, wrap16(r.pc + 1))
}

/// Effect of PUSH of a register pair.
#[verifier::opaque]
pub open spec fn push_effect(r: CPURegistry, m: Memory, t: LogicTargets) -> (CPURegistry, Seq<u8>) {
    let sp = wrap16(r.sp - 2);
    (CPURegistry { sp: sp, ..r }, store_word(m.memory@, sp, reg16(r, t)))
}

/// Effect of POP into a register pair.
#[verifier::opaque]
pub open spec fn pop_effect(r: CPURegistry, m: Memory, t: LogicTargets) -> (CPURegistry, Seq<u8>) {
    (CPURegistry { sp: wrap16(r.sp + 2), ..with_reg16(r, t, m.word_at(r.sp)) }, m.memory@)
}

/// Whether an instruction belongs to the control-flow unit.
pub open spec fn is_jump(ins: Instructions) -> bool {
    ins is JP || ins is JPC || ins is JR || ins is JRC || ins is CALL || ins is CALLC || ins is RET
        || ins is RETC || ins is RETI || ins is RST || ins is PUSH || ins is POP
}

/// Whether `ins` writes the program counter when carried out on `r`.
pub open spec fn branch_taken(r: CPURegistry, ins: Instructions) -> bool {
    match ins {
        Instructions::JP(_) | Instructions::JR(_) | Instructions::CALL(_) | Instructions::RET()
        | Instructions::RETI() | Instructions::RST(_) => true,
        Instructions::JPC(cond, _) | Instructions::JRC(_, cond) | Instructions::CALLC(cond, _)
        | Instructions::RETC(cond) => r.f.holds(cond),
        _ => false,
    }
}

/// Effect of a control-flow instruction.
pub open spec fn jump_spec(r: CPURegistry, m: Memory, ins: Instructions) -> (CPURegistry, Seq<u8>) {
    match ins {
        Instructions::JP(t) => jp_effect(r, m, t, FlagCondition::ALWAYS),
        Instructions::JPC(cond, t) => jp_effect(r, m, t, cond),
        Instructions::JR(_) => jr_effect(r, m, FlagCondition::ALWAYS),
        Instructions::JRC(_, cond) => jr_effect(r, m, cond),
        Instructions::CALL(_) => call_effect(r, m, FlagCondition::ALWAYS),
        Instructions::CALLC(cond, _) => call_effect(r, m, cond),
        Instructions::RET() => ret_effect(r, m, FlagCondition::ALWAYS),
        Instructions::RETC(cond) => ret_effect(r, m, cond),
        Instructions::RETI() => reti_effect(r, m),
        Instructions::RST(n) => rst_effect(r, m, n),
        Instructions::PUSH(t) => push_effect(r, m, t),
        Instructions::POP(t) => pop_effect(r, m, t),
        _ => (r, m.memory@),
    }
}

/// A CALL followed by a RET returns to the instruction after the CALL with the
/// stack pointer restored, and the word on top of the stack between the two is
/// that return address. `m2` is the memory as the CALL left it; the stack
/// words must not lie under a mapped boot image.
pub proof fn lemma_call_then_ret(r: CPURegistry, m: Memory, m2: Memory)
    requires
        m.wf(),
        m2.wf(),
        m2.memory@ == call_effect(r, m, FlagCondition::ALWAYS).1,
        m2.bootrom@ == m.bootrom@,
        m2.in_bootrom == m.in_bootrom,
        !m.in_bootrom || r.sp >= 0x102,
    ensures
        ({
            let called = call_effect(r, m, FlagCondition::ALWAYS).0;
            let back = ret_effect(called, m2, FlagCondition::ALWAYS).0;
            &&& called.sp == wrap16(r.sp - 2)
            &&& called.pc == imm16(r, m)
            &&& m2.word_at(called.sp) == wrap16(r.pc + 3)
            &&& back.pc == wrap16(r.pc + 3)
            &&& back.sp == r.sp
        }),
{
    reveal(call_effect);
    reveal(ret_effect);
    let sp = wrap16(r.sp - 2);
    let ret = wrap16(r.pc + 3);
    let next = crate::memory::next_addr(sp);
    assert(next != sp);
    assert(m2.byte_at(sp) == crate::cpu::registry::lo_byte(ret));
    assert(m2.byte_at(next) == crate::cpu::registry::hi_byte(ret));
}

impl CPU {
    /// Whether `condition` holds under the current flags.
    pub fn is_cond_true(&self, condition: &FlagCondition) -> (r: bool)
        ensures
            r == self.registry.f.holds(*condition),
    {
        match condition {
            FlagCondition::ZZero => self.registry.f.z_zero,
            FlagCondition::NZNotZero => !self.registry.f.z_zero,
            FlagCondition::CCarry => self.registry.f.c_carry,
            FlagCondition::NCNotCarry => !self.registry.f.c_carry,
            FlagCondition::ALWAYS => true,
        }
    }

    /// Whether `ins` writes the program counter when carried out now.
    pub fn takes_branch(&self, ins: &Instructions) -> (r: bool)
        ensures
            r == branch_taken(self.registry, *ins),
    {
        match ins {
            Instructions::JP(_) | Instructions::JR(_) | Instructions::CALL(_) | Instructions::RET()
            | Instructions::RETI() | Instructions::RST(_) => true,
            Instructions::JPC(cond, _) | Instructions::JRC(_, cond) | Instructions::CALLC(cond, _)
            | Instructions::RETC(cond) => self.is_cond_true(cond),
            _ => false,
        }
    }

    fn jp(&mut self, target: &LogicTargets, condition: &FlagCondition)
        requires
            old(self).wf(),
        ensures
            final(self).same_frame(old(self)),
            final(self).machine() == jp_effect(
                old(self).registry,
                old(self).memory,
                *target,
                *condition,
            ),
    {
        proof {
            reveal(jp_effect);
        }
        if !self.is_cond_true(condition) {
            return ;
        }
        match target {
            LogicTargets::HL => {
                self.registry.pc = self.registry.get_hl();
            },
            _ => {
                self.registry.pc = self.memory.read_word(self.registry.pc.wrapping_add(1));
            },
        }
    }

    /// Pushes `ret` and jumps to `target`.
    fn push_and_jump(&mut self, target: u16, ret: u16)
        requires
            old(self).wf(),
        ensures
            final(self).same_frame(old(self)),
            final(self).machine() == call_to(old(self).registry, old(self).memory, target, ret),
    {
        let sp = self.registry.sp.wrapping_sub(2);
        self.memory.write_word(sp, ret);
        self.registry.sp = sp;
        self.registry.pc = target;
    }

    fn call(&mut self, condition: &FlagCondition)
        requires
            old(self).wf(),
        ensures
            final(self).same_frame(old(self)),
            final(self).machine() == call_effect(old(self).registry, old(self).memory, *condition),
    {
        proof {
            reveal(call_effect);
        }
        if !self.is_cond_true(condition) {
            return ;
        }
        let target = self.memory.read_word(self.registry.pc.wrapping_add(1));
        self.push_and_jump(target, self.registry.pc.wrapping_add(3));
    }

    fn jr(&mut self, condition: &FlagCondition)
        requires
            old(self).wf(),
        ensures
            final(self).same_frame(old(self)),
            final(self).machine() == jr_effect(old(self).registry, old(self).memory, *condition),
    {
        proof {
            reveal(jr_effect);
        }
        if !self.is_cond_true(condition) {
            return ;
        }
        let e = self.memory.read_byte(self.registry.pc.wrapping_add(1));
        let d: i16 = if e < 128 {
            e as i16
        } else {
            e as i16 - 256
        };
        self.registry.pc = self.registry.pc.wrapping_add(2).wrapping_add_signed(d);
    }

    fn ret(&mut self, condition: &FlagCondition)
        requires
            old(self).wf(),
        ensures
            final(self).same_frame(old(self)),
            final(self).machine() == ret_effect(old(self).registry, old(self).memory, *condition),
    {
        proof {
            reveal(ret_effect);
        }
        if !self.is_cond_true(condition) {
            return ;
        }
        self.registry.pc = self.memory.read_word(self.registry.sp);
        self.registry.sp = self.registry.sp.wrapping_add(2);
    }

    fn reti(&mut self)
        requires
            old(self).wf(),
        ensures
            final(self).same_frame(old(self)),
            final(self).machine() == reti_effect(old(self).registry, old(self).memory),
    {
        proof {
            reveal(reti_effect);
        }
        self.ei();
        self.registry.pc = self.memory.read_word(self.registry.sp);
        self.registry.sp = self.registry.sp.wrapping_add(2);
    }

    fn rst(&mut self, target: u8)
        requires
            old(self).wf(),
        ensures
            final(self).same_frame(old(self)),
            final(self).machine() == rst_effect(old(self).registry, old(self).memory, target),
    {
        proof {
            reveal(rst_effect);
        }
        self.push_and_jump(target as u16, self.registry.pc.wrapping_add(1));
    }

    fn push(&mut self, target: &LogicTargets)
        requires
            old(self).wf(),
            is_stack_pair(*target),
        ensures
            final(self).same_frame(old(self)),
            final(self).machine() == push_effect(old(self).registry, old(self).memory, *target),
    {
        proof {
            reveal(push_effect);
        }
        let v = self.target_to_value_r16(target);
        let sp = self.registry.sp.wrapping_sub(2);
        self.memory.write_word(sp, v);
        self.registry.sp = sp;
    }

    fn pop(&mut self, target: &LogicTargets)
        requires
            old(self).wf(),
            is_stack_pair(*target),
        ensures
            final(self).same_frame(old(self)),
            final(self).machine() == pop_effect(old(self).registry, old(self).memory, *target),
    {
        proof {
            reveal(pop_effect);
        }
        let sp = self.registry.sp;
        let v = self.memory.read_word(sp);
        self.write_r16(target, v);
        self.registry.sp = sp.wrapping_add(2);
    }

    /// Carries out a jump, call, return or stack transfer; returns whether the
    /// instruction belongs to this unit, and leaves the processor alone when it
    /// does not.
    pub fn jump_execution(&mut self, instructions: &Instructions) -> (r: bool)
        requires
            old(self).wf(),
            instructions.well_formed(),
        ensures
            r == is_jump(*instructions),
            final(self).same_frame(old(self)),
            r ==> final(self).machine() == jump_spec(
                old(self).registry,
                old(self).memory,
                *instructions,
            ),
            !r ==> *final(self) == *old(self),
    {
        match instructions {
            Instructions::JP(target) => self.jp(target, &FlagCondition::ALWAYS),
            Instructions::JPC(condition, target) => self.jp(target, condition),
            Instructions::CALL(_) => self.call(&FlagCondition::ALWAYS),
            Instructions::CALLC(cond, _) => self.call(cond),
            Instructions::JR(_) => self.jr(&FlagCondition::ALWAYS),
            Instructions::JRC(_, cond) => self.jr(cond),
            Instructions::RET() => self.ret(&FlagCondition::ALWAYS),
            Instructions::RETC(cond) => self.ret(cond),
            Instructions::RETI() => self.reti(),
            Instructions::RST(target) => self.rst(*target),
            Instructions::PUSH(target) => self.push(target),
            Instructions::POP(target) => self.pop(target),
            _ => return false,
        }
        true
    }
}

} // verus!
