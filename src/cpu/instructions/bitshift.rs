use vstd::prelude::*;

use crate::cpu::CPU;
use crate::cpu::flags::Flags;
use crate::cpu::registry::CPURegistry;
use crate::memory::Memory;
use super::{Instructions, LogicTargets, is_r8_or_mem};
use super::load::{operand8, store8};

verus! {

/// 1 if `c` holds, else 0.
pub open spec fn bit_of(c: bool) -> int {
    if c {
        1
    } else {
        0
    }
}

/// Result and carry-out of a rotate or shift of `v`, with `carry` the carry
/// flag before it. RLC and RRC feed the bit shifted out back in; RL and RR
/// feed the old carry in; SLA and SRL fill with 0; SRA keeps bit 7.
pub open spec fn shift8(ins: Instructions, v: u8, carry: bool) -> (u8, bool) {
    match ins {
        Instructions::RLC(_) | Instructions::RLCA() => (((v % 128) * 2 + v / 128) as u8, v >= 128),
        Instructions::RRC(_) | Instructions::RRCA() => ((v / 2 + (v % 2) * 128) as u8, v % 2 == 1),
        Instructions::RL(_) | Instructions::RLA() => (
            ((v % 128) * 2 + bit_of(carry)) as u8,
            v >= 128,
        ),
        Instructions::RR(_) | Instructions::RRA() => (
            (v / 2 + bit_of(carry) * 128) as u8,
            v % 2 == 1,
        ),
        Instructions::SLA(_) => (((v % 128) * 2) as u8, v >= 128),
        Instructions::SRA(_) => ((v / 2 + (v / 128) * 128) as u8, v % 2 == 1),
        _ => ((v / 2) as u8, v % 2 == 1),
    }
}

/// The rotates and shifts on a register or `(hl)`.
pub open spec fn is_shift_op(ins: Instructions) -> bool {
    ins is RLC || ins is RRC || ins is RL || ins is RR || ins is SLA || ins is SRA || ins is SRL
}

/// The accumulator-only rotates.
pub open spec fn is_rotate_a(ins: Instructions) -> bool {
    ins is RLCA || ins is RRCA || ins is RLA || ins is RRA
}

/// Effect of a rotate or shift on operand `t`: the zero flag comes from the
/// result.
#[verifier::opaque]
pub open spec fn shift_effect(r: CPURegistry, m: Memory, ins: Instructions, t: LogicTargets) -> (
    CPURegistry,
    Seq<u8>,
) {
    let res = shift8(ins, operand8(r, m, t), r.f.c_carry);
    store8(
        CPURegistry {
            f: Flags {
                z_zero: res.0 == 0,
                n_subtraction_bcd: false,
                h_half_carry_bcd: false,
                c_carry: res.1,
            },
            ..r
        },
        m.memory@,
        t,
        res.0,
    )
}

/// Effect of an accumulator-only rotate: the zero flag is kept.
#[verifier::opaque]
pub open spec fn rotate_a_effect(r: CPURegistry, m: Memory, ins: Instructions) -> (
    CPURegistry,
    Seq<u8>,
) {
    let res = shift8(ins, r.a, r.f.c_carry);
    (
        CPURegistry {
            a: res.0,
            f: Flags {
                z_zero: r.f.z_zero,
                n_subtraction_bcd: false,
                h_half_carry_bcd: false,
                c_carry: res.1,
            },
            ..r
        },
        m.memory@,
    )
}

/// Whether an instruction belongs to the bit-shift unit.
pub open spec fn is_bitshift(ins: Instructions) -> bool {
    is_shift_op(ins) || is_rotate_a(ins)
}

/// Effect of a rotate or shift instruction.
pub open spec fn bitshift_spec(r: CPURegistry, m: Memory, ins: Instructions) -> (
    CPURegistry,
    Seq<u8>,
) {
    match ins {
        Instructions::RLC(t) | Instructions::RRC(t) | Instructions::RL(t) | Instructions::RR(t)
        | Instructions::SLA(t) | Instructions::SRA(t) | Instructions::SRL(t) => shift_effect(
            r,
            m,
            ins,
            t,
        ),
        Instructions::RLCA() | Instructions::RRCA() | Instructions::RLA() | Instructions::RRA() =>
            rotate_a_effect(r, m, ins),
        _ => (r, m.memory@),
    }
}

/// Result and carry-out of the rotate or shift `ins` on `v`.
fn shift_value(ins: &Instructions, v: u8, carry: bool) -> (r: (u8, bool))
    requires
        is_bitshift(*ins),
    ensures
        r == shift8(*ins, v, carry),
{
    let c: u8 = if carry {
        1
    } else {
        0
    };
    match ins {
        Instructions::RLC(_) | Instructions::RLCA() => ((v % 128) * 2 + v / 128, v >= 128),
        Instructions::RRC(_) | Instructions::RRCA() => (v / 2 + (v % 2) * 128, v % 2 == 1),
        Instructions::RL(_) | Instructions::RLA() => ((v % 128) * 2 + c, v >= 128),
        Instructions::RR(_) | Instructions::RRA() => (v / 2 + c * 128, v % 2 == 1),
        Instructions::SLA(_) => ((v % 128) * 2, v >= 128),
        Instructions::SRA(_) => (v / 2 + (v / 128) * 128, v % 2 == 1),
        _ => (v / 2, v % 2 == 1),
    }
}

impl CPU {
    /// A rotate or shift of a register or of the byte addressed by `hl`.
    fn rotate(&mut self, target: &LogicTargets, ins: &Instructions)
        requires
            old(self).wf(),
            is_r8_or_mem(*target),
            is_shift_op(*ins),
        ensures
            final(self).same_frame(old(self)),
            final(self).machine() == shift_effect(old(self).registry, old(self).memory, *ins, *target),
    {
        proof {
            reveal(shift_effect);
        }
        let v = self.target_to_value_r8(target);
        let (res, carry) = shift_value(ins, v, self.registry.f.c_carry);
        self.registry.f = Flags {
            z_zero: res == 0,
            n_subtraction_bcd: false,
            h_half_carry_bcd: false,
            c_carry: carry,
        };
        self.write_r8(target, res);
    }

    /// An accumulator-only rotate.
    fn rotate_a(&mut self, ins: &Instructions)
        requires
            old(self).wf(),
            is_rotate_a(*ins),
        ensures
            final(self).same_frame(old(self)),
            final(self).machine() == rotate_a_effect(old(self).registry, old(self).memory, *ins),
    {
        proof {
            reveal(rotate_a_effect);
        }
        let (res, carry) = shift_value(ins, self.registry.a, self.registry.f.c_carry);
        self.registry.a = res;
        self.registry.f.n_subtraction_bcd = false;
        self.registry.f.h_half_carry_bcd = false;
        self.registry.f.c_carry = carry;
    }

    /// Carries out a rotate or shift; returns whether the instruction belongs
    /// to this unit, and leaves the processor alone when it does not.
    pub fn bitshift_execution(&mut self, instructions: &Instructions) -> (r: bool)
        requires
            old(self).wf(),
            instructions.well_formed(),
        ensures
            r == is_bitshift(*instructions),
            final(self).same_frame(old(self)),
            r ==> final(self).machine() == bitshift_spec(
                old(self).registry,
                old(self).memory,
                *instructions,
            ),
            !r ==> *final(self) == *old(self),
    {
        match instructions {
            Instructions::RLC(target) | Instructions::RRC(target) | Instructions::RL(target)
            | Instructions::RR(target) | Instructions::SLA(target) | Instructions::SRA(target)
            | Instructions::SRL(target) => self.rotate(target, instructions),
            Instructions::RLCA() | Instructions::RRCA() | Instructions::RLA() | Instructions::RRA() =>
                self.rotate_a(instructions),
            _ => return false,
        }
        true
    }
}

} // verus!
