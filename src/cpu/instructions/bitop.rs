use vstd::prelude::*;

use crate::cpu::CPU;
use crate::cpu::flags::Flags;
use crate::cpu::registry::CPURegistry;
use crate::memory::Memory;
use super::{Instructions, LogicTargets, is_r8_or_mem};
use super::load::{operand8, store8};

verus! {

/// Whether bit `b` of `v` is clear.
pub open spec fn bit_clear(v: u8, b: u8) -> bool {
    (v >> b) & 1 == 0
}

/// `v` with bit `b` cleared.
pub open spec fn res8(v: u8, b: u8) -> u8 {
    v & !(1u8 << b)
}

/// `v` with bit `b` set.
pub open spec fn set8(v: u8, b: u8) -> u8 {
    v | (1u8 << b)
}

/// `v` with its two nibbles exchanged.
pub open spec fn swap8(v: u8) -> u8 {
    ((v % 16) * 16 + v / 16) as u8
}

/// Effect of BIT `b` on operand `t`: only the flags change.
#[verifier::opaque]
pub open spec fn bit_effect(r: CPURegistry, m: Memory, b: u8, t: LogicTargets) -> (
    CPURegistry,
    Seq<u8>,
) {
    (
        CPURegistry {
            f: Flags {
                z_zero: bit_clear(operand8(r, m, t), b),
                n_subtraction_bcd: false,
                h_half_carry_bcd: true,
                c_carry: r.f.c_carry,
            },
            ..r
        },
        m.memory@,
    )
}

/// Effect of RES `b` on operand `t`.
#[verifier::opaque]
pub open spec fn res_effect(r: CPURegistry, m: Memory, b: u8, t: LogicTargets) -> (
    CPURegistry,
    Seq<u8>,
) {
    store8(r, m.memory@, t, res8(operand8(r, m, t), b))
}

/// Effect of SET `b` on operand `t`.
#[verifier::opaque]
pub open spec fn set_effect(r: CPURegistry, m: Memory, b: u8, t: LogicTargets) -> (
    CPURegistry,
    Seq<u8>,
) {
    store8(r, m.memory@, t, set8(operand8(r, m, t), b))
}

/// Effect of SWAP on operand `t`.
#[verifier::opaque]
pub open spec fn swap_effect(r: CPURegistry, m: Memory, t: LogicTargets) -> (CPURegistry, Seq<u8>) {
    let res = swap8(operand8(r, m, t));
    store8(
        CPURegistry {
            f: Flags {
                z_zero: res == 0,
                n_subtraction_bcd: false,
                h_half_carry_bcd: false,
                c_carry: false,
            },
            ..r
        },
        m.memory@,
        t,
        res,
    )
}

/// Whether an instruction belongs to the bit-operation unit.
pub open spec fn is_bitop(ins: Instructions) -> bool {
    ins is BIT || ins is RES || ins is SET || ins is SWAP
}

/// Effect of a bit operation.
pub open spec fn bitop_spec(r: CPURegistry, m: Memory, ins: Instructions) -> (CPURegistry, Seq<u8>) {
    match ins {
        Instructions::BIT(b, t) => bit_effect(r, m, b, t),
        Instructions::RES(b, t) => res_effect(r, m, b, t),
        Instructions::SET(b, t) => set_effect(r, m, b, t),
        Instructions::SWAP(t) => swap_effect(r, m, t),
        _ => (r, m.memory@),
    }
}

impl CPU {
    /// BIT: the zero flag tells whether bit `test_bit` of `target` is clear.
    fn bit(&mut self, test_bit: u8, target: u8)
        requires
            test_bit < 8,
        ensures
            final(self).only_registers_changed(old(self)),
            final(self).registry == (CPURegistry {
                f: Flags {
                    z_zero: bit_clear(target, test_bit),
                    n_subtraction_bcd: false,
                    h_half_carry_bcd: true,
                    c_carry: old(self).registry.f.c_carry,
                },
                ..old(self).registry
            }),
    {
        self.registry.f.z_zero = (target >> test_bit) & 1 == 0;
        self.registry.f.n_subtraction_bcd = false;
        self.registry.f.h_half_carry_bcd = true;
    }

    fn res(&mut self, bit: u8, target: &LogicTargets)
        requires
            old(self).wf(),
            bit < 8,
            is_r8_or_mem(*target),
        ensures
            final(self).same_frame(old(self)),
            final(self).machine() == res_effect(old(self).registry, old(self).memory, bit, *target),
    {
        proof {
            reveal(res_effect);
        }
        let v = self.target_to_value_r8(target);
        self.write_r8(target, v & !(1u8 << bit));
    }

    fn set(&mut self, bit: u8, target: &LogicTargets)
        requires
            old(self).wf(),
            bit < 8,
            is_r8_or_mem(*target),
        ensures
            final(self).same_frame(old(self)),
            final(self).machine() == set_effect(old(self).registry, old(self).memory, bit, *target),
    {
        proof {
            reveal(set_effect);
        }
        let v = self.target_to_value_r8(target);
        self.write_r8(target, v | (1u8 << bit));
    }

    fn swap(&mut self, target: &LogicTargets)
        requires
            old(self).wf(),
            is_r8_or_mem(*target),
        ensures
            final(self).same_frame(old(self)),
            final(self).machine() == swap_effect(old(self).registry, old(self).memory, *target),
    {
        proof {
            reveal(swap_effect);
        }
        let v = self.target_to_value_r8(target);
        let res = (v % 16) * 16 + v / 16;
        self.registry.f = Flags {
            z_zero: res == 0,
            n_subtraction_bcd: false,
            h_half_carry_bcd: false,
            c_carry: false,
        };
        self.write_r8(target, res);
    }

    /// Carries out a bit operation; returns whether the instruction belongs to
    /// this unit, and leaves the processor alone when it does not.
    pub fn execute_bitop(&mut self, instruction: &Instructions) -> (r: bool)
        requires
            old(self).wf(),
            instruction.well_formed(),
        ensures
            r == is_bitop(*instruction),
            final(self).same_frame(old(self)),
            r ==> final(self).machine() == bitop_spec(
                old(self).registry,
                old(self).memory,
                *instruction,
            ),
            !r ==> *final(self) == *old(self),
    {
        match instruction {
            Instructions::BIT(test_bit, target) => {
                proof {
                    reveal(bit_effect);
                }
                let v = self.target_to_value_r8(target);
                self.bit(*test_bit, v);
            },
            Instructions::RES(bit, target) => self.res(*bit, target),
            Instructions::SET(bit, target) => self.set(*bit, target),
            Instructions::SWAP(target) => self.swap(target),
            _ => return false,
        }
        true
    }
}

} // verus!
