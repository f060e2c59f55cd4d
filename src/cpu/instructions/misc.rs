use vstd::prelude::*;

use crate::cpu::CPU;
use crate::cpu::flags::Flags;
use crate::cpu::registry::{CPURegistry, wrap8};
use crate::memory::Memory;
use super::{Instructions, execute_spec};

verus! {

/// Correction DAA adds to (or, after a subtraction, takes from) `a`: 0x06 for
/// the low digit, 0x60 for the high digit.
pub open spec fn daa_adjust(r: CPURegistry) -> int {
    (if r.f.h_half_carry_bcd || (!r.f.n_subtraction_bcd && r.a % 16 > 9) {
        0x06int
    } else {
        0
    }) + (if daa_carry(r) {
        0x60int
    } else {
        0
    })
}

/// Whether DAA corrects the high digit, which sets the carry flag.
pub open spec fn daa_carry(r: CPURegistry) -> bool {
    r.f.c_carry || (!r.f.n_subtraction_bcd && r.a > 0x99)
}

/// The accumulator after DAA.
pub open spec fn daa_result(r: CPURegistry) -> u8 {
    if r.f.n_subtraction_bcd {
        wrap8(r.a - daa_adjust(r))
    } else {
        wrap8(r.a + daa_adjust(r))
    }
}

/// Effect of DAA on the register file.
#[verifier::opaque]
pub open spec fn daa_effect(r: CPURegistry) -> CPURegistry {
    CPURegistry {
        a: daa_result(r),
        f: Flags {
            z_zero: daa_result(r) == 0,
            n_subtraction_bcd: r.f.n_subtraction_bcd,
            h_half_carry_bcd: false,
            c_carry: daa_carry(r),
        },
        ..r
    }
}

/// Whether an instruction belongs to the misc/interrupt unit.
pub open spec fn is_misc(ins: Instructions) -> bool {
    ins is CCF || ins is CPL || ins is DAA || ins is DI || ins is EI || ins is HALT || ins is NOP
        || ins is SCF || ins is STOP
}

/// Effect of a misc/interrupt instruction on the register file.
pub open spec fn misc_spec(r: CPURegistry, ins: Instructions) -> CPURegistry {
    match ins {
        Instructions::CCF() => CPURegistry {
            f: Flags {
                z_zero: r.f.z_zero,
                n_subtraction_bcd: false,
                h_half_carry_bcd: false,
                c_carry: !r.f.c_carry,
            },
            ..r
        },
        Instructions::SCF() => CPURegistry {
            f: Flags {
                z_zero: r.f.z_zero,
                n_subtraction_bcd: false,
                h_half_carry_bcd: false,
                c_carry: true,
            },
            ..r
        },
        Instructions::CPL() => CPURegistry {
            a: !r.a,
            f: Flags {
                z_zero: r.f.z_zero,
                n_subtraction_bcd: true,
                h_half_carry_bcd: true,
                c_carry: r.f.c_carry,
            },
            ..r
        },
        Instructions::DAA() => daa_effect(r),
        Instructions::DI() => CPURegistry { interrupts_enabled: false, ..r },
        Instructions::EI() => CPURegistry { interrupts_enabled: true, ..r },
        Instructions::HALT() => CPURegistry { halted: true, ..r },
        Instructions::STOP() => CPURegistry { low_power_mode: true, ..r },
        _ => r,
    }
}

/// HALT sets the halted mode bit and changes no other register (STOP likewise
/// for the low-power bit); EI after DI leaves interrupts enabled, which
/// restores a register file that had them enabled.
pub proof fn lemma_halt_and_interrupt_enable(r: CPURegistry, m: Memory)
    ensures
        execute_spec(r, m, Instructions::HALT()) == (CPURegistry { halted: true, ..r }, m.memory@),
        misc_spec(r, Instructions::HALT()) == (CPURegistry { halted: true, ..r }),
        misc_spec(r, Instructions::STOP()) == (CPURegistry { low_power_mode: true, ..r }),
        !misc_spec(r, Instructions::DI()).interrupts_enabled,
        misc_spec(misc_spec(r, Instructions::DI()), Instructions::EI()).interrupts_enabled,
        r.interrupts_enabled ==> misc_spec(misc_spec(r, Instructions::DI()), Instructions::EI())
            == r,
{
}

impl CPU {
    fn ccf(&mut self)
        ensures
            final(self).only_registers_changed(old(self)),
            final(self).registry == misc_spec(old(self).registry, Instructions::CCF()),
    {
        self.registry.f.c_carry = !self.registry.f.c_carry;
        self.registry.f.n_subtraction_bcd = false;
        self.registry.f.h_half_carry_bcd = false;
    }

    fn cpl(&mut self)
        ensures
            final(self).only_registers_changed(old(self)),
            final(self).registry == misc_spec(old(self).registry, Instructions::CPL()),
    {
        self.registry.a = !self.registry.a;
        self.registry.f.n_subtraction_bcd = true;
        self.registry.f.h_half_carry_bcd = true;
    }

    fn daa(&mut self)
        ensures
            final(self).only_registers_changed(old(self)),
            final(self).registry == misc_spec(old(self).registry, Instructions::DAA()),
    {
        proof {
            reveal(daa_effect);
        }
        let a = self.registry.a;
        let mut adjust: u8 = 0;
        if self.registry.f.h_half_carry_bcd || (!self.registry.f.n_subtraction_bcd && a % 16 > 9) {
            adjust = adjust + 0x06;
        }
        if self.registry.f.c_carry || (!self.registry.f.n_subtraction_bcd && a > 0x99) {
            adjust = adjust + 0x60;
            self.registry.f.c_carry = true;
        }
        let res = if self.registry.f.n_subtraction_bcd {
            a.wrapping_sub(adjust)
        } else {
            a.wrapping_add(adjust)
        };
        self.registry.f.z_zero = res == 0;
        self.registry.f.h_half_carry_bcd = false;
        self.registry.a = res;
    }

    fn di(&mut self)
        ensures
            final(self).only_registers_changed(old(self)),
            final(self).registry == misc_spec(old(self).registry, Instructions::DI()),
    {
        self.registry.interrupts_enabled = false;
    }

    /// Enables interrupts.
    pub fn ei(&mut self)
        ensures
            final(self).only_registers_changed(old(self)),
            final(self).registry == misc_spec(old(self).registry, Instructions::EI()),
    {
        self.registry.interrupts_enabled = true;
    }

    fn halt(&mut self)
        ensures
            final(self).only_registers_changed(old(self)),
            final(self).registry == misc_spec(old(self).registry, Instructions::HALT()),
    {
        self.registry.halted = true;
    }

    fn scf(&mut self)
        ensures
            final(self).only_registers_changed(old(self)),
            final(self).registry == misc_spec(old(self).registry, Instructions::SCF()),
    {
        self.registry.f.c_carry = true;
        self.registry.f.n_subtraction_bcd = false;
        self.registry.f.h_half_carry_bcd = false;
    }

    fn stop(&mut self)
        ensures
            final(self).only_registers_changed(old(self)),
            final(self).registry == misc_spec(old(self).registry, Instructions::STOP()),
    {
        self.registry.low_power_mode = true;
    }

    /// Carries out a flag-only or mode instruction; returns whether the
    /// instruction belongs to this unit, and leaves the processor alone when it
    /// does not.
    pub fn misc_execution(&mut self, instruction: &Instructions) -> (r: bool)
        ensures
            r == is_misc(*instruction),
            final(self).only_registers_changed(old(self)),
            final(self).registry == if r {
                misc_spec(old(self).registry, *instruction)
            } else {
                old(self).registry
            },
    {
        match instruction {
            Instructions::CCF() => self.ccf(),
            Instructions::CPL() => self.cpl(),
            Instructions::DAA() => self.daa(),
            Instructions::DI() => self.di(),
            Instructions::EI() => self.ei(),
            Instructions::HALT() => self.halt(),
            Instructions::NOP() => {},
            Instructions::SCF() => self.scf(),
            Instructions::STOP() => self.stop(),
            _ => return false,
        }
        true
    }
}

} // verus!
