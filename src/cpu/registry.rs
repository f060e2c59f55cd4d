use vstd::prelude::*;

use super::flags::Flags;

verus! {

/// `x` reduced modulo 2^8.
pub open spec fn wrap8(x: int) -> u8 {
    (x % 256) as u8
}

/// `x` reduced modulo 2^16.
pub open spec fn wrap16(x: int) -> u16 {
    (x % 65536) as u16
}

/// The 16-bit value whose high byte is `hi` and low byte is `lo`.
pub open spec fn pair(hi: u8, lo: u8) -> u16 {
    (hi as int * 256 + lo as int) as u16
}

/// High byte of a 16-bit value.
pub open spec fn hi_byte(v: u16) -> u8 {
    (v as int / 256) as u8
}

/// Low byte of a 16-bit value.
pub open spec fn lo_byte(v: u16) -> u8 {
    (v as int % 256) as u8
}

/// The register file: seven 8-bit registers, the flags, stack pointer,
/// program counter and the three processor mode bits.
#[derive(Clone, Copy, Debug, PartialEq, Eq, Structural)]
pub struct CPURegistry {
    pub a: u8,
    pub f: Flags,
    pub b: u8,
    pub c: u8,
    pub d: u8,
    pub e: u8,
    pub h: u8,
    pub l: u8,
    pub sp: u16,
    pub pc: u16,
    pub interrupts_enabled: bool,
    pub halted: bool,
    pub low_power_mode: bool,
}

impl CPURegistry {
    /// All registers zero, all flags and mode bits clear.
    pub open spec fn zeroed() -> CPURegistry {
        CPURegistry {
            a: 0,
            f: Flags::cleared(),
            b: 0,
            c: 0,
            d: 0,
            e: 0,
            h: 0,
            l: 0,
            sp: 0,
            pc: 0,
            interrupts_enabled: false,
            halted: false,
            low_power_mode: false,
        }
    }

    pub open spec fn af(self) -> u16 {
        pair(self.a, self.f.byte())
    }

    pub open spec fn bc(self) -> u16 {
        pair(self.b, self.c)
    }

    pub open spec fn de(self) -> u16 {
        pair(self.d, self.e)
    }

    pub open spec fn hl(self) -> u16 {
        pair(self.h, self.l)
    }

    pub open spec fn with_af(self, v: u16) -> CPURegistry {
        CPURegistry { a: hi_byte(v), f: Flags::from_byte(lo_byte(v)), ..self }
    }

    pub open spec fn with_bc(self, v: u16) -> CPURegistry {
        CPURegistry { b: hi_byte(v), c: lo_byte(v), ..self }
    }

    pub open spec fn with_de(self, v: u16) -> CPURegistry {
        CPURegistry { d: hi_byte(v), e: lo_byte(v), ..self }
    }

    pub open spec fn with_hl(self, v: u16) -> CPURegistry {
        CPURegistry { h: hi_byte(v), l: lo_byte(v), ..self }
    }

    pub fn new() -> (r: CPURegistry)
        ensures
            r == CPURegistry::zeroed(),
    {
        CPURegistry {
            a: 0,
            f: Flags::new(),
            b: 0,
            c: 0,
            d: 0,
            e: 0,
            h: 0,
            l: 0,
            sp: 0,
            pc: 0,
            interrupts_enabled: false,
            halted: false,
            low_power_mode: false,
        }
    }

    /// Accumulator and flags: `a` in the high byte, the packed flags in the low byte.
    pub fn get_af(&self) -> (r: u16)
        ensures
            r == self.af(),
            r % 16 == 0,
    {
        (self.a as u16) * 256 + (self.f.get_flags() as u16)
    }

    /// Sets `a` from the high byte and the flags from the low byte (its low nibble
    /// is dropped).
    pub fn set_af(&mut self, value: u16)
        ensures
            *final(self) == old(self).with_af(value),
    {
        self.a = (value / 256) as u8;
        self.f.set_flags((value % 256) as u8);
    }

    pub fn get_bc(&self) -> (r: u16)
        ensures
            r == self.bc(),
    {
        (self.b as u16) * 256 + (self.c as u16)
    }

    pub fn set_bc(&mut self, value: u16)
        ensures
            *final(self) == old(self).with_bc(value),
    {
        self.b = (value / 256) as u8;
        self.c = (value % 256) as u8;
    }

    pub fn get_de(&self) -> (r: u16)
        ensures
            r == self.de(),
    {
        (self.d as u16) * 256 + (self.e as u16)
    }

    pub fn set_de(&mut self, value: u16)
        ensures
            *final(self) == old(self).with_de(value),
    {
        self.d = (value / 256) as u8;
        self.e = (value % 256) as u8;
    }

    pub fn get_hl(&self) -> (r: u16)
        ensures
            r == self.hl(),
    {
        (self.h as u16) * 256 + (self.l as u16)
    }

    pub fn set_hl(&mut self, value: u16)
        ensures
            *final(self) == old(self).with_hl(value),
    {
        self.h = (value / 256) as u8;
        self.l = (value % 256) as u8;
    }

    pub fn get_sp(&self) -> (r: u16)
        ensures
            r == self.sp,
    {
        self.sp
    }

    pub fn set_sp(&mut self, value: u16)
        ensures
            *final(self) == (CPURegistry { sp: value, ..*old(self) }),
    {
        self.sp = value;
    }
}

/// Writing back what `get_af` read leaves the register file unchanged, and the
/// low nibble of the packed value is always zero.
pub proof fn lemma_af_round_trip(r: CPURegistry)
    ensures
        r.with_af(r.af()) == r,
        r.af() % 16 == 0,
{
    crate::cpu::flags::lemma_flags_round_trip(r.f);
    assert(hi_byte(r.af()) == r.a);
    assert(lo_byte(r.af()) == r.f.byte());
}

/// Writing a value into a register pair and reading it back gives the value.
pub proof fn lemma_pair_round_trip(r: CPURegistry, v: u16)
    ensures
        r.with_bc(v).bc() == v,
        r.with_de(v).de() == v,
        r.with_hl(v).hl() == v,
{
}

} // verus!
