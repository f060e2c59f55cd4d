use vstd::prelude::*;

verus! {

/// Weight of the zero flag in the packed flags byte (bit 7).
pub const ZERO_FLAG_POS: u8 = 0x80;
/// Weight of the subtract flag in the packed flags byte (bit 6).
pub const SUBTRACTION_FLAG_POS: u8 = 0x40;
/// Weight of the half-carry flag in the packed flags byte (bit 5).
pub const HALF_CARRY_FLAG_POS: u8 = 0x20;
/// Weight of the carry flag in the packed flags byte (bit 4).
pub const CARRY_FLAG_POS: u8 = 0x10;

/// The condition that gates a conditional jump, call or return.
#[derive(Clone, Copy, Debug, PartialEq, Eq, Structural)]
pub enum FlagCondition {
    ZZero,
    NZNotZero,
    CCarry,
    NCNotCarry,
    ALWAYS,
}

/// The four status flags of the processor.
#[derive(Clone, Copy, Debug, PartialEq, Eq, Structural)]
pub struct Flags {
    pub z_zero: bool,
    pub n_subtraction_bcd: bool,
    pub h_half_carry_bcd: bool,
    pub c_carry: bool,
}

/// `w` if `b` holds, else 0.
pub open spec fn weight(b: bool, w: int) -> int {
    if b { w } else { 0 }
}

/// Whether bit `k` (weight `2^k`, given as `w`) of `v` is set.
pub open spec fn bit_set(v: u8, w: int) -> bool {
    (v as int / w) % 2 == 1
}

impl Flags {
    /// The packed flags byte: zero, subtract, half-carry and carry in bits 7 to 4,
    /// bits 3 to 0 clear.
    pub open spec fn byte(self) -> u8 {
        (weight(self.z_zero, 128) + weight(self.n_subtraction_bcd, 64) + weight(
            self.h_half_carry_bcd,
            32,
        ) + weight(self.c_carry, 16)) as u8
    }

    /// The flags that a packed byte stands for; bits 3 to 0 are ignored.
    pub open spec fn from_byte(v: u8) -> Flags {
        Flags {
            z_zero: bit_set(v, 128),
            n_subtraction_bcd: bit_set(v, 64),
            h_half_carry_bcd: bit_set(v, 32),
            c_carry: bit_set(v, 16),
        }
    }

    /// All four flags clear.
    pub open spec fn cleared() -> Flags {
        Flags { z_zero: false, n_subtraction_bcd: false, h_half_carry_bcd: false, c_carry: false }
    }

    /// Whether `cond` holds under these flags.
    pub open spec fn holds(self, cond: FlagCondition) -> bool {
        match cond {
            FlagCondition::ZZero => self.z_zero,
            FlagCondition::NZNotZero => !self.z_zero,
            FlagCondition::CCarry => self.c_carry,
            FlagCondition::NCNotCarry => !self.c_carry,
            FlagCondition::ALWAYS => true,
        }
    }

    pub fn new() -> (r: Flags)
        ensures
            r == Flags::cleared(),
    {
        Flags { z_zero: false, n_subtraction_bcd: false, h_half_carry_bcd: false, c_carry: false }
    }

    /// Packs the flags into a byte.
    pub fn get_flags(&self) -> (r: u8)
        ensures
            r == self.byte(),
            r % 16 == 0,
    {
        let mut flags: u8 = 0;
        if self.z_zero {
            flags = flags + ZERO_FLAG_POS;
        }
        if self.n_subtraction_bcd {
            flags = flags + SUBTRACTION_FLAG_POS;
        }
        if self.h_half_carry_bcd {
            flags = flags + HALF_CARRY_FLAG_POS;
        }
        if self.c_carry {
            flags = flags + CARRY_FLAG_POS;
        }
        flags
    }

    /// Unpacks a flags byte; its low nibble is ignored.
    pub fn set_flags(&mut self, flags: u8)
        ensures
            *final(self) == Flags::from_byte(flags),
    {
        self.z_zero = flags / ZERO_FLAG_POS % 2 == 1;
        self.n_subtraction_bcd = flags / SUBTRACTION_FLAG_POS % 2 == 1;
        self.h_half_carry_bcd = flags / HALF_CARRY_FLAG_POS % 2 == 1;
        self.c_carry = flags / CARRY_FLAG_POS % 2 == 1;
    }
}

/// Packing the flags and unpacking the byte gives the same flags back.
pub proof fn lemma_flags_round_trip(f: Flags)
    ensures
        Flags::from_byte(f.byte()) == f,
        f.byte() % 16 == 0,
{
}

} // verus!
