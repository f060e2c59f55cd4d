use vstd::prelude::*;

use super::super::flags::FlagCondition;
use super::{Instructions, LogicTargets};

verus! {

/// The lead byte that selects the second opcode table.
pub const PREFIX_BYTE: u8 = 0xCB;

/// Register index of the low three opcode bits: B, C, D, E, H, L, (HL), A.
pub open spec fn reg_of(i: u8) -> LogicTargets {
    match i {
        0 => LogicTargets::B,
        1 => LogicTargets::C,
        2 => LogicTargets::D,
        3 => LogicTargets::E,
        4 => LogicTargets::H,
        5 => LogicTargets::L,
        6 => LogicTargets::HL,
        _ => LogicTargets::A,
    }
}

/// Condition index: NZ, Z, NC, C.
pub open spec fn cond_of(i: u8) -> FlagCondition {
    match i {
        0 => FlagCondition::NZNotZero,
        1 => FlagCondition::ZZero,
        2 => FlagCondition::NCNotCarry,
        _ => FlagCondition::CCarry,
    }
}

/// 16-bit register index of arithmetic and immediate loads: BC, DE, HL, SP.
pub open spec fn rp_of(i: u8) -> LogicTargets {
    match i {
        0 => LogicTargets::BC,
        1 => LogicTargets::DE,
        2 => LogicTargets::HL,
        _ => LogicTargets::SP,
    }
}

/// 16-bit register index of push and pop: BC, DE, HL, AF.
pub open spec fn rp2_of(i: u8) -> LogicTargets {
    match i {
        0 => LogicTargets::BC,
        1 => LogicTargets::DE,
        2 => LogicTargets::HL,
        _ => LogicTargets::AF,
    }
}

/// Accumulator operation index: ADD, ADC, SUB, SBC, AND, XOR, OR, CP.
pub open spec fn alu_of(i: u8, t: LogicTargets) -> Instructions {
    match i {
        0 => Instructions::ADD(t),
        1 => Instructions::ADC(t),
        2 => Instructions::SUB(t),
        3 => Instructions::SBC(t),
        4 => Instructions::AND(t),
        5 => Instructions::XOR(t),
        6 => Instructions::OR(t),
        _ => Instructions::CP(t),
    }
}

/// Rotate and shift index of the second table: RLC, RRC, RL, RR, SLA, SRA, SWAP, SRL.
pub open spec fn shift_of(i: u8, t: LogicTargets) -> Instructions {
    match i {
        0 => Instructions::RLC(t),
        1 => Instructions::RRC(t),
        2 => Instructions::RL(t),
        3 => Instructions::RR(t),
        4 => Instructions::SLA(t),
        5 => Instructions::SRA(t),
        6 => Instructions::SWAP(t),
        _ => Instructions::SRL(t),
    }
}

/// Bits 5 to 3 of an opcode.
pub open spec fn mid(b: u8) -> u8 {
    ((b / 8) % 8) as u8
}

/// Bits 2 to 0 of an opcode.
pub open spec fn low(b: u8) -> u8 {
    b % 8
}

/// The second table, selected by the lead byte 0xCB.
pub open spec fn decode_prefixed(b: u8) -> Instructions {
    let t = reg_of(low(b));
    if b < 0x40 {
        shift_of(mid(b), t)
    } else if b < 0x80 {
        Instructions::BIT(((b - 0x40) / 8) as u8, t)
    } else if b < 0xC0 {
        Instructions::RES(((b - 0x80) / 8) as u8, t)
    } else {
        Instructions::SET(((b - 0xC0) / 8) as u8, t)
    }
}

/// Rows 0x00 to 0x3F of the first table.
pub open spec fn decode_block0(b: u8) -> Instructions {
    let y = mid(b);
    let p = (y / 2) as u8;
    let q = y % 2;
    match low(b) {
        0 => match y {
            0 => Instructions::NOP(),
            1 => Instructions::LDN16SP(LogicTargets::N16),
            2 => Instructions::STOP(),
            3 => Instructions::JR(LogicTargets::E8),
            _ => Instructions::JRC(LogicTargets::E8, cond_of((y - 4) as u8)),
        },
        1 => if q == 0 {
            Instructions::LD(rp_of(p), LogicTargets::N16)
        } else {
            Instructions::ADDHLR16(rp_of(p))
        },
        2 => match p {
            0 => if q == 0 {
                Instructions::LDR16R8(LogicTargets::BC, LogicTargets::A)
            } else {
                Instructions::LD(LogicTargets::A, LogicTargets::BC)
            },
            1 => if q == 0 {
                Instructions::LDR16R8(LogicTargets::DE, LogicTargets::A)
            } else {
                Instructions::LD(LogicTargets::A, LogicTargets::DE)
            },
            2 => if q == 0 {
                Instructions::LDHLIA()
            } else {
                Instructions::LDAHLI()
            },
            _ => if q == 0 {
                Instructions::LDHLDA()
            } else {
                Instructions::LDAHLD()
            },
        },
        3 => if q == 0 {
            Instructions::INC(rp_of(p))
        } else {
            Instructions::DEC(rp_of(p))
        },
        4 => if y == 6 {
            Instructions::INCHL()
        } else {
            Instructions::INC(reg_of(y))
        },
        5 => if y == 6 {
            Instructions::DECHL()
        } else {
            Instructions::DEC(reg_of(y))
        },
        6 => if y == 6 {
            Instructions::LDR16R8(LogicTargets::HL, LogicTargets::N8)
        } else {
            Instructions::LD(reg_of(y), LogicTargets::N8)
        },
        _ => match y {
            0 => Instructions::RLCA(),
            1 => Instructions::RRCA(),
            2 => Instructions::RLA(),
            3 => Instructions::RRA(),
            4 => Instructions::DAA(),
            5 => Instructions::CPL(),
            6 => Instructions::SCF(),
            _ => Instructions::CCF(),
        },
    }
}

/// Rows 0x40 to 0x7F of the first table: register loads, with HALT in place of
/// a load from (HL) into (HL).
pub open spec fn decode_block1(b: u8) -> Instructions {
    let dst = reg_of(mid(b));
    let src = reg_of(low(b));
    if b == 0x76 {
        Instructions::HALT()
    } else if dst == LogicTargets::HL {
        Instructions::LDR16R8(LogicTargets::HL, src)
    } else {
        Instructions::LD(dst, src)
    }
}

/// Rows 0xC0 to 0xFF of the first table.
pub open spec fn decode_block3(b: u8) -> Instructions {
    let y = mid(b);
    let p = (y / 2) as u8;
    let q = y % 2;
    match low(b) {
        0 => match y {
            4 => Instructions::LDHN16A(LogicTargets::N8),
            5 => Instructions::ADDSPE8(LogicTargets::E8),
            6 => Instructions::LDHAN16(LogicTargets::N8),
            7 => Instructions::LDHLSPE8(LogicTargets::E8),
            _ => Instructions::RETC(cond_of(y)),
        },
        1 => if q == 0 {
            Instructions::POP(rp2_of(p))
        } else {
            match p {
                0 => Instructions::RET(),
                1 => Instructions::RETI(),
                2 => Instructions::JP(LogicTargets::HL),
                _ => Instructions::LD(LogicTargets::SP, LogicTargets::HL),
            }
        },
        2 => match y {
            4 => Instructions::LDHCA(),
            5 => Instructions::LDR16R8(LogicTargets::N16, LogicTargets::A),
            6 => Instructions::LDHAC(),
            7 => Instructions::LD(LogicTargets::A, LogicTargets::N16),
            _ => Instructions::JPC(cond_of(y), LogicTargets::N16),
        },
        3 => match y {
            0 => Instructions::JP(LogicTargets::N16),
            1 => Instructions::PREFIX(),
            6 => Instructions::DI(),
            7 => Instructions::EI(),
            _ => Instructions::ILLEGAL(b),
        },
        4 => if y < 4 {
            Instructions::CALLC(cond_of(y), LogicTargets::N16)
        } else {
            Instructions::ILLEGAL(b)
        },
        5 => if q == 0 {
            Instructions::PUSH(rp2_of(p))
        } else if p == 0 {
            Instructions::CALL(LogicTargets::N16)
        } else {
            Instructions::ILLEGAL(b)
        },
        6 => alu_of(y, LogicTargets::N8),
        _ => Instructions::RST((y * 8) as u8),
    }
}

/// The first table.
pub open spec fn decode_unprefixed(b: u8) -> Instructions {
    if b < 0x40 {
        decode_block0(b)
    } else if b < 0x80 {
        decode_block1(b)
    } else if b < 0xC0 {
        alu_of(mid(b), reg_of(low(b)))
    } else {
        decode_block3(b)
    }
}

/// The instruction that an opcode byte stands for, in the second table when
/// `prefixed` holds.
pub open spec fn decode(b: u8, prefixed: bool) -> Instructions {
    if prefixed {
        decode_prefixed(b)
    } else {
        decode_unprefixed(b)
    }
}

/// Opcodes that the first table leaves undefined.
pub open spec fn is_undefined_opcode(b: u8) -> bool {
    b == 0xD3 || b == 0xDB || b == 0xDD || b == 0xE3 || b == 0xE4 || b == 0xEB || b == 0xEC || b
        == 0xED || b == 0xF4 || b == 0xFC || b == 0xFD
}

/// Every one of the 512 (byte, prefix) combinations decodes to an instruction
/// whose operands fit it. Only the prefix byte itself decodes to PREFIX, and
/// only the undefined opcodes of the first table decode to ILLEGAL; every other
/// combination decodes to an instruction an execution unit carries out.
pub proof fn lemma_decode_total(b: u8, prefixed: bool)
    ensures
        decode(b, prefixed).well_formed(),
        decode(b, prefixed) is PREFIX <==> (!prefixed && b == PREFIX_BYTE),
        decode(b, prefixed) is ILLEGAL <==> (!prefixed && is_undefined_opcode(b)),
        decode(b, prefixed) is ILLEGAL ==> decode(b, prefixed) == Instructions::ILLEGAL(b),
        decode(b, prefixed).executable() <==> (prefixed || (b != PREFIX_BYTE
            && !is_undefined_opcode(b))),
{
    assert(low(b) < 8 && mid(b) < 8);
    if prefixed {
        assert(b < 0x80 ==> (b - 0x40) / 8 < 8);
    } else if b < 0x40 {
        assert(b == mid(b) * 8 + low(b));
    } else if b < 0xC0 {
    } else {
        assert(b == 0xC0 + mid(b) * 8 + low(b));
    }
}

/// Register index of the low three bits of an opcode.
pub fn tail_to_logic_target(tail: u8) -> (r: LogicTargets)
    ensures
        r == reg_of(tail % 8),
{
    match tail % 8 {
        0 => LogicTargets::B,
        1 => LogicTargets::C,
        2 => LogicTargets::D,
        3 => LogicTargets::E,
        4 => LogicTargets::H,
        5 => LogicTargets::L,
        6 => LogicTargets::HL,
        _ => LogicTargets::A,
    }
}

impl Instructions {
    /// Decodes one opcode byte; every byte of both tables decodes.
    pub fn read_byte(byte: u8, prefixed: bool) -> (r: Option<Instructions>)
        ensures
            r == Some(decode(byte, prefixed)),
    {
        if prefixed {
            Instructions::read_byte_prefixed(byte)
        } else {
            Instructions::read_byte_unprefixed(byte)
        }
    }

    fn read_byte_prefixed(byte: u8) -> (r: Option<Instructions>)
        ensures
            r == Some(decode_prefixed(byte)),
    {
        let target = tail_to_logic_target(byte);
        match byte {
            0x00..=0x07 => Some(Instructions::RLC(target)),
            0x08..=0x0F => Some(Instructions::RRC(target)),
            0x10..=0x17 => Some(Instructions::RL(target)),
            0x18..=0x1F => Some(Instructions::RR(target)),
            0x20..=0x27 => Some(Instructions::SLA(target)),
            0x28..=0x2F => Some(Instructions::SRA(target)),
            0x30..=0x37 => Some(Instructions::SWAP(target)),
            0x38..=0x3F => Some(Instructions::SRL(target)),
            0x40..=0x7F => Some(Instructions::BIT((byte - 0x40) / 8, target)),
            0x80..=0xBF => Some(Instructions::RES((byte - 0x80) / 8, target)),
            0xC0..=0xFF => Some(Instructions::SET((byte - 0xC0) / 8, target)),
        }
    }

    fn read_byte_unprefixed(byte: u8) -> (r: Option<Instructions>)
        ensures
            r == Some(decode_unprefixed(byte)),
    {
        let tail = tail_to_logic_target(byte);
        if byte < 0x40 {
            Some(Instructions::read_block0(byte))
        } else if byte >= 0xC0 {
            Some(Instructions::read_block3(byte))
        } else {
            let ins = match byte {
                0x40..=0x47 => Instructions::LD(LogicTargets::B, tail),
                0x48..=0x4F => Instructions::LD(LogicTargets::C, tail),
                0x50..=0x57 => Instructions::LD(LogicTargets::D, tail),
                0x58..=0x5F => Instructions::LD(LogicTargets::E, tail),
                0x60..=0x67 => Instructions::LD(LogicTargets::H, tail),
                0x68..=0x6F => Instructions::LD(LogicTargets::L, tail),
                0x70..=0x75 | 0x77 => Instructions::LDR16R8(LogicTargets::HL, tail),
                0x76 => Instructions::HALT(),
                0x78..=0x7F => Instructions::LD(LogicTargets::A, tail),
                0x80..=0x87 => Instructions::ADD(tail),
                0x88..=0x8F => Instructions::ADC(tail),
                0x90..=0x97 => Instructions::SUB(tail),
                0x98..=0x9F => Instructions::SBC(tail),
                0xA0..=0xA7 => Instructions::AND(tail),
                0xA8..=0xAF => Instructions::XOR(tail),
                0xB0..=0xB7 => Instructions::OR(tail),
                _ => Instructions::CP(tail),
            };
            Some(ins)
        }
    }

    /// Rows 0x00 to 0x3F of the first table.
    fn read_block0(byte: u8) -> (r: Instructions)
        requires
            byte < 0x40,
        ensures
            r == decode_block0(byte),
    {
        match byte {
            0x00 => Instructions::NOP(),
            0x01 => Instructions::LD(LogicTargets::BC, LogicTargets::N16),
            0x02 => Instructions::LDR16R8(LogicTargets::BC, LogicTargets::A),
            0x03 => Instructions::INC(LogicTargets::BC),
            0x04 => Instructions::INC(LogicTargets::B),
            0x05 => Instructions::DEC(LogicTargets::B),
            0x06 => Instructions::LD(LogicTargets::B, LogicTargets::N8),
            0x07 => Instructions::RLCA(),
            0x08 => Instructions::LDN16SP(LogicTargets::N16),
            0x09 => Instructions::ADDHLR16(LogicTargets::BC),
            0x0A => Instructions::LD(LogicTargets::A, LogicTargets::BC),
            0x0B => Instructions::DEC(LogicTargets::BC),
            0x0C => Instructions::INC(LogicTargets::C),
            0x0D => Instructions::DEC(LogicTargets::C),
            0x0E => Instructions::LD(LogicTargets::C, LogicTargets::N8),
            0x0F => Instructions::RRCA(),
            0x10 => Instructions::STOP(),
            0x11 => Instructions::LD(LogicTargets::DE, LogicTargets::N16),
            0x12 => Instructions::LDR16R8(LogicTargets::DE, LogicTargets::A),
            0x13 => Instructions::INC(LogicTargets::DE),
            0x14 => Instructions::INC(LogicTargets::D),
            0x15 => Instructions::DEC(LogicTargets::D),
            0x16 => Instructions::LD(LogicTargets::D, LogicTargets::N8),
            0x17 => Instructions::RLA(),
            0x18 => Instructions::JR(LogicTargets::E8),
            0x19 => Instructions::ADDHLR16(LogicTargets::DE),
            0x1A => Instructions::LD(LogicTargets::A, LogicTargets::DE),
            0x1B => Instructions::DEC(LogicTargets::DE),
            0x1C => Instructions::INC(LogicTargets::E),
            0x1D => Instructions::DEC(LogicTargets::E),
            0x1E => Instructions::LD(LogicTargets::E, LogicTargets::N8),
            0x1F => Instructions::RRA(),
            0x20 => Instructions::JRC(LogicTargets::E8, FlagCondition::NZNotZero),
            0x21 => Instructions::LD(LogicTargets::HL, LogicTargets::N16),
            0x22 => Instructions::LDHLIA(),
            0x23 => Instructions::INC(LogicTargets::HL),
            0x24 => Instructions::INC(LogicTargets::H),
            0x25 => Instructions::DEC(LogicTargets::H),
            0x26 => Instructions::LD(LogicTargets::H, LogicTargets::N8),
            0x27 => Instructions::DAA(),
            0x28 => Instructions::JRC(LogicTargets::E8, FlagCondition::ZZero),
            0x29 => Instructions::ADDHLR16(LogicTargets::HL),
            0x2A => Instructions::LDAHLI(),
            0x2B => Instructions::DEC(LogicTargets::HL),
            0x2C => Instructions::INC(LogicTargets::L),
            0x2D => Instructions::DEC(LogicTargets::L),
            0x2E => Instructions::LD(LogicTargets::L, LogicTargets::N8),
            0x2F => Instructions::CPL(),
            0x30 => Instructions::JRC(LogicTargets::E8, FlagCondition::NCNotCarry),
            0x31 => Instructions::LD(LogicTargets::SP, LogicTargets::N16),
            0x32 => Instructions::LDHLDA(),
            0x33 => Instructions::INC(LogicTargets::SP),
            0x34 => Instructions::INCHL(),
            0x35 => Instructions::DECHL(),
            0x36 => Instructions::LDR16R8(LogicTargets::HL, LogicTargets::N8),
            0x37 => Instructions::SCF(),
            0x38 => Instructions::JRC(LogicTargets::E8, FlagCondition::CCarry),
            0x39 => Instructions::ADDHLR16(LogicTargets::SP),
            0x3A => Instructions::LDAHLD(),
            0x3B => Instructions::DEC(LogicTargets::SP),
            0x3C => Instructions::INC(LogicTargets::A),
            0x3D => Instructions::DEC(LogicTargets::A),
            0x3E => Instructions::LD(LogicTargets::A, LogicTargets::N8),
            _ => Instructions::CCF(),
        }
    }

    /// Rows 0xC0 to 0xFF of the first table.
    fn read_block3(byte: u8) -> (r: Instructions)
        requires
            byte >= 0xC0,
        ensures
            r == decode_block3(byte),
    {
        match byte {
            0xC0 => Instructions::RETC(FlagCondition::NZNotZero),
            0xC1 => Instructions::POP(LogicTargets::BC),
            0xC2 => Instructions::JPC(FlagCondition::NZNotZero, LogicTargets::N16),
            0xC3 => Instructions::JP(LogicTargets::N16),
            0xC4 => Instructions::CALLC(FlagCondition::NZNotZero, LogicTargets::N16),
            0xC5 => Instructions::PUSH(LogicTargets::BC),
            0xC6 => Instructions::ADD(LogicTargets::N8),
            0xC7 => Instructions::RST(0x00),
            0xC8 => Instructions::RETC(FlagCondition::ZZero),
            0xC9 => Instructions::RET(),
            0xCA => Instructions::JPC(FlagCondition::ZZero, LogicTargets::N16),
            0xCB => Instructions::PREFIX(),
            0xCC => Instructions::CALLC(FlagCondition::ZZero, LogicTargets::N16),
            0xCD => Instructions::CALL(LogicTargets::N16),
            0xCE => Instructions::ADC(LogicTargets::N8),
            0xCF => Instructions::RST(0x08),
            0xD0 => Instructions::RETC(FlagCondition::NCNotCarry),
            0xD1 => Instructions::POP(LogicTargets::DE),
            0xD2 => Instructions::JPC(FlagCondition::NCNotCarry, LogicTargets::N16),
            0xD4 => Instructions::CALLC(FlagCondition::NCNotCarry, LogicTargets::N16),
            0xD5 => Instructions::PUSH(LogicTargets::DE),
            0xD6 => Instructions::SUB(LogicTargets::N8),
            0xD7 => Instructions::RST(0x10),
            0xD8 => Instructions::RETC(FlagCondition::CCarry),
            0xD9 => Instructions::RETI(),
            0xDA => Instructions::JPC(FlagCondition::CCarry, LogicTargets::N16),
            0xDC => Instructions::CALLC(FlagCondition::CCarry, LogicTargets::N16),
            0xDE => Instructions::SBC(LogicTargets::N8),
            0xDF => Instructions::RST(0x18),
            0xE0 => Instructions::LDHN16A(LogicTargets::N8),
            0xE1 => Instructions::POP(LogicTargets::HL),
            0xE2 => Instructions::LDHCA(),
            0xE5 => Instructions::PUSH(LogicTargets::HL),
            0xE6 => Instructions::AND(LogicTargets::N8),
            0xE7 => Instructions::RST(0x20),
            0xE8 => Instructions::ADDSPE8(LogicTargets::E8),
            0xE9 => Instructions::JP(LogicTargets::HL),
            0xEA => Instructions::LDR16R8(LogicTargets::N16, LogicTargets::A),
            0xEE => Instructions::XOR(LogicTargets::N8),
            0xEF => Instructions::RST(0x28),
            0xF0 => Instructions::LDHAN16(LogicTargets::N8),
            0xF1 => Instructions::POP(LogicTargets::AF),
            0xF2 => Instructions::LDHAC(),
            0xF3 => Instructions::DI(),
            0xF5 => Instructions::PUSH(LogicTargets::AF),
            0xF6 => Instructions::OR(LogicTargets::N8),
            0xF7 => Instructions::RST(0x30),
            0xF8 => Instructions::LDHLSPE8(LogicTargets::E8),
            0xF9 => Instructions::LD(LogicTargets::SP, LogicTargets::HL),
            0xFA => Instructions::LD(LogicTargets::A, LogicTargets::N16),
            0xFB => Instructions::EI(),
            0xFE => Instructions::CP(LogicTargets::N8),
            0xFF => Instructions::RST(0x38),
            _ => Instructions::ILLEGAL(byte),
        }
    }
}

} // verus!
