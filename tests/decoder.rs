use rutil::cpu::flags::FlagCondition;
use rutil::cpu::instructions::{Instructions, LogicTargets};

const UNDEFINED: [u8; 11] = [0xD3, 0xDB, 0xDD, 0xE3, 0xE4, 0xEB, 0xEC, 0xED, 0xF4, 0xFC, 0xFD];

#[test]
fn every_byte_decodes_in_both_tables() {
    for b in 0..=255u8 {
        let plain = Instructions::read_byte(b, false);
        assert!(plain.is_some(), "unprefixed {:02X}", b);
        let prefixed = Instructions::read_byte(b, true);
        assert!(prefixed.is_some(), "prefixed {:02X}", b);
        assert!(!matches!(prefixed, Some(Instructions::ILLEGAL(_)) | Some(Instructions::PREFIX())));
        let undefined = UNDEFINED.contains(&b);
        assert_eq!(matches!(plain, Some(Instructions::ILLEGAL(_))), undefined, "{:02X}", b);
        assert_eq!(matches!(plain, Some(Instructions::PREFIX())), b == 0xCB, "{:02X}", b);
    }
}

#[test]
fn bit_index_of_last_opcode_in_each_block_is_seven() {
    assert_eq!(Instructions::read_byte(0x7F, true), Some(Instructions::BIT(7, LogicTargets::A)));
    assert_eq!(Instructions::read_byte(0xBF, true), Some(Instructions::RES(7, LogicTargets::A)));
    assert_eq!(Instructions::read_byte(0xFF, true), Some(Instructions::SET(7, LogicTargets::A)));
}

#[test]
fn bit_index_follows_bits_five_to_three() {
    assert_eq!(Instructions::read_byte(0x40, true), Some(Instructions::BIT(0, LogicTargets::B)));
    assert_eq!(Instructions::read_byte(0x46, true), Some(Instructions::BIT(0, LogicTargets::HL)));
    assert_eq!(Instructions::read_byte(0x5A, true), Some(Instructions::BIT(3, LogicTargets::D)));
    assert_eq!(Instructions::read_byte(0x8C, true), Some(Instructions::RES(1, LogicTargets::H)));
    assert_eq!(Instructions::read_byte(0xF5, true), Some(Instructions::SET(6, LogicTargets::L)));
}

#[test]
fn prefixed_rotate_and_shift_rows() {
    assert_eq!(Instructions::read_byte(0x00, true), Some(Instructions::RLC(LogicTargets::B)));
    assert_eq!(Instructions::read_byte(0x0E, true), Some(Instructions::RRC(LogicTargets::HL)));
    assert_eq!(Instructions::read_byte(0x17, true), Some(Instructions::RL(LogicTargets::A)));
    assert_eq!(Instructions::read_byte(0x19, true), Some(Instructions::RR(LogicTargets::C)));
    assert_eq!(Instructions::read_byte(0x22, true), Some(Instructions::SLA(LogicTargets::D)));
    assert_eq!(Instructions::read_byte(0x2B, true), Some(Instructions::SRA(LogicTargets::E)));
    assert_eq!(Instructions::read_byte(0x37, true), Some(Instructions::SWAP(LogicTargets::A)));
    assert_eq!(Instructions::read_byte(0x3F, true), Some(Instructions::SRL(LogicTargets::A)));
}

#[test]
fn unprefixed_register_rows() {
    assert_eq!(Instructions::read_byte(0x41, false), Some(Instructions::LD(LogicTargets::B, LogicTargets::C)));
    assert_eq!(Instructions::read_byte(0x7E, false), Some(Instructions::LD(LogicTargets::A, LogicTargets::HL)));
    assert_eq!(
        Instructions::read_byte(0x77, false),
        Some(Instructions::LDR16R8(LogicTargets::HL, LogicTargets::A))
    );
    assert_eq!(Instructions::read_byte(0x76, false), Some(Instructions::HALT()));
    assert_eq!(Instructions::read_byte(0x86, false), Some(Instructions::ADD(LogicTargets::HL)));
    assert_eq!(Instructions::read_byte(0x8F, false), Some(Instructions::ADC(LogicTargets::A)));
    assert_eq!(Instructions::read_byte(0x90, false), Some(Instructions::SUB(LogicTargets::B)));
    assert_eq!(Instructions::read_byte(0x9D, false), Some(Instructions::SBC(LogicTargets::L)));
    assert_eq!(Instructions::read_byte(0xA2, false), Some(Instructions::AND(LogicTargets::D)));
    assert_eq!(Instructions::read_byte(0xAF, false), Some(Instructions::XOR(LogicTargets::A)));
    assert_eq!(Instructions::read_byte(0xB3, false), Some(Instructions::OR(LogicTargets::E)));
    assert_eq!(Instructions::read_byte(0xBE, false), Some(Instructions::CP(LogicTargets::HL)));
}

#[test]
fn unprefixed_irregular_rows() {
    assert_eq!(Instructions::read_byte(0x00, false), Some(Instructions::NOP()));
    assert_eq!(Instructions::read_byte(0x08, false), Some(Instructions::LDN16SP(LogicTargets::N16)));
    assert_eq!(Instructions::read_byte(0x10, false), Some(Instructions::STOP()));
    assert_eq!(Instructions::read_byte(0x18, false), Some(Instructions::JR(LogicTargets::E8)));
    assert_eq!(
        Instructions::read_byte(0x20, false),
        Some(Instructions::JRC(LogicTargets::E8, FlagCondition::NZNotZero))
    );
    assert_eq!(Instructions::read_byte(0x22, false), Some(Instructions::LDHLIA()));
    assert_eq!(Instructions::read_byte(0x2A, false), Some(Instructions::LDAHLI()));
    assert_eq!(Instructions::read_byte(0x32, false), Some(Instructions::LDHLDA()));
    assert_eq!(Instructions::read_byte(0x3A, false), Some(Instructions::LDAHLD()));
    assert_eq!(Instructions::read_byte(0x34, false), Some(Instructions::INCHL()));
    assert_eq!(Instructions::read_byte(0x33, false), Some(Instructions::INC(LogicTargets::SP)));
    assert_eq!(
        Instructions::read_byte(0x36, false),
        Some(Instructions::LDR16R8(LogicTargets::HL, LogicTargets::N8))
    );
    assert_eq!(Instructions::read_byte(0x27, false), Some(Instructions::DAA()));
    assert_eq!(Instructions::read_byte(0xC1, false), Some(Instructions::POP(LogicTargets::BC)));
    assert_eq!(Instructions::read_byte(0xF5, false), Some(Instructions::PUSH(LogicTargets::AF)));
    assert_eq!(Instructions::read_byte(0xCD, false), Some(Instructions::CALL(LogicTargets::N16)));
    assert_eq!(
        Instructions::read_byte(0xDC, false),
        Some(Instructions::CALLC(FlagCondition::CCarry, LogicTargets::N16))
    );
    assert_eq!(Instructions::read_byte(0xD9, false), Some(Instructions::RETI()));
    assert_eq!(Instructions::read_byte(0xE0, false), Some(Instructions::LDHN16A(LogicTargets::N8)));
    assert_eq!(Instructions::read_byte(0xF2, false), Some(Instructions::LDHAC()));
    assert_eq!(Instructions::read_byte(0xE8, false), Some(Instructions::ADDSPE8(LogicTargets::E8)));
    assert_eq!(Instructions::read_byte(0xF8, false), Some(Instructions::LDHLSPE8(LogicTargets::E8)));
    assert_eq!(Instructions::read_byte(0xE9, false), Some(Instructions::JP(LogicTargets::HL)));
    assert_eq!(
        Instructions::read_byte(0xEA, false),
        Some(Instructions::LDR16R8(LogicTargets::N16, LogicTargets::A))
    );
    assert_eq!(Instructions::read_byte(0xFA, false), Some(Instructions::LD(LogicTargets::A, LogicTargets::N16)));
    assert_eq!(Instructions::read_byte(0xEF, false), Some(Instructions::RST(0x28)));
    assert_eq!(Instructions::read_byte(0xFE, false), Some(Instructions::CP(LogicTargets::N8)));
    assert_eq!(Instructions::read_byte(0xCB, false), Some(Instructions::PREFIX()));
    assert_eq!(Instructions::read_byte(0xDD, false), Some(Instructions::ILLEGAL(0xDD)));
}

#[test]
fn immediate_lengths() {
    assert_eq!(Instructions::NOP().immediate_len(), 0);
    assert_eq!(Instructions::ADD(LogicTargets::N8).immediate_len(), 1);
    assert_eq!(Instructions::LD(LogicTargets::BC, LogicTargets::N16).immediate_len(), 2);
    assert_eq!(Instructions::LDR16R8(LogicTargets::N16, LogicTargets::A).immediate_len(), 2);
    assert_eq!(Instructions::JRC(LogicTargets::E8, FlagCondition::ZZero).immediate_len(), 1);
    assert_eq!(Instructions::BIT(3, LogicTargets::HL).immediate_len(), 0);
}
