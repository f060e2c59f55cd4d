use rutil::cpu::flags::Flags;
use rutil::cpu::registry::CPURegistry;

#[test]
fn af_round_trip_is_idempotent() {
    let mut r = CPURegistry::new();
    r.a = 0x3C;
    r.f.z_zero = true;
    r.f.c_carry = true;
    let before = r;
    let af = r.get_af();
    assert_eq!(af, 0x3C90);
    r.set_af(af);
    assert_eq!(r, before);
    r.set_af(r.get_af());
    assert_eq!(r, before);
}

#[test]
fn low_nibble_of_flags_reads_zero() {
    let mut r = CPURegistry::new();
    r.set_af(0x12FF);
    assert_eq!(r.a, 0x12);
    assert_eq!(r.get_af(), 0x12F0);
    assert_eq!(r.f.get_flags() & 0x0F, 0);
    r.set_af(0x000F);
    assert_eq!(r.get_af(), 0x0000);
}

#[test]
fn flags_pack_into_high_nibble() {
    let mut f = Flags::new();
    assert_eq!(f.get_flags(), 0);
    f.set_flags(0xA0);
    assert!(f.z_zero && !f.n_subtraction_bcd && f.h_half_carry_bcd && !f.c_carry);
    assert_eq!(f.get_flags(), 0xA0);
    f.set_flags(0x5F);
    assert!(!f.z_zero && f.n_subtraction_bcd && !f.h_half_carry_bcd && f.c_carry);
    assert_eq!(f.get_flags(), 0x50);
}

#[test]
fn register_pairs_keep_high_low_order() {
    let mut r = CPURegistry::new();
    r.set_bc(0x1234);
    assert_eq!((r.b, r.c), (0x12, 0x34));
    assert_eq!(r.get_bc(), 0x1234);
    r.set_de(0xABCD);
    assert_eq!((r.d, r.e), (0xAB, 0xCD));
    assert_eq!(r.get_de(), 0xABCD);
    r.set_hl(0xFF01);
    assert_eq!((r.h, r.l), (0xFF, 0x01));
    assert_eq!(r.get_hl(), 0xFF01);
    r.set_sp(0xFFFE);
    assert_eq!(r.get_sp(), 0xFFFE);
}
