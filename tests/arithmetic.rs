use xt_emulator::flags::{parity, AluOp, Flags, ShiftOp, Width};
use xt_emulator::memory::calculate_addr;
use xt_emulator::register::{get_high, get_low, set_high, set_low, Byte, Registers, Word};

fn parity_by_counting(v: u16) -> bool {
    (v & 0xFF).count_ones() % 2 == 0
}

#[test]
fn half_registers_alias_the_word() {
    for (low, high, word) in [
        (Byte::AL, Byte::AH, Word::AX),
        (Byte::BL, Byte::BH, Word::BX),
        (Byte::CL, Byte::CH, Word::CX),
        (Byte::DL, Byte::DH, Word::DX),
    ] {
        let mut r = Registers::new();
        r.set_word(&word, 0xFFFF);
        r.set_byte(&low, 0x12);
        r.set_byte(&high, 0xAB);
        assert_eq!(r.get_word(&word), 0xAB12);
        assert_eq!(r.get_byte(&low), 0x12);
        assert_eq!(r.get_byte(&high), 0xAB);
        r.set_byte(&low, 0x00);
        assert_eq!(r.get_word(&word), 0xAB00);
    }
}

#[test]
fn byte_halves_of_a_word() {
    let mut v: u16 = 0x1234;
    assert_eq!((get_high(v), get_low(v)), (0x12, 0x34));
    set_low(&mut v, 0xCD);
    assert_eq!(v, 0x12CD);
    set_high(&mut v, 0xAB);
    assert_eq!(v, 0xABCD);
}

#[test]
fn physical_address_wraps_at_twenty_bits() {
    assert_eq!(calculate_addr(0xF000, 0xFFF0), 0xF_FFF0);
    assert_eq!(calculate_addr(0xFFFF, 0x0010), 0x0_0000);
    assert_eq!(calculate_addr(0xFFFF, 0xFFFF), 0x0_FFEF);
    assert_eq!(calculate_addr(0x1234, 0x5678), 0x1_79B8);
    for (seg, off) in [(0u16, 0u16), (0x8000, 0x8000), (0xABCD, 0xEF01)] {
        assert_eq!(calculate_addr(seg, off), (((seg as usize) << 4) + off as usize) & 0xF_FFFF);
    }
}

#[test]
fn flag_word_round_trip() {
    for w in [0u16, 0xFFFF, 0x0FD5, 0xF02A, 0x0001, 0x0800, 0x1234] {
        let mut f = Flags::new();
        f.set_bits_word(w);
        assert_eq!(f.get_bits_word(), w & 0x0FD5);
    }
    let mut f = Flags::new();
    f.set_bits_word(0xFFFF);
    f.set_bits_byte(0x00);
    assert_eq!(f.get_bits_word(), 0x0F00);
    f.set_bits_byte(0xFF);
    assert_eq!(f.get_bits_byte(), 0xD5);
}

#[test]
fn parity_counts_low_byte_bits() {
    for v in [0u16, 1, 3, 0xFF, 0x100, 0x1FE, 0x7F, 0x8001, 0xAAAA] {
        assert_eq!(parity(v), parity_by_counting(v));
    }
    assert!(parity(0x0300));
    assert!(!parity(0x0301));
}

#[test]
fn zero_sign_parity_follow_the_result() {
    let mut f = Flags::new();
    assert_eq!(f.alu(AluOp::Sub, 5, 5, Width::Byte), 0);
    assert!(f.zero && !f.sign && f.parity);
    assert_eq!(f.alu(AluOp::Sub, 0, 1, Width::Word), 0xFFFF);
    assert!(!f.zero && f.sign && f.parity && f.carry);
    assert_eq!(f.alu(AluOp::Or, 0x40, 0x01, Width::Byte), 0x41);
    assert!(!f.sign && f.parity && !f.carry && !f.overflow);
}

#[test]
fn carry_of_byte_add_and_sub() {
    for a in (0..=255u16).step_by(17) {
        for b in (0..=255u16).step_by(13) {
            let mut f = Flags::new();
            let r = f.alu(AluOp::Add, a, b, Width::Byte);
            assert_eq!(r, (a + b) & 0xFF);
            assert_eq!(f.carry, a + b > 0xFF);
            let (a8, b8, r8) = (a as u8, b as u8, r as u8);
            assert_eq!(f.overflow, ((a8 ^ r8) & (b8 ^ r8) & 0x80) != 0);
            assert_eq!(f.adjust, (a & 0xF) + (b & 0xF) > 0xF);
            let mut g = Flags::new();
            g.alu(AluOp::Sub, a, b, Width::Byte);
            assert_eq!(g.carry, a < b);
        }
    }
}

#[test]
fn signed_overflow_edges() {
    let mut f = Flags::new();
    assert_eq!(f.alu(AluOp::Add, 0x7F, 0x01, Width::Byte), 0x80);
    assert!(f.overflow && f.sign && !f.carry && f.adjust);
    assert_eq!(f.alu(AluOp::Sub, 0x80, 0x01, Width::Byte), 0x7F);
    assert!(f.overflow && !f.carry);
    assert_eq!(f.alu(AluOp::Add, 0x8000, 0x8000, Width::Word), 0);
    assert!(f.overflow && f.carry && f.zero);
}

#[test]
fn carry_in_for_adc_and_sbb() {
    let mut f = Flags::new();
    f.carry = true;
    assert_eq!(f.alu(AluOp::Adc, 0xFF, 0x00, Width::Byte), 0x00);
    assert!(f.carry && f.zero);
    assert_eq!(f.alu(AluOp::Sbb, 0x00, 0x00, Width::Byte), 0xFF);
    assert!(f.carry);
}

#[test]
fn inc_keeps_carry_and_neg_sets_it() {
    let mut f = Flags::new();
    f.carry = true;
    assert_eq!(f.inc_dec(0xFF, true, Width::Byte), 0);
    assert!(f.carry && f.zero);
    assert_eq!(f.neg(0, Width::Byte), 0);
    assert!(!f.carry);
    assert_eq!(f.neg(1, Width::Word), 0xFFFF);
    assert!(f.carry);
}

#[test]
fn shifts_and_rotates() {
    let mut f = Flags::new();
    assert_eq!(f.shift(ShiftOp::Shl, 0x81, 1, Width::Byte), 0x02);
    assert!(f.carry && f.overflow);
    assert_eq!(f.shift(ShiftOp::Shr, 0x81, 1, Width::Byte), 0x40);
    assert!(f.carry && f.overflow);
    assert_eq!(f.shift(ShiftOp::Sar, 0x81, 1, Width::Byte), 0xC0);
    assert!(f.carry && !f.overflow && f.sign);
    assert_eq!(f.shift(ShiftOp::Sar, 0x8000, 4, Width::Word), 0xF800);
    f.carry = false;
    assert_eq!(f.shift(ShiftOp::Rol, 0x81, 1, Width::Byte), 0x03);
    assert!(f.carry);
    assert_eq!(f.shift(ShiftOp::Ror, 0x01, 1, Width::Byte), 0x80);
    assert!(f.carry);
    f.carry = false;
    assert_eq!(f.shift(ShiftOp::Rcl, 0x80, 1, Width::Byte), 0x00);
    assert!(f.carry);
    assert_eq!(f.shift(ShiftOp::Rcr, 0x00, 1, Width::Byte), 0x80);
    assert!(!f.carry);
    assert_eq!(f.shift(ShiftOp::Shl, 0x0001, 16, Width::Word), 0);
    assert!(f.carry && f.zero);
    let before = f;
    assert_eq!(f.shift(ShiftOp::Shr, 0x1234, 0, Width::Word), 0x1234);
    assert_eq!(f, before);
}
