use r8080::cpu::{
    add16, add8, and8, daa, dec8, inc8, rotate, stack_word, sub8, Condition, InstructionTarget,
    Register16, Register8, RegisterFlags, Registers,
};
use r8080::{Bus8080, Device8080, Memory, SystemBus};

struct NoDevice;

impl Device8080 for NoDevice {
    fn in_b(&mut self, _: &mut Registers, _: &mut Memory, _: u8) -> u8 {
        0xFF
    }

    fn out_b(&mut self, _: &mut Registers, _: &mut Memory, _: u8, _: u8) {}
}

#[test]
fn set_zsp_follows_zero_sign_and_parity_for_every_byte() {
    for v in 0..=255u8 {
        let mut r = Registers::new();
        r.set_flag(RegisterFlags::Carry, true);
        r.set_zsp(v);
        assert_eq!(r.get_flag(RegisterFlags::Parity), v.count_ones() % 2 == 0, "v = {}", v);
        assert_eq!(r.get_flag(RegisterFlags::Zero), v == 0, "v = {}", v);
        assert_eq!(r.get_flag(RegisterFlags::Sign), v >= 128, "v = {}", v);
        assert!(r.get_flag(RegisterFlags::Carry));
        assert!(!r.get_flag(RegisterFlags::HalfCarry));
    }
}

/// Decimal adjust as the 8080 data book words it: add 6 when the low
/// nibble is over 9 or the auxiliary flag is set, add 0x60 when A is over
/// 0x99 or the carry is set.
fn reference_daa(a: u8, c: bool, h: bool) -> (u8, bool, bool) {
    let mut correction = 0u8;
    let mut carry = c;
    if (a & 0x0F) > 9 || h {
        correction |= 0x06;
    }
    if a > 0x99 || c {
        correction |= 0x60;
        carry = true;
    }
    let half = (a & 0x0F) + (correction & 0x0F) > 0x0F;
    (a.wrapping_add(correction), carry, half)
}

#[test]
fn daa_matches_the_reference_for_all_inputs() {
    for a in 0..=255u8 {
        for c in [false, true] {
            for h in [false, true] {
                assert_eq!(daa(a, c, h), reference_daa(a, c, h), "a = {:02X} c = {} h = {}", a, c, h);
            }
        }
    }
}

#[test]
fn daa_known_values() {
    assert_eq!(daa(0x9B, false, false), (0x01, true, true));
    assert_eq!(daa(0x15, false, false), (0x15, false, false));
    assert_eq!(daa(0x0A, false, false), (0x10, false, true));
    assert_eq!(daa(0x00, true, true), (0x66, true, false));
}

#[test]
fn add8_carries_out_of_bits_three_and_seven() {
    assert_eq!(add8(0xFF, 0x01, false), (0x00, true, true));
    assert_eq!(add8(0x05, 0x03, false), (0x08, false, false));
    assert_eq!(add8(0x0F, 0x00, true), (0x10, false, true));
    assert_eq!(add8(0x80, 0x80, true), (0x01, true, false));
}

#[test]
fn sub8_sets_carry_on_borrow() {
    assert_eq!(sub8(0x00, 0x01, false), (0xFF, true, false));
    assert_eq!(sub8(0x05, 0x03, false), (0x02, false, true));
    assert_eq!(sub8(0x10, 0x01, false), (0x0F, false, false));
    assert_eq!(sub8(0x05, 0x05, true), (0xFF, true, false));
    assert_eq!(sub8(0x3E, 0x3E, false), (0x00, false, true));
}

#[test]
fn inc_and_dec_auxiliary_flag() {
    assert_eq!(inc8(0x0F), (0x10, true));
    assert_eq!(inc8(0xFF), (0x00, true));
    assert_eq!(inc8(0x41), (0x42, false));
    assert_eq!(dec8(0x10), (0x0F, false));
    assert_eq!(dec8(0x00), (0xFF, false));
    assert_eq!(dec8(0x42), (0x41, true));
}

#[test]
fn and_auxiliary_comes_from_bit_three_of_the_or() {
    assert_eq!(and8(0x08, 0x00), (0x00, true));
    assert_eq!(and8(0xF0, 0x34), (0x30, false));
    assert_eq!(and8(0xF0, 0x3C), (0x30, true));
    assert_eq!(and8(0x0F, 0x08), (0x08, true));
}

#[test]
fn rotates() {
    assert_eq!(rotate(0x81, false, false, false), (0x03, true));
    assert_eq!(rotate(0x81, true, false, false), (0xC0, true));
    assert_eq!(rotate(0x81, false, true, false), (0x02, true));
    assert_eq!(rotate(0x80, true, true, true), (0xC0, false));
    assert_eq!(rotate(0x40, false, true, true), (0x81, false));
}

#[test]
fn add16_carries_out_of_bit_fifteen() {
    assert_eq!(add16(0xFFFF, 0x0001), (0x0000, true));
    assert_eq!(add16(0x1234, 0x1111), (0x2345, false));
}

#[test]
fn stack_word_masks_the_flag_byte() {
    assert_eq!(stack_word(0x12FF), 0x12D7);
    assert_eq!(stack_word(0xAB00), 0xAB02);
}

#[test]
fn register_pairs_split_and_join() {
    let mut r = Registers::new();
    r.set_16(&Register16::BC, 0x1234);
    r.set_16(&Register16::DE, 0x5678);
    r.set_16(&Register16::HL, 0x9ABC);
    r.set_16(&Register16::SP, 0xDEF0);
    r.set_16(&Register16::DSW, 0x4202);
    assert_eq!((r.b, r.c, r.d, r.e, r.h, r.l), (0x12, 0x34, 0x56, 0x78, 0x9A, 0xBC));
    assert_eq!((r.sp, r.a, r.f), (0xDEF0, 0x42, 0x02));
    assert_eq!(r.get_16(&Register16::BC), 0x1234);
    assert_eq!(r.get_16(&Register16::DE), 0x5678);
    assert_eq!(r.get_16(&Register16::HL), 0x9ABC);
    assert_eq!(r.get_16(&Register16::SP), 0xDEF0);
    assert_eq!(r.get_16(&Register16::DSW), 0x4202);
}

#[test]
fn registers_start_at_reset_values() {
    let r = Registers::new();
    assert_eq!((r.pc, r.sp, r.a, r.f), (0, 0, 0, 0x02));
    assert!(r.interrupts && r.running && !r.halting);
}

#[test]
fn flags_set_and_clear_their_own_bit() {
    let mut r = Registers::new();
    r.set_flag(RegisterFlags::Sign, true);
    assert_eq!(r.f, 0x82);
    r.set_flag(RegisterFlags::Zero, true);
    r.set_flag(RegisterFlags::HalfCarry, true);
    r.set_flag(RegisterFlags::Parity, true);
    r.set_flag(RegisterFlags::Carry, true);
    assert_eq!(r.f, 0xD7);
    r.set_flag(RegisterFlags::Sign, false);
    assert_eq!(r.f, 0x57);
    assert!(!r.get_flag(RegisterFlags::Sign));
    assert!(r.get_flag(RegisterFlags::Zero));
}

#[test]
fn conditions_test_their_flag() {
    let mut r = Registers::new();
    assert!(r.check_condition(&Condition::Always));
    assert!(r.check_condition(&Condition::NotZero));
    assert!(!r.check_condition(&Condition::Zero));
    assert!(r.check_condition(&Condition::PairtyOdd));
    assert!(r.check_condition(&Condition::Plus));
    assert!(r.check_condition(&Condition::NotAuxiliary));
    r.set_flag(RegisterFlags::Zero, true);
    r.set_flag(RegisterFlags::Carry, true);
    r.set_flag(RegisterFlags::Parity, true);
    r.set_flag(RegisterFlags::Sign, true);
    r.set_flag(RegisterFlags::HalfCarry, true);
    assert!(r.check_condition(&Condition::Zero));
    assert!(r.check_condition(&Condition::Carry));
    assert!(!r.check_condition(&Condition::NotCarry));
    assert!(r.check_condition(&Condition::ParityEven));
    assert!(r.check_condition(&Condition::Minus));
    assert!(r.check_condition(&Condition::Auxiliary));
}

#[test]
fn m_is_the_byte_at_hl() {
    let mut bus = SystemBus::new(NoDevice);
    let mut r = Registers::new();
    r.set_16(&Register16::HL, 0x2000);
    r.set_8(&Register8::M, &mut bus, 0x99);
    assert_eq!(bus.read_b(0x2000), 0x99);
    assert_eq!(r.get_8(&bus, &Register8::M), 0x99);
    r.set_8(&Register8::E, &mut bus, 0x11);
    assert_eq!(r.get_8(&bus, &Register8::E), 0x11);
    assert_eq!(bus.read_b(0x2000), 0x99);
}

#[test]
fn operands_read_immediates_and_registers() {
    let mut bus = SystemBus::new(NoDevice);
    let mut r = Registers::new();
    r.set_16(&Register16::HL, 0x3000);
    r.set_16(&Register16::DE, 0x0102);
    bus.write_b(0x3000, 0x77);
    let m = InstructionTarget::Register8 { register: Register8::M };
    assert_eq!(m.get_value_as_u8(&bus, &r), 0x77);
    assert_eq!(InstructionTarget::Immediate8 { value: 5 }.get_value_as_u8(&bus, &r), 5);
    assert_eq!(InstructionTarget::Immediate16 { value: 0xBEEF }.get_value_as_u16(&r), 0xBEEF);
    let de = InstructionTarget::Register16 { register: Register16::DE };
    assert_eq!(de.get_value_as_u16(&r), 0x0102);
}

#[test]
fn memory_words_wrap_at_the_top() {
    let mut bus = SystemBus::new(NoDevice);
    bus.write_w(0xFFFF, 0xA1B2);
    assert_eq!(bus.read_b(0xFFFF), 0xB2);
    assert_eq!(bus.read_b(0x0000), 0xA1);
    assert_eq!(bus.read_w(0xFFFF), 0xA1B2);
}
