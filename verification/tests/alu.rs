use helium::helium::alu;

fn reference_add(a: u8, b: u8, carry_in: bool) -> (u8, bool, bool, bool, bool) {
    let sum = a as u16 + b as u16 + if carry_in { 1 } else { 0 };
    let value = (sum % 256) as u8;
    let carry = sum > 255;
    let same_sign = (a >= 128) == (b >= 128);
    let overflow = same_sign && ((value >= 128) != (a >= 128));
    let signed = value >= 128;
    let zero = value == 0;
    (value, carry, overflow, signed, zero)
}

#[test]
fn add_simple() {
    let r = alu::add(1, 2, false);
    assert_eq!(r.value, 3);
    assert!(!r.carry);
    assert!(!r.overflow);
    assert!(!r.signed);
    assert!(!r.zero);
}

#[test]
fn add_carry_out_and_zero() {
    let r = alu::add(255, 1, false);
    assert_eq!(r.value, 0);
    assert!(r.carry);
    assert!(r.zero);
    assert!(!r.signed);
    assert!(!r.overflow);
}

#[test]
fn add_carry_in() {
    let r = alu::add(0, 0, true);
    assert_eq!(r.value, 1);
    assert!(!r.carry);
    assert!(!r.zero);
}

#[test]
fn add_signed_overflow() {
    // 127 + 1 = 128: both operands positive, result negative.
    let r = alu::add(127, 1, false);
    assert_eq!(r.value, 128);
    assert!(r.overflow);
    assert!(r.signed);
    assert!(!r.carry);
}

#[test]
fn add_negative_overflow() {
    // -128 + -1 = 127 with carry-out: both negative, result positive.
    let r = alu::add(128, 255, false);
    assert_eq!(r.value, 127);
    assert!(r.overflow);
    assert!(r.carry);
    assert!(!r.signed);
}

#[test]
fn add_matches_reference_alu() {
    let samples: [(u8, u8, bool); 10] = [
        (0, 0, false),
        (0, 0, true),
        (255, 255, true),
        (128, 128, false),
        (127, 127, true),
        (1, 254, true),
        (200, 100, false),
        (64, 64, false),
        (255, 0, true),
        (13, 29, true),
    ];
    for &(a, b, c) in samples.iter() {
        let r = alu::add(a, b, c);
        let (value, carry, overflow, signed, zero) = reference_add(a, b, c);
        assert_eq!(r.value, value);
        assert_eq!(r.carry, carry);
        assert_eq!(r.overflow, overflow);
        assert_eq!(r.signed, signed);
        assert_eq!(r.zero, zero);
    }
}

#[test]
fn sub_simple() {
    // The route is b - a then + 1: sub(1, 5) gives 5 - 1 + 1 = 5.
    let r = alu::sub(1, 5);
    assert_eq!(r.value, 5);
    assert!(!r.carry);
    assert!(!r.overflow);
    assert!(!r.signed);
    assert!(!r.zero);
}

#[test]
fn sub_equal_operands() {
    // b - a = 0, + 1 gives 1.
    let r = alu::sub(7, 7);
    assert_eq!(r.value, 1);
    assert!(!r.carry);
    assert!(!r.overflow);
    assert!(!r.zero);
}

#[test]
fn sub_borrow_sets_carry_and_overflow() {
    // 5 - 6 borrows: stage is 255, + 1 wraps to 0.
    let r = alu::sub(6, 5);
    assert_eq!(r.value, 0);
    assert!(r.carry);
    assert!(r.overflow);
    assert!(r.zero);
    assert!(!r.signed);
}

#[test]
fn sub_plus_one_stage_carry() {
    // 255 - 0 = 255, the + 1 stage wraps: carry without a borrow.
    let r = alu::sub(0, 255);
    assert_eq!(r.value, 0);
    assert!(r.carry);
    assert!(!r.overflow);
    assert!(r.zero);
}

#[test]
fn sub_signed_result() {
    // 200 - 10 + 1 = 191: bit 7 set.
    let r = alu::sub(10, 200);
    assert_eq!(r.value, 191);
    assert!(r.signed);
    assert!(!r.carry);
    assert!(!r.overflow);
}
