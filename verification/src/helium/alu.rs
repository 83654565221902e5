//! The arithmetic unit and its flag semantics.
//!
//! Addition takes a carry-in and reports the unsigned carry-out, the signed
//! overflow, the sign of the result and whether it is zero. Subtraction is
//! computed as `b - a` followed by `+ 1` (the two's-complement route of the
//! hardware): its carry is the OR of the borrow of `b - a` and the carry of
//! the `+ 1` stage, and its overflow flag reports the unsigned borrow of
//! `b - a` itself, not the classical signed-subtraction overflow.

use vstd::prelude::*;

verus! {

/// The outcome of one arithmetic operation: the 8-bit result and the four flags.
#[derive(Clone, Copy, PartialEq, Eq, Structural, Debug)]
pub struct AluResult {
    pub value: u8,
    pub carry: bool,
    pub overflow: bool,
    pub signed: bool,
    pub zero: bool,
}

/// The sign bit (bit 7) of a byte.
pub open spec fn sign_bit(v: u8) -> bool {
    v >= 128
}

/// The 8-bit sum `a + b + carry_in`, truncated.
pub open spec fn add_value(a: u8, b: u8, carry_in: bool) -> u8 {
    ((a + b + (if carry_in { 1int } else { 0int })) % 256) as u8
}

/// The unsigned carry-out of `a + b + carry_in`.
pub open spec fn add_carry(a: u8, b: u8, carry_in: bool) -> bool {
    a + b + (if carry_in { 1int } else { 0int }) > 255
}

/// Signed overflow of the addition: the operands share a sign bit and the
/// result's sign bit differs from that shared sign.
pub open spec fn add_overflow(a: u8, b: u8, carry_in: bool) -> bool {
    sign_bit(a) == sign_bit(b) && sign_bit(add_value(a, b, carry_in)) != sign_bit(a)
}

/// The intermediate 8-bit difference `b - a`, truncated.
pub open spec fn sub_stage_value(a: u8, b: u8) -> u8 {
    ((b - a + 256) % 256) as u8
}

/// The 8-bit result of the subtraction route `b - a` then `+ 1`, truncated.
pub open spec fn sub_value(a: u8, b: u8) -> u8 {
    ((b - a + 257) % 256) as u8
}

/// The carry flag of the subtraction: the borrow of the `b - a` stage OR-ed
/// with the carry of the `+ 1` stage.
pub open spec fn sub_carry(a: u8, b: u8) -> bool {
    b < a || sub_stage_value(a, b) == 255
}

/// The overflow flag of the subtraction: the unsigned borrow of `b - a`.
pub open spec fn sub_overflow(a: u8, b: u8) -> bool {
    b < a
}

/// Adds `a + b + carry_in` and computes all four flags of the reference
/// two's-complement unit: carry is the unsigned carry-out, overflow follows
/// the shared-sign rule, signed is bit 7 of the result and zero reports a
/// zero result.
pub fn add(a: u8, b: u8, carry_in: bool) -> (r: AluResult)
    ensures
        r.value == add_value(a, b, carry_in),
        r.carry == add_carry(a, b, carry_in),
        r.overflow == add_overflow(a, b, carry_in),
        r.signed == sign_bit(add_value(a, b, carry_in)),
        r.zero == (add_value(a, b, carry_in) == 0),
{
    let cv: u16 = if carry_in {
        1
    } else {
        0
    };
    let sum: u16 = a as u16 + b as u16 + cv;
    let value: u8 = (sum % 256) as u8;
    AluResult {
        value,
        carry: sum > 255,
        overflow: (a >= 128) == (b >= 128) && (value >= 128) != (a >= 128),
        signed: value >= 128,
        zero: value == 0,
    }
}

/// Subtracts along the route `b - a` then `+ 1` and computes the flags:
/// carry is the OR of the two stages' borrow and carry, overflow is the
/// unsigned borrow of `b - a`, signed is bit 7 of the result and zero
/// reports a zero result.
pub fn sub(a: u8, b: u8) -> (r: AluResult)
    ensures
        r.value == sub_value(a, b),
        r.carry == sub_carry(a, b),
        r.overflow == sub_overflow(a, b),
        r.signed == sign_bit(sub_value(a, b)),
        r.zero == (sub_value(a, b) == 0),
{
    let diff: u16 = (b as u16 + 256) - (a as u16);
    let stage: u8 = (diff % 256) as u8;
    let value: u8 = if stage == 255 {
        0
    } else {
        stage + 1
    };
    AluResult {
        value,
        carry: b < a || stage == 255,
        overflow: b < a,
        signed: value >= 128,
        zero: value == 0,
    }
}

} // verus!
