//! The arithmetic and logic unit: results and flags of the 8-bit and 16-bit
//! operations, as spec functions and as the executable code that meets them.
use vstd::prelude::*;

use crate::bytes::{carry_u8_add, half_carry_u8_add};
use crate::memory::wrap16;
use crate::registers::{bit_value, Flags};

verus! {

/// The 8-bit operations that combine A with an operand.
#[derive(Debug, Clone, Copy, PartialEq, Eq, Structural)]
pub enum AluOp {
    Add,
    Adc,
    Sub,
    Sbc,
    And,
    Xor,
    Or,
    Cp,
}

/// The rotate and shift operations behind the 0xCB prefix.
#[derive(Debug, Clone, Copy, PartialEq, Eq, Structural)]
pub enum ShiftOp {
    Rlc,
    Rrc,
    Rl,
    Rr,
    Sla,
    Sra,
    Swap,
    Srl,
}

/// `a + b + carry`: Z from the result, N clear, H on a carry out of bit 3,
/// C on a carry out of bit 7.
pub open spec fn add8_spec(a: u8, b: u8, carry: bool) -> (u8, Flags) {
    let c = bit_value(carry) as int;
    let sum = a + b + c;
    (
        (sum % 256) as u8,
        Flags { z: sum % 256 == 0, n: false, h: a % 16 + b % 16 + c > 15, c: sum > 255 },
    )
}

/// `a - b - carry`: Z from the result, N set, H on a borrow from bit 4,
/// C on a borrow from beyond bit 7.
pub open spec fn sub8_spec(a: u8, b: u8, carry: bool) -> (u8, Flags) {
    let c = bit_value(carry) as int;
    let d = a - b - c;
    ((d % 256) as u8, Flags { z: d % 256 == 0, n: true, h: a % 16 < b % 16 + c, c: a < b + c })
}

/// The result and flags of `op` on A = `a` and the operand `b`, with the
/// carry flag `carry` coming in.
pub open spec fn alu_spec(op: AluOp, a: u8, b: u8, carry: bool) -> (u8, Flags) {
    match op {
        AluOp::Add => add8_spec(a, b, false),
        AluOp::Adc => add8_spec(a, b, carry),
        AluOp::Sub => sub8_spec(a, b, false),
        AluOp::Sbc => sub8_spec(a, b, carry),
        AluOp::And => (a & b, Flags { z: a & b == 0, n: false, h: true, c: false }),
        AluOp::Xor => (a ^ b, Flags { z: a ^ b == 0, n: false, h: false, c: false }),
        AluOp::Or => (a | b, Flags { z: a | b == 0, n: false, h: false, c: false }),
        AluOp::Cp => sub8_spec(a, b, false),
    }
}

/// INC: the carry flag is kept.
pub open spec fn inc8_spec(v: u8, f: Flags) -> (u8, Flags) {
    (((v + 1) % 256) as u8, Flags { z: v == 255, n: false, h: v % 16 == 15, c: f.c })
}

/// DEC: the carry flag is kept.
pub open spec fn dec8_spec(v: u8, f: Flags) -> (u8, Flags) {
    (((v - 1) % 256) as u8, Flags { z: v == 1, n: true, h: v % 16 == 0, c: f.c })
}

/// ADD HL, r16: Z is kept, H on a carry out of bit 11, C on a carry out of bit 15.
pub open spec fn add_hl_spec(hl: u16, v: u16, f: Flags) -> (u16, Flags) {
    (wrap16(hl + v), Flags { z: f.z, n: false, h: hl % 4096 + v % 4096 > 4095, c: hl + v > 65535 })
}

/// The signed value of an offset byte.
pub open spec fn signed8(e: u8) -> int {
    if e < 128 {
        e as int
    } else {
        e - 256
    }
}

/// SP plus the signed offset `e` (ADD SP, e8 and LD HL, SP+e8): Z and N clear;
/// H and C are the carries out of bits 3 and 7 of the low byte of SP plus the
/// offset byte.
pub open spec fn add_sp_spec(sp: u16, e: u8) -> (u16, Flags) {
    (
        wrap16(sp + signed8(e)),
        Flags { z: false, n: false, h: sp % 16 + e % 16 > 15, c: sp % 256 + e > 255 },
    )
}

/// The result of a rotate or shift of `v` and the bit shifted out, with the
/// carry flag `carry` coming in.
pub open spec fn shift_spec(op: ShiftOp, v: u8, carry: bool) -> (u8, bool) {
    let c = bit_value(carry) as int;
    match op {
        ShiftOp::Rlc => (((v * 2) % 256 + v / 128) as u8, v >= 128),
        ShiftOp::Rrc => ((v / 2 + (v % 2) * 128) as u8, v % 2 == 1),
        ShiftOp::Rl => (((v * 2) % 256 + c) as u8, v >= 128),
        ShiftOp::Rr => ((v / 2 + c * 128) as u8, v % 2 == 1),
        ShiftOp::Sla => (((v * 2) % 256) as u8, v >= 128),
        ShiftOp::Sra => ((v / 2 + (v / 128) * 128) as u8, v % 2 == 1),
        ShiftOp::Swap => (((v % 16) * 16 + v / 16) as u8, false),
        ShiftOp::Srl => ((v / 2) as u8, v % 2 == 1),
    }
}

/// DAA: the decimal correction of A after an addition (N clear) or a
/// subtraction (N set), from the flags as they stand.
pub open spec fn daa_spec(a: u8, f: Flags) -> (u8, Flags) {
    let low = f.h || a % 16 > 9;
    let high = f.c || a > 0x99;
    let adjust = (if low {
        6int
    } else {
        0
    }) + (if high {
        0x60int
    } else {
        0
    });
    let r = if f.n {
        (a - adjust) % 256
    } else {
        (a + adjust) % 256
    };
    (r as u8, Flags { z: r == 0, n: f.n, h: false, c: f.c || high })
}

/// Carry out of bit 3 when adding `left` and `right`.
pub fn check_half_carry_add_u8(left: u8, right: u8) -> (r: bool)
    ensures
        r == (left % 16 + right % 16 > 15),
{
    let low_left = left & 0xF;
    let low_right = right & 0xF;
    assert(low_left == left % 16 && low_right == right % 16) by (bit_vector)
        requires
            low_left == left & 0xF,
            low_right == right & 0xF,
    ;
    let sum = low_left + low_right;
    let r = (sum & 0x10) != 0x0;
    assert(r == (sum > 15)) by (bit_vector)
        requires
            sum < 32,
            r == ((sum & 0x10) != 0x0),
    ;
    r
}

/// Carry out of bit 11 when adding `left` and `right`.
pub fn check_half_carry_add_u16_bit11(left: u16, right: u16) -> (r: bool)
    ensures
        r == (left % 4096 + right % 4096 > 4095),
{
    let low_left = left & 0xFFF;
    let low_right = right & 0xFFF;
    assert(low_left == left % 4096 && low_right == right % 4096) by (bit_vector)
        requires
            low_left == left & 0xFFF,
            low_right == right & 0xFFF,
    ;
    let sum = low_left + low_right;
    let r = (sum & 0x1000) != 0x0;
    assert(r == (sum > 4095)) by (bit_vector)
        requires
            sum < 8192,
            r == ((sum & 0x1000) != 0x0),
    ;
    r
}

/// Carry out of bit 7 when adding `left` and `right`.
pub fn check_half_carry_add_u16_bit7(left: u16, right: u16) -> (r: bool)
    ensures
        r == (left % 256 + right % 256 > 255),
{
    let low_left = left & 0xFF;
    let low_right = right & 0xFF;
    assert(low_left == left % 256 && low_right == right % 256) by (bit_vector)
        requires
            low_left == left & 0xFF,
            low_right == right & 0xFF,
    ;
    let sum = low_left + low_right;
    let r = (sum & 0x100) != 0x0;
    assert(r == (sum > 255)) by (bit_vector)
        requires
            sum < 512,
            r == ((sum & 0x100) != 0x0),
    ;
    r
}

/// Borrow from bit 4 when subtracting `right` from `left`.
pub fn check_half_borrow_sub_u8(left: u8, right: u8) -> (r: bool)
    ensures
        r == (left % 16 < right % 16),
{
    let r = (left & 0xF) < (right & 0xF);
    assert(r == (left % 16 < right % 16)) by (bit_vector)
        requires
            r == ((left & 0xF) < (right & 0xF)),
    ;
    r
}

/// Borrow from bit 12 when subtracting `right` from `left`.
pub fn check_half_borrow_sub_u16(left: u16, right: u16) -> (r: bool)
    ensures
        r == (left % 4096 < right % 4096),
{
    let r = (left & 0xFFF) < (right & 0xFFF);
    assert(r == (left % 4096 < right % 4096)) by (bit_vector)
        requires
            r == ((left & 0xFFF) < (right & 0xFFF)),
    ;
    r
}

fn add8(a: u8, b: u8, carry: bool) -> (r: (u8, Flags))
    ensures
        r == add8_spec(a, b, carry),
{
    let c: u16 = if carry {
        1
    } else {
        0
    };
    let sum: u16 = a as u16 + b as u16 + c;
    let value = (sum % 256) as u8;
    let h = (a % 16) as u16 + (b % 16) as u16 + c > 15;
    (value, Flags { z: value == 0, n: false, h, c: sum > 255 })
}

fn sub8(a: u8, b: u8, carry: bool) -> (r: (u8, Flags))
    ensures
        r == sub8_spec(a, b, carry),
{
    let c: u16 = if carry {
        1
    } else {
        0
    };
    let d: u16 = 512 + a as u16 - b as u16 - c;
    let value = (d % 256) as u8;
    let h = ((a % 16) as u16) < (b % 16) as u16 + c;
    (value, Flags { z: value == 0, n: true, h, c: (a as u16) < b as u16 + c })
}

/// `op` on A = `a` and the operand `b`.
pub fn alu(op: AluOp, a: u8, b: u8, carry: bool) -> (r: (u8, Flags))
    ensures
        r == alu_spec(op, a, b, carry),
{
    match op {
        AluOp::Add => add8(a, b, false),
        AluOp::Adc => add8(a, b, carry),
        AluOp::Sub => sub8(a, b, false),
        AluOp::Sbc => sub8(a, b, carry),
        AluOp::And => (a & b, Flags { z: a & b == 0, n: false, h: true, c: false }),
        AluOp::Xor => (a ^ b, Flags { z: a ^ b == 0, n: false, h: false, c: false }),
        AluOp::Or => (a | b, Flags { z: a | b == 0, n: false, h: false, c: false }),
        AluOp::Cp => sub8(a, b, false),
    }
}

/// INC of an 8-bit value.
pub fn inc8(v: u8, f: Flags) -> (r: (u8, Flags))
    ensures
        r == inc8_spec(v, f),
{
    let h = check_half_carry_add_u8(v, 1);
    let value = if v == 255 {
        0
    } else {
        v + 1
    };
    (value, Flags { z: value == 0, n: false, h, c: f.c })
}

/// DEC of an 8-bit value.
pub fn dec8(v: u8, f: Flags) -> (r: (u8, Flags))
    ensures
        r == dec8_spec(v, f),
{
    let h = check_half_borrow_sub_u8(v, 1);
    let value = if v == 0 {
        255
    } else {
        v - 1
    };
    (value, Flags { z: value == 0, n: true, h, c: f.c })
}

/// ADD HL, r16.
pub fn add_hl(hl: u16, v: u16, f: Flags) -> (r: (u16, Flags))
    ensures
        r == add_hl_spec(hl, v, f),
{
    let sum: u32 = hl as u32 + v as u32;
    let h = check_half_carry_add_u16_bit11(hl, v);
    ((sum % 65536) as u16, Flags { z: f.z, n: false, h, c: sum > 65535 })
}

/// SP plus a signed offset byte, with the flags of ADD SP, e8.
pub fn add_sp(sp: u16, e: u8) -> (r: (u16, Flags))
    ensures
        r == add_sp_spec(sp, e),
{
    let low = (sp % 256) as u8;
    let h = half_carry_u8_add(low, e) == 1;
    let c = carry_u8_add(low, e) == 1;
    let value: u16 = if e < 128 {
        ((sp as u32 + e as u32) % 65536) as u16
    } else {
        ((sp as u32 + 65536 - 256 + e as u32) % 65536) as u16
    };
    (value, Flags { z: false, n: false, h, c })
}

/// A rotate or shift of `v`.
pub fn shift(op: ShiftOp, v: u8, carry: bool) -> (r: (u8, bool))
    ensures
        r == shift_spec(op, v, carry),
{
    let c: u8 = if carry {
        1
    } else {
        0
    };
    match op {
        ShiftOp::Rlc => (((v as u16 * 2) % 256) as u8 + v / 128, v >= 128),
        ShiftOp::Rrc => (v / 2 + (v % 2) * 128, v % 2 == 1),
        ShiftOp::Rl => (((v as u16 * 2) % 256) as u8 + c, v >= 128),
        ShiftOp::Rr => (v / 2 + c * 128, v % 2 == 1),
        ShiftOp::Sla => (((v as u16 * 2) % 256) as u8, v >= 128),
        ShiftOp::Sra => (v / 2 + (v / 128) * 128, v % 2 == 1),
        ShiftOp::Swap => ((v % 16) * 16 + v / 16, false),
        ShiftOp::Srl => (v / 2, v % 2 == 1),
    }
}

/// DAA of A = `a`.
pub fn daa(a: u8, f: Flags) -> (r: (u8, Flags))
    ensures
        r == daa_spec(a, f),
{
    let mut adjustment: u16 = 0;
    let high = f.c || a > 0x99;
    if f.h || a % 16 > 9 {
        adjustment = adjustment + 0x6;
    }
    if high {
        adjustment = adjustment + 0x60;
    }
    let result: u8 = if !f.n {
        ((a as u16 + adjustment) % 256) as u8
    } else {
        ((a as u16 + 256 - adjustment) % 256) as u8
    };
    (result, Flags { z: result == 0, n: f.n, h: false, c: f.c || high })
}

} // verus!
