//! Arithmetic and logic on bytes: binary and BCD addition and subtraction, shifts and
//! rotations, and the flags they produce.
use crate::bits::{group_wrapping, lemma_bit0, lemma_shift1, lemma_u16_parts, wrap8};
use vstd::prelude::*;

verus! {

broadcast use group_wrapping;

/// A byte read as a two's complement number.
pub open spec fn signed(v: u8) -> int {
    if v >= 0x80 {
        v - 256
    } else {
        v as int
    }
}

/// Bit 7 of a number (which may exceed a byte).
pub open spec fn bit7_of(v: int) -> bool {
    (v / 128) % 2 == 1
}

/// The sign rule for overflow: the operands agree in sign and the result does not.
pub open spec fn sign_overflow(left: u8, right: u8, result: int) -> bool {
    (left >= 0x80) == (right >= 0x80) && (left >= 0x80) != bit7_of(result)
}

/// The BCD sum of two bytes and a carry, digit by digit, before the high digit is adjusted.
pub open spec fn bcd_sum(left: u8, right: u8, carry: int) -> int {
    let r0 = left % 16 + right % 16 + carry;
    let r1 = if r0 >= 0x0A { r0 + 6 } else { r0 };
    r1 + (left - left % 16) + (right - right % 16)
}

/// The high-digit adjustment of a BCD sum.
pub open spec fn bcd_adjust(r: int) -> int {
    if r >= 0xA0 {
        r + 0x60
    } else {
        r
    }
}

/// The BCD difference of two bytes less a borrow (the carry clear), digit by digit.
pub open spec fn bcd_difference(left: u8, right: u8, carry: int) -> int {
    let r0 = left % 16 - right % 16 + carry - 1;
    let r1 = if r0 < 0 { (r0 - 6) % 16 - 16 } else { r0 };
    let r2 = (left - left % 16) - (right - right % 16) + r1;
    if r2 < 0 {
        r2 - 0x60
    } else {
        r2
    }
}

/// Arithmetic shift left: the doubled byte and the bit shifted out.
pub open spec fn shift_left(v: u8) -> (u8, bool) {
    (wrap8(v * 2), v >= 0x80)
}

/// Logical shift right: the halved byte and the bit shifted out.
pub open spec fn shift_right(v: u8) -> (u8, bool) {
    (v / 2, v % 2 == 1)
}

/// Rotation left through the carry.
pub open spec fn rotate_left(v: u8, carry: bool) -> (u8, bool) {
    (wrap8(v * 2 + (if carry { 1int } else { 0 })), v >= 0x80)
}

/// Rotation right through the carry.
pub open spec fn rotate_right(v: u8, carry: bool) -> (u8, bool) {
    ((v / 2 + (if carry { 0x80int } else { 0 })) as u8, v % 2 == 1)
}

/// Adds two bytes and a carry digit by digit in BCD: the sum before and after the
/// high-digit adjustment.
pub fn bcd_add(left: u8, right: u8, carry: bool) -> (r: (u16, u16))
    ensures
        r.0 == bcd_sum(left, right, if carry { 1 } else { 0 }),
        r.1 == bcd_adjust(r.0 as int),
        r.0 < 0x0210,
{
    let left = left as u16;
    let right = right as u16;
    let carry: u16 = if carry {
        1
    } else {
        0
    };
    proof {
        lemma_u16_parts(left);
        lemma_u16_parts(right);
    }
    let ld0 = left & 0x0F;
    let rd0 = right & 0x0F;
    let ld1 = left & 0xF0;
    let rd1 = right & 0xF0;
    assert(left % 256 == left && right % 256 == right);
    assert(ld1 == left - left % 16 && rd1 == right - right % 16);

    let mut result = ld0 + rd0 + carry;
    if result >= 0x000A {
        result = result + 0x0006;
    }
    result = result + ld1 + rd1;
    let sum = result;
    if result >= 0x00A0 {
        result = result + 0x0060;
    }
    (sum, result)
}

/// Subtracts a byte and a borrow from a byte digit by digit in BCD.
pub fn bcd_subtract(left: u8, right: u8, carry: bool) -> (r: i32)
    ensures
        r == bcd_difference(left, right, if carry { 1 } else { 0 }),
        -0x200 < r < 0x100,
{
    let left = left as i32;
    let right = right as i32;
    let carry: i32 = if carry {
        1
    } else {
        0
    };
    let ld0 = left % 16;
    let rd0 = right % 16;
    let ld1 = left - ld0;
    let rd1 = right - rd0;

    let mut result = ld0 - rd0 + carry - 1;
    if result < 0 {
        // The low nibble of (result - 6), less 16
        result = (result + 26) % 16 - 16;
    }
    result = ld1 - rd1 + result;
    if result < 0 {
        result = result - 0x60;
    }
    result
}

/// Rotates a byte left through the carry: the new byte and the new carry.
pub fn rotate_byte_left(value: u8, carry: bool) -> (r: (u8, bool))
    ensures
        r == rotate_left(value, carry),
{
    let tmp = ((value as u16) << 1) | if carry {
        0x0001u16
    } else {
        0x0000u16
    };
    proof {
        reveal(wrap8);
        let w = value as u16;
        assert(w < 256 ==> (w << 1u16) | 1u16 == w * 2 + 1 && (w << 1u16) | 0u16 == w * 2) by (bit_vector);
        lemma_u16_parts(tmp);
    }
    ((tmp & 0x00FF) as u8, (tmp & 0xFF00) != 0)
}

/// Rotates a byte right through the carry: the new byte and the new carry.
pub fn rotate_byte_right(value: u8, carry: bool) -> (r: (u8, bool))
    ensures
        r == rotate_right(value, carry),
{
    proof {
        lemma_shift1(value);
        lemma_bit0(value);
        let h = value >> 1u8;
        assert(h < 128 ==> h | 0x80u8 == h + 0x80 && h | 0u8 == h) by (bit_vector);
    }
    ((value >> 1) | if carry {
        0x80u8
    } else {
        0x00u8
    }, (value & 0x01) != 0)
}

} // verus!
