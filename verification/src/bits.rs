//! Small facts about bit operations on bytes and addresses, proved once and used by the
//! CPU, the PPU and the cartridge mappers.
use vstd::prelude::*;

verus! {

/// A number modulo 256, as a byte.
#[verifier::opaque]
pub open spec fn wrap8(x: int) -> u8 {
    (x % 256) as u8
}

/// A number modulo 2^16, as an address.
#[verifier::opaque]
pub open spec fn wrap16(x: int) -> u16 {
    (x % 0x10000) as u16
}

/// Stepping `b` towards `a` shortens the distance from it to `a`.
pub proof fn lemma_wrap16_step(a: u16, b: u16)
    requires
        a != b,
    ensures
        wrap16(a - wrap16(b + 1)) < wrap16(a - b),
{
    reveal(wrap16);
}

/// A byte modulo 256, unfolded.
pub proof fn lemma_wrap8(x: int)
    ensures
        wrap8(x) == x % 256,
{
    reveal(wrap8);
}

pub broadcast proof fn lemma_wrapping_add_u8(x: u8, y: u8)
    ensures
        #[trigger] vstd::wrapping::u8_specs::wrapping_add(x, y) == wrap8(x + y),
{
    reveal(wrap8);
}

pub broadcast proof fn lemma_wrapping_sub_u8(x: u8, y: u8)
    ensures
        #[trigger] vstd::wrapping::u8_specs::wrapping_sub(x, y) == wrap8(x - y),
{
    reveal(wrap8);
}

pub broadcast proof fn lemma_wrapping_add_u16(x: u16, y: u16)
    ensures
        #[trigger] vstd::wrapping::u16_specs::wrapping_add(x, y) == wrap16(x + y),
{
    reveal(wrap16);
}

pub broadcast proof fn lemma_wrapping_sub_u16(x: u16, y: u16)
    ensures
        #[trigger] vstd::wrapping::u16_specs::wrapping_sub(x, y) == wrap16(x - y),
{
    reveal(wrap16);
}

/// Wrapping arithmetic on bytes and addresses, as numbers modulo 256 and 2^16.
pub broadcast group group_wrapping {
    lemma_wrapping_add_u8,
    lemma_wrapping_sub_u8,
    lemma_wrapping_add_u16,
    lemma_wrapping_sub_u16,
}

/// A byte's most significant bit is set exactly when the byte is at least 0x80.
pub proof fn lemma_bit7(v: u8)
    ensures
        ((v & 0x80) != 0) == (v >= 0x80),
{
    assert(((v & 0x80) != 0) == (v >= 0x80)) by (bit_vector);
}

/// A byte's least significant bit is set exactly when the byte is odd.
pub proof fn lemma_bit0(v: u8)
    ensures
        ((v & 0x01) != 0) == (v % 2 == 1),
{
    assert(((v & 0x01) != 0) == (v % 2 == 1)) by (bit_vector);
}

/// Shifting a byte by one is halving and doubling modulo 256.
pub proof fn lemma_shift1(v: u8)
    ensures
        v >> 1u8 == v / 2,
        v << 1u8 == wrap8(v * 2),
{
    reveal(wrap8);
    assert(v >> 1u8 == v / 2) by (bit_vector);
    assert(v << 1u8 == (v * 2) % 256) by (bit_vector);
}

/// Two bytes joined into a little-endian 16-bit word.
pub proof fn lemma_word(lo: u8, hi: u8)
    ensures
        (lo as u16) | ((hi as u16) << 8u16) == lo + 256 * hi,
{
    let l = lo as u16;
    let h = hi as u16;
    assert(l < 256 && h < 256 ==> l | (h << 8u16) == l + 256 * h) by (bit_vector);
}

/// The high byte of an address selects its 256-byte page.
pub proof fn lemma_page(a: u16)
    ensures
        a & 0xFF00 == a - a % 256,
        a & 0x00FF == a % 256,
        (a & 0xFF00) >> 8u16 == a / 256,
{
    assert(a & 0xFF00 == a - a % 256) by (bit_vector);
    assert(a & 0x00FF == a % 256) by (bit_vector);
    assert((a & 0xFF00) >> 8u16 == a / 256) by (bit_vector);
}

/// An address whose low byte is taken from `b` and whose page is that of `a`.
pub proof fn lemma_page_join(a: u16, b: u16)
    ensures
        (b & 0x00FF) | (a & 0xFF00) == a - a % 256 + b % 256,
{
    assert((b & 0x00FF) | (a & 0xFF00) == (a & 0xFF00) + (b & 0x00FF)) by (bit_vector);
    lemma_page(a);
    lemma_page(b);
}

/// Two addresses lie on the same page exactly when their high bytes agree.
pub proof fn lemma_same_page(a: u16, b: u16)
    ensures
        ((a & 0xFF00) == (b & 0xFF00)) == (a / 256 == b / 256),
{
    lemma_page(a);
    lemma_page(b);
}

/// A byte sign-extended to a 16-bit word.
pub proof fn lemma_sign_extend(v: u8)
    ensures
        (v as u16) | 0xFF00 == v + 0xFF00,
        ((v as u16) & 0x0080 != 0) == (v >= 0x80),
{
    let w = v as u16;
    assert(w < 256 ==> w | 0xFF00 == w + 0xFF00) by (bit_vector);
    assert(w < 256 ==> ((w & 0x0080 != 0) == (w >= 0x80))) by (bit_vector);
}

/// Nibbles, low byte and bit 7 of a 16-bit number.
pub proof fn lemma_u16_parts(x: u16)
    ensures
        x & 0x000F == x % 16,
        x & 0x00F0 == x % 256 - x % 16,
        x & 0x00FF == x % 256,
        ((x & 0x0080) != 0) == ((x / 128) % 2 == 1),
        ((x & 0xFF00) != 0) == (x >= 256),
{
    assert(x & 0x000F == x % 16) by (bit_vector);
    assert(x & 0x00F0 == x % 256 - x % 16) by (bit_vector);
    assert(x & 0x00FF == x % 256) by (bit_vector);
    assert(((x & 0x0080) != 0) == ((x / 128) % 2 == 1)) by (bit_vector);
    assert(((x & 0xFF00) != 0) == (x >= 256)) by (bit_vector);
}

/// The overflow rule of an addition, bit by bit: the operands agree in bit 7 and the
/// result does not.
pub proof fn lemma_sign_rule(l: u16, r: u16, res: u16)
    ensures
        (((!(l ^ r) & (l ^ res)) & 0x0080) != 0) == (((l & 0x0080) != 0) == ((r & 0x0080) != 0)
            && ((l & 0x0080) != 0) != ((res & 0x0080) != 0)),
{
    assert((((!(l ^ r) & (l ^ res)) & 0x0080) != 0) == (((l & 0x0080) != 0) == ((r & 0x0080)
        != 0) && ((l & 0x0080) != 0) != ((res & 0x0080) != 0))) by (bit_vector);
}

/// The complement of a byte.
pub proof fn lemma_not_byte(v: u8)
    ensures
        !v == 255 - v,
{
    assert(!v == 255 - v) by (bit_vector);
}


/// Masking an address keeps it at most the mask.
pub proof fn lemma_and_le_u16(x: u16, m: u16)
    ensures
        x & m <= m,
        x & m <= x,
{
    assert(x & m <= m && x & m <= x) by (bit_vector);
}

/// Masking a byte keeps it at most the mask.
pub proof fn lemma_and_le_u8(x: u8, m: u8)
    ensures
        x & m <= m,
        x & m <= x,
{
    assert(x & m <= m && x & m <= x) by (bit_vector);
}

/// Masking an index keeps it at most the mask.
pub proof fn lemma_and_le_usize(x: usize, m: usize)
    ensures
        x & m <= m,
        x & m <= x,
{
    assert(x & m <= m && x & m <= x) by (bit_vector);
}

} // verus!
