//! What holds of the processor across instructions: the stack gives back what was pushed,
//! a subroutine returns to its caller, subtraction and comparison mean what they say,
//! decimal mode adds decimal numbers, an interrupt handler returns to the interrupted code,
//! and a masked interrupt request changes nothing.
use super::alu::signed;
use super::cpu6502::{
    Cpu6502, Cpu6502State, ExecutionData, IRQ_VECTOR, NMI_VECTOR, STACK_BASE, StatusFlags, compare,
    with_zn,
};
use crate::bits::{group_wrapping, lemma_wrap8, wrap16, wrap8};
use crate::bus::BusComponent;
use vstd::prelude::*;

verus! {

broadcast use group_wrapping;

/// The stack page behaves as plain memory: a read gives back what the last write to that
/// address wrote, a write leaves the other addresses as they were, and a read changes nothing.
pub open spec fn stack_is_memory<B: BusComponent>() -> bool {
    &&& forall|m: B::V, a: u16, d: u8|
        STACK_BASE <= a < STACK_BASE + 256 ==> #[trigger] B::read_value(B::after_write(m, a, d), a) == d
    &&& forall|m: B::V, a: u16, b: u16, d: u8|
        STACK_BASE <= a < STACK_BASE + 256 && STACK_BASE <= b < STACK_BASE + 256 && a != b
            ==> #[trigger] B::read_value(B::after_write(m, b, d), a) == B::read_value(m, a)
    &&& forall|m: B::V, a: u16|
        STACK_BASE <= a < STACK_BASE + 256 ==> #[trigger] B::after_read(m, a) == m
}

/// The status register survives the trip to a byte and back, and so does the byte.
pub proof fn law_status_bits_roundtrip(s: StatusFlags, value: u8)
    ensures
        StatusFlags::spec_from_bits(s.spec_bits()) == s,
        StatusFlags::spec_from_bits(value).spec_bits() == value,
{
    let (c, z, i, d) = (s.c, s.z, s.i, s.d);
    let (b, u, v, n) = (s.b, s.u, s.v, s.n);
    let x = s.spec_bits();
    assert(x == (if c { 1u8 } else { 0u8 }) | (if z { 2u8 } else { 0u8 }) | (if i { 4u8 } else {
        0u8
    }) | (if d { 8u8 } else { 0u8 }) | (if b { 16u8 } else { 0u8 }) | (if u { 32u8 } else { 0u8 })
        | (if v { 64u8 } else { 0u8 }) | (if n { 128u8 } else { 0u8 }));
    assert((x & 0x01 != 0) == c && (x & 0x02 != 0) == z && (x & 0x04 != 0) == i && (x & 0x08 != 0)
        == d && (x & 0x10 != 0) == b && (x & 0x20 != 0) == u && (x & 0x40 != 0) == v && (x & 0x80
        != 0) == n) by (bit_vector)
        requires
            x == (if c { 1u8 } else { 0u8 }) | (if z { 2u8 } else { 0u8 }) | (if i { 4u8 } else {
                0u8
            }) | (if d { 8u8 } else { 0u8 }) | (if b { 16u8 } else { 0u8 }) | (if u { 32u8 } else {
                0u8
            }) | (if v { 64u8 } else { 0u8 }) | (if n { 128u8 } else { 0u8 }),
    ;
    assert(((if value & 0x01 != 0 { 1u8 } else { 0u8 }) | (if value & 0x02 != 0 { 2u8 } else {
        0u8
    }) | (if value & 0x04 != 0 { 4u8 } else { 0u8 }) | (if value & 0x08 != 0 { 8u8 } else { 0u8 })
        | (if value & 0x10 != 0 { 16u8 } else { 0u8 }) | (if value & 0x20 != 0 { 32u8 } else { 0u8 })
        | (if value & 0x40 != 0 { 64u8 } else { 0u8 }) | (if value & 0x80 != 0 { 128u8 } else { 0u8 }))
        == value) by (bit_vector);
}

/// Popping right after a push gives back the pushed byte and the stack pointer as it was.
pub proof fn law_push_then_pop<B: BusComponent>(s: Cpu6502State<B::V>, data: u8)
    requires
        stack_is_memory::<B>(),
    ensures
        ({
            let (v, s2) = Cpu6502::<B>::spec_pop_word(Cpu6502::<B>::spec_push_word(s, data));
            v == data && s2.sp == s.sp
        }),
{
    lemma_wrap8(s.sp - 1);
    lemma_wrap8(wrap8(s.sp - 1) + 1);
    let s1 = Cpu6502::<B>::spec_push_word(s, data);
    assert(B::read_value(B::after_write(s.bus, (STACK_BASE + s.sp) as u16, data), (STACK_BASE + s.sp) as u16) == data);
}

/// A subroutine call followed by a return comes back to the instruction after the call,
/// with the stack pointer as it was.
pub proof fn law_call_then_return<B: BusComponent>(s: Cpu6502State<B::V>, target: u16)
    requires
        stack_is_memory::<B>(),
    ensures
        ({
            let (_, s1) = Cpu6502::<B>::spec_jsr(s, ExecutionData::Address(target));
            let (_, s2) = Cpu6502::<B>::spec_rts(s1, ExecutionData::Implied);
            s1.pc == target && s2.pc == s.pc && s2.sp == s.sp
        }),
{
    reveal(Cpu6502::spec_jsr);
    reveal(Cpu6502::spec_rts);
    let r = wrap16(s.pc - 1);
    let hi = (r / 256) as u8;
    let lo = (r % 256) as u8;
    let a1 = (STACK_BASE + s.sp) as u16;
    let sp1 = wrap8(s.sp - 1);
    let a2 = (STACK_BASE + sp1) as u16;
    let sp2 = wrap8(sp1 - 1);
    lemma_wrap8(s.sp - 1);
    lemma_wrap8(sp1 - 1);
    lemma_wrap8(sp2 + 1);
    lemma_wrap8(sp1 + 1);
    let m1 = B::after_write(s.bus, a1, hi);
    let m2 = B::after_write(m1, a2, lo);
    assert(a1 != a2);
    assert(B::read_value(m2, a2) == lo);
    assert(B::read_value(m1, a1) == hi);
    assert(B::read_value(m2, a1) == B::read_value(m1, a1));
    assert(B::after_read(m2, a2) == m2);
    assert(lo + 256 * hi == r);
    reveal(wrap16);
}

/// Binary subtraction: the accumulator becomes A - M - (1 - C) modulo 256, the carry is set
/// when no borrow occurs, and overflow is set when the signed difference leaves -128..=127.
pub proof fn law_subtract_binary<B: BusComponent>(s: Cpu6502State<B::V>, m: u8)
    requires
        !(s.enable_decimal_mode && s.status.d),
    ensures
        ({
            let (cycles, s1) = Cpu6502::<B>::spec_sbc(s, ExecutionData::Data(m));
            let borrow = if s.status.c { 0int } else { 1 };
            let difference = s.a - m - borrow;
            let signed_difference = signed(s.a) - signed(m) - borrow;
            &&& cycles == 0
            &&& s1.a == wrap8(difference)
            &&& s1.status.c == (difference >= 0)
            &&& s1.status.v == (signed_difference < -128 || signed_difference > 127)
            &&& s1.status.z == (s1.a == 0)
        }),
{
    reveal(Cpu6502::spec_sbc);
    let borrow = if s.status.c { 0int } else { 1 };
    lemma_wrap8(s.a + (255 - m) + (1 - borrow));
    lemma_wrap8(s.a - m - borrow);
    vstd::arithmetic::div_mod::lemma_mod_add_multiples_vanish(s.a - m - borrow, 256);
}

/// Comparison: the carry is set exactly when the register is not below the value, and the
/// zero flag exactly when they are equal.
pub proof fn law_compare(status: StatusFlags, register: u8, value: u8)
    ensures
        compare(status, register, value).c == (register >= value),
        compare(status, register, value).z == (register == value),
{
    lemma_wrap8(register - value);
}

/// A byte that holds two decimal digits.
pub open spec fn is_bcd(v: u8) -> bool {
    v % 16 <= 9 && v / 16 <= 9
}

/// The number that a BCD byte stands for.
pub open spec fn bcd_value(v: u8) -> int {
    (v / 16) * 10 + v % 16
}

/// The digit-by-digit BCD sum of two BCD bytes is the BCD form of their decimal sum.
proof fn lemma_bcd_sum(a: u8, m: u8, c: int)
    requires
        is_bcd(a),
        is_bcd(m),
        0 <= c <= 1,
    ensures
        ({
            let r3 = super::alu::bcd_adjust(super::alu::bcd_sum(a, m, c));
            let sum = bcd_value(a) + bcd_value(m) + c;
            &&& is_bcd(wrap8(r3))
            &&& bcd_value(wrap8(r3)) == sum % 100
            &&& (r3 >= 0x100) == (sum >= 100)
        }),
{
    let r2 = super::alu::bcd_sum(a, m, c);
    let r3 = super::alu::bcd_adjust(r2);
    lemma_wrap8(r3);
    let al = a % 16;
    let ah = a / 16;
    let ml = m % 16;
    let mh = m / 16;
    assert(a - a % 16 == ah * 16);
    assert(m - m % 16 == mh * 16);
    let low = al + ml + c;
    let high = if low >= 10 { ah + mh + 1 } else { ah + mh };
    let low_digit = if low >= 10 { low - 10 } else { low };
    assert(r2 == high * 16 + low_digit);
    let sum = ah * 10 + al + mh * 10 + ml + c;
    assert(sum == high * 10 + low_digit);
    let out_high = if high >= 10 { high - 10 } else { high };
    assert(r3 % 256 == out_high * 16 + low_digit);
    assert((out_high * 16 + low_digit) / 16 == out_high);
    assert((out_high * 16 + low_digit) % 16 == low_digit);
}

/// Decimal mode adds decimal numbers: on BCD operands the accumulator becomes the BCD form of
/// the sum modulo 100, and the carry tells whether the sum reached 100.
pub proof fn law_add_decimal<B: BusComponent>(s: Cpu6502State<B::V>, m: u8)
    requires
        s.enable_decimal_mode,
        s.status.d,
        is_bcd(s.a),
        is_bcd(m),
    ensures
        ({
            let (_, s1) = Cpu6502::<B>::spec_adc(s, ExecutionData::Data(m));
            let sum = bcd_value(s.a) + bcd_value(m) + (if s.status.c { 1int } else { 0 });
            &&& is_bcd(s1.a)
            &&& bcd_value(s1.a) == sum % 100
            &&& s1.status.c == (sum >= 100)
        }),
{
    reveal(Cpu6502::spec_adc);
    lemma_bcd_sum(s.a, m, if s.status.c { 1int } else { 0 });
}

/// Reading the interrupt and reset vectors (0xFFFA-0xFFFF) changes nothing.
pub open spec fn vectors_are_plain<B: BusComponent>() -> bool {
    forall|m: B::V, a: u16| 0xFFFA <= a ==> #[trigger] B::after_read(m, a) == m
}

/// Returning from an interrupt: after an interrupt request that is taken (interrupts not
/// masked) or a non-maskable interrupt, an RTI brings back the program counter, the stack
/// pointer and the carry, zero, decimal, overflow and negative flags; the break and unused
/// flags come back clear and interrupts stay masked.
pub proof fn law_interrupt_then_return<B: BusComponent>(s: Cpu6502State<B::V>, nmi: bool)
    requires
        stack_is_memory::<B>(),
        vectors_are_plain::<B>(),
        nmi || !s.status.i,
    ensures
        ({
            let (_, s1) = if nmi {
                Cpu6502::<B>::spec_nmi(s)
            } else {
                Cpu6502::<B>::spec_irq(s)
            };
            let (_, s2) = Cpu6502::<B>::spec_rti(s1);
            &&& s2.pc == s.pc
            &&& s2.sp == s.sp
            &&& s2.status == (StatusFlags { b: false, u: false, i: true, ..s.status })
        }),
{
    reveal(Cpu6502::spec_rti);
    let vector = if nmi {
        NMI_VECTOR
    } else {
        IRQ_VECTOR
    };
    let status = StatusFlags { b: false, u: true, i: true, ..s.status };
    let hi = (s.pc / 256) as u8;
    let lo = (s.pc % 256) as u8;
    let bits = status.spec_bits();
    let a1 = (STACK_BASE + s.sp) as u16;
    let sp1 = wrap8(s.sp - 1);
    let a2 = (STACK_BASE + sp1) as u16;
    let sp2 = wrap8(sp1 - 1);
    let a3 = (STACK_BASE + sp2) as u16;
    let sp3 = wrap8(sp2 - 1);
    lemma_wrap8(s.sp - 1);
    lemma_wrap8(sp1 - 1);
    lemma_wrap8(sp2 - 1);
    lemma_wrap8(sp3 + 1);
    lemma_wrap8(sp2 + 1);
    lemma_wrap8(sp1 + 1);
    let m1 = B::after_write(s.bus, a1, hi);
    let m2 = B::after_write(m1, a2, lo);
    let m3 = B::after_write(m2, a3, bits);
    assert(a1 != a2 && a2 != a3 && a1 != a3);
    let v2 = wrap16(vector + 1);
    reveal(wrap16);
    assert(B::after_read(m3, vector) == m3);
    assert(B::after_read(m3, v2) == m3);
    assert(B::read_value(m3, a3) == bits);
    assert(B::after_read(m3, a3) == m3);
    assert(B::read_value(m3, a2) == B::read_value(m2, a2));
    assert(B::read_value(m2, a2) == lo);
    assert(B::after_read(m3, a2) == m3);
    assert(B::read_value(m3, a1) == B::read_value(m2, a1));
    assert(B::read_value(m2, a1) == B::read_value(m1, a1));
    assert(B::read_value(m1, a1) == hi);
    law_status_bits_roundtrip(status, 0);
    assert(lo + 256 * hi == s.pc);
}

/// Bit `i` of a byte.
pub open spec fn bit_of(v: u8, i: u8) -> bool {
    (v >> i) & 1 == 1
}

/// Exclusive or: after EOR with an operand `m`, bit `i` of the accumulator is set exactly
/// when one, and only one, of bit `i` of the old accumulator and bit `i` of `m` is set. EOR
/// with the same operand twice gives the accumulator back, and the other registers stay.
pub proof fn law_eor_is_exclusive_or<B: BusComponent>(s: Cpu6502State<B::V>, m: u8)
    ensures
        ({
            let (_, s1) = Cpu6502::<B>::spec_eor(s, ExecutionData::Data(m));
            let (_, s2) = Cpu6502::<B>::spec_eor(s1, ExecutionData::Data(m));
            &&& forall|i: u8| i < 8 ==> #[trigger] bit_of(s1.a, i) == (bit_of(s.a, i) != bit_of(m, i))
            &&& s2.a == s.a
            &&& s1.x == s.x && s1.y == s.y && s1.sp == s.sp && s1.pc == s.pc
        }),
{
    reveal(Cpu6502::spec_eor);
    let a = s.a;
    let r = s.a ^ m;
    assert forall|i: u8| i < 8 implies #[trigger] bit_of(r, i) == (bit_of(a, i) != bit_of(m, i)) by {
        assert(((r >> i) & 1 == 1) == (((a >> i) & 1 == 1) != ((m >> i) & 1 == 1))) by (bit_vector)
            requires
                r == a ^ m,
                i < 8,
        ;
    }
    assert((r ^ m) == a) by (bit_vector)
        requires
            r == a ^ m,
    ;
}

/// While interrupts are masked an interrupt request takes no cycles and changes nothing.
pub proof fn law_masked_irq<B: BusComponent>(s: Cpu6502State<B::V>)
    requires
        s.status.i,
    ensures
        Cpu6502::<B>::spec_irq(s) == (0u32, s),
{
}

} // verus!
