//! The register set of the WDC 65C816, the 16-bit successor of the 6502.
use vstd::prelude::*;

verus! {

/// A 16-bit register whose halves can be read on their own.
#[derive(Clone, Copy, PartialEq, Eq, Debug, Structural)]
pub struct Register {
    pub full: u16,
}

impl Register {
    pub fn new() -> (r: Self)
        ensures
            r.full == 0,
    {
        Self { full: 0 }
    }

    /// The low byte
    pub fn lo(&self) -> (r: u8)
        ensures
            r == self.full % 256,
    {
        (self.full % 256) as u8
    }

    /// The high byte
    pub fn hi(&self) -> (r: u8)
        ensures
            r == self.full / 256,
    {
        (self.full / 256) as u8
    }

    /// Replaces the low byte, keeping the high one.
    pub fn set_lo(&mut self, value: u8)
        ensures
            final(self).full == old(self).full / 256 * 256 + value,
    {
        self.full = (self.full / 256) * 256 + value as u16;
    }

    /// Replaces the high byte, keeping the low one.
    pub fn set_hi(&mut self, value: u8)
        ensures
            final(self).full == value * 256 + old(self).full % 256,
    {
        self.full = (value as u16) * 256 + self.full % 256;
    }
}

/// The status register of the 65C816 in native mode; in emulation mode the index and
/// memory select bits are the 6502's break and unused bits.
#[derive(Clone, Copy, PartialEq, Eq, Debug, Structural)]
pub struct StatusFlags65C816 {
    /// Carry
    pub c: bool,
    /// Zero
    pub z: bool,
    /// IRQ disable
    pub i: bool,
    /// Decimal mode
    pub d: bool,
    /// Index register select (break in emulation mode)
    pub x: bool,
    /// Memory select (unused in emulation mode)
    pub m: bool,
    /// Overflow
    pub v: bool,
    /// Negative
    pub n: bool,
}

/// How a 65C816 instruction finds its operand.
#[derive(PartialEq, Eq, Clone, Copy, Debug, Structural)]
pub enum AddressingMode65C816 {
    /// Implied
    IMP,
    /// Immediate byte
    IMB,
    /// Immediate word
    IMW,
    /// Zero-page
    ZP0,
    /// Zero-page + relative offset
    ZPR,
    /// Zero-page + X register offset
    ZPX,
    /// Zero-page + Y register offset
    ZPY,
    /// Relative byte
    REB,
    /// Relative word
    REW,
    /// Absolute
    ABS,
    /// Absolute long
    ABL,
    /// Absolute + X register offset
    ABX,
    /// Absolute + Y register offset
    ABY,
    /// Absolute long + X register offset
    ALX,
    /// Indirect
    IND,
    /// Indirect long
    INL,
    /// Indirect zero page
    IZP,
    /// Indirect (zero-page + X register offset)
    IZX,
    /// (Indirect zero-page) + Y register offset
    IZY,
    /// Indirect + X register offset
    IAX,
}

#[derive(Clone, Copy, Debug)]
pub struct Asm65C816Instruction {}

pub const COP_VECTOR_NAT: u32 = 0xFFE4;
pub const BRK_VECTOR_NAT: u32 = 0xFFE6;
pub const ABORT_VECTOR_NAT: u32 = 0xFFE8;
pub const NMI_VECTOR_NAT: u32 = 0xFFEA;
pub const IRQ_VECTOR_NAT: u32 = 0xFFEE;
pub const COP_VECTOR_EMU: u32 = 0xFFF4;
pub const ABORT_VECTOR_EMU: u32 = 0xFFF8;
pub const NMI_VECTOR_EMU: u32 = 0xFFFA;
pub const IRQ_BRK_VECTOR_EMU: u32 = 0xFFFE;
pub const RESET_VECTOR: u32 = 0xFFFC;

/// A WDC 65C816 processor connected to a bus with 24-bit addresses.
pub struct Cpu65C816<B> {
    /// Accumulator
    pub a: Register,
    /// X index register
    pub x: Register,
    /// Y index register
    pub y: Register,
    /// Stack pointer
    pub sp: Register,
    /// Direct page register
    pub dp: Register,
    /// Data bank
    pub db: u8,
    /// Program bank
    pub pb: u8,
    /// Program counter
    pub pc: u16,
    /// Status register
    pub status: StatusFlags65C816,
    /// Emulation mode flag
    pub emulation_mode: bool,
    pub bus: B,
}

impl<B> Cpu65C816<B> {
    /// A processor with all registers cleared, in native mode.
    pub fn new(bus: B) -> (r: Self)
        ensures
            r.a.full == 0 && r.x.full == 0 && r.y.full == 0 && r.sp.full == 0 && r.dp.full == 0,
            r.db == 0 && r.pb == 0 && r.pc == 0,
            r.status == (StatusFlags65C816 {
                c: false,
                z: false,
                i: false,
                d: false,
                x: false,
                m: false,
                v: false,
                n: false,
            }),
            !r.emulation_mode,
            r.bus == bus,
    {
        Self {
            a: Register::new(),
            x: Register::new(),
            y: Register::new(),
            sp: Register::new(),
            dp: Register::new(),
            db: 0,
            pb: 0,
            pc: 0,
            status: StatusFlags65C816 {
                c: false,
                z: false,
                i: false,
                d: false,
                x: false,
                m: false,
                v: false,
                n: false,
            },
            emulation_mode: false,
            bus,
        }
    }

    /// Clears the accumulator and index registers and enters emulation mode; a reset
    /// takes 8 cycles.
    pub fn reset(&mut self) -> (r: u32)
        ensures
            r == 8,
            final(self).a.full == 0 && final(self).x.full == 0 && final(self).y.full == 0,
            final(self).emulation_mode,
            final(self).sp == old(self).sp && final(self).dp == old(self).dp,
            final(self).db == old(self).db && final(self).pb == old(self).pb,
            final(self).pc == old(self).pc && final(self).status == old(self).status,
            final(self).bus == old(self).bus,
    {
        self.a.full = 0;
        self.x.full = 0;
        self.y.full = 0;
        self.emulation_mode = true;

        8
    }
}

} // verus!
