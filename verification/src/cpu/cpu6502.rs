use crate::bits::{
    group_wrapping, wrap16, wrap8,
    lemma_not_byte, lemma_sign_rule, lemma_wrap8, lemma_u16_parts, lemma_bit0, lemma_bit7, lemma_page, lemma_page_join, lemma_same_page, lemma_shift1,
    lemma_sign_extend, lemma_word,
};
use crate::bus::{BusComponent, AddressRange};
use super::alu::{
    bcd_add, bcd_adjust, bcd_difference, bcd_subtract, bcd_sum, bit7_of, rotate_byte_left,
    rotate_byte_right, rotate_left, rotate_right, shift_left, shift_right, sign_overflow, signed,
};
use super::tables::{lookup_6502, lookup_65c02, spec_lookup_6502, spec_lookup_65c02};
use vstd::prelude::*;

verus! {

broadcast use group_wrapping;

/// Stack base address
pub const STACK_BASE: u16 = 0x0100;

/// Where to load the program counter from when an interrupt occurs
pub const IRQ_VECTOR: u16 = 0xFFFE;

/// Where to load the program counter from when a non-maskable interrupt occurs
pub const NMI_VECTOR: u16 = 0xFFFA;

/// Where to load the program counter from when a reset occurs
pub const RESET_VECTOR: u16 = 0xFFFC;

/// The initial top of the stack
pub const SP_INIT: u8 = 0xFD;

/// The little-endian word made of two bytes.
pub open spec fn word_of(lo: u8, hi: u8) -> u16 {
    (lo + 256 * hi) as u16
}

/// The processor status register.
#[derive(Clone, Copy, PartialEq, Eq, Debug, Structural)]
pub struct StatusFlags {
    /// Carry
    pub c: bool,
    /// Zero
    pub z: bool,
    /// IRQ disable
    pub i: bool,
    /// Decimal mode
    pub d: bool,
    /// Break
    pub b: bool,
    /// Unused
    pub u: bool,
    /// Overflow
    pub v: bool,
    /// Negative
    pub n: bool,
}

pub open spec fn flag_bit(f: bool, mask: u8) -> u8 {
    if f {
        mask
    } else {
        0
    }
}

impl StatusFlags {
    pub open spec fn spec_bits(self) -> u8 {
        flag_bit(self.c, 0x01) | flag_bit(self.z, 0x02) | flag_bit(self.i, 0x04) | flag_bit(
            self.d,
            0x08,
        ) | flag_bit(self.b, 0x10) | flag_bit(self.u, 0x20) | flag_bit(self.v, 0x40) | flag_bit(
            self.n,
            0x80,
        )
    }

    pub open spec fn spec_from_bits(value: u8) -> StatusFlags {
        StatusFlags {
            c: value & 0x01 != 0,
            z: value & 0x02 != 0,
            i: value & 0x04 != 0,
            d: value & 0x08 != 0,
            b: value & 0x10 != 0,
            u: value & 0x20 != 0,
            v: value & 0x40 != 0,
            n: value & 0x80 != 0,
        }
    }

    /// No flag set.
    pub fn empty() -> (r: Self)
        ensures
            r.spec_bits() == 0,
            !r.c && !r.z && !r.i && !r.d && !r.b && !r.u && !r.v && !r.n,
    {
        let r = StatusFlags { c: false, z: false, i: false, d: false, b: false, u: false, v: false, n: false };
        assert(0u8 | 0u8 | 0u8 | 0u8 | 0u8 | 0u8 | 0u8 | 0u8 == 0) by (bit_vector);
        r
    }

    /// The register as a byte: carry in bit 0 up to negative in bit 7.
    pub fn bits(&self) -> (r: u8)
        ensures
            r == self.spec_bits(),
    {
        (if self.c { 0x01u8 } else { 0 }) | (if self.z { 0x02u8 } else { 0 }) | (if self.i {
            0x04u8
        } else {
            0
        }) | (if self.d { 0x08u8 } else { 0 }) | (if self.b { 0x10u8 } else { 0 }) | (if self.u {
            0x20u8
        } else {
            0
        }) | (if self.v { 0x40u8 } else { 0 }) | (if self.n { 0x80u8 } else { 0 })
    }

    /// The register that a byte holds.
    pub fn from_bits(value: u8) -> (r: Self)
        ensures
            r == Self::spec_from_bits(value),
    {
        StatusFlags {
            c: value & 0x01 != 0,
            z: value & 0x02 != 0,
            i: value & 0x04 != 0,
            d: value & 0x08 != 0,
            b: value & 0x10 != 0,
            u: value & 0x20 != 0,
            v: value & 0x40 != 0,
            n: value & 0x80 != 0,
        }
    }
}

/// The zero and negative flags as a value leaves them.
pub open spec fn with_zn(s: StatusFlags, value: u8) -> StatusFlags {
    StatusFlags { z: value == 0, n: value >= 0x80, ..s }
}

/// How an instruction finds its operand.
#[derive(PartialEq, Eq, Clone, Copy, Debug, Structural)]
pub enum AddressingMode {
    /// Implied
    IMP,
    /// Immediate
    IMM,
    /// Zero-page
    ZP0,
    /// Zero-page + relative offset
    ZPR,
    /// Zero-page + X register offset
    ZPX,
    /// Zero-page + Y register offset
    ZPY,
    /// Relative
    REL,
    /// Absolute
    ABS,
    /// Absolute + X register offset
    ABX,
    /// Absolute + Y register offset
    ABY,
    /// Indirect
    IND,
    /// Indirect zero page
    IZP,
    /// Indirect (zero-page + X register offset)
    IZX,
    /// (Indirect zero-page) + Y register offset
    IZY,
    /// Indirect + X register offset
    IAX,
}

#[derive(PartialEq, Eq, Clone, Copy, Debug, Structural)]
pub enum BaseInstruction {
    LDA,
    LDX,
    LDY,
    STA,
    STX,
    STY,
    TAX,
    TAY,
    TXA,
    TYA,
    TSX,
    TXS,
    PHA,
    PHP,
    PLA,
    PLP,
    AND,
    EOR,
    ORA,
    BIT,
    ADC,
    SBC,
    CMP,
    CPX,
    CPY,
    INC,
    INX,
    INY,
    DEC,
    DEX,
    DEY,
    ASL,
    LSR,
    ROL,
    ROR,
    JMP,
    JSR,
    RTS,
    BCC,
    BCS,
    BEQ,
    BMI,
    BNE,
    BPL,
    BVC,
    BVS,
    CLC,
    CLD,
    CLI,
    CLV,
    SEC,
    SED,
    SEI,
    BRK,
    NOP,
    RTI,
    // Undocumented instructions
    SLO,
    ANC,
    RLA,
    SRE,
    ALR,
    RRA,
    ARR,
    SAX,
    XAA,
    AHX,
    TAS,
    SHY,
    SHX,
    LAX,
    LAS,
    DCP,
    AXS,
    ISC,
    HLT,
    // 65C02 instructions
    BRA,
    PHX,
    PHY,
    PLX,
    PLY,
    STZ,
    TRB,
    TSB,
    BBR0,
    BBR1,
    BBR2,
    BBR3,
    BBR4,
    BBR5,
    BBR6,
    BBR7,
    BBS0,
    BBS1,
    BBS2,
    BBS3,
    BBS4,
    BBS5,
    BBS6,
    BBS7,
    RMB0,
    RMB1,
    RMB2,
    RMB3,
    RMB4,
    RMB5,
    RMB6,
    RMB7,
    SMB0,
    SMB1,
    SMB2,
    SMB3,
    SMB4,
    SMB5,
    SMB6,
    SMB7,
}

/// What an instruction needs of its operand.
pub enum OperandUse {
    /// Nothing
    Unused,
    /// A value, read from the operand
    Value,
    /// An address, to write to or to jump to
    Address,
    /// Either the accumulator (implied mode) or an address
    AccumulatorOrAddress,
    /// The processor halts
    Halt,
}

impl BaseInstruction {
    pub open spec fn operand_use(self) -> OperandUse {
        match self {
            BaseInstruction::LDA | BaseInstruction::LDX | BaseInstruction::LDY
            | BaseInstruction::AND | BaseInstruction::EOR | BaseInstruction::ORA
            | BaseInstruction::BIT | BaseInstruction::ADC | BaseInstruction::SBC
            | BaseInstruction::CMP | BaseInstruction::CPX | BaseInstruction::CPY
            | BaseInstruction::ANC | BaseInstruction::ALR | BaseInstruction::ARR
            | BaseInstruction::XAA | BaseInstruction::LAX | BaseInstruction::LAS
            | BaseInstruction::AXS => OperandUse::Value,
            BaseInstruction::STA | BaseInstruction::STX | BaseInstruction::STY
            | BaseInstruction::SAX | BaseInstruction::STZ | BaseInstruction::SLO
            | BaseInstruction::RLA | BaseInstruction::SRE | BaseInstruction::RRA
            | BaseInstruction::DCP | BaseInstruction::ISC | BaseInstruction::AHX
            | BaseInstruction::TAS | BaseInstruction::SHY | BaseInstruction::SHX
            | BaseInstruction::TRB | BaseInstruction::TSB | BaseInstruction::JMP
            | BaseInstruction::JSR | BaseInstruction::BCC | BaseInstruction::BCS
            | BaseInstruction::BEQ | BaseInstruction::BMI | BaseInstruction::BNE
            | BaseInstruction::BPL | BaseInstruction::BVC | BaseInstruction::BVS
            | BaseInstruction::BRA | BaseInstruction::BBR0 | BaseInstruction::BBR1
            | BaseInstruction::BBR2 | BaseInstruction::BBR3 | BaseInstruction::BBR4
            | BaseInstruction::BBR5 | BaseInstruction::BBR6 | BaseInstruction::BBR7
            | BaseInstruction::BBS0 | BaseInstruction::BBS1 | BaseInstruction::BBS2
            | BaseInstruction::BBS3 | BaseInstruction::BBS4 | BaseInstruction::BBS5
            | BaseInstruction::BBS6 | BaseInstruction::BBS7 | BaseInstruction::RMB0
            | BaseInstruction::RMB1 | BaseInstruction::RMB2 | BaseInstruction::RMB3
            | BaseInstruction::RMB4 | BaseInstruction::RMB5 | BaseInstruction::RMB6
            | BaseInstruction::RMB7 | BaseInstruction::SMB0 | BaseInstruction::SMB1
            | BaseInstruction::SMB2 | BaseInstruction::SMB3 | BaseInstruction::SMB4
            | BaseInstruction::SMB5 | BaseInstruction::SMB6 | BaseInstruction::SMB7 => OperandUse::Address,
            BaseInstruction::INC | BaseInstruction::DEC | BaseInstruction::ASL
            | BaseInstruction::LSR | BaseInstruction::ROL | BaseInstruction::ROR => OperandUse::AccumulatorOrAddress,
            BaseInstruction::HLT => OperandUse::Halt,
            _ => OperandUse::Unused,
        }
    }
}

/// An instruction: the operation, its addressing mode, its base cycle count, and whether
/// crossing a page costs a cycle more.
#[derive(PartialEq, Eq, Clone, Copy, Debug, Structural)]
pub struct Instruction(pub BaseInstruction, pub AddressingMode, pub u32, pub bool);

impl Instruction {
    /// The operation can be carried out on the operand that the addressing mode yields.
    pub open spec fn well_formed(self) -> bool {
        &&& 1 <= self.2 <= 8
        &&& match self.0.operand_use() {
            OperandUse::Unused => true,
            OperandUse::Value => self.1 != AddressingMode::IMP,
            OperandUse::Address => self.1 != AddressingMode::IMP && self.1 != AddressingMode::IMM,
            OperandUse::AccumulatorOrAddress => self.1 != AddressingMode::IMM,
            OperandUse::Halt => false,
        }
    }
}

/// The operand of an instruction as it is executed.
#[derive(PartialEq, Eq, Clone, Copy, Debug, Structural)]
pub enum ExecutionData {
    /// No operand: the instruction works on registers alone
    Implied,
    Data(u8),
    Address(u16),
    AddressPair(u16, u16),
}

/// The operand bytes of an instruction as they stand after its op code.
#[derive(PartialEq, Eq, Clone, Copy, Debug, Structural)]
pub enum InstructionData {
    IMP,
    IMM(u8),
    ZP0(u8),
    ZPR(u8, u8),
    ZPX(u8),
    ZPY(u8),
    REL(u8),
    ABS(u16),
    ABX(u16),
    ABY(u16),
    IND(u16),
    IZP(u8),
    IZX(u8),
    IZY(u8),
    IAX(u16),
}

/// The operand that an addressing mode yields.
pub open spec fn mode_yields(mode: AddressingMode, data: ExecutionData) -> bool {
    match mode {
        AddressingMode::IMP => data is Implied,
        AddressingMode::IMM => data is Data,
        AddressingMode::ZPR => data is AddressPair,
        _ => data is Address,
    }
}

/// The operand fits what the operation needs of it.
pub open spec fn data_fits(base: BaseInstruction, data: ExecutionData) -> bool {
    match base.operand_use() {
        OperandUse::Unused => true,
        OperandUse::Value => !(data is Implied),
        OperandUse::Address => data is Address || data is AddressPair,
        OperandUse::AccumulatorOrAddress => !(data is Data),
        OperandUse::Halt => false,
    }
}

/// The register set of a 6502, with the state of its bus.
pub struct Cpu6502State<M> {
    pub a: u8,
    pub x: u8,
    pub y: u8,
    pub sp: u8,
    pub pc: u16,
    pub status: StatusFlags,
    pub bus: M,
    pub emulate_indirect_jmp_bug: bool,
    pub emulate_invalid_decimal_flags: bool,
    pub enable_decimal_mode: bool,
}

/// A MOS 6502 processor connected to a bus.
pub struct Cpu6502<B> {
    /// Accumulator
    pub a: u8,
    /// X index register
    pub x: u8,
    /// Y index register
    pub y: u8,
    /// Stack pointer
    pub sp: u8,
    /// Program counter
    pub pc: u16,
    /// Status register
    pub status: StatusFlags,
    pub bus: B,
    pub emulate_indirect_jmp_bug: bool,
    pub emulate_invalid_decimal_flags: bool,
    pub enable_decimal_mode: bool,
}

impl<B: BusComponent> View for Cpu6502<B> {
    type V = Cpu6502State<B::V>;

    open spec fn view(&self) -> Cpu6502State<B::V> {
        Cpu6502State {
            a: self.a,
            x: self.x,
            y: self.y,
            sp: self.sp,
            pc: self.pc,
            status: self.status,
            bus: self.bus@,
            emulate_indirect_jmp_bug: self.emulate_indirect_jmp_bug,
            emulate_invalid_decimal_flags: self.emulate_invalid_decimal_flags,
            enable_decimal_mode: self.enable_decimal_mode,
        }
    }
}

/// A range at which a component answers for any address whatever.
pub open spec fn answers_everywhere(range: Option<AddressRange>) -> bool {
    match range {
        Some(r) => r.spec_len() == 0,
        None => true,
    }
}

impl<B: BusComponent> Cpu6502<B> {
    /// The bus is well formed and answers reads and writes at every address.
    pub open spec fn bus_ok(m: B::V) -> bool {
        &&& B::wf(m)
        &&& answers_everywhere(B::read_range_of(m))
        &&& answers_everywhere(B::write_range_of(m))
    }

    pub open spec fn spec_read(s: Cpu6502State<B::V>, address: u16) -> (u8, Cpu6502State<B::V>) {
        (B::read_value(s.bus, address), Cpu6502State { bus: B::after_read(s.bus, address), ..s })
    }

    pub open spec fn spec_write(s: Cpu6502State<B::V>, address: u16, data: u8) -> Cpu6502State<
        B::V,
    > {
        Cpu6502State { bus: B::after_write(s.bus, address, data), ..s }
    }

    pub open spec fn spec_read_next_word(s: Cpu6502State<B::V>) -> (u8, Cpu6502State<B::V>) {
        let (v, s1) = Self::spec_read(s, s.pc);
        (v, Cpu6502State { pc: wrap16(s.pc + 1), ..s1 })
    }

    pub open spec fn spec_read_next_address(s: Cpu6502State<B::V>) -> (u16, Cpu6502State<B::V>) {
        let (lo, s1) = Self::spec_read_next_word(s);
        let (hi, s2) = Self::spec_read_next_word(s1);
        (word_of(lo, hi), s2)
    }

    pub open spec fn spec_read_address(s: Cpu6502State<B::V>, address: u16) -> (
        u16,
        Cpu6502State<B::V>,
    ) {
        let (lo, s1) = Self::spec_read(s, address);
        let (hi, s2) = Self::spec_read(s1, wrap16(address + 1));
        (word_of(lo, hi), s2)
    }

    /// The address that an indirect jump reads its high byte from: with the NMOS
    /// processor's bug, the next address wraps within the page.
    #[verifier::opaque]
    pub open spec fn indirect_hi_address(s: Cpu6502State<B::V>, address: u16) -> u16 {
        if s.emulate_indirect_jmp_bug {
            (address - address % 256 + (address + 1) % 256) as u16
        } else {
            wrap16(address + 1)
        }
    }

    pub open spec fn spec_read_address_ind(s: Cpu6502State<B::V>, address: u16) -> (
        u16,
        Cpu6502State<B::V>,
    ) {
        let (lo, s1) = Self::spec_read(s, address);
        let (hi, s2) = Self::spec_read(s1, Self::indirect_hi_address(s, address));
        (word_of(lo, hi), s2)
    }

    pub open spec fn spec_push_word(s: Cpu6502State<B::V>, data: u8) -> Cpu6502State<B::V> {
        let address = (STACK_BASE + s.sp) as u16;
        Self::spec_write(Cpu6502State { sp: wrap8(s.sp - 1), ..s }, address, data)
    }

    pub open spec fn spec_pop_word(s: Cpu6502State<B::V>) -> (u8, Cpu6502State<B::V>) {
        let sp = wrap8(s.sp + 1);
        Self::spec_read(Cpu6502State { sp, ..s }, (STACK_BASE + sp) as u16)
    }

    pub open spec fn spec_push_address(s: Cpu6502State<B::V>, data: u16) -> Cpu6502State<B::V> {
        Self::spec_push_word(Self::spec_push_word(s, (data / 256) as u8), (data % 256) as u8)
    }

    pub open spec fn spec_pop_address(s: Cpu6502State<B::V>) -> (u16, Cpu6502State<B::V>) {
        let (lo, s1) = Self::spec_pop_word(s);
        let (hi, s2) = Self::spec_pop_word(s1);
        (word_of(lo, hi), s2)
    }
}

impl<B: BusComponent> Cpu6502<B> {
    /// A processor with cleared registers on `bus`; the NMOS quirks are emulated.
    pub fn new(bus: B, enable_decimal_mode: bool) -> (r: Self)
        ensures
            r@ == (Cpu6502State {
                a: 0,
                x: 0,
                y: 0,
                sp: 0,
                pc: 0,
                status: StatusFlags {
                    c: false,
                    z: false,
                    i: false,
                    d: false,
                    b: false,
                    u: false,
                    v: false,
                    n: false,
                },
                bus: bus@,
                emulate_indirect_jmp_bug: true,
                emulate_invalid_decimal_flags: true,
                enable_decimal_mode,
            }),
    {
        Self {
            a: 0,
            x: 0,
            y: 0,
            sp: 0,
            pc: 0,
            status: StatusFlags::empty(),
            bus,
            emulate_indirect_jmp_bug: true,
            emulate_invalid_decimal_flags: true,
            enable_decimal_mode,
        }
    }

    pub(crate) fn read_word(&mut self, address: u16) -> (r: u8)
        requires
            Self::bus_ok(old(self)@.bus),
        ensures
            Self::bus_ok(final(self)@.bus),
            (r, final(self)@) == Self::spec_read(old(self)@, address),
    {
        self.bus.read(address)
    }

    pub(crate) fn write_word(&mut self, address: u16, data: u8)
        requires
            Self::bus_ok(old(self)@.bus),
        ensures
            Self::bus_ok(final(self)@.bus),
            final(self)@ == Self::spec_write(old(self)@, address, data),
    {
        self.bus.write(address, data)
    }

    pub(crate) fn read_next_word(&mut self) -> (r: u8)
        requires
            Self::bus_ok(old(self)@.bus),
        ensures
            Self::bus_ok(final(self)@.bus),
            (r, final(self)@) == Self::spec_read_next_word(old(self)@),
    {
        let result = self.bus.read(self.pc);
        self.pc = self.pc.wrapping_add(1);
        result
    }

    pub(crate) fn read_next_address(&mut self) -> (r: u16)
        requires
            Self::bus_ok(old(self)@.bus),
        ensures
            Self::bus_ok(final(self)@.bus),
            (r, final(self)@) == Self::spec_read_next_address(old(self)@),
    {
        let lo = self.read_next_word();
        let hi = self.read_next_word();
        proof {
            lemma_word(lo, hi);
        }
        (lo as u16) | ((hi as u16) << 8)
    }

    pub(crate) fn read_address(&mut self, address: u16) -> (r: u16)
        requires
            Self::bus_ok(old(self)@.bus),
        ensures
            Self::bus_ok(final(self)@.bus),
            (r, final(self)@) == Self::spec_read_address(old(self)@, address),
    {
        let lo = self.bus.read(address);
        let hi = self.bus.read(address.wrapping_add(1));
        proof {
            lemma_word(lo, hi);
        }
        (lo as u16) | ((hi as u16) << 8)
    }

    pub(crate) fn read_address_ind(&mut self, address: u16) -> (r: u16)
        requires
            Self::bus_ok(old(self)@.bus),
        ensures
            Self::bus_ok(final(self)@.bus),
            (r, final(self)@) == Self::spec_read_address_ind(old(self)@, address),
    {
        if self.emulate_indirect_jmp_bug {
            // The NMOS processor's page-wrap bug
            let page = address & 0xFF00;
            let hi_address = (address.wrapping_add(1) & 0x00FF) | page;
            proof {
                lemma_page_join(address, address.wrapping_add(1));
                reveal(Cpu6502::indirect_hi_address);
            }
            let lo = self.bus.read(address);
            let hi = self.bus.read(hi_address);
            proof {
                lemma_word(lo, hi);
            }
            (lo as u16) | ((hi as u16) << 8)
        } else {
            proof {
                reveal(Cpu6502::indirect_hi_address);
            }
            self.read_address(address)
        }
    }

    pub(crate) fn set_zn_flags(&mut self, value: u8)
        ensures
            final(self)@ == (Cpu6502State { status: with_zn(old(self)@.status, value), ..old(self)@ }),
    {
        proof {
            lemma_bit7(value);
        }
        self.status.z = value == 0;
        self.status.n = (value & 0x80) != 0;
    }

    pub(crate) fn push_word(&mut self, data: u8)
        requires
            Self::bus_ok(old(self)@.bus),
        ensures
            Self::bus_ok(final(self)@.bus),
            final(self)@ == Self::spec_push_word(old(self)@, data),
    {
        let address = STACK_BASE + (self.sp as u16);
        self.sp = self.sp.wrapping_sub(1);
        self.write_word(address, data);
    }

    pub(crate) fn pop_word(&mut self) -> (r: u8)
        requires
            Self::bus_ok(old(self)@.bus),
        ensures
            Self::bus_ok(final(self)@.bus),
            (r, final(self)@) == Self::spec_pop_word(old(self)@),
    {
        self.sp = self.sp.wrapping_add(1);
        let address = STACK_BASE + (self.sp as u16);
        self.read_word(address)
    }

    pub(crate) fn push_address(&mut self, data: u16)
        requires
            Self::bus_ok(old(self)@.bus),
        ensures
            Self::bus_ok(final(self)@.bus),
            final(self)@ == Self::spec_push_address(old(self)@, data),
    {
        proof {
            lemma_page(data);
        }
        let hi = ((data & 0xFF00) >> 8) as u8;
        let lo = (data & 0x00FF) as u8;
        self.push_word(hi);
        self.push_word(lo);
    }

    pub(crate) fn pop_address(&mut self) -> (r: u16)
        requires
            Self::bus_ok(old(self)@.bus),
        ensures
            Self::bus_ok(final(self)@.bus),
            (r, final(self)@) == Self::spec_pop_address(old(self)@),
    {
        let lo = self.pop_word();
        let hi = self.pop_word();
        proof {
            lemma_word(lo, hi);
        }
        (lo as u16) | ((hi as u16) << 8)
    }
}

/// The target of a relative branch taken at `pc`, and whether it lies on another page.
#[verifier::opaque]
pub open spec fn relative_target(pc: u16, offset: u8) -> (u16, bool) {
    let target = wrap16(pc + signed(offset));
    (target, pc / 256 != target / 256)
}

/// An absolute address plus an index, and whether the sum lies on another page.
#[verifier::opaque]
pub open spec fn indexed(base: u16, index: u8) -> (u16, bool) {
    let target = wrap16(base + index);
    (target, base / 256 != target / 256)
}

impl<B: BusComponent> Cpu6502<B> {
    /// Reads the operand bytes that follow the op code, as the addressing mode has them.
    pub open spec fn spec_fetch_operands(s: Cpu6502State<B::V>, mode: AddressingMode) -> (
        InstructionData,
        Cpu6502State<B::V>,
    ) {
        match mode {
            AddressingMode::IMP => (InstructionData::IMP, s),
            AddressingMode::IMM => {
                let (v, s1) = Self::spec_read_next_word(s);
                (InstructionData::IMM(v), s1)
            },
            AddressingMode::ZP0 => {
                let (v, s1) = Self::spec_read_next_word(s);
                (InstructionData::ZP0(v), s1)
            },
            AddressingMode::ZPR => {
                let (z, s1) = Self::spec_read_next_word(s);
                let (r, s2) = Self::spec_read_next_word(s1);
                (InstructionData::ZPR(z, r), s2)
            },
            AddressingMode::ZPX => {
                let (v, s1) = Self::spec_read_next_word(s);
                (InstructionData::ZPX(v), s1)
            },
            AddressingMode::ZPY => {
                let (v, s1) = Self::spec_read_next_word(s);
                (InstructionData::ZPY(v), s1)
            },
            AddressingMode::REL => {
                let (v, s1) = Self::spec_read_next_word(s);
                (InstructionData::REL(v), s1)
            },
            AddressingMode::ABS => {
                let (a, s1) = Self::spec_read_next_address(s);
                (InstructionData::ABS(a), s1)
            },
            AddressingMode::ABX => {
                let (a, s1) = Self::spec_read_next_address(s);
                (InstructionData::ABX(a), s1)
            },
            AddressingMode::ABY => {
                let (a, s1) = Self::spec_read_next_address(s);
                (InstructionData::ABY(a), s1)
            },
            AddressingMode::IND => {
                let (a, s1) = Self::spec_read_next_address(s);
                (InstructionData::IND(a), s1)
            },
            AddressingMode::IZP => {
                let (v, s1) = Self::spec_read_next_word(s);
                (InstructionData::IZP(v), s1)
            },
            AddressingMode::IZX => {
                let (v, s1) = Self::spec_read_next_word(s);
                (InstructionData::IZX(v), s1)
            },
            AddressingMode::IZY => {
                let (v, s1) = Self::spec_read_next_word(s);
                (InstructionData::IZY(v), s1)
            },
            AddressingMode::IAX => {
                let (a, s1) = Self::spec_read_next_address(s);
                (InstructionData::IAX(a), s1)
            },
        }
    }

    /// Reads the operand bytes that stand at `address`, without moving the program counter.
    pub open spec fn spec_operands_at(
        s: Cpu6502State<B::V>,
        mode: AddressingMode,
        address: u16,
    ) -> (InstructionData, Cpu6502State<B::V>) {
        match mode {
            AddressingMode::IMP => (InstructionData::IMP, s),
            AddressingMode::IMM => {
                let (v, s1) = Self::spec_read(s, address);
                (InstructionData::IMM(v), s1)
            },
            AddressingMode::ZP0 => {
                let (v, s1) = Self::spec_read(s, address);
                (InstructionData::ZP0(v), s1)
            },
            AddressingMode::ZPR => {
                let (z, s1) = Self::spec_read(s, address);
                let (r, s2) = Self::spec_read(s1, wrap16(address + 1));
                (InstructionData::ZPR(z, r), s2)
            },
            AddressingMode::ZPX => {
                let (v, s1) = Self::spec_read(s, address);
                (InstructionData::ZPX(v), s1)
            },
            AddressingMode::ZPY => {
                let (v, s1) = Self::spec_read(s, address);
                (InstructionData::ZPY(v), s1)
            },
            AddressingMode::REL => {
                let (v, s1) = Self::spec_read(s, address);
                (InstructionData::REL(v), s1)
            },
            AddressingMode::ABS => {
                let (a, s1) = Self::spec_read_address(s, address);
                (InstructionData::ABS(a), s1)
            },
            AddressingMode::ABX => {
                let (a, s1) = Self::spec_read_address(s, address);
                (InstructionData::ABX(a), s1)
            },
            AddressingMode::ABY => {
                let (a, s1) = Self::spec_read_address(s, address);
                (InstructionData::ABY(a), s1)
            },
            AddressingMode::IND => {
                let (a, s1) = Self::spec_read_address(s, address);
                (InstructionData::IND(a), s1)
            },
            AddressingMode::IZP => {
                let (v, s1) = Self::spec_read(s, address);
                (InstructionData::IZP(v), s1)
            },
            AddressingMode::IZX => {
                let (v, s1) = Self::spec_read(s, address);
                (InstructionData::IZX(v), s1)
            },
            AddressingMode::IZY => {
                let (v, s1) = Self::spec_read(s, address);
                (InstructionData::IZY(v), s1)
            },
            AddressingMode::IAX => {
                let (a, s1) = Self::spec_read_address(s, address);
                (InstructionData::IAX(a), s1)
            },
        }
    }

    /// Turns operand bytes into the operand the instruction works on, and tells whether
    /// forming it crossed a page.
    pub open spec fn spec_resolve(s: Cpu6502State<B::V>, data: InstructionData) -> (
        ExecutionData,
        bool,
        Cpu6502State<B::V>,
    ) {
        match data {
            InstructionData::IMP => (ExecutionData::Implied, false, s),
            InstructionData::IMM(v) => (ExecutionData::Data(v), false, s),
            InstructionData::ZP0(z) => (ExecutionData::Address(z as u16), false, s),
            InstructionData::ZPR(z, r) => {
                let (target, crossed) = relative_target(s.pc, r);
                (ExecutionData::AddressPair(z as u16, target), crossed, s)
            },
            InstructionData::ZPX(z) => (ExecutionData::Address(wrap8(z + s.x) as u16), false, s),
            InstructionData::ZPY(z) => (ExecutionData::Address(wrap8(z + s.y) as u16), false, s),
            InstructionData::REL(r) => {
                let (target, crossed) = relative_target(s.pc, r);
                (ExecutionData::Address(target), crossed, s)
            },
            InstructionData::ABS(a) => (ExecutionData::Address(a), false, s),
            InstructionData::ABX(a) => {
                let (target, crossed) = indexed(a, s.x);
                (ExecutionData::Address(target), crossed, s)
            },
            InstructionData::ABY(a) => {
                let (target, crossed) = indexed(a, s.y);
                (ExecutionData::Address(target), crossed, s)
            },
            InstructionData::IND(a) => {
                let (target, s1) = Self::spec_read_address_ind(s, a);
                (ExecutionData::Address(target), false, s1)
            },
            InstructionData::IZP(z) => {
                let (target, s1) = Self::spec_read_address_ind(s, z as u16);
                (ExecutionData::Address(target), false, s1)
            },
            InstructionData::IZX(z) => {
                let (target, s1) = Self::spec_read_address_ind(s, wrap8(z + s.x) as u16);
                (ExecutionData::Address(target), false, s1)
            },
            InstructionData::IZY(z) => {
                let (base, s1) = Self::spec_read_address_ind(s, z as u16);
                let (target, crossed) = indexed(base, s.y);
                (ExecutionData::Address(target), crossed, s1)
            },
            InstructionData::IAX(a) => {
                let (target, s1) = Self::spec_read_address_ind(s, wrap16(a + s.x));
                (ExecutionData::Address(target), false, s1)
            },
        }
    }

    /// The value an operand stands for: the immediate byte, or what is read at its address.
    pub open spec fn spec_read_data(s: Cpu6502State<B::V>, data: ExecutionData) -> (
        u8,
        Cpu6502State<B::V>,
    ) {
        match data {
            ExecutionData::Data(v) => (v, s),
            ExecutionData::Address(a) => Self::spec_read(s, a),
            ExecutionData::AddressPair(a, _) => Self::spec_read(s, a),
            ExecutionData::Implied => (0, s),
        }
    }

    pub open spec fn spec_write_data(s: Cpu6502State<B::V>, data: ExecutionData, v: u8) -> Cpu6502State<B::V> {
        match data {
            ExecutionData::Address(a) => Self::spec_write(s, a, v),
            ExecutionData::AddressPair(a, _) => Self::spec_write(s, a, v),
            _ => s,
        }
    }
}

/// The address an operand designates as a jump target.
pub open spec fn data_address(data: ExecutionData) -> u16 {
    match data {
        ExecutionData::Address(a) => a,
        ExecutionData::AddressPair(_, a) => a,
        _ => 0,
    }
}

impl AddressingMode {
    /// Reads the operand bytes after the op code and advances the program counter past them.
    pub fn read_next<B: BusComponent>(&self, cpu: &mut Cpu6502<B>) -> (r: InstructionData)
        requires
            Cpu6502::<B>::bus_ok(old(cpu)@.bus),
        ensures
            Cpu6502::<B>::bus_ok(final(cpu)@.bus),
            (r, final(cpu)@) == Cpu6502::<B>::spec_fetch_operands(old(cpu)@, *self),
    {
        match self {
            AddressingMode::IMP => InstructionData::IMP,
            AddressingMode::IMM => InstructionData::IMM(cpu.read_next_word()),
            AddressingMode::ZP0 => InstructionData::ZP0(cpu.read_next_word()),
            AddressingMode::ZPR => {
                let z = cpu.read_next_word();
                let r = cpu.read_next_word();
                InstructionData::ZPR(z, r)
            },
            AddressingMode::ZPX => InstructionData::ZPX(cpu.read_next_word()),
            AddressingMode::ZPY => InstructionData::ZPY(cpu.read_next_word()),
            AddressingMode::REL => InstructionData::REL(cpu.read_next_word()),
            AddressingMode::ABS => InstructionData::ABS(cpu.read_next_address()),
            AddressingMode::ABX => InstructionData::ABX(cpu.read_next_address()),
            AddressingMode::ABY => InstructionData::ABY(cpu.read_next_address()),
            AddressingMode::IND => InstructionData::IND(cpu.read_next_address()),
            AddressingMode::IZP => InstructionData::IZP(cpu.read_next_word()),
            AddressingMode::IZX => InstructionData::IZX(cpu.read_next_word()),
            AddressingMode::IZY => InstructionData::IZY(cpu.read_next_word()),
            AddressingMode::IAX => InstructionData::IAX(cpu.read_next_address()),
        }
    }

    /// Reads the operand bytes that stand at `address`, as a disassembler does.
    pub fn read<B: BusComponent>(&self, cpu: &mut Cpu6502<B>, address: u16) -> (r: InstructionData)
        requires
            Cpu6502::<B>::bus_ok(old(cpu)@.bus),
        ensures
            Cpu6502::<B>::bus_ok(final(cpu)@.bus),
            (r, final(cpu)@) == Cpu6502::<B>::spec_operands_at(old(cpu)@, *self, address),
    {
        match self {
            AddressingMode::IMP => InstructionData::IMP,
            AddressingMode::IMM => InstructionData::IMM(cpu.read_word(address)),
            AddressingMode::ZP0 => InstructionData::ZP0(cpu.read_word(address)),
            AddressingMode::ZPR => {
                let z = cpu.read_word(address);
                let r = cpu.read_word(address.wrapping_add(1));
                InstructionData::ZPR(z, r)
            },
            AddressingMode::ZPX => InstructionData::ZPX(cpu.read_word(address)),
            AddressingMode::ZPY => InstructionData::ZPY(cpu.read_word(address)),
            AddressingMode::REL => InstructionData::REL(cpu.read_word(address)),
            AddressingMode::ABS => InstructionData::ABS(cpu.read_address(address)),
            AddressingMode::ABX => InstructionData::ABX(cpu.read_address(address)),
            AddressingMode::ABY => InstructionData::ABY(cpu.read_address(address)),
            AddressingMode::IND => InstructionData::IND(cpu.read_address(address)),
            AddressingMode::IZP => InstructionData::IZP(cpu.read_word(address)),
            AddressingMode::IZX => InstructionData::IZX(cpu.read_word(address)),
            AddressingMode::IZY => InstructionData::IZY(cpu.read_word(address)),
            AddressingMode::IAX => InstructionData::IAX(cpu.read_address(address)),
        }
    }
}

/// The target of a relative branch taken at `pc`, and whether it crosses a page.
fn rel_to_abs(pc: u16, rel_address: u8) -> (r: (u16, bool))
    ensures
        r == relative_target(pc, rel_address),
{
    let mut address = rel_address as u16;
    proof {
        lemma_sign_extend(rel_address);
        reveal(relative_target);
        reveal(wrap16);
    }
    // Handle the negative case
    if (address & 0x0080) != 0 {
        address = address | 0xFF00;
    }
    let abs_address = pc.wrapping_add(address);
    proof {
        lemma_same_page(pc, abs_address);
    }
    let page_before = pc & 0xFF00;
    let page_after = abs_address & 0xFF00;
    (abs_address, page_before != page_after)
}

/// An address plus an index register, and whether the sum crosses a page.
fn index_address(base: u16, index: u8) -> (r: (u16, bool))
    ensures
        r == indexed(base, index),
{
    let address_after = base.wrapping_add(index as u16);
    proof {
        lemma_same_page(base, address_after);
        reveal(indexed);
        reveal(wrap16);
    }
    let page_before = base & 0xFF00;
    let page_after = address_after & 0xFF00;
    (address_after, page_before != page_after)
}

impl InstructionData {
    /// The operand the instruction works on, and whether forming it crossed a page.
    pub fn to_execution_data<B: BusComponent>(&self, cpu: &mut Cpu6502<B>) -> (r: (
        ExecutionData,
        bool,
    ))
        requires
            Cpu6502::<B>::bus_ok(old(cpu)@.bus),
        ensures
            Cpu6502::<B>::bus_ok(final(cpu)@.bus),
            (r.0, r.1, final(cpu)@) == Cpu6502::<B>::spec_resolve(old(cpu)@, *self),
    {
        match self {
            InstructionData::IMP => (ExecutionData::Implied, false),
            InstructionData::IMM(data) => (ExecutionData::Data(*data), false),
            InstructionData::ZP0(zp_address) => (ExecutionData::Address(*zp_address as u16), false),
            InstructionData::ZPR(zp_address, rel_address) => {
                let (abs_address, page_crossed) = rel_to_abs(cpu.pc, *rel_address);
                (ExecutionData::AddressPair(*zp_address as u16, abs_address), page_crossed)
            },
            InstructionData::ZPX(zp_address) => (
                ExecutionData::Address(zp_address.wrapping_add(cpu.x) as u16),
                false,
            ),
            InstructionData::ZPY(zp_address) => (
                ExecutionData::Address(zp_address.wrapping_add(cpu.y) as u16),
                false,
            ),
            InstructionData::REL(rel_address) => {
                let (abs_address, page_crossed) = rel_to_abs(cpu.pc, *rel_address);
                (ExecutionData::Address(abs_address), page_crossed)
            },
            InstructionData::ABS(abs_address) => (ExecutionData::Address(*abs_address), false),
            InstructionData::ABX(abs_address) => {
                let (address_after, page_crossed) = index_address(*abs_address, cpu.x);
                (ExecutionData::Address(address_after), page_crossed)
            },
            InstructionData::ABY(abs_address) => {
                let (address_after, page_crossed) = index_address(*abs_address, cpu.y);
                (ExecutionData::Address(address_after), page_crossed)
            },
            _ => self.resolve_indirect(cpu),
        }
    }
}

impl InstructionData {
    /// The operand of an indirect addressing mode, read through the pointer it names.
    fn resolve_indirect<B: BusComponent>(&self, cpu: &mut Cpu6502<B>) -> (r: (ExecutionData, bool))
        requires
            Cpu6502::<B>::bus_ok(old(cpu)@.bus),
            *self is IND || *self is IZP || *self is IZX || *self is IZY || *self is IAX,
        ensures
            Cpu6502::<B>::bus_ok(final(cpu)@.bus),
            (r.0, r.1, final(cpu)@) == Cpu6502::<B>::spec_resolve(old(cpu)@, *self),
    {
        match self {
            InstructionData::IND(ind_address) => {
                let address = cpu.read_address_ind(*ind_address);
                (ExecutionData::Address(address), false)
            },
            InstructionData::IZP(ind_address) => {
                let address = cpu.read_address_ind(*ind_address as u16);
                (ExecutionData::Address(address), false)
            },
            InstructionData::IZX(ind_address) => {
                let address = cpu.read_address_ind(ind_address.wrapping_add(cpu.x) as u16);
                (ExecutionData::Address(address), false)
            },
            InstructionData::IZY(ind_address) => {
                let y = cpu.y;
                let address_before = cpu.read_address_ind(*ind_address as u16);
                let (address_after, page_crossed) = index_address(address_before, y);
                (ExecutionData::Address(address_after), page_crossed)
            },
            _ => {
                let x = cpu.x as u16;
                let ind_address = match self {
                    InstructionData::IAX(a) => *a,
                    _ => 0,
                };
                let address = cpu.read_address_ind(ind_address.wrapping_add(x));
                (ExecutionData::Address(address), false)
            },
        }
    }
}

impl ExecutionData {
    /// The value the operand stands for.
    pub fn read_data<B: BusComponent>(&self, cpu: &mut Cpu6502<B>) -> (r: u8)
        requires
            Cpu6502::<B>::bus_ok(old(cpu)@.bus),
            !(*self is Implied),
        ensures
            Cpu6502::<B>::bus_ok(final(cpu)@.bus),
            (r, final(cpu)@) == Cpu6502::<B>::spec_read_data(old(cpu)@, *self),
    {
        match self {
            ExecutionData::Data(data) => *data,
            ExecutionData::Address(address) => cpu.read_word(*address),
            ExecutionData::AddressPair(address, _) => cpu.read_word(*address),
            ExecutionData::Implied => 0,
        }
    }

    /// Writes `data` at the operand's address.
    pub fn write_data<B: BusComponent>(&self, cpu: &mut Cpu6502<B>, data: u8)
        requires
            Cpu6502::<B>::bus_ok(old(cpu)@.bus),
            *self is Address || *self is AddressPair,
        ensures
            Cpu6502::<B>::bus_ok(final(cpu)@.bus),
            final(cpu)@ == Cpu6502::<B>::spec_write_data(old(cpu)@, *self, data),
    {
        match self {
            ExecutionData::Address(address) => cpu.write_word(*address, data),
            ExecutionData::AddressPair(address, _) => cpu.write_word(*address, data),
            _ => {},
        }
    }

    /// The jump target the operand designates.
    pub fn read_address(&self) -> (r: u16)
        requires
            *self is Address || *self is AddressPair,
        ensures
            r == data_address(*self),
    {
        match self {
            ExecutionData::Address(address) => *address,
            ExecutionData::AddressPair(_, address) => *address,
            _ => 0,
        }
    }
}

/// The carry flag as a number.
pub open spec fn carry_in(status: StatusFlags) -> int {
    if status.c {
        1
    } else {
        0
    }
}

/// Compares a register with a value: carry when the register is not below it, and the
/// zero and negative flags of their difference.
pub open spec fn compare(status: StatusFlags, register: u8, value: u8) -> StatusFlags {
    with_zn(StatusFlags { c: register >= value, ..status }, wrap8(register - value))
}

impl BaseInstruction {
    /// The bit that BBRn, BBSn, RMBn and SMBn work on.
    pub open spec fn bit_index(self) -> u8 {
        match self {
            BaseInstruction::BBR0 | BaseInstruction::BBS0 | BaseInstruction::RMB0 | BaseInstruction::SMB0 => 0,
            BaseInstruction::BBR1 | BaseInstruction::BBS1 | BaseInstruction::RMB1 | BaseInstruction::SMB1 => 1,
            BaseInstruction::BBR2 | BaseInstruction::BBS2 | BaseInstruction::RMB2 | BaseInstruction::SMB2 => 2,
            BaseInstruction::BBR3 | BaseInstruction::BBS3 | BaseInstruction::RMB3 | BaseInstruction::SMB3 => 3,
            BaseInstruction::BBR4 | BaseInstruction::BBS4 | BaseInstruction::RMB4 | BaseInstruction::SMB4 => 4,
            BaseInstruction::BBR5 | BaseInstruction::BBS5 | BaseInstruction::RMB5 | BaseInstruction::SMB5 => 5,
            BaseInstruction::BBR6 | BaseInstruction::BBS6 | BaseInstruction::RMB6 | BaseInstruction::SMB6 => 6,
            _ => 7,
        }
    }
}

impl<B: BusComponent> Cpu6502<B> {
    /// Binary addition with carry: the accumulator becomes the sum modulo 256; carry when
    /// the sum exceeds a byte, overflow when the signed sum leaves -128..=127.
    pub open spec fn adc_binary(s: Cpu6502State<B::V>, right: u8) -> Cpu6502State<B::V> {
        let signed_sum = signed(s.a) + signed(right) + carry_in(s.status);
        let sum = s.a + right + carry_in(s.status);
        let result = wrap8(sum);
        Cpu6502State {
            a: result,
            status: with_zn(
                StatusFlags { c: sum > 255, v: signed_sum < -128 || signed_sum > 127, ..s.status },
                result,
            ),
            ..s
        }
    }

    /// Decimal (BCD) addition with carry, as the NMOS part computes it; the 65C02 sets
    /// the zero and negative flags from the result and takes a cycle more.
    pub open spec fn adc_decimal(s: Cpu6502State<B::V>, right: u8) -> (u32, Cpu6502State<B::V>) {
        let left = s.a;
        let carry = carry_in(s.status);
        let r2 = bcd_sum(left, right, carry);
        let r3 = bcd_adjust(r2);
        let a = wrap8(r3);
        let status = StatusFlags { c: r3 >= 0x100, v: sign_overflow(left, right, r2), ..s.status };
        if s.emulate_invalid_decimal_flags {
            (
                0,
                Cpu6502State {
                    a,
                    status: StatusFlags { z: wrap8(left + right + carry) == 0, n: bit7_of(r2), ..status },
                    ..s
                },
            )
        } else {
            (1, Cpu6502State { a, status: with_zn(status, a), ..s })
        }
    }

    /// Decimal (BCD) subtraction with borrow, as the NMOS part computes it; carry, overflow
    /// and (on the NMOS part) zero and negative come from the binary sum of the operands.
    pub open spec fn sbc_decimal(s: Cpu6502State<B::V>, right: u8) -> (u32, Cpu6502State<B::V>) {
        let left = s.a;
        let carry = carry_in(s.status);
        let a = wrap8(bcd_difference(left, right, carry));
        let bin_result = left + right + carry;
        let status = StatusFlags {
            c: bin_result >= 0x100,
            v: sign_overflow(left, right, bin_result),
            ..s.status
        };
        if s.emulate_invalid_decimal_flags {
            (0, Cpu6502State { a, status: with_zn(status, wrap8(bin_result)), ..s })
        } else {
            (1, Cpu6502State { a, status: with_zn(status, a), ..s })
        }
    }

    /// A branch: to the operand's address when the condition holds, at the cost of a cycle.
    pub open spec fn branch(s: Cpu6502State<B::V>, condition: bool, data: ExecutionData) -> (
        u32,
        Cpu6502State<B::V>,
    ) {
        if condition {
            (1, Cpu6502State { pc: data_address(data), ..s })
        } else {
            (0, s)
        }
    }

    /// Sets the accumulator and its zero and negative flags.
    pub open spec fn load_a(s: Cpu6502State<B::V>, v: u8) -> Cpu6502State<B::V> {
        Cpu6502State { a: v, status: with_zn(s.status, v), ..s }
    }

    pub open spec fn load_x(s: Cpu6502State<B::V>, v: u8) -> Cpu6502State<B::V> {
        Cpu6502State { x: v, status: with_zn(s.status, v), ..s }
    }

    pub open spec fn load_y(s: Cpu6502State<B::V>, v: u8) -> Cpu6502State<B::V> {
        Cpu6502State { y: v, status: with_zn(s.status, v), ..s }
    }

    pub open spec fn with_status(s: Cpu6502State<B::V>, status: StatusFlags) -> Cpu6502State<B::V> {
        Cpu6502State { status, ..s }
    }

    /// Read-modify-write on the operand: writes `f(v)` back and returns the state after.
    /// Reads the operand, then writes `v` back (with the flags in `status`).
    pub open spec fn modify(s: Cpu6502State<B::V>, data: ExecutionData, v: u8, status: StatusFlags) -> Cpu6502State<B::V> {
        Self::with_status(Self::spec_write_data(s, data, v), status)
    }

    /// Branches when bit `n` of the operand's value is set (`set`) or clear (`!set`).
    pub open spec fn bit_branch(s: Cpu6502State<B::V>, data: ExecutionData, n: u8, set: bool) -> (u32, Cpu6502State<B::V>) {
        let (v, s1) = Self::spec_read_data(s, data);
        Self::branch(s1, (v & (1u8 << n) != 0) == set, data)
    }

    /// Sets (`set`) or clears bit `n` of the operand, and the zero flag by the result.
    pub open spec fn bit_modify(s: Cpu6502State<B::V>, data: ExecutionData, n: u8, set: bool) -> Cpu6502State<B::V> {
        let (v, s1) = Self::spec_read_data(s, data);
        let r = if set { v | (1u8 << n) } else { v & !(1u8 << n) };
        Self::spec_write_data(Self::with_status(s1, StatusFlags { z: r == 0, ..s1.status }), data, r)
    }

    #[verifier::opaque]
    pub open spec fn spec_lda(s: Cpu6502State<B::V>, data: ExecutionData) -> (u32, Cpu6502State<B::V>) {
        let (v, s1) = Self::spec_read_data(s, data);
        (0, Self::load_a(s1, v))
    }

    #[verifier::opaque]
    pub open spec fn spec_ldx(s: Cpu6502State<B::V>, data: ExecutionData) -> (u32, Cpu6502State<B::V>) {
        let (v, s1) = Self::spec_read_data(s, data);
        (0, Self::load_x(s1, v))
    }

    #[verifier::opaque]
    pub open spec fn spec_ldy(s: Cpu6502State<B::V>, data: ExecutionData) -> (u32, Cpu6502State<B::V>) {
        let (v, s1) = Self::spec_read_data(s, data);
        (0, Self::load_y(s1, v))
    }

    #[verifier::opaque]
    pub open spec fn spec_sta(s: Cpu6502State<B::V>, data: ExecutionData) -> (u32, Cpu6502State<B::V>) {
        (0, Self::spec_write_data(s, data, s.a))
    }

    #[verifier::opaque]
    pub open spec fn spec_stx(s: Cpu6502State<B::V>, data: ExecutionData) -> (u32, Cpu6502State<B::V>) {
        (0, Self::spec_write_data(s, data, s.x))
    }

    #[verifier::opaque]
    pub open spec fn spec_sty(s: Cpu6502State<B::V>, data: ExecutionData) -> (u32, Cpu6502State<B::V>) {
        (0, Self::spec_write_data(s, data, s.y))
    }

    #[verifier::opaque]
    pub open spec fn spec_tax(s: Cpu6502State<B::V>) -> (u32, Cpu6502State<B::V>) {
        (0, Self::load_x(s, s.a))
    }

    #[verifier::opaque]
    pub open spec fn spec_tay(s: Cpu6502State<B::V>) -> (u32, Cpu6502State<B::V>) {
        (0, Self::load_y(s, s.a))
    }

    #[verifier::opaque]
    pub open spec fn spec_txa(s: Cpu6502State<B::V>) -> (u32, Cpu6502State<B::V>) {
        (0, Self::load_a(s, s.x))
    }

    #[verifier::opaque]
    pub open spec fn spec_tya(s: Cpu6502State<B::V>) -> (u32, Cpu6502State<B::V>) {
        (0, Self::load_a(s, s.y))
    }

    #[verifier::opaque]
    pub open spec fn spec_tsx(s: Cpu6502State<B::V>) -> (u32, Cpu6502State<B::V>) {
        (0, Self::load_x(s, s.sp))
    }

    #[verifier::opaque]
    pub open spec fn spec_txs(s: Cpu6502State<B::V>) -> (u32, Cpu6502State<B::V>) {
        (0, Cpu6502State { sp: s.x, ..s })
    }

    #[verifier::opaque]
    pub open spec fn spec_pha(s: Cpu6502State<B::V>) -> (u32, Cpu6502State<B::V>) {
        (0, Self::spec_push_word(s, s.a))
    }

    #[verifier::opaque]
    pub open spec fn spec_php(s: Cpu6502State<B::V>) -> (u32, Cpu6502State<B::V>) {
        let pushed = StatusFlags { b: true, u: true, ..s.status };
        let s2 = Self::spec_push_word(s, pushed.spec_bits());
        (0, Self::with_status(s2, StatusFlags { b: false, u: false, ..s2.status }))
    
    }

    #[verifier::opaque]
    pub open spec fn spec_pla(s: Cpu6502State<B::V>) -> (u32, Cpu6502State<B::V>) {
        let (p, s2) = Self::spec_pop_word(s);
        (0, Self::load_a(s2, p))
    
    }

    #[verifier::opaque]
    pub open spec fn spec_plp(s: Cpu6502State<B::V>) -> (u32, Cpu6502State<B::V>) {
        let (p, s2) = Self::spec_pop_word(s);
        (0, Self::with_status(s2, StatusFlags { u: true, ..StatusFlags::spec_from_bits(p) }))
    
    }

    #[verifier::opaque]
    pub open spec fn spec_and(s: Cpu6502State<B::V>, data: ExecutionData) -> (u32, Cpu6502State<B::V>) {
        let (v, s1) = Self::spec_read_data(s, data);
        (0, Self::load_a(s1, s1.a & v))
    }

    #[verifier::opaque]
    pub open spec fn spec_eor(s: Cpu6502State<B::V>, data: ExecutionData) -> (u32, Cpu6502State<B::V>) {
        let (v, s1) = Self::spec_read_data(s, data);
        (0, Self::load_a(s1, s1.a ^ v))
    }

    #[verifier::opaque]
    pub open spec fn spec_ora(s: Cpu6502State<B::V>, data: ExecutionData) -> (u32, Cpu6502State<B::V>) {
        let (v, s1) = Self::spec_read_data(s, data);
        (0, Self::load_a(s1, s1.a | v))
    }

    #[verifier::opaque]
    pub open spec fn spec_bit(s: Cpu6502State<B::V>, data: ExecutionData) -> (u32, Cpu6502State<B::V>) {
        let (v, s1) = Self::spec_read_data(s, data);
        (0, Self::with_status(s1, StatusFlags {
                z: s1.a & v == 0,
                n: v >= 0x80,
                v: (v / 0x40) % 2 == 1,
                ..s1.status
            }))
    }

    #[verifier::opaque]
    pub open spec fn spec_adc(s: Cpu6502State<B::V>, data: ExecutionData) -> (u32, Cpu6502State<B::V>) {
        let (v, s1) = Self::spec_read_data(s, data);
        if s1.enable_decimal_mode && s1.status.d {
                Self::adc_decimal(s1, v)
            } else {
                (0, Self::adc_binary(s1, v))
            }
    }

    #[verifier::opaque]
    pub open spec fn spec_sbc(s: Cpu6502State<B::V>, data: ExecutionData) -> (u32, Cpu6502State<B::V>) {
        let (v, s1) = Self::spec_read_data(s, data);
        if s1.enable_decimal_mode && s1.status.d {
                Self::sbc_decimal(s1, v)
            } else {
                (0, Self::adc_binary(s1, (255 - v) as u8))
            }
    }

    #[verifier::opaque]
    pub open spec fn spec_cmp(s: Cpu6502State<B::V>, data: ExecutionData) -> (u32, Cpu6502State<B::V>) {
        let (v, s1) = Self::spec_read_data(s, data);
        (0, Self::with_status(s1, compare(s1.status, s1.a, v)))
    }

    #[verifier::opaque]
    pub open spec fn spec_cpx(s: Cpu6502State<B::V>, data: ExecutionData) -> (u32, Cpu6502State<B::V>) {
        let (v, s1) = Self::spec_read_data(s, data);
        (0, Self::with_status(s1, compare(s1.status, s1.x, v)))
    }

    #[verifier::opaque]
    pub open spec fn spec_cpy(s: Cpu6502State<B::V>, data: ExecutionData) -> (u32, Cpu6502State<B::V>) {
        let (v, s1) = Self::spec_read_data(s, data);
        (0, Self::with_status(s1, compare(s1.status, s1.y, v)))
    }

    #[verifier::opaque]
    pub open spec fn spec_inc(s: Cpu6502State<B::V>, data: ExecutionData) -> (u32, Cpu6502State<B::V>) {
        let (v, s1) = Self::spec_read_data(s, data);
        if data is Implied {
                (0, Self::load_a(s, wrap8(s.a + 1)))
            } else {
                let r = wrap8(v + 1);
                (0, Self::modify(s1, data, r, with_zn(s1.status, r)))
            }
    }

    #[verifier::opaque]
    pub open spec fn spec_inx(s: Cpu6502State<B::V>) -> (u32, Cpu6502State<B::V>) {
        (0, Self::load_x(s, wrap8(s.x + 1)))
    }

    #[verifier::opaque]
    pub open spec fn spec_iny(s: Cpu6502State<B::V>) -> (u32, Cpu6502State<B::V>) {
        (0, Self::load_y(s, wrap8(s.y + 1)))
    }

    #[verifier::opaque]
    pub open spec fn spec_dec(s: Cpu6502State<B::V>, data: ExecutionData) -> (u32, Cpu6502State<B::V>) {
        let (v, s1) = Self::spec_read_data(s, data);
        if data is Implied {
                (0, Self::load_a(s, wrap8(s.a - 1)))
            } else {
                let r = wrap8(v - 1);
                (0, Self::modify(s1, data, r, with_zn(s1.status, r)))
            }
    }

    #[verifier::opaque]
    pub open spec fn spec_dex(s: Cpu6502State<B::V>) -> (u32, Cpu6502State<B::V>) {
        (0, Self::load_x(s, wrap8(s.x - 1)))
    }

    #[verifier::opaque]
    pub open spec fn spec_dey(s: Cpu6502State<B::V>) -> (u32, Cpu6502State<B::V>) {
        (0, Self::load_y(s, wrap8(s.y - 1)))
    }

    #[verifier::opaque]
    pub open spec fn spec_asl(s: Cpu6502State<B::V>, data: ExecutionData) -> (u32, Cpu6502State<B::V>) {
        let (v, s1) = Self::spec_read_data(s, data);
        if data is Implied {
                let (r, c) = shift_left(s.a);
                (0, Self::load_a(Self::with_status(s, StatusFlags { c, ..s.status }), r))
            } else {
                let (r, c) = shift_left(v);
                (0, Self::modify(s1, data, r, with_zn(StatusFlags { c, ..s1.status }, r)))
            }
    }

    #[verifier::opaque]
    pub open spec fn spec_lsr(s: Cpu6502State<B::V>, data: ExecutionData) -> (u32, Cpu6502State<B::V>) {
        let (v, s1) = Self::spec_read_data(s, data);
        if data is Implied {
                let (r, c) = shift_right(s.a);
                (0, Self::load_a(Self::with_status(s, StatusFlags { c, ..s.status }), r))
            } else {
                let (r, c) = shift_right(v);
                (0, Self::modify(s1, data, r, with_zn(StatusFlags { c, ..s1.status }, r)))
            }
    }

    #[verifier::opaque]
    pub open spec fn spec_rol(s: Cpu6502State<B::V>, data: ExecutionData) -> (u32, Cpu6502State<B::V>) {
        let (v, s1) = Self::spec_read_data(s, data);
        if data is Implied {
                let (r, c) = rotate_left(s.a, s.status.c);
                (0, Self::load_a(Self::with_status(s, StatusFlags { c, ..s.status }), r))
            } else {
                let (r, c) = rotate_left(v, s1.status.c);
                (0, Self::modify(s1, data, r, with_zn(StatusFlags { c, ..s1.status }, r)))
            }
    }

    #[verifier::opaque]
    pub open spec fn spec_ror(s: Cpu6502State<B::V>, data: ExecutionData) -> (u32, Cpu6502State<B::V>) {
        let (v, s1) = Self::spec_read_data(s, data);
        if data is Implied {
                let (r, c) = rotate_right(s.a, s.status.c);
                (0, Self::load_a(Self::with_status(s, StatusFlags { c, ..s.status }), r))
            } else {
                let (r, c) = rotate_right(v, s1.status.c);
                (0, Self::modify(s1, data, r, with_zn(StatusFlags { c, ..s1.status }, r)))
            }
    }

    #[verifier::opaque]
    pub open spec fn spec_jmp(s: Cpu6502State<B::V>, data: ExecutionData) -> (u32, Cpu6502State<B::V>) {
        (0, Cpu6502State { pc: data_address(data), ..s })
    }

    #[verifier::opaque]
    pub open spec fn spec_jsr(s: Cpu6502State<B::V>, data: ExecutionData) -> (u32, Cpu6502State<B::V>) {
        let return_address = wrap16(s.pc - 1);
        let s2 = Self::spec_push_address(Cpu6502State { pc: return_address, ..s }, return_address);
        (0, Cpu6502State { pc: data_address(data), ..s2 })
    
    }

    #[verifier::opaque]
    pub open spec fn spec_rts(s: Cpu6502State<B::V>, data: ExecutionData) -> (u32, Cpu6502State<B::V>) {
        let (address, s2) = Self::spec_pop_address(s);
        (0, Cpu6502State { pc: wrap16(address + 1), ..s2 })
    
    }

    #[verifier::opaque]
    pub open spec fn spec_bcc(s: Cpu6502State<B::V>, data: ExecutionData) -> (u32, Cpu6502State<B::V>) {
        Self::branch(s, !s.status.c, data)
    }

    #[verifier::opaque]
    pub open spec fn spec_bcs(s: Cpu6502State<B::V>, data: ExecutionData) -> (u32, Cpu6502State<B::V>) {
        Self::branch(s, s.status.c, data)
    }

    #[verifier::opaque]
    pub open spec fn spec_beq(s: Cpu6502State<B::V>, data: ExecutionData) -> (u32, Cpu6502State<B::V>) {
        Self::branch(s, s.status.z, data)
    }

    #[verifier::opaque]
    pub open spec fn spec_bmi(s: Cpu6502State<B::V>, data: ExecutionData) -> (u32, Cpu6502State<B::V>) {
        Self::branch(s, s.status.n, data)
    }

    #[verifier::opaque]
    pub open spec fn spec_bne(s: Cpu6502State<B::V>, data: ExecutionData) -> (u32, Cpu6502State<B::V>) {
        Self::branch(s, !s.status.z, data)
    }

    #[verifier::opaque]
    pub open spec fn spec_bpl(s: Cpu6502State<B::V>, data: ExecutionData) -> (u32, Cpu6502State<B::V>) {
        Self::branch(s, !s.status.n, data)
    }

    #[verifier::opaque]
    pub open spec fn spec_bvc(s: Cpu6502State<B::V>, data: ExecutionData) -> (u32, Cpu6502State<B::V>) {
        let (v, s1) = Self::spec_read_data(s, data);
        Self::branch(s, !s.status.v, data)
    }

    #[verifier::opaque]
    pub open spec fn spec_bvs(s: Cpu6502State<B::V>, data: ExecutionData) -> (u32, Cpu6502State<B::V>) {
        let (v, s1) = Self::spec_read_data(s, data);
        Self::branch(s, s.status.v, data)
    }

    #[verifier::opaque]
    pub open spec fn spec_clc(s: Cpu6502State<B::V>) -> (u32, Cpu6502State<B::V>) {
        (0, Self::with_status(s, StatusFlags { c: false, ..s.status }))
    }

    #[verifier::opaque]
    pub open spec fn spec_cld(s: Cpu6502State<B::V>) -> (u32, Cpu6502State<B::V>) {
        (0, Self::with_status(s, StatusFlags { d: false, ..s.status }))
    }

    #[verifier::opaque]
    pub open spec fn spec_cli(s: Cpu6502State<B::V>) -> (u32, Cpu6502State<B::V>) {
        (0, Self::with_status(s, StatusFlags { i: false, ..s.status }))
    }

    #[verifier::opaque]
    pub open spec fn spec_clv(s: Cpu6502State<B::V>) -> (u32, Cpu6502State<B::V>) {
        (0, Self::with_status(s, StatusFlags { v: false, ..s.status }))
    }

    #[verifier::opaque]
    pub open spec fn spec_sec(s: Cpu6502State<B::V>) -> (u32, Cpu6502State<B::V>) {
        (0, Self::with_status(s, StatusFlags { c: true, ..s.status }))
    }

    #[verifier::opaque]
    pub open spec fn spec_sed(s: Cpu6502State<B::V>) -> (u32, Cpu6502State<B::V>) {
        (0, Self::with_status(s, StatusFlags { d: true, ..s.status }))
    }

    #[verifier::opaque]
    pub open spec fn spec_sei(s: Cpu6502State<B::V>) -> (u32, Cpu6502State<B::V>) {
        (0, Self::with_status(s, StatusFlags { i: true, ..s.status }))
    }

    #[verifier::opaque]
    pub open spec fn spec_brk(s: Cpu6502State<B::V>) -> (u32, Cpu6502State<B::V>) {
        let pc = wrap16(s.pc + 1);
        let s2 = Self::spec_push_address(Cpu6502State { pc, ..s }, pc);
        let status = StatusFlags { b: true, i: true, ..s2.status };
        let s3 = Self::spec_push_word(Self::with_status(s2, status), status.spec_bits());
        let (target, s4) = Self::spec_read_address(
            Self::with_status(s3, StatusFlags { b: false, ..status }),
            IRQ_VECTOR,
        );
        (0, Cpu6502State { pc: target, ..s4 })
    
    }

    #[verifier::opaque]
    pub open spec fn spec_nop(s: Cpu6502State<B::V>, data: ExecutionData) -> (u32, Cpu6502State<B::V>) {
        (0, s)
    }

    #[verifier::opaque]
    pub open spec fn spec_rti(s: Cpu6502State<B::V>) -> (u32, Cpu6502State<B::V>) {
        let (p, s2) = Self::spec_pop_word(s);
        let status = StatusFlags { b: false, u: false, ..StatusFlags::spec_from_bits(p) };
        let (address, s3) = Self::spec_pop_address(Self::with_status(s2, status));
        (0, Cpu6502State { pc: address, ..s3 })
    
    }

    #[verifier::opaque]
    pub open spec fn spec_slo(s: Cpu6502State<B::V>, data: ExecutionData) -> (u32, Cpu6502State<B::V>) {
        let (v, s1) = Self::spec_read_data(s, data);
        let (r, c) = shift_left(v);
        let s2 = Self::spec_write_data(Self::with_status(s1, StatusFlags { c, ..s1.status }), data, r);
        (0, Self::load_a(s2, s2.a | r))
    
    }

    #[verifier::opaque]
    pub open spec fn spec_anc(s: Cpu6502State<B::V>, data: ExecutionData) -> (u32, Cpu6502State<B::V>) {
        let status = StatusFlags { c: s.a >= 0x80, ..s.status };
        let (w, s2) = Self::spec_read_data(Self::with_status(s, status), data);
        (0, Self::load_a(s2, s2.a & w))
    
    }

    #[verifier::opaque]
    pub open spec fn spec_rla(s: Cpu6502State<B::V>, data: ExecutionData) -> (u32, Cpu6502State<B::V>) {
        let (v, s1) = Self::spec_read_data(s, data);
        let (r, c) = rotate_left(v, s1.status.c);
        let s2 = Self::spec_write_data(Self::with_status(s1, StatusFlags { c, ..s1.status }), data, r);
        (0, Self::load_a(s2, s2.a & r))
    
    }

    #[verifier::opaque]
    pub open spec fn spec_sre(s: Cpu6502State<B::V>, data: ExecutionData) -> (u32, Cpu6502State<B::V>) {
        let (v, s1) = Self::spec_read_data(s, data);
        let (r, c) = shift_right(v);
        let s2 = Self::spec_write_data(Self::with_status(s1, StatusFlags { c, ..s1.status }), data, r);
        (0, Self::load_a(s2, s2.a ^ r))
    
    }

    #[verifier::opaque]
    pub open spec fn spec_alr(s: Cpu6502State<B::V>, data: ExecutionData) -> (u32, Cpu6502State<B::V>) {
        let (v, s1) = Self::spec_read_data(s, data);
        let a = s1.a & v;
        let (r, c) = shift_right(a);
        (0, Self::load_a(Self::with_status(s1, StatusFlags { c, ..s1.status }), r))
    
    }

    #[verifier::opaque]
    pub open spec fn spec_rra(s: Cpu6502State<B::V>, data: ExecutionData) -> (u32, Cpu6502State<B::V>) {
        let (v, s1) = Self::spec_read_data(s, data);
        let (r, c) = rotate_right(v, s1.status.c);
        let s2 = Self::spec_write_data(Self::with_status(s1, StatusFlags { c, ..s1.status }), data, r);
        (0, Self::adc_binary(s2, r))
    
    }

    #[verifier::opaque]
    pub open spec fn spec_arr(s: Cpu6502State<B::V>, data: ExecutionData) -> (u32, Cpu6502State<B::V>) {
        let (v, s1) = Self::spec_read_data(s, data);
        let (r, c) = rotate_right(s1.a & v, s1.status.c);
        (0, Self::load_a(s1, r))
    
    }

    #[verifier::opaque]
    pub open spec fn spec_sax(s: Cpu6502State<B::V>, data: ExecutionData) -> (u32, Cpu6502State<B::V>) {
        (0, Self::spec_write_data(s, data, s.a & s.x))
    }

    #[verifier::opaque]
    pub open spec fn spec_xaa(s: Cpu6502State<B::V>, data: ExecutionData) -> (u32, Cpu6502State<B::V>) {
        let (v, s1) = Self::spec_read_data(s, data);
        (0, Self::load_a(s1, s1.a & s1.x & v))
    }

    #[verifier::opaque]
    pub open spec fn spec_ahx(s: Cpu6502State<B::V>, data: ExecutionData) -> (u32, Cpu6502State<B::V>) {
        let (v, s1) = Self::spec_read_data(s, data);
        (0, Self::spec_write_data(s1, data, s1.a & s1.x & v))
    }

    #[verifier::opaque]
    pub open spec fn spec_tas(s: Cpu6502State<B::V>, data: ExecutionData) -> (u32, Cpu6502State<B::V>) {
        let s2 = Cpu6502State { sp: s.a & s.x, ..s };
        let (w, s3) = Self::spec_read_data(s2, data);
        (0, Self::spec_write_data(s3, data, s3.a & s3.x & w))
    
    }

    #[verifier::opaque]
    pub open spec fn spec_shy(s: Cpu6502State<B::V>, data: ExecutionData) -> (u32, Cpu6502State<B::V>) {
        let (v, s1) = Self::spec_read_data(s, data);
        (0, Self::spec_write_data(s1, data, s1.y & v))
    }

    #[verifier::opaque]
    pub open spec fn spec_shx(s: Cpu6502State<B::V>, data: ExecutionData) -> (u32, Cpu6502State<B::V>) {
        let (v, s1) = Self::spec_read_data(s, data);
        (0, Self::spec_write_data(s1, data, s1.x & v))
    }

    #[verifier::opaque]
    pub open spec fn spec_lax(s: Cpu6502State<B::V>, data: ExecutionData) -> (u32, Cpu6502State<B::V>) {
        let (v, s1) = Self::spec_read_data(s, data);
        (0, Self::load_a(Cpu6502State { x: v, ..s1 }, v))
    }

    #[verifier::opaque]
    pub open spec fn spec_las(s: Cpu6502State<B::V>, data: ExecutionData) -> (u32, Cpu6502State<B::V>) {
        let (v, s1) = Self::spec_read_data(s, data);
        let r = v & s1.sp;
        (0, Self::load_a(Cpu6502State { x: r, sp: r, ..s1 }, r))
    
    }

    #[verifier::opaque]
    pub open spec fn spec_dcp(s: Cpu6502State<B::V>, data: ExecutionData) -> (u32, Cpu6502State<B::V>) {
        let (v, s1) = Self::spec_read_data(s, data);
        let r = wrap8(v - 1);
        let s2 = Self::spec_write_data(s1, data, r);
        (0, Self::with_status(s2, compare(s2.status, s2.a, r)))
    
    }

    #[verifier::opaque]
    pub open spec fn spec_axs(s: Cpu6502State<B::V>, data: ExecutionData) -> (u32, Cpu6502State<B::V>) {
        let (v, s1) = Self::spec_read_data(s, data);
        let ax = s1.a & s1.x;
        let r = wrap8(ax - v);
        (0, Cpu6502State { x: r, status: compare(s1.status, ax, v), ..s1 })
    
    }

    #[verifier::opaque]
    pub open spec fn spec_isc(s: Cpu6502State<B::V>, data: ExecutionData) -> (u32, Cpu6502State<B::V>) {
        let (v, s1) = Self::spec_read_data(s, data);
        let r = wrap8(v + 1);
        let s2 = Self::spec_write_data(s1, data, r);
        (0, Self::adc_binary(s2, (255 - r) as u8))
    
    }

    #[verifier::opaque]
    pub open spec fn spec_bra(s: Cpu6502State<B::V>, data: ExecutionData) -> (u32, Cpu6502State<B::V>) {
        (1, Cpu6502State { pc: data_address(data), ..s })
    }

    #[verifier::opaque]
    pub open spec fn spec_phx(s: Cpu6502State<B::V>) -> (u32, Cpu6502State<B::V>) {
        (0, Self::spec_push_word(s, s.x))
    }

    #[verifier::opaque]
    pub open spec fn spec_phy(s: Cpu6502State<B::V>) -> (u32, Cpu6502State<B::V>) {
        (0, Self::spec_push_word(s, s.y))
    }

    #[verifier::opaque]
    pub open spec fn spec_plx(s: Cpu6502State<B::V>) -> (u32, Cpu6502State<B::V>) {
        let (p, s2) = Self::spec_pop_word(s);
        (0, Self::load_x(s2, p))
    
    }

    #[verifier::opaque]
    pub open spec fn spec_ply(s: Cpu6502State<B::V>) -> (u32, Cpu6502State<B::V>) {
        let (p, s2) = Self::spec_pop_word(s);
        (0, Self::load_y(s2, p))
    
    }

    #[verifier::opaque]
    pub open spec fn spec_stz(s: Cpu6502State<B::V>, data: ExecutionData) -> (u32, Cpu6502State<B::V>) {
        (0, Self::spec_write_data(s, data, 0))
    }

    #[verifier::opaque]
    pub open spec fn spec_trb(s: Cpu6502State<B::V>, data: ExecutionData) -> (u32, Cpu6502State<B::V>) {
        let (v, s1) = Self::spec_read_data(s, data);
        let r = v & !s1.a;
        (0, Self::spec_write_data(Self::with_status(s1, StatusFlags { z: r == 0, ..s1.status }), data, r))
    
    }

    #[verifier::opaque]
    pub open spec fn spec_tsb(s: Cpu6502State<B::V>, data: ExecutionData) -> (u32, Cpu6502State<B::V>) {
        let (v, s1) = Self::spec_read_data(s, data);
        let r = v | s1.a;
        (0, Self::spec_write_data(Self::with_status(s1, StatusFlags { z: r == 0, ..s1.status }), data, r))
    
    }

    /// What one instruction does once its operand is known: the cycles it takes beyond its
    /// base count, and the state after.
    pub open spec fn spec_execute(s: Cpu6502State<B::V>, base: BaseInstruction, data: ExecutionData) -> (u32, Cpu6502State<B::V>) {
        match base {
            BaseInstruction::LDA => Self::spec_lda(s, data),
            BaseInstruction::LDX => Self::spec_ldx(s, data),
            BaseInstruction::LDY => Self::spec_ldy(s, data),
            BaseInstruction::STA => Self::spec_sta(s, data),
            BaseInstruction::STX => Self::spec_stx(s, data),
            BaseInstruction::STY => Self::spec_sty(s, data),
            BaseInstruction::TAX => Self::spec_tax(s),
            BaseInstruction::TAY => Self::spec_tay(s),
            BaseInstruction::TXA => Self::spec_txa(s),
            BaseInstruction::TYA => Self::spec_tya(s),
            BaseInstruction::TSX => Self::spec_tsx(s),
            BaseInstruction::TXS => Self::spec_txs(s),
            BaseInstruction::PHA => Self::spec_pha(s),
            BaseInstruction::PHP => Self::spec_php(s),
            BaseInstruction::PLA => Self::spec_pla(s),
            BaseInstruction::PLP => Self::spec_plp(s),
            BaseInstruction::AND => Self::spec_and(s, data),
            BaseInstruction::EOR => Self::spec_eor(s, data),
            BaseInstruction::ORA => Self::spec_ora(s, data),
            BaseInstruction::BIT => Self::spec_bit(s, data),
            BaseInstruction::ADC => Self::spec_adc(s, data),
            BaseInstruction::SBC => Self::spec_sbc(s, data),
            BaseInstruction::CMP => Self::spec_cmp(s, data),
            BaseInstruction::CPX => Self::spec_cpx(s, data),
            BaseInstruction::CPY => Self::spec_cpy(s, data),
            BaseInstruction::INC => Self::spec_inc(s, data),
            BaseInstruction::INX => Self::spec_inx(s),
            BaseInstruction::INY => Self::spec_iny(s),
            BaseInstruction::DEC => Self::spec_dec(s, data),
            BaseInstruction::DEX => Self::spec_dex(s),
            BaseInstruction::DEY => Self::spec_dey(s),
            BaseInstruction::ASL => Self::spec_asl(s, data),
            BaseInstruction::LSR => Self::spec_lsr(s, data),
            BaseInstruction::ROL => Self::spec_rol(s, data),
            BaseInstruction::ROR => Self::spec_ror(s, data),
            BaseInstruction::JMP => Self::spec_jmp(s, data),
            BaseInstruction::JSR => Self::spec_jsr(s, data),
            BaseInstruction::RTS => Self::spec_rts(s, data),
            BaseInstruction::BCC => Self::spec_bcc(s, data),
            BaseInstruction::BCS => Self::spec_bcs(s, data),
            BaseInstruction::BEQ => Self::spec_beq(s, data),
            BaseInstruction::BMI => Self::spec_bmi(s, data),
            BaseInstruction::BNE => Self::spec_bne(s, data),
            BaseInstruction::BPL => Self::spec_bpl(s, data),
            BaseInstruction::BVC => Self::spec_bvc(s, data),
            BaseInstruction::BVS => Self::spec_bvs(s, data),
            BaseInstruction::CLC => Self::spec_clc(s),
            BaseInstruction::CLD => Self::spec_cld(s),
            BaseInstruction::CLI => Self::spec_cli(s),
            BaseInstruction::CLV => Self::spec_clv(s),
            BaseInstruction::SEC => Self::spec_sec(s),
            BaseInstruction::SED => Self::spec_sed(s),
            BaseInstruction::SEI => Self::spec_sei(s),
            BaseInstruction::BRK => Self::spec_brk(s),
            BaseInstruction::NOP => Self::spec_nop(s, data),
            BaseInstruction::RTI => Self::spec_rti(s),
            BaseInstruction::SLO => Self::spec_slo(s, data),
            BaseInstruction::ANC => Self::spec_anc(s, data),
            BaseInstruction::RLA => Self::spec_rla(s, data),
            BaseInstruction::SRE => Self::spec_sre(s, data),
            BaseInstruction::ALR => Self::spec_alr(s, data),
            BaseInstruction::RRA => Self::spec_rra(s, data),
            BaseInstruction::ARR => Self::spec_arr(s, data),
            BaseInstruction::SAX => Self::spec_sax(s, data),
            BaseInstruction::XAA => Self::spec_xaa(s, data),
            BaseInstruction::AHX => Self::spec_ahx(s, data),
            BaseInstruction::TAS => Self::spec_tas(s, data),
            BaseInstruction::SHY => Self::spec_shy(s, data),
            BaseInstruction::SHX => Self::spec_shx(s, data),
            BaseInstruction::LAX => Self::spec_lax(s, data),
            BaseInstruction::LAS => Self::spec_las(s, data),
            BaseInstruction::DCP => Self::spec_dcp(s, data),
            BaseInstruction::AXS => Self::spec_axs(s, data),
            BaseInstruction::ISC => Self::spec_isc(s, data),
            BaseInstruction::HLT => (0, s),
            BaseInstruction::BRA => Self::spec_bra(s, data),
            BaseInstruction::PHX => Self::spec_phx(s),
            BaseInstruction::PHY => Self::spec_phy(s),
            BaseInstruction::PLX => Self::spec_plx(s),
            BaseInstruction::PLY => Self::spec_ply(s),
            BaseInstruction::STZ => Self::spec_stz(s, data),
            BaseInstruction::TRB => Self::spec_trb(s, data),
            BaseInstruction::TSB => Self::spec_tsb(s, data),
            BaseInstruction::BBR0 | BaseInstruction::BBR1 | BaseInstruction::BBR2 | BaseInstruction::BBR3
            | BaseInstruction::BBR4 | BaseInstruction::BBR5 | BaseInstruction::BBR6 | BaseInstruction::BBR7 => Self::bit_branch(s, data, base.bit_index(), false),
            BaseInstruction::BBS0 | BaseInstruction::BBS1 | BaseInstruction::BBS2 | BaseInstruction::BBS3
            | BaseInstruction::BBS4 | BaseInstruction::BBS5 | BaseInstruction::BBS6 | BaseInstruction::BBS7 => Self::bit_branch(s, data, base.bit_index(), true),
            BaseInstruction::RMB0 | BaseInstruction::RMB1 | BaseInstruction::RMB2 | BaseInstruction::RMB3
            | BaseInstruction::RMB4 | BaseInstruction::RMB5 | BaseInstruction::RMB6 | BaseInstruction::RMB7 => (0, Self::bit_modify(s, data, base.bit_index(), false)),
            BaseInstruction::SMB0 | BaseInstruction::SMB1 | BaseInstruction::SMB2 | BaseInstruction::SMB3
            | BaseInstruction::SMB4 | BaseInstruction::SMB5 | BaseInstruction::SMB6 | BaseInstruction::SMB7 => (0, Self::bit_modify(s, data, base.bit_index(), true)),
        }
    }
}

impl<B: BusComponent> Cpu6502<B> {
    /// One instruction in full: its operand bytes are read, its operand is formed, and the
    /// operation is carried out. The cycles are the base count, one more where a page was
    /// crossed and the instruction pays for it, and what the operation adds.
    pub open spec fn spec_execute_instruction(s: Cpu6502State<B::V>, instruction: Instruction) -> (
        u32,
        Cpu6502State<B::V>,
    ) {
        let (instruction_data, s1) = Self::spec_fetch_operands(s, instruction.1);
        let (execution_data, page_crossed, s2) = Self::spec_resolve(s1, instruction_data);
        let (additional_cycles, s3) = Self::spec_execute(s2, instruction.0, execution_data);
        (
            (instruction.2 + (if page_crossed && instruction.3 { 1int } else { 0 })
                + additional_cycles) as u32,
            s3,
        )
    }

    /// The operand that an addressing mode yields has the shape the mode promises.
    proof fn lemma_operand_shape(s: Cpu6502State<B::V>, mode: AddressingMode)
        ensures
            ({
                let (instruction_data, s1) = Self::spec_fetch_operands(s, mode);
                mode_yields(mode, Self::spec_resolve(s1, instruction_data).0)
            }),
    {
    }

    pub(crate) fn execute_instruction(&mut self, instruction: Instruction) -> (r: u32)
        requires
            Self::bus_ok(old(self)@.bus),
            instruction.well_formed(),
        ensures
            Self::bus_ok(final(self)@.bus),
            (r, final(self)@) == Self::spec_execute_instruction(old(self)@, instruction),
            1 <= r <= 10,
    {
        let base_instruction = instruction.0;
        let addressing_mode = instruction.1;
        let cycles = instruction.2;
        let add_cycle_on_page_cross = instruction.3;

        proof {
            Self::lemma_operand_shape(self@, addressing_mode);
        }
        let instruction_data = addressing_mode.read_next(self);
        let (execution_data, page_crossed) = instruction_data.to_execution_data(self);
        let ghost s2 = self@;

        let additional_cycles = match base_instruction {
            BaseInstruction::LDA => self.execute_lda(execution_data),
            BaseInstruction::LDX => self.execute_ldx(execution_data),
            BaseInstruction::LDY => self.execute_ldy(execution_data),
            BaseInstruction::STA => self.execute_sta(execution_data),
            BaseInstruction::STX => self.execute_stx(execution_data),
            BaseInstruction::STY => self.execute_sty(execution_data),
            BaseInstruction::TAX => self.execute_tax(),
            BaseInstruction::TAY => self.execute_tay(),
            BaseInstruction::TXA => self.execute_txa(),
            BaseInstruction::TYA => self.execute_tya(),
            BaseInstruction::TSX => self.execute_tsx(),
            BaseInstruction::TXS => self.execute_txs(),
            BaseInstruction::PHA => self.execute_pha(),
            BaseInstruction::PHP => self.execute_php(),
            BaseInstruction::PLA => self.execute_pla(),
            BaseInstruction::PLP => self.execute_plp(),
            BaseInstruction::AND => self.execute_and(execution_data),
            BaseInstruction::EOR => self.execute_eor(execution_data),
            BaseInstruction::ORA => self.execute_ora(execution_data),
            BaseInstruction::BIT => self.execute_bit(execution_data),
            BaseInstruction::ADC => self.execute_adc(execution_data),
            BaseInstruction::SBC => self.execute_sbc(execution_data),
            BaseInstruction::CMP => self.execute_cmp(execution_data),
            BaseInstruction::CPX => self.execute_cpx(execution_data),
            BaseInstruction::CPY => self.execute_cpy(execution_data),
            BaseInstruction::INC => self.execute_inc(execution_data),
            BaseInstruction::DEC => self.execute_dec(execution_data),
            BaseInstruction::INX => self.execute_inx(),
            BaseInstruction::INY => self.execute_iny(),
            BaseInstruction::DEX => self.execute_dex(),
            BaseInstruction::DEY => self.execute_dey(),
            BaseInstruction::ASL => self.execute_asl(execution_data),
            BaseInstruction::LSR => self.execute_lsr(execution_data),
            BaseInstruction::ROL => self.execute_rol(execution_data),
            BaseInstruction::ROR => self.execute_ror(execution_data),
            BaseInstruction::JMP => self.execute_jmp(execution_data),
            BaseInstruction::JSR => self.execute_jsr(execution_data),
            BaseInstruction::RTS => self.execute_rts(execution_data),
            BaseInstruction::BCC => self.execute_bcc(execution_data),
            BaseInstruction::BCS => self.execute_bcs(execution_data),
            BaseInstruction::BEQ => self.execute_beq(execution_data),
            BaseInstruction::BMI => self.execute_bmi(execution_data),
            BaseInstruction::BNE => self.execute_bne(execution_data),
            BaseInstruction::BPL => self.execute_bpl(execution_data),
            BaseInstruction::BVC => self.execute_bvc(execution_data),
            BaseInstruction::BVS => self.execute_bvs(execution_data),
            BaseInstruction::CLC => self.execute_clc(),
            BaseInstruction::CLD => self.execute_cld(),
            BaseInstruction::CLI => self.execute_cli(),
            BaseInstruction::CLV => self.execute_clv(),
            BaseInstruction::SEC => self.execute_sec(),
            BaseInstruction::SED => self.execute_sed(),
            BaseInstruction::SEI => self.execute_sei(),
            BaseInstruction::BRK => self.execute_brk(),
            BaseInstruction::RTI => self.execute_rti(),
            BaseInstruction::SLO => self.execute_slo(execution_data),
            BaseInstruction::ANC => self.execute_anc(execution_data),
            BaseInstruction::RLA => self.execute_rla(execution_data),
            BaseInstruction::SRE => self.execute_sre(execution_data),
            BaseInstruction::ALR => self.execute_alr(execution_data),
            BaseInstruction::RRA => self.execute_rra(execution_data),
            BaseInstruction::ARR => self.execute_arr(execution_data),
            BaseInstruction::SAX => self.execute_sax(execution_data),
            BaseInstruction::XAA => self.execute_xaa(execution_data),
            BaseInstruction::AHX => self.execute_ahx(execution_data),
            BaseInstruction::TAS => self.execute_tas(execution_data),
            BaseInstruction::SHY => self.execute_shy(execution_data),
            BaseInstruction::SHX => self.execute_shx(execution_data),
            BaseInstruction::LAX => self.execute_lax(execution_data),
            BaseInstruction::LAS => self.execute_las(execution_data),
            BaseInstruction::DCP => self.execute_dcp(execution_data),
            BaseInstruction::AXS => self.execute_axs(execution_data),
            BaseInstruction::ISC => self.execute_isc(execution_data),
            BaseInstruction::BRA => self.execute_bra(execution_data),
            BaseInstruction::PHX => self.execute_phx(),
            BaseInstruction::PHY => self.execute_phy(),
            BaseInstruction::PLX => self.execute_plx(),
            BaseInstruction::PLY => self.execute_ply(),
            BaseInstruction::STZ => self.execute_stz(execution_data),
            BaseInstruction::TRB => self.execute_trb(execution_data),
            BaseInstruction::TSB => self.execute_tsb(execution_data),
            BaseInstruction::NOP => {
                proof {
                    reveal(Cpu6502::spec_nop);
                }
                0
            },
            BaseInstruction::HLT => 0,
            BaseInstruction::BBR0 => self.execute_bbr(execution_data, 0),
            BaseInstruction::BBR1 => self.execute_bbr(execution_data, 1),
            BaseInstruction::BBR2 => self.execute_bbr(execution_data, 2),
            BaseInstruction::BBR3 => self.execute_bbr(execution_data, 3),
            BaseInstruction::BBR4 => self.execute_bbr(execution_data, 4),
            BaseInstruction::BBR5 => self.execute_bbr(execution_data, 5),
            BaseInstruction::BBR6 => self.execute_bbr(execution_data, 6),
            BaseInstruction::BBR7 => self.execute_bbr(execution_data, 7),
            BaseInstruction::BBS0 => self.execute_bbs(execution_data, 0),
            BaseInstruction::BBS1 => self.execute_bbs(execution_data, 1),
            BaseInstruction::BBS2 => self.execute_bbs(execution_data, 2),
            BaseInstruction::BBS3 => self.execute_bbs(execution_data, 3),
            BaseInstruction::BBS4 => self.execute_bbs(execution_data, 4),
            BaseInstruction::BBS5 => self.execute_bbs(execution_data, 5),
            BaseInstruction::BBS6 => self.execute_bbs(execution_data, 6),
            BaseInstruction::BBS7 => self.execute_bbs(execution_data, 7),
            BaseInstruction::RMB0 => self.execute_rmb(execution_data, 0),
            BaseInstruction::RMB1 => self.execute_rmb(execution_data, 1),
            BaseInstruction::RMB2 => self.execute_rmb(execution_data, 2),
            BaseInstruction::RMB3 => self.execute_rmb(execution_data, 3),
            BaseInstruction::RMB4 => self.execute_rmb(execution_data, 4),
            BaseInstruction::RMB5 => self.execute_rmb(execution_data, 5),
            BaseInstruction::RMB6 => self.execute_rmb(execution_data, 6),
            BaseInstruction::RMB7 => self.execute_rmb(execution_data, 7),
            BaseInstruction::SMB0 => self.execute_smb(execution_data, 0),
            BaseInstruction::SMB1 => self.execute_smb(execution_data, 1),
            BaseInstruction::SMB2 => self.execute_smb(execution_data, 2),
            BaseInstruction::SMB3 => self.execute_smb(execution_data, 3),
            BaseInstruction::SMB4 => self.execute_smb(execution_data, 4),
            BaseInstruction::SMB5 => self.execute_smb(execution_data, 5),
            BaseInstruction::SMB6 => self.execute_smb(execution_data, 6),
            BaseInstruction::SMB7 => self.execute_smb(execution_data, 7),
        };
        assert(additional_cycles <= 1);
        assert((additional_cycles, self@) == Self::spec_execute(s2, base_instruction, execution_data));

        cycles + if page_crossed && add_cycle_on_page_cross {
            1
        } else {
            0
        } + additional_cycles
    }
}

/// The two instruction sets: the NMOS 6502 with its undocumented instructions, and the
/// CMOS 65C02.
#[derive(PartialEq, Eq, Clone, Copy, Debug, Structural)]
pub enum InstructionSet {
    Nmos6502,
    Cmos65C02,
}

pub open spec fn spec_lookup(set: InstructionSet, op_code: u8) -> Instruction {
    match set {
        InstructionSet::Nmos6502 => spec_lookup_6502(op_code),
        InstructionSet::Cmos65C02 => spec_lookup_65c02(op_code),
    }
}

/// The instruction that an op code stands for in an instruction set.
pub fn lookup(set: InstructionSet, op_code: u8) -> (r: Instruction)
    ensures
        r == spec_lookup(set, op_code),
        r.0 != BaseInstruction::HLT ==> r.well_formed(),
{
    match set {
        InstructionSet::Nmos6502 => lookup_6502(op_code),
        InstructionSet::Cmos65C02 => lookup_65c02(op_code),
    }
}

impl<B: BusComponent> Cpu6502<B> {
    /// The op code at the program counter does not halt the processor.
    pub open spec fn can_step(s: Cpu6502State<B::V>, set: InstructionSet) -> bool {
        spec_lookup(set, B::read_value(s.bus, s.pc)).0 != BaseInstruction::HLT
    }

    /// Fetching the op code at the program counter and executing its instruction.
    pub open spec fn spec_step(s: Cpu6502State<B::V>, set: InstructionSet) -> (u32, Cpu6502State<B::V>) {
        let (op_code, s1) = Self::spec_read_next_word(s);
        Self::spec_execute_instruction(s1, spec_lookup(set, op_code))
    }

    /// The state after a reset: cleared registers, the stack pointer at its initial top, only
    /// the unused flag set, and the program counter loaded from the reset vector.
    pub open spec fn spec_reset(s: Cpu6502State<B::V>) -> (u32, Cpu6502State<B::V>) {
        let s1 = Cpu6502State {
            a: 0,
            x: 0,
            y: 0,
            sp: SP_INIT,
            status: StatusFlags { c: false, z: false, i: false, d: false, b: false, u: true, v: false, n: false },
            ..s
        };
        let (pc, s2) = Self::spec_read_address(s1, RESET_VECTOR);
        (8, Cpu6502State { pc, ..s2 })
    }

    /// An interrupt: the program counter and the status (break clear, interrupts masked)
    /// go on the stack and the program counter is loaded from `vector`.
    pub open spec fn spec_interrupt(s: Cpu6502State<B::V>, vector: u16) -> Cpu6502State<B::V> {
        let status = StatusFlags { b: false, u: true, i: true, ..s.status };
        let s1 = Self::spec_push_address(Self::with_status(s, status), s.pc);
        let s2 = Self::spec_push_word(s1, status.spec_bits());
        let (pc, s3) = Self::spec_read_address(s2, vector);
        Cpu6502State { pc, ..s3 }
    }

    /// An interrupt request is taken (in 7 cycles) only while interrupts are not masked.
    pub open spec fn spec_irq(s: Cpu6502State<B::V>) -> (u32, Cpu6502State<B::V>) {
        if !s.status.i {
            (7, Self::spec_interrupt(s, IRQ_VECTOR))
        } else {
            (0, s)
        }
    }

    /// A non-maskable interrupt is always taken, in 8 cycles.
    pub open spec fn spec_nmi(s: Cpu6502State<B::V>) -> (u32, Cpu6502State<B::V>) {
        (8, Self::spec_interrupt(s, NMI_VECTOR))
    }

    /// Reads the next op code and decodes it as the NMOS instruction set has it.
    pub(crate) fn read_next_instruction(&mut self) -> (r: Instruction)
        requires
            Self::bus_ok(old(self)@.bus),
        ensures
            Self::bus_ok(final(self)@.bus),
            r == spec_lookup(InstructionSet::Nmos6502, Self::spec_read_next_word(old(self)@).0),
            final(self)@ == Self::spec_read_next_word(old(self)@).1,
            r.0 != BaseInstruction::HLT ==> r.well_formed(),
    {
        let op_code = self.read_next_word();
        lookup_6502(op_code)
    }

    /// Whether the op code at the program counter is one that the processor can execute.
    pub fn can_execute_next(&self, set: InstructionSet) -> (r: bool)
        requires
            Self::bus_ok(self@.bus),
        ensures
            r == Self::can_step(self@, set),
    {
        let op_code = self.bus.peek(self.pc);
        let instruction = lookup(set, op_code);
        match instruction.0 {
            BaseInstruction::HLT => false,
            _ => true,
        }
    }

    /// Takes an interrupt request, unless interrupts are masked; returns the cycles taken.
    pub fn irq(&mut self) -> (r: u32)
        requires
            Self::bus_ok(old(self)@.bus),
        ensures
            Self::bus_ok(final(self)@.bus),
            (r, final(self)@) == Self::spec_irq(old(self)@),
    {
        if !self.status.i {
            self.status.b = false;
            self.status.u = true;
            self.status.i = true;

            let pc = self.pc;
            self.push_address(pc);
            let bits = self.status.bits();
            self.push_word(bits);

            self.pc = self.read_address(IRQ_VECTOR);

            7
        } else {
            0
        }
    }

    /// Takes a non-maskable interrupt; returns the cycles taken.
    pub fn nmi(&mut self) -> (r: u32)
        requires
            Self::bus_ok(old(self)@.bus),
        ensures
            Self::bus_ok(final(self)@.bus),
            (r, final(self)@) == Self::spec_nmi(old(self)@),
    {
        self.status.b = false;
        self.status.u = true;
        self.status.i = true;

        let pc = self.pc;
        self.push_address(pc);
        let bits = self.status.bits();
        self.push_word(bits);

        self.pc = self.read_address(NMI_VECTOR);

        8
    }

    /// Resets the processor; returns the cycles a reset takes.
    pub fn reset(&mut self) -> (r: u32)
        requires
            Self::bus_ok(old(self)@.bus),
        ensures
            Self::bus_ok(final(self)@.bus),
            (r, final(self)@) == Self::spec_reset(old(self)@),
    {
        self.a = 0;
        self.x = 0;
        self.y = 0;
        self.sp = SP_INIT;
        self.status = StatusFlags { c: false, z: false, i: false, d: false, b: false, u: true, v: false, n: false };
        self.pc = self.read_address(RESET_VECTOR);

        8
    }

    /// Fetches the instruction at the program counter and executes it; returns its cycles.
    pub fn execute_next_instruction(&mut self) -> (r: u32)
        requires
            Self::bus_ok(old(self)@.bus),
            Self::can_step(old(self)@, InstructionSet::Nmos6502),
        ensures
            Self::bus_ok(final(self)@.bus),
            (r, final(self)@) == Self::spec_step(old(self)@, InstructionSet::Nmos6502),
            1 <= r <= 10,
    {
        let instruction = self.read_next_instruction();
        self.execute_instruction(instruction)
    }
}

/// A CMOS 65C02: the 6502 with its indirect jump fixed, valid decimal flags, and the
/// 65C02 instruction set.
pub struct Cpu65C02<B> {
    pub base_cpu: Cpu6502<B>,
}

impl<B: BusComponent> View for Cpu65C02<B> {
    type V = Cpu6502State<B::V>;

    open spec fn view(&self) -> Cpu6502State<B::V> {
        self.base_cpu@
    }
}

impl<B: BusComponent> Cpu65C02<B> {
    pub fn new(bus: B, enable_decimal_mode: bool) -> (r: Self)
        ensures
            r@ == (Cpu6502State {
                a: 0,
                x: 0,
                y: 0,
                sp: 0,
                pc: 0,
                status: StatusFlags {
                    c: false,
                    z: false,
                    i: false,
                    d: false,
                    b: false,
                    u: false,
                    v: false,
                    n: false,
                },
                bus: bus@,
                emulate_indirect_jmp_bug: false,
                emulate_invalid_decimal_flags: false,
                enable_decimal_mode,
            }),
    {
        let mut base_cpu = Cpu6502::new(bus, enable_decimal_mode);
        base_cpu.emulate_indirect_jmp_bug = false;  // Fixed
        base_cpu.emulate_invalid_decimal_flags = false;
        Self { base_cpu }
    }

    /// Reads the next op code and decodes it as the 65C02 instruction set has it.
    fn read_next_instruction(&mut self) -> (r: Instruction)
        requires
            Cpu6502::<B>::bus_ok(old(self)@.bus),
        ensures
            Cpu6502::<B>::bus_ok(final(self)@.bus),
            r == spec_lookup(InstructionSet::Cmos65C02, Cpu6502::<B>::spec_read_next_word(old(self)@).0),
            final(self)@ == Cpu6502::<B>::spec_read_next_word(old(self)@).1,
            r.0 != BaseInstruction::HLT ==> r.well_formed(),
    {
        let op_code = self.base_cpu.read_next_word();
        lookup_65c02(op_code)
    }

    /// Takes an interrupt request, unless interrupts are masked.
    pub fn irq(&mut self) -> (r: u32)
        requires
            Cpu6502::<B>::bus_ok(old(self)@.bus),
        ensures
            Cpu6502::<B>::bus_ok(final(self)@.bus),
            (r, final(self)@) == Cpu6502::<B>::spec_irq(old(self)@),
    {
        self.base_cpu.irq()
    }

    /// Takes a non-maskable interrupt.
    pub fn nmi(&mut self) -> (r: u32)
        requires
            Cpu6502::<B>::bus_ok(old(self)@.bus),
        ensures
            Cpu6502::<B>::bus_ok(final(self)@.bus),
            (r, final(self)@) == Cpu6502::<B>::spec_nmi(old(self)@),
    {
        self.base_cpu.nmi()
    }

    /// Fetches the instruction at the program counter and executes it.
    pub fn execute_next_instruction(&mut self) -> (r: u32)
        requires
            Cpu6502::<B>::bus_ok(old(self)@.bus),
            Cpu6502::<B>::can_step(old(self)@, InstructionSet::Cmos65C02),
        ensures
            Cpu6502::<B>::bus_ok(final(self)@.bus),
            (r, final(self)@) == Cpu6502::<B>::spec_step(old(self)@, InstructionSet::Cmos65C02),
            1 <= r <= 10,
    {
        let instruction = self.read_next_instruction();
        self.base_cpu.execute_instruction(instruction)
    }
}

} // verus!
