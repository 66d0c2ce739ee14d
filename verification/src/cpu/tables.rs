use super::cpu6502::{AddressingMode, BaseInstruction, Instruction};
use vstd::prelude::*;

verus! {

/// The NMOS 6502 instruction set, undocumented instructions included.
pub open spec fn spec_lookup_6502(op_code: u8) -> Instruction {
    match op_code {
        0x00 => Instruction(BaseInstruction::BRK, AddressingMode::IMP, 7, false),
        0x01 => Instruction(BaseInstruction::ORA, AddressingMode::IZX, 6, false),
        0x02 => Instruction(BaseInstruction::HLT, AddressingMode::IMP, 0, false),
        0x03 => Instruction(BaseInstruction::SLO, AddressingMode::IZX, 8, false),
        0x04 => Instruction(BaseInstruction::NOP, AddressingMode::ZP0, 3, false),
        0x05 => Instruction(BaseInstruction::ORA, AddressingMode::ZP0, 3, false),
        0x06 => Instruction(BaseInstruction::ASL, AddressingMode::ZP0, 5, false),
        0x07 => Instruction(BaseInstruction::SLO, AddressingMode::ZP0, 5, false),
        0x08 => Instruction(BaseInstruction::PHP, AddressingMode::IMP, 3, false),
        0x09 => Instruction(BaseInstruction::ORA, AddressingMode::IMM, 2, false),
        0x0A => Instruction(BaseInstruction::ASL, AddressingMode::IMP, 2, false),
        0x0B => Instruction(BaseInstruction::ANC, AddressingMode::IMM, 2, false),
        0x0C => Instruction(BaseInstruction::NOP, AddressingMode::ABS, 4, false),
        0x0D => Instruction(BaseInstruction::ORA, AddressingMode::ABS, 4, false),
        0x0E => Instruction(BaseInstruction::ASL, AddressingMode::ABS, 6, false),
        0x0F => Instruction(BaseInstruction::SLO, AddressingMode::ABS, 6, false),
        0x10 => Instruction(BaseInstruction::BPL, AddressingMode::REL, 2, true),
        0x11 => Instruction(BaseInstruction::ORA, AddressingMode::IZY, 5, true),
        0x12 => Instruction(BaseInstruction::HLT, AddressingMode::IMP, 0, false),
        0x13 => Instruction(BaseInstruction::SLO, AddressingMode::IZY, 8, false),
        0x14 => Instruction(BaseInstruction::NOP, AddressingMode::ZPX, 4, false),
        0x15 => Instruction(BaseInstruction::ORA, AddressingMode::ZPX, 4, false),
        0x16 => Instruction(BaseInstruction::ASL, AddressingMode::ZPX, 6, false),
        0x17 => Instruction(BaseInstruction::SLO, AddressingMode::ZPX, 6, false),
        0x18 => Instruction(BaseInstruction::CLC, AddressingMode::IMP, 2, false),
        0x19 => Instruction(BaseInstruction::ORA, AddressingMode::ABY, 4, true),
        0x1A => Instruction(BaseInstruction::NOP, AddressingMode::IMP, 2, false),
        0x1B => Instruction(BaseInstruction::SLO, AddressingMode::ABY, 7, false),
        0x1C => Instruction(BaseInstruction::NOP, AddressingMode::ABX, 4, true),
        0x1D => Instruction(BaseInstruction::ORA, AddressingMode::ABX, 4, true),
        0x1E => Instruction(BaseInstruction::ASL, AddressingMode::ABX, 7, false),
        0x1F => Instruction(BaseInstruction::SLO, AddressingMode::ABX, 7, false),
        0x20 => Instruction(BaseInstruction::JSR, AddressingMode::ABS, 6, false),
        0x21 => Instruction(BaseInstruction::AND, AddressingMode::IZX, 6, false),
        0x22 => Instruction(BaseInstruction::HLT, AddressingMode::IMP, 0, false),
        0x23 => Instruction(BaseInstruction::RLA, AddressingMode::IZX, 8, false),
        0x24 => Instruction(BaseInstruction::BIT, AddressingMode::ZP0, 3, false),
        0x25 => Instruction(BaseInstruction::AND, AddressingMode::ZP0, 3, false),
        0x26 => Instruction(BaseInstruction::ROL, AddressingMode::ZP0, 5, false),
        0x27 => Instruction(BaseInstruction::RLA, AddressingMode::ZP0, 5, false),
        0x28 => Instruction(BaseInstruction::PLP, AddressingMode::IMP, 4, false),
        0x29 => Instruction(BaseInstruction::AND, AddressingMode::IMM, 2, false),
        0x2A => Instruction(BaseInstruction::ROL, AddressingMode::IMP, 2, false),
        0x2B => Instruction(BaseInstruction::ANC, AddressingMode::IMM, 2, false),
        0x2C => Instruction(BaseInstruction::BIT, AddressingMode::ABS, 4, false),
        0x2D => Instruction(BaseInstruction::AND, AddressingMode::ABS, 4, false),
        0x2E => Instruction(BaseInstruction::ROL, AddressingMode::ABS, 6, false),
        0x2F => Instruction(BaseInstruction::RLA, AddressingMode::ABS, 6, false),
        0x30 => Instruction(BaseInstruction::BMI, AddressingMode::REL, 2, true),
        0x31 => Instruction(BaseInstruction::AND, AddressingMode::IZY, 5, true),
        0x32 => Instruction(BaseInstruction::HLT, AddressingMode::IMP, 0, false),
        0x33 => Instruction(BaseInstruction::RLA, AddressingMode::IZY, 8, false),
        0x34 => Instruction(BaseInstruction::NOP, AddressingMode::ZPX, 4, false),
        0x35 => Instruction(BaseInstruction::AND, AddressingMode::ZPX, 4, false),
        0x36 => Instruction(BaseInstruction::ROL, AddressingMode::ZPX, 6, false),
        0x37 => Instruction(BaseInstruction::RLA, AddressingMode::ZPX, 6, false),
        0x38 => Instruction(BaseInstruction::SEC, AddressingMode::IMP, 2, false),
        0x39 => Instruction(BaseInstruction::AND, AddressingMode::ABY, 4, true),
        0x3A => Instruction(BaseInstruction::NOP, AddressingMode::IMP, 2, false),
        0x3B => Instruction(BaseInstruction::RLA, AddressingMode::ABY, 7, false),
        0x3C => Instruction(BaseInstruction::NOP, AddressingMode::ABX, 4, true),
        0x3D => Instruction(BaseInstruction::AND, AddressingMode::ABX, 4, true),
        0x3E => Instruction(BaseInstruction::ROL, AddressingMode::ABX, 7, false),
        0x3F => Instruction(BaseInstruction::RLA, AddressingMode::ABX, 7, false),
        0x40 => Instruction(BaseInstruction::RTI, AddressingMode::IMP, 6, false),
        0x41 => Instruction(BaseInstruction::EOR, AddressingMode::IZX, 6, false),
        0x42 => Instruction(BaseInstruction::HLT, AddressingMode::IMP, 0, false),
        0x43 => Instruction(BaseInstruction::SRE, AddressingMode::IZX, 8, false),
        0x44 => Instruction(BaseInstruction::NOP, AddressingMode::ZP0, 3, false),
        0x45 => Instruction(BaseInstruction::EOR, AddressingMode::ZP0, 3, false),
        0x46 => Instruction(BaseInstruction::LSR, AddressingMode::ZP0, 5, false),
        0x47 => Instruction(BaseInstruction::SRE, AddressingMode::ZP0, 5, false),
        0x48 => Instruction(BaseInstruction::PHA, AddressingMode::IMP, 3, false),
        0x49 => Instruction(BaseInstruction::EOR, AddressingMode::IMM, 2, false),
        0x4A => Instruction(BaseInstruction::LSR, AddressingMode::IMP, 2, false),
        0x4B => Instruction(BaseInstruction::ALR, AddressingMode::IMM, 2, false),
        0x4C => Instruction(BaseInstruction::JMP, AddressingMode::ABS, 3, false),
        0x4D => Instruction(BaseInstruction::EOR, AddressingMode::ABS, 4, false),
        0x4E => Instruction(BaseInstruction::LSR, AddressingMode::ABS, 6, false),
        0x4F => Instruction(BaseInstruction::SRE, AddressingMode::ABS, 6, false),
        0x50 => Instruction(BaseInstruction::BVC, AddressingMode::REL, 2, true),
        0x51 => Instruction(BaseInstruction::EOR, AddressingMode::IZY, 5, true),
        0x52 => Instruction(BaseInstruction::HLT, AddressingMode::IMP, 0, false),
        0x53 => Instruction(BaseInstruction::SRE, AddressingMode::IZY, 8, false),
        0x54 => Instruction(BaseInstruction::NOP, AddressingMode::ZPX, 4, false),
        0x55 => Instruction(BaseInstruction::EOR, AddressingMode::ZPX, 4, false),
        0x56 => Instruction(BaseInstruction::LSR, AddressingMode::ZPX, 6, false),
        0x57 => Instruction(BaseInstruction::SRE, AddressingMode::ZPX, 6, false),
        0x58 => Instruction(BaseInstruction::CLI, AddressingMode::IMP, 2, false),
        0x59 => Instruction(BaseInstruction::EOR, AddressingMode::ABY, 4, true),
        0x5A => Instruction(BaseInstruction::NOP, AddressingMode::IMP, 2, false),
        0x5B => Instruction(BaseInstruction::SRE, AddressingMode::ABY, 7, false),
        0x5C => Instruction(BaseInstruction::NOP, AddressingMode::ABX, 4, true),
        0x5D => Instruction(BaseInstruction::EOR, AddressingMode::ABX, 4, true),
        0x5E => Instruction(BaseInstruction::LSR, AddressingMode::ABX, 7, false),
        0x5F => Instruction(BaseInstruction::SRE, AddressingMode::ABX, 7, false),
        0x60 => Instruction(BaseInstruction::RTS, AddressingMode::IMP, 6, false),
        0x61 => Instruction(BaseInstruction::ADC, AddressingMode::IZX, 6, false),
        0x62 => Instruction(BaseInstruction::HLT, AddressingMode::IMP, 0, false),
        0x63 => Instruction(BaseInstruction::RRA, AddressingMode::IZX, 8, false),
        0x64 => Instruction(BaseInstruction::NOP, AddressingMode::ZP0, 3, false),
        0x65 => Instruction(BaseInstruction::ADC, AddressingMode::ZP0, 3, false),
        0x66 => Instruction(BaseInstruction::ROR, AddressingMode::ZP0, 5, false),
        0x67 => Instruction(BaseInstruction::RRA, AddressingMode::ZP0, 5, false),
        0x68 => Instruction(BaseInstruction::PLA, AddressingMode::IMP, 4, false),
        0x69 => Instruction(BaseInstruction::ADC, AddressingMode::IMM, 2, false),
        0x6A => Instruction(BaseInstruction::ROR, AddressingMode::IMP, 2, false),
        0x6B => Instruction(BaseInstruction::ARR, AddressingMode::IMM, 2, false),
        0x6C => Instruction(BaseInstruction::JMP, AddressingMode::IND, 5, false),
        0x6D => Instruction(BaseInstruction::ADC, AddressingMode::ABS, 4, false),
        0x6E => Instruction(BaseInstruction::ROR, AddressingMode::ABS, 6, false),
        0x6F => Instruction(BaseInstruction::RRA, AddressingMode::ABS, 6, false),
        0x70 => Instruction(BaseInstruction::BVS, AddressingMode::REL, 2, true),
        0x71 => Instruction(BaseInstruction::ADC, AddressingMode::IZY, 5, true),
        0x72 => Instruction(BaseInstruction::HLT, AddressingMode::IMP, 0, false),
        0x73 => Instruction(BaseInstruction::RRA, AddressingMode::IZY, 8, false),
        0x74 => Instruction(BaseInstruction::NOP, AddressingMode::ZPX, 4, false),
        0x75 => Instruction(BaseInstruction::ADC, AddressingMode::ZPX, 4, false),
        0x76 => Instruction(BaseInstruction::ROR, AddressingMode::ZPX, 6, false),
        0x77 => Instruction(BaseInstruction::RRA, AddressingMode::ZPX, 6, false),
        0x78 => Instruction(BaseInstruction::SEI, AddressingMode::IMP, 2, false),
        0x79 => Instruction(BaseInstruction::ADC, AddressingMode::ABY, 4, true),
        0x7A => Instruction(BaseInstruction::NOP, AddressingMode::IMP, 2, false),
        0x7B => Instruction(BaseInstruction::RRA, AddressingMode::ABY, 7, false),
        0x7C => Instruction(BaseInstruction::NOP, AddressingMode::ABX, 4, true),
        0x7D => Instruction(BaseInstruction::ADC, AddressingMode::ABX, 4, true),
        0x7E => Instruction(BaseInstruction::ROR, AddressingMode::ABX, 7, false),
        0x7F => Instruction(BaseInstruction::RRA, AddressingMode::ABX, 7, false),
        0x80 => Instruction(BaseInstruction::NOP, AddressingMode::IMM, 2, false),
        0x81 => Instruction(BaseInstruction::STA, AddressingMode::IZX, 6, false),
        0x82 => Instruction(BaseInstruction::NOP, AddressingMode::IMM, 2, false),
        0x83 => Instruction(BaseInstruction::SAX, AddressingMode::IZX, 6, false),
        0x84 => Instruction(BaseInstruction::STY, AddressingMode::ZP0, 3, false),
        0x85 => Instruction(BaseInstruction::STA, AddressingMode::ZP0, 3, false),
        0x86 => Instruction(BaseInstruction::STX, AddressingMode::ZP0, 3, false),
        0x87 => Instruction(BaseInstruction::SAX, AddressingMode::ZP0, 3, false),
        0x88 => Instruction(BaseInstruction::DEY, AddressingMode::IMP, 2, false),
        0x89 => Instruction(BaseInstruction::NOP, AddressingMode::IMM, 2, false),
        0x8A => Instruction(BaseInstruction::TXA, AddressingMode::IMP, 2, false),
        0x8B => Instruction(BaseInstruction::XAA, AddressingMode::IMM, 2, false),
        0x8C => Instruction(BaseInstruction::STY, AddressingMode::ABS, 4, false),
        0x8D => Instruction(BaseInstruction::STA, AddressingMode::ABS, 4, false),
        0x8E => Instruction(BaseInstruction::STX, AddressingMode::ABS, 4, false),
        0x8F => Instruction(BaseInstruction::SAX, AddressingMode::ABS, 4, false),
        0x90 => Instruction(BaseInstruction::BCC, AddressingMode::REL, 2, true),
        0x91 => Instruction(BaseInstruction::STA, AddressingMode::IZY, 6, false),
        0x92 => Instruction(BaseInstruction::HLT, AddressingMode::IMP, 0, false),
        0x93 => Instruction(BaseInstruction::AHX, AddressingMode::IZY, 6, false),
        0x94 => Instruction(BaseInstruction::STY, AddressingMode::ZPX, 4, false),
        0x95 => Instruction(BaseInstruction::STA, AddressingMode::ZPX, 4, false),
        0x96 => Instruction(BaseInstruction::STX, AddressingMode::ZPY, 4, false),
        0x97 => Instruction(BaseInstruction::SAX, AddressingMode::ZPY, 4, false),
        0x98 => Instruction(BaseInstruction::TYA, AddressingMode::IMP, 2, false),
        0x99 => Instruction(BaseInstruction::STA, AddressingMode::ABY, 5, false),
        0x9A => Instruction(BaseInstruction::TXS, AddressingMode::IMP, 2, false),
        0x9B => Instruction(BaseInstruction::TAS, AddressingMode::ABY, 5, false),
        0x9C => Instruction(BaseInstruction::SHY, AddressingMode::ABX, 5, false),
        0x9D => Instruction(BaseInstruction::STA, AddressingMode::ABX, 5, false),
        0x9E => Instruction(BaseInstruction::SHX, AddressingMode::ABY, 5, false),
        0x9F => Instruction(BaseInstruction::AHX, AddressingMode::ABY, 5, false),
        0xA0 => Instruction(BaseInstruction::LDY, AddressingMode::IMM, 2, false),
        0xA1 => Instruction(BaseInstruction::LDA, AddressingMode::IZX, 6, false),
        0xA2 => Instruction(BaseInstruction::LDX, AddressingMode::IMM, 2, false),
        0xA3 => Instruction(BaseInstruction::LAX, AddressingMode::IZX, 6, false),
        0xA4 => Instruction(BaseInstruction::LDY, AddressingMode::ZP0, 3, false),
        0xA5 => Instruction(BaseInstruction::LDA, AddressingMode::ZP0, 3, false),
        0xA6 => Instruction(BaseInstruction::LDX, AddressingMode::ZP0, 3, false),
        0xA7 => Instruction(BaseInstruction::LAX, AddressingMode::ZP0, 3, false),
        0xA8 => Instruction(BaseInstruction::TAY, AddressingMode::IMP, 2, false),
        0xA9 => Instruction(BaseInstruction::LDA, AddressingMode::IMM, 2, false),
        0xAA => Instruction(BaseInstruction::TAX, AddressingMode::IMP, 2, false),
        0xAB => Instruction(BaseInstruction::LAX, AddressingMode::IMM, 2, false),
        0xAC => Instruction(BaseInstruction::LDY, AddressingMode::ABS, 4, false),
        0xAD => Instruction(BaseInstruction::LDA, AddressingMode::ABS, 4, false),
        0xAE => Instruction(BaseInstruction::LDX, AddressingMode::ABS, 4, false),
        0xAF => Instruction(BaseInstruction::LAX, AddressingMode::ABS, 4, false),
        0xB0 => Instruction(BaseInstruction::BCS, AddressingMode::REL, 2, true),
        0xB1 => Instruction(BaseInstruction::LDA, AddressingMode::IZY, 5, true),
        0xB2 => Instruction(BaseInstruction::HLT, AddressingMode::IMP, 0, false),
        0xB3 => Instruction(BaseInstruction::LAX, AddressingMode::IZY, 5, true),
        0xB4 => Instruction(BaseInstruction::LDY, AddressingMode::ZPX, 4, false),
        0xB5 => Instruction(BaseInstruction::LDA, AddressingMode::ZPX, 4, false),
        0xB6 => Instruction(BaseInstruction::LDX, AddressingMode::ZPY, 4, false),
        0xB7 => Instruction(BaseInstruction::LAX, AddressingMode::ZPY, 4, false),
        0xB8 => Instruction(BaseInstruction::CLV, AddressingMode::IMP, 2, false),
        0xB9 => Instruction(BaseInstruction::LDA, AddressingMode::ABY, 4, true),
        0xBA => Instruction(BaseInstruction::TSX, AddressingMode::IMP, 2, false),
        0xBB => Instruction(BaseInstruction::LAS, AddressingMode::ABY, 4, true),
        0xBC => Instruction(BaseInstruction::LDY, AddressingMode::ABX, 4, true),
        0xBD => Instruction(BaseInstruction::LDA, AddressingMode::ABX, 4, true),
        0xBE => Instruction(BaseInstruction::LDX, AddressingMode::ABY, 4, true),
        0xBF => Instruction(BaseInstruction::LAX, AddressingMode::ABY, 4, true),
        0xC0 => Instruction(BaseInstruction::CPY, AddressingMode::IMM, 2, false),
        0xC1 => Instruction(BaseInstruction::CMP, AddressingMode::IZX, 6, false),
        0xC2 => Instruction(BaseInstruction::NOP, AddressingMode::IMM, 2, false),
        0xC3 => Instruction(BaseInstruction::DCP, AddressingMode::IZX, 8, false),
        0xC4 => Instruction(BaseInstruction::CPY, AddressingMode::ZP0, 3, false),
        0xC5 => Instruction(BaseInstruction::CMP, AddressingMode::ZP0, 3, false),
        0xC6 => Instruction(BaseInstruction::DEC, AddressingMode::ZP0, 5, false),
        0xC7 => Instruction(BaseInstruction::DCP, AddressingMode::ZP0, 5, false),
        0xC8 => Instruction(BaseInstruction::INY, AddressingMode::IMP, 2, false),
        0xC9 => Instruction(BaseInstruction::CMP, AddressingMode::IMM, 2, false),
        0xCA => Instruction(BaseInstruction::DEX, AddressingMode::IMP, 2, false),
        0xCB => Instruction(BaseInstruction::AXS, AddressingMode::IMM, 2, false),
        0xCC => Instruction(BaseInstruction::CPY, AddressingMode::ABS, 4, false),
        0xCD => Instruction(BaseInstruction::CMP, AddressingMode::ABS, 4, false),
        0xCE => Instruction(BaseInstruction::DEC, AddressingMode::ABS, 6, false),
        0xCF => Instruction(BaseInstruction::DCP, AddressingMode::ABS, 6, false),
        0xD0 => Instruction(BaseInstruction::BNE, AddressingMode::REL, 2, true),
        0xD1 => Instruction(BaseInstruction::CMP, AddressingMode::IZY, 5, true),
        0xD2 => Instruction(BaseInstruction::HLT, AddressingMode::IMP, 0, false),
        0xD3 => Instruction(BaseInstruction::DCP, AddressingMode::IZY, 8, false),
        0xD4 => Instruction(BaseInstruction::NOP, AddressingMode::ZPX, 4, false),
        0xD5 => Instruction(BaseInstruction::CMP, AddressingMode::ZPX, 4, false),
        0xD6 => Instruction(BaseInstruction::DEC, AddressingMode::ZPX, 6, false),
        0xD7 => Instruction(BaseInstruction::DCP, AddressingMode::ZPX, 6, false),
        0xD8 => Instruction(BaseInstruction::CLD, AddressingMode::IMP, 2, false),
        0xD9 => Instruction(BaseInstruction::CMP, AddressingMode::ABY, 4, true),
        0xDA => Instruction(BaseInstruction::NOP, AddressingMode::IMP, 2, false),
        0xDB => Instruction(BaseInstruction::DCP, AddressingMode::ABY, 7, false),
        0xDC => Instruction(BaseInstruction::NOP, AddressingMode::ABX, 4, true),
        0xDD => Instruction(BaseInstruction::CMP, AddressingMode::ABX, 4, true),
        0xDE => Instruction(BaseInstruction::DEC, AddressingMode::ABX, 7, false),
        0xDF => Instruction(BaseInstruction::DCP, AddressingMode::ABX, 7, false),
        0xE0 => Instruction(BaseInstruction::CPX, AddressingMode::IMM, 2, false),
        0xE1 => Instruction(BaseInstruction::SBC, AddressingMode::IZX, 6, false),
        0xE2 => Instruction(BaseInstruction::NOP, AddressingMode::IMM, 2, false),
        0xE3 => Instruction(BaseInstruction::ISC, AddressingMode::IZX, 8, false),
        0xE4 => Instruction(BaseInstruction::CPX, AddressingMode::ZP0, 3, false),
        0xE5 => Instruction(BaseInstruction::SBC, AddressingMode::ZP0, 3, false),
        0xE6 => Instruction(BaseInstruction::INC, AddressingMode::ZP0, 5, false),
        0xE7 => Instruction(BaseInstruction::ISC, AddressingMode::ZP0, 5, false),
        0xE8 => Instruction(BaseInstruction::INX, AddressingMode::IMP, 2, false),
        0xE9 => Instruction(BaseInstruction::SBC, AddressingMode::IMM, 2, false),
        0xEA => Instruction(BaseInstruction::NOP, AddressingMode::IMP, 2, false),
        0xEB => Instruction(BaseInstruction::SBC, AddressingMode::IMM, 2, false),
        0xEC => Instruction(BaseInstruction::CPX, AddressingMode::ABS, 4, false),
        0xED => Instruction(BaseInstruction::SBC, AddressingMode::ABS, 4, false),
        0xEE => Instruction(BaseInstruction::INC, AddressingMode::ABS, 6, false),
        0xEF => Instruction(BaseInstruction::ISC, AddressingMode::ABS, 6, false),
        0xF0 => Instruction(BaseInstruction::BEQ, AddressingMode::REL, 2, true),
        0xF1 => Instruction(BaseInstruction::SBC, AddressingMode::IZY, 5, true),
        0xF2 => Instruction(BaseInstruction::HLT, AddressingMode::IMP, 0, false),
        0xF3 => Instruction(BaseInstruction::ISC, AddressingMode::IZY, 8, false),
        0xF4 => Instruction(BaseInstruction::NOP, AddressingMode::ZPX, 4, false),
        0xF5 => Instruction(BaseInstruction::SBC, AddressingMode::ZPX, 4, false),
        0xF6 => Instruction(BaseInstruction::INC, AddressingMode::ZPX, 6, false),
        0xF7 => Instruction(BaseInstruction::ISC, AddressingMode::ZPX, 6, false),
        0xF8 => Instruction(BaseInstruction::SED, AddressingMode::IMP, 2, false),
        0xF9 => Instruction(BaseInstruction::SBC, AddressingMode::ABY, 4, true),
        0xFA => Instruction(BaseInstruction::NOP, AddressingMode::IMP, 2, false),
        0xFB => Instruction(BaseInstruction::ISC, AddressingMode::ABY, 7, false),
        0xFC => Instruction(BaseInstruction::NOP, AddressingMode::ABX, 4, true),
        0xFD => Instruction(BaseInstruction::SBC, AddressingMode::ABX, 4, true),
        0xFE => Instruction(BaseInstruction::INC, AddressingMode::ABX, 7, false),
        0xFF => Instruction(BaseInstruction::ISC, AddressingMode::ABX, 7, false),
    }
}

/// The NMOS 6502 instruction set, undocumented instructions included.
pub fn lookup_6502(op_code: u8) -> (r: Instruction)
    ensures
        r == spec_lookup_6502(op_code),
        r.0 != BaseInstruction::HLT ==> r.well_formed(),
{
    match op_code {
        0x00 => Instruction(BaseInstruction::BRK, AddressingMode::IMP, 7, false),
        0x01 => Instruction(BaseInstruction::ORA, AddressingMode::IZX, 6, false),
        0x02 => Instruction(BaseInstruction::HLT, AddressingMode::IMP, 0, false),
        0x03 => Instruction(BaseInstruction::SLO, AddressingMode::IZX, 8, false),
        0x04 => Instruction(BaseInstruction::NOP, AddressingMode::ZP0, 3, false),
        0x05 => Instruction(BaseInstruction::ORA, AddressingMode::ZP0, 3, false),
        0x06 => Instruction(BaseInstruction::ASL, AddressingMode::ZP0, 5, false),
        0x07 => Instruction(BaseInstruction::SLO, AddressingMode::ZP0, 5, false),
        0x08 => Instruction(BaseInstruction::PHP, AddressingMode::IMP, 3, false),
        0x09 => Instruction(BaseInstruction::ORA, AddressingMode::IMM, 2, false),
        0x0A => Instruction(BaseInstruction::ASL, AddressingMode::IMP, 2, false),
        0x0B => Instruction(BaseInstruction::ANC, AddressingMode::IMM, 2, false),
        0x0C => Instruction(BaseInstruction::NOP, AddressingMode::ABS, 4, false),
        0x0D => Instruction(BaseInstruction::ORA, AddressingMode::ABS, 4, false),
        0x0E => Instruction(BaseInstruction::ASL, AddressingMode::ABS, 6, false),
        0x0F => Instruction(BaseInstruction::SLO, AddressingMode::ABS, 6, false),
        0x10 => Instruction(BaseInstruction::BPL, AddressingMode::REL, 2, true),
        0x11 => Instruction(BaseInstruction::ORA, AddressingMode::IZY, 5, true),
        0x12 => Instruction(BaseInstruction::HLT, AddressingMode::IMP, 0, false),
        0x13 => Instruction(BaseInstruction::SLO, AddressingMode::IZY, 8, false),
        0x14 => Instruction(BaseInstruction::NOP, AddressingMode::ZPX, 4, false),
        0x15 => Instruction(BaseInstruction::ORA, AddressingMode::ZPX, 4, false),
        0x16 => Instruction(BaseInstruction::ASL, AddressingMode::ZPX, 6, false),
        0x17 => Instruction(BaseInstruction::SLO, AddressingMode::ZPX, 6, false),
        0x18 => Instruction(BaseInstruction::CLC, AddressingMode::IMP, 2, false),
        0x19 => Instruction(BaseInstruction::ORA, AddressingMode::ABY, 4, true),
        0x1A => Instruction(BaseInstruction::NOP, AddressingMode::IMP, 2, false),
        0x1B => Instruction(BaseInstruction::SLO, AddressingMode::ABY, 7, false),
        0x1C => Instruction(BaseInstruction::NOP, AddressingMode::ABX, 4, true),
        0x1D => Instruction(BaseInstruction::ORA, AddressingMode::ABX, 4, true),
        0x1E => Instruction(BaseInstruction::ASL, AddressingMode::ABX, 7, false),
        0x1F => Instruction(BaseInstruction::SLO, AddressingMode::ABX, 7, false),
        0x20 => Instruction(BaseInstruction::JSR, AddressingMode::ABS, 6, false),
        0x21 => Instruction(BaseInstruction::AND, AddressingMode::IZX, 6, false),
        0x22 => Instruction(BaseInstruction::HLT, AddressingMode::IMP, 0, false),
        0x23 => Instruction(BaseInstruction::RLA, AddressingMode::IZX, 8, false),
        0x24 => Instruction(BaseInstruction::BIT, AddressingMode::ZP0, 3, false),
        0x25 => Instruction(BaseInstruction::AND, AddressingMode::ZP0, 3, false),
        0x26 => Instruction(BaseInstruction::ROL, AddressingMode::ZP0, 5, false),
        0x27 => Instruction(BaseInstruction::RLA, AddressingMode::ZP0, 5, false),
        0x28 => Instruction(BaseInstruction::PLP, AddressingMode::IMP, 4, false),
        0x29 => Instruction(BaseInstruction::AND, AddressingMode::IMM, 2, false),
        0x2A => Instruction(BaseInstruction::ROL, AddressingMode::IMP, 2, false),
        0x2B => Instruction(BaseInstruction::ANC, AddressingMode::IMM, 2, false),
        0x2C => Instruction(BaseInstruction::BIT, AddressingMode::ABS, 4, false),
        0x2D => Instruction(BaseInstruction::AND, AddressingMode::ABS, 4, false),
        0x2E => Instruction(BaseInstruction::ROL, AddressingMode::ABS, 6, false),
        0x2F => Instruction(BaseInstruction::RLA, AddressingMode::ABS, 6, false),
        0x30 => Instruction(BaseInstruction::BMI, AddressingMode::REL, 2, true),
        0x31 => Instruction(BaseInstruction::AND, AddressingMode::IZY, 5, true),
        0x32 => Instruction(BaseInstruction::HLT, AddressingMode::IMP, 0, false),
        0x33 => Instruction(BaseInstruction::RLA, AddressingMode::IZY, 8, false),
        0x34 => Instruction(BaseInstruction::NOP, AddressingMode::ZPX, 4, false),
        0x35 => Instruction(BaseInstruction::AND, AddressingMode::ZPX, 4, false),
        0x36 => Instruction(BaseInstruction::ROL, AddressingMode::ZPX, 6, false),
        0x37 => Instruction(BaseInstruction::RLA, AddressingMode::ZPX, 6, false),
        0x38 => Instruction(BaseInstruction::SEC, AddressingMode::IMP, 2, false),
        0x39 => Instruction(BaseInstruction::AND, AddressingMode::ABY, 4, true),
        0x3A => Instruction(BaseInstruction::NOP, AddressingMode::IMP, 2, false),
        0x3B => Instruction(BaseInstruction::RLA, AddressingMode::ABY, 7, false),
        0x3C => Instruction(BaseInstruction::NOP, AddressingMode::ABX, 4, true),
        0x3D => Instruction(BaseInstruction::AND, AddressingMode::ABX, 4, true),
        0x3E => Instruction(BaseInstruction::ROL, AddressingMode::ABX, 7, false),
        0x3F => Instruction(BaseInstruction::RLA, AddressingMode::ABX, 7, false),
        0x40 => Instruction(BaseInstruction::RTI, AddressingMode::IMP, 6, false),
        0x41 => Instruction(BaseInstruction::EOR, AddressingMode::IZX, 6, false),
        0x42 => Instruction(BaseInstruction::HLT, AddressingMode::IMP, 0, false),
        0x43 => Instruction(BaseInstruction::SRE, AddressingMode::IZX, 8, false),
        0x44 => Instruction(BaseInstruction::NOP, AddressingMode::ZP0, 3, false),
        0x45 => Instruction(BaseInstruction::EOR, AddressingMode::ZP0, 3, false),
        0x46 => Instruction(BaseInstruction::LSR, AddressingMode::ZP0, 5, false),
        0x47 => Instruction(BaseInstruction::SRE, AddressingMode::ZP0, 5, false),
        0x48 => Instruction(BaseInstruction::PHA, AddressingMode::IMP, 3, false),
        0x49 => Instruction(BaseInstruction::EOR, AddressingMode::IMM, 2, false),
        0x4A => Instruction(BaseInstruction::LSR, AddressingMode::IMP, 2, false),
        0x4B => Instruction(BaseInstruction::ALR, AddressingMode::IMM, 2, false),
        0x4C => Instruction(BaseInstruction::JMP, AddressingMode::ABS, 3, false),
        0x4D => Instruction(BaseInstruction::EOR, AddressingMode::ABS, 4, false),
        0x4E => Instruction(BaseInstruction::LSR, AddressingMode::ABS, 6, false),
        0x4F => Instruction(BaseInstruction::SRE, AddressingMode::ABS, 6, false),
        0x50 => Instruction(BaseInstruction::BVC, AddressingMode::REL, 2, true),
        0x51 => Instruction(BaseInstruction::EOR, AddressingMode::IZY, 5, true),
        0x52 => Instruction(BaseInstruction::HLT, AddressingMode::IMP, 0, false),
        0x53 => Instruction(BaseInstruction::SRE, AddressingMode::IZY, 8, false),
        0x54 => Instruction(BaseInstruction::NOP, AddressingMode::ZPX, 4, false),
        0x55 => Instruction(BaseInstruction::EOR, AddressingMode::ZPX, 4, false),
        0x56 => Instruction(BaseInstruction::LSR, AddressingMode::ZPX, 6, false),
        0x57 => Instruction(BaseInstruction::SRE, AddressingMode::ZPX, 6, false),
        0x58 => Instruction(BaseInstruction::CLI, AddressingMode::IMP, 2, false),
        0x59 => Instruction(BaseInstruction::EOR, AddressingMode::ABY, 4, true),
        0x5A => Instruction(BaseInstruction::NOP, AddressingMode::IMP, 2, false),
        0x5B => Instruction(BaseInstruction::SRE, AddressingMode::ABY, 7, false),
        0x5C => Instruction(BaseInstruction::NOP, AddressingMode::ABX, 4, true),
        0x5D => Instruction(BaseInstruction::EOR, AddressingMode::ABX, 4, true),
        0x5E => Instruction(BaseInstruction::LSR, AddressingMode::ABX, 7, false),
        0x5F => Instruction(BaseInstruction::SRE, AddressingMode::ABX, 7, false),
        0x60 => Instruction(BaseInstruction::RTS, AddressingMode::IMP, 6, false),
        0x61 => Instruction(BaseInstruction::ADC, AddressingMode::IZX, 6, false),
        0x62 => Instruction(BaseInstruction::HLT, AddressingMode::IMP, 0, false),
        0x63 => Instruction(BaseInstruction::RRA, AddressingMode::IZX, 8, false),
        0x64 => Instruction(BaseInstruction::NOP, AddressingMode::ZP0, 3, false),
        0x65 => Instruction(BaseInstruction::ADC, AddressingMode::ZP0, 3, false),
        0x66 => Instruction(BaseInstruction::ROR, AddressingMode::ZP0, 5, false),
        0x67 => Instruction(BaseInstruction::RRA, AddressingMode::ZP0, 5, false),
        0x68 => Instruction(BaseInstruction::PLA, AddressingMode::IMP, 4, false),
        0x69 => Instruction(BaseInstruction::ADC, AddressingMode::IMM, 2, false),
        0x6A => Instruction(BaseInstruction::ROR, AddressingMode::IMP, 2, false),
        0x6B => Instruction(BaseInstruction::ARR, AddressingMode::IMM, 2, false),
        0x6C => Instruction(BaseInstruction::JMP, AddressingMode::IND, 5, false),
        0x6D => Instruction(BaseInstruction::ADC, AddressingMode::ABS, 4, false),
        0x6E => Instruction(BaseInstruction::ROR, AddressingMode::ABS, 6, false),
        0x6F => Instruction(BaseInstruction::RRA, AddressingMode::ABS, 6, false),
        0x70 => Instruction(BaseInstruction::BVS, AddressingMode::REL, 2, true),
        0x71 => Instruction(BaseInstruction::ADC, AddressingMode::IZY, 5, true),
        0x72 => Instruction(BaseInstruction::HLT, AddressingMode::IMP, 0, false),
        0x73 => Instruction(BaseInstruction::RRA, AddressingMode::IZY, 8, false),
        0x74 => Instruction(BaseInstruction::NOP, AddressingMode::ZPX, 4, false),
        0x75 => Instruction(BaseInstruction::ADC, AddressingMode::ZPX, 4, false),
        0x76 => Instruction(BaseInstruction::ROR, AddressingMode::ZPX, 6, false),
        0x77 => Instruction(BaseInstruction::RRA, AddressingMode::ZPX, 6, false),
        0x78 => Instruction(BaseInstruction::SEI, AddressingMode::IMP, 2, false),
        0x79 => Instruction(BaseInstruction::ADC, AddressingMode::ABY, 4, true),
        0x7A => Instruction(BaseInstruction::NOP, AddressingMode::IMP, 2, false),
        0x7B => Instruction(BaseInstruction::RRA, AddressingMode::ABY, 7, false),
        0x7C => Instruction(BaseInstruction::NOP, AddressingMode::ABX, 4, true),
        0x7D => Instruction(BaseInstruction::ADC, AddressingMode::ABX, 4, true),
        0x7E => Instruction(BaseInstruction::ROR, AddressingMode::ABX, 7, false),
        0x7F => Instruction(BaseInstruction::RRA, AddressingMode::ABX, 7, false),
        0x80 => Instruction(BaseInstruction::NOP, AddressingMode::IMM, 2, false),
        0x81 => Instruction(BaseInstruction::STA, AddressingMode::IZX, 6, false),
        0x82 => Instruction(BaseInstruction::NOP, AddressingMode::IMM, 2, false),
        0x83 => Instruction(BaseInstruction::SAX, AddressingMode::IZX, 6, false),
        0x84 => Instruction(BaseInstruction::STY, AddressingMode::ZP0, 3, false),
        0x85 => Instruction(BaseInstruction::STA, AddressingMode::ZP0, 3, false),
        0x86 => Instruction(BaseInstruction::STX, AddressingMode::ZP0, 3, false),
        0x87 => Instruction(BaseInstruction::SAX, AddressingMode::ZP0, 3, false),
        0x88 => Instruction(BaseInstruction::DEY, AddressingMode::IMP, 2, false),
        0x89 => Instruction(BaseInstruction::NOP, AddressingMode::IMM, 2, false),
        0x8A => Instruction(BaseInstruction::TXA, AddressingMode::IMP, 2, false),
        0x8B => Instruction(BaseInstruction::XAA, AddressingMode::IMM, 2, false),
        0x8C => Instruction(BaseInstruction::STY, AddressingMode::ABS, 4, false),
        0x8D => Instruction(BaseInstruction::STA, AddressingMode::ABS, 4, false),
        0x8E => Instruction(BaseInstruction::STX, AddressingMode::ABS, 4, false),
        0x8F => Instruction(BaseInstruction::SAX, AddressingMode::ABS, 4, false),
        0x90 => Instruction(BaseInstruction::BCC, AddressingMode::REL, 2, true),
        0x91 => Instruction(BaseInstruction::STA, AddressingMode::IZY, 6, false),
        0x92 => Instruction(BaseInstruction::HLT, AddressingMode::IMP, 0, false),
        0x93 => Instruction(BaseInstruction::AHX, AddressingMode::IZY, 6, false),
        0x94 => Instruction(BaseInstruction::STY, AddressingMode::ZPX, 4, false),
        0x95 => Instruction(BaseInstruction::STA, AddressingMode::ZPX, 4, false),
        0x96 => Instruction(BaseInstruction::STX, AddressingMode::ZPY, 4, false),
        0x97 => Instruction(BaseInstruction::SAX, AddressingMode::ZPY, 4, false),
        0x98 => Instruction(BaseInstruction::TYA, AddressingMode::IMP, 2, false),
        0x99 => Instruction(BaseInstruction::STA, AddressingMode::ABY, 5, false),
        0x9A => Instruction(BaseInstruction::TXS, AddressingMode::IMP, 2, false),
        0x9B => Instruction(BaseInstruction::TAS, AddressingMode::ABY, 5, false),
        0x9C => Instruction(BaseInstruction::SHY, AddressingMode::ABX, 5, false),
        0x9D => Instruction(BaseInstruction::STA, AddressingMode::ABX, 5, false),
        0x9E => Instruction(BaseInstruction::SHX, AddressingMode::ABY, 5, false),
        0x9F => Instruction(BaseInstruction::AHX, AddressingMode::ABY, 5, false),
        0xA0 => Instruction(BaseInstruction::LDY, AddressingMode::IMM, 2, false),
        0xA1 => Instruction(BaseInstruction::LDA, AddressingMode::IZX, 6, false),
        0xA2 => Instruction(BaseInstruction::LDX, AddressingMode::IMM, 2, false),
        0xA3 => Instruction(BaseInstruction::LAX, AddressingMode::IZX, 6, false),
        0xA4 => Instruction(BaseInstruction::LDY, AddressingMode::ZP0, 3, false),
        0xA5 => Instruction(BaseInstruction::LDA, AddressingMode::ZP0, 3, false),
        0xA6 => Instruction(BaseInstruction::LDX, AddressingMode::ZP0, 3, false),
        0xA7 => Instruction(BaseInstruction::LAX, AddressingMode::ZP0, 3, false),
        0xA8 => Instruction(BaseInstruction::TAY, AddressingMode::IMP, 2, false),
        0xA9 => Instruction(BaseInstruction::LDA, AddressingMode::IMM, 2, false),
        0xAA => Instruction(BaseInstruction::TAX, AddressingMode::IMP, 2, false),
        0xAB => Instruction(BaseInstruction::LAX, AddressingMode::IMM, 2, false),
        0xAC => Instruction(BaseInstruction::LDY, AddressingMode::ABS, 4, false),
        0xAD => Instruction(BaseInstruction::LDA, AddressingMode::ABS, 4, false),
        0xAE => Instruction(BaseInstruction::LDX, AddressingMode::ABS, 4, false),
        0xAF => Instruction(BaseInstruction::LAX, AddressingMode::ABS, 4, false),
        0xB0 => Instruction(BaseInstruction::BCS, AddressingMode::REL, 2, true),
        0xB1 => Instruction(BaseInstruction::LDA, AddressingMode::IZY, 5, true),
        0xB2 => Instruction(BaseInstruction::HLT, AddressingMode::IMP, 0, false),
        0xB3 => Instruction(BaseInstruction::LAX, AddressingMode::IZY, 5, true),
        0xB4 => Instruction(BaseInstruction::LDY, AddressingMode::ZPX, 4, false),
        0xB5 => Instruction(BaseInstruction::LDA, AddressingMode::ZPX, 4, false),
        0xB6 => Instruction(BaseInstruction::LDX, AddressingMode::ZPY, 4, false),
        0xB7 => Instruction(BaseInstruction::LAX, AddressingMode::ZPY, 4, false),
        0xB8 => Instruction(BaseInstruction::CLV, AddressingMode::IMP, 2, false),
        0xB9 => Instruction(BaseInstruction::LDA, AddressingMode::ABY, 4, true),
        0xBA => Instruction(BaseInstruction::TSX, AddressingMode::IMP, 2, false),
        0xBB => Instruction(BaseInstruction::LAS, AddressingMode::ABY, 4, true),
        0xBC => Instruction(BaseInstruction::LDY, AddressingMode::ABX, 4, true),
        0xBD => Instruction(BaseInstruction::LDA, AddressingMode::ABX, 4, true),
        0xBE => Instruction(BaseInstruction::LDX, AddressingMode::ABY, 4, true),
        0xBF => Instruction(BaseInstruction::LAX, AddressingMode::ABY, 4, true),
        0xC0 => Instruction(BaseInstruction::CPY, AddressingMode::IMM, 2, false),
        0xC1 => Instruction(BaseInstruction::CMP, AddressingMode::IZX, 6, false),
        0xC2 => Instruction(BaseInstruction::NOP, AddressingMode::IMM, 2, false),
        0xC3 => Instruction(BaseInstruction::DCP, AddressingMode::IZX, 8, false),
        0xC4 => Instruction(BaseInstruction::CPY, AddressingMode::ZP0, 3, false),
        0xC5 => Instruction(BaseInstruction::CMP, AddressingMode::ZP0, 3, false),
        0xC6 => Instruction(BaseInstruction::DEC, AddressingMode::ZP0, 5, false),
        0xC7 => Instruction(BaseInstruction::DCP, AddressingMode::ZP0, 5, false),
        0xC8 => Instruction(BaseInstruction::INY, AddressingMode::IMP, 2, false),
        0xC9 => Instruction(BaseInstruction::CMP, AddressingMode::IMM, 2, false),
        0xCA => Instruction(BaseInstruction::DEX, AddressingMode::IMP, 2, false),
        0xCB => Instruction(BaseInstruction::AXS, AddressingMode::IMM, 2, false),
        0xCC => Instruction(BaseInstruction::CPY, AddressingMode::ABS, 4, false),
        0xCD => Instruction(BaseInstruction::CMP, AddressingMode::ABS, 4, false),
        0xCE => Instruction(BaseInstruction::DEC, AddressingMode::ABS, 6, false),
        0xCF => Instruction(BaseInstruction::DCP, AddressingMode::ABS, 6, false),
        0xD0 => Instruction(BaseInstruction::BNE, AddressingMode::REL, 2, true),
        0xD1 => Instruction(BaseInstruction::CMP, AddressingMode::IZY, 5, true),
        0xD2 => Instruction(BaseInstruction::HLT, AddressingMode::IMP, 0, false),
        0xD3 => Instruction(BaseInstruction::DCP, AddressingMode::IZY, 8, false),
        0xD4 => Instruction(BaseInstruction::NOP, AddressingMode::ZPX, 4, false),
        0xD5 => Instruction(BaseInstruction::CMP, AddressingMode::ZPX, 4, false),
        0xD6 => Instruction(BaseInstruction::DEC, AddressingMode::ZPX, 6, false),
        0xD7 => Instruction(BaseInstruction::DCP, AddressingMode::ZPX, 6, false),
        0xD8 => Instruction(BaseInstruction::CLD, AddressingMode::IMP, 2, false),
        0xD9 => Instruction(BaseInstruction::CMP, AddressingMode::ABY, 4, true),
        0xDA => Instruction(BaseInstruction::NOP, AddressingMode::IMP, 2, false),
        0xDB => Instruction(BaseInstruction::DCP, AddressingMode::ABY, 7, false),
        0xDC => Instruction(BaseInstruction::NOP, AddressingMode::ABX, 4, true),
        0xDD => Instruction(BaseInstruction::CMP, AddressingMode::ABX, 4, true),
        0xDE => Instruction(BaseInstruction::DEC, AddressingMode::ABX, 7, false),
        0xDF => Instruction(BaseInstruction::DCP, AddressingMode::ABX, 7, false),
        0xE0 => Instruction(BaseInstruction::CPX, AddressingMode::IMM, 2, false),
        0xE1 => Instruction(BaseInstruction::SBC, AddressingMode::IZX, 6, false),
        0xE2 => Instruction(BaseInstruction::NOP, AddressingMode::IMM, 2, false),
        0xE3 => Instruction(BaseInstruction::ISC, AddressingMode::IZX, 8, false),
        0xE4 => Instruction(BaseInstruction::CPX, AddressingMode::ZP0, 3, false),
        0xE5 => Instruction(BaseInstruction::SBC, AddressingMode::ZP0, 3, false),
        0xE6 => Instruction(BaseInstruction::INC, AddressingMode::ZP0, 5, false),
        0xE7 => Instruction(BaseInstruction::ISC, AddressingMode::ZP0, 5, false),
        0xE8 => Instruction(BaseInstruction::INX, AddressingMode::IMP, 2, false),
        0xE9 => Instruction(BaseInstruction::SBC, AddressingMode::IMM, 2, false),
        0xEA => Instruction(BaseInstruction::NOP, AddressingMode::IMP, 2, false),
        0xEB => Instruction(BaseInstruction::SBC, AddressingMode::IMM, 2, false),
        0xEC => Instruction(BaseInstruction::CPX, AddressingMode::ABS, 4, false),
        0xED => Instruction(BaseInstruction::SBC, AddressingMode::ABS, 4, false),
        0xEE => Instruction(BaseInstruction::INC, AddressingMode::ABS, 6, false),
        0xEF => Instruction(BaseInstruction::ISC, AddressingMode::ABS, 6, false),
        0xF0 => Instruction(BaseInstruction::BEQ, AddressingMode::REL, 2, true),
        0xF1 => Instruction(BaseInstruction::SBC, AddressingMode::IZY, 5, true),
        0xF2 => Instruction(BaseInstruction::HLT, AddressingMode::IMP, 0, false),
        0xF3 => Instruction(BaseInstruction::ISC, AddressingMode::IZY, 8, false),
        0xF4 => Instruction(BaseInstruction::NOP, AddressingMode::ZPX, 4, false),
        0xF5 => Instruction(BaseInstruction::SBC, AddressingMode::ZPX, 4, false),
        0xF6 => Instruction(BaseInstruction::INC, AddressingMode::ZPX, 6, false),
        0xF7 => Instruction(BaseInstruction::ISC, AddressingMode::ZPX, 6, false),
        0xF8 => Instruction(BaseInstruction::SED, AddressingMode::IMP, 2, false),
        0xF9 => Instruction(BaseInstruction::SBC, AddressingMode::ABY, 4, true),
        0xFA => Instruction(BaseInstruction::NOP, AddressingMode::IMP, 2, false),
        0xFB => Instruction(BaseInstruction::ISC, AddressingMode::ABY, 7, false),
        0xFC => Instruction(BaseInstruction::NOP, AddressingMode::ABX, 4, true),
        0xFD => Instruction(BaseInstruction::SBC, AddressingMode::ABX, 4, true),
        0xFE => Instruction(BaseInstruction::INC, AddressingMode::ABX, 7, false),
        0xFF => Instruction(BaseInstruction::ISC, AddressingMode::ABX, 7, false),
    }
}

/// The CMOS 65C02 instruction set.
pub open spec fn spec_lookup_65c02(op_code: u8) -> Instruction {
    match op_code {
        0x00 => Instruction(BaseInstruction::BRK, AddressingMode::IMP, 7, false),
        0x01 => Instruction(BaseInstruction::ORA, AddressingMode::IZX, 6, false),
        0x02 => Instruction(BaseInstruction::NOP, AddressingMode::IMM, 2, false),
        0x03 => Instruction(BaseInstruction::NOP, AddressingMode::IMP, 1, false),
        0x04 => Instruction(BaseInstruction::TSB, AddressingMode::ZP0, 5, false),
        0x05 => Instruction(BaseInstruction::ORA, AddressingMode::ZP0, 3, false),
        0x06 => Instruction(BaseInstruction::ASL, AddressingMode::ZP0, 5, false),
        0x07 => Instruction(BaseInstruction::RMB0, AddressingMode::ZP0, 5, false),
        0x08 => Instruction(BaseInstruction::PHP, AddressingMode::IMP, 3, false),
        0x09 => Instruction(BaseInstruction::ORA, AddressingMode::IMM, 2, false),
        0x0A => Instruction(BaseInstruction::ASL, AddressingMode::IMP, 2, false),
        0x0B => Instruction(BaseInstruction::NOP, AddressingMode::IMP, 1, false),
        0x0C => Instruction(BaseInstruction::TSB, AddressingMode::ABS, 6, false),
        0x0D => Instruction(BaseInstruction::ORA, AddressingMode::ABS, 4, false),
        0x0E => Instruction(BaseInstruction::ASL, AddressingMode::ABS, 6, false),
        0x0F => Instruction(BaseInstruction::BBR0, AddressingMode::ZPR, 5, false),
        0x10 => Instruction(BaseInstruction::BPL, AddressingMode::REL, 2, true),
        0x11 => Instruction(BaseInstruction::ORA, AddressingMode::IZY, 5, true),
        0x12 => Instruction(BaseInstruction::ORA, AddressingMode::IZP, 5, false),
        0x13 => Instruction(BaseInstruction::NOP, AddressingMode::IMP, 1, false),
        0x14 => Instruction(BaseInstruction::TRB, AddressingMode::ZP0, 5, false),
        0x15 => Instruction(BaseInstruction::ORA, AddressingMode::ZPX, 4, false),
        0x16 => Instruction(BaseInstruction::ASL, AddressingMode::ZPX, 6, false),
        0x17 => Instruction(BaseInstruction::RMB1, AddressingMode::ZP0, 5, false),
        0x18 => Instruction(BaseInstruction::CLC, AddressingMode::IMP, 2, false),
        0x19 => Instruction(BaseInstruction::ORA, AddressingMode::ABY, 4, true),
        0x1A => Instruction(BaseInstruction::INC, AddressingMode::IMP, 2, false),
        0x1B => Instruction(BaseInstruction::NOP, AddressingMode::IMP, 1, false),
        0x1C => Instruction(BaseInstruction::TRB, AddressingMode::ABS, 6, false),
        0x1D => Instruction(BaseInstruction::ORA, AddressingMode::ABX, 4, true),
        0x1E => Instruction(BaseInstruction::ASL, AddressingMode::ABX, 6, true),
        0x1F => Instruction(BaseInstruction::BBR1, AddressingMode::ZPR, 5, false),
        0x20 => Instruction(BaseInstruction::JSR, AddressingMode::ABS, 6, false),
        0x21 => Instruction(BaseInstruction::AND, AddressingMode::IZX, 6, false),
        0x22 => Instruction(BaseInstruction::NOP, AddressingMode::IMM, 2, false),
        0x23 => Instruction(BaseInstruction::NOP, AddressingMode::IMP, 1, false),
        0x24 => Instruction(BaseInstruction::BIT, AddressingMode::ZP0, 3, false),
        0x25 => Instruction(BaseInstruction::AND, AddressingMode::ZP0, 3, false),
        0x26 => Instruction(BaseInstruction::ROL, AddressingMode::ZP0, 5, false),
        0x27 => Instruction(BaseInstruction::RMB2, AddressingMode::ZP0, 5, false),
        0x28 => Instruction(BaseInstruction::PLP, AddressingMode::IMP, 4, false),
        0x29 => Instruction(BaseInstruction::AND, AddressingMode::IMM, 2, false),
        0x2A => Instruction(BaseInstruction::ROL, AddressingMode::IMP, 2, false),
        0x2B => Instruction(BaseInstruction::NOP, AddressingMode::IMP, 1, false),
        0x2C => Instruction(BaseInstruction::BIT, AddressingMode::ABS, 4, false),
        0x2D => Instruction(BaseInstruction::AND, AddressingMode::ABS, 4, false),
        0x2E => Instruction(BaseInstruction::ROL, AddressingMode::ABS, 6, false),
        0x2F => Instruction(BaseInstruction::BBR2, AddressingMode::ZPR, 5, false),
        0x30 => Instruction(BaseInstruction::BMI, AddressingMode::REL, 2, true),
        0x31 => Instruction(BaseInstruction::AND, AddressingMode::IZY, 5, true),
        0x32 => Instruction(BaseInstruction::AND, AddressingMode::IZP, 5, false),
        0x33 => Instruction(BaseInstruction::NOP, AddressingMode::IMP, 1, false),
        0x34 => Instruction(BaseInstruction::BIT, AddressingMode::ZPX, 4, false),
        0x35 => Instruction(BaseInstruction::AND, AddressingMode::ZPX, 4, false),
        0x36 => Instruction(BaseInstruction::ROL, AddressingMode::ZPX, 6, false),
        0x37 => Instruction(BaseInstruction::RMB3, AddressingMode::ZP0, 5, false),
        0x38 => Instruction(BaseInstruction::SEC, AddressingMode::IMP, 2, false),
        0x39 => Instruction(BaseInstruction::AND, AddressingMode::ABY, 4, true),
        0x3A => Instruction(BaseInstruction::DEC, AddressingMode::IMP, 2, false),
        0x3B => Instruction(BaseInstruction::NOP, AddressingMode::IMP, 1, false),
        0x3C => Instruction(BaseInstruction::BIT, AddressingMode::ABX, 4, true),
        0x3D => Instruction(BaseInstruction::AND, AddressingMode::ABX, 4, true),
        0x3E => Instruction(BaseInstruction::ROL, AddressingMode::ABX, 6, true),
        0x3F => Instruction(BaseInstruction::BBR3, AddressingMode::ZPR, 5, false),
        0x40 => Instruction(BaseInstruction::RTI, AddressingMode::IMP, 6, false),
        0x41 => Instruction(BaseInstruction::EOR, AddressingMode::IZX, 6, false),
        0x42 => Instruction(BaseInstruction::NOP, AddressingMode::IMM, 2, false),
        0x43 => Instruction(BaseInstruction::NOP, AddressingMode::IMP, 1, false),
        0x44 => Instruction(BaseInstruction::NOP, AddressingMode::ZP0, 3, false),
        0x45 => Instruction(BaseInstruction::EOR, AddressingMode::ZP0, 3, false),
        0x46 => Instruction(BaseInstruction::LSR, AddressingMode::ZP0, 5, false),
        0x47 => Instruction(BaseInstruction::RMB4, AddressingMode::ZP0, 5, false),
        0x48 => Instruction(BaseInstruction::PHA, AddressingMode::IMP, 3, false),
        0x49 => Instruction(BaseInstruction::EOR, AddressingMode::IMM, 2, false),
        0x4A => Instruction(BaseInstruction::LSR, AddressingMode::IMP, 2, false),
        0x4B => Instruction(BaseInstruction::NOP, AddressingMode::IMP, 1, false),
        0x4C => Instruction(BaseInstruction::JMP, AddressingMode::ABS, 3, false),
        0x4D => Instruction(BaseInstruction::EOR, AddressingMode::ABS, 4, false),
        0x4E => Instruction(BaseInstruction::LSR, AddressingMode::ABS, 6, false),
        0x4F => Instruction(BaseInstruction::BBR4, AddressingMode::ZPR, 5, false),
        0x50 => Instruction(BaseInstruction::BVC, AddressingMode::REL, 2, true),
        0x51 => Instruction(BaseInstruction::EOR, AddressingMode::IZY, 5, true),
        0x52 => Instruction(BaseInstruction::EOR, AddressingMode::IZP, 5, false),
        0x53 => Instruction(BaseInstruction::NOP, AddressingMode::IMP, 1, false),
        0x54 => Instruction(BaseInstruction::NOP, AddressingMode::ZPX, 4, false),
        0x55 => Instruction(BaseInstruction::EOR, AddressingMode::ZPX, 4, false),
        0x56 => Instruction(BaseInstruction::LSR, AddressingMode::ZPX, 6, false),
        0x57 => Instruction(BaseInstruction::RMB5, AddressingMode::ZP0, 5, false),
        0x58 => Instruction(BaseInstruction::CLI, AddressingMode::IMP, 2, false),
        0x59 => Instruction(BaseInstruction::EOR, AddressingMode::ABY, 4, true),
        0x5A => Instruction(BaseInstruction::PHY, AddressingMode::IMP, 3, false),
        0x5B => Instruction(BaseInstruction::NOP, AddressingMode::IMP, 1, false),
        0x5C => Instruction(BaseInstruction::NOP, AddressingMode::ABS, 8, false),
        0x5D => Instruction(BaseInstruction::EOR, AddressingMode::ABX, 4, true),
        0x5E => Instruction(BaseInstruction::LSR, AddressingMode::ABX, 6, true),
        0x5F => Instruction(BaseInstruction::BBR5, AddressingMode::ZPR, 5, false),
        0x60 => Instruction(BaseInstruction::RTS, AddressingMode::IMP, 6, false),
        0x61 => Instruction(BaseInstruction::ADC, AddressingMode::IZX, 6, false),
        0x62 => Instruction(BaseInstruction::NOP, AddressingMode::IMM, 2, false),
        0x63 => Instruction(BaseInstruction::NOP, AddressingMode::IMP, 1, false),
        0x64 => Instruction(BaseInstruction::STZ, AddressingMode::ZP0, 3, false),
        0x65 => Instruction(BaseInstruction::ADC, AddressingMode::ZP0, 3, false),
        0x66 => Instruction(BaseInstruction::ROR, AddressingMode::ZP0, 5, false),
        0x67 => Instruction(BaseInstruction::RMB6, AddressingMode::ZP0, 5, false),
        0x68 => Instruction(BaseInstruction::PLA, AddressingMode::IMP, 4, false),
        0x69 => Instruction(BaseInstruction::ADC, AddressingMode::IMM, 2, false),
        0x6A => Instruction(BaseInstruction::ROR, AddressingMode::IMP, 2, false),
        0x6B => Instruction(BaseInstruction::NOP, AddressingMode::IMP, 1, false),
        0x6C => Instruction(BaseInstruction::JMP, AddressingMode::IND, 6, false),
        0x6D => Instruction(BaseInstruction::ADC, AddressingMode::ABS, 4, false),
        0x6E => Instruction(BaseInstruction::ROR, AddressingMode::ABS, 6, false),
        0x6F => Instruction(BaseInstruction::BBR6, AddressingMode::ZPR, 5, false),
        0x70 => Instruction(BaseInstruction::BVS, AddressingMode::REL, 2, true),
        0x71 => Instruction(BaseInstruction::ADC, AddressingMode::IZY, 5, true),
        0x72 => Instruction(BaseInstruction::ADC, AddressingMode::IZP, 5, false),
        0x73 => Instruction(BaseInstruction::NOP, AddressingMode::IMP, 1, false),
        0x74 => Instruction(BaseInstruction::STZ, AddressingMode::ZPX, 4, false),
        0x75 => Instruction(BaseInstruction::ADC, AddressingMode::ZPX, 4, false),
        0x76 => Instruction(BaseInstruction::ROR, AddressingMode::ZPX, 6, false),
        0x77 => Instruction(BaseInstruction::RMB7, AddressingMode::ZP0, 5, false),
        0x78 => Instruction(BaseInstruction::SEI, AddressingMode::IMP, 2, false),
        0x79 => Instruction(BaseInstruction::ADC, AddressingMode::ABY, 4, true),
        0x7A => Instruction(BaseInstruction::PLY, AddressingMode::IMP, 4, false),
        0x7B => Instruction(BaseInstruction::NOP, AddressingMode::IMP, 1, false),
        0x7C => Instruction(BaseInstruction::JMP, AddressingMode::IAX, 6, false),
        0x7D => Instruction(BaseInstruction::ADC, AddressingMode::ABX, 4, true),
        0x7E => Instruction(BaseInstruction::ROR, AddressingMode::ABX, 6, true),
        0x7F => Instruction(BaseInstruction::BBR7, AddressingMode::ZPR, 5, false),
        0x80 => Instruction(BaseInstruction::BRA, AddressingMode::REL, 3, true),
        0x81 => Instruction(BaseInstruction::STA, AddressingMode::IZX, 6, false),
        0x82 => Instruction(BaseInstruction::NOP, AddressingMode::IMM, 2, false),
        0x83 => Instruction(BaseInstruction::NOP, AddressingMode::IMP, 1, false),
        0x84 => Instruction(BaseInstruction::STY, AddressingMode::ZP0, 3, false),
        0x85 => Instruction(BaseInstruction::STA, AddressingMode::ZP0, 3, false),
        0x86 => Instruction(BaseInstruction::STX, AddressingMode::ZP0, 3, false),
        0x87 => Instruction(BaseInstruction::SMB0, AddressingMode::ZP0, 5, false),
        0x88 => Instruction(BaseInstruction::DEY, AddressingMode::IMP, 2, false),
        0x89 => Instruction(BaseInstruction::BIT, AddressingMode::IMM, 2, false),
        0x8A => Instruction(BaseInstruction::TXA, AddressingMode::IMP, 2, false),
        0x8B => Instruction(BaseInstruction::NOP, AddressingMode::IMP, 1, false),
        0x8C => Instruction(BaseInstruction::STY, AddressingMode::ABS, 4, false),
        0x8D => Instruction(BaseInstruction::STA, AddressingMode::ABS, 4, false),
        0x8E => Instruction(BaseInstruction::STX, AddressingMode::ABS, 4, false),
        0x8F => Instruction(BaseInstruction::BBS0, AddressingMode::ZPR, 5, false),
        0x90 => Instruction(BaseInstruction::BCC, AddressingMode::REL, 2, true),
        0x91 => Instruction(BaseInstruction::STA, AddressingMode::IZY, 6, false),
        0x92 => Instruction(BaseInstruction::STA, AddressingMode::IZP, 5, false),
        0x93 => Instruction(BaseInstruction::NOP, AddressingMode::IMP, 1, false),
        0x94 => Instruction(BaseInstruction::STY, AddressingMode::ZPX, 4, false),
        0x95 => Instruction(BaseInstruction::STA, AddressingMode::ZPX, 4, false),
        0x96 => Instruction(BaseInstruction::STX, AddressingMode::ZP0, 4, false),
        0x97 => Instruction(BaseInstruction::SMB1, AddressingMode::ZP0, 5, false),
        0x98 => Instruction(BaseInstruction::TYA, AddressingMode::IMP, 2, false),
        0x99 => Instruction(BaseInstruction::STA, AddressingMode::ABY, 5, false),
        0x9A => Instruction(BaseInstruction::TXS, AddressingMode::IMP, 2, false),
        0x9B => Instruction(BaseInstruction::NOP, AddressingMode::IMP, 1, false),
        0x9C => Instruction(BaseInstruction::STZ, AddressingMode::ABS, 4, false),
        0x9D => Instruction(BaseInstruction::STA, AddressingMode::ABX, 5, false),
        0x9E => Instruction(BaseInstruction::STZ, AddressingMode::ABX, 5, false),
        0x9F => Instruction(BaseInstruction::BBS1, AddressingMode::ZPR, 5, false),
        0xA0 => Instruction(BaseInstruction::LDY, AddressingMode::IMM, 2, false),
        0xA1 => Instruction(BaseInstruction::LDA, AddressingMode::IZX, 6, false),
        0xA2 => Instruction(BaseInstruction::LDX, AddressingMode::IMM, 2, false),
        0xA3 => Instruction(BaseInstruction::NOP, AddressingMode::IMP, 1, false),
        0xA4 => Instruction(BaseInstruction::LDY, AddressingMode::ZP0, 3, false),
        0xA5 => Instruction(BaseInstruction::LDA, AddressingMode::ZP0, 3, false),
        0xA6 => Instruction(BaseInstruction::LDX, AddressingMode::ZP0, 3, false),
        0xA7 => Instruction(BaseInstruction::SMB2, AddressingMode::ZP0, 5, false),
        0xA8 => Instruction(BaseInstruction::TAY, AddressingMode::IMP, 2, false),
        0xA9 => Instruction(BaseInstruction::LDA, AddressingMode::IMM, 2, false),
        0xAA => Instruction(BaseInstruction::TAX, AddressingMode::IMP, 2, false),
        0xAB => Instruction(BaseInstruction::NOP, AddressingMode::IMP, 1, false),
        0xAC => Instruction(BaseInstruction::LDY, AddressingMode::ABS, 4, false),
        0xAD => Instruction(BaseInstruction::LDA, AddressingMode::ABS, 4, false),
        0xAE => Instruction(BaseInstruction::LDX, AddressingMode::ABS, 4, false),
        0xAF => Instruction(BaseInstruction::BBS2, AddressingMode::ZPR, 5, false),
        0xB0 => Instruction(BaseInstruction::BCS, AddressingMode::REL, 2, true),
        0xB1 => Instruction(BaseInstruction::LDA, AddressingMode::IZY, 5, true),
        0xB2 => Instruction(BaseInstruction::LDA, AddressingMode::IZP, 5, false),
        0xB3 => Instruction(BaseInstruction::NOP, AddressingMode::IMP, 1, false),
        0xB4 => Instruction(BaseInstruction::LDY, AddressingMode::ZPX, 4, false),
        0xB5 => Instruction(BaseInstruction::LDA, AddressingMode::ZPX, 4, false),
        0xB6 => Instruction(BaseInstruction::LDX, AddressingMode::ZP0, 4, false),
        0xB7 => Instruction(BaseInstruction::SMB3, AddressingMode::ZP0, 5, false),
        0xB8 => Instruction(BaseInstruction::CLV, AddressingMode::IMP, 2, false),
        0xB9 => Instruction(BaseInstruction::LDA, AddressingMode::ABY, 4, true),
        0xBA => Instruction(BaseInstruction::TSX, AddressingMode::IMP, 2, false),
        0xBB => Instruction(BaseInstruction::NOP, AddressingMode::IMP, 1, false),
        0xBC => Instruction(BaseInstruction::LDY, AddressingMode::ABX, 4, true),
        0xBD => Instruction(BaseInstruction::LDA, AddressingMode::ABX, 4, true),
        0xBE => Instruction(BaseInstruction::LDX, AddressingMode::ABY, 4, true),
        0xBF => Instruction(BaseInstruction::BBS3, AddressingMode::ZPR, 5, false),
        0xC0 => Instruction(BaseInstruction::CPY, AddressingMode::IMM, 2, false),
        0xC1 => Instruction(BaseInstruction::CMP, AddressingMode::IZX, 6, false),
        0xC2 => Instruction(BaseInstruction::NOP, AddressingMode::IMM, 2, false),
        0xC3 => Instruction(BaseInstruction::NOP, AddressingMode::IMP, 1, false),
        0xC4 => Instruction(BaseInstruction::CPY, AddressingMode::ZP0, 3, false),
        0xC5 => Instruction(BaseInstruction::CMP, AddressingMode::ZP0, 3, false),
        0xC6 => Instruction(BaseInstruction::DEC, AddressingMode::ZP0, 5, false),
        0xC7 => Instruction(BaseInstruction::SMB4, AddressingMode::ZP0, 5, false),
        0xC8 => Instruction(BaseInstruction::INY, AddressingMode::IMP, 2, false),
        0xC9 => Instruction(BaseInstruction::CMP, AddressingMode::IMM, 2, false),
        0xCA => Instruction(BaseInstruction::DEX, AddressingMode::IMP, 2, false),
        0xCB => Instruction(BaseInstruction::NOP, AddressingMode::IMP, 3, false),
        0xCC => Instruction(BaseInstruction::CPY, AddressingMode::ABS, 4, false),
        0xCD => Instruction(BaseInstruction::CMP, AddressingMode::ABS, 4, false),
        0xCE => Instruction(BaseInstruction::DEC, AddressingMode::ABS, 6, false),
        0xCF => Instruction(BaseInstruction::BBS4, AddressingMode::ZPR, 5, false),
        0xD0 => Instruction(BaseInstruction::BNE, AddressingMode::REL, 2, true),
        0xD1 => Instruction(BaseInstruction::CMP, AddressingMode::IZY, 5, true),
        0xD2 => Instruction(BaseInstruction::CMP, AddressingMode::IZP, 5, false),
        0xD3 => Instruction(BaseInstruction::NOP, AddressingMode::IMP, 1, false),
        0xD4 => Instruction(BaseInstruction::NOP, AddressingMode::ZPX, 4, false),
        0xD5 => Instruction(BaseInstruction::CMP, AddressingMode::ZPX, 4, false),
        0xD6 => Instruction(BaseInstruction::DEC, AddressingMode::ZPX, 6, false),
        0xD7 => Instruction(BaseInstruction::SMB5, AddressingMode::ZP0, 5, false),
        0xD8 => Instruction(BaseInstruction::CLD, AddressingMode::IMP, 2, false),
        0xD9 => Instruction(BaseInstruction::CMP, AddressingMode::ABY, 4, true),
        0xDA => Instruction(BaseInstruction::PHX, AddressingMode::IMP, 3, false),
        0xDB => Instruction(BaseInstruction::NOP, AddressingMode::IMP, 3, false),
        0xDC => Instruction(BaseInstruction::NOP, AddressingMode::ABS, 4, false),
        0xDD => Instruction(BaseInstruction::CMP, AddressingMode::ABX, 4, true),
        0xDE => Instruction(BaseInstruction::DEC, AddressingMode::ABX, 7, false),
        0xDF => Instruction(BaseInstruction::BBS5, AddressingMode::ZPR, 5, false),
        0xE0 => Instruction(BaseInstruction::CPX, AddressingMode::IMM, 2, false),
        0xE1 => Instruction(BaseInstruction::SBC, AddressingMode::IZX, 6, false),
        0xE2 => Instruction(BaseInstruction::NOP, AddressingMode::IMM, 2, false),
        0xE3 => Instruction(BaseInstruction::NOP, AddressingMode::IMP, 1, false),
        0xE4 => Instruction(BaseInstruction::CPX, AddressingMode::ZP0, 3, false),
        0xE5 => Instruction(BaseInstruction::SBC, AddressingMode::ZP0, 3, false),
        0xE6 => Instruction(BaseInstruction::INC, AddressingMode::ZP0, 5, false),
        0xE7 => Instruction(BaseInstruction::SMB6, AddressingMode::ZP0, 5, false),
        0xE8 => Instruction(BaseInstruction::INX, AddressingMode::IMP, 2, false),
        0xE9 => Instruction(BaseInstruction::SBC, AddressingMode::IMM, 2, false),
        0xEA => Instruction(BaseInstruction::NOP, AddressingMode::IMP, 2, false),
        0xEB => Instruction(BaseInstruction::NOP, AddressingMode::IMP, 1, false),
        0xEC => Instruction(BaseInstruction::CPX, AddressingMode::ABS, 4, false),
        0xED => Instruction(BaseInstruction::SBC, AddressingMode::ABS, 4, false),
        0xEE => Instruction(BaseInstruction::INC, AddressingMode::ABS, 6, false),
        0xEF => Instruction(BaseInstruction::BBS6, AddressingMode::ZPR, 5, false),
        0xF0 => Instruction(BaseInstruction::BEQ, AddressingMode::REL, 2, true),
        0xF1 => Instruction(BaseInstruction::SBC, AddressingMode::IZY, 5, true),
        0xF2 => Instruction(BaseInstruction::SBC, AddressingMode::IZP, 5, false),
        0xF3 => Instruction(BaseInstruction::NOP, AddressingMode::IMP, 1, false),
        0xF4 => Instruction(BaseInstruction::NOP, AddressingMode::ZPX, 4, false),
        0xF5 => Instruction(BaseInstruction::SBC, AddressingMode::ZPX, 4, false),
        0xF6 => Instruction(BaseInstruction::INC, AddressingMode::ZPX, 6, false),
        0xF7 => Instruction(BaseInstruction::SMB7, AddressingMode::ZP0, 5, false),
        0xF8 => Instruction(BaseInstruction::SED, AddressingMode::IMP, 2, false),
        0xF9 => Instruction(BaseInstruction::SBC, AddressingMode::ABY, 4, true),
        0xFA => Instruction(BaseInstruction::PLX, AddressingMode::IMP, 4, false),
        0xFB => Instruction(BaseInstruction::NOP, AddressingMode::IMP, 1, false),
        0xFC => Instruction(BaseInstruction::NOP, AddressingMode::ABS, 4, false),
        0xFD => Instruction(BaseInstruction::SBC, AddressingMode::ABX, 4, true),
        0xFE => Instruction(BaseInstruction::INC, AddressingMode::ABX, 7, false),
        0xFF => Instruction(BaseInstruction::BBS7, AddressingMode::ZPR, 5, false),
    }
}

/// The CMOS 65C02 instruction set.
pub fn lookup_65c02(op_code: u8) -> (r: Instruction)
    ensures
        r == spec_lookup_65c02(op_code),
        r.0 != BaseInstruction::HLT ==> r.well_formed(),
{
    match op_code {
        0x00 => Instruction(BaseInstruction::BRK, AddressingMode::IMP, 7, false),
        0x01 => Instruction(BaseInstruction::ORA, AddressingMode::IZX, 6, false),
        0x02 => Instruction(BaseInstruction::NOP, AddressingMode::IMM, 2, false),
        0x03 => Instruction(BaseInstruction::NOP, AddressingMode::IMP, 1, false),
        0x04 => Instruction(BaseInstruction::TSB, AddressingMode::ZP0, 5, false),
        0x05 => Instruction(BaseInstruction::ORA, AddressingMode::ZP0, 3, false),
        0x06 => Instruction(BaseInstruction::ASL, AddressingMode::ZP0, 5, false),
        0x07 => Instruction(BaseInstruction::RMB0, AddressingMode::ZP0, 5, false),
        0x08 => Instruction(BaseInstruction::PHP, AddressingMode::IMP, 3, false),
        0x09 => Instruction(BaseInstruction::ORA, AddressingMode::IMM, 2, false),
        0x0A => Instruction(BaseInstruction::ASL, AddressingMode::IMP, 2, false),
        0x0B => Instruction(BaseInstruction::NOP, AddressingMode::IMP, 1, false),
        0x0C => Instruction(BaseInstruction::TSB, AddressingMode::ABS, 6, false),
        0x0D => Instruction(BaseInstruction::ORA, AddressingMode::ABS, 4, false),
        0x0E => Instruction(BaseInstruction::ASL, AddressingMode::ABS, 6, false),
        0x0F => Instruction(BaseInstruction::BBR0, AddressingMode::ZPR, 5, false),
        0x10 => Instruction(BaseInstruction::BPL, AddressingMode::REL, 2, true),
        0x11 => Instruction(BaseInstruction::ORA, AddressingMode::IZY, 5, true),
        0x12 => Instruction(BaseInstruction::ORA, AddressingMode::IZP, 5, false),
        0x13 => Instruction(BaseInstruction::NOP, AddressingMode::IMP, 1, false),
        0x14 => Instruction(BaseInstruction::TRB, AddressingMode::ZP0, 5, false),
        0x15 => Instruction(BaseInstruction::ORA, AddressingMode::ZPX, 4, false),
        0x16 => Instruction(BaseInstruction::ASL, AddressingMode::ZPX, 6, false),
        0x17 => Instruction(BaseInstruction::RMB1, AddressingMode::ZP0, 5, false),
        0x18 => Instruction(BaseInstruction::CLC, AddressingMode::IMP, 2, false),
        0x19 => Instruction(BaseInstruction::ORA, AddressingMode::ABY, 4, true),
        0x1A => Instruction(BaseInstruction::INC, AddressingMode::IMP, 2, false),
        0x1B => Instruction(BaseInstruction::NOP, AddressingMode::IMP, 1, false),
        0x1C => Instruction(BaseInstruction::TRB, AddressingMode::ABS, 6, false),
        0x1D => Instruction(BaseInstruction::ORA, AddressingMode::ABX, 4, true),
        0x1E => Instruction(BaseInstruction::ASL, AddressingMode::ABX, 6, true),
        0x1F => Instruction(BaseInstruction::BBR1, AddressingMode::ZPR, 5, false),
        0x20 => Instruction(BaseInstruction::JSR, AddressingMode::ABS, 6, false),
        0x21 => Instruction(BaseInstruction::AND, AddressingMode::IZX, 6, false),
        0x22 => Instruction(BaseInstruction::NOP, AddressingMode::IMM, 2, false),
        0x23 => Instruction(BaseInstruction::NOP, AddressingMode::IMP, 1, false),
        0x24 => Instruction(BaseInstruction::BIT, AddressingMode::ZP0, 3, false),
        0x25 => Instruction(BaseInstruction::AND, AddressingMode::ZP0, 3, false),
        0x26 => Instruction(BaseInstruction::ROL, AddressingMode::ZP0, 5, false),
        0x27 => Instruction(BaseInstruction::RMB2, AddressingMode::ZP0, 5, false),
        0x28 => Instruction(BaseInstruction::PLP, AddressingMode::IMP, 4, false),
        0x29 => Instruction(BaseInstruction::AND, AddressingMode::IMM, 2, false),
        0x2A => Instruction(BaseInstruction::ROL, AddressingMode::IMP, 2, false),
        0x2B => Instruction(BaseInstruction::NOP, AddressingMode::IMP, 1, false),
        0x2C => Instruction(BaseInstruction::BIT, AddressingMode::ABS, 4, false),
        0x2D => Instruction(BaseInstruction::AND, AddressingMode::ABS, 4, false),
        0x2E => Instruction(BaseInstruction::ROL, AddressingMode::ABS, 6, false),
        0x2F => Instruction(BaseInstruction::BBR2, AddressingMode::ZPR, 5, false),
        0x30 => Instruction(BaseInstruction::BMI, AddressingMode::REL, 2, true),
        0x31 => Instruction(BaseInstruction::AND, AddressingMode::IZY, 5, true),
        0x32 => Instruction(BaseInstruction::AND, AddressingMode::IZP, 5, false),
        0x33 => Instruction(BaseInstruction::NOP, AddressingMode::IMP, 1, false),
        0x34 => Instruction(BaseInstruction::BIT, AddressingMode::ZPX, 4, false),
        0x35 => Instruction(BaseInstruction::AND, AddressingMode::ZPX, 4, false),
        0x36 => Instruction(BaseInstruction::ROL, AddressingMode::ZPX, 6, false),
        0x37 => Instruction(BaseInstruction::RMB3, AddressingMode::ZP0, 5, false),
        0x38 => Instruction(BaseInstruction::SEC, AddressingMode::IMP, 2, false),
        0x39 => Instruction(BaseInstruction::AND, AddressingMode::ABY, 4, true),
        0x3A => Instruction(BaseInstruction::DEC, AddressingMode::IMP, 2, false),
        0x3B => Instruction(BaseInstruction::NOP, AddressingMode::IMP, 1, false),
        0x3C => Instruction(BaseInstruction::BIT, AddressingMode::ABX, 4, true),
        0x3D => Instruction(BaseInstruction::AND, AddressingMode::ABX, 4, true),
        0x3E => Instruction(BaseInstruction::ROL, AddressingMode::ABX, 6, true),
        0x3F => Instruction(BaseInstruction::BBR3, AddressingMode::ZPR, 5, false),
        0x40 => Instruction(BaseInstruction::RTI, AddressingMode::IMP, 6, false),
        0x41 => Instruction(BaseInstruction::EOR, AddressingMode::IZX, 6, false),
        0x42 => Instruction(BaseInstruction::NOP, AddressingMode::IMM, 2, false),
        0x43 => Instruction(BaseInstruction::NOP, AddressingMode::IMP, 1, false),
        0x44 => Instruction(BaseInstruction::NOP, AddressingMode::ZP0, 3, false),
        0x45 => Instruction(BaseInstruction::EOR, AddressingMode::ZP0, 3, false),
        0x46 => Instruction(BaseInstruction::LSR, AddressingMode::ZP0, 5, false),
        0x47 => Instruction(BaseInstruction::RMB4, AddressingMode::ZP0, 5, false),
        0x48 => Instruction(BaseInstruction::PHA, AddressingMode::IMP, 3, false),
        0x49 => Instruction(BaseInstruction::EOR, AddressingMode::IMM, 2, false),
        0x4A => Instruction(BaseInstruction::LSR, AddressingMode::IMP, 2, false),
        0x4B => Instruction(BaseInstruction::NOP, AddressingMode::IMP, 1, false),
        0x4C => Instruction(BaseInstruction::JMP, AddressingMode::ABS, 3, false),
        0x4D => Instruction(BaseInstruction::EOR, AddressingMode::ABS, 4, false),
        0x4E => Instruction(BaseInstruction::LSR, AddressingMode::ABS, 6, false),
        0x4F => Instruction(BaseInstruction::BBR4, AddressingMode::ZPR, 5, false),
        0x50 => Instruction(BaseInstruction::BVC, AddressingMode::REL, 2, true),
        0x51 => Instruction(BaseInstruction::EOR, AddressingMode::IZY, 5, true),
        0x52 => Instruction(BaseInstruction::EOR, AddressingMode::IZP, 5, false),
        0x53 => Instruction(BaseInstruction::NOP, AddressingMode::IMP, 1, false),
        0x54 => Instruction(BaseInstruction::NOP, AddressingMode::ZPX, 4, false),
        0x55 => Instruction(BaseInstruction::EOR, AddressingMode::ZPX, 4, false),
        0x56 => Instruction(BaseInstruction::LSR, AddressingMode::ZPX, 6, false),
        0x57 => Instruction(BaseInstruction::RMB5, AddressingMode::ZP0, 5, false),
        0x58 => Instruction(BaseInstruction::CLI, AddressingMode::IMP, 2, false),
        0x59 => Instruction(BaseInstruction::EOR, AddressingMode::ABY, 4, true),
        0x5A => Instruction(BaseInstruction::PHY, AddressingMode::IMP, 3, false),
        0x5B => Instruction(BaseInstruction::NOP, AddressingMode::IMP, 1, false),
        0x5C => Instruction(BaseInstruction::NOP, AddressingMode::ABS, 8, false),
        0x5D => Instruction(BaseInstruction::EOR, AddressingMode::ABX, 4, true),
        0x5E => Instruction(BaseInstruction::LSR, AddressingMode::ABX, 6, true),
        0x5F => Instruction(BaseInstruction::BBR5, AddressingMode::ZPR, 5, false),
        0x60 => Instruction(BaseInstruction::RTS, AddressingMode::IMP, 6, false),
        0x61 => Instruction(BaseInstruction::ADC, AddressingMode::IZX, 6, false),
        0x62 => Instruction(BaseInstruction::NOP, AddressingMode::IMM, 2, false),
        0x63 => Instruction(BaseInstruction::NOP, AddressingMode::IMP, 1, false),
        0x64 => Instruction(BaseInstruction::STZ, AddressingMode::ZP0, 3, false),
        0x65 => Instruction(BaseInstruction::ADC, AddressingMode::ZP0, 3, false),
        0x66 => Instruction(BaseInstruction::ROR, AddressingMode::ZP0, 5, false),
        0x67 => Instruction(BaseInstruction::RMB6, AddressingMode::ZP0, 5, false),
        0x68 => Instruction(BaseInstruction::PLA, AddressingMode::IMP, 4, false),
        0x69 => Instruction(BaseInstruction::ADC, AddressingMode::IMM, 2, false),
        0x6A => Instruction(BaseInstruction::ROR, AddressingMode::IMP, 2, false),
        0x6B => Instruction(BaseInstruction::NOP, AddressingMode::IMP, 1, false),
        0x6C => Instruction(BaseInstruction::JMP, AddressingMode::IND, 6, false),
        0x6D => Instruction(BaseInstruction::ADC, AddressingMode::ABS, 4, false),
        0x6E => Instruction(BaseInstruction::ROR, AddressingMode::ABS, 6, false),
        0x6F => Instruction(BaseInstruction::BBR6, AddressingMode::ZPR, 5, false),
        0x70 => Instruction(BaseInstruction::BVS, AddressingMode::REL, 2, true),
        0x71 => Instruction(BaseInstruction::ADC, AddressingMode::IZY, 5, true),
        0x72 => Instruction(BaseInstruction::ADC, AddressingMode::IZP, 5, false),
        0x73 => Instruction(BaseInstruction::NOP, AddressingMode::IMP, 1, false),
        0x74 => Instruction(BaseInstruction::STZ, AddressingMode::ZPX, 4, false),
        0x75 => Instruction(BaseInstruction::ADC, AddressingMode::ZPX, 4, false),
        0x76 => Instruction(BaseInstruction::ROR, AddressingMode::ZPX, 6, false),
        0x77 => Instruction(BaseInstruction::RMB7, AddressingMode::ZP0, 5, false),
        0x78 => Instruction(BaseInstruction::SEI, AddressingMode::IMP, 2, false),
        0x79 => Instruction(BaseInstruction::ADC, AddressingMode::ABY, 4, true),
        0x7A => Instruction(BaseInstruction::PLY, AddressingMode::IMP, 4, false),
        0x7B => Instruction(BaseInstruction::NOP, AddressingMode::IMP, 1, false),
        0x7C => Instruction(BaseInstruction::JMP, AddressingMode::IAX, 6, false),
        0x7D => Instruction(BaseInstruction::ADC, AddressingMode::ABX, 4, true),
        0x7E => Instruction(BaseInstruction::ROR, AddressingMode::ABX, 6, true),
        0x7F => Instruction(BaseInstruction::BBR7, AddressingMode::ZPR, 5, false),
        0x80 => Instruction(BaseInstruction::BRA, AddressingMode::REL, 3, true),
        0x81 => Instruction(BaseInstruction::STA, AddressingMode::IZX, 6, false),
        0x82 => Instruction(BaseInstruction::NOP, AddressingMode::IMM, 2, false),
        0x83 => Instruction(BaseInstruction::NOP, AddressingMode::IMP, 1, false),
        0x84 => Instruction(BaseInstruction::STY, AddressingMode::ZP0, 3, false),
        0x85 => Instruction(BaseInstruction::STA, AddressingMode::ZP0, 3, false),
        0x86 => Instruction(BaseInstruction::STX, AddressingMode::ZP0, 3, false),
        0x87 => Instruction(BaseInstruction::SMB0, AddressingMode::ZP0, 5, false),
        0x88 => Instruction(BaseInstruction::DEY, AddressingMode::IMP, 2, false),
        0x89 => Instruction(BaseInstruction::BIT, AddressingMode::IMM, 2, false),
        0x8A => Instruction(BaseInstruction::TXA, AddressingMode::IMP, 2, false),
        0x8B => Instruction(BaseInstruction::NOP, AddressingMode::IMP, 1, false),
        0x8C => Instruction(BaseInstruction::STY, AddressingMode::ABS, 4, false),
        0x8D => Instruction(BaseInstruction::STA, AddressingMode::ABS, 4, false),
        0x8E => Instruction(BaseInstruction::STX, AddressingMode::ABS, 4, false),
        0x8F => Instruction(BaseInstruction::BBS0, AddressingMode::ZPR, 5, false),
        0x90 => Instruction(BaseInstruction::BCC, AddressingMode::REL, 2, true),
        0x91 => Instruction(BaseInstruction::STA, AddressingMode::IZY, 6, false),
        0x92 => Instruction(BaseInstruction::STA, AddressingMode::IZP, 5, false),
        0x93 => Instruction(BaseInstruction::NOP, AddressingMode::IMP, 1, false),
        0x94 => Instruction(BaseInstruction::STY, AddressingMode::ZPX, 4, false),
        0x95 => Instruction(BaseInstruction::STA, AddressingMode::ZPX, 4, false),
        0x96 => Instruction(BaseInstruction::STX, AddressingMode::ZP0, 4, false),
        0x97 => Instruction(BaseInstruction::SMB1, AddressingMode::ZP0, 5, false),
        0x98 => Instruction(BaseInstruction::TYA, AddressingMode::IMP, 2, false),
        0x99 => Instruction(BaseInstruction::STA, AddressingMode::ABY, 5, false),
        0x9A => Instruction(BaseInstruction::TXS, AddressingMode::IMP, 2, false),
        0x9B => Instruction(BaseInstruction::NOP, AddressingMode::IMP, 1, false),
        0x9C => Instruction(BaseInstruction::STZ, AddressingMode::ABS, 4, false),
        0x9D => Instruction(BaseInstruction::STA, AddressingMode::ABX, 5, false),
        0x9E => Instruction(BaseInstruction::STZ, AddressingMode::ABX, 5, false),
        0x9F => Instruction(BaseInstruction::BBS1, AddressingMode::ZPR, 5, false),
        0xA0 => Instruction(BaseInstruction::LDY, AddressingMode::IMM, 2, false),
        0xA1 => Instruction(BaseInstruction::LDA, AddressingMode::IZX, 6, false),
        0xA2 => Instruction(BaseInstruction::LDX, AddressingMode::IMM, 2, false),
        0xA3 => Instruction(BaseInstruction::NOP, AddressingMode::IMP, 1, false),
        0xA4 => Instruction(BaseInstruction::LDY, AddressingMode::ZP0, 3, false),
        0xA5 => Instruction(BaseInstruction::LDA, AddressingMode::ZP0, 3, false),
        0xA6 => Instruction(BaseInstruction::LDX, AddressingMode::ZP0, 3, false),
        0xA7 => Instruction(BaseInstruction::SMB2, AddressingMode::ZP0, 5, false),
        0xA8 => Instruction(BaseInstruction::TAY, AddressingMode::IMP, 2, false),
        0xA9 => Instruction(BaseInstruction::LDA, AddressingMode::IMM, 2, false),
        0xAA => Instruction(BaseInstruction::TAX, AddressingMode::IMP, 2, false),
        0xAB => Instruction(BaseInstruction::NOP, AddressingMode::IMP, 1, false),
        0xAC => Instruction(BaseInstruction::LDY, AddressingMode::ABS, 4, false),
        0xAD => Instruction(BaseInstruction::LDA, AddressingMode::ABS, 4, false),
        0xAE => Instruction(BaseInstruction::LDX, AddressingMode::ABS, 4, false),
        0xAF => Instruction(BaseInstruction::BBS2, AddressingMode::ZPR, 5, false),
        0xB0 => Instruction(BaseInstruction::BCS, AddressingMode::REL, 2, true),
        0xB1 => Instruction(BaseInstruction::LDA, AddressingMode::IZY, 5, true),
        0xB2 => Instruction(BaseInstruction::LDA, AddressingMode::IZP, 5, false),
        0xB3 => Instruction(BaseInstruction::NOP, AddressingMode::IMP, 1, false),
        0xB4 => Instruction(BaseInstruction::LDY, AddressingMode::ZPX, 4, false),
        0xB5 => Instruction(BaseInstruction::LDA, AddressingMode::ZPX, 4, false),
        0xB6 => Instruction(BaseInstruction::LDX, AddressingMode::ZP0, 4, false),
        0xB7 => Instruction(BaseInstruction::SMB3, AddressingMode::ZP0, 5, false),
        0xB8 => Instruction(BaseInstruction::CLV, AddressingMode::IMP, 2, false),
        0xB9 => Instruction(BaseInstruction::LDA, AddressingMode::ABY, 4, true),
        0xBA => Instruction(BaseInstruction::TSX, AddressingMode::IMP, 2, false),
        0xBB => Instruction(BaseInstruction::NOP, AddressingMode::IMP, 1, false),
        0xBC => Instruction(BaseInstruction::LDY, AddressingMode::ABX, 4, true),
        0xBD => Instruction(BaseInstruction::LDA, AddressingMode::ABX, 4, true),
        0xBE => Instruction(BaseInstruction::LDX, AddressingMode::ABY, 4, true),
        0xBF => Instruction(BaseInstruction::BBS3, AddressingMode::ZPR, 5, false),
        0xC0 => Instruction(BaseInstruction::CPY, AddressingMode::IMM, 2, false),
        0xC1 => Instruction(BaseInstruction::CMP, AddressingMode::IZX, 6, false),
        0xC2 => Instruction(BaseInstruction::NOP, AddressingMode::IMM, 2, false),
        0xC3 => Instruction(BaseInstruction::NOP, AddressingMode::IMP, 1, false),
        0xC4 => Instruction(BaseInstruction::CPY, AddressingMode::ZP0, 3, false),
        0xC5 => Instruction(BaseInstruction::CMP, AddressingMode::ZP0, 3, false),
        0xC6 => Instruction(BaseInstruction::DEC, AddressingMode::ZP0, 5, false),
        0xC7 => Instruction(BaseInstruction::SMB4, AddressingMode::ZP0, 5, false),
        0xC8 => Instruction(BaseInstruction::INY, AddressingMode::IMP, 2, false),
        0xC9 => Instruction(BaseInstruction::CMP, AddressingMode::IMM, 2, false),
        0xCA => Instruction(BaseInstruction::DEX, AddressingMode::IMP, 2, false),
        0xCB => Instruction(BaseInstruction::NOP, AddressingMode::IMP, 3, false),
        0xCC => Instruction(BaseInstruction::CPY, AddressingMode::ABS, 4, false),
        0xCD => Instruction(BaseInstruction::CMP, AddressingMode::ABS, 4, false),
        0xCE => Instruction(BaseInstruction::DEC, AddressingMode::ABS, 6, false),
        0xCF => Instruction(BaseInstruction::BBS4, AddressingMode::ZPR, 5, false),
        0xD0 => Instruction(BaseInstruction::BNE, AddressingMode::REL, 2, true),
        0xD1 => Instruction(BaseInstruction::CMP, AddressingMode::IZY, 5, true),
        0xD2 => Instruction(BaseInstruction::CMP, AddressingMode::IZP, 5, false),
        0xD3 => Instruction(BaseInstruction::NOP, AddressingMode::IMP, 1, false),
        0xD4 => Instruction(BaseInstruction::NOP, AddressingMode::ZPX, 4, false),
        0xD5 => Instruction(BaseInstruction::CMP, AddressingMode::ZPX, 4, false),
        0xD6 => Instruction(BaseInstruction::DEC, AddressingMode::ZPX, 6, false),
        0xD7 => Instruction(BaseInstruction::SMB5, AddressingMode::ZP0, 5, false),
        0xD8 => Instruction(BaseInstruction::CLD, AddressingMode::IMP, 2, false),
        0xD9 => Instruction(BaseInstruction::CMP, AddressingMode::ABY, 4, true),
        0xDA => Instruction(BaseInstruction::PHX, AddressingMode::IMP, 3, false),
        0xDB => Instruction(BaseInstruction::NOP, AddressingMode::IMP, 3, false),
        0xDC => Instruction(BaseInstruction::NOP, AddressingMode::ABS, 4, false),
        0xDD => Instruction(BaseInstruction::CMP, AddressingMode::ABX, 4, true),
        0xDE => Instruction(BaseInstruction::DEC, AddressingMode::ABX, 7, false),
        0xDF => Instruction(BaseInstruction::BBS5, AddressingMode::ZPR, 5, false),
        0xE0 => Instruction(BaseInstruction::CPX, AddressingMode::IMM, 2, false),
        0xE1 => Instruction(BaseInstruction::SBC, AddressingMode::IZX, 6, false),
        0xE2 => Instruction(BaseInstruction::NOP, AddressingMode::IMM, 2, false),
        0xE3 => Instruction(BaseInstruction::NOP, AddressingMode::IMP, 1, false),
        0xE4 => Instruction(BaseInstruction::CPX, AddressingMode::ZP0, 3, false),
        0xE5 => Instruction(BaseInstruction::SBC, AddressingMode::ZP0, 3, false),
        0xE6 => Instruction(BaseInstruction::INC, AddressingMode::ZP0, 5, false),
        0xE7 => Instruction(BaseInstruction::SMB6, AddressingMode::ZP0, 5, false),
        0xE8 => Instruction(BaseInstruction::INX, AddressingMode::IMP, 2, false),
        0xE9 => Instruction(BaseInstruction::SBC, AddressingMode::IMM, 2, false),
        0xEA => Instruction(BaseInstruction::NOP, AddressingMode::IMP, 2, false),
        0xEB => Instruction(BaseInstruction::NOP, AddressingMode::IMP, 1, false),
        0xEC => Instruction(BaseInstruction::CPX, AddressingMode::ABS, 4, false),
        0xED => Instruction(BaseInstruction::SBC, AddressingMode::ABS, 4, false),
        0xEE => Instruction(BaseInstruction::INC, AddressingMode::ABS, 6, false),
        0xEF => Instruction(BaseInstruction::BBS6, AddressingMode::ZPR, 5, false),
        0xF0 => Instruction(BaseInstruction::BEQ, AddressingMode::REL, 2, true),
        0xF1 => Instruction(BaseInstruction::SBC, AddressingMode::IZY, 5, true),
        0xF2 => Instruction(BaseInstruction::SBC, AddressingMode::IZP, 5, false),
        0xF3 => Instruction(BaseInstruction::NOP, AddressingMode::IMP, 1, false),
        0xF4 => Instruction(BaseInstruction::NOP, AddressingMode::ZPX, 4, false),
        0xF5 => Instruction(BaseInstruction::SBC, AddressingMode::ZPX, 4, false),
        0xF6 => Instruction(BaseInstruction::INC, AddressingMode::ZPX, 6, false),
        0xF7 => Instruction(BaseInstruction::SMB7, AddressingMode::ZP0, 5, false),
        0xF8 => Instruction(BaseInstruction::SED, AddressingMode::IMP, 2, false),
        0xF9 => Instruction(BaseInstruction::SBC, AddressingMode::ABY, 4, true),
        0xFA => Instruction(BaseInstruction::PLX, AddressingMode::IMP, 4, false),
        0xFB => Instruction(BaseInstruction::NOP, AddressingMode::IMP, 1, false),
        0xFC => Instruction(BaseInstruction::NOP, AddressingMode::ABS, 4, false),
        0xFD => Instruction(BaseInstruction::SBC, AddressingMode::ABX, 4, true),
        0xFE => Instruction(BaseInstruction::INC, AddressingMode::ABX, 7, false),
        0xFF => Instruction(BaseInstruction::BBS7, AddressingMode::ZPR, 5, false),
    }
}

impl BaseInstruction {
    /// The instruction's assembler mnemonic.
    pub open spec fn spec_mnemonic(self) -> &'static str {
        match self {
            BaseInstruction::LDA => "LDA",
            BaseInstruction::LDX => "LDX",
            BaseInstruction::LDY => "LDY",
            BaseInstruction::STA => "STA",
            BaseInstruction::STX => "STX",
            BaseInstruction::STY => "STY",
            BaseInstruction::TAX => "TAX",
            BaseInstruction::TAY => "TAY",
            BaseInstruction::TXA => "TXA",
            BaseInstruction::TYA => "TYA",
            BaseInstruction::TSX => "TSX",
            BaseInstruction::TXS => "TXS",
            BaseInstruction::PHA => "PHA",
            BaseInstruction::PHP => "PHP",
            BaseInstruction::PLA => "PLA",
            BaseInstruction::PLP => "PLP",
            BaseInstruction::AND => "AND",
            BaseInstruction::EOR => "EOR",
            BaseInstruction::ORA => "ORA",
            BaseInstruction::BIT => "BIT",
            BaseInstruction::ADC => "ADC",
            BaseInstruction::SBC => "SBC",
            BaseInstruction::CMP => "CMP",
            BaseInstruction::CPX => "CPX",
            BaseInstruction::CPY => "CPY",
            BaseInstruction::INC => "INC",
            BaseInstruction::INX => "INX",
            BaseInstruction::INY => "INY",
            BaseInstruction::DEC => "DEC",
            BaseInstruction::DEX => "DEX",
            BaseInstruction::DEY => "DEY",
            BaseInstruction::ASL => "ASL",
            BaseInstruction::LSR => "LSR",
            BaseInstruction::ROL => "ROL",
            BaseInstruction::ROR => "ROR",
            BaseInstruction::JMP => "JMP",
            BaseInstruction::JSR => "JSR",
            BaseInstruction::RTS => "RTS",
            BaseInstruction::BCC => "BCC",
            BaseInstruction::BCS => "BCS",
            BaseInstruction::BEQ => "BEQ",
            BaseInstruction::BMI => "BMI",
            BaseInstruction::BNE => "BNE",
            BaseInstruction::BPL => "BPL",
            BaseInstruction::BVC => "BVC",
            BaseInstruction::BVS => "BVS",
            BaseInstruction::CLC => "CLC",
            BaseInstruction::CLD => "CLD",
            BaseInstruction::CLI => "CLI",
            BaseInstruction::CLV => "CLV",
            BaseInstruction::SEC => "SEC",
            BaseInstruction::SED => "SED",
            BaseInstruction::SEI => "SEI",
            BaseInstruction::BRK => "BRK",
            BaseInstruction::NOP => "NOP",
            BaseInstruction::RTI => "RTI",
            BaseInstruction::SLO => "SLO",
            BaseInstruction::ANC => "ANC",
            BaseInstruction::RLA => "RLA",
            BaseInstruction::SRE => "SRE",
            BaseInstruction::ALR => "ALR",
            BaseInstruction::RRA => "RRA",
            BaseInstruction::ARR => "ARR",
            BaseInstruction::SAX => "SAX",
            BaseInstruction::XAA => "XAA",
            BaseInstruction::AHX => "AHX",
            BaseInstruction::TAS => "TAS",
            BaseInstruction::SHY => "SHY",
            BaseInstruction::SHX => "SHX",
            BaseInstruction::LAX => "LAX",
            BaseInstruction::LAS => "LAS",
            BaseInstruction::DCP => "DCP",
            BaseInstruction::AXS => "AXS",
            BaseInstruction::ISC => "ISC",
            BaseInstruction::HLT => "HLT",
            BaseInstruction::BRA => "BRA",
            BaseInstruction::PHX => "PHX",
            BaseInstruction::PHY => "PHY",
            BaseInstruction::PLX => "PLX",
            BaseInstruction::PLY => "PLY",
            BaseInstruction::STZ => "STZ",
            BaseInstruction::TRB => "TRB",
            BaseInstruction::TSB => "TSB",
            BaseInstruction::BBR0 => "BBR0",
            BaseInstruction::BBR1 => "BBR1",
            BaseInstruction::BBR2 => "BBR2",
            BaseInstruction::BBR3 => "BBR3",
            BaseInstruction::BBR4 => "BBR4",
            BaseInstruction::BBR5 => "BBR5",
            BaseInstruction::BBR6 => "BBR6",
            BaseInstruction::BBR7 => "BBR7",
            BaseInstruction::BBS0 => "BBS0",
            BaseInstruction::BBS1 => "BBS1",
            BaseInstruction::BBS2 => "BBS2",
            BaseInstruction::BBS3 => "BBS3",
            BaseInstruction::BBS4 => "BBS4",
            BaseInstruction::BBS5 => "BBS5",
            BaseInstruction::BBS6 => "BBS6",
            BaseInstruction::BBS7 => "BBS7",
            BaseInstruction::RMB0 => "RMB0",
            BaseInstruction::RMB1 => "RMB1",
            BaseInstruction::RMB2 => "RMB2",
            BaseInstruction::RMB3 => "RMB3",
            BaseInstruction::RMB4 => "RMB4",
            BaseInstruction::RMB5 => "RMB5",
            BaseInstruction::RMB6 => "RMB6",
            BaseInstruction::RMB7 => "RMB7",
            BaseInstruction::SMB0 => "SMB0",
            BaseInstruction::SMB1 => "SMB1",
            BaseInstruction::SMB2 => "SMB2",
            BaseInstruction::SMB3 => "SMB3",
            BaseInstruction::SMB4 => "SMB4",
            BaseInstruction::SMB5 => "SMB5",
            BaseInstruction::SMB6 => "SMB6",
            BaseInstruction::SMB7 => "SMB7",
        }
    }

    /// The instruction's assembler mnemonic.
    pub fn mnemonic(&self) -> (r: &'static str)
        ensures
            r == self.spec_mnemonic(),
    {
        match self {
            BaseInstruction::LDA => "LDA",
            BaseInstruction::LDX => "LDX",
            BaseInstruction::LDY => "LDY",
            BaseInstruction::STA => "STA",
            BaseInstruction::STX => "STX",
            BaseInstruction::STY => "STY",
            BaseInstruction::TAX => "TAX",
            BaseInstruction::TAY => "TAY",
            BaseInstruction::TXA => "TXA",
            BaseInstruction::TYA => "TYA",
            BaseInstruction::TSX => "TSX",
            BaseInstruction::TXS => "TXS",
            BaseInstruction::PHA => "PHA",
            BaseInstruction::PHP => "PHP",
            BaseInstruction::PLA => "PLA",
            BaseInstruction::PLP => "PLP",
            BaseInstruction::AND => "AND",
            BaseInstruction::EOR => "EOR",
            BaseInstruction::ORA => "ORA",
            BaseInstruction::BIT => "BIT",
            BaseInstruction::ADC => "ADC",
            BaseInstruction::SBC => "SBC",
            BaseInstruction::CMP => "CMP",
            BaseInstruction::CPX => "CPX",
            BaseInstruction::CPY => "CPY",
            BaseInstruction::INC => "INC",
            BaseInstruction::INX => "INX",
            BaseInstruction::INY => "INY",
            BaseInstruction::DEC => "DEC",
            BaseInstruction::DEX => "DEX",
            BaseInstruction::DEY => "DEY",
            BaseInstruction::ASL => "ASL",
            BaseInstruction::LSR => "LSR",
            BaseInstruction::ROL => "ROL",
            BaseInstruction::ROR => "ROR",
            BaseInstruction::JMP => "JMP",
            BaseInstruction::JSR => "JSR",
            BaseInstruction::RTS => "RTS",
            BaseInstruction::BCC => "BCC",
            BaseInstruction::BCS => "BCS",
            BaseInstruction::BEQ => "BEQ",
            BaseInstruction::BMI => "BMI",
            BaseInstruction::BNE => "BNE",
            BaseInstruction::BPL => "BPL",
            BaseInstruction::BVC => "BVC",
            BaseInstruction::BVS => "BVS",
            BaseInstruction::CLC => "CLC",
            BaseInstruction::CLD => "CLD",
            BaseInstruction::CLI => "CLI",
            BaseInstruction::CLV => "CLV",
            BaseInstruction::SEC => "SEC",
            BaseInstruction::SED => "SED",
            BaseInstruction::SEI => "SEI",
            BaseInstruction::BRK => "BRK",
            BaseInstruction::NOP => "NOP",
            BaseInstruction::RTI => "RTI",
            BaseInstruction::SLO => "SLO",
            BaseInstruction::ANC => "ANC",
            BaseInstruction::RLA => "RLA",
            BaseInstruction::SRE => "SRE",
            BaseInstruction::ALR => "ALR",
            BaseInstruction::RRA => "RRA",
            BaseInstruction::ARR => "ARR",
            BaseInstruction::SAX => "SAX",
            BaseInstruction::XAA => "XAA",
            BaseInstruction::AHX => "AHX",
            BaseInstruction::TAS => "TAS",
            BaseInstruction::SHY => "SHY",
            BaseInstruction::SHX => "SHX",
            BaseInstruction::LAX => "LAX",
            BaseInstruction::LAS => "LAS",
            BaseInstruction::DCP => "DCP",
            BaseInstruction::AXS => "AXS",
            BaseInstruction::ISC => "ISC",
            BaseInstruction::HLT => "HLT",
            BaseInstruction::BRA => "BRA",
            BaseInstruction::PHX => "PHX",
            BaseInstruction::PHY => "PHY",
            BaseInstruction::PLX => "PLX",
            BaseInstruction::PLY => "PLY",
            BaseInstruction::STZ => "STZ",
            BaseInstruction::TRB => "TRB",
            BaseInstruction::TSB => "TSB",
            BaseInstruction::BBR0 => "BBR0",
            BaseInstruction::BBR1 => "BBR1",
            BaseInstruction::BBR2 => "BBR2",
            BaseInstruction::BBR3 => "BBR3",
            BaseInstruction::BBR4 => "BBR4",
            BaseInstruction::BBR5 => "BBR5",
            BaseInstruction::BBR6 => "BBR6",
            BaseInstruction::BBR7 => "BBR7",
            BaseInstruction::BBS0 => "BBS0",
            BaseInstruction::BBS1 => "BBS1",
            BaseInstruction::BBS2 => "BBS2",
            BaseInstruction::BBS3 => "BBS3",
            BaseInstruction::BBS4 => "BBS4",
            BaseInstruction::BBS5 => "BBS5",
            BaseInstruction::BBS6 => "BBS6",
            BaseInstruction::BBS7 => "BBS7",
            BaseInstruction::RMB0 => "RMB0",
            BaseInstruction::RMB1 => "RMB1",
            BaseInstruction::RMB2 => "RMB2",
            BaseInstruction::RMB3 => "RMB3",
            BaseInstruction::RMB4 => "RMB4",
            BaseInstruction::RMB5 => "RMB5",
            BaseInstruction::RMB6 => "RMB6",
            BaseInstruction::RMB7 => "RMB7",
            BaseInstruction::SMB0 => "SMB0",
            BaseInstruction::SMB1 => "SMB1",
            BaseInstruction::SMB2 => "SMB2",
            BaseInstruction::SMB3 => "SMB3",
            BaseInstruction::SMB4 => "SMB4",
            BaseInstruction::SMB5 => "SMB5",
            BaseInstruction::SMB6 => "SMB6",
            BaseInstruction::SMB7 => "SMB7",
        }
    }
}

} // verus!
