//! Assembler text of a disassembled instruction, and the register dump of a processor.
use super::cpu6502::{Cpu6502, InstructionData, StatusFlags};
use super::disassembler::Asm6502Instruction;
use vstd::prelude::*;
use vstd::string::StringExecFns;
use vstd::string::StringSliceAdditionalSpecFns;

verus! {

/// The hexadecimal digit (upper case) of a number below 16.
pub open spec fn hex_digit(d: u8) -> &'static str {
    if d == 0 {
        "0"
    } else if d == 1 {
        "1"
    } else if d == 2 {
        "2"
    } else if d == 3 {
        "3"
    } else if d == 4 {
        "4"
    } else if d == 5 {
        "5"
    } else if d == 6 {
        "6"
    } else if d == 7 {
        "7"
    } else if d == 8 {
        "8"
    } else if d == 9 {
        "9"
    } else if d == 10 {
        "A"
    } else if d == 11 {
        "B"
    } else if d == 12 {
        "C"
    } else if d == 13 {
        "D"
    } else if d == 14 {
        "E"
    } else {
        "F"
    }
}

/// A byte as two hexadecimal digits.
pub open spec fn hex2(v: u8) -> Seq<char> {
    hex_digit(v / 16)@ + hex_digit(v % 16)@
}

/// A word as four hexadecimal digits.
pub open spec fn hex4(v: u16) -> Seq<char> {
    hex2((v / 256) as u8) + hex2((v % 256) as u8)
}

/// A mnemonic padded with a space to four characters, as `{:<4}` pads it.
pub open spec fn padded(m: &str) -> Seq<char> {
    if (m.spec_bytes().len() as usize) < 4 {
        m@ + " "@
    } else {
        m@
    }
}

impl Asm6502Instruction {
    /// The instruction in assembler notation: the mnemonic, then the operand as its
    /// addressing mode writes it, in hexadecimal.
    pub open spec fn spec_text(self) -> Seq<char> {
        let m = self.instruction.spec_mnemonic();
        if self.is_undefined {
            "UNKNOWN"@
        } else {
            match self.data {
                InstructionData::IMP => m@,
                InstructionData::IMM(d) => padded(m) + " #$"@ + hex2(d),
                InstructionData::ZP0(z) => padded(m) + " $"@ + hex2(z),
                InstructionData::ZPR(z, r) => padded(m) + " $"@ + hex2(z) + ",$"@ + hex2(r),
                InstructionData::ZPX(z) => padded(m) + " $"@ + hex2(z) + ",X"@,
                InstructionData::ZPY(z) => padded(m) + " $"@ + hex2(z) + ",Y"@,
                InstructionData::REL(r) => padded(m) + " $"@ + hex2(r),
                InstructionData::ABS(a) => padded(m) + " $"@ + hex4(a),
                InstructionData::ABX(a) => padded(m) + " $"@ + hex4(a) + ",X"@,
                InstructionData::ABY(a) => padded(m) + " $"@ + hex4(a) + ",Y"@,
                InstructionData::IND(a) => padded(m) + " ($"@ + hex4(a) + ")"@,
                InstructionData::IZP(z) => padded(m) + " ($"@ + hex2(z) + ")"@,
                InstructionData::IZX(z) => padded(m) + " ($"@ + hex2(z) + ",X)"@,
                InstructionData::IZY(z) => padded(m) + " ($"@ + hex2(z) + "),Y"@,
                InstructionData::IAX(a) => padded(m) + " ($"@ + hex4(a) + ",X)"@,
            }
        }
    }

    /// The instruction in assembler notation.
    pub fn to_text(&self) -> (r: String)
        ensures
            r@ == self.spec_text(),
    {
        if self.is_undefined {
            return String::from_str("UNKNOWN");
        }
        let m = self.instruction.mnemonic();
        let mut text = String::from_str(m);
        match self.data {
            InstructionData::IMP => {
                return text;
            },
            _ => {},
        }
        if m.len() < 4 {
            text.append(" ");
        }
        let ghost prefix = text@;
        assert(prefix == padded(m));
        match self.data {
            InstructionData::IMP => {},
            InstructionData::IMM(d) => {
                text.append(" #$");
                append_hex2(&mut text, d);
            },
            InstructionData::ZP0(z) => {
                text.append(" $");
                append_hex2(&mut text, z);
            },
            InstructionData::ZPR(z, r) => {
                text.append(" $");
                append_hex2(&mut text, z);
                text.append(",$");
                append_hex2(&mut text, r);
            },
            InstructionData::ZPX(z) => {
                text.append(" $");
                append_hex2(&mut text, z);
                text.append(",X");
            },
            InstructionData::ZPY(z) => {
                text.append(" $");
                append_hex2(&mut text, z);
                text.append(",Y");
            },
            InstructionData::REL(r) => {
                text.append(" $");
                append_hex2(&mut text, r);
            },
            InstructionData::ABS(a) => {
                text.append(" $");
                append_hex4(&mut text, a);
            },
            InstructionData::ABX(a) => {
                text.append(" $");
                append_hex4(&mut text, a);
                text.append(",X");
            },
            InstructionData::ABY(a) => {
                text.append(" $");
                append_hex4(&mut text, a);
                text.append(",Y");
            },
            InstructionData::IND(a) => {
                text.append(" ($");
                append_hex4(&mut text, a);
                text.append(")");
            },
            InstructionData::IZP(z) => {
                text.append(" ($");
                append_hex2(&mut text, z);
                text.append(")");
            },
            InstructionData::IZX(z) => {
                text.append(" ($");
                append_hex2(&mut text, z);
                text.append(",X)");
            },
            InstructionData::IZY(z) => {
                text.append(" ($");
                append_hex2(&mut text, z);
                text.append("),Y");
            },
            InstructionData::IAX(a) => {
                text.append(" ($");
                append_hex4(&mut text, a);
                text.append(",X)");
            },
        }
        assert(text@ =~= self.spec_text());
        text
    }
}

/// The hexadecimal digit of a number below 16.
fn hex_digit_str(d: u8) -> (r: &'static str)
    requires
        d < 16,
    ensures
        r == hex_digit(d),
{
    if d == 0 {
        "0"
    } else if d == 1 {
        "1"
    } else if d == 2 {
        "2"
    } else if d == 3 {
        "3"
    } else if d == 4 {
        "4"
    } else if d == 5 {
        "5"
    } else if d == 6 {
        "6"
    } else if d == 7 {
        "7"
    } else if d == 8 {
        "8"
    } else if d == 9 {
        "9"
    } else if d == 10 {
        "A"
    } else if d == 11 {
        "B"
    } else if d == 12 {
        "C"
    } else if d == 13 {
        "D"
    } else if d == 14 {
        "E"
    } else {
        "F"
    }
}

fn append_hex2(text: &mut String, v: u8)
    ensures
        final(text)@ == old(text)@ + hex2(v),
{
    text.append(hex_digit_str(v / 16));
    text.append(hex_digit_str(v % 16));
    assert(final(text)@ =~= old(text)@ + hex2(v)) by {
        assert(final(text)@ =~= old(text)@ + hex_digit(v / 16)@ + hex_digit(v % 16)@);
    }
}

fn append_hex4(text: &mut String, v: u16)
    ensures
        final(text)@ == old(text)@ + hex4(v),
{
    append_hex2(text, (v / 256) as u8);
    append_hex2(text, (v % 256) as u8);
    assert(final(text)@ =~= old(text)@ + hex4(v));
}

/// A flag as the digit 1 or 0.
pub open spec fn flag_digit(f: bool) -> Seq<char> {
    if f {
        "1"@
    } else {
        "0"@
    }
}

/// The register dump: a header naming the flags, their values in the same columns, then the
/// registers in hexadecimal, the stack pointer with the stack page in front.
pub open spec fn register_text(a: u8, x: u8, y: u8, pc: u16, sp: u8, status: StatusFlags) -> Seq<
    char,
> {
    "N  V  -  B  D  I  Z  C\n"@ + flag_digit(status.n) + "  "@ + flag_digit(status.v) + "  "@
        + flag_digit(status.u) + "  "@ + flag_digit(status.b) + "  "@ + flag_digit(status.d)
        + "  "@ + flag_digit(status.i) + "  "@ + flag_digit(status.z) + "  "@ + flag_digit(status.c)
        + "\nA: $"@ + hex2(a) + "  X: $"@ + hex2(x) + "  Y: $"@ + hex2(y) + "\nPC: $"@ + hex4(pc)
        + "    SP: $01"@ + hex2(sp)
}

fn append_flag(text: &mut String, f: bool)
    ensures
        final(text)@ == old(text)@ + flag_digit(f),
{
    if f {
        text.append("1");
    } else {
        text.append("0");
    }
}

impl<B> Cpu6502<B> {
    /// The register dump (see [`register_text`]).
    pub fn to_text(&self) -> (r: String)
        ensures
            r@ == register_text(self.a, self.x, self.y, self.pc, self.sp, self.status),
    {
        let mut text = String::from_str("N  V  -  B  D  I  Z  C\n");
        append_flag(&mut text, self.status.n);
        text.append("  ");
        append_flag(&mut text, self.status.v);
        text.append("  ");
        append_flag(&mut text, self.status.u);
        text.append("  ");
        append_flag(&mut text, self.status.b);
        text.append("  ");
        append_flag(&mut text, self.status.d);
        text.append("  ");
        append_flag(&mut text, self.status.i);
        text.append("  ");
        append_flag(&mut text, self.status.z);
        text.append("  ");
        append_flag(&mut text, self.status.c);
        text.append("\nA: $");
        append_hex2(&mut text, self.a);
        text.append("  X: $");
        append_hex2(&mut text, self.x);
        text.append("  Y: $");
        append_hex2(&mut text, self.y);
        text.append("\nPC: $");
        append_hex4(&mut text, self.pc);
        text.append("    SP: $01");
        append_hex2(&mut text, self.sp);
        assert(text@ =~= register_text(self.a, self.x, self.y, self.pc, self.sp, self.status));
        text
    }
}

} // verus!