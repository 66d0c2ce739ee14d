//! The execution of each instruction once its operand is known.
use super::alu::{bcd_add, bcd_subtract, rotate_byte_left, rotate_byte_right};
use super::cpu6502::{
    BaseInstruction, Cpu6502, ExecutionData, IRQ_VECTOR, StatusFlags, data_fits,
};
use crate::bits::{
    group_wrapping, lemma_bit0, lemma_bit7, lemma_not_byte, lemma_shift1, lemma_sign_rule,
    lemma_u16_parts, lemma_wrap8, wrap8,
};
use crate::bus::BusComponent;
use vstd::prelude::*;

verus! {

broadcast use group_wrapping;

impl<B: BusComponent> Cpu6502<B> {
    /// Binary addition with carry (SBC passes the complement of its operand).
    #[verifier::spinoff_prover]
    #[verifier::rlimit(30)]
    pub(crate) fn execute_adc_sbc(&mut self, right: u8)
        ensures
            final(self)@ == Self::adc_binary(old(self)@, right),
    {
        let left = self.a as u16;
        let r = right as u16;
        let carry: u16 = if self.status.c {
            1
        } else {
            0
        };
        let result = left + r + carry;
        let is_overflow = ((!(left ^ r) & (left ^ result)) & 0x0080) != 0;
        proof {
            reveal(wrap8);
            lemma_sign_rule(left, r, result);
            lemma_u16_parts(left);
            lemma_u16_parts(r);
            lemma_u16_parts(result);
        }
        self.a = (result & 0x00FF) as u8;
        self.status.c = (result & 0xFF00) != 0;
        self.status.v = is_overflow;
        self.set_zn_flags(self.a);
    }

    /// Decimal addition with carry.
    #[verifier::spinoff_prover]
    pub(crate) fn execute_adc_decimal(&mut self, right: u8) -> (r: u32)
        ensures
            r <= 1,
            (r, final(self)@) == Self::adc_decimal(old(self)@, right),
    {
        let left = self.a;
        let carry_flag = self.status.c;
        let (sum, result) = bcd_add(left, right, carry_flag);
        let carry: u16 = if carry_flag {
            1
        } else {
            0
        };
        let l = left as u16;
        let rv = right as u16;
        proof {
            lemma_u16_parts(sum);
            lemma_u16_parts(result);
            lemma_u16_parts(l);
            lemma_u16_parts(rv);
            lemma_u16_parts((l + rv + carry) as u16);
            lemma_sign_rule(l, rv, sum);
            lemma_wrap8(result as int);
            lemma_wrap8(l + rv + carry);
        }
        let invalid_n = (sum & 0x0080) != 0;
        let is_overflow = ((!(l ^ rv) & (l ^ sum)) & 0x0080) != 0;
        self.a = (result & 0x00FF) as u8;
        self.status.c = result >= 0x0100;
        self.status.v = is_overflow;

        if self.emulate_invalid_decimal_flags {
            self.status.z = ((l + rv + carry) & 0x00FF) == 0;
            self.status.n = invalid_n;
            0
        } else {
            self.set_zn_flags(self.a);
            1
        }
    }

    /// Decimal subtraction with borrow.
    #[verifier::spinoff_prover]
    pub(crate) fn execute_sbc_decimal(&mut self, right: u8) -> (r: u32)
        ensures
            r <= 1,
            (r, final(self)@) == Self::sbc_decimal(old(self)@, right),
    {
        let left = self.a;
        let carry_flag = self.status.c;
        let difference = bcd_subtract(left, right, carry_flag);
        // The low byte of the two's complement result
        self.a = ((difference + 512) % 256) as u8;

        let carry: u16 = if carry_flag {
            1
        } else {
            0
        };
        let lw = left as u16;
        let rw = right as u16;
        let bin_result = lw + rw + carry;
        proof {
            vstd::arithmetic::div_mod::lemma_mod_add_multiples_vanish(difference + 256, 256);
            vstd::arithmetic::div_mod::lemma_mod_add_multiples_vanish(difference as int, 256);
            lemma_wrap8(difference as int);
            lemma_wrap8(bin_result as int);
            lemma_sign_rule(lw, rw, bin_result);
            lemma_u16_parts(lw);
            lemma_u16_parts(rw);
            lemma_u16_parts(bin_result);
        }
        let is_overflow = ((!(lw ^ rw) & (lw ^ bin_result)) & 0x0080) != 0;
        self.status.c = (bin_result & 0xFF00) != 0;
        self.status.v = is_overflow;

        if self.emulate_invalid_decimal_flags {
            self.set_zn_flags((bin_result & 0x00FF) as u8);
            0
        } else {
            self.set_zn_flags(self.a);
            1
        }
    }

    pub(crate) fn execute_bbr(&mut self, data: ExecutionData, n: u8) -> (r: u32)
        requires
            Self::bus_ok(old(self)@.bus),
            data is Address || data is AddressPair,
            n < 8,
        ensures
            Self::bus_ok(final(self)@.bus),
            r <= 1,
            (r, final(self)@) == Self::bit_branch(old(self)@, data, n, false),
    {
        let value = data.read_data(self);
        if (value & (1u8 << n)) == 0 {
            self.pc = data.read_address();
            1
        } else {
            0
        }
    }

    pub(crate) fn execute_bbs(&mut self, data: ExecutionData, n: u8) -> (r: u32)
        requires
            Self::bus_ok(old(self)@.bus),
            data is Address || data is AddressPair,
            n < 8,
        ensures
            Self::bus_ok(final(self)@.bus),
            r <= 1,
            (r, final(self)@) == Self::bit_branch(old(self)@, data, n, true),
    {
        let value = data.read_data(self);
        if (value & (1u8 << n)) != 0 {
            self.pc = data.read_address();
            1
        } else {
            0
        }
    }

    pub(crate) fn execute_rmb(&mut self, data: ExecutionData, n: u8) -> (r: u32)
        requires
            Self::bus_ok(old(self)@.bus),
            data is Address || data is AddressPair,
            n < 8,
        ensures
            Self::bus_ok(final(self)@.bus),
            r == 0,
            final(self)@ == Self::bit_modify(old(self)@, data, n, false),
    {
        let mut value = data.read_data(self);
        value = value & !(1u8 << n);
        self.status.z = value == 0;
        data.write_data(self, value);
        0
    }

    pub(crate) fn execute_smb(&mut self, data: ExecutionData, n: u8) -> (r: u32)
        requires
            Self::bus_ok(old(self)@.bus),
            data is Address || data is AddressPair,
            n < 8,
        ensures
            Self::bus_ok(final(self)@.bus),
            r == 0,
            final(self)@ == Self::bit_modify(old(self)@, data, n, true),
    {
        let mut value = data.read_data(self);
        value = value | (1u8 << n);
        self.status.z = value == 0;
        data.write_data(self, value);
        0
    }

    pub(crate) fn execute_lda(&mut self, data: ExecutionData) -> (r: u32)
        requires
            Self::bus_ok(old(self)@.bus),
            data_fits(BaseInstruction::LDA, data),
        ensures
            Self::bus_ok(final(self)@.bus),
            r <= 1,
            (r, final(self)@) == Self::spec_lda(old(self)@, data),
    {
        proof {
            reveal(Cpu6502::spec_lda);
        }
        let v = data.read_data(self);
        self.a = v;
        self.set_zn_flags(v);
        0
    }

    pub(crate) fn execute_ldx(&mut self, data: ExecutionData) -> (r: u32)
        requires
            Self::bus_ok(old(self)@.bus),
            data_fits(BaseInstruction::LDX, data),
        ensures
            Self::bus_ok(final(self)@.bus),
            r <= 1,
            (r, final(self)@) == Self::spec_ldx(old(self)@, data),
    {
        proof {
            reveal(Cpu6502::spec_ldx);
        }
        let v = data.read_data(self);
        self.x = v;
        self.set_zn_flags(v);
        0
    }

    pub(crate) fn execute_ldy(&mut self, data: ExecutionData) -> (r: u32)
        requires
            Self::bus_ok(old(self)@.bus),
            data_fits(BaseInstruction::LDY, data),
        ensures
            Self::bus_ok(final(self)@.bus),
            r <= 1,
            (r, final(self)@) == Self::spec_ldy(old(self)@, data),
    {
        proof {
            reveal(Cpu6502::spec_ldy);
        }
        let v = data.read_data(self);
        self.y = v;
        self.set_zn_flags(v);
        0
    }

    pub(crate) fn execute_sta(&mut self, data: ExecutionData) -> (r: u32)
        requires
            Self::bus_ok(old(self)@.bus),
            data_fits(BaseInstruction::STA, data),
        ensures
            Self::bus_ok(final(self)@.bus),
            r <= 1,
            (r, final(self)@) == Self::spec_sta(old(self)@, data),
    {
        proof {
            reveal(Cpu6502::spec_sta);
        }
        let a = self.a;
        data.write_data(self, a);
        0
    }

    pub(crate) fn execute_stx(&mut self, data: ExecutionData) -> (r: u32)
        requires
            Self::bus_ok(old(self)@.bus),
            data_fits(BaseInstruction::STX, data),
        ensures
            Self::bus_ok(final(self)@.bus),
            r <= 1,
            (r, final(self)@) == Self::spec_stx(old(self)@, data),
    {
        proof {
            reveal(Cpu6502::spec_stx);
        }
        let x = self.x;
        data.write_data(self, x);
        0
    }

    pub(crate) fn execute_sty(&mut self, data: ExecutionData) -> (r: u32)
        requires
            Self::bus_ok(old(self)@.bus),
            data_fits(BaseInstruction::STY, data),
        ensures
            Self::bus_ok(final(self)@.bus),
            r <= 1,
            (r, final(self)@) == Self::spec_sty(old(self)@, data),
    {
        proof {
            reveal(Cpu6502::spec_sty);
        }
        let y = self.y;
        data.write_data(self, y);
        0
    }

    pub(crate) fn execute_tax(&mut self) -> (r: u32)
        requires
            Self::bus_ok(old(self)@.bus),
        ensures
            Self::bus_ok(final(self)@.bus),
            r <= 1,
            (r, final(self)@) == Self::spec_tax(old(self)@),
    {
        proof {
            reveal(Cpu6502::spec_tax);
        }
        self.x = self.a;
        self.set_zn_flags(self.x);
        0
    }

    pub(crate) fn execute_tay(&mut self) -> (r: u32)
        requires
            Self::bus_ok(old(self)@.bus),
        ensures
            Self::bus_ok(final(self)@.bus),
            r <= 1,
            (r, final(self)@) == Self::spec_tay(old(self)@),
    {
        proof {
            reveal(Cpu6502::spec_tay);
        }
        self.y = self.a;
        self.set_zn_flags(self.y);
        0
    }

    pub(crate) fn execute_txa(&mut self) -> (r: u32)
        requires
            Self::bus_ok(old(self)@.bus),
        ensures
            Self::bus_ok(final(self)@.bus),
            r <= 1,
            (r, final(self)@) == Self::spec_txa(old(self)@),
    {
        proof {
            reveal(Cpu6502::spec_txa);
        }
        self.a = self.x;
        self.set_zn_flags(self.a);
        0
    }

    pub(crate) fn execute_tya(&mut self) -> (r: u32)
        requires
            Self::bus_ok(old(self)@.bus),
        ensures
            Self::bus_ok(final(self)@.bus),
            r <= 1,
            (r, final(self)@) == Self::spec_tya(old(self)@),
    {
        proof {
            reveal(Cpu6502::spec_tya);
        }
        self.a = self.y;
        self.set_zn_flags(self.a);
        0
    }

    pub(crate) fn execute_tsx(&mut self) -> (r: u32)
        requires
            Self::bus_ok(old(self)@.bus),
        ensures
            Self::bus_ok(final(self)@.bus),
            r <= 1,
            (r, final(self)@) == Self::spec_tsx(old(self)@),
    {
        proof {
            reveal(Cpu6502::spec_tsx);
        }
        self.x = self.sp;
        self.set_zn_flags(self.x);
        0
    }

    pub(crate) fn execute_txs(&mut self) -> (r: u32)
        requires
            Self::bus_ok(old(self)@.bus),
        ensures
            Self::bus_ok(final(self)@.bus),
            r <= 1,
            (r, final(self)@) == Self::spec_txs(old(self)@),
    {
        proof {
            reveal(Cpu6502::spec_txs);
        }
        self.sp = self.x;
        0
    }

    pub(crate) fn execute_pha(&mut self) -> (r: u32)
        requires
            Self::bus_ok(old(self)@.bus),
        ensures
            Self::bus_ok(final(self)@.bus),
            r <= 1,
            (r, final(self)@) == Self::spec_pha(old(self)@),
    {
        proof {
            reveal(Cpu6502::spec_pha);
        }
        let a = self.a;
        self.push_word(a);
        0
    }

    pub(crate) fn execute_php(&mut self) -> (r: u32)
        requires
            Self::bus_ok(old(self)@.bus),
        ensures
            Self::bus_ok(final(self)@.bus),
            r <= 1,
            (r, final(self)@) == Self::spec_php(old(self)@),
    {
        proof {
            reveal(Cpu6502::spec_php);
        }
        let pushed = StatusFlags { b: true, u: true, ..self.status };
        let bits = pushed.bits();
        self.push_word(bits);
        self.status.b = false;
        self.status.u = false;
        0
    }

    pub(crate) fn execute_pla(&mut self) -> (r: u32)
        requires
            Self::bus_ok(old(self)@.bus),
        ensures
            Self::bus_ok(final(self)@.bus),
            r <= 1,
            (r, final(self)@) == Self::spec_pla(old(self)@),
    {
        proof {
            reveal(Cpu6502::spec_pla);
        }
        let v = self.pop_word();
        self.a = v;
        self.set_zn_flags(v);
        0
    }

    pub(crate) fn execute_plp(&mut self) -> (r: u32)
        requires
            Self::bus_ok(old(self)@.bus),
        ensures
            Self::bus_ok(final(self)@.bus),
            r <= 1,
            (r, final(self)@) == Self::spec_plp(old(self)@),
    {
        proof {
            reveal(Cpu6502::spec_plp);
        }
        let v = self.pop_word();
        self.status = StatusFlags::from_bits(v);
        self.status.u = true;
        0
    }

    pub(crate) fn execute_and(&mut self, data: ExecutionData) -> (r: u32)
        requires
            Self::bus_ok(old(self)@.bus),
            data_fits(BaseInstruction::AND, data),
        ensures
            Self::bus_ok(final(self)@.bus),
            r <= 1,
            (r, final(self)@) == Self::spec_and(old(self)@, data),
    {
        proof {
            reveal(Cpu6502::spec_and);
        }
        let v = data.read_data(self);
        self.a = self.a & v;
        self.set_zn_flags(self.a);
        0
    }

    pub(crate) fn execute_eor(&mut self, data: ExecutionData) -> (r: u32)
        requires
            Self::bus_ok(old(self)@.bus),
            data_fits(BaseInstruction::EOR, data),
        ensures
            Self::bus_ok(final(self)@.bus),
            r <= 1,
            (r, final(self)@) == Self::spec_eor(old(self)@, data),
    {
        proof {
            reveal(Cpu6502::spec_eor);
        }
        let v = data.read_data(self);
        self.a = self.a ^ v;
        self.set_zn_flags(self.a);
        0
    }

    pub(crate) fn execute_ora(&mut self, data: ExecutionData) -> (r: u32)
        requires
            Self::bus_ok(old(self)@.bus),
            data_fits(BaseInstruction::ORA, data),
        ensures
            Self::bus_ok(final(self)@.bus),
            r <= 1,
            (r, final(self)@) == Self::spec_ora(old(self)@, data),
    {
        proof {
            reveal(Cpu6502::spec_ora);
        }
        let v = data.read_data(self);
        self.a = self.a | v;
        self.set_zn_flags(self.a);
        0
    }

    pub(crate) fn execute_bit(&mut self, data: ExecutionData) -> (r: u32)
        requires
            Self::bus_ok(old(self)@.bus),
            data_fits(BaseInstruction::BIT, data),
        ensures
            Self::bus_ok(final(self)@.bus),
            r <= 1,
            (r, final(self)@) == Self::spec_bit(old(self)@, data),
    {
        proof {
            reveal(Cpu6502::spec_bit);
        }
        let value = data.read_data(self);
        proof {
            lemma_bit7(value);
            assert(((value & 0x40) != 0) == ((value / 0x40) % 2 == 1)) by (bit_vector);
        }
        self.status.z = (self.a & value) == 0;
        self.status.n = (value & 0x80) != 0;
        self.status.v = (value & 0x40) != 0;
        0
    }

    pub(crate) fn execute_adc(&mut self, data: ExecutionData) -> (r: u32)
        requires
            Self::bus_ok(old(self)@.bus),
            data_fits(BaseInstruction::ADC, data),
        ensures
            Self::bus_ok(final(self)@.bus),
            r <= 1,
            (r, final(self)@) == Self::spec_adc(old(self)@, data),
    {
        proof {
            reveal(Cpu6502::spec_adc);
        }
        let right = data.read_data(self);
        if self.enable_decimal_mode && self.status.d {
            self.execute_adc_decimal(right)
        } else {
            self.execute_adc_sbc(right);
            0
        }
    }

    pub(crate) fn execute_sbc(&mut self, data: ExecutionData) -> (r: u32)
        requires
            Self::bus_ok(old(self)@.bus),
            data_fits(BaseInstruction::SBC, data),
        ensures
            Self::bus_ok(final(self)@.bus),
            r <= 1,
            (r, final(self)@) == Self::spec_sbc(old(self)@, data),
    {
        proof {
            reveal(Cpu6502::spec_sbc);
        }
        let value = data.read_data(self);
        proof {
            lemma_not_byte(value);
        }
        if self.enable_decimal_mode && self.status.d {
            self.execute_sbc_decimal(value)
        } else {
            self.execute_adc_sbc(!value);
            0
        }
    }

    pub(crate) fn execute_cmp(&mut self, data: ExecutionData) -> (r: u32)
        requires
            Self::bus_ok(old(self)@.bus),
            data_fits(BaseInstruction::CMP, data),
        ensures
            Self::bus_ok(final(self)@.bus),
            r <= 1,
            (r, final(self)@) == Self::spec_cmp(old(self)@, data),
    {
        proof {
            reveal(Cpu6502::spec_cmp);
        }
        let value = data.read_data(self);
        let tmp = self.a.wrapping_sub(value);
        self.status.c = self.a >= value;
        self.set_zn_flags(tmp);
        0
    }

    pub(crate) fn execute_cpx(&mut self, data: ExecutionData) -> (r: u32)
        requires
            Self::bus_ok(old(self)@.bus),
            data_fits(BaseInstruction::CPX, data),
        ensures
            Self::bus_ok(final(self)@.bus),
            r <= 1,
            (r, final(self)@) == Self::spec_cpx(old(self)@, data),
    {
        proof {
            reveal(Cpu6502::spec_cpx);
        }
        let value = data.read_data(self);
        let tmp = self.x.wrapping_sub(value);
        self.status.c = self.x >= value;
        self.set_zn_flags(tmp);
        0
    }

    pub(crate) fn execute_cpy(&mut self, data: ExecutionData) -> (r: u32)
        requires
            Self::bus_ok(old(self)@.bus),
            data_fits(BaseInstruction::CPY, data),
        ensures
            Self::bus_ok(final(self)@.bus),
            r <= 1,
            (r, final(self)@) == Self::spec_cpy(old(self)@, data),
    {
        proof {
            reveal(Cpu6502::spec_cpy);
        }
        let value = data.read_data(self);
        let tmp = self.y.wrapping_sub(value);
        self.status.c = self.y >= value;
        self.set_zn_flags(tmp);
        0
    }

    pub(crate) fn execute_inc(&mut self, data: ExecutionData) -> (r: u32)
        requires
            Self::bus_ok(old(self)@.bus),
            data_fits(BaseInstruction::INC, data),
        ensures
            Self::bus_ok(final(self)@.bus),
            r <= 1,
            (r, final(self)@) == Self::spec_inc(old(self)@, data),
    {
        proof {
            reveal(Cpu6502::spec_inc);
        }
        if let ExecutionData::Implied = data {
            self.a = self.a.wrapping_add(1);
            self.set_zn_flags(self.a);
        } else {
            let value = data.read_data(self).wrapping_add(1);
            data.write_data(self, value);
            self.set_zn_flags(value);
        }
        0
    }

    pub(crate) fn execute_dec(&mut self, data: ExecutionData) -> (r: u32)
        requires
            Self::bus_ok(old(self)@.bus),
            data_fits(BaseInstruction::DEC, data),
        ensures
            Self::bus_ok(final(self)@.bus),
            r <= 1,
            (r, final(self)@) == Self::spec_dec(old(self)@, data),
    {
        proof {
            reveal(Cpu6502::spec_dec);
        }
        if let ExecutionData::Implied = data {
            self.a = self.a.wrapping_sub(1);
            self.set_zn_flags(self.a);
        } else {
            let value = data.read_data(self).wrapping_sub(1);
            data.write_data(self, value);
            self.set_zn_flags(value);
        }
        0
    }

    pub(crate) fn execute_inx(&mut self) -> (r: u32)
        requires
            Self::bus_ok(old(self)@.bus),
        ensures
            Self::bus_ok(final(self)@.bus),
            r <= 1,
            (r, final(self)@) == Self::spec_inx(old(self)@),
    {
        proof {
            reveal(Cpu6502::spec_inx);
        }
        self.x = self.x.wrapping_add(1);
        self.set_zn_flags(self.x);
        0
    }

    pub(crate) fn execute_iny(&mut self) -> (r: u32)
        requires
            Self::bus_ok(old(self)@.bus),
        ensures
            Self::bus_ok(final(self)@.bus),
            r <= 1,
            (r, final(self)@) == Self::spec_iny(old(self)@),
    {
        proof {
            reveal(Cpu6502::spec_iny);
        }
        self.y = self.y.wrapping_add(1);
        self.set_zn_flags(self.y);
        0
    }

    pub(crate) fn execute_dex(&mut self) -> (r: u32)
        requires
            Self::bus_ok(old(self)@.bus),
        ensures
            Self::bus_ok(final(self)@.bus),
            r <= 1,
            (r, final(self)@) == Self::spec_dex(old(self)@),
    {
        proof {
            reveal(Cpu6502::spec_dex);
        }
        self.x = self.x.wrapping_sub(1);
        self.set_zn_flags(self.x);
        0
    }

    pub(crate) fn execute_dey(&mut self) -> (r: u32)
        requires
            Self::bus_ok(old(self)@.bus),
        ensures
            Self::bus_ok(final(self)@.bus),
            r <= 1,
            (r, final(self)@) == Self::spec_dey(old(self)@),
    {
        proof {
            reveal(Cpu6502::spec_dey);
        }
        self.y = self.y.wrapping_sub(1);
        self.set_zn_flags(self.y);
        0
    }

    #[verifier::spinoff_prover]
    #[verifier::rlimit(40)]
    pub(crate) fn execute_asl(&mut self, data: ExecutionData) -> (r: u32)
        requires
            Self::bus_ok(old(self)@.bus),
            data_fits(BaseInstruction::ASL, data),
        ensures
            Self::bus_ok(final(self)@.bus),
            r <= 1,
            (r, final(self)@) == Self::spec_asl(old(self)@, data),
    {
        proof {
            reveal(Cpu6502::spec_asl);
        }
        if let ExecutionData::Implied = data {
            let a = self.a;
            proof {
                lemma_bit7(a);
                lemma_shift1(a);
            }
            self.status.c = (a & 0x80) != 0;
            self.a = a << 1;
            self.set_zn_flags(self.a);
        } else {
            let value = data.read_data(self);
            proof {
                lemma_bit7(value);
                lemma_shift1(value);
            }
            self.status.c = (value & 0x80) != 0;
            let tmp = value << 1;
            self.set_zn_flags(tmp);
            data.write_data(self, tmp);
        }
        0
    }

    #[verifier::spinoff_prover]
    #[verifier::rlimit(40)]
    pub(crate) fn execute_lsr(&mut self, data: ExecutionData) -> (r: u32)
        requires
            Self::bus_ok(old(self)@.bus),
            data_fits(BaseInstruction::LSR, data),
        ensures
            Self::bus_ok(final(self)@.bus),
            r <= 1,
            (r, final(self)@) == Self::spec_lsr(old(self)@, data),
    {
        proof {
            reveal(Cpu6502::spec_lsr);
        }
        if let ExecutionData::Implied = data {
            let a = self.a;
            proof {
                lemma_bit0(a);
                lemma_shift1(a);
            }
            self.status.c = (a & 0x01) != 0;
            self.a = a >> 1;
            self.set_zn_flags(self.a);
        } else {
            let value = data.read_data(self);
            proof {
                lemma_bit0(value);
                lemma_shift1(value);
            }
            self.status.c = (value & 0x01) != 0;
            let tmp = value >> 1;
            self.set_zn_flags(tmp);
            data.write_data(self, tmp);
        }
        0
    }

    #[verifier::spinoff_prover]
    #[verifier::rlimit(40)]
    pub(crate) fn execute_rol(&mut self, data: ExecutionData) -> (r: u32)
        requires
            Self::bus_ok(old(self)@.bus),
            data_fits(BaseInstruction::ROL, data),
        ensures
            Self::bus_ok(final(self)@.bus),
            r <= 1,
            (r, final(self)@) == Self::spec_rol(old(self)@, data),
    {
        proof {
            reveal(Cpu6502::spec_rol);
        }
        if let ExecutionData::Implied = data {
            let (result, carry) = rotate_byte_left(self.a, self.status.c);
            self.status.c = carry;
            self.a = result;
            self.set_zn_flags(self.a);
        } else {
            let value = data.read_data(self);
            let (new_value, carry) = rotate_byte_left(value, self.status.c);
            self.status.c = carry;
            self.set_zn_flags(new_value);
            data.write_data(self, new_value);
        }
        0
    }

    #[verifier::spinoff_prover]
    #[verifier::rlimit(40)]
    pub(crate) fn execute_ror(&mut self, data: ExecutionData) -> (r: u32)
        requires
            Self::bus_ok(old(self)@.bus),
            data_fits(BaseInstruction::ROR, data),
        ensures
            Self::bus_ok(final(self)@.bus),
            r <= 1,
            (r, final(self)@) == Self::spec_ror(old(self)@, data),
    {
        proof {
            reveal(Cpu6502::spec_ror);
        }
        if let ExecutionData::Implied = data {
            let (result, carry) = rotate_byte_right(self.a, self.status.c);
            self.status.c = carry;
            self.a = result;
            self.set_zn_flags(self.a);
        } else {
            let value = data.read_data(self);
            let (tmp, carry) = rotate_byte_right(value, self.status.c);
            self.status.c = carry;
            data.write_data(self, tmp);
            self.set_zn_flags(tmp);
        }
        0
    }

    pub(crate) fn execute_jmp(&mut self, data: ExecutionData) -> (r: u32)
        requires
            Self::bus_ok(old(self)@.bus),
            data_fits(BaseInstruction::JMP, data),
        ensures
            Self::bus_ok(final(self)@.bus),
            r <= 1,
            (r, final(self)@) == Self::spec_jmp(old(self)@, data),
    {
        proof {
            reveal(Cpu6502::spec_jmp);
        }
        self.pc = data.read_address();
        0
    }

    pub(crate) fn execute_jsr(&mut self, data: ExecutionData) -> (r: u32)
        requires
            Self::bus_ok(old(self)@.bus),
            data_fits(BaseInstruction::JSR, data),
        ensures
            Self::bus_ok(final(self)@.bus),
            r <= 1,
            (r, final(self)@) == Self::spec_jsr(old(self)@, data),
    {
        proof {
            reveal(Cpu6502::spec_jsr);
        }
        self.pc = self.pc.wrapping_sub(1);
        let pc = self.pc;
        self.push_address(pc);
        self.pc = data.read_address();
        0
    }

    pub(crate) fn execute_rts(&mut self, data: ExecutionData) -> (r: u32)
        requires
            Self::bus_ok(old(self)@.bus),
            data_fits(BaseInstruction::RTS, data),
        ensures
            Self::bus_ok(final(self)@.bus),
            r <= 1,
            (r, final(self)@) == Self::spec_rts(old(self)@, data),
    {
        proof {
            reveal(Cpu6502::spec_rts);
        }
        self.pc = self.pop_address().wrapping_add(1);
        0
    }

    pub(crate) fn execute_bcc(&mut self, data: ExecutionData) -> (r: u32)
        requires
            Self::bus_ok(old(self)@.bus),
            data_fits(BaseInstruction::BCC, data),
        ensures
            Self::bus_ok(final(self)@.bus),
            r <= 1,
            (r, final(self)@) == Self::spec_bcc(old(self)@, data),
    {
        proof {
            reveal(Cpu6502::spec_bcc);
        }
        if !self.status.c {
            self.pc = data.read_address();
            1
        } else {
            0
        }
    }

    pub(crate) fn execute_bcs(&mut self, data: ExecutionData) -> (r: u32)
        requires
            Self::bus_ok(old(self)@.bus),
            data_fits(BaseInstruction::BCS, data),
        ensures
            Self::bus_ok(final(self)@.bus),
            r <= 1,
            (r, final(self)@) == Self::spec_bcs(old(self)@, data),
    {
        proof {
            reveal(Cpu6502::spec_bcs);
        }
        if self.status.c {
            self.pc = data.read_address();
            1
        } else {
            0
        }
    }

    pub(crate) fn execute_beq(&mut self, data: ExecutionData) -> (r: u32)
        requires
            Self::bus_ok(old(self)@.bus),
            data_fits(BaseInstruction::BEQ, data),
        ensures
            Self::bus_ok(final(self)@.bus),
            r <= 1,
            (r, final(self)@) == Self::spec_beq(old(self)@, data),
    {
        proof {
            reveal(Cpu6502::spec_beq);
        }
        if self.status.z {
            self.pc = data.read_address();
            1
        } else {
            0
        }
    }

    pub(crate) fn execute_bmi(&mut self, data: ExecutionData) -> (r: u32)
        requires
            Self::bus_ok(old(self)@.bus),
            data_fits(BaseInstruction::BMI, data),
        ensures
            Self::bus_ok(final(self)@.bus),
            r <= 1,
            (r, final(self)@) == Self::spec_bmi(old(self)@, data),
    {
        proof {
            reveal(Cpu6502::spec_bmi);
        }
        if self.status.n {
            self.pc = data.read_address();
            1
        } else {
            0
        }
    }

    pub(crate) fn execute_bne(&mut self, data: ExecutionData) -> (r: u32)
        requires
            Self::bus_ok(old(self)@.bus),
            data_fits(BaseInstruction::BNE, data),
        ensures
            Self::bus_ok(final(self)@.bus),
            r <= 1,
            (r, final(self)@) == Self::spec_bne(old(self)@, data),
    {
        proof {
            reveal(Cpu6502::spec_bne);
        }
        if !self.status.z {
            self.pc = data.read_address();
            1
        } else {
            0
        }
    }

    pub(crate) fn execute_bpl(&mut self, data: ExecutionData) -> (r: u32)
        requires
            Self::bus_ok(old(self)@.bus),
            data_fits(BaseInstruction::BPL, data),
        ensures
            Self::bus_ok(final(self)@.bus),
            r <= 1,
            (r, final(self)@) == Self::spec_bpl(old(self)@, data),
    {
        proof {
            reveal(Cpu6502::spec_bpl);
        }
        if !self.status.n {
            self.pc = data.read_address();
            1
        } else {
            0
        }
    }

    pub(crate) fn execute_bvc(&mut self, data: ExecutionData) -> (r: u32)
        requires
            Self::bus_ok(old(self)@.bus),
            data_fits(BaseInstruction::BVC, data),
        ensures
            Self::bus_ok(final(self)@.bus),
            r <= 1,
            (r, final(self)@) == Self::spec_bvc(old(self)@, data),
    {
        proof {
            reveal(Cpu6502::spec_bvc);
        }
        if !self.status.v {
            self.pc = data.read_address();
            1
        } else {
            0
        }
    }

    pub(crate) fn execute_bvs(&mut self, data: ExecutionData) -> (r: u32)
        requires
            Self::bus_ok(old(self)@.bus),
            data_fits(BaseInstruction::BVS, data),
        ensures
            Self::bus_ok(final(self)@.bus),
            r <= 1,
            (r, final(self)@) == Self::spec_bvs(old(self)@, data),
    {
        proof {
            reveal(Cpu6502::spec_bvs);
        }
        if self.status.v {
            self.pc = data.read_address();
            1
        } else {
            0
        }
    }

    pub(crate) fn execute_clc(&mut self) -> (r: u32)
        requires
            Self::bus_ok(old(self)@.bus),
        ensures
            Self::bus_ok(final(self)@.bus),
            r <= 1,
            (r, final(self)@) == Self::spec_clc(old(self)@),
    {
        proof {
            reveal(Cpu6502::spec_clc);
        }
        self.status.c = false;
        0
    }

    pub(crate) fn execute_cld(&mut self) -> (r: u32)
        requires
            Self::bus_ok(old(self)@.bus),
        ensures
            Self::bus_ok(final(self)@.bus),
            r <= 1,
            (r, final(self)@) == Self::spec_cld(old(self)@),
    {
        proof {
            reveal(Cpu6502::spec_cld);
        }
        self.status.d = false;
        0
    }

    pub(crate) fn execute_cli(&mut self) -> (r: u32)
        requires
            Self::bus_ok(old(self)@.bus),
        ensures
            Self::bus_ok(final(self)@.bus),
            r <= 1,
            (r, final(self)@) == Self::spec_cli(old(self)@),
    {
        proof {
            reveal(Cpu6502::spec_cli);
        }
        self.status.i = false;
        0
    }

    pub(crate) fn execute_clv(&mut self) -> (r: u32)
        requires
            Self::bus_ok(old(self)@.bus),
        ensures
            Self::bus_ok(final(self)@.bus),
            r <= 1,
            (r, final(self)@) == Self::spec_clv(old(self)@),
    {
        proof {
            reveal(Cpu6502::spec_clv);
        }
        self.status.v = false;
        0
    }

    pub(crate) fn execute_sec(&mut self) -> (r: u32)
        requires
            Self::bus_ok(old(self)@.bus),
        ensures
            Self::bus_ok(final(self)@.bus),
            r <= 1,
            (r, final(self)@) == Self::spec_sec(old(self)@),
    {
        proof {
            reveal(Cpu6502::spec_sec);
        }
        self.status.c = true;
        0
    }

    pub(crate) fn execute_sed(&mut self) -> (r: u32)
        requires
            Self::bus_ok(old(self)@.bus),
        ensures
            Self::bus_ok(final(self)@.bus),
            r <= 1,
            (r, final(self)@) == Self::spec_sed(old(self)@),
    {
        proof {
            reveal(Cpu6502::spec_sed);
        }
        self.status.d = true;
        0
    }

    pub(crate) fn execute_sei(&mut self) -> (r: u32)
        requires
            Self::bus_ok(old(self)@.bus),
        ensures
            Self::bus_ok(final(self)@.bus),
            r <= 1,
            (r, final(self)@) == Self::spec_sei(old(self)@),
    {
        proof {
            reveal(Cpu6502::spec_sei);
        }
        self.status.i = true;
        0
    }

    pub(crate) fn execute_brk(&mut self) -> (r: u32)
        requires
            Self::bus_ok(old(self)@.bus),
        ensures
            Self::bus_ok(final(self)@.bus),
            r <= 1,
            (r, final(self)@) == Self::spec_brk(old(self)@),
    {
        proof {
            reveal(Cpu6502::spec_brk);
        }
        self.pc = self.pc.wrapping_add(1);
        let pc = self.pc;
        self.push_address(pc);
        self.status.b = true;
        self.status.i = true;
        let bits = self.status.bits();
        self.push_word(bits);
        self.status.b = false;
        self.pc = self.read_address(IRQ_VECTOR);
        0
    }

    pub(crate) fn execute_rti(&mut self) -> (r: u32)
        requires
            Self::bus_ok(old(self)@.bus),
        ensures
            Self::bus_ok(final(self)@.bus),
            r <= 1,
            (r, final(self)@) == Self::spec_rti(old(self)@),
    {
        proof {
            reveal(Cpu6502::spec_rti);
        }
        let v = self.pop_word();
        self.status = StatusFlags::from_bits(v);
        self.status.b = false;
        self.status.u = false;
        self.pc = self.pop_address();
        0
    }

    #[verifier::spinoff_prover]
    #[verifier::rlimit(40)]
    pub(crate) fn execute_slo(&mut self, data: ExecutionData) -> (r: u32)
        requires
            Self::bus_ok(old(self)@.bus),
            data_fits(BaseInstruction::SLO, data),
        ensures
            Self::bus_ok(final(self)@.bus),
            r <= 1,
            (r, final(self)@) == Self::spec_slo(old(self)@, data),
    {
        proof {
            reveal(Cpu6502::spec_slo);
        }
        let value = data.read_data(self);
        proof {
            lemma_bit7(value);
            lemma_shift1(value);
        }
        self.status.c = (value & 0x80) != 0;
        let tmp = value << 1;
        data.write_data(self, tmp);
        self.a = self.a | tmp;
        self.set_zn_flags(self.a);
        0
    }

    pub(crate) fn execute_anc(&mut self, data: ExecutionData) -> (r: u32)
        requires
            Self::bus_ok(old(self)@.bus),
            data_fits(BaseInstruction::ANC, data),
        ensures
            Self::bus_ok(final(self)@.bus),
            r <= 1,
            (r, final(self)@) == Self::spec_anc(old(self)@, data),
    {
        proof {
            reveal(Cpu6502::spec_anc);
        }
        proof {
            lemma_bit7(self.a);
        }
        self.status.c = (self.a & 0x80) != 0;
        let value = data.read_data(self);
        self.a = self.a & value;
        self.set_zn_flags(self.a);
        0
    }

    #[verifier::spinoff_prover]
    #[verifier::rlimit(40)]
    pub(crate) fn execute_rla(&mut self, data: ExecutionData) -> (r: u32)
        requires
            Self::bus_ok(old(self)@.bus),
            data_fits(BaseInstruction::RLA, data),
        ensures
            Self::bus_ok(final(self)@.bus),
            r <= 1,
            (r, final(self)@) == Self::spec_rla(old(self)@, data),
    {
        proof {
            reveal(Cpu6502::spec_rla);
        }
        let value = data.read_data(self);
        let (new_value, carry) = rotate_byte_left(value, self.status.c);
        self.status.c = carry;
        data.write_data(self, new_value);
        self.a = self.a & new_value;
        self.set_zn_flags(self.a);
        0
    }

    #[verifier::spinoff_prover]
    #[verifier::rlimit(40)]
    pub(crate) fn execute_sre(&mut self, data: ExecutionData) -> (r: u32)
        requires
            Self::bus_ok(old(self)@.bus),
            data_fits(BaseInstruction::SRE, data),
        ensures
            Self::bus_ok(final(self)@.bus),
            r <= 1,
            (r, final(self)@) == Self::spec_sre(old(self)@, data),
    {
        proof {
            reveal(Cpu6502::spec_sre);
        }
        let value = data.read_data(self);
        proof {
            lemma_bit0(value);
            lemma_shift1(value);
        }
        self.status.c = (value & 0x01) != 0;
        let tmp = value >> 1;
        data.write_data(self, tmp);
        self.a = self.a ^ tmp;
        self.set_zn_flags(self.a);
        0
    }

    pub(crate) fn execute_alr(&mut self, data: ExecutionData) -> (r: u32)
        requires
            Self::bus_ok(old(self)@.bus),
            data_fits(BaseInstruction::ALR, data),
        ensures
            Self::bus_ok(final(self)@.bus),
            r <= 1,
            (r, final(self)@) == Self::spec_alr(old(self)@, data),
    {
        proof {
            reveal(Cpu6502::spec_alr);
        }
        let value = data.read_data(self);
        self.a = self.a & value;
        let a = self.a;
        proof {
            lemma_bit0(a);
            lemma_shift1(a);
        }
        self.status.c = (a & 0x01) != 0;
        self.a = a >> 1;
        self.set_zn_flags(self.a);
        0
    }

    pub(crate) fn execute_rra(&mut self, data: ExecutionData) -> (r: u32)
        requires
            Self::bus_ok(old(self)@.bus),
            data_fits(BaseInstruction::RRA, data),
        ensures
            Self::bus_ok(final(self)@.bus),
            r <= 1,
            (r, final(self)@) == Self::spec_rra(old(self)@, data),
    {
        proof {
            reveal(Cpu6502::spec_rra);
        }
        let value = data.read_data(self);
        let (tmp, carry) = rotate_byte_right(value, self.status.c);
        self.status.c = carry;
        data.write_data(self, tmp);
        self.execute_adc_sbc(tmp);
        0
    }

    pub(crate) fn execute_arr(&mut self, data: ExecutionData) -> (r: u32)
        requires
            Self::bus_ok(old(self)@.bus),
            data_fits(BaseInstruction::ARR, data),
        ensures
            Self::bus_ok(final(self)@.bus),
            r <= 1,
            (r, final(self)@) == Self::spec_arr(old(self)@, data),
    {
        proof {
            reveal(Cpu6502::spec_arr);
        }
        let value = data.read_data(self);
        self.a = self.a & value;
        let (tmp, _) = rotate_byte_right(self.a, self.status.c);
        self.a = tmp;
        self.set_zn_flags(self.a);
        0
    }

    pub(crate) fn execute_sax(&mut self, data: ExecutionData) -> (r: u32)
        requires
            Self::bus_ok(old(self)@.bus),
            data_fits(BaseInstruction::SAX, data),
        ensures
            Self::bus_ok(final(self)@.bus),
            r <= 1,
            (r, final(self)@) == Self::spec_sax(old(self)@, data),
    {
        proof {
            reveal(Cpu6502::spec_sax);
        }
        let v = self.a & self.x;
        data.write_data(self, v);
        0
    }

    pub(crate) fn execute_xaa(&mut self, data: ExecutionData) -> (r: u32)
        requires
            Self::bus_ok(old(self)@.bus),
            data_fits(BaseInstruction::XAA, data),
        ensures
            Self::bus_ok(final(self)@.bus),
            r <= 1,
            (r, final(self)@) == Self::spec_xaa(old(self)@, data),
    {
        proof {
            reveal(Cpu6502::spec_xaa);
        }
        let value = data.read_data(self);
        self.a = self.a & self.x & value;
        self.set_zn_flags(self.a);
        0
    }

    pub(crate) fn execute_ahx(&mut self, data: ExecutionData) -> (r: u32)
        requires
            Self::bus_ok(old(self)@.bus),
            data_fits(BaseInstruction::AHX, data),
        ensures
            Self::bus_ok(final(self)@.bus),
            r <= 1,
            (r, final(self)@) == Self::spec_ahx(old(self)@, data),
    {
        proof {
            reveal(Cpu6502::spec_ahx);
        }
        let value = data.read_data(self);
        let v = self.a & self.x & value;
        data.write_data(self, v);
        0
    }

    pub(crate) fn execute_tas(&mut self, data: ExecutionData) -> (r: u32)
        requires
            Self::bus_ok(old(self)@.bus),
            data_fits(BaseInstruction::TAS, data),
        ensures
            Self::bus_ok(final(self)@.bus),
            r <= 1,
            (r, final(self)@) == Self::spec_tas(old(self)@, data),
    {
        proof {
            reveal(Cpu6502::spec_tas);
        }
        self.sp = self.a & self.x;
        let value = data.read_data(self);
        let v = self.a & self.x & value;
        data.write_data(self, v);
        0
    }

    pub(crate) fn execute_shy(&mut self, data: ExecutionData) -> (r: u32)
        requires
            Self::bus_ok(old(self)@.bus),
            data_fits(BaseInstruction::SHY, data),
        ensures
            Self::bus_ok(final(self)@.bus),
            r <= 1,
            (r, final(self)@) == Self::spec_shy(old(self)@, data),
    {
        proof {
            reveal(Cpu6502::spec_shy);
        }
        let value = data.read_data(self);
        let v = self.y & value;
        data.write_data(self, v);
        0
    }

    pub(crate) fn execute_shx(&mut self, data: ExecutionData) -> (r: u32)
        requires
            Self::bus_ok(old(self)@.bus),
            data_fits(BaseInstruction::SHX, data),
        ensures
            Self::bus_ok(final(self)@.bus),
            r <= 1,
            (r, final(self)@) == Self::spec_shx(old(self)@, data),
    {
        proof {
            reveal(Cpu6502::spec_shx);
        }
        let value = data.read_data(self);
        let v = self.x & value;
        data.write_data(self, v);
        0
    }

    pub(crate) fn execute_lax(&mut self, data: ExecutionData) -> (r: u32)
        requires
            Self::bus_ok(old(self)@.bus),
            data_fits(BaseInstruction::LAX, data),
        ensures
            Self::bus_ok(final(self)@.bus),
            r <= 1,
            (r, final(self)@) == Self::spec_lax(old(self)@, data),
    {
        proof {
            reveal(Cpu6502::spec_lax);
        }
        self.a = data.read_data(self);
        self.x = self.a;
        self.set_zn_flags(self.a);
        0
    }

    pub(crate) fn execute_las(&mut self, data: ExecutionData) -> (r: u32)
        requires
            Self::bus_ok(old(self)@.bus),
            data_fits(BaseInstruction::LAS, data),
        ensures
            Self::bus_ok(final(self)@.bus),
            r <= 1,
            (r, final(self)@) == Self::spec_las(old(self)@, data),
    {
        proof {
            reveal(Cpu6502::spec_las);
        }
        let value = data.read_data(self);
        self.a = value & self.sp;
        self.x = self.a;
        self.sp = self.a;
        self.set_zn_flags(self.a);
        0
    }

    pub(crate) fn execute_dcp(&mut self, data: ExecutionData) -> (r: u32)
        requires
            Self::bus_ok(old(self)@.bus),
            data_fits(BaseInstruction::DCP, data),
        ensures
            Self::bus_ok(final(self)@.bus),
            r <= 1,
            (r, final(self)@) == Self::spec_dcp(old(self)@, data),
    {
        proof {
            reveal(Cpu6502::spec_dcp);
        }
        let value = data.read_data(self).wrapping_sub(1);
        data.write_data(self, value);
        let tmp = self.a.wrapping_sub(value);
        self.status.c = self.a >= value;
        self.set_zn_flags(tmp);
        0
    }

    pub(crate) fn execute_axs(&mut self, data: ExecutionData) -> (r: u32)
        requires
            Self::bus_ok(old(self)@.bus),
            data_fits(BaseInstruction::AXS, data),
        ensures
            Self::bus_ok(final(self)@.bus),
            r <= 1,
            (r, final(self)@) == Self::spec_axs(old(self)@, data),
    {
        proof {
            reveal(Cpu6502::spec_axs);
        }
        let value = data.read_data(self);
        let ax = self.a & self.x;
        let tmp = ax.wrapping_sub(value);
        self.status.c = ax >= value;
        self.set_zn_flags(tmp);
        self.x = tmp;
        0
    }

    pub(crate) fn execute_isc(&mut self, data: ExecutionData) -> (r: u32)
        requires
            Self::bus_ok(old(self)@.bus),
            data_fits(BaseInstruction::ISC, data),
        ensures
            Self::bus_ok(final(self)@.bus),
            r <= 1,
            (r, final(self)@) == Self::spec_isc(old(self)@, data),
    {
        proof {
            reveal(Cpu6502::spec_isc);
        }
        let value = data.read_data(self).wrapping_add(1);
        proof {
            lemma_not_byte(value);
        }
        data.write_data(self, value);
        self.execute_adc_sbc(!value);
        0
    }

    pub(crate) fn execute_bra(&mut self, data: ExecutionData) -> (r: u32)
        requires
            Self::bus_ok(old(self)@.bus),
            data_fits(BaseInstruction::BRA, data),
        ensures
            Self::bus_ok(final(self)@.bus),
            r <= 1,
            (r, final(self)@) == Self::spec_bra(old(self)@, data),
    {
        proof {
            reveal(Cpu6502::spec_bra);
        }
        self.pc = data.read_address();
        1
    }

    pub(crate) fn execute_phx(&mut self) -> (r: u32)
        requires
            Self::bus_ok(old(self)@.bus),
        ensures
            Self::bus_ok(final(self)@.bus),
            r <= 1,
            (r, final(self)@) == Self::spec_phx(old(self)@),
    {
        proof {
            reveal(Cpu6502::spec_phx);
        }
        let x = self.x;
        self.push_word(x);
        0
    }

    pub(crate) fn execute_phy(&mut self) -> (r: u32)
        requires
            Self::bus_ok(old(self)@.bus),
        ensures
            Self::bus_ok(final(self)@.bus),
            r <= 1,
            (r, final(self)@) == Self::spec_phy(old(self)@),
    {
        proof {
            reveal(Cpu6502::spec_phy);
        }
        let y = self.y;
        self.push_word(y);
        0
    }

    pub(crate) fn execute_plx(&mut self) -> (r: u32)
        requires
            Self::bus_ok(old(self)@.bus),
        ensures
            Self::bus_ok(final(self)@.bus),
            r <= 1,
            (r, final(self)@) == Self::spec_plx(old(self)@),
    {
        proof {
            reveal(Cpu6502::spec_plx);
        }
        let v = self.pop_word();
        self.x = v;
        self.set_zn_flags(v);
        0
    }

    pub(crate) fn execute_ply(&mut self) -> (r: u32)
        requires
            Self::bus_ok(old(self)@.bus),
        ensures
            Self::bus_ok(final(self)@.bus),
            r <= 1,
            (r, final(self)@) == Self::spec_ply(old(self)@),
    {
        proof {
            reveal(Cpu6502::spec_ply);
        }
        let v = self.pop_word();
        self.y = v;
        self.set_zn_flags(v);
        0
    }

    pub(crate) fn execute_stz(&mut self, data: ExecutionData) -> (r: u32)
        requires
            Self::bus_ok(old(self)@.bus),
            data_fits(BaseInstruction::STZ, data),
        ensures
            Self::bus_ok(final(self)@.bus),
            r <= 1,
            (r, final(self)@) == Self::spec_stz(old(self)@, data),
    {
        proof {
            reveal(Cpu6502::spec_stz);
        }
        data.write_data(self, 0);
        0
    }

    pub(crate) fn execute_trb(&mut self, data: ExecutionData) -> (r: u32)
        requires
            Self::bus_ok(old(self)@.bus),
            data_fits(BaseInstruction::TRB, data),
        ensures
            Self::bus_ok(final(self)@.bus),
            r <= 1,
            (r, final(self)@) == Self::spec_trb(old(self)@, data),
    {
        proof {
            reveal(Cpu6502::spec_trb);
        }
        let mut value = data.read_data(self);
        value = value & !self.a;
        self.status.z = value == 0;
        data.write_data(self, value);
        0
    }

    pub(crate) fn execute_tsb(&mut self, data: ExecutionData) -> (r: u32)
        requires
            Self::bus_ok(old(self)@.bus),
            data_fits(BaseInstruction::TSB, data),
        ensures
            Self::bus_ok(final(self)@.bus),
            r <= 1,
            (r, final(self)@) == Self::spec_tsb(old(self)@, data),
    {
        proof {
            reveal(Cpu6502::spec_tsb);
        }
        let mut value = data.read_data(self);
        value = value | self.a;
        self.status.z = value == 0;
        data.write_data(self, value);
        0
    }
}

} // verus!
