//! Disassembly: decoding the instructions that stand in memory without executing them.
use super::cpu6502::{
    AddressingMode, BaseInstruction, Cpu6502, Cpu6502State, InstructionData, InstructionSet,
    lookup, spec_lookup,
};
use crate::bits::{group_wrapping, wrap16};
use crate::bus::BusComponent;
use vstd::prelude::*;

verus! {

broadcast use group_wrapping;

/// A decoded instruction: where it stands, its operation and its operand bytes.
#[derive(Clone, Copy, Debug, PartialEq, Eq, Structural)]
pub struct Asm6502Instruction {
    pub is_undefined: bool,
    pub address: u16,
    pub instruction: BaseInstruction,
    pub data: InstructionData,
}

impl Asm6502Instruction {
    /// The placeholder for an instruction that could not be decoded.
    pub open spec fn spec_undefined() -> Self {
        Self {
            is_undefined: true,
            address: 0,
            instruction: BaseInstruction::HLT,
            data: InstructionData::IMP,
        }
    }

    /// The placeholder for an instruction that could not be decoded.
    pub fn undefined() -> (r: Self)
        ensures
            r == Self::spec_undefined(),
    {
        Self {
            is_undefined: true,
            address: 0,
            instruction: BaseInstruction::HLT,
            data: InstructionData::IMP,
        }
    }

    pub fn new(address: u16, instruction: BaseInstruction, data: InstructionData) -> (r: Self)
        ensures
            r == (Self { is_undefined: false, address, instruction, data }),
    {
        Self { is_undefined: false, address, instruction, data }
    }

    /// The address at which the instruction stands.
    pub fn address(&self) -> (r: u16)
        ensures
            r == self.address,
    {
        self.address
    }

    /// Bytes the instruction takes: the op code and its operand bytes.
    pub open spec fn spec_byte_size(self) -> usize {
        match self.data {
            InstructionData::IMP => 1,
            InstructionData::IMM(_) => 2,
            InstructionData::ZP0(_) => 2,
            InstructionData::ZPR(_, _) => 3,
            InstructionData::ZPX(_) => 2,
            InstructionData::ZPY(_) => 2,
            InstructionData::REL(_) => 2,
            InstructionData::ABS(_) => 3,
            InstructionData::ABX(_) => 3,
            InstructionData::ABY(_) => 3,
            InstructionData::IND(_) => 3,
            InstructionData::IZP(_) => 2,
            InstructionData::IZX(_) => 2,
            InstructionData::IZY(_) => 2,
            InstructionData::IAX(_) => 3,
        }
    }

    /// Bytes the instruction takes: the op code and its operand bytes.
    pub fn byte_size(&self) -> (r: usize)
        ensures
            r == self.spec_byte_size(),
            1 <= r <= 3,
    {
        match self.data {
            InstructionData::IMP => 1,
            InstructionData::IMM(_) => 2,
            InstructionData::ZP0(_) => 2,
            InstructionData::ZPR(_, _) => 3,
            InstructionData::ZPX(_) => 2,
            InstructionData::ZPY(_) => 2,
            InstructionData::REL(_) => 2,
            InstructionData::ABS(_) => 3,
            InstructionData::ABX(_) => 3,
            InstructionData::ABY(_) => 3,
            InstructionData::IND(_) => 3,
            InstructionData::IZP(_) => 2,
            InstructionData::IZX(_) => 2,
            InstructionData::IZY(_) => 2,
            InstructionData::IAX(_) => 3,
        }
    }

    /// The operation's assembler mnemonic.
    pub fn mnemonic(&self) -> (r: &'static str)
        ensures
            r == self.instruction.spec_mnemonic(),
    {
        self.instruction.mnemonic()
    }
}

impl super::CpuInstruction for Asm6502Instruction {}

impl<B: BusComponent> Cpu6502<B> {
    /// Decodes the instruction at `address`.
    pub open spec fn spec_disassemble(s: Cpu6502State<B::V>, address: u16, set: InstructionSet) -> (
        Asm6502Instruction,
        Cpu6502State<B::V>,
    ) {
        let (op_code, s1) = Self::spec_read(s, address);
        let instruction = spec_lookup(set, op_code);
        let (data, s2) = Self::spec_operands_at(s1, instruction.1, wrap16(address + 1));
        (Asm6502Instruction { is_undefined: false, address, instruction: instruction.0, data }, s2)
    }

    /// Decodes `n` instructions one after another from `address` on.
    pub open spec fn spec_disassemble_forward(
        s: Cpu6502State<B::V>,
        address: u16,
        n: nat,
        set: InstructionSet,
    ) -> (Seq<Asm6502Instruction>, Cpu6502State<B::V>)
        decreases n,
    {
        if n == 0 {
            (Seq::empty(), s)
        } else {
            let (instruction, s1) = Self::spec_disassemble(s, address, set);
            let (rest, s2) = Self::spec_disassemble_forward(
                s1,
                wrap16(address + instruction.spec_byte_size()),
                (n - 1) as nat,
                set,
            );
            (seq![instruction] + rest, s2)
        }
    }

    /// Decodes instructions from `address` on for as long as they start before `end`: how
    /// far the last one reaches past `end`, the instructions, and the state after.
    pub open spec fn spec_disassemble_up_to(
        s: Cpu6502State<B::V>,
        address: u16,
        end: u16,
        set: InstructionSet,
    ) -> (u16, Seq<Asm6502Instruction>, Cpu6502State<B::V>)
        decreases end + 3 - address,
    {
        if address < end && end <= 0xFFFD {
            let (instruction, s1) = Self::spec_disassemble(s, address, set);
            let (overshoot, rest, s2) = Self::spec_disassemble_up_to(
                s1,
                (address + instruction.spec_byte_size()) as u16,
                end,
                set,
            );
            (overshoot, seq![instruction] + rest, s2)
        } else {
            (wrap16(address - end), Seq::empty(), s)
        }
    }

    /// Searches start addresses from `search_address` up to `address` for one from which
    /// the instructions end exactly at `address`.
    pub open spec fn spec_search_disassemblies(
        s: Cpu6502State<B::V>,
        search_address: u16,
        address: u16,
        set: InstructionSet,
    ) -> (Option<Seq<Asm6502Instruction>>, Cpu6502State<B::V>)
        decreases wrap16(address - search_address),
    {
        if search_address == address || address > 0xFFFD {
            (None, s)
        } else {
            let (overshoot, result, s1) = Self::spec_disassemble_up_to(s, search_address, address, set);
            if overshoot == 0 {
                (Some(result), s1)
            } else {
                proof {
                    crate::bits::lemma_wrap16_step(address, search_address);
                }
                Self::spec_search_disassemblies(s1, wrap16(search_address + 1), address, set)
            }
        }
    }

    /// The `n` instructions before `address`, as far as a search finds a sequence that ends
    /// there; the slots the search leaves unfilled, at the front, hold undefined ones.
    pub open spec fn spec_disassemble_backward(
        s: Cpu6502State<B::V>,
        address: u16,
        n: nat,
        set: InstructionSet,
    ) -> (Seq<Asm6502Instruction>, Cpu6502State<B::V>) {
        let start = wrap16(address - (n % 0x10000) * 3);
        let (found, s1) = Self::spec_search_disassemblies(s, start, address, set);
        match found {
            Some(result) => {
                let shown = if result.len() < n { result.len() } else { n };
                (
                    Seq::new(
                        n,
                        |i: int|
                            if i < n - shown {
                                Asm6502Instruction::spec_undefined()
                            } else {
                                result[result.len() - n + i]
                            },
                    ),
                    s1,
                )
            },
            None => (Seq::new(n, |i: int| Asm6502Instruction::spec_undefined()), s1),
        }
    }

    /// Decodes the instruction at `address`.
    pub fn disassemble(&mut self, address: u16, set: InstructionSet) -> (r: Asm6502Instruction)
        requires
            Self::bus_ok(old(self)@.bus),
        ensures
            Self::bus_ok(final(self)@.bus),
            (r, final(self)@) == Self::spec_disassemble(old(self)@, address, set),
    {
        let op_code = self.read_word(address);
        let instruction = lookup(set, op_code);
        let base_instruction = instruction.0;
        let addressing_mode = instruction.1;

        let instruction_data = addressing_mode.read(self, address.wrapping_add(1));
        Asm6502Instruction::new(address, base_instruction, instruction_data)
    }

    /// Decodes `n` instructions one after another from `address` on.
    pub fn disassemble_forward(&mut self, address: u16, n: usize, set: InstructionSet) -> (r: Vec<
        Asm6502Instruction,
    >)
        requires
            Self::bus_ok(old(self)@.bus),
        ensures
            Self::bus_ok(final(self)@.bus),
            (r@, final(self)@) == Self::spec_disassemble_forward(old(self)@, address, n as nat, set),
    {
        let ghost start = address;
        let mut address = address;
        let mut instructions: Vec<Asm6502Instruction> = Vec::new();
        let mut i: usize = 0;
        while i < n
            invariant
                Self::bus_ok(self@.bus),
                0 <= i <= n,
                ({
                    let (rest, s_end) = Self::spec_disassemble_forward(self@, address, (n - i) as nat, set);
                    (instructions@ + rest, s_end) == Self::spec_disassemble_forward(old(self)@, start, n as nat, set)
                }),
            decreases n - i,
        {
            let ghost before = self@;
            let ghost prefix = instructions@;
            let instruction = self.disassemble(address, set);
            let ghost after = self@;
            instructions.push(instruction);
            let size = instruction.byte_size();
            let next = address.wrapping_add(size as u16);
            proof {
                let (rest, s_end) = Self::spec_disassemble_forward(after, next, (n - i - 1) as nat, set);
                assert(Self::spec_disassemble_forward(before, address, (n - i) as nat, set) == (
                seq![instruction] + rest, s_end));
                assert(instructions@ + rest =~= prefix + (seq![instruction] + rest));
            }
            address = next;
            i = i + 1;
        }
        instructions
    }

    /// Decodes instructions from `address` on for as long as they start before `end`:
    /// how far the last one reaches past `end`, and the instructions.
    fn disassemble_up_to(&mut self, address: u16, end: u16, set: InstructionSet) -> (r: (
        u16,
        Vec<Asm6502Instruction>,
    ))
        requires
            Self::bus_ok(old(self)@.bus),
            end <= 0xFFFD,
        ensures
            Self::bus_ok(final(self)@.bus),
            (r.0, r.1@, final(self)@) == Self::spec_disassemble_up_to(old(self)@, address, end, set),
    {
        let ghost start = address;
        let mut address = address;
        let mut instructions: Vec<Asm6502Instruction> = Vec::new();
        while address < end
            invariant
                Self::bus_ok(self@.bus),
                end <= 0xFFFD,
                ({
                    let (overshoot, rest, s_end) = Self::spec_disassemble_up_to(self@, address, end, set);
                    (overshoot, instructions@ + rest, s_end) == Self::spec_disassemble_up_to(
                        old(self)@,
                        start,
                        end,
                        set,
                    )
                }),
            decreases end + 3 - address,
        {
            let ghost before = self@;
            let ghost prefix = instructions@;
            let instruction = self.disassemble(address, set);
            let ghost after = self@;
            instructions.push(instruction);
            let size = instruction.byte_size();
            let next = address + size as u16;
            proof {
                let (overshoot, rest, s_end) = Self::spec_disassemble_up_to(after, next, end, set);
                assert(Self::spec_disassemble_up_to(before, address, end, set) == (
                overshoot, seq![instruction] + rest, s_end));
                assert(instructions@ + rest =~= prefix + (seq![instruction] + rest));
            }
            address = next;
        }
        proof {
            assert(instructions@ + Seq::<Asm6502Instruction>::empty() =~= instructions@);
        }
        (address.wrapping_sub(end), instructions)
    }

    /// Searches start addresses from `address - 3n` on for one from which the instructions
    /// end exactly at `address`.
    fn search_disassemblies(&mut self, address: u16, n: usize, set: InstructionSet) -> (r: Option<
        Vec<Asm6502Instruction>,
    >)
        requires
            Self::bus_ok(old(self)@.bus),
            address <= 0xFFFD,
            (n % 0x10000) * 3 <= 0xFFFF,
        ensures
            Self::bus_ok(final(self)@.bus),
            ({
                let (found, s1) = Self::spec_search_disassemblies(
                    old(self)@,
                    wrap16(address - (n % 0x10000) * 3),
                    address,
                    set,
                );
                &&& final(self)@ == s1
                &&& match r {
                    Some(v) => found == Some(v@),
                    None => found is None,
                }
            }),
    {
        // The count as a 16-bit number
        let n16 = (n % 0x10000) as u16;
        let mut search_address = address.wrapping_sub(n16 * 3);
        while search_address != address
            invariant
                Self::bus_ok(self@.bus),
                address <= 0xFFFD,
                Self::spec_search_disassemblies(self@, search_address, address, set)
                    == Self::spec_search_disassemblies(
                    old(self)@,
                    wrap16(address - (n % 0x10000) * 3),
                    address,
                    set,
                ),
            decreases wrap16(address - search_address),
        {
            let ghost before = self@;
            let (overshoot, search_result) = self.disassemble_up_to(search_address, address, set);
            proof {
                assert(Self::spec_search_disassemblies(before, search_address, address, set) == (
                if overshoot == 0 {
                    (Some(search_result@), self@)
                } else {
                    Self::spec_search_disassemblies(self@, wrap16(search_address + 1), address, set)
                }));
            }
            if overshoot == 0 {
                // Search address yielded a dissasembly of correct size
                return Some(search_result);
            } else {
                proof {
                    crate::bits::lemma_wrap16_step(address, search_address);
                }
                search_address = search_address.wrapping_add(1);
            }
        }
        None
    }

    /// The `n` instructions before `address`. This is a good guess, not necessarily the
    /// actual disassembly: slots that the search leaves unfilled hold undefined ones.
    pub fn disassemble_backward(&mut self, address: u16, n: usize, set: InstructionSet) -> (r: Vec<
        Asm6502Instruction,
    >)
        requires
            Self::bus_ok(old(self)@.bus),
            address <= 0xFFFD,
            (n % 0x10000) * 3 <= 0xFFFF,
        ensures
            Self::bus_ok(final(self)@.bus),
            (r@, final(self)@) == Self::spec_disassemble_backward(old(self)@, address, n as nat, set),
            r@.len() == n,
            exists|k: int|
                0 <= k <= n && (forall|i: int|
                    0 <= i < k ==> #[trigger] r@[i] == Asm6502Instruction::spec_undefined())
                    && chain_ends_at(r@.subrange(k, n as int), address as int),
    {
        proof {
            Self::lemma_disassemble_backward_shape(old(self)@, address, n as nat, set);
        }
        let mut instructions: Vec<Asm6502Instruction> = Vec::new();
        let mut k: usize = 0;
        while k < n
            invariant
                0 <= k <= n,
                instructions@ == Seq::new(k as nat, |i: int| Asm6502Instruction::spec_undefined()),
            decreases n - k,
        {
            instructions.push(Asm6502Instruction::undefined());
            proof {
                assert(instructions@ =~= Seq::new((k + 1) as nat, |i: int| Asm6502Instruction::spec_undefined()));
            }
            k = k + 1;
        }
        let found = self.search_disassemblies(address, n, set);
        match found {
            Some(search_result) => {
                let len = search_result.len();
                let result_start = n.saturating_sub(len);
                let result_offset = len.saturating_sub(n);
                let ghost target = Self::spec_disassemble_backward(old(self)@, address, n as nat, set).0;
                let mut j: usize = result_start;
                while j < n
                    invariant
                        result_start <= j <= n,
                        result_start == (if len < n { n - len } else { 0 }),
                        result_offset == (if len > n { len - n } else { 0 }),
                        len == search_result@.len(),
                        instructions@.len() == n,
                        forall|i: int| 0 <= i < j ==> #[trigger] instructions@[i] == target[i],
                        forall|i: int| j <= i < n ==> #[trigger] instructions@[i] == Asm6502Instruction::spec_undefined(),
                        target == Seq::new(
                            n as nat,
                            |i: int|
                                if i < n - (if len < n { len } else { n }) {
                                    Asm6502Instruction::spec_undefined()
                                } else {
                                    search_result@[len - n + i]
                                },
                        ),
                    decreases n - j,
                {
                    let item = search_result[result_offset + (j - result_start)];
                    instructions.set(j, item);
                    j = j + 1;
                }
                proof {
                    assert(instructions@ =~= target);
                }
                instructions
            },
            None => instructions,
        }
    }

    /// The `range` instructions before the program counter, then the `range + 1` from it on.
    pub fn disassemble_current(&mut self, range: usize, set: InstructionSet) -> (r: Vec<
        Asm6502Instruction,
    >)
        requires
            Self::bus_ok(old(self)@.bus),
            old(self)@.pc <= 0xFFFD,
            (range % 0x10000) * 3 <= 0xFFFF,
            range < usize::MAX,
        ensures
            Self::bus_ok(final(self)@.bus),
            ({
                let (back, s1) = Self::spec_disassemble_backward(old(self)@, old(self)@.pc, range as nat, set);
                let (front, s2) = Self::spec_disassemble_forward(s1, old(self)@.pc, (range + 1) as nat, set);
                r@ == back + front && final(self)@ == s2
            }),
    {
        let pc = self.pc;
        let mut result = self.disassemble_backward(pc, range, set);
        let mut front = self.disassemble_forward(pc, range + 1, set);
        result.append(&mut front);
        result
    }
}

/// Instructions that follow one another in memory: each starts where the one before it ends,
/// and the last ends just before `end`.
pub open spec fn chain_ends_at(r: Seq<Asm6502Instruction>, end: int) -> bool {
    &&& forall|i: int|
        0 <= i < r.len() - 1 ==> #[trigger] r[i].address + r[i].spec_byte_size() == r[i
            + 1].address
    &&& r.len() > 0 ==> r.last().address + r.last().spec_byte_size() == end
}

impl<B: BusComponent> Cpu6502<B> {
    #[verifier::spinoff_prover]
    #[verifier::rlimit(40)]
    proof fn lemma_up_to_chain(s: Cpu6502State<B::V>, address: u16, end: u16, set: InstructionSet)
        requires
            address < end <= 0xFFFD,
            Self::spec_disassemble_up_to(s, address, end, set).0 == 0,
        ensures
            ({
                let r = Self::spec_disassemble_up_to(s, address, end, set).1;
                &&& r.len() > 0
                &&& r[0].address == address
                &&& chain_ends_at(r, end as int)
            }),
        decreases end + 3 - address,
    {
        let (instruction, s1) = Self::spec_disassemble(s, address, set);
        let next = (address + instruction.spec_byte_size()) as u16;
        assert(1 <= instruction.spec_byte_size() <= 3);
        assert(next == address + instruction.spec_byte_size());
        let (overshoot, rest, s2) = Self::spec_disassemble_up_to(s1, next, end, set);
        let r = seq![instruction] + rest;
        if next < end {
            Self::lemma_up_to_chain(s1, next, end, set);
            assert forall|i: int| 0 <= i < r.len() - 1 implies #[trigger] r[i].address
                + r[i].spec_byte_size() == r[i + 1].address by {
                if i > 0 {
                    assert(r[i] == rest[i - 1] && r[i + 1] == rest[i]);
                }
            }
            assert(r.last() == rest.last());
        } else {
            reveal(wrap16);
            assert(rest.len() == 0);
            assert(next == end);
            assert(r.last() == instruction);
        }
    }

    #[verifier::spinoff_prover]
    #[verifier::rlimit(40)]
    proof fn lemma_search_chain(
        s: Cpu6502State<B::V>,
        search_address: u16,
        address: u16,
        set: InstructionSet,
    )
        ensures
            ({
                match Self::spec_search_disassemblies(s, search_address, address, set).0 {
                    Some(r) => r.len() > 0 && chain_ends_at(r, address as int),
                    None => true,
                }
            }),
        decreases wrap16(address - search_address),
    {
        if search_address == address || address > 0xFFFD {
        } else {
            let (overshoot, result, s1) = Self::spec_disassemble_up_to(
                s,
                search_address,
                address,
                set,
            );
            if overshoot == 0 {
                if search_address < address {
                    Self::lemma_up_to_chain(s, search_address, address, set);
                } else {
                    reveal(wrap16);
                }
            } else {
                crate::bits::lemma_wrap16_step(address, search_address);
                Self::lemma_search_chain(s1, wrap16(search_address + 1), address, set);
            }
        }
    }

    /// What the backward disassembly gives: `n` instructions, undefined ones first, then
    /// instructions that follow one another in memory, the last ending just before `address`.
    #[verifier::spinoff_prover]
    #[verifier::rlimit(40)]
    pub proof fn lemma_disassemble_backward_shape(
        s: Cpu6502State<B::V>,
        address: u16,
        n: nat,
        set: InstructionSet,
    )
        ensures
            ({
                let r = Self::spec_disassemble_backward(s, address, n, set).0;
                &&& r.len() == n
                &&& exists|k: int|
                    0 <= k <= n && (forall|i: int|
                        0 <= i < k ==> #[trigger] r[i] == Asm6502Instruction::spec_undefined())
                        && chain_ends_at(r.subrange(k, n as int), address as int)
            }),
    {
        let start = wrap16(address - (n % 0x10000) * 3);
        let (found, s1) = Self::spec_search_disassemblies(s, start, address, set);
        Self::lemma_search_chain(s, start, address, set);
        let r = Self::spec_disassemble_backward(s, address, n, set).0;
        match found {
            Some(result) => {
                let shown = if result.len() < n {
                    result.len()
                } else {
                    n
                };
                let k = n - shown;
                let tail = r.subrange(k, n as int);
                let off = result.len() - n;
                assert forall|i: int| 0 <= i < tail.len() implies #[trigger] tail[i] == result[off
                    + k + i] by {}
                assert forall|i: int| 0 <= i < tail.len() - 1 implies #[trigger] tail[i].address
                    + tail[i].spec_byte_size() == tail[i + 1].address by {
                    assert(tail[i] == result[off + k + i]);
                    assert(tail[i + 1] == result[off + k + i + 1]);
                }
                if tail.len() > 0 {
                    assert(off + k + tail.len() - 1 == result.len() - 1);
                    assert(tail.last() == result.last());
                }
                assert(forall|i: int| 0 <= i < k ==> #[trigger] r[i] == Asm6502Instruction::spec_undefined());
                assert(chain_ends_at(tail, address as int));
            },
            None => {
                assert(forall|i: int| 0 <= i < n ==> #[trigger] r[i] == Asm6502Instruction::spec_undefined());
                assert(r.subrange(n as int, n as int).len() == 0);
                assert(chain_ends_at(r.subrange(n as int, n as int), address as int));
            },
        }
    }
}

} // verus!
