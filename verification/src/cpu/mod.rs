pub mod alu;
pub mod cpu6502;
pub mod cpu65c816;
pub mod disassembler;
pub mod format;
pub mod instructions;
pub mod laws;
pub mod tables;

use crate::bus::BusComponent;
use cpu6502::{Cpu6502, Cpu65C02, Cpu6502State, InstructionSet};
use vstd::prelude::*;

verus! {

/// Marks the types that describe a disassembled instruction.
pub trait CpuInstruction {}

/// A processor: it resets, and it executes one instruction at a time.
pub trait Cpu: View + Sized {
    /// The processor's invariant (for a 6502: its bus answers at every address).
    spec fn wf(state: Self::V) -> bool;

    /// The next instruction is one the processor can execute.
    spec fn can_step(state: Self::V) -> bool;

    /// The cycles the next instruction takes, and the state after it.
    spec fn step(state: Self::V) -> (u32, Self::V);

    /// The cycles a reset takes, and the state after it.
    spec fn after_reset(state: Self::V) -> (u32, Self::V);

    fn reset(&mut self) -> (r: u32)
        requires
            Self::wf(old(self)@),
        ensures
            Self::wf(final(self)@),
            (r, final(self)@) == Self::after_reset(old(self)@),
    ;

    fn execute_next_instruction(&mut self) -> (r: u32)
        requires
            Self::wf(old(self)@),
            Self::can_step(old(self)@),
        ensures
            Self::wf(final(self)@),
            (r, final(self)@) == Self::step(old(self)@),
            1 <= r,
    ;

    /// Whether the next instruction is one the processor can execute.
    fn can_execute_next(&self) -> (r: bool)
        requires
            Self::wf(self@),
        ensures
            r == Self::can_step(self@),
    ;
}

/// Executes instructions on `cpu` until at least `cycles` cycles have passed; returns the
/// cycles run.
pub fn execute_cycles<C: Cpu>(cpu: &mut C, cycles: u32) -> (r: u32)
    requires
        C::wf(old(cpu)@),
        runs_for::<C>(old(cpu)@, 0, cycles as int),
    ensures
        C::wf(final(cpu)@),
        (r as int, final(cpu)@) == run_for::<C>(old(cpu)@, 0, cycles as int),
{
    let mut run: u32 = 0;
    while run < cycles
        invariant
            C::wf(cpu@),
            runs_for::<C>(cpu@, run as int, cycles as int),
            run_for::<C>(cpu@, run as int, cycles as int) == run_for::<C>(
                old(cpu)@,
                0,
                cycles as int,
            ),
        decreases cycles_left(run as int, cycles as int),
    {
        let c = cpu.execute_next_instruction();
        run = run + c;
    }
    run
}

/// The cycles still to run, none once `run` has reached `cycles`.
pub open spec fn cycles_left(run: int, cycles: int) -> nat {
    if run < cycles {
        (cycles - run) as nat
    } else {
        0
    }
}

/// Whether a processor in state `s`, having run `run` cycles, can go on executing
/// instructions until `cycles` have passed: each instruction it meets is one it can execute,
/// and the count stays within 32 bits.
pub open spec fn runs_for<C: Cpu>(s: C::V, run: int, cycles: int) -> bool
    decreases cycles_left(run, cycles),
{
    if run >= cycles {
        true
    } else if !C::can_step(s) || C::step(s).0 < 1 || run + C::step(s).0 > u32::MAX {
        false
    } else {
        runs_for::<C>(C::step(s).1, run + C::step(s).0, cycles)
    }
}

/// The cycles run and the state reached when a processor in state `s`, having run `run`
/// cycles, executes instructions until `cycles` have passed.
pub open spec fn run_for<C: Cpu>(s: C::V, run: int, cycles: int) -> (int, C::V)
    decreases cycles_left(run, cycles),
{
    if run >= cycles || C::step(s).0 < 1 {
        (run, s)
    } else {
        run_for::<C>(C::step(s).1, run + C::step(s).0, cycles)
    }
}

impl<B: BusComponent> Cpu for Cpu6502<B> {
    open spec fn wf(state: Cpu6502State<B::V>) -> bool {
        Cpu6502::<B>::bus_ok(state.bus)
    }

    open spec fn can_step(state: Cpu6502State<B::V>) -> bool {
        Cpu6502::<B>::can_step(state, InstructionSet::Nmos6502)
    }

    open spec fn step(state: Cpu6502State<B::V>) -> (u32, Cpu6502State<B::V>) {
        Cpu6502::<B>::spec_step(state, InstructionSet::Nmos6502)
    }

    open spec fn after_reset(state: Cpu6502State<B::V>) -> (u32, Cpu6502State<B::V>) {
        Cpu6502::<B>::spec_reset(state)
    }

    fn reset(&mut self) -> (r: u32) {
        Cpu6502::reset(self)
    }

    fn execute_next_instruction(&mut self) -> (r: u32) {
        Cpu6502::execute_next_instruction(self)
    }

    fn can_execute_next(&self) -> (r: bool) {
        Cpu6502::can_execute_next(self, InstructionSet::Nmos6502)
    }
}

impl<B: BusComponent> Cpu for Cpu65C02<B> {
    open spec fn wf(state: Cpu6502State<B::V>) -> bool {
        Cpu6502::<B>::bus_ok(state.bus)
    }

    open spec fn can_step(state: Cpu6502State<B::V>) -> bool {
        Cpu6502::<B>::can_step(state, InstructionSet::Cmos65C02)
    }

    open spec fn step(state: Cpu6502State<B::V>) -> (u32, Cpu6502State<B::V>) {
        Cpu6502::<B>::spec_step(state, InstructionSet::Cmos65C02)
    }

    open spec fn after_reset(state: Cpu6502State<B::V>) -> (u32, Cpu6502State<B::V>) {
        Cpu6502::<B>::spec_reset(state)
    }

    fn reset(&mut self) -> (r: u32) {
        self.base_cpu.reset()
    }

    fn execute_next_instruction(&mut self) -> (r: u32) {
        Cpu65C02::execute_next_instruction(self)
    }

    fn can_execute_next(&self) -> (r: bool) {
        self.base_cpu.can_execute_next(InstructionSet::Cmos65C02)
    }
}

} // verus!
