use remu::bus::Bus;
use remu::cpu::cpu6502::{
    BaseInstruction, Cpu6502, Cpu65C02, InstructionData, InstructionSet, StatusFlags,
};
use remu::cpu::disassembler::Asm6502Instruction;
use remu::memory::Ram;

/// A 6502 on a bus of RAM holding `program` at 0x8000, with the reset vector pointing there.
fn machine(program: &[u8], decimal: bool) -> Cpu6502<Bus<Ram>> {
    let mut bus: Bus<Ram> = Bus::new();
    bus.add_component(Ram::new(0xFFFF, 0x0000));
    bus.add_component(Ram::new(0x0001, 0xFFFF));
    for (i, b) in program.iter().enumerate() {
        bus.write(0x8000 + i as u16, *b);
    }
    bus.write(0xFFFC, 0x00);
    bus.write(0xFFFD, 0x80);
    bus.write(0xFFFE, 0x00);
    bus.write(0xFFFF, 0x90);
    bus.write(0xFFFA, 0x00);
    bus.write(0xFFFB, 0xA0);
    let mut cpu = Cpu6502::new(bus, decimal);
    cpu.reset();
    cpu
}

#[test]
fn reset_loads_the_vector_and_initial_stack() {
    let cpu = machine(&[0xEA], false);
    assert_eq!(cpu.pc, 0x8000);
    assert_eq!(cpu.sp, 0xFD);
    assert_eq!(cpu.a, 0);
    assert!(cpu.status.u);
    assert!(!cpu.status.i);
}

#[test]
fn load_add_store() {
    // LDA #$05; ADC #$03; STA $10
    let mut cpu = machine(&[0xA9, 0x05, 0x69, 0x03, 0x85, 0x10], false);
    assert_eq!(cpu.execute_next_instruction(), 2);
    assert_eq!(cpu.a, 0x05);
    assert_eq!(cpu.execute_next_instruction(), 2);
    assert_eq!(cpu.a, 0x08);
    assert!(!cpu.status.c);
    assert_eq!(cpu.execute_next_instruction(), 3);
    assert_eq!(cpu.bus.read(0x0010), 0x08);
    assert_eq!(cpu.pc, 0x8006);
}

#[test]
fn binary_add_sets_carry_and_overflow() {
    // LDA #$7F; ADC #$01 -> 0x80, overflow, negative
    let mut cpu = machine(&[0xA9, 0x7F, 0x69, 0x01, 0xA9, 0xFF, 0x69, 0x01], false);
    cpu.execute_next_instruction();
    cpu.execute_next_instruction();
    assert_eq!(cpu.a, 0x80);
    assert!(cpu.status.v);
    assert!(cpu.status.n);
    assert!(!cpu.status.c);
    cpu.execute_next_instruction();
    cpu.execute_next_instruction();
    assert_eq!(cpu.a, 0x00);
    assert!(cpu.status.c);
    assert!(cpu.status.z);
}

#[test]
fn decimal_add_gives_decimal_digits() {
    // SED; CLC; LDA #$15; ADC #$27 -> $42
    let mut cpu = machine(&[0xF8, 0x18, 0xA9, 0x15, 0x69, 0x27], true);
    for _ in 0..4 {
        cpu.execute_next_instruction();
    }
    assert_eq!(cpu.a, 0x42);
    assert!(!cpu.status.c);
}

#[test]
fn decimal_subtract_gives_decimal_digits() {
    // SED; SEC; LDA #$42; SBC #$15 -> $27
    let mut cpu = machine(&[0xF8, 0x38, 0xA9, 0x42, 0xE9, 0x15], true);
    for _ in 0..4 {
        cpu.execute_next_instruction();
    }
    assert_eq!(cpu.a, 0x27);
    // The carry comes from the binary sum of the accumulator, the operand and the carry
    // (0x42 + 0x15 + 1 < 0x100)
    assert!(!cpu.status.c);
}

#[test]
fn call_then_return() {
    // JSR $9000 at 0x8000; RTS at 0x9000
    let mut cpu = machine(&[0x20, 0x00, 0x90], false);
    cpu.bus.write(0x9000, 0x60);
    assert_eq!(cpu.execute_next_instruction(), 6);
    assert_eq!(cpu.pc, 0x9000);
    assert_eq!(cpu.sp, 0xFB);
    assert_eq!(cpu.bus.read(0x01FD), 0x80);
    assert_eq!(cpu.bus.read(0x01FC), 0x02);
    assert_eq!(cpu.execute_next_instruction(), 6);
    assert_eq!(cpu.pc, 0x8003);
    assert_eq!(cpu.sp, 0xFD);
}

#[test]
fn push_then_pull() {
    // LDA #$5A; PHA; LDA #$00; PLA
    let mut cpu = machine(&[0xA9, 0x5A, 0x48, 0xA9, 0x00, 0x68], false);
    for _ in 0..4 {
        cpu.execute_next_instruction();
    }
    assert_eq!(cpu.a, 0x5A);
    assert_eq!(cpu.sp, 0xFD);
}

#[test]
fn compare_sets_flags() {
    // LDA #$10; CMP #$10; CMP #$20
    let mut cpu = machine(&[0xA9, 0x10, 0xC9, 0x10, 0xC9, 0x20], false);
    cpu.execute_next_instruction();
    cpu.execute_next_instruction();
    assert!(cpu.status.z);
    assert!(cpu.status.c);
    cpu.execute_next_instruction();
    assert!(!cpu.status.z);
    assert!(!cpu.status.c);
    assert!(cpu.status.n);
}

#[test]
fn branch_taken_costs_a_cycle() {
    // LDA #$00; BEQ +2; NOP; NOP
    let mut cpu = machine(&[0xA9, 0x00, 0xF0, 0x02, 0xEA, 0xEA, 0xEA], false);
    cpu.execute_next_instruction();
    assert_eq!(cpu.execute_next_instruction(), 3);
    assert_eq!(cpu.pc, 0x8006);
}

#[test]
fn interrupts_push_state_and_jump_to_vectors() {
    let mut cpu = machine(&[0xEA], false);
    assert_eq!(cpu.irq(), 7);
    assert_eq!(cpu.pc, 0x9000);
    assert!(cpu.status.i);
    assert_eq!(cpu.sp, 0xFA);
    // Masked now
    assert_eq!(cpu.irq(), 0);
    assert_eq!(cpu.pc, 0x9000);
    assert_eq!(cpu.nmi(), 8);
    assert_eq!(cpu.pc, 0xA000);
}

#[test]
fn halt_op_codes_cannot_execute() {
    let cpu = machine(&[0x02], false);
    assert!(!cpu.can_execute_next(InstructionSet::Nmos6502));
    let cpu = machine(&[0xEA], false);
    assert!(cpu.can_execute_next(InstructionSet::Nmos6502));
}

#[test]
fn status_flags_round_trip_through_bits() {
    let flags = StatusFlags::from_bits(0b1010_0101);
    assert_eq!(flags.bits(), 0b1010_0101);
    assert!(flags.c);
    assert!(!flags.z);
    assert!(flags.i);
    assert!(flags.n);
    assert_eq!(StatusFlags::empty().bits(), 0);
}

#[test]
fn disassembly_text() {
    let lda = Asm6502Instruction::new(0x8000, BaseInstruction::LDA, InstructionData::IMM(0x05));
    assert_eq!(lda.to_text(), "LDA  #$05");
    let jmp = Asm6502Instruction::new(0x8000, BaseInstruction::JMP, InstructionData::ABS(0x1234));
    assert_eq!(jmp.to_text(), "JMP  $1234");
    let nop = Asm6502Instruction::new(0x8000, BaseInstruction::NOP, InstructionData::IMP);
    assert_eq!(nop.to_text(), "NOP");
    let sta = Asm6502Instruction::new(0x8000, BaseInstruction::STA, InstructionData::IZY(0x20));
    assert_eq!(sta.to_text(), "STA  ($20),Y");
    assert_eq!(Asm6502Instruction::undefined().to_text(), "UNKNOWN");
}

#[test]
fn disassemble_forward_walks_instructions() {
    // LDA #$05; STA $1234; NOP
    let mut cpu = machine(&[0xA9, 0x05, 0x8D, 0x34, 0x12, 0xEA], false);
    let listing = cpu.disassemble_forward(0x8000, 3, InstructionSet::Nmos6502);
    assert_eq!(listing.len(), 3);
    assert_eq!(listing[0].address, 0x8000);
    assert_eq!(listing[1].address, 0x8002);
    assert_eq!(listing[2].address, 0x8005);
    assert_eq!(listing[1].to_text(), "STA  $1234");
    assert_eq!(listing[1].byte_size(), 3);
}

#[test]
fn cmos_processor_executes_its_own_instructions() {
    let mut bus: Bus<Ram> = Bus::new();
    bus.add_component(Ram::new(0xFFFF, 0x0000));
    // BRA +1 (65C02 only); NOP; LDA #$07
    bus.write(0x8000, 0x80);
    bus.write(0x8001, 0x01);
    bus.write(0x8003, 0xA9);
    bus.write(0x8004, 0x07);
    bus.write(0xFFFC, 0x00);
    bus.write(0xFFFD, 0x80);
    let mut cpu = Cpu65C02::new(bus, true);
    cpu.base_cpu.reset();
    cpu.execute_next_instruction();
    assert_eq!(cpu.base_cpu.pc, 0x8003);
    cpu.execute_next_instruction();
    assert_eq!(cpu.base_cpu.a, 0x07);
}

#[test]
fn execute_cycles_runs_whole_instructions() {
    // NOP (2 cycles) three times, then LDA #$07 (2 cycles).
    let mut cpu = machine(&[0xEA, 0xEA, 0xEA, 0xA9, 0x07], false);
    // Five cycles take three NOPs: the last one runs past the target.
    assert_eq!(remu::cpu::execute_cycles(&mut cpu, 5), 6);
    assert_eq!(cpu.pc, 0x8003);
    assert_eq!(remu::cpu::execute_cycles(&mut cpu, 0), 0);
    assert_eq!(remu::cpu::execute_cycles(&mut cpu, 1), 2);
    assert_eq!(cpu.a, 0x07);
}

#[test]
fn register_dump_after_reset() {
    let mut cpu = machine(&[0xA9, 0x3C], false);
    assert_eq!(
        cpu.to_text(),
        "N  V  -  B  D  I  Z  C\n0  0  1  0  0  0  0  0\nA: $00  X: $00  Y: $00\nPC: $8000    SP: $01FD"
    );
    cpu.execute_next_instruction();
    assert_eq!(
        cpu.to_text(),
        "N  V  -  B  D  I  Z  C\n0  0  1  0  0  0  0  0\nA: $3C  X: $00  Y: $00\nPC: $8002    SP: $01FD"
    );
}

#[test]
fn interrupt_then_return_restores_the_interrupted_state() {
    // SEC; NOP. The NMI handler at 0xA000 is a lone RTI.
    let mut cpu = machine(&[0x38, 0xEA], false);
    cpu.execute_next_instruction();
    cpu.bus.write(0xA000, 0x40);
    let sp = cpu.sp;
    assert_eq!(cpu.nmi(), 8);
    assert_eq!(cpu.pc, 0xA000);
    assert_eq!(cpu.sp, sp.wrapping_sub(3));
    cpu.execute_next_instruction();
    assert_eq!(cpu.pc, 0x8001);
    assert_eq!(cpu.sp, sp);
    assert!(cpu.status.c);
    assert!(cpu.status.i);
    assert!(!cpu.status.b);
    assert!(!cpu.status.u);
}

#[test]
fn disassemble_backward_ends_at_the_address() {
    // LDA #$05; NOP; STA $10, then 0x8005.
    let mut cpu = machine(&[0xA9, 0x05, 0xEA, 0x85, 0x10], false);
    let r = cpu.disassemble_backward(0x8005, 3, InstructionSet::Nmos6502);
    assert_eq!(r.len(), 3);
    assert_eq!(r[0].address(), 0x8000);
    assert_eq!(r[1].address(), 0x8002);
    assert_eq!(r[2].address(), 0x8003);
    assert_eq!(r[2].byte_size(), 2);
}
