use remu::system::cartridge::load_cartridge;
use remu::frontend::ArgError;
use remu::system::nes::{Buttons, Nes, BUTTON_A, BUTTON_START, BUTTON_UP};
use remu::video::VideoBuffer;

/// An NROM image whose program (at 0x8000, where the reset vector points) is `program`.
fn image_with_program(program: &[u8]) -> Vec<u8> {
    let mut data = vec![0x4E, 0x45, 0x53, 0x1A, 1, 1, 0, 0, 0, 0, 0, 0, 0, 0, 0, 0];
    let mut prg = vec![0xEAu8; 0x4000];
    prg[..program.len()].copy_from_slice(program);
    // Reset vector at 0xFFFC (0x3FFC in the mirrored bank) -> 0x8000
    prg[0x3FFC] = 0x00;
    prg[0x3FFD] = 0x80;
    data.extend(prg);
    data.extend(std::iter::repeat(0).take(0x2000));
    data
}

fn console(program: &[u8]) -> Nes {
    let mut nes = Nes::new();
    nes.set_cartridge(load_cartridge(image_with_program(program)).unwrap());
    nes.reset();
    nes
}

#[test]
fn steps_report_instruction_cycles() {
    // LDA #$42; STA $0200; NOP
    let mut nes = console(&[0xA9, 0x42, 0x8D, 0x00, 0x02, 0xEA]);
    assert!(nes.is_ready());
    assert_eq!(nes.next_instruction().0, 2);
    assert_eq!(nes.next_instruction().0, 4);
    assert_eq!(nes.next_instruction().0, 2);
}

#[test]
fn sprite_dma_takes_over_the_next_step() {
    // LDA #$02; STA $4014; NOP
    let mut nes = console(&[0xA9, 0x02, 0x8D, 0x14, 0x40, 0xEA]);
    nes.next_instruction();
    nes.next_instruction();
    let (cycles, _) = nes.next_instruction();
    assert!(cycles == 512 || cycles == 513);
    // The processor continues after the transfer
    assert_eq!(nes.next_instruction().0, 2);
}

#[test]
fn apu_outputs_come_with_every_other_cycle() {
    let mut nes = console(&[0xEA, 0xEA]);
    let (cycles, outputs) = nes.next_instruction();
    assert_eq!(cycles, 2);
    assert_eq!(outputs.len(), 1);
}

#[test]
fn controller_reads_shift_out_buttons() {
    // LDA #$01; STA $4016; LDA $4016; LDA $4016 ... (A first, then B)
    let program = [0xA9, 0x01, 0x8D, 0x16, 0x40, 0xAD, 0x16, 0x40, 0xAD, 0x16, 0x40];
    let mut nes = console(&program);
    let mut pad = Buttons::empty();
    pad.insert(BUTTON_A);
    pad.insert(BUTTON_START);
    nes.update_input_state(pad, Buttons::empty());
    assert_eq!(pad.bits(), 0x90);
    for _ in 0..4 {
        nes.next_instruction();
    }
}

#[test]
fn screen_has_a_full_frame() {
    let nes = console(&[0xEA]);
    assert_eq!(nes.screen().get_pixels().len(), 256 * 240);
}

#[test]
fn buttons_press_and_release() {
    let mut b = Buttons::empty();
    b.insert(BUTTON_A | BUTTON_UP);
    assert_eq!(b.bits(), 0b1000_1000);
    b.remove(BUTTON_A);
    assert_eq!(b.bits(), BUTTON_UP);
    b.remove(BUTTON_START);
    assert_eq!(b.bits(), BUTTON_UP);
}

#[test]
fn argument_error_message() {
    assert_eq!(ArgError.message(), "Invalid arguments");
}
