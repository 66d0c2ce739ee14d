use remu::system::cartridge::{image_readable, load_cartridge, INesHeader};
use remu::system::mapper::{
    get_mapper_from_id, Mapper, MapperReadResult, MirrorMode, Mmc1, Mmc3, NRom,
};
use remu::util::BinReader;

/// An iNES image: header, then `prg` banks of 16 KiB and `chr` banks of 8 KiB, each byte of a
/// bank holding its bank number plus one.
fn image(prg: u8, chr: u8, flags6: u8, flags7: u8) -> Vec<u8> {
    let mut data = vec![0x4E, 0x45, 0x53, 0x1A, prg, chr, flags6, flags7, 0, 0, 0, 0, 0, 0, 0, 0];
    for b in 0..prg {
        data.extend(std::iter::repeat(b + 1).take(0x4000));
    }
    for b in 0..chr {
        data.extend(std::iter::repeat(0x80 + b).take(0x2000));
    }
    data
}

#[test]
fn bin_reader_reads_in_order() {
    let mut reader = BinReader::new(vec![1, 2, 3, 4, 5]);
    assert_eq!(reader.read_byte(), Some(1));
    let mut two = [0u8; 2];
    assert_eq!(reader.read_into(&mut two), 2);
    assert_eq!(two, [2, 3]);
    let mut many = [9u8; 4];
    assert_eq!(reader.read_into(&mut many), 2);
    assert_eq!(many, [4, 5, 9, 9]);
    assert_eq!(reader.read_byte(), None);
}

#[test]
fn bin_reader_skip_moves_past_bytes() {
    let mut reader = BinReader::new(vec![1, 2, 3, 4]);
    reader.skip(2);
    assert_eq!(reader.read_byte(), Some(3));
}

#[test]
fn header_is_parsed() {
    let mut reader = BinReader::new(image(2, 1, 0x11, 0x00));
    let header = INesHeader::from_reader(&mut reader).unwrap();
    assert_eq!(header.prg_banks, 2);
    assert_eq!(header.chr_banks, 1);
    assert_eq!(header.mapper_1, 0x11);
    assert_eq!(header.mapper_2, 0x00);
}

#[test]
fn header_with_wrong_identifier_is_refused() {
    let mut data = image(1, 1, 0, 0);
    data[3] = 0x00;
    let mut reader = BinReader::new(data);
    assert!(INesHeader::from_reader(&mut reader).is_none());
}

#[test]
fn header_cut_short_is_refused() {
    let mut reader = BinReader::new(vec![0x4E, 0x45, 0x53, 0x1A, 1, 1]);
    assert!(INesHeader::from_reader(&mut reader).is_none());
}

#[test]
fn nrom_cartridge_loads() {
    let cart = load_cartridge(image(1, 1, 0x01, 0x00)).unwrap();
    // 0x8000 is 0x3FE0 past 0x4020
    assert_eq!(cart.cpu_read(0x8000 - 0x4020), 1);
    // One bank is mirrored at 0xC000
    assert_eq!(cart.cpu_read(0xC000 - 0x4020), 1);
    assert_eq!(cart.ppu_read(0x0000), 0x80);
    assert_eq!(cart.mirror(), MirrorMode::Vertical);
    // Nothing at 0x5000
    assert_eq!(cart.cpu_read(0x5000 - 0x4020), 0);
}

#[test]
fn unsupported_mapper_is_refused() {
    // Mapper 5 (MMC5)
    assert!(load_cartridge(image(1, 1, 0x50, 0x00)).is_none());
}

#[test]
fn truncated_image_is_refused() {
    let mut data = image(2, 1, 0, 0);
    data.truncate(16 + 0x4000);
    assert!(load_cartridge(data).is_none());
}

#[test]
fn character_ram_when_no_character_rom() {
    let mut cart = load_cartridge(image(1, 0, 0x00, 0x00)).unwrap();
    assert_eq!(cart.mirror(), MirrorMode::Horizontal);
    assert_eq!(cart.ppu_read(0x0123), 0);
    cart.ppu_write(0x0123, 0x5A);
    assert_eq!(cart.ppu_read(0x0123), 0x5A);
}

#[test]
fn mapper_ids() {
    assert!(matches!(get_mapper_from_id(0, 1), Some(Mapper::NRom(_))));
    assert!(matches!(get_mapper_from_id(1, 1), Some(Mapper::Mmc1(_))));
    assert!(matches!(get_mapper_from_id(2, 1), Some(Mapper::UxRom(_))));
    assert!(matches!(get_mapper_from_id(3, 1), Some(Mapper::CNRom(_))));
    assert!(matches!(get_mapper_from_id(4, 1), Some(Mapper::Mmc3(_))));
    assert!(matches!(get_mapper_from_id(7, 1), Some(Mapper::AxRom(_))));
    assert!(matches!(get_mapper_from_id(66, 1), Some(Mapper::GxRom(_))));
    assert!(get_mapper_from_id(5, 1).is_none());
}

#[test]
fn nrom_masks_program_addresses() {
    let one = Mapper::NRom(NRom::new(1));
    assert!(matches!(one.cpu_read(0xC005), MapperReadResult::Address(Some(0x0005))));
    let two = Mapper::NRom(NRom::new(2));
    assert!(matches!(two.cpu_read(0xC005), MapperReadResult::Address(Some(0x4005))));
    assert!(matches!(two.cpu_read(0x6000), MapperReadResult::Address(None)));
}

#[test]
fn mmc1_serial_load_selects_a_bank() {
    let mut m = Mapper::Mmc1(Mmc1::new(4));
    // Clear the shift register, then five writes of bits 1,1,0,0,0 (value 3) to the
    // program bank register at 0xE000
    m.cpu_write(0x8000, 0x80);
    for bit in [1u8, 1, 0, 0, 0] {
        m.cpu_write(0xE000, bit);
    }
    // 16 KiB mode with the fixed bank at 0xC000: bank 3 at 0x8000, the last at 0xC000
    assert!(matches!(m.cpu_read(0x8000), MapperReadResult::Address(Some(0xC000))));
    assert!(matches!(m.cpu_read(0xC000), MapperReadResult::Address(Some(0xC000))));
}

#[test]
fn mmc1_control_register_sets_mirroring() {
    let mut m = Mapper::Mmc1(Mmc1::new(2));
    // Value 2: vertical mirroring
    for bit in [0u8, 1, 0, 0, 0] {
        m.cpu_write(0x8000, bit);
    }
    assert_eq!(m.mirror(), Some(MirrorMode::Vertical));
}

#[test]
fn mmc1_program_ram_reads_back() {
    let mut m = Mapper::Mmc1(Mmc1::new(1));
    m.cpu_write(0x6010, 0x99);
    assert!(matches!(m.cpu_read(0x6010), MapperReadResult::Data(0x99)));
}

#[test]
fn mmc3_interrupt_after_counter_runs_out() {
    let mut m = Mapper::Mmc3(Mmc3::new(2));
    m.cpu_write(0xC000, 2); // reload value
    m.cpu_write(0xC001, 0); // clear the counter
    m.cpu_write(0xE001, 0); // enable interrupts
    m.on_scanline(); // reload to 2
    assert!(!m.interrupt_state());
    m.on_scanline(); // 1
    assert!(!m.interrupt_state());
    m.on_scanline(); // 0
    assert!(m.interrupt_state());
    m.reset_interrupt();
    assert!(!m.interrupt_state());
}

#[test]
fn mmc3_bank_select_maps_program_banks() {
    let mut m = Mapper::Mmc3(Mmc3::new(4));
    // Fixed banks: the last two of 8 at 0xC000 and 0xE000
    assert!(matches!(m.cpu_read(0xE000), MapperReadResult::Address(Some(0xE000))));
    assert!(matches!(m.cpu_read(0xC000), MapperReadResult::Address(Some(0xC000))));
    // Register 6 selects bank 5 at 0x8000
    m.cpu_write(0x8000, 6);
    m.cpu_write(0x8001, 5);
    assert!(matches!(m.cpu_read(0x8000), MapperReadResult::Address(Some(0xA000))));
}

#[test]
fn image_readable_flags_images_the_loader_cannot_read() {
    // Not an iNES image at all, and an unsupported mapper: the loader answers None.
    assert!(image_readable(&[1, 2, 3]));
    assert!(image_readable(&image(1, 1, 0x50, 0)));
    // A mapper that needs program ROM, without any.
    assert!(!image_readable(&image(0, 1, 0x10, 0)));
    assert!(image_readable(&image(0, 1, 0x00, 0)));
    // A trainer that the image does not hold.
    let mut short = vec![0x4E, 0x45, 0x53, 0x1A, 1, 0, 0x04, 0, 0, 0, 0, 0, 0, 0, 0, 0];
    short.extend(std::iter::repeat(0).take(100));
    assert!(!image_readable(&short));
    assert!(image_readable(&image(2, 1, 0x00, 0)));
}
