use remu::system::cartridge::load_cartridge;
use remu::video::ppu2c02::{flip_byte, PixelBuffer, Ppu2C02, PpuRegister, SCREEN_WIDTH};
use remu::video::{Color, VideoBuffer, VideoChip};

fn nrom_image(flags6: u8) -> Vec<u8> {
    let mut data = vec![0x4E, 0x45, 0x53, 0x1A, 1, 1, flags6, 0, 0, 0, 0, 0, 0, 0, 0, 0];
    data.extend(std::iter::repeat(0xEA).take(0x4000));
    data.extend(std::iter::repeat(0x00).take(0x2000));
    data
}

#[test]
fn flip_byte_reverses_bits() {
    assert_eq!(flip_byte(0b0000_0001), 0b1000_0000);
    assert_eq!(flip_byte(0b1100_1010), 0b0101_0011);
    assert_eq!(flip_byte(0xF0), 0x0F);
    for b in 0..=255u8 {
        assert_eq!(flip_byte(flip_byte(b)), b);
    }
}

#[test]
fn register_fields_round_trip() {
    let mut r = PpuRegister::new();
    r.value = 0x2C65;
    r.update_subfields();
    assert_eq!(r.coarse_x, 0x05);
    assert_eq!(r.coarse_y, 0x03);
    assert_eq!(r.nametable_x, 1);
    assert_eq!(r.nametable_y, 1);
    assert_eq!(r.fine_y, 2);
    r.value = 0;
    r.update_value();
    assert_eq!(r.value, 0x2C65);
}

#[test]
fn oam_write_then_read() {
    let mut ppu = Ppu2C02::new(0x2000);
    ppu.write(3, 0x05);
    ppu.write(4, 0x42);
    assert_eq!(ppu.read(4), 0x42);
    ppu.dma_write(0x06, 0x99);
    ppu.write(3, 0x06);
    assert_eq!(ppu.read(4), 0x99);
}

#[test]
fn name_table_data_is_read_through_the_buffer() {
    let mut ppu = Ppu2C02::new(0x2000);
    ppu.set_cartridge(load_cartridge(nrom_image(0)).unwrap());
    ppu.write(6, 0x21);
    ppu.write(6, 0x08);
    ppu.write(7, 0x55);
    ppu.write(6, 0x21);
    ppu.write(6, 0x08);
    // The first read returns the old buffer, the second the byte
    assert_eq!(ppu.read(7), 0x00);
    assert_eq!(ppu.read(7), 0x55);
}

#[test]
fn horizontal_mirroring_shares_tables_left_and_right() {
    let mut ppu = Ppu2C02::new(0x2000);
    ppu.set_cartridge(load_cartridge(nrom_image(0)).unwrap());
    ppu.write(6, 0x20);
    ppu.write(6, 0x10);
    ppu.write(7, 0x77);
    // 0x2410 shows the same table as 0x2010
    ppu.write(6, 0x24);
    ppu.write(6, 0x10);
    ppu.read(7);
    assert_eq!(ppu.read(7), 0x77);
}

#[test]
fn palette_reads_are_not_buffered() {
    let mut ppu = Ppu2C02::new(0x2000);
    ppu.write(6, 0x3F);
    ppu.write(6, 0x01);
    ppu.write(7, 0x2A);
    ppu.write(6, 0x3F);
    ppu.write(6, 0x01);
    assert_eq!(ppu.read(7), 0x2A);
}

#[test]
fn sprite_palette_background_entry_mirrors_the_background_one() {
    let mut ppu = Ppu2C02::new(0x2000);
    ppu.write(6, 0x3F);
    ppu.write(6, 0x10);
    ppu.write(7, 0x0C);
    ppu.write(6, 0x3F);
    ppu.write(6, 0x00);
    assert_eq!(ppu.read(7), 0x0C);
}

#[test]
fn vertical_blank_raises_nmi_when_enabled() {
    let mut ppu = Ppu2C02::new(0x2000);
    ppu.write(0, 0x80);
    let mut clocks = 0u32;
    while !ppu.check_nmi_pending() && clocks < 200_000 {
        ppu.clock_one();
        clocks += 1;
    }
    assert!(ppu.check_nmi_pending());
    // The clock that starts at line 241, dot 1: line 0 skips its first dot
    assert_eq!(clocks, 241 * 341 + 1);
    assert!(ppu.read(2) & 0x80 != 0);
    // Reading the status clears the flag
    assert!(ppu.read(2) & 0x80 == 0);
    assert!(ppu.check_nmi());
    assert!(!ppu.check_nmi());
}

#[test]
fn frames_swap_after_the_last_line() {
    let mut ppu = Ppu2C02::new(0x2000);
    ppu.clock(341 * 262);
    let frame = ppu.get_buffer();
    assert_eq!(frame.width(), SCREEN_WIDTH);
    assert_eq!(frame.get_pixels().len(), 256 * 240);
}

#[test]
fn pixel_buffer_starts_white() {
    let buffer = PixelBuffer::new();
    assert_eq!(buffer.get_pixel(10, 20), Color::from_rgb(255, 255, 255));
    assert_eq!(buffer.height(), 240);
}

#[test]
fn color_channels() {
    let mut c = Color::from_rgba(1, 2, 3, 4);
    assert_eq!((c.r(), c.g(), c.b(), c.a()), (1, 2, 3, 4));
    *c.g_mut() = 20;
    assert_eq!(c.g(), 20);
    assert_eq!(Color::from_rgb(9, 8, 7).a(), 255);
}

#[test]
fn data_accesses_past_the_14_bit_space_wrap_into_it() {
    let mut ppu = Ppu2C02::new(0x2000);
    // Increment by 32 after each data access.
    ppu.write(0, 0x04);
    ppu.write(6, 0x3F);
    ppu.write(6, 0xE1);
    // 0x3FE1 is palette entry 1; the next address, 0x4001, is past the 14-bit space.
    ppu.write(7, 0x11);
    // Writes from 0x4001 to 0x7EE1 reach the pattern tables (no cartridge: dropped).
    for _ in 0..504 {
        ppu.write(7, 0x00);
    }
    // 0x7F01 is 0x3F01 in the 14-bit space: palette entry 1 again.
    ppu.write(7, 0x22);
    ppu.write(0, 0x00);
    ppu.write(6, 0x3F);
    ppu.write(6, 0x01);
    assert_eq!(ppu.read(7), 0x22);
}
