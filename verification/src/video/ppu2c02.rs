//! The 2C02 picture processing unit: its registers as the CPU sees them, its own bus
//! (pattern tables on the cartridge, name tables, palette), sprite evaluation and the
//! pixel pipeline that draws one dot per clock.
use crate::bits::{group_wrapping, lemma_and_le_u16, lemma_and_le_u8, wrap16};
use crate::bus::{AddressRange, BusComponent};
use crate::memory::{spec_ram, Ram, RamView};
use crate::system::cartridge::{Cartridge, CartridgeView};
use crate::system::mapper::MirrorMode;
use crate::system::nes::{spec_vram, Vram, VramView};
use crate::video::{black, rgba, white, Color, VideoBuffer, VideoChip};
use vstd::prelude::*;

verus! {

pub const SCREEN_WIDTH: usize = 256;

pub const SCREEN_HEIGHT: usize = 240;

/// Number of pixels in a frame.
pub const SCREEN_PIXELS: usize = 61440;

pub const MAX_CYCLE: u16 = 340;

pub const MAX_SCANLINE: i16 = 260;

pub const HBLANK_CYCLE: u16 = 256;

pub const VBLANK_LINE: i16 = 240;

/// CPU-visible registers, relative to the PPU's first CPU address.
pub const ADDR_CONTROL: u16 = 0;

pub const ADDR_MASK: u16 = 1;

pub const ADDR_STATUS: u16 = 2;

pub const ADDR_OAM_ADDRESS: u16 = 3;

pub const ADDR_OAM_DATA: u16 = 4;

pub const ADDR_SCROLL: u16 = 5;

pub const ADDR_PPU_ADDRESS: u16 = 6;

pub const ADDR_PPU_DATA: u16 = 7;

pub const ADDR_MAX: u16 = 7;

/// Control register bits.
pub const CONTROL_NAMETABLE_X: u8 = 0x01;

pub const CONTROL_NAMETABLE_Y: u8 = 0x02;

pub const CONTROL_INCREMENT_MODE: u8 = 0x04;

pub const CONTROL_PATTERN_SPRITE: u8 = 0x08;

pub const CONTROL_PATTERN_BACKGROUND: u8 = 0x10;

pub const CONTROL_SPRITE_SIZE: u8 = 0x20;

pub const CONTROL_ENABLE_NMI: u8 = 0x80;

/// Mask register bits.
pub const MASK_GREYSCALE: u8 = 0x01;

pub const MASK_RENDER_BACKGROUND_LEFT: u8 = 0x02;

pub const MASK_RENDER_SPRITES_LEFT: u8 = 0x04;

pub const MASK_RENDER_BACKGROUND: u8 = 0x08;

pub const MASK_RENDER_SPRITES: u8 = 0x10;

/// Status register bits.
pub const STATUS_SPRITE_OVERFLOW: u8 = 0x20;

pub const STATUS_SPRITE_ZERO_HIT: u8 = 0x40;

pub const STATUS_VERTICAL_BLANK: u8 = 0x80;

/// Sprite attribute bits.
pub const SPRITE_FLIP_VERT: u8 = 0x80;

pub const SPRITE_FLIP_HOR: u8 = 0x40;

pub const SPRITE_PRIORITY: u8 = 0x20;

/// The red, green and blue channels of the 64 colours the PPU can output.
pub open spec fn nes_palette_rgb(i: u8) -> (u8, u8, u8) {
    match i {
        0 => (84, 84, 84),
        1 => (0, 30, 116),
        2 => (8, 16, 144),
        3 => (48, 0, 136),
        4 => (68, 0, 100),
        5 => (92, 0, 48),
        6 => (84, 4, 0),
        7 => (60, 24, 0),
        8 => (32, 42, 0),
        9 => (8, 58, 0),
        10 => (0, 64, 0),
        11 => (0, 60, 0),
        12 => (0, 50, 60),
        13 => (0, 0, 0),
        14 => (0, 0, 0),
        15 => (0, 0, 0),
        16 => (152, 150, 152),
        17 => (8, 76, 196),
        18 => (48, 50, 236),
        19 => (92, 30, 228),
        20 => (136, 20, 176),
        21 => (160, 20, 100),
        22 => (152, 34, 32),
        23 => (120, 60, 0),
        24 => (84, 90, 0),
        25 => (40, 114, 0),
        26 => (8, 124, 0),
        27 => (0, 118, 40),
        28 => (0, 102, 120),
        29 => (0, 0, 0),
        30 => (0, 0, 0),
        31 => (0, 0, 0),
        32 => (236, 238, 236),
        33 => (76, 154, 236),
        34 => (120, 124, 236),
        35 => (176, 98, 236),
        36 => (228, 84, 236),
        37 => (236, 88, 180),
        38 => (236, 106, 100),
        39 => (212, 136, 32),
        40 => (160, 170, 0),
        41 => (116, 196, 0),
        42 => (76, 208, 32),
        43 => (56, 204, 108),
        44 => (56, 180, 204),
        45 => (60, 60, 60),
        46 => (0, 0, 0),
        47 => (0, 0, 0),
        48 => (236, 238, 236),
        49 => (168, 204, 236),
        50 => (188, 188, 236),
        51 => (212, 178, 236),
        52 => (236, 174, 236),
        53 => (236, 174, 212),
        54 => (236, 180, 176),
        55 => (228, 196, 144),
        56 => (204, 210, 120),
        57 => (180, 222, 120),
        58 => (168, 226, 144),
        59 => (152, 226, 180),
        60 => (160, 214, 228),
        61 => (160, 162, 160),
        62 => (0, 0, 0),
        _ => (0, 0, 0),
    }
}

/// The colour with index `i` (0 to 63) in the PPU's master palette.
pub open spec fn nes_palette(i: u8) -> Color {
    rgba(nes_palette_rgb(i).0, nes_palette_rgb(i).1, nes_palette_rgb(i).2, 0xFF)
}

fn nes_palette_color(i: u8) -> (c: Color)
    requires
        i < 64,
    ensures
        c == nes_palette(i),
{
    let rgb: (u8, u8, u8) = match i {
        0 => (84, 84, 84),
        1 => (0, 30, 116),
        2 => (8, 16, 144),
        3 => (48, 0, 136),
        4 => (68, 0, 100),
        5 => (92, 0, 48),
        6 => (84, 4, 0),
        7 => (60, 24, 0),
        8 => (32, 42, 0),
        9 => (8, 58, 0),
        10 => (0, 64, 0),
        11 => (0, 60, 0),
        12 => (0, 50, 60),
        13 => (0, 0, 0),
        14 => (0, 0, 0),
        15 => (0, 0, 0),
        16 => (152, 150, 152),
        17 => (8, 76, 196),
        18 => (48, 50, 236),
        19 => (92, 30, 228),
        20 => (136, 20, 176),
        21 => (160, 20, 100),
        22 => (152, 34, 32),
        23 => (120, 60, 0),
        24 => (84, 90, 0),
        25 => (40, 114, 0),
        26 => (8, 124, 0),
        27 => (0, 118, 40),
        28 => (0, 102, 120),
        29 => (0, 0, 0),
        30 => (0, 0, 0),
        31 => (0, 0, 0),
        32 => (236, 238, 236),
        33 => (76, 154, 236),
        34 => (120, 124, 236),
        35 => (176, 98, 236),
        36 => (228, 84, 236),
        37 => (236, 88, 180),
        38 => (236, 106, 100),
        39 => (212, 136, 32),
        40 => (160, 170, 0),
        41 => (116, 196, 0),
        42 => (76, 208, 32),
        43 => (56, 204, 108),
        44 => (56, 180, 204),
        45 => (60, 60, 60),
        46 => (0, 0, 0),
        47 => (0, 0, 0),
        48 => (236, 238, 236),
        49 => (168, 204, 236),
        50 => (188, 188, 236),
        51 => (212, 178, 236),
        52 => (236, 174, 236),
        53 => (236, 174, 212),
        54 => (236, 180, 176),
        55 => (228, 196, 144),
        56 => (204, 210, 120),
        57 => (180, 222, 120),
        58 => (168, 226, 144),
        59 => (152, 226, 180),
        60 => (160, 214, 228),
        61 => (160, 162, 160),
        62 => (0, 0, 0),
        _ => (0, 0, 0),
    };
    Color::from_rgb(rgb.0, rgb.1, rgb.2)
}

/// The bits of a byte in reverse order.
pub open spec fn flipped(b: u8) -> u8 {
    let b1 = ((b & 0xF0) >> 4) | ((b & 0x0F) << 4);
    let b2 = ((b1 & 0xCC) >> 2) | ((b1 & 0x33) << 2);
    ((b2 & 0xAA) >> 1) | ((b2 & 0x55) << 1)
}

/// Bit `i` of a byte.
pub open spec fn bit(b: u8, i: u8) -> bool {
    (b >> i) & 1 == 1
}

/// Reverses the order of the bits of a byte: bit `i` of the result is bit `7 - i` of `b`.
pub fn flip_byte(byte: u8) -> (r: u8)
    ensures
        r == flipped(byte),
        forall|i: u8| i < 8 ==> #[trigger] bit(r, i) == bit(byte, (7 - i) as u8),
{
    let mut b = byte;
    b = ((b & 0xF0) >> 4) | ((b & 0x0F) << 4);
    b = ((b & 0xCC) >> 2) | ((b & 0x33) << 2);
    b = ((b & 0xAA) >> 1) | ((b & 0x55) << 1);
    proof {
        lemma_flipped_bits(byte);
        assert(b == flipped(byte));
    }
    b
}

proof fn lemma_flipped_bits(b: u8)
    by (bit_vector)
    ensures
        forall|i: u8| i < 8 ==> #[trigger] bit(flipped(b), i) == bit(b, (7 - i) as u8),
{
}

/// A PPU address register ("loopy" register): a 15-bit value and the fields it packs,
/// coarse X and Y scroll (5 bits each), the name-table selects (1 bit each) and fine Y
/// scroll (3 bits).
#[derive(PartialEq, Eq, Clone, Copy, Debug, Structural)]
pub struct PpuRegister {
    pub value: u16,
    pub coarse_x: u16,
    pub coarse_y: u16,
    pub nametable_x: u16,
    pub nametable_y: u16,
    pub fine_y: u16,
}

impl PpuRegister {
    /// The fields fit their widths.
    pub open spec fn fields_fit(self) -> bool {
        &&& self.coarse_x <= 0x1F
        &&& self.coarse_y <= 0x1F
        &&& self.nametable_x <= 1
        &&& self.nametable_y <= 1
        &&& self.fine_y <= 7
    }

    /// The register with its fields unpacked from its value.
    pub open spec fn with_subfields(self) -> Self {
        PpuRegister {
            coarse_x: self.value & 0x001F,
            coarse_y: (self.value >> 5) & 0x001F,
            nametable_x: (self.value >> 10) & 0x0001,
            nametable_y: (self.value >> 11) & 0x0001,
            fine_y: (self.value >> 12) & 0x0007,
            ..self
        }
    }

    /// The register with its value packed from its fields.
    pub open spec fn with_value(self) -> Self {
        PpuRegister {
            value: (self.coarse_x & 0x001F) | ((self.coarse_y & 0x001F) << 5) | ((
            self.nametable_x & 0x0001) << 10) | ((self.nametable_y & 0x0001) << 11) | ((
            self.fine_y & 0x0007) << 12),
            ..self
        }
    }

    pub fn new() -> (r: Self)
        ensures
            r == (PpuRegister {
                value: 0,
                coarse_x: 0,
                coarse_y: 0,
                nametable_x: 0,
                nametable_y: 0,
                fine_y: 0,
            }),
    {
        Self { value: 0, coarse_x: 0, coarse_y: 0, nametable_x: 0, nametable_y: 0, fine_y: 0 }
    }

    pub fn update_subfields(&mut self)
        ensures
            *final(self) == old(self).with_subfields(),
            final(self).fields_fit(),
    {
        proof {
            lemma_and_le_u16(self.value, 0x001F);
            lemma_and_le_u16(self.value >> 5, 0x001F);
            lemma_and_le_u16(self.value >> 10, 0x0001);
            lemma_and_le_u16(self.value >> 11, 0x0001);
            lemma_and_le_u16(self.value >> 12, 0x0007);
        }
        self.coarse_x = self.value & 0x001F;
        self.coarse_y = (self.value >> 5) & 0x001F;
        self.nametable_x = (self.value >> 10) & 0x0001;
        self.nametable_y = (self.value >> 11) & 0x0001;
        self.fine_y = (self.value >> 12) & 0x0007;
    }

    pub fn update_value(&mut self)
        ensures
            *final(self) == old(self).with_value(),
    {
        self.value = (self.coarse_x & 0x001F) | ((self.coarse_y & 0x001F) << 5) | ((
        self.nametable_x & 0x0001) << 10) | ((self.nametable_y & 0x0001) << 11) | ((self.fine_y
            & 0x0007) << 12);
    }
}

/// One entry of object attribute memory: a sprite's Y position, tile, attributes and X
/// position.
#[derive(Clone, Copy, Debug)]
pub struct ObjectAttributes {
    pub y: u8,
    pub id: u8,
    pub attr: u8,
    pub x: u8,
}

/// An empty sprite slot.
pub open spec fn no_sprite() -> ObjectAttributes {
    ObjectAttributes { y: 0xFF, id: 0xFF, attr: 0xFF, x: 0xFF }
}

impl ObjectAttributes {
    pub fn new() -> (r: Self)
        ensures
            r == no_sprite(),
    {
        Self { y: 0xFF, id: 0xFF, attr: 0xFF, x: 0xFF }
    }

    /// The sprite palette (4 to 7) the attribute byte selects.
    pub open spec fn spec_palette(self) -> u8 {
        ((self.attr & 0x03) + 0x04) as u8
    }

    pub fn palette(&self) -> (r: u8)
        ensures
            r == self.spec_palette(),
    {
        proof {
            lemma_and_le_u8(self.attr, 0x03);
        }
        (self.attr & 0x03) + 0x04
    }
}

/// The sprite whose four bytes start at `4 * index` in object attribute memory.
pub open spec fn oam_entry(oam: Seq<u8>, index: int) -> ObjectAttributes {
    ObjectAttributes {
        y: oam[4 * index],
        id: oam[4 * index + 1],
        attr: oam[4 * index + 2],
        x: oam[4 * index + 3],
    }
}

/// A frame of 256 by 240 pixels.
pub struct PixelBuffer {
    pixels: Vec<Color>,
}

impl View for PixelBuffer {
    type V = Seq<Color>;

    closed spec fn view(&self) -> Seq<Color> {
        self.pixels@
    }
}

impl PixelBuffer {
    /// A white frame.
    pub fn new() -> (r: Self)
        ensures
            r@ == Seq::new(SCREEN_PIXELS as nat, |i: int| white()),
    {
        let pixels = vec![Color::from_rgb(0xFF, 0xFF, 0xFF); SCREEN_PIXELS];
        let r = Self { pixels };
        assert(r@ =~= Seq::new(SCREEN_PIXELS as nat, |i: int| white()));
        r
    }

    pub fn set_pixel(&mut self, x: usize, y: usize, color: Color)
        requires
            old(self)@.len() == SCREEN_PIXELS,
            x < SCREEN_WIDTH,
            y < SCREEN_HEIGHT,
        ensures
            final(self)@ == old(self)@.update(y * SCREEN_WIDTH + x, color),
    {
        let index = (y * SCREEN_WIDTH) + x;
        self.pixels.set(index, color);
    }
}

impl VideoBuffer for PixelBuffer {
    open spec fn spec_width(&self) -> usize {
        SCREEN_WIDTH
    }

    open spec fn spec_height(&self) -> usize {
        SCREEN_HEIGHT
    }

    open spec fn spec_pixels(&self) -> Seq<Color> {
        self@
    }

    fn width(&self) -> (r: usize) {
        SCREEN_WIDTH
    }

    fn height(&self) -> (r: usize) {
        SCREEN_HEIGHT
    }

    fn get_pixels(&self) -> (r: &[Color]) {
        self.pixels.as_slice()
    }

    fn get_pixel(&self, x: usize, y: usize) -> (c: Color) {
        assert(self.pixels@.len() == self.pixels.len());
        let index = (y * SCREEN_WIDTH) + x;
        self.pixels[index]
    }
}


/// Abstract state of a [`PpuBus`].
pub struct PpuBusView {
    pub vram: VramView,
    pub palette: RamView,
    pub cartridge: Option<CartridgeView>,
}

/// The PPU's own bus: pattern tables on the cartridge at 0x0000-0x1FFF, name tables at
/// 0x2000-0x3EFF (4 KiB mirrored) and the 32-byte palette at 0x3F00-0x3FFF (mirrored).
pub struct PpuBus {
    vram: Vram,
    palette: Ram,
    cartridge: Option<Cartridge>,
}

/// The PPU bus that [`PpuBus::new`] builds: name tables at 0x2000, the palette at 0x3F00, no
/// cartridge.
pub open spec fn spec_new_ppu_bus() -> PpuBusView {
    PpuBusView {
        vram: spec_vram(0x2000),
        palette: spec_ram(PALETTE_SIZE, PALETTE_START),
        cartridge: None,
    }
}

/// The abstract state of an optional cartridge.
pub open spec fn cartridge_view(c: Option<Cartridge>) -> Option<CartridgeView> {
    match c {
        Some(c) => Some(c@),
        None => None,
    }
}

/// The mirroring in effect: none without a cartridge.
pub open spec fn cartridge_mirror(c: Option<CartridgeView>) -> Option<MirrorMode> {
    match c {
        Some(c) => Some(c.spec_mirror()),
        None => None,
    }
}

impl View for PpuBus {
    type V = PpuBusView;

    closed spec fn view(&self) -> PpuBusView {
        PpuBusView {
            vram: self.vram@,
            palette: self.palette@,
            cartridge: cartridge_view(self.cartridge),
        }
    }
}

/// First address of the palette.
pub const PALETTE_START: u16 = 0x3F00;

/// Size of the palette memory.
pub const PALETTE_SIZE: u16 = 0x20;

impl PpuBusView {
    pub open spec fn wf(self) -> bool {
        &&& self.vram.wf()
        &&& Ram::wf(self.palette)
        &&& self.palette.data.len() == PALETTE_SIZE
        &&& match self.cartridge {
            Some(c) => c.wf(),
            None => true,
        }
    }

    /// A read at a 14-bit PPU address.
    pub open spec fn read(self, addr: u16) -> u8 {
        if addr <= 0x1FFF {
            match self.cartridge {
                Some(c) => c.ppu_read_value(addr),
                None => 0,
            }
        } else if addr <= 0x3EFF {
            self.vram.read(cartridge_mirror(self.cartridge), ((addr - 0x2000) % 0x1000) as u16)
        } else {
            self.palette.data[(addr - PALETTE_START) % (PALETTE_SIZE as int)]
        }
    }

    /// The bus after a write at a 14-bit PPU address.
    pub open spec fn after_write(self, addr: u16, data: u8) -> Self {
        if addr <= 0x1FFF {
            match self.cartridge {
                Some(c) => PpuBusView { cartridge: Some(c.after_ppu_write(addr, data)), ..self },
                None => self,
            }
        } else if addr <= 0x3EFF {
            PpuBusView {
                vram: self.vram.after_write(
                    cartridge_mirror(self.cartridge),
                    ((addr - 0x2000) % 0x1000) as u16,
                    data,
                ),
                ..self
            }
        } else {
            PpuBusView {
                palette: Ram::after_write(
                    self.palette,
                    ((addr - PALETTE_START) % (PALETTE_SIZE as int)) as u16,
                    data,
                ),
                ..self
            }
        }
    }
}

impl PpuBus {
    pub fn new() -> (r: Self)
        ensures
            r@.wf(),
            r@.cartridge is None,
            r@ == spec_new_ppu_bus(),
    {
        Self { vram: Vram::new(0x2000), palette: Ram::new(PALETTE_SIZE, PALETTE_START), cartridge: None }
    }

    pub fn read(&self, addr: u16) -> (r: u8)
        requires
            self@.wf(),
            addr <= 0x3FFF,
        ensures
            r == self@.read(addr),
    {
        if addr <= 0x1FFF {
            match &self.cartridge {
                Some(c) => c.ppu_read(addr),
                None => 0,
            }
        } else if addr <= 0x3EFF {
            let mirror = match &self.cartridge {
                Some(c) => Some(c.mirror()),
                None => None,
            };
            self.vram.read(mirror, (addr - 0x2000) % 0x1000)
        } else {
            self.palette.peek((addr - PALETTE_START) % PALETTE_SIZE)
        }
    }

    pub fn write(&mut self, addr: u16, data: u8)
        requires
            old(self)@.wf(),
            addr <= 0x3FFF,
        ensures
            final(self)@.wf(),
            final(self)@ == old(self)@.after_write(addr, data),
    {
        if addr <= 0x1FFF {
            match &mut self.cartridge {
                Some(c) => c.ppu_write(addr, data),
                None => {},
            }
        } else if addr <= 0x3EFF {
            let mirror = match &self.cartridge {
                Some(c) => Some(c.mirror()),
                None => None,
            };
            self.vram.write(mirror, (addr - 0x2000) % 0x1000, data);
        } else {
            self.palette.write((addr - PALETTE_START) % PALETTE_SIZE, data);
        }
    }
}


/// Where a read of the palette goes: the 32 entries repeat from 0x3F00 to 0x3FFF, and
/// every fourth entry reads the shared background colour at 0x3F00.
pub open spec fn palette_read_address(addr: u16) -> u16 {
    if addr >= 0x3F00 {
        let a = addr & 0x001F;
        let a2 = if (a & 0x000F) % 4 == 0 {
            0
        } else {
            a
        };
        a2 | 0x3F00
    } else {
        addr
    }
}

/// Where a write of the palette goes: the 32 entries repeat from 0x3F00 to 0x3FFF, and
/// the background entries of the sprite palettes (0x3F10, 0x3F14, ...) are those of the
/// background palettes.
pub open spec fn palette_write_address(addr: u16) -> u16 {
    if addr >= 0x3F00 {
        let a = addr & 0x001F;
        let a2 = if (a & 0x000F) % 4 == 0 {
            a & 0x000F
        } else {
            a
        };
        a2 | 0x3F00
    } else {
        addr
    }
}

proof fn lemma_palette_address(addr: u16)
    by (bit_vector)
    ensures
        addr & 0x001F <= 0x1F,
        (addr & 0x001F) & 0x000F <= 0x0F,
        forall|a: u16| a <= 0x1F ==> #[trigger] (a | 0x3F00) <= 0x3F1F && (a | 0x3F00) >= 0x3F00,
{
}

/// The PPU's registers and internal latches, all of them plain numbers.
#[derive(Clone, Copy, Debug)]
pub struct PpuState {
    pub scanline: i16,
    pub cycle: u16,
    pub control: u8,
    pub mask: u8,
    pub status: u8,
    pub ppu_addr_latch: bool,
    pub ppu_data_buffer: u8,
    pub nmi: bool,
    pub vram_addr: PpuRegister,
    pub tram_addr: PpuRegister,
    pub fine_x: u8,
    pub bg_next_id: u8,
    pub bg_next_attr: u8,
    pub bg_next_lsb: u8,
    pub bg_next_msb: u8,
    pub bg_pattern_lo: u16,
    pub bg_pattern_hi: u16,
    pub bg_attr_lo: u16,
    pub bg_attr_hi: u16,
    pub oam_addr: u8,
    pub sprite_count: usize,
    pub allow_zero_hit: bool,
}

/// Abstract state of a [`Ppu2C02`].
#[verifier::ext_equal]
pub struct PpuView {
    pub range: AddressRange,
    pub bus: PpuBusView,
    pub regs: PpuState,
    pub oam: Seq<u8>,
    pub back: Seq<Color>,
    pub front: Seq<Color>,
    pub sprites: Seq<ObjectAttributes>,
    pub sprite_lo: Seq<u8>,
    pub sprite_hi: Seq<u8>,
}

/// The PPU that [`Ppu2C02::new`] builds: registers at `range_start` and the seven addresses
/// after, a fresh PPU bus, registers in their initial state, object memory of 0xFF bytes, no
/// sprites on the line, and both frames white.
pub open spec fn spec_new_ppu(range_start: u16) -> PpuView {
    PpuView {
        range: AddressRange { start: range_start, end: ((range_start + ADDR_MAX) % 0x10000) as u16 },
        bus: spec_new_ppu_bus(),
        regs: initial_regs(),
        oam: Seq::new(OAM_SIZE as nat, |i: int| 0xFFu8),
        back: Seq::new(SCREEN_PIXELS as nat, |i: int| white()),
        front: Seq::new(SCREEN_PIXELS as nat, |i: int| white()),
        sprites: Seq::new(SPRITES_PER_LINE as nat, |i: int| no_sprite()),
        sprite_lo: Seq::new(SPRITES_PER_LINE as nat, |i: int| 0u8),
        sprite_hi: Seq::new(SPRITES_PER_LINE as nat, |i: int| 0u8),
    }
}

/// The 2C02 picture processing unit.
pub struct Ppu2C02 {
    range: AddressRange,
    bus: PpuBus,
    regs: PpuState,
    oam: Vec<u8>,
    back_buffer: PixelBuffer,
    front_buffer: PixelBuffer,
    sprites_line: Vec<ObjectAttributes>,
    sprite_pattern_lo: Vec<u8>,
    sprite_pattern_hi: Vec<u8>,
}

impl View for Ppu2C02 {
    type V = PpuView;

    closed spec fn view(&self) -> PpuView {
        PpuView {
            range: self.range,
            bus: self.bus@,
            regs: self.regs,
            oam: self.oam@,
            back: self.back_buffer@,
            front: self.front_buffer@,
            sprites: self.sprites_line@,
            sprite_lo: self.sprite_pattern_lo@,
            sprite_hi: self.sprite_pattern_hi@,
        }
    }
}

/// Size of object attribute memory: 64 sprites of 4 bytes.
pub const OAM_SIZE: usize = 256;

/// Number of sprites a scanline can show.
pub const SPRITES_PER_LINE: usize = 8;

/// The PPU state at power-on and after a reset of the registers.
pub open spec fn initial_regs() -> PpuState {
    PpuState {
        scanline: 0,
        cycle: 0,
        control: 0,
        mask: 0,
        status: 0,
        ppu_addr_latch: false,
        ppu_data_buffer: 0,
        nmi: false,
        vram_addr: PpuRegister {
            value: 0,
            coarse_x: 0,
            coarse_y: 0,
            nametable_x: 0,
            nametable_y: 0,
            fine_y: 0,
        },
        tram_addr: PpuRegister {
            value: 0,
            coarse_x: 0,
            coarse_y: 0,
            nametable_x: 0,
            nametable_y: 0,
            fine_y: 0,
        },
        fine_x: 0,
        bg_next_id: 0,
        bg_next_attr: 0,
        bg_next_lsb: 0,
        bg_next_msb: 0,
        bg_pattern_lo: 0,
        bg_pattern_hi: 0,
        bg_attr_lo: 0,
        bg_attr_hi: 0,
        oam_addr: 0,
        sprite_count: 0,
        allow_zero_hit: false,
    }
}

/// Whether either background or sprite rendering is on.
pub open spec fn rendering_enabled(mask: u8) -> bool {
    mask & (MASK_RENDER_BACKGROUND | MASK_RENDER_SPRITES) != 0
}

/// How far the VRAM address moves after a data access: 32 (one row) or 1.
pub open spec fn vram_increment(control: u8) -> u16 {
    if control & CONTROL_INCREMENT_MODE != 0 {
        32
    } else {
        1
    }
}

impl PpuView {
    pub open spec fn wf(self) -> bool {
        &&& self.bus.wf()
        &&& self.oam.len() == OAM_SIZE
        &&& self.back.len() == SCREEN_PIXELS
        &&& self.front.len() == SCREEN_PIXELS
        &&& self.sprites.len() == SPRITES_PER_LINE
        &&& self.sprite_lo.len() == SPRITES_PER_LINE
        &&& self.sprite_hi.len() == SPRITES_PER_LINE
        &&& self.regs.sprite_count <= SPRITES_PER_LINE
        &&& self.regs.vram_addr.fields_fit()
        &&& self.regs.tram_addr.fields_fit()
        &&& -1 <= self.regs.scanline <= MAX_SCANLINE
        &&& self.regs.cycle <= MAX_CYCLE
        &&& self.regs.fine_x <= 7
    }

    pub open spec fn with_regs(self, regs: PpuState) -> Self {
        PpuView { regs, ..self }
    }

    /// A read on the PPU bus, through the palette's mirroring.
    pub open spec fn read_bus(self, addr: u16) -> u8 {
        self.bus.read(palette_read_address(addr & 0x3FFF))
    }

    /// A write on the PPU bus, through the palette's mirroring.
    pub open spec fn write_bus(self, addr: u16, data: u8) -> Self {
        PpuView { bus: self.bus.after_write(palette_write_address(addr & 0x3FFF), data), ..self }
    }

    /// The VRAM address after a data access: moved on by the increment, fields unpacked.
    pub open spec fn incremented_vram_addr(self) -> PpuRegister {
        PpuRegister {
            value: wrap16(self.regs.vram_addr.value + vram_increment(self.regs.control)),
            ..self.regs.vram_addr
        }.with_subfields()
    }

    /// What a CPU read of register `addr` (0 to 7) returns.
    pub open spec fn register_read_value(self, addr: u16) -> u8 {
        let r = self.regs;
        if addr == ADDR_STATUS {
            (r.status & 0xE0) | (r.ppu_data_buffer & 0x1F)
        } else if addr == ADDR_OAM_DATA {
            self.oam[r.oam_addr as int]
        } else if addr == ADDR_PPU_DATA {
            if r.vram_addr.value >= 0x3F00 {
                self.read_bus(r.vram_addr.value)
            } else {
                r.ppu_data_buffer
            }
        } else {
            0
        }
    }

    /// The PPU after a CPU read of register `addr`: reading the status clears the vertical
    /// blank flag and the address latch; reading data refills the read buffer and moves
    /// the VRAM address on.
    pub open spec fn after_register_read(self, addr: u16) -> Self {
        let r = self.regs;
        if addr == ADDR_STATUS {
            self.with_regs(
                PpuState { status: r.status & !STATUS_VERTICAL_BLANK, ppu_addr_latch: false, ..r },
            )
        } else if addr == ADDR_PPU_DATA {
            self.with_regs(
                PpuState {
                    ppu_data_buffer: self.read_bus(r.vram_addr.value),
                    vram_addr: self.incremented_vram_addr(),
                    ..r
                },
            )
        } else {
            self
        }
    }

    /// The PPU after a CPU write of `data` to register `addr` (0 to 7).
    pub open spec fn after_register_write(self, addr: u16, data: u8) -> Self {
        let r = self.regs;
        let t = r.tram_addr;
        if addr == ADDR_CONTROL {
            self.with_regs(
                PpuState {
                    control: data,
                    tram_addr: PpuRegister {
                        nametable_x: if data & CONTROL_NAMETABLE_X != 0 {
                            1
                        } else {
                            0
                        },
                        nametable_y: if data & CONTROL_NAMETABLE_Y != 0 {
                            1
                        } else {
                            0
                        },
                        ..t
                    }.with_value(),
                    ..r
                },
            )
        } else if addr == ADDR_MASK {
            self.with_regs(PpuState { mask: data, ..r })
        } else if addr == ADDR_OAM_ADDRESS {
            self.with_regs(PpuState { oam_addr: data, ..r })
        } else if addr == ADDR_OAM_DATA {
            PpuView { oam: self.oam.update(r.oam_addr as int, data), ..self }
        } else if addr == ADDR_SCROLL {
            if r.ppu_addr_latch {
                self.with_regs(
                    PpuState {
                        tram_addr: PpuRegister {
                            fine_y: (data & 0x07) as u16,
                            coarse_y: (data >> 3) as u16,
                            ..t
                        }.with_value(),
                        ppu_addr_latch: false,
                        ..r
                    },
                )
            } else {
                self.with_regs(
                    PpuState {
                        fine_x: data & 0x07,
                        tram_addr: PpuRegister { coarse_x: (data >> 3) as u16, ..t }.with_value(),
                        ppu_addr_latch: true,
                        ..r
                    },
                )
            }
        } else if addr == ADDR_PPU_ADDRESS {
            if r.ppu_addr_latch {
                let t2 = PpuRegister { value: (t.value & 0xFF00) | (data as u16), ..t }.with_subfields();
                self.with_regs(PpuState { tram_addr: t2, vram_addr: t2, ppu_addr_latch: false, ..r })
            } else {
                let t2 = PpuRegister {
                    value: (t.value & 0x00FF) | (((data & 0x3F) as u16) << 8),
                    ..t
                }.with_subfields();
                self.with_regs(PpuState { tram_addr: t2, ppu_addr_latch: true, ..r })
            }
        } else if addr == ADDR_PPU_DATA {
            let s1 = self.write_bus(r.vram_addr.value, data);
            s1.with_regs(PpuState { vram_addr: self.incremented_vram_addr(), ..r })
        } else {
            self
        }
    }
}


fn palette_read_address_of(addr: u16) -> (r: u16)
    requires
        addr <= 0x3FFF,
    ensures
        r == palette_read_address(addr),
        r <= 0x3FFF,
{
    proof {
        lemma_palette_address(addr);
    }
    if addr >= 0x3F00 {
        let mut a = addr & 0x001F;
        if (a & 0x000F) % 4 == 0 {
            a = 0;
        }
        a | 0x3F00
    } else {
        addr
    }
}

fn palette_write_address_of(addr: u16) -> (r: u16)
    requires
        addr <= 0x3FFF,
    ensures
        r == palette_write_address(addr),
        r <= 0x3FFF,
{
    proof {
        lemma_palette_address(addr);
    }
    if addr >= 0x3F00 {
        let mut a = addr & 0x001F;
        if (a & 0x000F) % 4 == 0 {
            a = a & 0x000F;
        }
        a | 0x3F00
    } else {
        addr
    }
}

impl Ppu2C02 {
    /// A PPU whose registers answer at `range_start` to `range_start + 7`, with its own bus
    /// (name tables and palette, no cartridge).
    pub fn new(range_start: u16) -> (r: Self)
        ensures
            r@.wf(),
            r@.range == (AddressRange {
                start: range_start,
                end: ((range_start + ADDR_MAX) % 0x10000) as u16,
            }),
            r@.regs == initial_regs(),
            r@.bus.cartridge is None,
            r@.oam == Seq::new(OAM_SIZE as nat, |i: int| 0xFFu8),
            r@.sprites == Seq::new(SPRITES_PER_LINE as nat, |i: int| no_sprite()),
            r@.sprite_lo == Seq::new(SPRITES_PER_LINE as nat, |i: int| 0u8),
            r@.sprite_hi == Seq::new(SPRITES_PER_LINE as nat, |i: int| 0u8),
            r@.back == Seq::new(SCREEN_PIXELS as nat, |i: int| white()),
            r@.front == Seq::new(SCREEN_PIXELS as nat, |i: int| white()),
            r@ == spec_new_ppu(range_start),
    {
        let r = Self {
            range: AddressRange::new(range_start, range_start.wrapping_add(ADDR_MAX)),
            bus: PpuBus::new(),
            regs: PpuState {
                scanline: 0,
                cycle: 0,
                control: 0,
                mask: 0,
                status: 0,
                ppu_addr_latch: false,
                ppu_data_buffer: 0,
                nmi: false,
                vram_addr: PpuRegister::new(),
                tram_addr: PpuRegister::new(),
                fine_x: 0,
                bg_next_id: 0,
                bg_next_attr: 0,
                bg_next_lsb: 0,
                bg_next_msb: 0,
                bg_pattern_lo: 0,
                bg_pattern_hi: 0,
                bg_attr_lo: 0,
                bg_attr_hi: 0,
                oam_addr: 0,
                sprite_count: 0,
                allow_zero_hit: false,
            },
            oam: vec![0xFFu8; OAM_SIZE],
            back_buffer: PixelBuffer::new(),
            front_buffer: PixelBuffer::new(),
            sprites_line: vec![ObjectAttributes::new(); SPRITES_PER_LINE],
            sprite_pattern_lo: vec![0u8; SPRITES_PER_LINE],
            sprite_pattern_hi: vec![0u8; SPRITES_PER_LINE],
        };
        assert(r@.oam =~= Seq::new(OAM_SIZE as nat, |i: int| 0xFFu8));
        assert(r@.sprites =~= Seq::new(SPRITES_PER_LINE as nat, |i: int| no_sprite()));
        assert(r@.sprite_lo =~= Seq::new(SPRITES_PER_LINE as nat, |i: int| 0u8));
        assert(r@.sprite_hi =~= Seq::new(SPRITES_PER_LINE as nat, |i: int| 0u8));
        r
    }

    /// The CPU addresses at which the registers answer.
    pub fn range(&self) -> (r: AddressRange)
        ensures
            r == self@.range,
    {
        self.range
    }

    /// Whether a non-maskable interrupt is pending; taking it clears it.
    pub fn check_nmi(&mut self) -> (r: bool)
        ensures
            r == old(self)@.regs.nmi,
            final(self)@ == old(self)@.with_regs(PpuState { nmi: false, ..old(self)@.regs }),
    {
        let tmp = self.regs.nmi;
        self.regs.nmi = false;
        tmp
    }

    /// Inserts a cartridge; its pattern tables and mirroring are then in use.
    pub fn set_cartridge(&mut self, cartridge: Cartridge)
        requires
            cartridge@.wf(),
        ensures
            final(self)@ == (PpuView {
                bus: PpuBusView { cartridge: Some(cartridge@), ..old(self)@.bus },
                ..old(self)@
            }),
    {
        self.bus.cartridge = Some(cartridge);
    }

    /// Takes the cartridge out, and hands it back.
    pub fn remove_cartridge(&mut self) -> (r: Option<Cartridge>)
        ensures
            cartridge_view(r) == old(self)@.bus.cartridge,
            final(self)@ == (PpuView {
                bus: PpuBusView { cartridge: None, ..old(self)@.bus },
                ..old(self)@
            }),
    {
        self.bus.cartridge.take()
    }

    /// The inserted cartridge, if any.
    pub fn cartridge(&self) -> (r: &Option<Cartridge>)
        ensures
            cartridge_view(*r) == self@.bus.cartridge,
    {
        &self.bus.cartridge
    }

    /// Writes one byte of object attribute memory, as sprite DMA does.
    pub fn dma_write(&mut self, addr: u8, data: u8)
        requires
            old(self)@.wf(),
        ensures
            final(self)@.wf(),
            final(self)@ == (PpuView { oam: old(self)@.oam.update(addr as int, data), ..old(self)@ }),
    {
        self.oam.set(addr as usize, data);
    }

    /// The frame shown last.
    pub fn get_buffer(&self) -> (r: &PixelBuffer)
        ensures
            r@ == self@.front,
    {
        &self.front_buffer
    }

    fn read_bus(&self, addr: u16) -> (r: u8)
        requires
            self@.wf(),
        ensures
            r == self@.read_bus(addr),
    {
        proof {
            lemma_and_le_u16(addr, 0x3FFF);
        }
        let a = palette_read_address_of(addr & 0x3FFF);
        self.bus.read(a)
    }

    fn write_bus(&mut self, addr: u16, data: u8)
        requires
            old(self)@.wf(),
        ensures
            final(self)@.wf(),
            final(self)@ == old(self)@.write_bus(addr, data),
    {
        proof {
            lemma_and_le_u16(addr, 0x3FFF);
        }
        let a = palette_write_address_of(addr & 0x3FFF);
        self.bus.write(a, data);
    }

    fn increment_vram_addr(&mut self)
        requires
            old(self)@.wf(),
        ensures
            final(self)@.wf(),
            final(self)@ == old(self)@.with_regs(
                PpuState { vram_addr: old(self)@.incremented_vram_addr(), ..old(self)@.regs },
            ),
    {
        let inc: u16 = if (self.regs.control & CONTROL_INCREMENT_MODE) != 0 {
            32
        } else {
            1
        };
        proof {
            broadcast use group_wrapping;

        }
        self.regs.vram_addr.value = self.regs.vram_addr.value.wrapping_add(inc);
        self.regs.vram_addr.update_subfields();
    }

    /// A CPU read of register `addr` (relative to the first register).
    pub fn read(&mut self, addr: u16) -> (r: u8)
        requires
            old(self)@.wf(),
        ensures
            final(self)@.wf(),
            r == old(self)@.register_read_value(addr),
            final(self)@ == old(self)@.after_register_read(addr),
    {
        if addr == ADDR_STATUS {
            // The unused bits hold the last buffered data on real hardware
            let tmp = (self.regs.status & 0xE0) | (self.regs.ppu_data_buffer & 0x1F);
            self.regs.status = self.regs.status & !STATUS_VERTICAL_BLANK;
            self.regs.ppu_addr_latch = false;
            tmp
        } else if addr == ADDR_OAM_DATA {
            self.oam[self.regs.oam_addr as usize]
        } else if addr == ADDR_PPU_DATA {
            // Everything except palette data is buffered by one read
            let mut tmp = self.regs.ppu_data_buffer;
            self.regs.ppu_data_buffer = self.read_bus(self.regs.vram_addr.value);
            if self.regs.vram_addr.value >= 0x3F00 {
                tmp = self.regs.ppu_data_buffer;
            }
            self.increment_vram_addr();
            tmp
        } else {
            0
        }
    }

    /// A CPU write of `data` to register `addr` (relative to the first register).
    pub fn write(&mut self, addr: u16, data: u8)
        requires
            old(self)@.wf(),
        ensures
            final(self)@.wf(),
            final(self)@ == old(self)@.after_register_write(addr, data),
    {
        if addr == ADDR_CONTROL {
            self.regs.control = data;
            self.regs.tram_addr.nametable_x = if (data & CONTROL_NAMETABLE_X) != 0 {
                1
            } else {
                0
            };
            self.regs.tram_addr.nametable_y = if (data & CONTROL_NAMETABLE_Y) != 0 {
                1
            } else {
                0
            };
            self.regs.tram_addr.update_value();
        } else if addr == ADDR_MASK {
            self.regs.mask = data;
        } else if addr == ADDR_OAM_ADDRESS {
            self.regs.oam_addr = data;
        } else if addr == ADDR_OAM_DATA {
            self.oam.set(self.regs.oam_addr as usize, data);
        } else if addr == ADDR_SCROLL {
            proof {
                lemma_and_le_u8(data, 0x07);
                lemma_byte_shifts(data);
            }
            if self.regs.ppu_addr_latch {
                self.regs.tram_addr.fine_y = (data & 0x07) as u16;
                self.regs.tram_addr.coarse_y = (data >> 3) as u16;
            } else {
                self.regs.fine_x = data & 0x07;
                self.regs.tram_addr.coarse_x = (data >> 3) as u16;
            }
            self.regs.tram_addr.update_value();
            self.regs.ppu_addr_latch = !self.regs.ppu_addr_latch;
        } else if addr == ADDR_PPU_ADDRESS {
            if self.regs.ppu_addr_latch {
                self.regs.tram_addr.value = (self.regs.tram_addr.value & 0xFF00) | (data as u16);
                self.regs.tram_addr.update_subfields();
                self.regs.vram_addr = self.regs.tram_addr;
            } else {
                self.regs.tram_addr.value = (self.regs.tram_addr.value & 0x00FF) | (((data & 0x3F)
                    as u16) << 8);
                self.regs.tram_addr.update_subfields();
            }
            self.regs.ppu_addr_latch = !self.regs.ppu_addr_latch;
        } else if addr == ADDR_PPU_DATA {
            self.write_bus(self.regs.vram_addr.value, data);
            self.increment_vram_addr();
        }
        assert(self@ =~= old(self)@.after_register_write(addr, data));
    }
}

/// The high bits of a byte fit the register fields they are written to.
proof fn lemma_byte_shifts(x: u8)
    by (bit_vector)
    ensures
        x >> 3 <= 0x1F,
        x >> 4 <= 0x0F,
{
}


/// One pixel to the right: coarse X counts up, wrapping into the next name table.
pub open spec fn spec_inc_x(s: PpuView) -> PpuView {
    if rendering_enabled(s.regs.mask) {
        let v = s.regs.vram_addr;
        let v1 = if v.coarse_x == 31 {
            PpuRegister { coarse_x: 0, nametable_x: !v.nametable_x & 0x0001, ..v }
        } else {
            PpuRegister { coarse_x: (v.coarse_x + 1) as u16, ..v }
        };
        s.with_regs(PpuState { vram_addr: v1.with_value(), ..s.regs })
    } else {
        s
    }
}

/// One pixel down: fine Y counts up, then coarse Y, wrapping after row 29 into the next
/// name table (and after row 31, in the attribute area, into the same one).
pub open spec fn spec_inc_y(s: PpuView) -> PpuView {
    if rendering_enabled(s.regs.mask) {
        let v = s.regs.vram_addr;
        let v1 = if v.fine_y < 7 {
            PpuRegister { fine_y: (v.fine_y + 1) as u16, ..v }
        } else if v.coarse_y == 29 {
            PpuRegister { fine_y: 0, coarse_y: 0, nametable_y: !v.nametable_y & 0x0001, ..v }
        } else if v.coarse_y == 31 {
            PpuRegister { fine_y: 0, coarse_y: 0, ..v }
        } else {
            PpuRegister { fine_y: 0, coarse_y: (v.coarse_y + 1) as u16, ..v }
        };
        s.with_regs(PpuState { vram_addr: v1.with_value(), ..s.regs })
    } else {
        s
    }
}

/// The horizontal scroll copied from the temporary address into the VRAM address.
pub open spec fn spec_trans_x(s: PpuView) -> PpuView {
    if rendering_enabled(s.regs.mask) {
        let v = s.regs.vram_addr;
        let t = s.regs.tram_addr;
        s.with_regs(
            PpuState {
                vram_addr: PpuRegister {
                    nametable_x: t.nametable_x,
                    coarse_x: t.coarse_x,
                    ..v
                }.with_value(),
                ..s.regs
            },
        )
    } else {
        s
    }
}

/// The vertical scroll copied from the temporary address into the VRAM address.
pub open spec fn spec_trans_y(s: PpuView) -> PpuView {
    if rendering_enabled(s.regs.mask) {
        let v = s.regs.vram_addr;
        let t = s.regs.tram_addr;
        s.with_regs(
            PpuState {
                vram_addr: PpuRegister {
                    fine_y: t.fine_y,
                    nametable_y: t.nametable_y,
                    coarse_y: t.coarse_y,
                    ..v
                }.with_value(),
                ..s.regs
            },
        )
    } else {
        s
    }
}

/// The next tile's pattern and attribute bits loaded into the low bytes of the
/// background shifters.
pub open spec fn spec_load_shifters(s: PpuView) -> PpuView {
    let r = s.regs;
    s.with_regs(
        PpuState {
            bg_pattern_lo: (r.bg_pattern_lo & 0xFF00) | (r.bg_next_lsb as u16),
            bg_pattern_hi: (r.bg_pattern_hi & 0xFF00) | (r.bg_next_msb as u16),
            bg_attr_lo: (r.bg_attr_lo & 0xFF00) | (if r.bg_next_attr & 0x01 != 0 {
                0x00FFu16
            } else {
                0x0000u16
            }),
            bg_attr_hi: (r.bg_attr_hi & 0xFF00) | (if r.bg_next_attr & 0x02 != 0 {
                0x00FFu16
            } else {
                0x0000u16
            }),
            ..r
        },
    )
}

/// The shifters moved on by one pixel: the background ones when the background is drawn;
/// on visible dots with sprites drawn, each sprite on the line counts its X down to 0 and
/// then shifts its pattern.
pub open spec fn spec_update_shifters(s: PpuView) -> PpuView {
    let r = s.regs;
    let r1 = if r.mask & MASK_RENDER_BACKGROUND != 0 {
        PpuState {
            bg_pattern_lo: r.bg_pattern_lo << 1,
            bg_pattern_hi: r.bg_pattern_hi << 1,
            bg_attr_lo: r.bg_attr_lo << 1,
            bg_attr_hi: r.bg_attr_hi << 1,
            ..r
        }
    } else {
        r
    };
    if r.cycle < 258 && r.mask & MASK_RENDER_SPRITES != 0 {
        PpuView {
            regs: r1,
            sprites: Seq::new(
                s.sprites.len(),
                |i: int|
                    if i < r.sprite_count && s.sprites[i].x > 0 {
                        ObjectAttributes { x: (s.sprites[i].x - 1) as u8, ..s.sprites[i] }
                    } else {
                        s.sprites[i]
                    },
            ),
            sprite_lo: Seq::new(
                s.sprite_lo.len(),
                |i: int|
                    if i < r.sprite_count && s.sprites[i].x == 0 {
                        s.sprite_lo[i] << 1
                    } else {
                        s.sprite_lo[i]
                    },
            ),
            sprite_hi: Seq::new(
                s.sprite_hi.len(),
                |i: int|
                    if i < r.sprite_count && s.sprites[i].x == 0 {
                        s.sprite_hi[i] << 1
                    } else {
                        s.sprite_hi[i]
                    },
            ),
            ..s
        }
    } else {
        s.with_regs(r1)
    }
}

impl Ppu2C02 {
    fn inc_x(&mut self)
        requires
            old(self)@.wf(),
        ensures
            final(self)@.wf(),
            final(self)@ == spec_inc_x(old(self)@),
    {
        if (self.regs.mask & (MASK_RENDER_BACKGROUND | MASK_RENDER_SPRITES)) != 0 {
            if self.regs.vram_addr.coarse_x == 31 {
                self.regs.vram_addr.coarse_x = 0;
                proof {
                    lemma_and_le_u16(!self.regs.vram_addr.nametable_x, 0x0001);
                }
                self.regs.vram_addr.nametable_x = !self.regs.vram_addr.nametable_x & 0x0001;
            } else {
                self.regs.vram_addr.coarse_x = self.regs.vram_addr.coarse_x + 1;
            }
            self.regs.vram_addr.update_value();
        }
        assert(self@ =~= spec_inc_x(old(self)@));
    }

    fn inc_y(&mut self)
        requires
            old(self)@.wf(),
        ensures
            final(self)@.wf(),
            final(self)@ == spec_inc_y(old(self)@),
    {
        if (self.regs.mask & (MASK_RENDER_BACKGROUND | MASK_RENDER_SPRITES)) != 0 {
            if self.regs.vram_addr.fine_y < 7 {
                self.regs.vram_addr.fine_y = self.regs.vram_addr.fine_y + 1;
            } else {
                self.regs.vram_addr.fine_y = 0;
                if self.regs.vram_addr.coarse_y == 29 {
                    self.regs.vram_addr.coarse_y = 0;
                    proof {
                        lemma_and_le_u16(!self.regs.vram_addr.nametable_y, 0x0001);
                    }
                    self.regs.vram_addr.nametable_y = !self.regs.vram_addr.nametable_y & 0x0001;
                } else if self.regs.vram_addr.coarse_y == 31 {
                    self.regs.vram_addr.coarse_y = 0;
                } else {
                    self.regs.vram_addr.coarse_y = self.regs.vram_addr.coarse_y + 1;
                }
            }
            self.regs.vram_addr.update_value();
        }
        assert(self@ =~= spec_inc_y(old(self)@));
    }

    fn trans_x(&mut self)
        requires
            old(self)@.wf(),
        ensures
            final(self)@.wf(),
            final(self)@ == spec_trans_x(old(self)@),
    {
        if (self.regs.mask & (MASK_RENDER_BACKGROUND | MASK_RENDER_SPRITES)) != 0 {
            self.regs.vram_addr.nametable_x = self.regs.tram_addr.nametable_x;
            self.regs.vram_addr.coarse_x = self.regs.tram_addr.coarse_x;
            self.regs.vram_addr.update_value();
        }
        assert(self@ =~= spec_trans_x(old(self)@));
    }

    fn trans_y(&mut self)
        requires
            old(self)@.wf(),
        ensures
            final(self)@.wf(),
            final(self)@ == spec_trans_y(old(self)@),
    {
        if (self.regs.mask & (MASK_RENDER_BACKGROUND | MASK_RENDER_SPRITES)) != 0 {
            self.regs.vram_addr.fine_y = self.regs.tram_addr.fine_y;
            self.regs.vram_addr.nametable_y = self.regs.tram_addr.nametable_y;
            self.regs.vram_addr.coarse_y = self.regs.tram_addr.coarse_y;
            self.regs.vram_addr.update_value();
        }
        assert(self@ =~= spec_trans_y(old(self)@));
    }

    fn load_shifters(&mut self)
        requires
            old(self)@.wf(),
        ensures
            final(self)@.wf(),
            final(self)@ == spec_load_shifters(old(self)@),
    {
        self.regs.bg_pattern_lo = (self.regs.bg_pattern_lo & 0xFF00) | (
        self.regs.bg_next_lsb as u16);
        self.regs.bg_pattern_hi = (self.regs.bg_pattern_hi & 0xFF00) | (
        self.regs.bg_next_msb as u16);
        self.regs.bg_attr_lo = (self.regs.bg_attr_lo & 0xFF00) | (if (self.regs.bg_next_attr & 0x01)
            != 0 {
            0x00FFu16
        } else {
            0x0000u16
        });
        self.regs.bg_attr_hi = (self.regs.bg_attr_hi & 0xFF00) | (if (self.regs.bg_next_attr & 0x02)
            != 0 {
            0x00FFu16
        } else {
            0x0000u16
        });
        assert(self@ =~= spec_load_shifters(old(self)@));
    }

    fn update_shifters(&mut self)
        requires
            old(self)@.wf(),
        ensures
            final(self)@.wf(),
            final(self)@ == spec_update_shifters(old(self)@),
    {
        if (self.regs.mask & MASK_RENDER_BACKGROUND) != 0 {
            self.regs.bg_pattern_lo = self.regs.bg_pattern_lo << 1;
            self.regs.bg_pattern_hi = self.regs.bg_pattern_hi << 1;
            self.regs.bg_attr_lo = self.regs.bg_attr_lo << 1;
            self.regs.bg_attr_hi = self.regs.bg_attr_hi << 1;
        }
        if (self.regs.cycle < 258) && ((self.regs.mask & MASK_RENDER_SPRITES) != 0) {
            let ghost s0 = old(self)@;
            let ghost r1 = self.regs;
            let mut i: usize = 0;
            while i < self.regs.sprite_count
                invariant
                    s0 == old(self)@,
                    self.regs == r1,
                    s0.wf(),
                    self.regs.sprite_count == s0.regs.sprite_count,
                    0 <= i <= self.regs.sprite_count,
                    self@.bus == s0.bus,
                    self@.oam == s0.oam,
                    self@.back == s0.back,
                    self@.front == s0.front,
                    self@.range == s0.range,
                    self@.sprites.len() == 8,
                    self@.sprite_lo.len() == 8,
                    self@.sprite_hi.len() == 8,
                    forall|j: int|
                        0 <= j < 8 ==> #[trigger] self@.sprites[j] == (if j < i
                            && s0.sprites[j].x > 0 {
                            ObjectAttributes { x: (s0.sprites[j].x - 1) as u8, ..s0.sprites[j] }
                        } else {
                            s0.sprites[j]
                        }),
                    forall|j: int|
                        0 <= j < 8 ==> #[trigger] self@.sprite_lo[j] == (if j < i
                            && s0.sprites[j].x == 0 {
                            s0.sprite_lo[j] << 1
                        } else {
                            s0.sprite_lo[j]
                        }),
                    forall|j: int|
                        0 <= j < 8 ==> #[trigger] self@.sprite_hi[j] == (if j < i
                            && s0.sprites[j].x == 0 {
                            s0.sprite_hi[j] << 1
                        } else {
                            s0.sprite_hi[j]
                        }),
                decreases self.regs.sprite_count - i,
            {
                let sprite = self.sprites_line[i];
                if sprite.x > 0 {
                    self.sprites_line.set(i, ObjectAttributes { x: sprite.x - 1, ..sprite });
                } else {
                    let lo = self.sprite_pattern_lo[i];
                    let hi = self.sprite_pattern_hi[i];
                    self.sprite_pattern_lo.set(i, lo << 1);
                    self.sprite_pattern_hi.set(i, hi << 1);
                }
                i = i + 1;
            }
        }
        assert(self@ =~= spec_update_shifters(old(self)@));
    }
}


proof fn lemma_fetch_addresses(value: u16, cx: u16, cy: u16, nx: u16, ny: u16, id: u8)
    by (bit_vector)
    requires
        cx <= 31,
        cy <= 31,
        nx <= 1,
        ny <= 1,
    ensures
        (0x2000u16 | (value & 0x0FFFu16)) <= 0x2FFF,
        (0x23C0u16 | (ny << 11u16) | (nx << 10u16) | ((cy >> 2u16) << 3u16) | (cx >> 2u16))
            <= 0x2FFF,
        ((id as u16) << 4u16) <= 0x0FF0,
        (((id & 0x01u8) as u16) << 12u16) == 0 || (((id & 0x01u8) as u16) << 12u16) == 0x1000,
        ((id & 0xFEu8) as u16) <= 0xFE,
{
}

proof fn lemma_sprite_row_address(p: u16, c: u16, r: u16)
    by (bit_vector)
    requires
        p == 0 || p == 0x1000,
        c <= 0xFF,
        r <= 7,
    ensures
        (p | (c << 4u16) | r) <= 0x1FF7,
{
}

/// The next background tile fetch, by dot within the 8-dot tile: name-table byte,
/// attribute bits, low and high pattern bytes, then one tile to the right.
pub open spec fn spec_load_background(s: PpuView) -> PpuView {
    let r = s.regs;
    let v = r.vram_addr;
    let phase = (r.cycle - 1) % 8;
    let pattern_base: u16 = if r.control & CONTROL_PATTERN_BACKGROUND != 0 {
        0x1000
    } else {
        0
    };
    if phase == 0 {
        let s1 = spec_load_shifters(s);
        s1.with_regs(
            PpuState { bg_next_id: s1.read_bus(0x2000 | (v.value & 0x0FFF)), ..s1.regs },
        )
    } else if phase == 2 {
        let raw = s.read_bus(
            0x23C0 | (v.nametable_y << 11) | (v.nametable_x << 10) | ((v.coarse_y >> 2) << 3) | (
            v.coarse_x >> 2),
        );
        let a1 = if v.coarse_y & 0x02 != 0 {
            raw >> 4
        } else {
            raw
        };
        let a2 = if v.coarse_x & 0x02 != 0 {
            a1 >> 2
        } else {
            a1
        };
        s.with_regs(PpuState { bg_next_attr: a2 & 0x03, ..r })
    } else if phase == 4 {
        let addr = (pattern_base + ((r.bg_next_id as u16) << 4) + v.fine_y) as u16;
        s.with_regs(PpuState { bg_next_lsb: s.read_bus(addr), ..r })
    } else if phase == 6 {
        let addr = (pattern_base + ((r.bg_next_id as u16) << 4) + v.fine_y + 8) as u16;
        s.with_regs(PpuState { bg_next_msb: s.read_bus(addr), ..r })
    } else if phase == 7 {
        spec_inc_x(s)
    } else {
        s
    }
}

/// The address of the pattern row of `sprite` on the current scanline: 8x8 sprites take
/// their table from the control register, 8x16 sprites from bit 0 of the tile number and
/// use two consecutive tiles; vertical flipping counts rows from the bottom.
pub open spec fn sprite_address(r: PpuState, sprite: ObjectAttributes) -> u16 {
    let row = (((r.scanline as u16) - (sprite.y as u16)) as u16) & 0x07;
    let flip_vert = sprite.attr & SPRITE_FLIP_VERT != 0;
    if r.control & CONTROL_SPRITE_SIZE != 0 {
        let pattern = ((sprite.id & 0x01) as u16) << 12;
        let top = r.scanline - (sprite.y as i16) < 8;
        let tile = (sprite.id & 0xFE) as u16;
        if flip_vert {
            if top {
                pattern | (((tile + 1) as u16) << 4) | ((7 - row) as u16)
            } else {
                pattern | (tile << 4) | ((7 - row) as u16)
            }
        } else {
            if top {
                pattern | (tile << 4) | row
            } else {
                pattern | (((tile + 1) as u16) << 4) | row
            }
        }
    } else {
        let pattern: u16 = if r.control & CONTROL_PATTERN_SPRITE != 0 {
            0x1000
        } else {
            0
        };
        let cell = (sprite.id as u16) << 4;
        if flip_vert {
            pattern | cell | ((7 - row) as u16)
        } else {
            pattern | cell | row
        }
    }
}

impl Ppu2C02 {
    fn load_background_data(&mut self)
        requires
            old(self)@.wf(),
            old(self)@.regs.cycle >= 1,
        ensures
            final(self)@.wf(),
            final(self)@ == spec_load_background(old(self)@),
    {
        let v = self.regs.vram_addr;
        proof {
            lemma_fetch_addresses(
                v.value,
                v.coarse_x,
                v.coarse_y,
                v.nametable_x,
                v.nametable_y,
                self.regs.bg_next_id,
            );
        }
        let phase = (self.regs.cycle - 1) % 8;
        let pattern_base: u16 = if (self.regs.control & CONTROL_PATTERN_BACKGROUND) != 0 {
            0x1000
        } else {
            0
        };
        if phase == 0 {
            self.load_shifters();
            self.regs.bg_next_id = self.read_bus(0x2000 | (self.regs.vram_addr.value & 0x0FFF));
        } else if phase == 2 {
            let mut attr = self.read_bus(
                0x23C0 | (v.nametable_y << 11) | (v.nametable_x << 10) | ((v.coarse_y >> 2) << 3)
                    | (v.coarse_x >> 2),
            );
            if (v.coarse_y & 0x02) != 0 {
                attr = attr >> 4;
            }
            if (v.coarse_x & 0x02) != 0 {
                attr = attr >> 2;
            }
            self.regs.bg_next_attr = attr & 0x03;
        } else if phase == 4 {
            let addr = pattern_base + ((self.regs.bg_next_id as u16) << 4) + v.fine_y;
            self.regs.bg_next_lsb = self.read_bus(addr);
        } else if phase == 6 {
            let addr = pattern_base + ((self.regs.bg_next_id as u16) << 4) + v.fine_y + 8;
            self.regs.bg_next_msb = self.read_bus(addr);
        } else if phase == 7 {
            self.inc_x();
        }
        assert(self@ =~= spec_load_background(old(self)@));
    }

    fn get_sprite_addr(&self, sprite: ObjectAttributes) -> (r: u16)
        requires
            0 <= self@.regs.scanline,
            sprite.y <= self@.regs.scanline,
        ensures
            r == sprite_address(self@.regs, sprite),
            r <= 0x1FF7,
    {
        let scanline = self.regs.scanline;
        let diff = (scanline as u16) - (sprite.y as u16);
        let row = diff & 0x07;
        proof {
            lemma_and_le_u16(diff, 0x07);
            lemma_fetch_addresses(0, 0, 0, 0, 0, sprite.id);
        }
        let flip_vert = (sprite.attr & SPRITE_FLIP_VERT) != 0;
        if (self.regs.control & CONTROL_SPRITE_SIZE) != 0 {
            // 8x16 sprites
            let pattern = ((sprite.id & 0x01) as u16) << 12;
            let top = (scanline - (sprite.y as i16)) < 8;
            let tile = (sprite.id & 0xFE) as u16;
            proof {
                lemma_sprite_row_address(pattern, tile, row);
                lemma_sprite_row_address(pattern, (tile + 1) as u16, row);
                lemma_sprite_row_address(pattern, tile, (7 - row) as u16);
                lemma_sprite_row_address(pattern, (tile + 1) as u16, (7 - row) as u16);
            }
            if flip_vert {
                if top {
                    pattern | ((tile + 1) << 4) | (7 - row)
                } else {
                    pattern | (tile << 4) | (7 - row)
                }
            } else {
                if top {
                    pattern | (tile << 4) | row
                } else {
                    pattern | ((tile + 1) << 4) | row
                }
            }
        } else {
            // 8x8 sprites
            let pattern: u16 = if (self.regs.control & CONTROL_PATTERN_SPRITE) != 0 {
                0x1000
            } else {
                0
            };
            let cell = (sprite.id as u16) << 4;
            proof {
                lemma_sprite_row_address(pattern, sprite.id as u16, row);
                lemma_sprite_row_address(pattern, sprite.id as u16, (7 - row) as u16);
            }
            if flip_vert {
                pattern | cell | (7 - row)
            } else {
                pattern | cell | row
            }
        }
    }
}


/// The outcome of scanning object attribute memory for the sprites on a scanline.
pub struct SpriteEval {
    pub sprites: Seq<ObjectAttributes>,
    pub count: usize,
    pub zero_hit: bool,
    pub overflow: bool,
}

/// Whether `sprite` covers `scanline`, for sprites `height` rows tall.
pub open spec fn on_scanline(sprite: ObjectAttributes, scanline: i16, height: i16) -> bool {
    0 <= scanline - sprite.y < height
}

/// The first `n` sprites of object attribute memory scanned for `scanline`: the first
/// eight that cover it are taken in order, sprite 0 among them enables the sprite-zero
/// hit, and a ninth sets the overflow flag.
pub open spec fn sprite_eval(oam: Seq<u8>, scanline: i16, height: i16, n: nat) -> SpriteEval
    decreases n,
{
    if n == 0 {
        SpriteEval {
            sprites: Seq::new(SPRITES_PER_LINE as nat, |i: int| no_sprite()),
            count: 0,
            zero_hit: false,
            overflow: false,
        }
    } else {
        let prev = sprite_eval(oam, scanline, height, (n - 1) as nat);
        let sprite = oam_entry(oam, n - 1);
        if on_scanline(sprite, scanline, height) {
            if prev.count < 8 {
                SpriteEval {
                    sprites: prev.sprites.update(prev.count as int, sprite),
                    count: (prev.count + 1) as usize,
                    zero_hit: prev.zero_hit || n - 1 == 0,
                    overflow: prev.overflow,
                }
            } else {
                SpriteEval { overflow: true, ..prev }
            }
        } else {
            prev
        }
    }
}

proof fn lemma_sprite_eval(oam: Seq<u8>, scanline: i16, height: i16, n: nat)
    ensures
        sprite_eval(oam, scanline, height, n).count <= 8,
        sprite_eval(oam, scanline, height, n).sprites.len() == 8,
        forall|i: int|
            0 <= i < sprite_eval(oam, scanline, height, n).count ==> on_scanline(
                #[trigger] sprite_eval(oam, scanline, height, n).sprites[i],
                scanline,
                height,
            ),
    decreases n,
{
    if n > 0 {
        lemma_sprite_eval(oam, scanline, height, (n - 1) as nat);
    }
}

/// The two pattern bytes of `sprite`'s row on the current scanline, mirrored when the
/// sprite is flipped horizontally.
pub open spec fn sprite_row(s: PpuView, sprite: ObjectAttributes) -> (u8, u8) {
    let addr = sprite_address(s.regs, sprite);
    let lo = s.read_bus(addr);
    let hi = s.read_bus((addr + 8) as u16);
    if sprite.attr & SPRITE_FLIP_HOR != 0 {
        (flipped(lo), flipped(hi))
    } else {
        (lo, hi)
    }
}

/// Sprite height from the control register.
pub open spec fn sprite_height(control: u8) -> i16 {
    if control & CONTROL_SPRITE_SIZE != 0 {
        16
    } else {
        8
    }
}

/// At the last dot of a visible line, the sprites for the next line are found and their
/// pattern rows fetched.
pub open spec fn spec_load_foreground(s: PpuView) -> PpuView {
    if s.regs.cycle == MAX_CYCLE && s.regs.scanline >= 0 {
        let ev = sprite_eval(s.oam, s.regs.scanline, sprite_height(s.regs.control), 64);
        let s1 = PpuView {
            regs: PpuState {
                sprite_count: ev.count,
                allow_zero_hit: ev.zero_hit,
                status: if ev.overflow {
                    s.regs.status | STATUS_SPRITE_OVERFLOW
                } else {
                    s.regs.status
                },
                ..s.regs
            },
            sprites: ev.sprites,
            ..s
        };
        PpuView {
            sprite_lo: Seq::new(
                SPRITES_PER_LINE as nat,
                |i: int|
                    if i < ev.count {
                        sprite_row(s1, ev.sprites[i]).0
                    } else {
                        0
                    },
            ),
            sprite_hi: Seq::new(
                SPRITES_PER_LINE as nat,
                |i: int|
                    if i < ev.count {
                        sprite_row(s1, ev.sprites[i]).1
                    } else {
                        0
                    },
            ),
            ..s1
        }
    } else {
        s
    }
}

impl Ppu2C02 {
    fn oam_get(&self, index: usize) -> (r: ObjectAttributes)
        requires
            self@.wf(),
            index < 64,
        ensures
            r == oam_entry(self@.oam, index as int),
    {
        ObjectAttributes {
            y: self.oam[4 * index],
            id: self.oam[4 * index + 1],
            attr: self.oam[4 * index + 2],
            x: self.oam[4 * index + 3],
        }
    }

    fn fetch_sprite_row(&self, sprite: ObjectAttributes) -> (r: (u8, u8))
        requires
            self@.wf(),
            0 <= self@.regs.scanline,
            sprite.y <= self@.regs.scanline,
        ensures
            r == sprite_row(self@, sprite),
    {
        let addr_lo = self.get_sprite_addr(sprite);
        let addr_hi = addr_lo + 8;
        let mut pattern_lo = self.read_bus(addr_lo);
        let mut pattern_hi = self.read_bus(addr_hi);
        if (sprite.attr & SPRITE_FLIP_HOR) != 0 {
            pattern_lo = flip_byte(pattern_lo);
            pattern_hi = flip_byte(pattern_hi);
        }
        (pattern_lo, pattern_hi)
    }

    #[verifier::rlimit(50)]
    fn load_foreground_data(&mut self)
        requires
            old(self)@.wf(),
        ensures
            final(self)@.wf(),
            final(self)@ == spec_load_foreground(old(self)@),
    {
        if (self.regs.cycle == MAX_CYCLE) && (self.regs.scanline >= 0) {
            let ghost s0 = old(self)@;
            let height: i16 = if (self.regs.control & CONTROL_SPRITE_SIZE) != 0 {
                16
            } else {
                8
            };
            let scanline = self.regs.scanline;
            // Clear the sprites of the line before
            self.sprites_line = vec![ObjectAttributes::new(); SPRITES_PER_LINE];
            self.sprite_pattern_lo = vec![0u8; SPRITES_PER_LINE];
            self.sprite_pattern_hi = vec![0u8; SPRITES_PER_LINE];
            self.regs.sprite_count = 0;
            self.regs.allow_zero_hit = false;
            let mut overflow = false;
            let mut oam_index: usize = 0;
            assert(self@.sprites =~= sprite_eval(s0.oam, scanline, height, 0).sprites);
            while (oam_index < 64) && (self.regs.sprite_count < 9)
                invariant
                    s0 == old(self)@,
                    s0.wf(),
                    s0.regs.cycle == MAX_CYCLE,
                    scanline == s0.regs.scanline,
                    0 <= scanline,
                    height == sprite_height(s0.regs.control),
                    0 <= oam_index <= 64,
                    self@.oam == s0.oam,
                    self@.bus == s0.bus,
                    self@.back == s0.back,
                    self@.front == s0.front,
                    self@.range == s0.range,
                    self@.sprite_lo == Seq::new(SPRITES_PER_LINE as nat, |i: int| 0u8),
                    self@.sprite_hi == Seq::new(SPRITES_PER_LINE as nat, |i: int| 0u8),
                    self.regs == (PpuState {
                        sprite_count: self.regs.sprite_count,
                        allow_zero_hit: self.regs.allow_zero_hit,
                        ..s0.regs
                    }),
                    self@.sprites == sprite_eval(s0.oam, scanline, height, oam_index as nat).sprites,
                    self.regs.sprite_count == sprite_eval(
                        s0.oam,
                        scanline,
                        height,
                        oam_index as nat,
                    ).count,
                    self.regs.allow_zero_hit == sprite_eval(
                        s0.oam,
                        scanline,
                        height,
                        oam_index as nat,
                    ).zero_hit,
                    overflow == sprite_eval(s0.oam, scanline, height, oam_index as nat).overflow,
                decreases 64 - oam_index,
            {
                proof {
                    lemma_sprite_eval(s0.oam, scanline, height, oam_index as nat);
                }
                let sprite = self.oam_get(oam_index);
                let diff = scanline - (sprite.y as i16);
                if (diff >= 0) && (diff < height) {
                    if self.regs.sprite_count < 8 {
                        if oam_index == 0 {
                            // Sprite zero hit detection
                            self.regs.allow_zero_hit = true;
                        }
                        self.sprites_line.set(self.regs.sprite_count, sprite);
                        self.regs.sprite_count = self.regs.sprite_count + 1;
                    } else {
                        overflow = true;
                    }
                }
                oam_index = oam_index + 1;
            }
            proof {
                lemma_sprite_eval(s0.oam, scanline, height, oam_index as nat);
                lemma_sprite_eval(s0.oam, scanline, height, 64);
            }
            if overflow {
                self.regs.status = self.regs.status | STATUS_SPRITE_OVERFLOW;
            }
            let ghost s1 = self@;
            let count = self.regs.sprite_count;
            let mut i: usize = 0;
            while i < count
                invariant
                    0 <= i <= count,
                    count == s1.regs.sprite_count,
                    count <= 8,
                    s1.wf(),
                    0 <= s1.regs.scanline,
                    forall|j: int| 0 <= j < count ==> on_scanline(#[trigger] s1.sprites[j], s1.regs.scanline, sprite_height(s1.regs.control)),
                    self@ == (PpuView { sprite_lo: self@.sprite_lo, sprite_hi: self@.sprite_hi, ..s1 }),
                    self@.sprite_lo.len() == 8,
                    self@.sprite_hi.len() == 8,
                    forall|j: int|
                        0 <= j < 8 ==> #[trigger] self@.sprite_lo[j] == (if j < i {
                            sprite_row(s1, s1.sprites[j]).0
                        } else {
                            0
                        }),
                    forall|j: int|
                        0 <= j < 8 ==> #[trigger] self@.sprite_hi[j] == (if j < i {
                            sprite_row(s1, s1.sprites[j]).1
                        } else {
                            0
                        }),
                decreases count - i,
            {
                let sprite = self.sprites_line[i];
                assert(sprite == s1.sprites[i as int]);
                assert(on_scanline(s1.sprites[i as int], s1.regs.scanline, sprite_height(s1.regs.control)));
                let (lo, hi) = self.fetch_sprite_row(sprite);
                self.sprite_pattern_lo.set(i, lo);
                self.sprite_pattern_hi.set(i, hi);
                i = i + 1;
            }
            assert(self@.sprite_lo =~= spec_load_foreground(s0).sprite_lo);
            assert(self@.sprite_hi =~= spec_load_foreground(s0).sprite_hi);
            assert(self@ =~= spec_load_foreground(s0));
        }
    }
}


proof fn lemma_pixel_bits(lo: u8, hi: u8)
    by (bit_vector)
    ensures
        (((hi & 0x80u8) >> 7u8) << 1u8) | ((lo & 0x80u8) >> 7u8) <= 3,
        0u8 | 0u8 == 0u8,
        1u8 | 0u8 == 1u8,
        0u8 | 2u8 == 2u8,
        1u8 | 2u8 == 3u8,
{
}

/// The background pixel and palette under the current dot: the bits the fine X scroll
/// selects in the pattern and attribute shifters.
pub open spec fn background_pixel(r: PpuState) -> (u8, u8) {
    if r.mask & MASK_RENDER_BACKGROUND != 0 {
        let mux: u16 = 0x8000u16 >> r.fine_x;
        let p0: u8 = if r.bg_pattern_lo & mux != 0 {
            1
        } else {
            0
        };
        let p1: u8 = if r.bg_pattern_hi & mux != 0 {
            2
        } else {
            0
        };
        let pal0: u8 = if r.bg_attr_lo & mux != 0 {
            1
        } else {
            0
        };
        let pal1: u8 = if r.bg_attr_hi & mux != 0 {
            2
        } else {
            0
        };
        (p0 | p1, pal0 | pal1)
    } else {
        (0, 0)
    }
}

/// The sprite pixel under the current dot, its palette and priority, and whether it
/// belongs to sprite 0.
#[derive(Clone, Copy, Debug)]
pub struct Foreground {
    pub pixel: u8,
    pub palette: u8,
    pub priority: bool,
    pub zero_visible: bool,
}

pub open spec fn no_foreground() -> Foreground {
    Foreground { pixel: 0, palette: 0, priority: false, zero_visible: false }
}

/// The sprites from `i` on, in order: the first whose counter has run out and whose pixel
/// is opaque wins; without one, the last whose counter has run out leaves its (transparent)
/// values.
pub open spec fn fg_scan(s: PpuView, i: nat, acc: Foreground) -> Foreground
    decreases s.regs.sprite_count - i,
{
    if i >= s.regs.sprite_count {
        acc
    } else {
        let sprite = s.sprites[i as int];
        if sprite.x == 0 {
            let p0 = (s.sprite_lo[i as int] & 0x80) >> 7;
            let p1 = (s.sprite_hi[i as int] & 0x80) >> 7;
            let cur = Foreground {
                pixel: (p1 << 1) | p0,
                palette: sprite.spec_palette(),
                priority: sprite.attr & SPRITE_PRIORITY == 0,
                zero_visible: acc.zero_visible,
            };
            if cur.pixel != 0 {
                Foreground { zero_visible: acc.zero_visible || i == 0, ..cur }
            } else {
                fg_scan(s, i + 1, cur)
            }
        } else {
            fg_scan(s, i + 1, acc)
        }
    }
}

pub open spec fn foreground_pixel(s: PpuView) -> Foreground {
    if s.regs.mask & MASK_RENDER_SPRITES != 0 {
        fg_scan(s, 0, no_foreground())
    } else {
        no_foreground()
    }
}

/// The pixel and palette shown: a transparent layer lets the other through, and where both
/// are opaque the sprite's priority decides.
pub open spec fn choose_pixel(bg: (u8, u8), fg: Foreground) -> (u8, u8) {
    if bg.0 == 0 && fg.pixel == 0 {
        (0, 0)
    } else if bg.0 == 0 && fg.pixel > 0 {
        (fg.pixel, fg.palette)
    } else if bg.0 > 0 && fg.pixel == 0 {
        bg
    } else if fg.priority {
        (fg.pixel, fg.palette)
    } else {
        bg
    }
}

/// Whether this dot sets the sprite-zero hit flag: opaque background and sprite 0 overlap
/// with both layers drawn, away from the left 8 pixels unless both are drawn there too.
pub open spec fn zero_hit(r: PpuState, bg: (u8, u8), fg: Foreground) -> bool {
    let both = MASK_RENDER_BACKGROUND | MASK_RENDER_SPRITES;
    let both_left = MASK_RENDER_BACKGROUND_LEFT | MASK_RENDER_SPRITES_LEFT;
    &&& bg.0 > 0
    &&& fg.pixel > 0
    &&& r.allow_zero_hit
    &&& fg.zero_visible
    &&& r.mask & both == both
    &&& if r.mask & both_left != both_left {
        r.cycle > 8 && r.cycle < 258
    } else {
        r.cycle > 0 && r.cycle < 258
    }
}

/// The colour of `pixel` in `palette`, looked up in palette memory (greyscale keeps only
/// the brightness bits).
pub open spec fn palette_color(s: PpuView, palette: u8, pixel: u8) -> Color {
    let entry = s.read_bus((PALETTE_START + palette * 4 + pixel) as u16);
    nes_palette(
        entry & (if s.regs.mask & MASK_GREYSCALE != 0 {
            0x30u8
        } else {
            0x3Fu8
        }),
    )
}

/// The dot at the current cycle and scanline drawn into the back buffer.
pub open spec fn spec_draw_pixel(s: PpuView) -> PpuView {
    let bg = background_pixel(s.regs);
    let fg = foreground_pixel(s);
    let chosen = choose_pixel(bg, fg);
    let s1 = s.with_regs(
        PpuState {
            status: if zero_hit(s.regs, bg, fg) {
                s.regs.status | STATUS_SPRITE_ZERO_HIT
            } else {
                s.regs.status
            },
            ..s.regs
        },
    );
    let color = palette_color(s1, chosen.1, chosen.0);
    let x = s.regs.cycle - 1;
    let y = s.regs.scanline;
    if 0 <= x < SCREEN_WIDTH && 0 <= y < SCREEN_HEIGHT {
        PpuView { back: s1.back.update(y * SCREEN_WIDTH + x, color), ..s1 }
    } else {
        s1
    }
}

/// The work of a dot on a visible or pre-render line: skipping the first dot of line 0,
/// clearing the flags at the start of a frame, background fetches, scroll updates and
/// sprite evaluation.
pub open spec fn spec_visible_dot(s: PpuView) -> PpuView {
    let a = if s.regs.scanline == 0 && s.regs.cycle == 0 {
        s.with_regs(PpuState { cycle: 1, ..s.regs })
    } else {
        s
    };
    let b = if a.regs.scanline == -1 && a.regs.cycle == 1 {
        PpuView {
            regs: PpuState {
                status: a.regs.status & !(STATUS_VERTICAL_BLANK | STATUS_SPRITE_OVERFLOW
                    | STATUS_SPRITE_ZERO_HIT),
                ..a.regs
            },
            sprite_lo: Seq::new(SPRITES_PER_LINE as nat, |i: int| 0u8),
            sprite_hi: Seq::new(SPRITES_PER_LINE as nat, |i: int| 0u8),
            ..a
        }
    } else {
        a
    };
    let c = if (b.regs.cycle > 1 && b.regs.cycle < 258) || (b.regs.cycle > 320 && b.regs.cycle
        < 338) {
        spec_load_background(spec_update_shifters(b))
    } else {
        b
    };
    let d = if c.regs.cycle == HBLANK_CYCLE {
        spec_inc_y(c)
    } else {
        c
    };
    let e = if d.regs.cycle == HBLANK_CYCLE + 1 {
        spec_trans_x(spec_load_shifters(d))
    } else {
        d
    };
    let f = if e.regs.scanline == -1 && e.regs.cycle >= 280 && e.regs.cycle < 305 {
        spec_trans_y(e)
    } else {
        e
    };
    spec_load_foreground(f)
}

/// Entering vertical blank: the flag is set, and the interrupt raised if enabled.
pub open spec fn spec_vblank(s: PpuView) -> PpuView {
    if s.regs.scanline == VBLANK_LINE + 1 && s.regs.cycle == 1 {
        s.with_regs(
            PpuState {
                status: s.regs.status | STATUS_VERTICAL_BLANK,
                nmi: s.regs.nmi || s.regs.control & CONTROL_ENABLE_NMI != 0,
                ..s.regs
            },
        )
    } else {
        s
    }
}

/// The cartridge told of a finished scanline.
pub open spec fn cartridge_after_scanline(b: PpuBusView) -> PpuBusView {
    match b.cartridge {
        Some(c) => PpuBusView {
            cartridge: Some(CartridgeView { mapper: c.mapper.after_scanline(), ..c }),
            ..b
        },
        None => b,
    }
}

/// On to the next dot: the cartridge hears of each rendered line at dot 260, and after
/// the last line the back and front buffers trade places.
pub open spec fn spec_advance(s: PpuView) -> PpuView {
    let cycle = (s.regs.cycle + 1) as u16;
    let s1 = s.with_regs(PpuState { cycle, ..s.regs });
    let s2 = if rendering_enabled(s.regs.mask) && cycle == 260 && s.regs.scanline < VBLANK_LINE {
        PpuView { bus: cartridge_after_scanline(s1.bus), ..s1 }
    } else {
        s1
    };
    if cycle > MAX_CYCLE {
        let scanline = s.regs.scanline + 1;
        if scanline > MAX_SCANLINE {
            PpuView {
                regs: PpuState { cycle: 0, scanline: -1i16, ..s2.regs },
                back: s2.front,
                front: s2.back,
                ..s2
            }
        } else {
            s2.with_regs(PpuState { cycle: 0, scanline: scanline as i16, ..s2.regs })
        }
    } else {
        s2
    }
}

/// One PPU clock: one dot.
pub open spec fn spec_clock_one(s: PpuView) -> PpuView {
    let s1 = if s.regs.scanline < VBLANK_LINE {
        spec_visible_dot(s)
    } else {
        s
    };
    spec_advance(spec_draw_pixel(spec_vblank(s1)))
}

/// `n` PPU clocks.
pub open spec fn spec_clocks(s: PpuView, n: nat) -> PpuView
    decreases n,
{
    if n == 0 {
        s
    } else {
        spec_clock_one(spec_clocks(s, (n - 1) as nat))
    }
}


impl Ppu2C02 {
    fn background_pixel(&self) -> (r: (u8, u8))
        requires
            self@.wf(),
        ensures
            r == background_pixel(self@.regs),
            r.0 <= 3,
            r.1 <= 3,
    {
        proof {
            lemma_pixel_bits(0, 0);
        }
        if (self.regs.mask & MASK_RENDER_BACKGROUND) != 0 {
            let mux: u16 = 0x8000u16 >> self.regs.fine_x;
            let p0: u8 = if (self.regs.bg_pattern_lo & mux) != 0 {
                1
            } else {
                0
            };
            let p1: u8 = if (self.regs.bg_pattern_hi & mux) != 0 {
                2
            } else {
                0
            };
            let pal0: u8 = if (self.regs.bg_attr_lo & mux) != 0 {
                1
            } else {
                0
            };
            let pal1: u8 = if (self.regs.bg_attr_hi & mux) != 0 {
                2
            } else {
                0
            };
            (p0 | p1, pal0 | pal1)
        } else {
            (0, 0)
        }
    }

    fn foreground_pixel(&self) -> (r: Foreground)
        requires
            self@.wf(),
        ensures
            r == foreground_pixel(self@),
            r.pixel <= 3,
            r.palette <= 7,
    {
        let mut fg = Foreground { pixel: 0, palette: 0, priority: false, zero_visible: false };
        if (self.regs.mask & MASK_RENDER_SPRITES) != 0 {
            let mut i: usize = 0;
            while i < self.regs.sprite_count
                invariant
                    self@.wf(),
                    0 <= i <= self.regs.sprite_count,
                    self.regs.mask & MASK_RENDER_SPRITES != 0,
                    fg_scan(self@, 0, no_foreground()) == fg_scan(self@, i as nat, fg),
                    fg.pixel <= 3,
                    fg.palette <= 7,
                    !fg.zero_visible,
                decreases self.regs.sprite_count - i,
            {
                let sprite = self.sprites_line[i];
                if sprite.x == 0 {
                    let lo = self.sprite_pattern_lo[i];
                    let hi = self.sprite_pattern_hi[i];
                    proof {
                        lemma_pixel_bits(lo, hi);
                        lemma_and_le_u8(sprite.attr, 0x03);
                    }
                    let p0: u8 = (lo & 0x80) >> 7;
                    let p1: u8 = (hi & 0x80) >> 7;
                    let cur = Foreground {
                        pixel: (p1 << 1) | p0,
                        palette: sprite.palette(),
                        priority: (sprite.attr & SPRITE_PRIORITY) == 0,
                        zero_visible: fg.zero_visible,
                    };
                    assert(cur.palette == sprite.spec_palette());
                    assert(cur.pixel == ((self@.sprite_hi[i as int] & 0x80) >> 7) << 1 | ((
                    self@.sprite_lo[i as int] & 0x80) >> 7));
                    if cur.pixel != 0 {
                        let r = Foreground { zero_visible: fg.zero_visible || i == 0, ..cur };
                        assert(fg_scan(self@, i as nat, fg) == r);
                        return r;
                    }
                    fg = cur;
                }
                i = i + 1;
            }
        }
        fg
    }

    fn palette_color(&self, palette: u8, pixel: u8) -> (c: Color)
        requires
            self@.wf(),
            palette <= 7,
            pixel <= 3,
        ensures
            c == palette_color(self@, palette, pixel),
    {
        let addr = PALETTE_START + (palette as u16) * 4 + (pixel as u16);
        let entry = self.read_bus(addr);
        let m: u8 = if (self.regs.mask & MASK_GREYSCALE) != 0 {
            0x30
        } else {
            0x3F
        };
        proof {
            lemma_and_le_u8(entry, m);
        }
        nes_palette_color(entry & m)
    }

    fn draw_pixel(&mut self)
        requires
            old(self)@.wf(),
        ensures
            final(self)@.wf(),
            final(self)@ == spec_draw_pixel(old(self)@),
    {
        let bg = self.background_pixel();
        let fg = self.foreground_pixel();
        // Choose between foreground and background pixel
        let pixel: u8;
        let palette: u8;
        if (bg.0 == 0) && (fg.pixel == 0) {
            pixel = 0x00;
            palette = 0x00;
        } else if (bg.0 == 0) && (fg.pixel > 0) {
            pixel = fg.pixel;
            palette = fg.palette;
        } else if (bg.0 > 0) && (fg.pixel == 0) {
            pixel = bg.0;
            palette = bg.1;
        } else {
            if fg.priority {
                pixel = fg.pixel;
                palette = fg.palette;
            } else {
                pixel = bg.0;
                palette = bg.1;
            }
            if self.regs.allow_zero_hit && fg.zero_visible {
                let both = MASK_RENDER_BACKGROUND | MASK_RENDER_SPRITES;
                let both_left = MASK_RENDER_BACKGROUND_LEFT | MASK_RENDER_SPRITES_LEFT;
                if (self.regs.mask & both) == both {
                    if (self.regs.mask & both_left) != both_left {
                        if (self.regs.cycle > 8) && (self.regs.cycle < 258) {
                            self.regs.status = self.regs.status | STATUS_SPRITE_ZERO_HIT;
                        }
                    } else {
                        if (self.regs.cycle > 0) && (self.regs.cycle < 258) {
                            self.regs.status = self.regs.status | STATUS_SPRITE_ZERO_HIT;
                        }
                    }
                }
            }
        }
        let x: i32 = (self.regs.cycle as i32) - 1;
        let y: i32 = self.regs.scanline as i32;
        let color = self.palette_color(palette, pixel);
        if (x >= 0) && (y >= 0) && (x < SCREEN_WIDTH as i32) && (y < SCREEN_HEIGHT as i32) {
            self.back_buffer.set_pixel(x as usize, y as usize, color);
        }
        assert(self@ =~= spec_draw_pixel(old(self)@));
    }

    fn visible_dot(&mut self)
        requires
            old(self)@.wf(),
        ensures
            final(self)@.wf(),
            final(self)@ == spec_visible_dot(old(self)@),
    {
        if (self.regs.scanline == 0) && (self.regs.cycle == 0) {
            // "Odd frame" skip
            self.regs.cycle = 1;
        }
        if (self.regs.scanline == -1) && (self.regs.cycle == 1) {
            // Start of a new frame
            self.regs.status = self.regs.status & !(STATUS_VERTICAL_BLANK | STATUS_SPRITE_OVERFLOW
                | STATUS_SPRITE_ZERO_HIT);
            self.sprite_pattern_lo = vec![0u8; SPRITES_PER_LINE];
            self.sprite_pattern_hi = vec![0u8; SPRITES_PER_LINE];
        }
        let ghost b = self@;
        if ((self.regs.cycle > 1) && (self.regs.cycle < 258)) || ((self.regs.cycle > 320) && (
        self.regs.cycle < 338)) {
            self.update_shifters();
            self.load_background_data();
        }
        if self.regs.cycle == HBLANK_CYCLE {
            self.inc_y();
        }
        if self.regs.cycle == HBLANK_CYCLE + 1 {
            self.load_shifters();
            self.trans_x();
        }
        if (self.regs.scanline == -1) && (self.regs.cycle >= 280) && (self.regs.cycle < 305) {
            self.trans_y();
        }
        self.load_foreground_data();
    }

    fn vblank(&mut self)
        requires
            old(self)@.wf(),
        ensures
            final(self)@.wf(),
            final(self)@ == spec_vblank(old(self)@),
    {
        if (self.regs.scanline == VBLANK_LINE + 1) && (self.regs.cycle == 1) {
            self.regs.status = self.regs.status | STATUS_VERTICAL_BLANK;
            if (self.regs.control & CONTROL_ENABLE_NMI) != 0 {
                self.regs.nmi = true;
            }
        }
        assert(self@ =~= spec_vblank(old(self)@));
    }

    fn advance(&mut self)
        requires
            old(self)@.wf(),
        ensures
            final(self)@.wf(),
            final(self)@ == spec_advance(old(self)@),
    {
        let rendering = (self.regs.mask & (MASK_RENDER_BACKGROUND | MASK_RENDER_SPRITES)) != 0;
        self.regs.cycle = self.regs.cycle + 1;
        if rendering && (self.regs.cycle == 260) && (self.regs.scanline < VBLANK_LINE) {
            match &mut self.bus.cartridge {
                Some(cartridge) => cartridge.on_scanline(),
                None => {},
            }
        }
        if self.regs.cycle > MAX_CYCLE {
            self.regs.cycle = 0;
            self.regs.scanline = self.regs.scanline + 1;
            if self.regs.scanline > MAX_SCANLINE {
                self.regs.scanline = -1;
                std::mem::swap(&mut self.back_buffer, &mut self.front_buffer);
            }
        }
        assert(self@ =~= spec_advance(old(self)@));
    }

    /// One PPU clock.
    pub fn clock_one(&mut self)
        requires
            old(self)@.wf(),
        ensures
            final(self)@.wf(),
            final(self)@ == spec_clock_one(old(self)@),
    {
        if self.regs.scanline < VBLANK_LINE {
            self.visible_dot();
        }
        self.vblank();
        self.draw_pixel();
        self.advance();
    }
}


/// The PPU after a reset: scrolling, shifters, latches and the control, mask and status
/// registers cleared, back to the top of the frame.
pub open spec fn spec_reset(s: PpuView) -> PpuView {
    s.with_regs(
        PpuState {
            fine_x: 0,
            ppu_addr_latch: false,
            ppu_data_buffer: 0,
            scanline: 0,
            cycle: 0,
            bg_next_id: 0,
            bg_next_attr: 0,
            bg_next_lsb: 0,
            bg_next_msb: 0,
            bg_pattern_lo: 0,
            bg_pattern_hi: 0,
            bg_attr_lo: 0,
            bg_attr_hi: 0,
            status: 0,
            mask: 0,
            control: 0,
            vram_addr: initial_regs().vram_addr,
            tram_addr: initial_regs().tram_addr,
            ..s.regs
        },
    )
}

impl VideoChip for Ppu2C02 {
    open spec fn wf(state: PpuView) -> bool {
        state.wf()
    }

    open spec fn after_reset(state: PpuView) -> PpuView {
        spec_reset(state)
    }

    open spec fn after_clock(state: PpuView, cycles: nat) -> PpuView {
        spec_clocks(state, cycles)
    }

    fn reset(&mut self) {
        self.regs.fine_x = 0;
        self.regs.ppu_addr_latch = false;
        self.regs.ppu_data_buffer = 0;
        self.regs.scanline = 0;
        self.regs.cycle = 0;
        self.regs.bg_next_id = 0;
        self.regs.bg_next_attr = 0;
        self.regs.bg_next_lsb = 0;
        self.regs.bg_next_msb = 0;
        self.regs.bg_pattern_lo = 0;
        self.regs.bg_pattern_hi = 0;
        self.regs.bg_attr_lo = 0;
        self.regs.bg_attr_hi = 0;
        self.regs.status = 0;
        self.regs.mask = 0;
        self.regs.control = 0;
        self.regs.vram_addr = PpuRegister::new();
        self.regs.tram_addr = PpuRegister::new();
        assert(self@ =~= spec_reset(old(self)@));
    }

    fn clock(&mut self, cycles: u32) {
        let mut i: u32 = 0;
        while i < cycles
            invariant
                0 <= i <= cycles,
                self@.wf(),
                self@ == spec_clocks(old(self)@, i as nat),
            decreases cycles - i,
        {
            self.clock_one();
            i = i + 1;
        }
    }
}


/// What the CPU reads at cartridge address `address` (relative to 0x4020): nothing answers
/// without a cartridge.
pub open spec fn cartridge_cpu_read_value(c: Option<CartridgeView>, address: u16) -> u8 {
    match c {
        Some(c) => c.cpu_read_value(address),
        None => 0,
    }
}

/// The cartridge after a CPU write at `address` (relative to 0x4020).
pub open spec fn cartridge_after_cpu_write(c: Option<CartridgeView>, address: u16, data: u8) -> Option<
    CartridgeView,
> {
    match c {
        Some(c) => Some(c.after_cpu_write(address, data)),
        None => None,
    }
}

/// Whether an inserted cartridge raises an interrupt.
pub open spec fn cartridge_interrupt(c: Option<CartridgeView>) -> bool {
    match c {
        Some(c) => c.mapper.interrupt_state(),
        None => false,
    }
}

impl Ppu2C02 {
    pub open spec fn with_cartridge(s: PpuView, c: Option<CartridgeView>) -> PpuView {
        PpuView { bus: PpuBusView { cartridge: c, ..s.bus }, ..s }
    }

    /// A CPU read of the inserted cartridge, at `address` relative to 0x4020.
    pub fn cartridge_cpu_read(&self, address: u16) -> (r: u8)
        requires
            self@.wf(),
        ensures
            r == cartridge_cpu_read_value(self@.bus.cartridge, address),
    {
        match &self.bus.cartridge {
            Some(c) => c.cpu_read(address),
            None => 0,
        }
    }

    /// A CPU write to the inserted cartridge, at `address` relative to 0x4020.
    pub fn cartridge_cpu_write(&mut self, address: u16, data: u8)
        requires
            old(self)@.wf(),
        ensures
            final(self)@.wf(),
            final(self)@ == Self::with_cartridge(
                old(self)@,
                cartridge_after_cpu_write(old(self)@.bus.cartridge, address, data),
            ),
    {
        match &mut self.bus.cartridge {
            Some(c) => c.cpu_write(address, data),
            None => {},
        }
    }

    /// Whether the inserted cartridge raises an interrupt.
    pub fn cartridge_interrupt_state(&self) -> (r: bool)
        ensures
            r == cartridge_interrupt(self@.bus.cartridge),
    {
        match &self.bus.cartridge {
            Some(c) => c.interrupt_state(),
            None => false,
        }
    }

    /// Acknowledges the cartridge's interrupt.
    pub fn cartridge_reset_interrupt(&mut self)
        requires
            old(self)@.wf(),
        ensures
            final(self)@.wf(),
            final(self)@ == Self::with_cartridge(
                old(self)@,
                match old(self)@.bus.cartridge {
                    Some(c) => Some(CartridgeView { mapper: c.mapper.after_reset_interrupt(), ..c }),
                    None => None,
                },
            ),
    {
        match &mut self.bus.cartridge {
            Some(c) => c.reset_interrupt(),
            None => {},
        }
    }

    /// Resets the inserted cartridge's mapper.
    pub fn cartridge_reset_mapper(&mut self)
        requires
            old(self)@.wf(),
        ensures
            final(self)@.wf(),
            final(self)@ == Self::with_cartridge(
                old(self)@,
                match old(self)@.bus.cartridge {
                    Some(c) => Some(CartridgeView { mapper: c.mapper.after_reset(), ..c }),
                    None => None,
                },
            ),
    {
        match &mut self.bus.cartridge {
            Some(c) => c.reset_mapper(),
            None => {},
        }
    }
}


impl Ppu2C02 {
    /// What a CPU read of register `addr` would return, without its side effects.
    pub fn register_value(&self, addr: u16) -> (r: u8)
        requires
            self@.wf(),
        ensures
            r == self@.register_read_value(addr),
    {
        if addr == ADDR_STATUS {
            (self.regs.status & 0xE0) | (self.regs.ppu_data_buffer & 0x1F)
        } else if addr == ADDR_OAM_DATA {
            self.oam[self.regs.oam_addr as usize]
        } else if addr == ADDR_PPU_DATA {
            if self.regs.vram_addr.value >= 0x3F00 {
                self.read_bus(self.regs.vram_addr.value)
            } else {
                self.regs.ppu_data_buffer
            }
        } else {
            0
        }
    }
}


impl Ppu2C02 {
    /// Whether a non-maskable interrupt is pending, without taking it.
    pub fn check_nmi_pending(&self) -> (r: bool)
        ensures
            r == self@.regs.nmi,
    {
        self.regs.nmi
    }
}

} // verus!
