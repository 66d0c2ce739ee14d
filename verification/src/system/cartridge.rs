//! Cartridges: the iNES file format, and the ROM, RAM and mapper that answer the CPU's and
//! the PPU's reads.
use crate::bits::{group_wrapping, lemma_and_le_u16, wrap16};
use crate::bus::AddressRange;
use crate::system::mapper::{
    get_mapper_from_id, needs_prg_bank, spec_mapper_from_id, Mapper, MapperReadResult,
    MapperView, MirrorMode, CHR_BANK_SIZE, PRG_BANK_SIZE,
};
use crate::util::{BinReader, BinReaderView};
use vstd::prelude::*;

verus! {

/// First CPU address at which a cartridge answers.
pub const CARTRIDGE_CPU_START: u16 = 0x4020;

/// Last PPU address at which a cartridge answers (pattern tables from 0x0000).
pub const CARTRIDGE_PPU_END: u16 = 0x1FFF;

/// Length of an iNES header.
pub const INES_HEADER_SIZE: usize = 16;

/// Length of the optional trainer that follows the header.
pub const TRAINER_SIZE: usize = 512;

/// The fields of an iNES header that the loader reads.
#[derive(Clone, Copy, Debug)]
pub struct INesHeader {
    pub prg_banks: u8,
    pub chr_banks: u8,
    pub mapper_1: u8,
    pub mapper_2: u8,
    pub prg_ram_size: u8,
    pub tv_system_1: u8,
    pub tv_system_2: u8,
}

/// The file identifier: "NES" followed by an MS-DOS end-of-file character.
pub open spec fn ines_magic(d: Seq<u8>) -> bool {
    &&& d.len() >= 4
    &&& d[0] == 0x4E
    &&& d[1] == 0x45
    &&& d[2] == 0x53
    &&& d[3] == 0x1A
}

/// The header at the front of `d`, if `d` holds a whole one with the right identifier.
pub open spec fn spec_header(d: Seq<u8>) -> Option<INesHeader> {
    if d.len() >= INES_HEADER_SIZE && ines_magic(d) {
        Some(
            INesHeader {
                prg_banks: d[4],
                chr_banks: d[5],
                mapper_1: d[6],
                mapper_2: d[7],
                prg_ram_size: d[8],
                tv_system_1: d[9],
                tv_system_2: d[10],
            },
        )
    } else {
        None
    }
}

/// How many bytes reading a header from the front of `d` consumes, whether or not it succeeds.
pub open spec fn header_consumed(d: Seq<u8>) -> int {
    if d.len() < 4 {
        d.len() as int
    } else if !ines_magic(d) {
        4
    } else {
        min_int(d.len() as int, INES_HEADER_SIZE as int)
    }
}

pub open spec fn min_int(a: int, b: int) -> int {
    if a < b {
        a
    } else {
        b
    }
}

impl INesHeader {
    /// The mapper number, from the high nibbles of the two flag bytes.
    pub open spec fn spec_mapper_id(self) -> u8 {
        (self.mapper_2 & 0xF0) | (self.mapper_1 >> 4)
    }

    /// Whether a 512-byte trainer follows the header.
    pub open spec fn has_trainer(self) -> bool {
        self.mapper_1 & 0x04 != 0
    }

    /// The name-table mirroring the header asks for.
    pub open spec fn spec_mirror(self) -> MirrorMode {
        if self.mapper_1 & 0x01 != 0 {
            MirrorMode::Vertical
        } else {
            MirrorMode::Horizontal
        }
    }

    /// Reads a header: `None` if the identifier does not match or the data ends first.
    pub fn from_reader(reader: &mut BinReader) -> (r: Option<Self>)
        requires
            old(reader)@.pos <= old(reader)@.data.len(),
        ensures
            r == spec_header(old(reader)@.remaining()),
            final(reader)@.data == old(reader)@.data,
            final(reader)@.pos == old(reader)@.pos + header_consumed(old(reader)@.remaining()),
    {
        let ghost rest = reader@.remaining();
        let mut file_id: [u8; 4] = [0; 4];
        if reader.read_into(&mut file_id) != 4 {
            return None;
        }
        assert(file_id@ =~= rest.subrange(0, 4));
        if (file_id[0] != 0x4E) || (file_id[1] != 0x45) || (file_id[2] != 0x53) || (file_id[3]
            != 0x1A) {
            return None;
        }
        let prg_banks = reader.read_byte()?;
        let chr_banks = reader.read_byte()?;
        let mapper_1 = reader.read_byte()?;
        let mapper_2 = reader.read_byte()?;
        let prg_ram_size = reader.read_byte()?;
        let tv_system_1 = reader.read_byte()?;
        let tv_system_2 = reader.read_byte()?;
        let mut unused: [u8; 5] = [0; 5];
        if reader.read_into(&mut unused) != 5 {
            return None;
        }
        Some(
            Self {
                prg_banks,
                chr_banks,
                mapper_1,
                mapper_2,
                prg_ram_size,
                tv_system_1,
                tv_system_2,
            },
        )
    }
}


/// Abstract state of a [`Cartridge`].
pub struct CartridgeView {
    pub mapper: MapperView,
    pub prg_rom: Seq<u8>,
    pub chr_rom: Seq<u8>,
    pub chr_is_ram: bool,
    pub mirror: MirrorMode,
}

/// The byte at offset `a` of a ROM image; an offset past its end reads 0, as an unmapped
/// address does.
pub open spec fn rom_byte(rom: Seq<u8>, a: usize) -> u8 {
    if a < rom.len() {
        rom[a as int]
    } else {
        0
    }
}

/// The byte a mapper's answer stands for, given the ROM it indexes.
pub open spec fn resolve_read(result: MapperReadResult, rom: Seq<u8>) -> u8 {
    match result {
        MapperReadResult::Data(d) => d,
        MapperReadResult::Address(Some(a)) => rom_byte(rom, a),
        MapperReadResult::Address(None) => 0,
    }
}

fn resolve(result: MapperReadResult, rom: &Vec<u8>) -> (r: u8)
    ensures
        r == resolve_read(result, rom@),
{
    match result {
        MapperReadResult::Data(d) => d,
        MapperReadResult::Address(Some(a)) => {
            if a < rom.len() {
                rom[a]
            } else {
                0
            }
        },
        MapperReadResult::Address(None) => 0,
    }
}

impl CartridgeView {
    pub open spec fn wf(self) -> bool {
        &&& self.mapper.wf()
        &&& self.chr_is_ram ==> self.chr_rom.len() == CHR_BANK_SIZE
    }

    /// The mirroring in effect: the mapper's where it controls it, else the header's.
    pub open spec fn spec_mirror(self) -> MirrorMode {
        match self.mapper.mirror() {
            Some(m) => m,
            None => self.mirror,
        }
    }

    /// A CPU read at `address`, relative to the cartridge's first CPU address.
    pub open spec fn cpu_read_value(self, address: u16) -> u8 {
        resolve_read(
            self.mapper.cpu_read(wrap16(address + CARTRIDGE_CPU_START)),
            self.prg_rom,
        )
    }

    /// The cartridge after a CPU write at `address`, relative to its first CPU address.
    pub open spec fn after_cpu_write(self, address: u16, data: u8) -> Self {
        CartridgeView {
            mapper: self.mapper.after_cpu_write(wrap16(address + CARTRIDGE_CPU_START), data),
            ..self
        }
    }

    /// A PPU read at `address`: character RAM directly, character ROM through the mapper.
    pub open spec fn ppu_read_value(self, address: u16) -> u8 {
        if self.chr_is_ram {
            self.chr_rom[(address & 0x1FFF) as int]
        } else {
            resolve_read(self.mapper.ppu_read(address), self.chr_rom)
        }
    }

    /// A PPU write at `address`: only character RAM takes it.
    pub open spec fn after_ppu_write(self, address: u16, data: u8) -> Self {
        if self.chr_is_ram {
            CartridgeView { chr_rom: self.chr_rom.update((address & 0x1FFF) as int, data), ..self }
        } else {
            self
        }
    }
}

/// A cartridge: program and character memory, the header's mirroring, and the mapper that
/// the CPU and the PPU both go through.
pub struct Cartridge {
    mapper: Mapper,
    prg_rom: Vec<u8>,
    chr_rom: Vec<u8>,
    chr_is_ram: bool,
    mirror: MirrorMode,
}

impl View for Cartridge {
    type V = CartridgeView;

    closed spec fn view(&self) -> CartridgeView {
        CartridgeView {
            mapper: self.mapper@,
            prg_rom: self.prg_rom@,
            chr_rom: self.chr_rom@,
            chr_is_ram: self.chr_is_ram,
            mirror: self.mirror,
        }
    }
}

/// The CPU addresses at which a cartridge answers.
pub fn cartridge_cpu_range() -> (r: AddressRange)
    ensures
        r == (AddressRange { start: CARTRIDGE_CPU_START, end: 0xFFFF }),
{
    AddressRange::new(CARTRIDGE_CPU_START, 0xFFFF)
}

/// The PPU addresses at which a cartridge answers.
pub fn cartridge_ppu_range() -> (r: AddressRange)
    ensures
        r == (AddressRange { start: 0, end: CARTRIDGE_PPU_END }),
{
    AddressRange::new(0, CARTRIDGE_PPU_END)
}

impl Cartridge {
    pub fn new(
        mapper: Mapper,
        prg_rom: Vec<u8>,
        chr_rom: Vec<u8>,
        chr_is_ram: bool,
        mirror: MirrorMode,
    ) -> (r: Self)
        requires
            mapper@.wf(),
            chr_is_ram ==> chr_rom@.len() == CHR_BANK_SIZE,
        ensures
            r@ == (CartridgeView {
                mapper: mapper@,
                prg_rom: prg_rom@,
                chr_rom: chr_rom@,
                chr_is_ram,
                mirror,
            }),
            r@.wf(),
    {
        Self { mapper, prg_rom, chr_rom, chr_is_ram, mirror }
    }

    /// The mirroring in effect.
    pub fn mirror(&self) -> (r: MirrorMode)
        ensures
            r == self@.spec_mirror(),
    {
        if let Some(mapper_mirror) = self.mapper.mirror() {
            mapper_mirror
        } else {
            self.mirror
        }
    }

    pub fn reset_mapper(&mut self)
        requires
            old(self)@.wf(),
        ensures
            final(self)@.wf(),
            final(self)@ == (CartridgeView { mapper: old(self)@.mapper.after_reset(), ..old(self)@ }),
    {
        self.mapper.reset();
    }

    /// Whether the mapper is raising an interrupt.
    pub fn interrupt_state(&self) -> (r: bool)
        ensures
            r == self@.mapper.interrupt_state(),
    {
        self.mapper.interrupt_state()
    }

    pub fn reset_interrupt(&mut self)
        requires
            old(self)@.wf(),
        ensures
            final(self)@.wf(),
            final(self)@ == (CartridgeView {
                mapper: old(self)@.mapper.after_reset_interrupt(),
                ..old(self)@
            }),
    {
        self.mapper.reset_interrupt();
    }

    /// Signals the end of a scanline to the mapper.
    pub fn on_scanline(&mut self)
        requires
            old(self)@.wf(),
        ensures
            final(self)@.wf(),
            final(self)@ == (CartridgeView { mapper: old(self)@.mapper.after_scanline(), ..old(self)@ }),
    {
        self.mapper.on_scanline();
    }

    /// Reads at a CPU address relative to 0x4020.
    pub fn cpu_read(&self, address: u16) -> (r: u8)
        requires
            self@.wf(),
        ensures
            r == self@.cpu_read_value(address),
    {
        broadcast use group_wrapping;

        let result = self.mapper.cpu_read(address.wrapping_add(CARTRIDGE_CPU_START));
        resolve(result, &self.prg_rom)
    }

    /// Writes at a CPU address relative to 0x4020: the mapper takes it.
    pub fn cpu_write(&mut self, address: u16, data: u8)
        requires
            old(self)@.wf(),
        ensures
            final(self)@.wf(),
            final(self)@ == old(self)@.after_cpu_write(address, data),
    {
        broadcast use group_wrapping;

        self.mapper.cpu_write(address.wrapping_add(CARTRIDGE_CPU_START), data);
    }

    /// Reads at a PPU address.
    pub fn ppu_read(&self, address: u16) -> (r: u8)
        requires
            self@.wf(),
        ensures
            r == self@.ppu_read_value(address),
    {
        if self.chr_is_ram {
            proof {
                lemma_and_le_u16(address, 0x1FFF);
            }
            self.chr_rom[(address & 0x1FFF) as usize]
        } else {
            let result = self.mapper.ppu_read(address);
            resolve(result, &self.chr_rom)
        }
    }

    /// Writes at a PPU address; only character RAM changes.
    pub fn ppu_write(&mut self, address: u16, data: u8)
        requires
            old(self)@.wf(),
        ensures
            final(self)@.wf(),
            final(self)@ == old(self)@.after_ppu_write(address, data),
    {
        if self.chr_is_ram {
            proof {
                lemma_and_le_u16(address, 0x1FFF);
            }
            self.chr_rom.set((address & 0x1FFF) as usize, data);
        }
    }
}


/// Offset of the program ROM in an iNES image: after the header, and the trainer if any.
pub open spec fn prg_start(h: INesHeader) -> int {
    if h.has_trainer() {
        INES_HEADER_SIZE + TRAINER_SIZE
    } else {
        INES_HEADER_SIZE as int
    }
}

/// An iNES image the loader reads without a fault: a supported mapper that needs program
/// ROM has at least one bank of it, and an image with a trainer holds it whole.
pub open spec fn ines_image_readable(d: Seq<u8>) -> bool {
    match spec_header(d) {
        Some(h) => spec_mapper_from_id(h.spec_mapper_id(), h.prg_banks) is Some ==> {
            &&& needs_prg_bank(h.spec_mapper_id()) ==> h.prg_banks >= 1
            &&& prg_start(h) <= d.len()
        },
        None => true,
    }
}

/// Whether [`load_cartridge`] reads the image without a fault (see [`ines_image_readable`]).
pub fn image_readable(data: &[u8]) -> (r: bool)
    ensures
        r == ines_image_readable(data@),
{
    if data.len() < INES_HEADER_SIZE || data[0] != 0x4E || data[1] != 0x45 || data[2] != 0x53
        || data[3] != 0x1A {
        return true;
    }
    let header = INesHeader {
        prg_banks: data[4],
        chr_banks: data[5],
        mapper_1: data[6],
        mapper_2: data[7],
        prg_ram_size: data[8],
        tv_system_1: data[9],
        tv_system_2: data[10],
    };
    assert(spec_header(data@) == Some(header));
    let id = (header.mapper_2 & 0xF0) | (header.mapper_1 >> 4);
    let supported = id == 0 || id == 1 || id == 2 || id == 3 || id == 4 || id == 7 || id == 66;
    if !supported {
        return true;
    }
    let needs_bank = id == 1 || id == 2 || id == 4;
    let start = if (header.mapper_1 & 0x04) != 0 {
        INES_HEADER_SIZE + TRAINER_SIZE
    } else {
        INES_HEADER_SIZE
    };
    (!needs_bank || header.prg_banks >= 1) && start <= data.len()
}

/// The cartridge an iNES image describes: `None` if the header is missing or wrong, the
/// mapper is not supported, or the image ends before its program or character ROM does.
/// Without character ROM the cartridge gets 8 KiB of character RAM.
pub open spec fn spec_load_cartridge(d: Seq<u8>) -> Option<CartridgeView> {
    match spec_header(d) {
        None => None,
        Some(h) => match spec_mapper_from_id(h.spec_mapper_id(), h.prg_banks) {
            None => None,
            Some(mapper) => {
                let start = prg_start(h);
                let prg_len = h.prg_banks * PRG_BANK_SIZE;
                let chr_start = start + prg_len;
                let chr_len = h.chr_banks * CHR_BANK_SIZE;
                if chr_start > d.len() {
                    None
                } else if h.chr_banks == 0 {
                    Some(
                        CartridgeView {
                            mapper,
                            prg_rom: d.subrange(start, chr_start),
                            chr_rom: Seq::new(CHR_BANK_SIZE as nat, |i: int| 0u8),
                            chr_is_ram: true,
                            mirror: h.spec_mirror(),
                        },
                    )
                } else if chr_start + chr_len > d.len() {
                    None
                } else {
                    Some(
                        CartridgeView {
                            mapper,
                            prg_rom: d.subrange(start, chr_start),
                            chr_rom: d.subrange(chr_start, chr_start + chr_len),
                            chr_is_ram: false,
                            mirror: h.spec_mirror(),
                        },
                    )
                }
            },
        },
    }
}

/// Loads a cartridge from the bytes of an iNES image.
pub fn load_cartridge(data: Vec<u8>) -> (r: Option<Cartridge>)
    requires
        ines_image_readable(data@),
    ensures
        match r {
            Some(c) => spec_load_cartridge(data@) == Some(c@) && c@.wf(),
            None => spec_load_cartridge(data@) is None,
        },
{
    let ghost d = data@;
    let mut reader = BinReader::new(data);
    assert(reader@.remaining() =~= d);
    let header = match INesHeader::from_reader(&mut reader) {
        Some(h) => h,
        None => return None,
    };
    assert(reader@.pos == INES_HEADER_SIZE);
    // Skip trainer data if it exists
    if (header.mapper_1 & 0x04) != 0 {
        reader.skip(TRAINER_SIZE);
    }
    let mapper_id = (header.mapper_2 & 0xF0) | (header.mapper_1 >> 4);
    let mapper = match get_mapper_from_id(mapper_id, header.prg_banks) {
        Some(m) => m,
        None => return None,
    };
    assert(reader@.pos == prg_start(header));
    let prg_len = (header.prg_banks as usize) * PRG_BANK_SIZE;
    let mut prg_mem: Vec<u8> = vec![0u8; prg_len];
    if reader.read_into(prg_mem.as_mut_slice()) != prg_len {
        return None;
    }
    let ghost start = prg_start(header);
    assert(prg_mem@ =~= d.subrange(start, start + prg_len));
    let chr_is_ram = header.chr_banks == 0;
    let chr_mem: Vec<u8> = if chr_is_ram {
        // We have RAM instead of ROM
        vec![0u8; CHR_BANK_SIZE]
    } else {
        let chr_len = (header.chr_banks as usize) * CHR_BANK_SIZE;
        let mut tmp = vec![0u8; chr_len];
        if reader.read_into(tmp.as_mut_slice()) != chr_len {
            return None;
        }
        assert(tmp@ =~= d.subrange(start + prg_len, start + prg_len + chr_len));
        tmp
    };
    assert(chr_is_ram ==> chr_mem@ =~= Seq::new(CHR_BANK_SIZE as nat, |i: int| 0u8));
    let mirror = if (header.mapper_1 & 0x01) != 0 {
        MirrorMode::Vertical
    } else {
        MirrorMode::Horizontal
    };
    Some(Cartridge::new(mapper, prg_mem, chr_mem, chr_is_ram, mirror))
}

} // verus!
