//! Cartridge mappers: the circuits on a cartridge that decide which bank of ROM
//! answers at a CPU or PPU address, and which registers a CPU write sets.
use crate::bits::{lemma_and_le_u16, lemma_and_le_u8, lemma_and_le_usize};
use vstd::prelude::*;

verus! {

/// Size of a bank of program ROM.
pub const PRG_BANK_SIZE: usize = 0x4000;

/// Size of a bank of character (pattern) ROM.
pub const CHR_BANK_SIZE: usize = 0x2000;

/// How the two physical name tables are laid over the four logical ones.
#[derive(PartialEq, Eq, Clone, Copy, Debug, Structural)]
pub enum MirrorMode {
    Horizontal,
    Vertical,
    OneScreenLow,
    OneScreenHigh,
}

/// What a mapper makes of a read: a byte it answers itself, or an offset into the
/// cartridge's ROM (none where nothing answers).
#[derive(Clone, Copy, Debug)]
pub enum MapperReadResult {
    Data(u8),
    Address(Option<usize>),
}

/// Pattern reads that go straight to the first 8 KiB of character memory.
pub open spec fn chr_direct(addr: u16) -> MapperReadResult {
    if addr <= 0x1FFF {
        MapperReadResult::Address(Some(addr as usize))
    } else {
        MapperReadResult::Address(None)
    }
}

/// Pattern reads into the selected 8 KiB bank of character memory.
pub open spec fn chr_banked(bank: u8, addr: u16) -> MapperReadResult {
    if addr <= 0x1FFF {
        MapperReadResult::Address(Some((bank * CHR_BANK_SIZE + addr) as usize))
    } else {
        MapperReadResult::Address(None)
    }
}

/// Program reads at 0x8000 and above into the selected 32 KiB bank.
pub open spec fn prg_32k(bank: u8, addr: u16) -> MapperReadResult {
    if addr >= 0x8000 {
        MapperReadResult::Address(Some((bank * 2 * PRG_BANK_SIZE + (addr & 0x7FFF)) as usize))
    } else {
        MapperReadResult::Address(None)
    }
}

/// Program reads at 0x8000 and above, folded by a mask onto 16 or 32 KiB of ROM.
pub open spec fn prg_masked(mask: u16, addr: u16) -> MapperReadResult {
    if addr >= 0x8000 {
        MapperReadResult::Address(Some((addr & mask) as usize))
    } else {
        MapperReadResult::Address(None)
    }
}

/// The address mask of a cartridge with `prg_banks` banks of 16 KiB: one bank is mirrored.
pub open spec fn prg_mask(prg_banks: u8) -> u16 {
    if prg_banks > 1 {
        0x7FFF
    } else {
        0x3FFF
    }
}

fn chr_direct_read(addr: u16) -> (r: MapperReadResult)
    ensures
        r == chr_direct(addr),
{
    if addr <= 0x1FFF {
        MapperReadResult::Address(Some(addr as usize))
    } else {
        MapperReadResult::Address(None)
    }
}

fn chr_banked_read(bank: u8, addr: u16) -> (r: MapperReadResult)
    ensures
        r == chr_banked(bank, addr),
{
    if addr <= 0x1FFF {
        MapperReadResult::Address(Some((bank as usize) * CHR_BANK_SIZE + (addr as usize)))
    } else {
        MapperReadResult::Address(None)
    }
}

fn prg_32k_read(bank: u8, addr: u16) -> (r: MapperReadResult)
    ensures
        r == prg_32k(bank, addr),
{
    if addr >= 0x8000 {
        proof {
            lemma_and_le_u16(addr, 0x7FFF);
        }
        MapperReadResult::Address(
            Some((bank as usize) * 2 * PRG_BANK_SIZE + ((addr & 0x7FFF) as usize)),
        )
    } else {
        MapperReadResult::Address(None)
    }
}

fn prg_masked_read(mask: u16, addr: u16) -> (r: MapperReadResult)
    ensures
        r == prg_masked(mask, addr),
{
    if addr >= 0x8000 {
        MapperReadResult::Address(Some((addr & mask) as usize))
    } else {
        MapperReadResult::Address(None)
    }
}

/// Mapper 0: no bank switching.
#[derive(Clone, Copy, Debug)]
pub struct NRom {
    pub mask: u16,
}

/// Mapper 2: a switchable 16 KiB bank at 0x8000 and the last bank fixed at 0xC000.
#[derive(Clone, Copy, Debug)]
pub struct UxRom {
    pub prg_bank_lo: u8,
    pub prg_bank_hi: u8,
}

/// Mapper 3: fixed program ROM and a switchable 8 KiB character bank.
#[derive(Clone, Copy, Debug)]
pub struct CNRom {
    pub mask: u16,
    pub chr_bank: u8,
}

/// Mapper 7: a switchable 32 KiB program bank and one-screen mirroring.
#[derive(Clone, Copy, Debug)]
pub struct AxRom {
    pub prg_bank: u8,
    pub mirror: MirrorMode,
}

/// Mapper 66: switchable 32 KiB program and 8 KiB character banks.
#[derive(Clone, Copy, Debug)]
pub struct GxRom {
    pub prg_bank: u8,
    pub chr_bank: u8,
}

/// The registers of mapper 1, written serially through a 5-bit shift register.
#[derive(Clone, Copy, Debug)]
pub struct Mmc1Registers {
    pub prg_banks: u8,
    pub load: u8,
    pub load_count: u8,
    pub control: u8,
    pub prg_bank_32: u8,
    pub chr_bank_8: u8,
    pub prg_bank_16_lo: u8,
    pub prg_bank_16_hi: u8,
    pub chr_bank_4_lo: u8,
    pub chr_bank_4_hi: u8,
    pub mirror: MirrorMode,
}

/// Mapper 1 (MMC1): its registers and 8 KiB of program RAM at 0x6000.
pub struct Mmc1 {
    pub regs: Mmc1Registers,
    prg_ram: Vec<u8>,
}

/// Abstract state of an [`Mmc1`].
#[verifier::ext_equal]
pub struct Mmc1View {
    pub regs: Mmc1Registers,
    pub prg_ram: Seq<u8>,
}

impl View for Mmc1 {
    type V = Mmc1View;

    closed spec fn view(&self) -> Mmc1View {
        Mmc1View { regs: self.regs, prg_ram: self.prg_ram@ }
    }
}

/// The scalar registers of mapper 4.
#[derive(Clone, Copy, Debug)]
pub struct Mmc3Registers {
    pub target_reg: usize,
    pub interrupt_counter: u16,
    pub interrupt_step: u16,
    pub interrupt_active: bool,
    pub interrupt_enabled: bool,
    pub prg_bank_mode: bool,
    pub chr_inversion: bool,
    pub prg_banks: u8,
    pub mirror: MirrorMode,
}

/// Mapper 4 (MMC3): eight bank registers, the resulting 8 KiB program and 1 KiB
/// character bank offsets, a scanline counter that raises an interrupt, and 8 KiB of
/// program RAM at 0x6000.
pub struct Mmc3 {
    pub regs: Mmc3Registers,
    register: [usize; 8],
    prg_bank: [usize; 4],
    chr_bank: [usize; 8],
    prg_ram: Vec<u8>,
}

/// Abstract state of an [`Mmc3`].
#[verifier::ext_equal]
pub struct Mmc3View {
    pub regs: Mmc3Registers,
    pub register: Seq<usize>,
    pub prg_bank: Seq<usize>,
    pub chr_bank: Seq<usize>,
    pub prg_ram: Seq<u8>,
}

impl View for Mmc3 {
    type V = Mmc3View;

    closed spec fn view(&self) -> Mmc3View {
        Mmc3View {
            regs: self.regs,
            register: self.register@,
            prg_bank: self.prg_bank@,
            chr_bank: self.chr_bank@,
            prg_ram: self.prg_ram@,
        }
    }
}


impl NRom {
    pub open spec fn spec_new(prg_banks: u8) -> Self {
        NRom { mask: prg_mask(prg_banks) }
    }

    pub fn new(prg_banks: u8) -> (r: Self)
        ensures
            r == Self::spec_new(prg_banks),
    {
        Self { mask: if prg_banks > 1 { 0x7FFF } else { 0x3FFF } }
    }
}

impl UxRom {
    pub open spec fn spec_new(prg_banks: u8) -> Self {
        UxRom { prg_bank_lo: 0, prg_bank_hi: (prg_banks - 1) as u8 }
    }

    pub open spec fn spec_cpu_read(self, addr: u16) -> MapperReadResult {
        if 0x8000 <= addr <= 0xBFFF {
            MapperReadResult::Address(
                Some((self.prg_bank_lo * PRG_BANK_SIZE + (addr & 0x3FFF)) as usize),
            )
        } else if addr >= 0xC000 {
            MapperReadResult::Address(
                Some((self.prg_bank_hi * PRG_BANK_SIZE + (addr & 0x3FFF)) as usize),
            )
        } else {
            MapperReadResult::Address(None)
        }
    }

    pub fn new(prg_banks: u8) -> (r: Self)
        requires
            prg_banks >= 1,
        ensures
            r == Self::spec_new(prg_banks),
    {
        Self { prg_bank_lo: 0, prg_bank_hi: prg_banks - 1 }
    }

    fn cpu_read(&self, addr: u16) -> (r: MapperReadResult)
        ensures
            r == self.spec_cpu_read(addr),
    {
        proof {
            lemma_and_le_u16(addr, 0x3FFF);
        }
        if (addr >= 0x8000) && (addr <= 0xBFFF) {
            MapperReadResult::Address(
                Some((self.prg_bank_lo as usize) * PRG_BANK_SIZE + ((addr & 0x3FFF) as usize)),
            )
        } else if addr >= 0xC000 {
            MapperReadResult::Address(
                Some((self.prg_bank_hi as usize) * PRG_BANK_SIZE + ((addr & 0x3FFF) as usize)),
            )
        } else {
            MapperReadResult::Address(None)
        }
    }
}

impl CNRom {
    pub open spec fn spec_new(prg_banks: u8) -> Self {
        CNRom { mask: prg_mask(prg_banks), chr_bank: 0 }
    }

    pub fn new(prg_banks: u8) -> (r: Self)
        ensures
            r == Self::spec_new(prg_banks),
    {
        Self { mask: if prg_banks > 1 { 0x7FFF } else { 0x3FFF }, chr_bank: 0 }
    }
}

impl AxRom {
    pub open spec fn spec_new() -> Self {
        AxRom { prg_bank: 0, mirror: MirrorMode::OneScreenLow }
    }

    pub fn new() -> (r: Self)
        ensures
            r == Self::spec_new(),
    {
        Self { prg_bank: 0, mirror: MirrorMode::OneScreenLow }
    }
}

impl GxRom {
    pub open spec fn spec_new() -> Self {
        GxRom { prg_bank: 0, chr_bank: 0 }
    }

    pub fn new() -> (r: Self)
        ensures
            r == Self::spec_new(),
    {
        Self { prg_bank: 0, chr_bank: 0 }
    }
}


/// The mirroring that the low two bits of the MMC1 control register select.
pub open spec fn mmc1_mirror(control: u8) -> MirrorMode {
    let m = control & 0x03;
    if m == 0 {
        MirrorMode::OneScreenLow
    } else if m == 1 {
        MirrorMode::OneScreenHigh
    } else if m == 2 {
        MirrorMode::Vertical
    } else {
        MirrorMode::Horizontal
    }
}

/// The MMC1 registers after the fifth serial write has assembled `load`: bits 13 and 14 of
/// the address (`target`) choose the register that takes it.
pub open spec fn mmc1_commit(r: Mmc1Registers, target: u16, load: u8) -> Mmc1Registers {
    if target == 0 {
        Mmc1Registers { control: load & 0x1F, mirror: mmc1_mirror(load & 0x1F), ..r }
    } else if target == 1 {
        if r.control & 0x10 != 0 {
            Mmc1Registers { chr_bank_4_lo: load & 0x1F, ..r }
        } else {
            Mmc1Registers { chr_bank_8: load & 0x1E, ..r }
        }
    } else if target == 2 {
        if r.control & 0x10 != 0 {
            Mmc1Registers { chr_bank_4_hi: load & 0x1F, ..r }
        } else {
            r
        }
    } else {
        let prg_mode = (r.control >> 2) & 0x03;
        if prg_mode <= 1 {
            Mmc1Registers { prg_bank_32: (load & 0x0E) >> 1, ..r }
        } else if prg_mode == 2 {
            Mmc1Registers { prg_bank_16_lo: 0, prg_bank_16_hi: load & 0x0F, ..r }
        } else if prg_mode == 3 {
            Mmc1Registers {
                prg_bank_16_lo: load & 0x0F,
                prg_bank_16_hi: (r.prg_banks - 1) as u8,
                ..r
            }
        } else {
            r
        }
    }
}

/// The MMC1 registers after a write of `data` at `addr` (0x8000 and above): bit 7 clears
/// the shift register; otherwise bit 0 is shifted in, and the fifth bit commits it.
pub open spec fn mmc1_serial_write(r: Mmc1Registers, addr: u16, data: u8) -> Mmc1Registers {
    if data & 0x80 != 0 {
        Mmc1Registers { load: 0, load_count: 0, control: r.control | 0x0C, ..r }
    } else {
        let load = (r.load >> 1) | ((data & 0x01) << 4);
        let count = r.load_count + 1;
        if count == 5 {
            Mmc1Registers { load: 0, load_count: 0, ..mmc1_commit(r, (addr >> 13) & 0x03, load) }
        } else {
            Mmc1Registers { load, load_count: count as u8, ..r }
        }
    }
}

/// The MMC1 registers as power-on and reset leave them.
pub open spec fn mmc1_reset_registers(r: Mmc1Registers) -> Mmc1Registers {
    Mmc1Registers {
        load: 0,
        load_count: 0,
        control: 0x1C,
        prg_bank_32: 0,
        chr_bank_8: 0,
        prg_bank_16_lo: 0,
        prg_bank_16_hi: (r.prg_banks - 1) as u8,
        chr_bank_4_lo: 0,
        chr_bank_4_hi: 0,
        ..r
    }
}

impl Mmc1View {
    pub open spec fn wf(self) -> bool {
        &&& self.regs.load_count < 5
        &&& self.regs.prg_banks >= 1
        &&& self.prg_ram.len() == 0x2000
    }

    pub open spec fn spec_new(prg_banks: u8) -> Self {
        Mmc1View {
            regs: Mmc1Registers {
                prg_banks,
                load: 0,
                load_count: 0,
                control: 0x1C,
                prg_bank_32: 0,
                chr_bank_8: 0,
                prg_bank_16_lo: 0,
                prg_bank_16_hi: (prg_banks - 1) as u8,
                chr_bank_4_lo: 0,
                chr_bank_4_hi: 0,
                mirror: MirrorMode::Horizontal,
            },
            prg_ram: Seq::new(0x2000, |i: int| 0u8),
        }
    }

    pub open spec fn spec_cpu_read(self, addr: u16) -> MapperReadResult {
        let r = self.regs;
        if 0x6000 <= addr <= 0x7FFF {
            MapperReadResult::Data(self.prg_ram[(addr & 0x1FFF) as int])
        } else if addr >= 0x8000 {
            if r.control & 0x08 != 0 {
                if addr <= 0xBFFF {
                    MapperReadResult::Address(
                        Some((r.prg_bank_16_lo * PRG_BANK_SIZE + (addr & 0x3FFF)) as usize),
                    )
                } else {
                    MapperReadResult::Address(
                        Some((r.prg_bank_16_hi * PRG_BANK_SIZE + (addr & 0x3FFF)) as usize),
                    )
                }
            } else {
                MapperReadResult::Address(
                    Some((r.prg_bank_32 * 2 * PRG_BANK_SIZE + (addr & 0x7FFF)) as usize),
                )
            }
        } else {
            MapperReadResult::Address(None)
        }
    }

    pub open spec fn spec_ppu_read(self, addr: u16) -> MapperReadResult {
        let r = self.regs;
        if addr <= 0x1FFF {
            if r.control & 0x10 != 0 {
                if addr <= 0x0FFF {
                    MapperReadResult::Address(
                        Some((r.chr_bank_4_lo * 0x1000 + (addr & 0x0FFF)) as usize),
                    )
                } else {
                    MapperReadResult::Address(
                        Some((r.chr_bank_4_hi * 0x1000 + (addr & 0x0FFF)) as usize),
                    )
                }
            } else {
                MapperReadResult::Address(
                    Some((r.chr_bank_8 * CHR_BANK_SIZE + (addr & 0x1FFF)) as usize),
                )
            }
        } else {
            MapperReadResult::Address(None)
        }
    }

    pub open spec fn after_cpu_write(self, addr: u16, data: u8) -> Self {
        if 0x6000 <= addr <= 0x7FFF {
            Mmc1View { prg_ram: self.prg_ram.update((addr & 0x1FFF) as int, data), ..self }
        } else if addr >= 0x8000 {
            Mmc1View { regs: mmc1_serial_write(self.regs, addr, data), ..self }
        } else {
            self
        }
    }

    pub open spec fn after_reset(self) -> Self {
        Mmc1View { regs: mmc1_reset_registers(self.regs), ..self }
    }
}

impl Mmc1 {
    pub fn new(prg_banks: u8) -> (r: Self)
        requires
            prg_banks >= 1,
        ensures
            r@ == Mmc1View::spec_new(prg_banks),
            r@.wf(),
    {
        let r = Self {
            regs: Mmc1Registers {
                prg_banks,
                load: 0,
                load_count: 0,
                control: 0x1C,
                prg_bank_32: 0,
                chr_bank_8: 0,
                prg_bank_16_lo: 0,
                prg_bank_16_hi: prg_banks - 1,
                chr_bank_4_lo: 0,
                chr_bank_4_hi: 0,
                mirror: MirrorMode::Horizontal,
            },
            prg_ram: vec![0u8; 0x2000],
        };
        assert(r@ =~= Mmc1View::spec_new(prg_banks));
        r
    }

    fn cpu_read(&self, addr: u16) -> (r: MapperReadResult)
        requires
            self@.wf(),
        ensures
            r == self@.spec_cpu_read(addr),
    {
        proof {
            lemma_and_le_u16(addr, 0x1FFF);
            lemma_and_le_u16(addr, 0x3FFF);
            lemma_and_le_u16(addr, 0x7FFF);
        }
        if (addr >= 0x6000) && (addr <= 0x7FFF) {
            MapperReadResult::Data(self.prg_ram[(addr & 0x1FFF) as usize])
        } else if addr >= 0x8000 {
            if (self.regs.control & 0x08) != 0 {
                if addr <= 0xBFFF {
                    MapperReadResult::Address(
                        Some(
                            (self.regs.prg_bank_16_lo as usize) * PRG_BANK_SIZE + ((addr & 0x3FFF)
                                as usize),
                        ),
                    )
                } else {
                    MapperReadResult::Address(
                        Some(
                            (self.regs.prg_bank_16_hi as usize) * PRG_BANK_SIZE + ((addr & 0x3FFF)
                                as usize),
                        ),
                    )
                }
            } else {
                MapperReadResult::Address(
                    Some(
                        (self.regs.prg_bank_32 as usize) * 2 * PRG_BANK_SIZE + ((addr & 0x7FFF)
                            as usize),
                    ),
                )
            }
        } else {
            MapperReadResult::Address(None)
        }
    }

    fn ppu_read(&self, addr: u16) -> (r: MapperReadResult)
        ensures
            r == self@.spec_ppu_read(addr),
    {
        proof {
            lemma_and_le_u16(addr, 0x0FFF);
            lemma_and_le_u16(addr, 0x1FFF);
        }
        if addr <= 0x1FFF {
            if (self.regs.control & 0x10) != 0 {
                if addr <= 0x0FFF {
                    MapperReadResult::Address(
                        Some((self.regs.chr_bank_4_lo as usize) * 0x1000 + ((addr & 0x0FFF) as usize)),
                    )
                } else {
                    MapperReadResult::Address(
                        Some((self.regs.chr_bank_4_hi as usize) * 0x1000 + ((addr & 0x0FFF) as usize)),
                    )
                }
            } else {
                MapperReadResult::Address(
                    Some(
                        (self.regs.chr_bank_8 as usize) * CHR_BANK_SIZE + ((addr & 0x1FFF) as usize),
                    ),
                )
            }
        } else {
            MapperReadResult::Address(None)
        }
    }

    fn cpu_write(&mut self, addr: u16, data: u8)
        requires
            old(self)@.wf(),
        ensures
            final(self)@.wf(),
            final(self)@ == old(self)@.after_cpu_write(addr, data),
    {
        if (addr >= 0x6000) && (addr <= 0x7FFF) {
            proof {
                lemma_and_le_u16(addr, 0x1FFF);
            }
            self.prg_ram.set((addr & 0x1FFF) as usize, data);
        } else if addr >= 0x8000 {
            if (data & 0x80) != 0 {
                self.regs.load = 0;
                self.regs.load_count = 0;
                self.regs.control = self.regs.control | 0x0C;
            } else {
                self.regs.load = self.regs.load >> 1;
                self.regs.load = self.regs.load | ((data & 0x01) << 4);
                self.regs.load_count = self.regs.load_count + 1;
                if self.regs.load_count == 5 {
                    let target_reg = (addr >> 13) & 0x03;
                    if target_reg == 0 {
                        self.regs.control = self.regs.load & 0x1F;
                        let m = self.regs.control & 0x03;
                        self.regs.mirror = if m == 0 {
                            MirrorMode::OneScreenLow
                        } else if m == 1 {
                            MirrorMode::OneScreenHigh
                        } else if m == 2 {
                            MirrorMode::Vertical
                        } else {
                            MirrorMode::Horizontal
                        };
                    } else if target_reg == 1 {
                        if (self.regs.control & 0x10) != 0 {
                            self.regs.chr_bank_4_lo = self.regs.load & 0x1F;
                        } else {
                            self.regs.chr_bank_8 = self.regs.load & 0x1E;
                        }
                    } else if target_reg == 2 {
                        if (self.regs.control & 0x10) != 0 {
                            self.regs.chr_bank_4_hi = self.regs.load & 0x1F;
                        }
                    } else {
                        let prg_mode = (self.regs.control >> 2) & 0x03;
                        if prg_mode <= 1 {
                            self.regs.prg_bank_32 = (self.regs.load & 0x0E) >> 1;
                        } else if prg_mode == 2 {
                            self.regs.prg_bank_16_lo = 0;
                            self.regs.prg_bank_16_hi = self.regs.load & 0x0F;
                        } else if prg_mode == 3 {
                            self.regs.prg_bank_16_lo = self.regs.load & 0x0F;
                            self.regs.prg_bank_16_hi = self.regs.prg_banks - 1;
                        }
                    }
                    self.regs.load = 0;
                    self.regs.load_count = 0;
                }
            }
        }
        assert(self@ =~= old(self)@.after_cpu_write(addr, data));
    }

    fn reset(&mut self)
        requires
            old(self)@.wf(),
        ensures
            final(self)@.wf(),
            final(self)@ == old(self)@.after_reset(),
    {
        self.regs.load = 0;
        self.regs.load_count = 0;
        self.regs.control = 0x1C;
        self.regs.prg_bank_32 = 0;
        self.regs.chr_bank_8 = 0;
        self.regs.prg_bank_16_lo = 0;
        self.regs.prg_bank_16_hi = self.regs.prg_banks - 1;
        self.regs.chr_bank_4_lo = 0;
        self.regs.chr_bank_4_hi = 0;
        assert(self@ =~= old(self)@.after_reset());
    }
}


/// Size of an MMC3 program bank.
pub const MMC3_PRG_BANK_SIZE: usize = 0x2000;

/// Size of an MMC3 character bank.
pub const MMC3_CHR_BANK_SIZE: usize = 0x0400;

/// Offset of the `n`-th 8 KiB bank from the end of a program ROM of `prg_banks` banks of
/// 16 KiB (`n` = 1 is the last).
pub open spec fn mmc3_bank_from_end(prg_banks: u8, n: int) -> usize {
    ((prg_banks * 2 - n) * MMC3_PRG_BANK_SIZE) as usize
}

/// The offsets of the eight 1 KiB character banks that the bank registers select: two 2 KiB
/// banks from registers 0 and 1 and four 1 KiB banks from registers 2 to 5, the 2 KiB ones
/// in the upper half when the inversion bit is set.
pub open spec fn mmc3_chr_banks(reg: Seq<usize>, inversion: bool) -> Seq<usize> {
    let k = MMC3_CHR_BANK_SIZE;
    let two_k = seq![
        ((reg[0] & 0xFE) * k) as usize,
        (reg[0] * k + k) as usize,
        ((reg[1] & 0xFE) * k) as usize,
        (reg[1] * k + k) as usize,
    ];
    let one_k = seq![
        (reg[2] * k) as usize,
        (reg[3] * k) as usize,
        (reg[4] * k) as usize,
        (reg[5] * k) as usize,
    ];
    if inversion {
        one_k + two_k
    } else {
        two_k + one_k
    }
}

/// The offsets of the four 8 KiB program banks: registers 6 and 7 select two, the
/// second-to-last bank is fixed at 0x8000 or 0xC000 as the mode says, and the last at 0xE000.
pub open spec fn mmc3_prg_banks(reg: Seq<usize>, prg_bank_mode: bool, prg_banks: u8) -> Seq<
    usize,
> {
    let selected = ((reg[6] & 0x3F) * MMC3_PRG_BANK_SIZE) as usize;
    let second = ((reg[7] & 0x3F) * MMC3_PRG_BANK_SIZE) as usize;
    if prg_bank_mode {
        seq![
            mmc3_bank_from_end(prg_banks, 2),
            second,
            selected,
            mmc3_bank_from_end(prg_banks, 1),
        ]
    } else {
        seq![
            selected,
            second,
            mmc3_bank_from_end(prg_banks, 2),
            mmc3_bank_from_end(prg_banks, 1),
        ]
    }
}

/// The program bank offsets before any bank register is written.
pub open spec fn mmc3_initial_prg_banks(prg_banks: u8) -> Seq<usize> {
    seq![0, 0x2000, mmc3_bank_from_end(prg_banks, 2), mmc3_bank_from_end(prg_banks, 1)]
}

/// The MMC3 scalar registers as power-on and reset leave them.
pub open spec fn mmc3_reset_registers(r: Mmc3Registers) -> Mmc3Registers {
    Mmc3Registers {
        target_reg: 0,
        interrupt_counter: 0,
        interrupt_step: 0,
        interrupt_active: false,
        interrupt_enabled: false,
        prg_bank_mode: false,
        chr_inversion: false,
        mirror: MirrorMode::Horizontal,
        ..r
    }
}

impl Mmc3View {
    pub open spec fn wf(self) -> bool {
        &&& self.register.len() == 8
        &&& self.prg_bank.len() == 4
        &&& self.chr_bank.len() == 8
        &&& self.prg_ram.len() == 0x2000
        &&& self.regs.target_reg < 8
        &&& self.regs.prg_banks >= 1
        &&& forall|i: int| 0 <= i < 8 ==> #[trigger] self.register[i] <= 0xFF
        &&& forall|i: int| 0 <= i < 4 ==> #[trigger] self.prg_bank[i] <= 510 * MMC3_PRG_BANK_SIZE
        &&& forall|i: int| 0 <= i < 8 ==> #[trigger] self.chr_bank[i] <= 256 * MMC3_CHR_BANK_SIZE
    }

    pub open spec fn spec_new(prg_banks: u8) -> Self {
        Mmc3View {
            regs: mmc3_reset_registers(
                Mmc3Registers {
                    target_reg: 0,
                    interrupt_counter: 0,
                    interrupt_step: 0,
                    interrupt_active: false,
                    interrupt_enabled: false,
                    prg_bank_mode: false,
                    chr_inversion: false,
                    prg_banks,
                    mirror: MirrorMode::Horizontal,
                },
            ),
            register: Seq::new(8, |i: int| 0usize),
            prg_bank: mmc3_initial_prg_banks(prg_banks),
            chr_bank: Seq::new(8, |i: int| 0usize),
            prg_ram: Seq::new(0x2000, |i: int| 0u8),
        }
    }

    pub open spec fn spec_cpu_read(self, addr: u16) -> MapperReadResult {
        if 0x6000 <= addr <= 0x7FFF {
            MapperReadResult::Data(self.prg_ram[(addr & 0x1FFF) as int])
        } else if addr >= 0x8000 {
            let bank = ((addr >> 13) & 0x03) as int;
            MapperReadResult::Address(Some((self.prg_bank[bank] + (addr & 0x1FFF)) as usize))
        } else {
            MapperReadResult::Address(None)
        }
    }

    pub open spec fn spec_ppu_read(self, addr: u16) -> MapperReadResult {
        if addr <= 0x1FFF {
            let bank = ((addr >> 10) & 0x07) as int;
            MapperReadResult::Address(Some((self.chr_bank[bank] + (addr & 0x03FF)) as usize))
        } else {
            MapperReadResult::Address(None)
        }
    }

    /// A write to one of the eight bank registers, and the banks it selects.
    pub open spec fn after_bank_data(self, data: u8) -> Self {
        let register = self.register.update(self.regs.target_reg as int, data as usize);
        Mmc3View {
            register,
            chr_bank: mmc3_chr_banks(register, self.regs.chr_inversion),
            prg_bank: mmc3_prg_banks(register, self.regs.prg_bank_mode, self.regs.prg_banks),
            ..self
        }
    }

    pub open spec fn after_cpu_write(self, addr: u16, data: u8) -> Self {
        let r = self.regs;
        let even = addr & 0x0001 == 0;
        if 0x6000 <= addr <= 0x7FFF {
            Mmc3View { prg_ram: self.prg_ram.update((addr & 0x1FFF) as int, data), ..self }
        } else if addr >= 0x8000 {
            if addr <= 0x9FFF {
                if even {
                    Mmc3View {
                        regs: Mmc3Registers {
                            target_reg: (data & 0x07) as usize,
                            prg_bank_mode: data & 0x40 != 0,
                            chr_inversion: data & 0x80 != 0,
                            ..r
                        },
                        ..self
                    }
                } else {
                    self.after_bank_data(data)
                }
            } else if addr <= 0xBFFF {
                if even {
                    Mmc3View {
                        regs: Mmc3Registers {
                            mirror: if data & 0x01 != 0 {
                                MirrorMode::Horizontal
                            } else {
                                MirrorMode::Vertical
                            },
                            ..r
                        },
                        ..self
                    }
                } else {
                    self
                }
            } else if addr <= 0xDFFF {
                if even {
                    Mmc3View { regs: Mmc3Registers { interrupt_step: data as u16, ..r }, ..self }
                } else {
                    Mmc3View { regs: Mmc3Registers { interrupt_counter: 0, ..r }, ..self }
                }
            } else {
                if even {
                    Mmc3View {
                        regs: Mmc3Registers {
                            interrupt_active: false,
                            interrupt_enabled: false,
                            ..r
                        },
                        ..self
                    }
                } else {
                    Mmc3View { regs: Mmc3Registers { interrupt_enabled: true, ..r }, ..self }
                }
            }
        } else {
            self
        }
    }

    /// One scanline: the counter reloads when it is 0 and counts down otherwise, and an
    /// enabled interrupt is raised when it reaches 0.
    pub open spec fn after_scanline(self) -> Self {
        let r = self.regs;
        let counter = if r.interrupt_counter == 0 {
            r.interrupt_step
        } else {
            (r.interrupt_counter - 1) as u16
        };
        Mmc3View {
            regs: Mmc3Registers {
                interrupt_counter: counter,
                interrupt_active: r.interrupt_active || (counter == 0 && r.interrupt_enabled),
                ..r
            },
            ..self
        }
    }

    pub open spec fn after_reset(self) -> Self {
        Mmc3View {
            regs: mmc3_reset_registers(self.regs),
            register: Seq::new(8, |i: int| 0usize),
            chr_bank: Seq::new(8, |i: int| 0usize),
            prg_bank: mmc3_initial_prg_banks(self.regs.prg_banks),
            ..self
        }
    }
}

impl Mmc3 {
    pub fn new(prg_banks: u8) -> (r: Self)
        requires
            prg_banks >= 1,
        ensures
            r@ == Mmc3View::spec_new(prg_banks),
            r@.wf(),
    {
        let n = prg_banks as usize;
        let r = Self {
            regs: Mmc3Registers {
                target_reg: 0,
                interrupt_counter: 0,
                interrupt_step: 0,
                interrupt_active: false,
                interrupt_enabled: false,
                prg_bank_mode: false,
                chr_inversion: false,
                prg_banks,
                mirror: MirrorMode::Horizontal,
            },
            register: [0; 8],
            prg_bank: [0, 0x2000, (n * 2 - 2) * 0x2000, (n * 2 - 1) * 0x2000],
            chr_bank: [0; 8],
            prg_ram: vec![0u8; 0x2000],
        };
        assert(r@.register =~= Seq::new(8, |i: int| 0usize));
        assert(r@.chr_bank =~= Seq::new(8, |i: int| 0usize));
        assert(r@.prg_bank =~= mmc3_initial_prg_banks(prg_banks));
        assert(r@ =~= Mmc3View::spec_new(prg_banks));
        r
    }

    fn cpu_read(&self, addr: u16) -> (r: MapperReadResult)
        requires
            self@.wf(),
        ensures
            r == self@.spec_cpu_read(addr),
    {
        proof {
            lemma_and_le_u16(addr, 0x1FFF);
            lemma_and_le_u16(addr >> 13, 0x03);
        }
        if (addr >= 0x6000) && (addr <= 0x7FFF) {
            MapperReadResult::Data(self.prg_ram[(addr & 0x1FFF) as usize])
        } else if addr >= 0x8000 {
            let bank = ((addr >> 13) & 0x03) as usize;
            assert(self@.prg_bank[bank as int] == self.prg_bank[bank as int]);
            let mapped_addr = self.prg_bank[bank] + ((addr & 0x1FFF) as usize);
            MapperReadResult::Address(Some(mapped_addr))
        } else {
            MapperReadResult::Address(None)
        }
    }

    fn ppu_read(&self, addr: u16) -> (r: MapperReadResult)
        requires
            self@.wf(),
        ensures
            r == self@.spec_ppu_read(addr),
    {
        proof {
            lemma_and_le_u16(addr, 0x03FF);
            lemma_and_le_u16(addr >> 10, 0x07);
        }
        if addr <= 0x1FFF {
            let bank = ((addr >> 10) & 0x07) as usize;
            assert(self@.chr_bank[bank as int] == self.chr_bank[bank as int]);
            let mapped_addr = self.chr_bank[bank] + ((addr & 0x03FF) as usize);
            MapperReadResult::Address(Some(mapped_addr))
        } else {
            MapperReadResult::Address(None)
        }
    }

    fn write_bank_data(&mut self, data: u8)
        requires
            old(self)@.wf(),
        ensures
            final(self)@.wf(),
            final(self)@ == old(self)@.after_bank_data(data),
    {
        let k = MMC3_CHR_BANK_SIZE;
        let p = MMC3_PRG_BANK_SIZE;
        self.register[self.regs.target_reg] = data as usize;
        let ghost reg = self@.register;
        assert(reg =~= old(self)@.register.update(old(self)@.regs.target_reg as int, data as usize));
        assert(forall|i: int| 0 <= i < 8 ==> #[trigger] reg[i] <= 0xFF);
        let r0 = self.register[0];
        let r1 = self.register[1];
        let r2 = self.register[2];
        let r3 = self.register[3];
        let r4 = self.register[4];
        let r5 = self.register[5];
        let r6 = self.register[6];
        let r7 = self.register[7];
        assert(r0 == reg[0] && r1 == reg[1] && r2 == reg[2] && r3 == reg[3]);
        assert(r4 == reg[4] && r5 == reg[5] && r6 == reg[6] && r7 == reg[7]);
        proof {
            lemma_and_le_usize(r0, 0xFE);
            lemma_and_le_usize(r1, 0xFE);
            lemma_and_le_usize(r6, 0x3F);
            lemma_and_le_usize(r7, 0x3F);
        }
        if self.regs.chr_inversion {
            self.chr_bank[0] = r2 * k;
            self.chr_bank[1] = r3 * k;
            self.chr_bank[2] = r4 * k;
            self.chr_bank[3] = r5 * k;
            self.chr_bank[4] = (r0 & 0xFE) * k;
            self.chr_bank[5] = r0 * k + k;
            self.chr_bank[6] = (r1 & 0xFE) * k;
            self.chr_bank[7] = r1 * k + k;
        } else {
            self.chr_bank[0] = (r0 & 0xFE) * k;
            self.chr_bank[1] = r0 * k + k;
            self.chr_bank[2] = (r1 & 0xFE) * k;
            self.chr_bank[3] = r1 * k + k;
            self.chr_bank[4] = r2 * k;
            self.chr_bank[5] = r3 * k;
            self.chr_bank[6] = r4 * k;
            self.chr_bank[7] = r5 * k;
        }
        let n = self.regs.prg_banks as usize;
        if self.regs.prg_bank_mode {
            self.prg_bank[2] = (r6 & 0x3F) * p;
            self.prg_bank[0] = (n * 2 - 2) * p;
        } else {
            self.prg_bank[0] = (r6 & 0x3F) * p;
            self.prg_bank[2] = (n * 2 - 2) * p;
        }
        self.prg_bank[1] = (r7 & 0x3F) * p;
        self.prg_bank[3] = (n * 2 - 1) * p;
        assert(self@.chr_bank =~= mmc3_chr_banks(reg, self.regs.chr_inversion));
        assert(self@.prg_bank =~= mmc3_prg_banks(reg, self.regs.prg_bank_mode, self.regs.prg_banks));
        assert(self@ =~= old(self)@.after_bank_data(data));
    }

    fn cpu_write(&mut self, addr: u16, data: u8)
        requires
            old(self)@.wf(),
        ensures
            final(self)@.wf(),
            final(self)@ == old(self)@.after_cpu_write(addr, data),
    {
        if (addr >= 0x6000) && (addr <= 0x7FFF) {
            proof {
                lemma_and_le_u16(addr, 0x1FFF);
            }
            self.prg_ram.set((addr & 0x1FFF) as usize, data);
        } else if addr >= 0x8000 {
            if addr <= 0x9FFF {
                if (addr & 0x0001) == 0 {
                    proof {
                        lemma_and_le_u8(data, 0x07);
                    }
                    self.regs.target_reg = (data & 0x07) as usize;
                    self.regs.prg_bank_mode = (data & 0x40) != 0;
                    self.regs.chr_inversion = (data & 0x80) != 0;
                } else {
                    self.write_bank_data(data);
                }
            } else if addr <= 0xBFFF {
                if (addr & 0x0001) == 0 {
                    if (data & 0x01) != 0 {
                        self.regs.mirror = MirrorMode::Horizontal;
                    } else {
                        self.regs.mirror = MirrorMode::Vertical;
                    }
                }
            } else if addr <= 0xDFFF {
                if (addr & 0x0001) == 0 {
                    self.regs.interrupt_step = data as u16;
                } else {
                    self.regs.interrupt_counter = 0;
                }
            } else {
                if (addr & 0x0001) == 0 {
                    self.regs.interrupt_active = false;
                    self.regs.interrupt_enabled = false;
                } else {
                    self.regs.interrupt_enabled = true;
                }
            }
        }
        assert(self@ =~= old(self)@.after_cpu_write(addr, data));
    }

    fn on_scanline(&mut self)
        requires
            old(self)@.wf(),
        ensures
            final(self)@.wf(),
            final(self)@ == old(self)@.after_scanline(),
    {
        if self.regs.interrupt_counter == 0 {
            self.regs.interrupt_counter = self.regs.interrupt_step;
        } else {
            self.regs.interrupt_counter = self.regs.interrupt_counter - 1;
        }
        if (self.regs.interrupt_counter == 0) && self.regs.interrupt_enabled {
            self.regs.interrupt_active = true;
        }
        assert(self@ =~= old(self)@.after_scanline());
    }

    fn reset(&mut self)
        requires
            old(self)@.wf(),
        ensures
            final(self)@.wf(),
            final(self)@ == old(self)@.after_reset(),
    {
        self.regs.target_reg = 0;
        self.regs.prg_bank_mode = false;
        self.regs.chr_inversion = false;
        self.regs.mirror = MirrorMode::Horizontal;
        self.regs.interrupt_active = false;
        self.regs.interrupt_enabled = false;
        self.regs.interrupt_counter = 0;
        self.regs.interrupt_step = 0;
        self.register = [0; 8];
        self.chr_bank = [0; 8];
        let n = self.regs.prg_banks as usize;
        self.prg_bank = [0, 0x2000, (n * 2 - 2) * 0x2000, (n * 2 - 1) * 0x2000];
        assert(self@.register =~= Seq::new(8, |i: int| 0usize));
        assert(self@.chr_bank =~= Seq::new(8, |i: int| 0usize));
        assert(self@.prg_bank =~= mmc3_initial_prg_banks(self.regs.prg_banks));
        assert(self@ =~= old(self)@.after_reset());
    }
}


/// One of the supported mappers.
pub enum Mapper {
    NRom(NRom),
    Mmc1(Mmc1),
    UxRom(UxRom),
    CNRom(CNRom),
    Mmc3(Mmc3),
    AxRom(AxRom),
    GxRom(GxRom),
}

/// Abstract state of a [`Mapper`].
pub enum MapperView {
    NRom(NRom),
    Mmc1(Mmc1View),
    UxRom(UxRom),
    CNRom(CNRom),
    Mmc3(Mmc3View),
    AxRom(AxRom),
    GxRom(GxRom),
}

impl View for Mapper {
    type V = MapperView;

    open spec fn view(&self) -> MapperView {
        match self {
            Mapper::NRom(m) => MapperView::NRom(*m),
            Mapper::Mmc1(m) => MapperView::Mmc1(m@),
            Mapper::UxRom(m) => MapperView::UxRom(*m),
            Mapper::CNRom(m) => MapperView::CNRom(*m),
            Mapper::Mmc3(m) => MapperView::Mmc3(m@),
            Mapper::AxRom(m) => MapperView::AxRom(*m),
            Mapper::GxRom(m) => MapperView::GxRom(*m),
        }
    }
}

impl MapperView {
    pub open spec fn wf(self) -> bool {
        match self {
            MapperView::Mmc1(m) => m.wf(),
            MapperView::Mmc3(m) => m.wf(),
            _ => true,
        }
    }

    /// The mirroring the mapper imposes, if it controls it.
    pub open spec fn mirror(self) -> Option<MirrorMode> {
        match self {
            MapperView::Mmc1(m) => Some(m.regs.mirror),
            MapperView::Mmc3(m) => Some(m.regs.mirror),
            MapperView::AxRom(m) => Some(m.mirror),
            _ => None,
        }
    }

    /// Whether the mapper is raising an interrupt.
    pub open spec fn interrupt_state(self) -> bool {
        match self {
            MapperView::Mmc3(m) => m.regs.interrupt_active,
            _ => false,
        }
    }

    pub open spec fn after_reset_interrupt(self) -> Self {
        match self {
            MapperView::Mmc3(m) => MapperView::Mmc3(
                Mmc3View { regs: Mmc3Registers { interrupt_active: false, ..m.regs }, ..m },
            ),
            _ => self,
        }
    }

    pub open spec fn after_scanline(self) -> Self {
        match self {
            MapperView::Mmc3(m) => MapperView::Mmc3(m.after_scanline()),
            _ => self,
        }
    }

    /// What a CPU read at `addr` (0x4020 and above) maps to.
    pub open spec fn cpu_read(self, addr: u16) -> MapperReadResult {
        match self {
            MapperView::NRom(m) => prg_masked(m.mask, addr),
            MapperView::Mmc1(m) => m.spec_cpu_read(addr),
            MapperView::UxRom(m) => m.spec_cpu_read(addr),
            MapperView::CNRom(m) => prg_masked(m.mask, addr),
            MapperView::Mmc3(m) => m.spec_cpu_read(addr),
            MapperView::AxRom(m) => prg_32k(m.prg_bank, addr),
            MapperView::GxRom(m) => prg_32k(m.prg_bank, addr),
        }
    }

    /// What a PPU read at `addr` maps to.
    pub open spec fn ppu_read(self, addr: u16) -> MapperReadResult {
        match self {
            MapperView::NRom(m) => chr_direct(addr),
            MapperView::Mmc1(m) => m.spec_ppu_read(addr),
            MapperView::UxRom(m) => chr_direct(addr),
            MapperView::CNRom(m) => chr_banked(m.chr_bank, addr),
            MapperView::Mmc3(m) => m.spec_ppu_read(addr),
            MapperView::AxRom(m) => chr_direct(addr),
            MapperView::GxRom(m) => chr_banked(m.chr_bank, addr),
        }
    }

    /// The mapper after a CPU write of `data` at `addr`.
    pub open spec fn after_cpu_write(self, addr: u16, data: u8) -> Self {
        match self {
            MapperView::NRom(m) => self,
            MapperView::Mmc1(m) => MapperView::Mmc1(m.after_cpu_write(addr, data)),
            MapperView::UxRom(m) => if addr >= 0x8000 {
                MapperView::UxRom(UxRom { prg_bank_lo: data & 0x0F, ..m })
            } else {
                self
            },
            MapperView::CNRom(m) => if addr >= 0x8000 {
                MapperView::CNRom(CNRom { chr_bank: data & 0x03, ..m })
            } else {
                self
            },
            MapperView::Mmc3(m) => MapperView::Mmc3(m.after_cpu_write(addr, data)),
            MapperView::AxRom(m) => if addr >= 0x8000 {
                MapperView::AxRom(
                    AxRom {
                        prg_bank: data & 0x07,
                        mirror: if data & 0x10 == 0 {
                            MirrorMode::OneScreenLow
                        } else {
                            MirrorMode::OneScreenHigh
                        },
                    },
                )
            } else {
                self
            },
            MapperView::GxRom(m) => if addr >= 0x8000 {
                MapperView::GxRom(GxRom { chr_bank: data & 0x03, prg_bank: (data >> 4) & 0x03 })
            } else {
                self
            },
        }
    }

    /// The mapper after a reset.
    pub open spec fn after_reset(self) -> Self {
        match self {
            MapperView::NRom(m) => self,
            MapperView::Mmc1(m) => MapperView::Mmc1(m.after_reset()),
            MapperView::UxRom(m) => MapperView::UxRom(UxRom { prg_bank_lo: 0, ..m }),
            MapperView::CNRom(m) => MapperView::CNRom(CNRom { chr_bank: 0, ..m }),
            MapperView::Mmc3(m) => MapperView::Mmc3(m.after_reset()),
            MapperView::AxRom(m) => MapperView::AxRom(AxRom::spec_new()),
            MapperView::GxRom(m) => MapperView::GxRom(GxRom::spec_new()),
        }
    }
}

/// Mapper numbers whose construction needs at least one bank of program ROM.
pub open spec fn needs_prg_bank(id: u8) -> bool {
    id == 1 || id == 2 || id == 4
}

/// The mapper with a given iNES number, as it powers on; `None` for an unsupported number.
pub open spec fn spec_mapper_from_id(id: u8, prg_banks: u8) -> Option<MapperView> {
    if id == 0 {
        Some(MapperView::NRom(NRom::spec_new(prg_banks)))
    } else if id == 1 {
        Some(MapperView::Mmc1(Mmc1View::spec_new(prg_banks)))
    } else if id == 2 {
        Some(MapperView::UxRom(UxRom::spec_new(prg_banks)))
    } else if id == 3 {
        Some(MapperView::CNRom(CNRom::spec_new(prg_banks)))
    } else if id == 4 {
        Some(MapperView::Mmc3(Mmc3View::spec_new(prg_banks)))
    } else if id == 7 {
        Some(MapperView::AxRom(AxRom::spec_new()))
    } else if id == 66 {
        Some(MapperView::GxRom(GxRom::spec_new()))
    } else {
        None
    }
}

/// Builds the mapper with iNES number `id` for a cartridge with `prg_banks` banks of
/// program ROM. Only a subset of the existing mappers is supported, enough for most
/// first-party titles.
pub fn get_mapper_from_id(id: u8, prg_banks: u8) -> (r: Option<Mapper>)
    requires
        needs_prg_bank(id) ==> prg_banks >= 1,
    ensures
        match r {
            Some(m) => spec_mapper_from_id(id, prg_banks) == Some(m@) && m@.wf(),
            None => spec_mapper_from_id(id, prg_banks) is None,
        },
{
    if id == 0 {
        Some(Mapper::NRom(NRom::new(prg_banks)))
    } else if id == 1 {
        Some(Mapper::Mmc1(Mmc1::new(prg_banks)))
    } else if id == 2 {
        Some(Mapper::UxRom(UxRom::new(prg_banks)))
    } else if id == 3 {
        Some(Mapper::CNRom(CNRom::new(prg_banks)))
    } else if id == 4 {
        Some(Mapper::Mmc3(Mmc3::new(prg_banks)))
    } else if id == 7 {
        Some(Mapper::AxRom(AxRom::new()))
    } else if id == 66 {
        Some(Mapper::GxRom(GxRom::new()))
    } else {
        None
    }
}

impl Mapper {
    pub fn mirror(&self) -> (r: Option<MirrorMode>)
        ensures
            r == self@.mirror(),
    {
        match self {
            Mapper::Mmc1(m) => Some(m.regs.mirror),
            Mapper::Mmc3(m) => Some(m.regs.mirror),
            Mapper::AxRom(m) => Some(m.mirror),
            _ => None,
        }
    }

    pub fn interrupt_state(&self) -> (r: bool)
        ensures
            r == self@.interrupt_state(),
    {
        match self {
            Mapper::Mmc3(m) => m.regs.interrupt_active,
            _ => false,
        }
    }

    pub fn reset_interrupt(&mut self)
        requires
            old(self)@.wf(),
        ensures
            final(self)@.wf(),
            final(self)@ == old(self)@.after_reset_interrupt(),
    {
        match self {
            Mapper::Mmc3(m) => {
                m.regs.interrupt_active = false;
                assert(m@ =~= Mmc3View {
                    regs: Mmc3Registers { interrupt_active: false, ..old(self)@->Mmc3_0.regs },
                    ..old(self)@->Mmc3_0
                });
            },
            _ => {},
        }
    }

    pub fn on_scanline(&mut self)
        requires
            old(self)@.wf(),
        ensures
            final(self)@.wf(),
            final(self)@ == old(self)@.after_scanline(),
    {
        match self {
            Mapper::Mmc3(m) => m.on_scanline(),
            _ => {},
        }
    }

    pub fn cpu_read(&self, addr: u16) -> (r: MapperReadResult)
        requires
            self@.wf(),
        ensures
            r == self@.cpu_read(addr),
    {
        match self {
            Mapper::NRom(m) => prg_masked_read(m.mask, addr),
            Mapper::Mmc1(m) => m.cpu_read(addr),
            Mapper::UxRom(m) => m.cpu_read(addr),
            Mapper::CNRom(m) => prg_masked_read(m.mask, addr),
            Mapper::Mmc3(m) => m.cpu_read(addr),
            Mapper::AxRom(m) => prg_32k_read(m.prg_bank, addr),
            Mapper::GxRom(m) => prg_32k_read(m.prg_bank, addr),
        }
    }

    pub fn ppu_read(&self, addr: u16) -> (r: MapperReadResult)
        requires
            self@.wf(),
        ensures
            r == self@.ppu_read(addr),
    {
        match self {
            Mapper::NRom(_) => chr_direct_read(addr),
            Mapper::Mmc1(m) => m.ppu_read(addr),
            Mapper::UxRom(_) => chr_direct_read(addr),
            Mapper::CNRom(m) => chr_banked_read(m.chr_bank, addr),
            Mapper::Mmc3(m) => m.ppu_read(addr),
            Mapper::AxRom(_) => chr_direct_read(addr),
            Mapper::GxRom(m) => chr_banked_read(m.chr_bank, addr),
        }
    }

    pub fn cpu_write(&mut self, addr: u16, data: u8)
        requires
            old(self)@.wf(),
        ensures
            final(self)@.wf(),
            final(self)@ == old(self)@.after_cpu_write(addr, data),
    {
        match self {
            Mapper::NRom(_) => {},
            Mapper::Mmc1(m) => m.cpu_write(addr, data),
            Mapper::UxRom(m) => {
                if addr >= 0x8000 {
                    m.prg_bank_lo = data & 0x0F;
                }
            },
            Mapper::CNRom(m) => {
                if addr >= 0x8000 {
                    m.chr_bank = data & 0x03;
                }
            },
            Mapper::Mmc3(m) => m.cpu_write(addr, data),
            Mapper::AxRom(m) => {
                if addr >= 0x8000 {
                    m.prg_bank = data & 0x07;
                    m.mirror = if (data & 0x10) == 0 {
                        MirrorMode::OneScreenLow
                    } else {
                        MirrorMode::OneScreenHigh
                    };
                }
            },
            Mapper::GxRom(m) => {
                if addr >= 0x8000 {
                    m.chr_bank = data & 0x03;
                    m.prg_bank = (data >> 4) & 0x03;
                }
            },
        }
    }

    pub fn reset(&mut self)
        requires
            old(self)@.wf(),
        ensures
            final(self)@.wf(),
            final(self)@ == old(self)@.after_reset(),
    {
        match self {
            Mapper::NRom(_) => {},
            Mapper::Mmc1(m) => m.reset(),
            Mapper::UxRom(m) => {
                m.prg_bank_lo = 0;
            },
            Mapper::CNRom(m) => {
                m.chr_bank = 0;
            },
            Mapper::Mmc3(m) => m.reset(),
            Mapper::AxRom(m) => {
                m.prg_bank = 0;
                m.mirror = MirrorMode::OneScreenLow;
            },
            Mapper::GxRom(m) => {
                m.prg_bank = 0;
                m.chr_bank = 0;
            },
        }
    }
}

} // verus!
