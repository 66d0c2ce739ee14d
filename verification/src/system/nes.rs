//! The parts of the console around the chips: name-table memory, the sprite DMA port and
//! the controller ports.
use crate::bits::{lemma_and_le_u16, wrap16};
use crate::bus::{AddressRange, BusComponent};
use crate::memory::{spec_ram, Ram, RamView};
use crate::audio::apu2a03::{
    control_status, control_write, Apu2A03, Apu2A03Control,
};
use crate::system::cartridge::{Cartridge, CARTRIDGE_CPU_START};
use crate::system::mapper::MirrorMode;
use crate::cpu::cpu6502::{Cpu6502, Cpu6502State, InstructionSet};
use crate::video::ppu2c02::{
    cartridge_after_cpu_write, cartridge_cpu_read_value, cartridge_interrupt, spec_clocks, PixelBuffer,
    Ppu2C02, PpuState, PpuView,
};
use crate::video::ppu2c02::spec_reset as ppu_reset;
use crate::video::ppu2c02::spec_new_ppu;
use crate::cpu::cpu6502::StatusFlags;
use crate::video::VideoChip;
use crate::system::cartridge::CartridgeView;
use vstd::prelude::*;

verus! {

/// Size of one name table.
pub const NAME_TABLE_SIZE: u16 = 0x0400;

/// Abstract state of a [`Vram`].
pub struct VramView {
    pub range: AddressRange,
    pub tables: (RamView, RamView),
}

/// The console's 2 KiB of name-table memory: two physical tables, laid over the four
/// logical ones as the cartridge's mirroring says.
pub struct Vram {
    range: AddressRange,
    table_0: Ram,
    table_1: Ram,
}

impl View for Vram {
    type V = VramView;

    closed spec fn view(&self) -> VramView {
        VramView { range: self.range, tables: (self.table_0@, self.table_1@) }
    }
}

/// The name-table memory that [`Vram::new`] builds: 4 KiB of addresses from `start_address`
/// over two zeroed tables.
pub open spec fn spec_vram(start_address: u16) -> VramView {
    VramView {
        range: AddressRange { start: start_address, end: ((start_address + 0x0FFF) % 0x10000) as u16 },
        tables: (spec_ram(NAME_TABLE_SIZE, 0), spec_ram(NAME_TABLE_SIZE, 0)),
    }
}

/// The physical table that logical address `address` (relative to 0x2000) falls in.
pub open spec fn table_index(mirror: MirrorMode, address: u16) -> u16 {
    match mirror {
        MirrorMode::Horizontal => (address >> 11) & 0x0001,
        MirrorMode::Vertical => (address >> 10) & 0x0001,
        MirrorMode::OneScreenLow => 0,
        MirrorMode::OneScreenHigh => 1,
    }
}

fn table_index_of(mirror: MirrorMode, address: u16) -> (r: u16)
    ensures
        r == table_index(mirror, address),
        r <= 1,
{
    proof {
        lemma_and_le_u16(address >> 11, 0x0001);
        lemma_and_le_u16(address >> 10, 0x0001);
    }
    match mirror {
        MirrorMode::Horizontal => (address >> 11) & 0x0001,
        MirrorMode::Vertical => (address >> 10) & 0x0001,
        MirrorMode::OneScreenLow => 0,
        MirrorMode::OneScreenHigh => 1,
    }
}

impl VramView {
    pub open spec fn wf(self) -> bool {
        &&& Ram::wf(self.tables.0)
        &&& Ram::wf(self.tables.1)
        &&& self.tables.0.data.len() == NAME_TABLE_SIZE
        &&& self.tables.1.data.len() == NAME_TABLE_SIZE
    }

    /// A read at `address` (relative to 0x2000); without a cartridge nothing answers.
    pub open spec fn read(self, mirror: Option<MirrorMode>, address: u16) -> u8 {
        match mirror {
            None => 0,
            Some(m) => {
                let table_addr = address & 0x03FF;
                if table_index(m, address) == 0 {
                    self.tables.0.data[table_addr as int]
                } else {
                    self.tables.1.data[table_addr as int]
                }
            },
        }
    }

    /// A write at `address` (relative to 0x2000); without a cartridge nothing changes.
    pub open spec fn after_write(self, mirror: Option<MirrorMode>, address: u16, data: u8) -> Self {
        match mirror {
            None => self,
            Some(m) => {
                let table_addr = address & 0x03FF;
                if table_index(m, address) == 0 {
                    VramView {
                        tables: (Ram::after_write(self.tables.0, table_addr, data), self.tables.1),
                        ..self
                    }
                } else {
                    VramView {
                        tables: (self.tables.0, Ram::after_write(self.tables.1, table_addr, data)),
                        ..self
                    }
                }
            },
        }
    }
}

impl Vram {
    /// Name-table memory answering at `start_address` and the 4 KiB after it.
    pub fn new(start_address: u16) -> (r: Self)
        ensures
            r@.wf(),
            r@ == spec_vram(start_address),
    {
        Self {
            range: AddressRange::new(start_address, start_address.wrapping_add(0x0FFF)),
            table_0: Ram::new(NAME_TABLE_SIZE, 0),
            table_1: Ram::new(NAME_TABLE_SIZE, 0),
        }
    }

    pub fn range(&self) -> (r: AddressRange)
        ensures
            r == self@.range,
    {
        self.range
    }

    pub fn read(&self, mirror: Option<MirrorMode>, address: u16) -> (r: u8)
        requires
            self@.wf(),
        ensures
            r == self@.read(mirror, address),
    {
        match mirror {
            None => 0,
            Some(m) => {
                proof {
                    lemma_and_le_u16(address, 0x03FF);
                }
                let table_addr = address & 0x03FF;
                if table_index_of(m, address) == 0 {
                    self.table_0.peek(table_addr)
                } else {
                    self.table_1.peek(table_addr)
                }
            },
        }
    }

    pub fn write(&mut self, mirror: Option<MirrorMode>, address: u16, data: u8)
        requires
            old(self)@.wf(),
        ensures
            final(self)@.wf(),
            final(self)@ == old(self)@.after_write(mirror, address, data),
    {
        match mirror {
            None => {},
            Some(m) => {
                proof {
                    lemma_and_le_u16(address, 0x03FF);
                }
                let table_addr = address & 0x03FF;
                if table_index_of(m, address) == 0 {
                    self.table_0.write(table_addr, data);
                } else {
                    self.table_1.write(table_addr, data);
                }
            },
        }
    }
}


/// The buttons of a controller, one bit each.
#[derive(Clone, Copy, PartialEq, Eq, Debug, Structural)]
pub struct Buttons {
    pub bits: u8,
}

pub const BUTTON_A: u8 = 0b10000000;

pub const BUTTON_B: u8 = 0b01000000;

pub const BUTTON_SELECT: u8 = 0b00100000;

pub const BUTTON_START: u8 = 0b00010000;

pub const BUTTON_UP: u8 = 0b00001000;

pub const BUTTON_DOWN: u8 = 0b00000100;

pub const BUTTON_LEFT: u8 = 0b00000010;

pub const BUTTON_RIGHT: u8 = 0b00000001;

impl Buttons {
    pub open spec fn spec_bits(self) -> u8 {
        self.bits
    }

    /// No button pressed.
    pub fn empty() -> (r: Self)
        ensures
            r.spec_bits() == 0,
    {
        Self { bits: 0 }
    }

    /// The buttons whose bits are set in `bits`, in the order A, B, Select, Start, Up,
    /// Down, Left, Right from the highest bit.
    pub fn from_bits(bits: u8) -> (r: Self)
        ensures
            r.spec_bits() == bits,
    {
        Self { bits }
    }

    pub fn bits(&self) -> (r: u8)
        ensures
            r == self.spec_bits(),
    {
        self.bits
    }

    /// Presses the buttons of `mask` as well.
    pub fn insert(&mut self, mask: u8)
        ensures
            final(self).spec_bits() == old(self).spec_bits() | mask,
    {
        self.bits = self.bits | mask;
    }

    /// Releases the buttons of `mask`.
    pub fn remove(&mut self, mask: u8)
        ensures
            final(self).spec_bits() == old(self).spec_bits() & !mask,
    {
        self.bits = self.bits & !mask;
    }
}

/// Abstract state of a [`VController`].
pub struct VControllerView {
    pub range: AddressRange,
    pub controller: Seq<u8>,
    pub buffer: Seq<u8>,
}

/// The two controller ports: a write latches the buttons, and each read shifts out the
/// next one, A first.
pub struct VController {
    range: AddressRange,
    controller: [u8; 2],
    buffer: [u8; 2],
}

impl View for VController {
    type V = VControllerView;

    closed spec fn view(&self) -> VControllerView {
        VControllerView { range: self.range, controller: self.controller@, buffer: self.buffer@ }
    }
}

impl VController {
    pub fn new(start_address: u16) -> (r: Self)
        ensures
            r@.range == (AddressRange {
                start: start_address,
                end: ((start_address + 1) % 0x10000) as u16,
            }),
            r@.controller == seq![0u8, 0u8],
            r@.buffer == seq![0u8, 0u8],
            Self::wf(r@),
    {
        let r = Self {
            range: AddressRange::new(start_address, start_address.wrapping_add(1)),
            controller: [0; 2],
            buffer: [0; 2],
        };
        assert(r@.controller =~= seq![0u8, 0u8]);
        assert(r@.buffer =~= seq![0u8, 0u8]);
        r
    }

    /// Records the buttons held on both controllers.
    pub fn update_state(&mut self, controller_0: Buttons, controller_1: Buttons)
        ensures
            final(self)@ == (VControllerView {
                buffer: seq![controller_0.spec_bits(), controller_1.spec_bits()],
                ..old(self)@
            }),
    {
        self.buffer = [controller_0.bits(), controller_1.bits()];
        assert(self@.buffer =~= seq![controller_0.spec_bits(), controller_1.spec_bits()]);
    }
}

impl BusComponent for VController {
    open spec fn wf(state: VControllerView) -> bool {
        &&& state.controller.len() == 2
        &&& state.buffer.len() == 2
        &&& state.range.spec_len() == 2
    }

    open spec fn read_range_of(state: VControllerView) -> Option<AddressRange> {
        Some(state.range)
    }

    open spec fn write_range_of(state: VControllerView) -> Option<AddressRange> {
        Some(state.range)
    }

    open spec fn read_value(state: VControllerView, address: u16) -> u8 {
        state.controller[address as int] >> 7
    }

    open spec fn after_read(state: VControllerView, address: u16) -> VControllerView {
        VControllerView {
            controller: state.controller.update(
                address as int,
                state.controller[address as int] << 1,
            ),
            ..state
        }
    }

    open spec fn after_write(state: VControllerView, address: u16, data: u8) -> VControllerView {
        VControllerView {
            controller: state.controller.update(address as int, state.buffer[address as int]),
            ..state
        }
    }

    fn read_range(&self) -> (r: Option<AddressRange>) {
        Some(self.range)
    }

    fn write_range(&self) -> (r: Option<AddressRange>) {
        Some(self.range)
    }

    fn peek(&self, address: u16) -> (r: u8) {
        self.controller[address as usize] >> 7
    }

    fn read(&mut self, address: u16) -> (r: u8) {
        // Reading is sequential
        let result = self.controller[address as usize] >> 7;
        self.controller[address as usize] = self.controller[address as usize] << 1;
        assert(self@.controller =~= old(self)@.controller.update(
            address as int,
            old(self)@.controller[address as int] << 1,
        ));
        result
    }

    fn write(&mut self, address: u16, data: u8) {
        // The controllers cannot be written: this latches the buttons held
        self.controller[address as usize] = self.buffer[address as usize];
        assert(self@.controller =~= old(self)@.controller.update(
            address as int,
            old(self)@.buffer[address as int],
        ));
    }
}

/// The sprite DMA port: a write names the page of CPU memory to copy into object
/// attribute memory.
#[derive(Clone, Copy, Debug)]
pub struct DmaInterface {
    pub range: AddressRange,
    pub page: u8,
    pub active: bool,
}

impl View for DmaInterface {
    type V = DmaInterface;

    open spec fn view(&self) -> DmaInterface {
        *self
    }
}

impl DmaInterface {
    pub fn new(address: u16) -> (r: Self)
        ensures
            r == (DmaInterface {
                range: AddressRange { start: address, end: address },
                page: 0,
                active: false,
            }),
    {
        Self { range: AddressRange::new(address, address), page: 0, active: false }
    }
}

impl BusComponent for DmaInterface {
    open spec fn wf(state: DmaInterface) -> bool {
        true
    }

    open spec fn read_range_of(state: DmaInterface) -> Option<AddressRange> {
        None
    }

    open spec fn write_range_of(state: DmaInterface) -> Option<AddressRange> {
        Some(state.range)
    }

    open spec fn read_value(state: DmaInterface, address: u16) -> u8 {
        0
    }

    open spec fn after_read(state: DmaInterface, address: u16) -> DmaInterface {
        state
    }

    open spec fn after_write(state: DmaInterface, address: u16, data: u8) -> DmaInterface {
        DmaInterface { page: data, active: true, ..state }
    }

    fn read_range(&self) -> (r: Option<AddressRange>) {
        None
    }

    fn write_range(&self) -> (r: Option<AddressRange>) {
        Some(self.range)
    }

    fn peek(&self, address: u16) -> (r: u8) {
        0
    }

    fn read(&mut self, address: u16) -> (r: u8) {
        0
    }

    fn write(&mut self, address: u16, data: u8) {
        self.page = data;
        self.active = true;
    }
}


/// Size of the console's work RAM, mirrored up to 0x1FFF.
pub const RAM_SIZE: u16 = 0x0800;

/// First CPU address of the PPU registers, mirrored every 8 bytes up to 0x3FFF.
pub const PPU_START_ADDRESS: u16 = 0x2000;

/// First CPU address of the APU channel registers.
pub const APU_START_ADDRESS: u16 = 0x4000;

/// CPU address of the sprite DMA port.
pub const DMA_ADDRESS: u16 = 0x4014;

/// CPU address of the APU status and channel-enable register.
pub const APU_CONTROL_ADDRESS: u16 = 0x4015;

/// CPU address of the first controller port (the second follows).
pub const CONTROLLER_START_ADDRESS: u16 = 0x4016;

/// Abstract state of a [`NesBus`].
pub struct NesBusView {
    pub ram: RamView,
    pub ppu: PpuView,
    pub apu: Apu2A03,
    pub apu_control: Apu2A03Control,
    pub dma: DmaInterface,
    pub controller: VControllerView,
}

/// The CPU's bus: work RAM, the PPU registers, the APU, the DMA port, the controller ports
/// and the cartridge (which sits in the PPU, whose pattern tables it also holds).
pub struct NesBus {
    ram: Ram,
    ppu: Ppu2C02,
    apu: Apu2A03,
    apu_control: Apu2A03Control,
    dma: DmaInterface,
    controller: VController,
}

impl View for NesBus {
    type V = NesBusView;

    closed spec fn view(&self) -> NesBusView {
        NesBusView {
            ram: self.ram@,
            ppu: self.ppu@,
            apu: self.apu,
            apu_control: self.apu_control,
            dma: self.dma,
            controller: self.controller@,
        }
    }
}

/// The PPU register that a CPU address in 0x2000-0x3FFF selects.
pub open spec fn ppu_register(address: u16) -> u16 {
    ((address - PPU_START_ADDRESS) % 8) as u16
}

impl NesBus {
    /// Every component on its own addresses, which do not overlap: a read or write reaches
    /// at most one of them.
    pub open spec fn layout_ok(v: NesBusView) -> bool {
        &&& Ram::wf(v.ram)
        &&& v.ram.data.len() == RAM_SIZE
        &&& v.ppu.wf()
        &&& v.apu.channels_ok()
        &&& v.apu.range == (AddressRange { start: APU_START_ADDRESS, end: 0x4013 })
        &&& VController::wf(v.controller)
    }

    /// The bus that [`NesBus::new`] builds: 2 KiB of zeroed work RAM, the PPU at 0x2000, the
    /// APU at 0x4000 with its control register at 0x4015, the DMA port at 0x4014 and the
    /// controllers at 0x4016, each as its constructor leaves it, and no cartridge.
    pub open spec fn spec_new() -> NesBusView {
        NesBusView {
            ram: spec_ram(RAM_SIZE, 0),
            ppu: spec_new_ppu(PPU_START_ADDRESS),
            apu: Apu2A03::spec_new(APU_START_ADDRESS),
            apu_control: Apu2A03Control {
                range: AddressRange { start: APU_CONTROL_ADDRESS, end: APU_CONTROL_ADDRESS },
            },
            dma: DmaInterface {
                range: AddressRange { start: DMA_ADDRESS, end: DMA_ADDRESS },
                page: 0,
                active: false,
            },
            controller: VControllerView {
                range: AddressRange {
                    start: CONTROLLER_START_ADDRESS,
                    end: 0x4017,
                },
                controller: seq![0u8, 0u8],
                buffer: seq![0u8, 0u8],
            },
        }
    }

    pub fn new() -> (r: Self)
        ensures
            Self::layout_ok(r@),
            r@ == Self::spec_new(),
    {
        proof {
            reveal(wrap16);
        }
        Self {
            ram: Ram::new(RAM_SIZE, 0),
            ppu: Ppu2C02::new(PPU_START_ADDRESS),
            apu: Apu2A03::new(APU_START_ADDRESS),
            apu_control: Apu2A03Control::new(APU_CONTROL_ADDRESS),
            dma: DmaInterface::new(DMA_ADDRESS),
            controller: VController::new(CONTROLLER_START_ADDRESS),
        }
    }
}

impl BusComponent for NesBus {
    open spec fn wf(state: NesBusView) -> bool {
        NesBus::layout_ok(state)
    }

    open spec fn read_range_of(state: NesBusView) -> Option<AddressRange> {
        Some(AddressRange { start: 0, end: 0xFFFF })
    }

    open spec fn write_range_of(state: NesBusView) -> Option<AddressRange> {
        Some(AddressRange { start: 0, end: 0xFFFF })
    }

    /// What the CPU reads at `address`.
    open spec fn read_value(state: NesBusView, address: u16) -> u8 {
        if address <= 0x1FFF {
            state.ram.data[(address % RAM_SIZE) as int]
        } else if address <= 0x3FFF {
            state.ppu.register_read_value(ppu_register(address))
        } else if address == APU_CONTROL_ADDRESS {
            control_status(state.apu)
        } else if address == CONTROLLER_START_ADDRESS || address == CONTROLLER_START_ADDRESS + 1 {
            VController::read_value(state.controller, (address - CONTROLLER_START_ADDRESS) as u16)
        } else if address >= CARTRIDGE_CPU_START {
            cartridge_cpu_read_value(
                state.ppu.bus.cartridge,
                (address - CARTRIDGE_CPU_START) as u16,
            )
        } else {
            0
        }
    }

    open spec fn after_read(state: NesBusView, address: u16) -> NesBusView {
        if 0x2000 <= address <= 0x3FFF {
            NesBusView { ppu: state.ppu.after_register_read(ppu_register(address)), ..state }
        } else if address == CONTROLLER_START_ADDRESS || address == CONTROLLER_START_ADDRESS + 1 {
            NesBusView {
                controller: VController::after_read(
                    state.controller,
                    (address - CONTROLLER_START_ADDRESS) as u16,
                ),
                ..state
            }
        } else {
            state
        }
    }

    /// What a CPU write at `address` changes.
    open spec fn after_write(state: NesBusView, address: u16, data: u8) -> NesBusView {
        if address <= 0x1FFF {
            NesBusView { ram: Ram::after_write(state.ram, address % RAM_SIZE, data), ..state }
        } else if address <= 0x3FFF {
            NesBusView { ppu: state.ppu.after_register_write(ppu_register(address), data), ..state }
        } else if address <= APU_START_ADDRESS + 0x13 {
            NesBusView { apu: state.apu.spec_write((address - APU_START_ADDRESS) as u16, data), ..state }
        } else if address == DMA_ADDRESS {
            NesBusView { dma: DmaInterface { page: data, active: true, ..state.dma }, ..state }
        } else if address == APU_CONTROL_ADDRESS {
            NesBusView { apu: control_write(state.apu, data), ..state }
        } else if address == CONTROLLER_START_ADDRESS || address == CONTROLLER_START_ADDRESS + 1 {
            NesBusView {
                controller: VController::after_write(
                    state.controller,
                    (address - CONTROLLER_START_ADDRESS) as u16,
                    data,
                ),
                ..state
            }
        } else if address >= CARTRIDGE_CPU_START {
            NesBusView {
                ppu: Ppu2C02::with_cartridge(
                    state.ppu,
                    cartridge_after_cpu_write(
                        state.ppu.bus.cartridge,
                        (address - CARTRIDGE_CPU_START) as u16,
                        data,
                    ),
                ),
                ..state
            }
        } else {
            state
        }
    }

    fn read_range(&self) -> (r: Option<AddressRange>) {
        Some(AddressRange::new(0, 0xFFFF))
    }

    fn write_range(&self) -> (r: Option<AddressRange>) {
        Some(AddressRange::new(0, 0xFFFF))
    }

    fn peek(&self, address: u16) -> (r: u8) {
        if address <= 0x1FFF {
            self.ram.peek(address % RAM_SIZE)
        } else if address <= 0x3FFF {
            self.ppu.register_value((address - PPU_START_ADDRESS) % 8)
        } else if address == APU_CONTROL_ADDRESS {
            self.apu_control.read(&self.apu)
        } else if address == CONTROLLER_START_ADDRESS || address == CONTROLLER_START_ADDRESS + 1 {
            self.controller.peek(address - CONTROLLER_START_ADDRESS)
        } else if address >= CARTRIDGE_CPU_START {
            self.ppu.cartridge_cpu_read(address - CARTRIDGE_CPU_START)
        } else {
            0
        }
    }

    fn read(&mut self, address: u16) -> (r: u8) {
        if address <= 0x1FFF {
            self.ram.peek(address % RAM_SIZE)
        } else if address <= 0x3FFF {
            self.ppu.read((address - PPU_START_ADDRESS) % 8)
        } else if address == APU_CONTROL_ADDRESS {
            self.apu_control.read(&self.apu)
        } else if address == CONTROLLER_START_ADDRESS || address == CONTROLLER_START_ADDRESS + 1 {
            self.controller.read(address - CONTROLLER_START_ADDRESS)
        } else if address >= CARTRIDGE_CPU_START {
            self.ppu.cartridge_cpu_read(address - CARTRIDGE_CPU_START)
        } else {
            0
        }
    }

    fn write(&mut self, address: u16, data: u8) {
        if address <= 0x1FFF {
            self.ram.write(address % RAM_SIZE, data);
        } else if address <= 0x3FFF {
            self.ppu.write((address - PPU_START_ADDRESS) % 8, data);
        } else if address <= APU_START_ADDRESS + 0x13 {
            self.apu.write_register(address - APU_START_ADDRESS, data);
        } else if address == DMA_ADDRESS {
            self.dma.page = data;
            self.dma.active = true;
        } else if address == APU_CONTROL_ADDRESS {
            self.apu_control.write(&mut self.apu, data);
        } else if address == CONTROLLER_START_ADDRESS || address == CONTROLLER_START_ADDRESS + 1 {
            self.controller.write(address - CONTROLLER_START_ADDRESS, data);
        } else if address >= CARTRIDGE_CPU_START {
            self.ppu.cartridge_cpu_write(address - CARTRIDGE_CPU_START, data);
        }
    }
}


/// What the five channels put out after an even APU clock, on their integer scales (see
/// the channels' `output` functions).
#[derive(Clone, Copy, Debug)]
pub struct ChannelOutputs {
    pub pulse_1: Option<(u8, u8)>,
    pub pulse_2: Option<(u8, u8)>,
    pub triangle: Option<u8>,
    pub noise: Option<u8>,
    pub dmc: Option<u8>,
}

pub open spec fn channel_outputs(apu: Apu2A03) -> ChannelOutputs {
    ChannelOutputs {
        pulse_1: apu.pulse_channel_1.spec_output(),
        pulse_2: apu.pulse_channel_2.spec_output(),
        triangle: apu.triangle_channel.spec_output(),
        noise: apu.noise_channel.spec_output(),
        dmc: apu.dmc_channel.spec_output(),
    }
}

fn read_channel_outputs(apu: &Apu2A03) -> (r: ChannelOutputs)
    requires
        apu.channels_ok(),
    ensures
        r == channel_outputs(*apu),
{
    ChannelOutputs {
        pulse_1: apu.pulse_channel_1.output(),
        pulse_2: apu.pulse_channel_2.output(),
        triangle: apu.triangle_channel.output(),
        noise: apu.noise_channel.output(),
        dmc: apu.dmc_channel.output(),
    }
}

/// A read during sprite DMA: the PPU is busy taking the bytes, so its registers do not
/// answer (0, no side effect).
pub open spec fn dma_read(b: NesBusView, address: u16) -> (u8, NesBusView) {
    if 0x2000 <= address <= 0x3FFF {
        (0, b)
    } else {
        (NesBus::read_value(b, address), NesBus::after_read(b, address))
    }
}

/// The first `n` bytes of page `page` copied into object attribute memory.
pub open spec fn dma_copy(b: NesBusView, page: u8, n: nat) -> NesBusView
    decreases n,
{
    if n == 0 {
        b
    } else {
        let prev = dma_copy(b, page, (n - 1) as nat);
        let i = (n - 1) as u16;
        let (v, b2) = dma_read(prev, ((page as u16) << 8) | i);
        NesBusView { ppu: PpuView { oam: b2.ppu.oam.update(i as int, v), ..b2.ppu }, ..b2 }
    }
}

/// One APU clock on the bus: the delta-modulation channel's fetch (if any) is read from
/// the bus, and an even clock yields the channel outputs.
pub open spec fn apu_step(b: NesBusView) -> (NesBusView, Option<ChannelOutputs>) {
    let (byte, b1) = match b.apu.spec_dmc_fetch_address() {
        Some(a) => (NesBus::read_value(b, a), NesBus::after_read(b, a)),
        None => (0u8, b),
    };
    let apu = b1.apu.spec_clock_one(byte);
    (
        NesBusView { apu, ..b1 },
        if apu.even_cycle {
            Some(channel_outputs(apu))
        } else {
            None
        },
    )
}

/// `n` APU clocks on the bus, and the outputs of the even ones in order.
pub open spec fn apu_run(b: NesBusView, n: nat) -> (NesBusView, Seq<ChannelOutputs>)
    decreases n,
{
    if n == 0 {
        (b, Seq::empty())
    } else {
        let (b1, outs) = apu_run(b, (n - 1) as nat);
        let (b2, o) = apu_step(b1);
        (
            b2,
            match o {
                Some(x) => outs.push(x),
                None => outs,
            },
        )
    }
}

/// Abstract state of a [`Nes`].
pub struct NesView {
    pub cpu: Cpu6502State<NesBusView>,
    pub cycle_even: bool,
}

/// The whole console: a 6502 (without decimal mode) on the console's bus.
pub struct Nes {
    cpu: Cpu6502<NesBus>,
    cycle_even: bool,
}

impl View for Nes {
    type V = NesView;

    closed spec fn view(&self) -> NesView {
        NesView { cpu: self.cpu@, cycle_even: self.cycle_even }
    }
}

/// The console after acknowledging the PPU's non-maskable interrupt and the cartridge's
/// interrupt (each taken, and cleared, if pending).
pub open spec fn acknowledged(b: NesBusView) -> NesBusView {
    let b1 = NesBusView { ppu: b.ppu.with_regs(PpuState { nmi: false, ..b.ppu.regs }), ..b };
    if cartridge_interrupt(b1.ppu.bus.cartridge) {
        NesBusView {
            ppu: Ppu2C02::with_cartridge(
                b1.ppu,
                match b1.ppu.bus.cartridge {
                    Some(c) => Some(CartridgeView { mapper: c.mapper.after_reset_interrupt(), ..c }),
                    None => None,
                },
            ),
            ..b1
        }
    } else {
        b1
    }
}

impl Nes {
    pub open spec fn wf(n: NesView) -> bool {
        Cpu6502::<NesBus>::bus_ok(n.cpu.bus)
    }

    /// The next step can be taken: a DMA transfer or an interrupt is pending, or the
    /// instruction at the program counter is one the processor executes.
    pub open spec fn ready(n: NesView) -> bool {
        ||| n.cpu.bus.dma.active
        ||| n.cpu.bus.ppu.regs.nmi
        ||| cartridge_interrupt(n.cpu.bus.ppu.bus.cartridge)
        ||| Cpu6502::<NesBus>::can_step(n.cpu, InstructionSet::Nmos6502)
    }

    /// The processor's part of a step: a pending sprite DMA (512 cycles, 513 on an odd
    /// cycle), else a pending NMI, else a pending cartridge interrupt, else the next
    /// instruction; the cycle parity is kept while only even numbers of cycles pass.
    #[verifier::opaque]
    pub open spec fn cpu_phase(n: NesView) -> (u32, NesView) {
        let nmi = n.cpu.bus.ppu.regs.nmi;
        let irq = cartridge_interrupt(n.cpu.bus.ppu.bus.cartridge);
        let b2 = acknowledged(n.cpu.bus);
        let cpu1 = Cpu6502State { bus: b2, ..n.cpu };
        let (cycles, cpu2) = if b2.dma.active {
            let b3 = NesBusView { dma: DmaInterface { active: false, ..b2.dma }, ..b2 };
            (
                (512 + if n.cycle_even {
                    0int
                } else {
                    1
                }) as u32,
                Cpu6502State { bus: dma_copy(b3, b2.dma.page, 256), ..cpu1 },
            )
        } else if nmi {
            Cpu6502::<NesBus>::spec_nmi(cpu1)
        } else if irq {
            Cpu6502::<NesBus>::spec_irq(cpu1)
        } else {
            Cpu6502::<NesBus>::spec_step(cpu1, InstructionSet::Nmos6502)
        };
        (cycles, NesView { cpu: cpu2, cycle_even: n.cycle_even && cycles % 2 == 0 })
    }

    /// One step of the console: the processor's part (see [`Nes::cpu_phase`]), then the
    /// APU runs for as many cycles and the PPU for three times as many. Returns the cycles,
    /// the new state and the channel outputs of the even APU clocks.
    pub open spec fn spec_next_instruction(n: NesView) -> (u32, NesView, Seq<ChannelOutputs>) {
        let (cycles, n2) = Self::cpu_phase(n);
        let (b5, outs) = apu_run(n2.cpu.bus, cycles as nat);
        let b6 = NesBusView { ppu: spec_clocks(b5.ppu, (cycles * 3) as nat), ..b5 };
        (cycles, NesView { cpu: Cpu6502State { bus: b6, ..n2.cpu }, ..n2 }, outs)
    }

    /// The console that [`Nes::new`] builds: an NMOS 6502 without decimal mode, its registers
    /// and flags cleared and not yet reset, on a fresh bus ([`NesBus::spec_new`]), at an even
    /// cycle.
    pub open spec fn spec_new() -> NesView {
        NesView {
            cpu: Cpu6502State {
                a: 0,
                x: 0,
                y: 0,
                sp: 0,
                pc: 0,
                status: StatusFlags {
                    c: false,
                    z: false,
                    i: false,
                    d: false,
                    b: false,
                    u: false,
                    v: false,
                    n: false,
                },
                bus: NesBus::spec_new(),
                emulate_indirect_jmp_bug: true,
                emulate_invalid_decimal_flags: true,
                enable_decimal_mode: false,
            },
            cycle_even: true,
        }
    }

    /// A console with no cartridge, its processor not yet reset.
    pub fn new() -> (r: Self)
        ensures
            Self::wf(r@),
            r@ == Self::spec_new(),
    {
        Self { cpu: Cpu6502::new(NesBus::new(), false), cycle_even: true }
    }

    /// Whether the next step can be taken (see [`Nes::ready`]).
    pub fn is_ready(&self) -> (r: bool)
        requires
            Self::wf(self@),
        ensures
            r == Self::ready(self@),
    {
        self.cpu.bus.dma.active || self.cpu.bus.ppu.check_nmi_pending()
            || self.cpu.bus.ppu.cartridge_interrupt_state() || self.cpu.can_execute_next(
            InstructionSet::Nmos6502,
        )
    }

    /// The console with another cartridge slot content, and nothing else changed.
    pub open spec fn with_cartridge(n: NesView, c: Option<CartridgeView>) -> NesView {
        let bus = NesBusView { ppu: Ppu2C02::with_cartridge(n.cpu.bus.ppu, c), ..n.cpu.bus };
        NesView { cpu: Cpu6502State { bus, ..n.cpu }, ..n }
    }

    /// Inserts a cartridge.
    pub fn set_cartridge(&mut self, cartridge: Cartridge)
        requires
            Self::wf(old(self)@),
            cartridge@.wf(),
        ensures
            Self::wf(final(self)@),
            final(self)@ == Self::with_cartridge(old(self)@, Some(cartridge@)),
    {
        self.cpu.bus.ppu.set_cartridge(cartridge);
    }

    /// Takes the cartridge out.
    pub fn remove_cartridge(&mut self) -> (r: Option<Cartridge>)
        requires
            Self::wf(old(self)@),
        ensures
            Self::wf(final(self)@),
            final(self)@ == Self::with_cartridge(old(self)@, None),
            match r {
                Some(c) => old(self)@.cpu.bus.ppu.bus.cartridge == Some(c@),
                None => old(self)@.cpu.bus.ppu.bus.cartridge is None,
            },
    {
        self.cpu.bus.ppu.remove_cartridge()
    }

    /// The console after a reset: the processor, then the PPU and the APU are reset, and the
    /// cartridge's interrupt is cleared and its mapper reset.
    pub open spec fn spec_reset(n: NesView) -> NesView {
        let cpu = Cpu6502::<NesBus>::spec_reset(n.cpu).1;
        let ppu = ppu_reset(cpu.bus.ppu);
        let cart = match ppu.bus.cartridge {
            Some(c) => Some(
                CartridgeView { mapper: c.mapper.after_reset_interrupt().after_reset(), ..c },
            ),
            None => None,
        };
        let bus = NesBusView {
            ppu: Ppu2C02::with_cartridge(ppu, cart),
            apu: cpu.bus.apu.spec_reset(),
            ..cpu.bus
        };
        NesView { cpu: Cpu6502State { bus, ..cpu }, ..n }
    }

    /// Resets the processor, the PPU, the APU and the cartridge's mapper.
    pub fn reset(&mut self)
        requires
            Self::wf(old(self)@),
        ensures
            Self::wf(final(self)@),
            final(self)@ == Self::spec_reset(old(self)@),
    {
        self.cpu.reset();
        self.cpu.bus.ppu.reset();
        self.cpu.bus.apu.reset();
        self.cpu.bus.ppu.cartridge_reset_interrupt();
        self.cpu.bus.ppu.cartridge_reset_mapper();
    }

    /// The last finished frame.
    pub fn screen(&self) -> (r: &PixelBuffer)
        ensures
            r@ == self@.cpu.bus.ppu.front,
    {
        self.cpu.bus.ppu.get_buffer()
    }

    /// Records the buttons held on the two controllers.
    pub fn update_input_state(&mut self, controller_0: Buttons, controller_1: Buttons)
        requires
            Self::wf(old(self)@),
        ensures
            Self::wf(final(self)@),
            final(self)@.cpu.bus.controller.buffer == seq![
                controller_0.spec_bits(),
                controller_1.spec_bits(),
            ],
    {
        self.cpu.bus.controller.update_state(controller_0, controller_1);
    }
}


impl Nes {
    /// Acknowledges the pending interrupts; returns whether the PPU's NMI and the
    /// cartridge's interrupt were pending.
    #[verifier::spinoff_prover]
    fn acknowledge(&mut self) -> (r: (bool, bool))
        requires
            Self::wf(old(self)@),
        ensures
            Self::wf(final(self)@),
            r.0 == old(self)@.cpu.bus.ppu.regs.nmi,
            r.1 == cartridge_interrupt(old(self)@.cpu.bus.ppu.bus.cartridge),
            final(self)@ == (NesView {
                cpu: Cpu6502State { bus: acknowledged(old(self)@.cpu.bus), ..old(self)@.cpu },
                ..old(self)@
            }),
    {
        let nmi = self.cpu.bus.ppu.check_nmi();
        let irq = self.cpu.bus.ppu.cartridge_interrupt_state();
        if irq {
            self.cpu.bus.ppu.cartridge_reset_interrupt();
        }
        (nmi, irq)
    }

    /// Copies the page the DMA port names into object attribute memory.
    #[verifier::spinoff_prover]
    fn dma_transfer(&mut self)
        requires
            Self::wf(old(self)@),
        ensures
            Self::wf(final(self)@),
            final(self)@ == (NesView {
                cpu: Cpu6502State {
                    bus: dma_copy(
                        NesBusView {
                            dma: DmaInterface { active: false, ..old(self)@.cpu.bus.dma },
                            ..old(self)@.cpu.bus
                        },
                        old(self)@.cpu.bus.dma.page,
                        256,
                    ),
                    ..old(self)@.cpu
                },
                ..old(self)@
            }),
    {
        self.cpu.bus.dma.active = false;
        let page = self.cpu.bus.dma.page;
        let ghost b3 = self@.cpu.bus;
        let ghost cpu1 = self@.cpu;
        let mut i: u16 = 0;
        while i < 256
            invariant
                0 <= i <= 256,
                Self::wf(self@),
                self@.cpu == (Cpu6502State { bus: self@.cpu.bus, ..cpu1 }),
                self@.cpu.bus == dma_copy(b3, page, i as nat),
                self@.cycle_even == old(self)@.cycle_even,
            decreases 256 - i,
        {
            let a = ((page as u16) << 8) | i;
            let data = if (0x2000 <= a) && (a <= 0x3FFF) {
                0
            } else {
                self.cpu.bus.read(a)
            };
            self.cpu.bus.ppu.dma_write(i as u8, data);
            i = i + 1;
        }
    }

    /// Runs the APU for `cycles` clocks, answering its sample fetches from the bus.
    #[verifier::spinoff_prover]
    fn run_apu(&mut self, cycles: u32) -> (outs: Vec<ChannelOutputs>)
        requires
            Self::wf(old(self)@),
        ensures
            Self::wf(final(self)@),
            (final(self)@.cpu.bus, outs@) == apu_run(old(self)@.cpu.bus, cycles as nat),
            final(self)@ == (NesView {
                cpu: Cpu6502State { bus: final(self)@.cpu.bus, ..old(self)@.cpu },
                ..old(self)@
            }),
    {
        let ghost cpu2 = self@.cpu;
        let mut outs: Vec<ChannelOutputs> = Vec::new();
        let mut k: u32 = 0;
        while k < cycles
            invariant
                0 <= k <= cycles,
                Self::wf(self@),
                self@.cpu == (Cpu6502State { bus: self@.cpu.bus, ..cpu2 }),
                self@.cycle_even == old(self)@.cycle_even,
                (self@.cpu.bus, outs@) == apu_run(cpu2.bus, k as nat),
            decreases cycles - k,
        {
            let fetch = self.cpu.bus.apu.dmc_fetch_address();
            let byte: u8 = match fetch {
                Some(a) => self.cpu.bus.read(a),
                None => 0,
            };
            let even = self.cpu.bus.apu.clock_one(byte);
            if even {
                let o = read_channel_outputs(&self.cpu.bus.apu);
                outs.push(o);
            }
            k = k + 1;
        }
        outs
    }

    /// The processor's part of a step (see [`Nes::cpu_phase`]); returns its cycles.
    #[verifier::spinoff_prover]
    fn run_cpu_phase(&mut self) -> (r: u32)
        requires
            Self::wf(old(self)@),
            Self::ready(old(self)@),
        ensures
            Self::wf(final(self)@),
            (r, final(self)@) == Self::cpu_phase(old(self)@),
            r <= 513,
    {
        proof {
            reveal(Nes::cpu_phase);
        }
        let (nmi, irq) = self.acknowledge();
        let cycles: u32 = if self.cpu.bus.dma.active {
            self.dma_transfer();
            if self.cycle_even {
                512
            } else {
                513
            }
        } else if nmi {
            self.cpu.nmi()
        } else if irq {
            self.cpu.irq()
        } else {
            self.cpu.execute_next_instruction()
        };
        self.cycle_even = self.cycle_even && (cycles % 2 == 0);
        cycles
    }

    /// One step of the console (see [`Nes::spec_next_instruction`]): returns the cycles
    /// taken and the channel outputs after each even APU clock.
    pub fn next_instruction(&mut self) -> (r: (u32, Vec<ChannelOutputs>))
        requires
            Self::wf(old(self)@),
            Self::ready(old(self)@),
        ensures
            Self::wf(final(self)@),
            (r.0, final(self)@, r.1@) == Self::spec_next_instruction(old(self)@),
    {
        let cycles = self.run_cpu_phase();
        let outs = self.run_apu(cycles);
        self.cpu.bus.ppu.clock(cycles * 3);
        (cycles, outs)
    }
}

} // verus!
