//! Properties of the cartridge hardware that hold across several operations.
use crate::system::cartridge::{spec_header, spec_load_cartridge, CartridgeView, CARTRIDGE_CPU_START};
use crate::system::mapper::{
    mmc1_commit, spec_mapper_from_id, MapperReadResult, MapperView, MirrorMode, Mmc1Registers,
    Mmc1View, Mmc3View, UxRom,
};
use crate::system::nes::VramView;
use vstd::arithmetic::power2::lemma2_to64;
use vstd::bits::{lemma_low_bits_mask_values, lemma_u16_low_bits_mask_is_mod};
use crate::bits::{lemma_and_le_u16, wrap16};
use vstd::prelude::*;

verus! {

/// The value five serial writes assemble: bit 0 of each byte, the first write lowest.
pub open spec fn mmc1_serial_value(d: Seq<u8>) -> u8 {
    (d[0] & 1) | ((d[1] & 1) << 1) | ((d[2] & 1) << 2) | ((d[3] & 1) << 3) | ((d[4] & 1) << 4)
}

proof fn lemma_serial_bits(d0: u8, d1: u8, d2: u8, d3: u8, d4: u8)
    ensures
        ((((((((((0u8 >> 1) | ((d0 & 1) << 4)) >> 1) | ((d1 & 1) << 4)) >> 1) | ((d2 & 1) << 4))
            >> 1) | ((d3 & 1) << 4)) >> 1) | ((d4 & 1) << 4)) == (d0 & 1) | ((d1 & 1) << 1) | ((
        d2 & 1) << 2) | ((d3 & 1) << 3) | ((d4 & 1) << 4),
{
    assert(((((((((((0u8 >> 1) | ((d0 & 1) << 4)) >> 1) | ((d1 & 1) << 4)) >> 1) | ((d2 & 1)
        << 4)) >> 1) | ((d3 & 1) << 4)) >> 1) | ((d4 & 1) << 4)) == (d0 & 1) | ((d1 & 1) << 1)
        | ((d2 & 1) << 2) | ((d3 & 1) << 3) | ((d4 & 1) << 4)) by (bit_vector);
}

/// MMC1 serial loading: from an empty shift register, five writes at 0x8000 or above whose
/// bit 7 is clear load the register that the last write's address selects with the five
/// low bits of the writes, first write lowest, and leave the shift register empty.
pub proof fn law_mmc1_serial_load(m: Mmc1View, addrs: Seq<u16>, d: Seq<u8>)
    requires
        m.wf(),
        m.regs.load_count == 0,
        m.regs.load == 0,
        addrs.len() == 5,
        d.len() == 5,
        forall|i: int| 0 <= i < 5 ==> #[trigger] addrs[i] >= 0x8000,
        forall|i: int| 0 <= i < 5 ==> #[trigger] (d[i] & 0x80) == 0,
    ensures
        m.after_cpu_write(addrs[0], d[0]).after_cpu_write(addrs[1], d[1]).after_cpu_write(
            addrs[2],
            d[2],
        ).after_cpu_write(addrs[3], d[3]).after_cpu_write(addrs[4], d[4]) == (Mmc1View {
            regs: Mmc1Registers {
                load: 0,
                load_count: 0,
                ..mmc1_commit(m.regs, (addrs[4] >> 13) & 0x03, mmc1_serial_value(d))
            },
            ..m
        }),
{
    assert(addrs[0] >= 0x8000 && addrs[1] >= 0x8000 && addrs[2] >= 0x8000);
    assert(addrs[3] >= 0x8000 && addrs[4] >= 0x8000);
    assert((d[0] & 0x80) == 0 && (d[1] & 0x80) == 0 && (d[2] & 0x80) == 0);
    assert((d[3] & 0x80) == 0 && (d[4] & 0x80) == 0);
    lemma_serial_bits(d[0], d[1], d[2], d[3], d[4]);
}

/// `m` after `k` scanlines.
pub open spec fn mmc3_scanlines(m: Mmc3View, k: nat) -> Mmc3View
    decreases k,
{
    if k == 0 {
        m
    } else {
        mmc3_scanlines(m, (k - 1) as nat).after_scanline()
    }
}

proof fn lemma_mmc3_countdown(m: Mmc3View, k: nat)
    requires
        m.regs.interrupt_counter == 0,
        m.regs.interrupt_step >= 1,
        m.regs.interrupt_enabled,
        !m.regs.interrupt_active,
        1 <= k <= m.regs.interrupt_step + 1,
    ensures
        mmc3_scanlines(m, k).regs.interrupt_counter == m.regs.interrupt_step - (k - 1),
        mmc3_scanlines(m, k).regs.interrupt_active == (k == m.regs.interrupt_step + 1),
        mmc3_scanlines(m, k).regs.interrupt_enabled,
        mmc3_scanlines(m, k).regs.interrupt_step == m.regs.interrupt_step,
    decreases k,
{
    if k > 1 {
        lemma_mmc3_countdown(m, (k - 1) as nat);
    } else {
        assert(mmc3_scanlines(m, 0) == m);
    }
}

/// MMC3 scanline interrupt: once the counter has been cleared, with a reload value of
/// `n` >= 1 and interrupts enabled, the interrupt is raised at the end of the (n+1)-th
/// scanline and not before.
pub proof fn law_mmc3_irq_after_reload(m: Mmc3View, k: nat)
    requires
        m.regs.interrupt_counter == 0,
        m.regs.interrupt_step >= 1,
        m.regs.interrupt_enabled,
        !m.regs.interrupt_active,
        k <= m.regs.interrupt_step + 1,
    ensures
        mmc3_scanlines(m, k).regs.interrupt_active <==> k == m.regs.interrupt_step + 1,
{
    if k >= 1 {
        lemma_mmc3_countdown(m, k);
    }
}

/// Program RAM: on a mapper with RAM at 0x6000-0x7FFF, a CPU read there returns what the
/// last CPU write there stored.
pub proof fn law_prg_ram_read_after_write(m: MapperView, addr: u16, data: u8)
    requires
        m.wf(),
        m is Mmc1 || m is Mmc3,
        0x6000 <= addr <= 0x7FFF,
    ensures
        m.after_cpu_write(addr, data).cpu_read(addr) == MapperReadResult::Data(data),
{
    lemma_and_le_u16(addr, 0x1FFF);
}

/// Character RAM: on a cartridge without character ROM, a PPU read returns what the last
/// PPU write at that address stored.
pub proof fn law_chr_ram_read_after_write(c: CartridgeView, address: u16, data: u8)
    requires
        c.wf(),
        c.chr_is_ram,
    ensures
        c.after_ppu_write(address, data).ppu_read_value(address) == data,
{
    lemma_and_le_u16(address, 0x1FFF);
}

/// Program RAM seen from the CPU bus: on a cartridge whose mapper has RAM, a read of a
/// cartridge address in 0x6000-0x7FFF returns what the last write there stored.
pub proof fn law_cartridge_ram_read_after_write(c: CartridgeView, address: u16, data: u8)
    requires
        c.wf(),
        c.mapper is Mmc1 || c.mapper is Mmc3,
        0x6000 <= address + CARTRIDGE_CPU_START <= 0x7FFF,
    ensures
        c.after_cpu_write(address, data).cpu_read_value(address) == data,
{
    let a = wrap16(address + CARTRIDGE_CPU_START);
    assert(a == address + CARTRIDGE_CPU_START) by {
        reveal(wrap16);
    }
    law_prg_ram_read_after_write(c.mapper, a, data);
}

/// A mapper after a run of CPU writes (`Some((address, data))`) and resets (`None`), in order.
pub open spec fn mapper_after(m: MapperView, events: Seq<Option<(u16, u8)>>) -> MapperView
    decreases events.len(),
{
    if events.len() == 0 {
        m
    } else {
        let before = mapper_after(m, events.drop_last());
        match events.last() {
            Some((addr, data)) => before.after_cpu_write(addr, data),
            None => before.after_reset(),
        }
    }
}

proof fn lemma_low_14_bits(addr: u16)
    ensures
        addr & 0x3FFF == addr % 0x4000,
{
    lemma_u16_low_bits_mask_is_mod(addr, 14);
    lemma_low_bits_mask_values();
    lemma2_to64();
}

proof fn lemma_uxrom_keeps_last_bank(prg_banks: u8, events: Seq<Option<(u16, u8)>>)
    requires
        prg_banks >= 1,
    ensures
        mapper_after(MapperView::UxRom(UxRom::spec_new(prg_banks)), events) matches MapperView::UxRom(
            u,
        ) && u.prg_bank_hi == prg_banks - 1,
    decreases events.len(),
{
    if events.len() > 0 {
        lemma_uxrom_keeps_last_bank(prg_banks, events.drop_last());
    }
}

/// UxROM's upper window is fixed: on a UxROM cartridge of `prg_banks` banks, after any run
/// of writes and resets, a CPU read at 0xC000-0xFFFF maps to the last bank, at offset
/// `(prg_banks - 1) * 0x4000 + addr % 0x4000`. A write of `data` at 0x8000 or above selects
/// bank `data % 16` for the lower window, 0x8000-0xBFFF.
pub proof fn law_uxrom_fixed_last_bank(
    prg_banks: u8,
    events: Seq<Option<(u16, u8)>>,
    addr: u16,
    bank_addr: u16,
    data: u8,
)
    requires
        prg_banks >= 1,
        spec_mapper_from_id(2, prg_banks) is Some,
    ensures
        addr >= 0xC000 ==> mapper_after(spec_mapper_from_id(2, prg_banks).unwrap(), events).cpu_read(
            addr,
        ) == MapperReadResult::Address(Some(((prg_banks - 1) * 0x4000 + addr % 0x4000) as usize)),
        bank_addr >= 0x8000 && 0x8000 <= addr <= 0xBFFF ==> mapper_after(
            spec_mapper_from_id(2, prg_banks).unwrap(),
            events.push(Some((bank_addr, data))),
        ).cpu_read(addr) == MapperReadResult::Address(
            Some(((data % 16) * 0x4000 + addr % 0x4000) as usize),
        ),
{
    let m = spec_mapper_from_id(2, prg_banks).unwrap();
    assert(m == MapperView::UxRom(UxRom::spec_new(prg_banks)));
    lemma_uxrom_keeps_last_bank(prg_banks, events);
    lemma_low_14_bits(addr);
    lemma_and_le_u16(addr, 0x3FFF);
    let e2 = events.push(Some((bank_addr, data)));
    assert(e2.drop_last() == events);
    assert(data & 0x0F == data % 16) by (bit_vector);
}

/// Name-table mirroring. Under vertical mirroring, name-table addresses `a` and `a + 0x400`
/// (relative to 0x2000, `a < 0x400`) are different cells and `a` and `a + 0x800` the same
/// one: a write at `a` leaves a read at `a + 0x400` as it was and shows at `a + 0x800`.
/// Under horizontal mirroring it is the other way round.
pub proof fn law_name_table_mirroring(v: VramView, a: u16, data: u8)
    requires
        v.wf(),
        a < 0x400,
    ensures
        ({
            let w = v.after_write(Some(MirrorMode::Vertical), a, data);
            &&& w.read(Some(MirrorMode::Vertical), a) == data
            &&& w.read(Some(MirrorMode::Vertical), (a + 0x800) as u16) == data
            &&& w.read(Some(MirrorMode::Vertical), (a + 0x400) as u16) == v.read(
                Some(MirrorMode::Vertical),
                (a + 0x400) as u16,
            )
            &&& w.read(Some(MirrorMode::Vertical), (a + 0xC00) as u16) == v.read(
                Some(MirrorMode::Vertical),
                (a + 0xC00) as u16,
            )
        }),
        ({
            let w = v.after_write(Some(MirrorMode::Horizontal), a, data);
            &&& w.read(Some(MirrorMode::Horizontal), a) == data
            &&& w.read(Some(MirrorMode::Horizontal), (a + 0x400) as u16) == data
            &&& w.read(Some(MirrorMode::Horizontal), (a + 0x800) as u16) == v.read(
                Some(MirrorMode::Horizontal),
                (a + 0x800) as u16,
            )
            &&& w.read(Some(MirrorMode::Horizontal), (a + 0xC00) as u16) == v.read(
                Some(MirrorMode::Horizontal),
                (a + 0xC00) as u16,
            )
        }),
{
    let b1 = (a + 0x400) as u16;
    let b2 = (a + 0x800) as u16;
    let b3 = (a + 0xC00) as u16;
    assert(a & 0x03FF == a && b1 & 0x03FF == a && b2 & 0x03FF == a && b3 & 0x03FF == a && (a
        >> 10) & 1 == 0 && (b1 >> 10) & 1 == 1 && (b2 >> 10) & 1 == 0 && (b3 >> 10) & 1 == 1 && (a
        >> 11) & 1 == 0 && (b1 >> 11) & 1 == 0 && (b2 >> 11) & 1 == 1 && (b3 >> 11) & 1 == 1)
        by (bit_vector)
        requires
            a < 0x400,
            b1 == a + 0x400,
            b2 == a + 0x800,
            b3 == a + 0xC00,
    ;
}

/// The mapper number of an iNES image: its high nibble is the high nibble of byte 7 and its
/// low nibble the high nibble of byte 6. A loaded cartridge has the mapper of that number,
/// built for the number of program banks in byte 4; e.g. bytes 6 and 7 of 0x20 and 0x40 give
/// mapper 66, GxROM.
pub proof fn law_loaded_mapper_number(d: Seq<u8>)
    requires
        spec_load_cartridge(d) is Some,
    ensures
        spec_mapper_from_id((16 * (d[7] / 16) + d[6] / 16) as u8, d[4]) == Some(
            spec_load_cartridge(d).unwrap().mapper,
        ),
        d[6] == 0x20 && d[7] == 0x40 ==> spec_load_cartridge(d).unwrap().mapper is GxRom,
{
    let f6 = d[6];
    let f7 = d[7];
    assert((f7 & 0xF0) | (f6 >> 4) == 16 * (f7 / 16) + f6 / 16) by (bit_vector);
}

} // verus!
