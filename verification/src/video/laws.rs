//! Properties of the picture processing unit that span several operations.
use crate::bits::lemma_and_le_u16;
use crate::video::ppu2c02::{
    flipped, palette_read_address, palette_write_address, spec_clock_one, PpuBusView,
    PpuRegister, PpuView, ADDR_OAM_ADDRESS, ADDR_OAM_DATA, ADDR_PPU_ADDRESS, ADDR_STATUS,
    CONTROL_ENABLE_NMI, STATUS_VERTICAL_BLANK, VBLANK_LINE,
};
use vstd::prelude::*;

verus! {

/// Packing the fields of an address register into its value and unpacking them again
/// gives the same fields back, whenever they fit their widths.
pub proof fn law_register_fields_roundtrip(r: PpuRegister)
    requires
        r.fields_fit(),
    ensures
        r.with_value().with_subfields() == r.with_value(),
{
    let v = r.with_value().value;
    let cx = r.coarse_x;
    let cy = r.coarse_y;
    let nx = r.nametable_x;
    let ny = r.nametable_y;
    let fy = r.fine_y;
    assert(v & 0x001F == cx && (v >> 5) & 0x001F == cy && (v >> 10) & 0x0001 == nx && (v >> 11)
        & 0x0001 == ny && (v >> 12) & 0x0007 == fy) by (bit_vector)
        requires
            v == (cx & 0x001F) | ((cy & 0x001F) << 5) | ((nx & 0x0001) << 10) | ((ny & 0x0001)
                << 11) | ((fy & 0x0007) << 12),
            cx <= 0x1F,
            cy <= 0x1F,
            nx <= 1,
            ny <= 1,
            fy <= 7,
    ;
}

/// Unpacking the value of an address register and packing it again keeps its low 15 bits.
pub proof fn law_register_value_roundtrip(r: PpuRegister)
    ensures
        r.with_subfields().with_value().value == r.value & 0x7FFF,
{
    let v = r.value;
    assert(((v & 0x001F) & 0x001F) | ((((v >> 5) & 0x001F) & 0x001F) << 5) | ((((v >> 10)
        & 0x0001) & 0x0001) << 10) | ((((v >> 11) & 0x0001) & 0x0001) << 11) | ((((v >> 12)
        & 0x0007) & 0x0007) << 12) == v & 0x7FFF) by (bit_vector);
}

/// Reversing the bits of a byte twice gives the byte back.
pub proof fn law_flip_involution(b: u8)
    ensures
        flipped(flipped(b)) == b,
{
    assert(flipped(flipped(b)) == b) by (bit_vector);
}

/// Object attribute memory through the registers: after setting the OAM address and
/// writing a byte, reading OAM data gives that byte.
pub proof fn law_oam_write_then_read(s: PpuView, addr: u8, data: u8)
    requires
        s.wf(),
    ensures
        s.after_register_write(ADDR_OAM_ADDRESS, addr).after_register_write(
            ADDR_OAM_DATA,
            data,
        ).register_read_value(ADDR_OAM_DATA) == data,
{
}

/// The VRAM address is set by two writes, high byte first: with the latch clear, writing
/// `hi` then `lo` to the address register sets the VRAM address to the 14-bit value they
/// form, and leaves the latch clear.
pub proof fn law_ppu_address_latch(s: PpuView, hi: u8, lo: u8)
    requires
        s.wf(),
        !s.regs.ppu_addr_latch,
    ensures
        s.after_register_write(ADDR_PPU_ADDRESS, hi).after_register_write(
            ADDR_PPU_ADDRESS,
            lo,
        ).regs.vram_addr.value == (((hi & 0x3F) as u16) << 8) | (lo as u16),
        !s.after_register_write(ADDR_PPU_ADDRESS, hi).after_register_write(
            ADDR_PPU_ADDRESS,
            lo,
        ).regs.ppu_addr_latch,
{
    let t = s.regs.tram_addr.value;
    let h = hi & 0x3F;
    assert(((((t & 0x00FF) | ((h as u16) << 8)) & 0xFF00) | (lo as u16)) == ((h as u16) << 8) | (
    lo as u16)) by (bit_vector);
}

/// Reading the status register clears the vertical blank flag and the address latch.
pub proof fn law_status_read_clears_vblank(s: PpuView)
    requires
        s.wf(),
    ensures
        s.after_register_read(ADDR_STATUS).regs.status & STATUS_VERTICAL_BLANK == 0,
        !s.after_register_read(ADDR_STATUS).regs.ppu_addr_latch,
{
    let st = s.regs.status;
    assert((st & !0x80u8) & 0x80u8 == 0) by (bit_vector);
}

/// Name tables: with a cartridge inserted, a read at a name-table address gives what the
/// last write there stored.
pub proof fn law_name_table_read_after_write(b: PpuBusView, addr: u16, data: u8)
    requires
        b.wf(),
        b.cartridge is Some,
        0x2000 <= addr <= 0x3EFF,
    ensures
        b.after_write(addr, data).read(addr) == data,
{
    let rel = ((addr - 0x2000) % 0x1000) as u16;
    lemma_and_le_u16(rel, 0x03FF);
}

/// Palette: a read of a palette entry that is not a background entry (its low two bits are
/// not both 0) gives what the last write there stored.
pub proof fn law_palette_read_after_write(b: PpuBusView, addr: u16, data: u8)
    requires
        b.wf(),
        0x3F00 <= addr <= 0x3FFF,
        addr & 0x0003 != 0,
    ensures
        b.after_write(palette_write_address(addr), data).read(palette_read_address(addr))
            == data,
{
    let a = addr & 0x001F;
    assert(a & 0x000F == addr & 0x000F && (a & 0x000F) % 4 == (addr & 0x0003) && (a | 0x3F00)
        >= 0x3F00 && (a | 0x3F00) <= 0x3F1F && ((a | 0x3F00) - 0x3F00) % 0x20 == a) by (bit_vector)
        requires
            a == addr & 0x001F,
    ;
}

/// Vertical blank: the clock that reaches dot 1 of line 241 sets the vertical blank flag,
/// and raises the non-maskable interrupt when the control register enables it.
pub proof fn law_vblank_nmi(s: PpuView)
    requires
        s.wf(),
        s.regs.scanline == VBLANK_LINE + 1,
        s.regs.cycle == 1,
    ensures
        spec_clock_one(s).regs.status & STATUS_VERTICAL_BLANK != 0,
        s.regs.control & CONTROL_ENABLE_NMI != 0 ==> spec_clock_one(s).regs.nmi,
{
    let st = s.regs.status;
    assert((st | 0x80u8) & 0x80u8 != 0 && ((st | 0x80u8) | 0x40u8) & 0x80u8 != 0) by (bit_vector);
}

} // verus!
