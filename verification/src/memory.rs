use crate::bus::{AddressRange, BusComponent, offset_in};
use vstd::prelude::*;

verus! {

/// Abstract state of a [`Ram`]: the address range it answers at and its bytes.
pub struct RamView {
    pub range: AddressRange,
    pub data: Seq<u8>,
}

/// Random-access memory of a fixed size, placed at a start address.
pub struct Ram {
    data: Vec<u8>,
    range: AddressRange,
}

impl View for Ram {
    type V = RamView;

    closed spec fn view(&self) -> RamView {
        RamView { range: self.range, data: self.data@ }
    }
}

/// The memory that [`Ram::new`] builds: `size` zeroed bytes whose range runs from
/// `start_address` to `start_address + size - 1` (modulo 2^16).
pub open spec fn spec_ram(size: u16, start_address: u16) -> RamView {
    RamView {
        range: AddressRange {
            start: start_address,
            end: ((start_address + size - 1) % 0x10000) as u16,
        },
        data: Seq::new(size as nat, |i: int| 0u8),
    }
}

impl Ram {
    /// Memory of `size` zeroed bytes at addresses `start_address ..= start_address + size - 1`
    /// (modulo 2^16). Memory of no bytes can be built, but not read or written: it is not
    /// well formed.
    pub fn new(size: u16, start_address: u16) -> (r: Self)
        ensures
            r@ == spec_ram(size, start_address),
            Self::wf(r@) == (size > 0),
    {
        let data: Vec<u8> = vec![0u8; size as usize];
        let end: u32 = (start_address as u32 + size as u32 + 0xFFFF) % 0x10000;
        assert(end == (start_address + size - 1) % 0x10000) by {
            vstd::arithmetic::div_mod::lemma_mod_add_multiples_vanish(
                start_address + size - 1,
                0x10000,
            );
        }
        let range = AddressRange::new(start_address, end as u16);
        let r = Self { data, range };
        assert(r@.data =~= Seq::new(size as nat, |i: int| 0u8));
        r
    }
}

impl BusComponent for Ram {
    open spec fn wf(state: RamView) -> bool {
        &&& state.data.len() > 0
        &&& state.data.len() < 0x10000
        &&& state.range.spec_len() == state.data.len()
    }

    open spec fn read_range_of(state: RamView) -> Option<AddressRange> {
        Some(state.range)
    }

    open spec fn write_range_of(state: RamView) -> Option<AddressRange> {
        Some(state.range)
    }

    open spec fn read_value(state: RamView, address: u16) -> u8 {
        state.data[address as int]
    }

    open spec fn after_read(state: RamView, address: u16) -> RamView {
        state
    }

    open spec fn after_write(state: RamView, address: u16, data: u8) -> RamView {
        RamView { data: state.data.update(address as int, data), ..state }
    }

    fn read_range(&self) -> (r: Option<AddressRange>) {
        Some(self.range)
    }

    fn write_range(&self) -> (r: Option<AddressRange>) {
        Some(self.range)
    }

    fn peek(&self, address: u16) -> (r: u8) {
        self.data[address as usize]
    }

    fn read(&mut self, address: u16) -> (r: u8) {
        self.data[address as usize]
    }

    fn write(&mut self, address: u16, data: u8) {
        self.data.set(address as usize, data);
    }
}

} // verus!
