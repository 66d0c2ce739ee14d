use vstd::prelude::*;

verus! {

/// Handle by which a component attached to a [`Bus`] is found again.
pub type BusHandle = u32;

/// An inclusive range of 16-bit addresses.
#[derive(Clone, Copy, PartialEq, Eq, Debug, Structural)]
pub struct AddressRange {
    /// First address in the range
    pub start: u16,
    /// Last address in the range
    pub end: u16,
}

impl AddressRange {
    /// Number of addresses in the range, modulo 2^16 (the whole address space has length 0).
    pub open spec fn spec_len(self) -> u16 {
        ((self.end - self.start + 1) % 0x10000) as u16
    }

    pub open spec fn spec_contains(self, address: u16) -> bool {
        self.start <= address <= self.end
    }

    pub fn new(start: u16, end: u16) -> (r: Self)
        ensures
            r.start == start,
            r.end == end,
    {
        Self { start, end }
    }

    /// The length of the range
    pub fn len(&self) -> (r: u16)
        ensures
            r == self.spec_len(),
    {
        self.end.wrapping_sub(self.start).wrapping_add(1)
    }

    /// Checks whether a given address falls within the range
    pub fn contains(&self, address: u16) -> (r: bool)
        ensures
            r == self.spec_contains(address),
    {
        (address >= self.start) && (address <= self.end)
    }
}


/// Whether `offset` lies within `range`, measured from the range's start.
/// A component without a range accepts any offset.
pub open spec fn offset_in(range: Option<AddressRange>, offset: u16) -> bool {
    match range {
        Some(r) => r.spec_len() == 0 || offset < r.spec_len(),
        None => true,
    }
}

/// A hardware component that is connected to a bus.
///
/// Its behaviour is described over its abstract state `Self::V`: what a read
/// returns, and the state after a read or a write.
pub trait BusComponent: View + Sized {
    /// The component's internal invariant, which construction establishes and every access keeps.
    spec fn wf(state: Self::V) -> bool;

    spec fn read_range_of(state: Self::V) -> Option<AddressRange>;

    spec fn write_range_of(state: Self::V) -> Option<AddressRange>;

    /// Value that a read at `address` (relative to the read range) returns.
    spec fn read_value(state: Self::V, address: u16) -> u8;

    /// State after a read at `address`.
    spec fn after_read(state: Self::V, address: u16) -> Self::V;

    /// State after writing `data` at `address` (relative to the write range).
    spec fn after_write(state: Self::V, address: u16, data: u8) -> Self::V;

    /// The CPU address range at which this component is active when reading
    fn read_range(&self) -> (r: Option<AddressRange>)
        ensures
            r == Self::read_range_of(self@),
    ;

    /// The CPU address range at which this component is active when writing
    fn write_range(&self) -> (r: Option<AddressRange>)
        ensures
            r == Self::write_range_of(self@),
    ;

    /// Reads the value that a read would return, without its side effects.
    fn peek(&self, address: u16) -> (r: u8)
        requires
            Self::wf(self@),
            offset_in(Self::read_range_of(self@), address),
        ensures
            r == Self::read_value(self@, address),
    ;

    /// Reads from the component, relative to its read range.
    fn read(&mut self, address: u16) -> (r: u8)
        requires
            Self::wf(old(self)@),
            offset_in(Self::read_range_of(old(self)@), address),
        ensures
            Self::wf(final(self)@),
            r == Self::read_value(old(self)@, address),
            final(self)@ == Self::after_read(old(self)@, address),
            Self::read_range_of(final(self)@) == Self::read_range_of(old(self)@),
            Self::write_range_of(final(self)@) == Self::write_range_of(old(self)@),
    ;

    /// Writes to the component, relative to its write range.
    fn write(&mut self, address: u16, data: u8)
        requires
            Self::wf(old(self)@),
            offset_in(Self::write_range_of(old(self)@), address),
        ensures
            Self::wf(final(self)@),
            final(self)@ == Self::after_write(old(self)@, address, data),
            Self::read_range_of(final(self)@) == Self::read_range_of(old(self)@),
            Self::write_range_of(final(self)@) == Self::write_range_of(old(self)@),
    ;
}


/// Length of a component's range as the modulus by which a mirror folds addresses back into it.
pub open spec fn mirror_modulus(range: Option<AddressRange>) -> u16 {
    match range {
        Some(r) => r.spec_len(),
        None => 1,
    }
}

/// Abstract state of a [`MirroredBusComponent`].
pub struct MirroredView<V> {
    pub base: V,
    pub read_range: Option<AddressRange>,
    pub write_range: Option<AddressRange>,
    pub read_mod: u16,
    pub write_mod: u16,
}

/// Expands the address range of a bus component by mirroring
pub struct MirroredBusComponent<C> {
    base_component: C,
    read_range: Option<AddressRange>,
    write_range: Option<AddressRange>,
    read_mod: u16,
    write_mod: u16,
}

impl<C: BusComponent> View for MirroredBusComponent<C> {
    type V = MirroredView<C::V>;

    closed spec fn view(&self) -> MirroredView<C::V> {
        MirroredView {
            base: self.base_component@,
            read_range: self.read_range,
            write_range: self.write_range,
            read_mod: self.read_mod,
            write_mod: self.write_mod,
        }
    }
}

/// A mirror of a component whose range spans the whole address space cannot be accessed:
/// that range's length is 0, and every access would divide by it.
pub open spec fn can_mirror(range: Option<AddressRange>) -> bool {
    match range {
        Some(r) => r.spec_len() != 0,
        None => true,
    }
}

/// The range of a mirror: the base range's start, up to the new end.
pub open spec fn extended_range(range: Option<AddressRange>, new_end: u16) -> Option<AddressRange> {
    match range {
        Some(r) => Some(AddressRange { start: r.start, end: new_end }),
        None => None,
    }
}

impl<C: BusComponent> MirroredBusComponent<C> {
    /// A mirror of `base_component` whose ranges run from the base ranges' starts up to the
    /// new ends. It can be read and written (it is well formed) only where neither base range
    /// spans the whole address space, for its accesses fold addresses modulo those lengths.
    pub fn new(base_component: C, new_read_end: u16, new_write_end: u16) -> (r: Self)
        ensures
            Self::wf(r@) == (C::wf(base_component@) && can_mirror(
                C::read_range_of(base_component@),
            ) && can_mirror(C::write_range_of(base_component@))),
            r@ == (MirroredView {
                base: base_component@,
                read_range: extended_range(C::read_range_of(base_component@), new_read_end),
                write_range: extended_range(C::write_range_of(base_component@), new_write_end),
                read_mod: mirror_modulus(C::read_range_of(base_component@)),
                write_mod: mirror_modulus(C::write_range_of(base_component@)),
            }),
    {
        let base_read_range = base_component.read_range();
        let base_write_range = base_component.write_range();
        let (read_range, read_mod) = match base_read_range {
            Some(r) => (Some(AddressRange::new(r.start, new_read_end)), r.len()),
            None => (None, 1u16),
        };
        let (write_range, write_mod) = match base_write_range {
            Some(r) => (Some(AddressRange::new(r.start, new_write_end)), r.len()),
            None => (None, 1u16),
        };
        Self { base_component, read_range, write_range, read_mod, write_mod }
    }
}

impl<C: BusComponent> BusComponent for MirroredBusComponent<C> {
    open spec fn wf(state: MirroredView<C::V>) -> bool {
        &&& C::wf(state.base)
        &&& state.read_mod != 0
        &&& state.write_mod != 0
        &&& state.read_mod == mirror_modulus(C::read_range_of(state.base))
        &&& state.write_mod == mirror_modulus(C::write_range_of(state.base))
    }

    open spec fn read_range_of(state: MirroredView<C::V>) -> Option<AddressRange> {
        state.read_range
    }

    open spec fn write_range_of(state: MirroredView<C::V>) -> Option<AddressRange> {
        state.write_range
    }

    open spec fn read_value(state: MirroredView<C::V>, address: u16) -> u8 {
        C::read_value(state.base, (address % state.read_mod) as u16)
    }

    open spec fn after_read(state: MirroredView<C::V>, address: u16) -> MirroredView<C::V> {
        MirroredView { base: C::after_read(state.base, (address % state.read_mod) as u16), ..state }
    }

    open spec fn after_write(state: MirroredView<C::V>, address: u16, data: u8) -> MirroredView<
        C::V,
    > {
        MirroredView {
            base: C::after_write(state.base, (address % state.write_mod) as u16, data),
            ..state
        }
    }

    fn read_range(&self) -> (r: Option<AddressRange>) {
        self.read_range
    }

    fn write_range(&self) -> (r: Option<AddressRange>) {
        self.write_range
    }

    fn peek(&self, address: u16) -> (r: u8) {
        self.base_component.peek(address % self.read_mod)
    }

    fn read(&mut self, address: u16) -> (r: u8) {
        self.base_component.read(address % self.read_mod)
    }

    fn write(&mut self, address: u16, data: u8) {
        self.base_component.write(address % self.write_mod, data)
    }
}

/// Mirrors `component` up to `end_address`, for reads and writes alike.
pub fn mirror_component<C: BusComponent>(component: C, end_address: u16) -> (r:
    MirroredBusComponent<C>)
    ensures
        MirroredBusComponent::<C>::wf(r@) == (C::wf(component@) && can_mirror(
            C::read_range_of(component@),
        ) && can_mirror(C::write_range_of(component@))),
        r@ == (MirroredView {
            base: component@,
            read_range: extended_range(C::read_range_of(component@), end_address),
            write_range: extended_range(C::write_range_of(component@), end_address),
            read_mod: mirror_modulus(C::read_range_of(component@)),
            write_mod: mirror_modulus(C::write_range_of(component@)),
        }),
{
    MirroredBusComponent::new(component, end_address, end_address)
}


/// Abstract state of a [`Bus`]: its components in the order they were added, and the next handle.
pub struct BusView<V> {
    pub components: Seq<(BusHandle, V)>,
    pub next_handle: BusHandle,
}

/// Reading `address` from the components of `comps` in turn: the OR of what every
/// component whose read range holds the address returns, and the components after.
pub open spec fn bus_read<C: BusComponent>(comps: Seq<(BusHandle, C::V)>, address: u16) -> (
    u8,
    Seq<(BusHandle, C::V)>,
)
    decreases comps.len(),
{
    if comps.len() == 0 {
        (0, comps)
    } else {
        let (result, rest) = bus_read::<C>(comps.drop_last(), address);
        let (handle, c) = comps.last();
        match C::read_range_of(c) {
            Some(range) => if range.spec_contains(address) {
                let offset = (address - range.start) as u16;
                (result | C::read_value(c, offset), rest.push((handle, C::after_read(c, offset))))
            } else {
                (result, rest.push((handle, c)))
            },
            None => (result, rest.push((handle, c))),
        }
    }
}

/// Writing `data` at `address`: every component whose write range holds the address
/// receives the write, relative to its range.
pub open spec fn bus_write<C: BusComponent>(
    comps: Seq<(BusHandle, C::V)>,
    address: u16,
    data: u8,
) -> Seq<(BusHandle, C::V)>
    decreases comps.len(),
{
    if comps.len() == 0 {
        comps
    } else {
        let rest = bus_write::<C>(comps.drop_last(), address, data);
        let (handle, c) = comps.last();
        match C::write_range_of(c) {
            Some(range) => if range.spec_contains(address) {
                rest.push((handle, C::after_write(c, (address - range.start) as u16, data)))
            } else {
                rest.push((handle, c))
            },
            None => rest.push((handle, c)),
        }
    }
}

/// A bus that connects components, each found again by its handle.
pub struct Bus<C> {
    components: Vec<(BusHandle, C)>,
    next_handle: BusHandle,
}

impl<C: BusComponent> View for Bus<C> {
    type V = BusView<C::V>;

    closed spec fn view(&self) -> BusView<C::V> {
        BusView {
            components: self.components@.map_values(|e: (BusHandle, C)| (e.0, e.1@)),
            next_handle: self.next_handle,
        }
    }
}

/// Every component is well formed, and no handle occurs twice nor reaches `next_handle`.
pub open spec fn bus_wf<C: BusComponent>(v: BusView<C::V>) -> bool {
    &&& forall|i: int| 0 <= i < v.components.len() ==> #[trigger] C::wf(v.components[i].1)
    &&& forall|i: int|
        0 <= i < v.components.len() ==> (#[trigger] v.components[i].0) < v.next_handle
    &&& forall|i: int, j: int|
        0 <= i < j < v.components.len() ==> (#[trigger] v.components[i].0) != (
        #[trigger] v.components[j].0)
}

impl<C: BusComponent> Bus<C> {
    pub fn new() -> (r: Self)
        ensures
            r@.components == Seq::<(BusHandle, C::V)>::empty(),
            r@.next_handle == 0,
            bus_wf::<C>(r@),
    {
        Self { components: Vec::new(), next_handle: 0 }
    }

    /// Attaches a component and returns its handle.
    pub fn add_component(&mut self, component: C) -> (handle: BusHandle)
        requires
            bus_wf::<C>(old(self)@),
            C::wf(component@),
            old(self)@.next_handle < u32::MAX,
        ensures
            bus_wf::<C>(final(self)@),
            handle == old(self)@.next_handle,
            final(self)@.components == old(self)@.components.push((handle, component@)),
            final(self)@.next_handle == handle + 1,
    {
        let handle = self.next_handle;
        self.components.push((handle, component));
        self.next_handle = self.next_handle + 1;
        proof {
            let v = self@.components;
            let ov = old(self)@.components;
            assert forall|i: int| 0 <= i < ov.len() implies #[trigger] v[i] == ov[i] by {}
            assert(v[ov.len() as int] == (handle, component@));
        }
        handle
    }

    /// Detaches the component with the given handle and returns it.
    pub fn remove_component(&mut self, handle: BusHandle) -> (r: Option<C>)
        requires
            bus_wf::<C>(old(self)@),
        ensures
            bus_wf::<C>(final(self)@),
            final(self)@.next_handle == old(self)@.next_handle,
            match r {
                Some(c) => exists|i: int|
                    0 <= i < old(self)@.components.len() && old(self)@.components[i] == (
                    handle,
                    c@,
                    ) && final(self)@.components == old(self)@.components.remove(i),
                None => (forall|i: int|
                    0 <= i < old(self)@.components.len() ==> (
                    #[trigger] old(self)@.components[i]).0 != handle) && final(self)@.components
                    == old(self)@.components,
            },
    {
        let mut i: usize = 0;
        while i < self.components.len()
            invariant
                self@ == old(self)@,
                bus_wf::<C>(self@),
                0 <= i <= self@.components.len(),
                forall|j: int| 0 <= j < i ==> (#[trigger] self@.components[j]).0 != handle,
            decreases self@.components.len() - i,
        {
            if self.components[i].0 == handle {
                let ghost before = self@.components;
                let (_, c) = self.components.remove(i);
                proof {
                    assert(self@.components =~= before.remove(i as int));
                    assert(before[i as int] == (handle, c@));
                    let after = self@.components;
                    assert forall|j: int| 0 <= j < after.len() implies #[trigger] after[j] == (
                    if j < i {
                        before[j]
                    } else {
                        before[j + 1]
                    }) by {}
                    assert forall|j: int, k: int|
                        0 <= j < k < after.len() implies (#[trigger] after[j].0) != (
                    #[trigger] after[k].0) by {
                        let jj = if j < i { j } else { j + 1 };
                        let kk = if k < i { k } else { k + 1 };
                        assert(after[j] == before[jj]);
                        assert(after[k] == before[kk]);
                        assert(before[jj].0 != before[kk].0);
                    }
                    assert forall|j: int| 0 <= j < after.len() implies #[trigger] C::wf(
                        after[j].1,
                    ) && after[j].0 < self@.next_handle by {
                        let jj = if j < i { j } else { j + 1 };
                        assert(after[j] == before[jj]);
                        assert(C::wf(before[jj].1));
                        assert(before[jj].0 < self@.next_handle);
                    }
                }
                return Some(c);
            }
            i = i + 1;
        }
        None
    }
}


impl<C: BusComponent> Bus<C> {
    /// Reads `address` from every component whose read range holds it, and ORs the results.
    pub fn read(&mut self, address: u16) -> (r: u8)
        requires
            bus_wf::<C>(old(self)@),
        ensures
            bus_wf::<C>(final(self)@),
            (r, final(self)@.components) == bus_read::<C>(old(self)@.components, address),
            final(self)@.next_handle == old(self)@.next_handle,
    {
        let mut result: u8 = 0;
        let mut i: usize = 0;
        let ghost orig = self@.components;
        while i < self.components.len()
            invariant
                orig == old(self)@.components,
                bus_wf::<C>(old(self)@),
                0 <= i <= orig.len(),
                self@.components.len() == orig.len(),
                self@.next_handle == old(self)@.next_handle,
                (result, self@.components.take(i as int)) == bus_read::<C>(
                    orig.take(i as int),
                    address,
                ),
                forall|j: int|
                    i <= j < orig.len() ==> #[trigger] self@.components[j] == orig[j],
                forall|j: int|
                    0 <= j < i ==> (#[trigger] self@.components[j]).0 == orig[j].0 && C::wf(
                        self@.components[j].1,
                    ),
            decreases orig.len() - i,
        {
            let ghost before = self@.components;
            proof {
                assert(orig.take(i + 1).drop_last() =~= orig.take(i as int));
                assert(orig.take(i + 1).last() == orig[i as int]);
                assert(C::wf(orig[i as int].1));
            }
            assert(self@.components[i as int] == (
                self.components@[i as int].0,
                self.components@[i as int].1@,
            ));
            let entry = &mut self.components[i];
            let range = entry.1.read_range();
            match range {
                Some(range) => {
                    if range.contains(address) {
                        let v = entry.1.read(address - range.start);
                        result = result | v;
                    }
                },
                None => {},
            }
            proof {
                assert(self@.components[i as int] == (
                    self.components@[i as int].0,
                    self.components@[i as int].1@,
                ));
                assert(self@.components =~= before.update(i as int, self@.components[i as int]));
                assert(self@.components.take(i + 1) =~= self@.components.take(i as int).push(
                    self@.components[i as int],
                ));
                assert(self@.components.take(i as int) =~= before.take(i as int));
            }
            i = i + 1;
        }
        proof {
            assert(orig.take(orig.len() as int) =~= orig);
            assert(self@.components.take(orig.len() as int) =~= self@.components);
        }
        result
    }

    /// Writes `data` at `address` to every component whose write range holds it.
    pub fn write(&mut self, address: u16, data: u8)
        requires
            bus_wf::<C>(old(self)@),
        ensures
            bus_wf::<C>(final(self)@),
            final(self)@.components == bus_write::<C>(old(self)@.components, address, data),
            final(self)@.next_handle == old(self)@.next_handle,
    {
        let mut i: usize = 0;
        let ghost orig = self@.components;
        while i < self.components.len()
            invariant
                orig == old(self)@.components,
                bus_wf::<C>(old(self)@),
                0 <= i <= orig.len(),
                self@.components.len() == orig.len(),
                self@.next_handle == old(self)@.next_handle,
                self@.components.take(i as int) == bus_write::<C>(orig.take(i as int), address, data),
                forall|j: int|
                    i <= j < orig.len() ==> #[trigger] self@.components[j] == orig[j],
                forall|j: int|
                    0 <= j < i ==> (#[trigger] self@.components[j]).0 == orig[j].0 && C::wf(
                        self@.components[j].1,
                    ),
            decreases orig.len() - i,
        {
            let ghost before = self@.components;
            proof {
                assert(orig.take(i + 1).drop_last() =~= orig.take(i as int));
                assert(orig.take(i + 1).last() == orig[i as int]);
                assert(C::wf(orig[i as int].1));
            }
            assert(self@.components[i as int] == (
                self.components@[i as int].0,
                self.components@[i as int].1@,
            ));
            let entry = &mut self.components[i];
            let range = entry.1.write_range();
            match range {
                Some(range) => {
                    if range.contains(address) {
                        entry.1.write(address - range.start, data);
                    }
                },
                None => {},
            }
            proof {
                assert(self@.components[i as int] == (
                    self.components@[i as int].0,
                    self.components@[i as int].1@,
                ));
                assert(self@.components =~= before.update(i as int, self@.components[i as int]));
                assert(self@.components.take(i + 1) =~= self@.components.take(i as int).push(
                    self@.components[i as int],
                ));
                assert(self@.components.take(i as int) =~= before.take(i as int));
            }
            i = i + 1;
        }
        proof {
            assert(orig.take(orig.len() as int) =~= orig);
            assert(self@.components.take(orig.len() as int) =~= self@.components);
        }
    }
}


/// The whole 16-bit address space.
pub open spec fn full_range() -> AddressRange {
    AddressRange { start: 0, end: 0xFFFF }
}

/// A bus is itself a component that answers at every address: this is how a CPU sees it.
impl<C: BusComponent> BusComponent for Bus<C> {
    open spec fn wf(state: BusView<C::V>) -> bool {
        bus_wf::<C>(state)
    }

    open spec fn read_range_of(state: BusView<C::V>) -> Option<AddressRange> {
        Some(full_range())
    }

    open spec fn write_range_of(state: BusView<C::V>) -> Option<AddressRange> {
        Some(full_range())
    }

    open spec fn read_value(state: BusView<C::V>, address: u16) -> u8 {
        bus_read::<C>(state.components, address).0
    }

    open spec fn after_read(state: BusView<C::V>, address: u16) -> BusView<C::V> {
        BusView { components: bus_read::<C>(state.components, address).1, ..state }
    }

    open spec fn after_write(state: BusView<C::V>, address: u16, data: u8) -> BusView<C::V> {
        BusView { components: bus_write::<C>(state.components, address, data), ..state }
    }

    fn read_range(&self) -> (r: Option<AddressRange>) {
        Some(AddressRange::new(0, 0xFFFF))
    }

    fn write_range(&self) -> (r: Option<AddressRange>) {
        Some(AddressRange::new(0, 0xFFFF))
    }

    fn peek(&self, address: u16) -> (r: u8) {
        let mut result: u8 = 0;
        let mut i: usize = 0;
        while i < self.components.len()
            invariant
                bus_wf::<C>(self@),
                0 <= i <= self@.components.len(),
                result == bus_read::<C>(self@.components.take(i as int), address).0,
            decreases self@.components.len() - i,
        {
            proof {
                let comps = self@.components;
                assert(comps.take(i + 1).drop_last() =~= comps.take(i as int));
                assert(comps.take(i + 1).last() == comps[i as int]);
                assert(C::wf(comps[i as int].1));
            }
            assert(self@.components[i as int] == (
                self.components@[i as int].0,
                self.components@[i as int].1@,
            ));
            let entry = &self.components[i];
            match entry.1.read_range() {
                Some(range) => {
                    if range.contains(address) {
                        result = result | entry.1.peek(address - range.start);
                    }
                },
                None => {},
            }
            i = i + 1;
        }
        proof {
            assert(self@.components.take(self@.components.len() as int) =~= self@.components);
        }
        result
    }

    fn read(&mut self, address: u16) -> (r: u8) {
        Bus::read(self, address)
    }

    fn write(&mut self, address: u16, data: u8) {
        Bus::write(self, address, data)
    }
}

} // verus!
