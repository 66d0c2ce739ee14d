use remu::bus::{mirror_component, AddressRange, Bus, BusComponent, MirroredBusComponent};
use remu::memory::Ram;

#[test]
fn address_range_len_and_contains() {
    let r = AddressRange::new(0x2000, 0x2007);
    assert_eq!(r.len(), 8);
    assert!(r.contains(0x2000));
    assert!(r.contains(0x2007));
    assert!(!r.contains(0x2008));
    assert!(!r.contains(0x1FFF));
}

#[test]
fn address_range_whole_space_has_length_zero() {
    let r = AddressRange::new(0x0000, 0xFFFF);
    assert_eq!(r.len(), 0);
}

#[test]
fn ram_reads_back_what_was_written() {
    let mut ram = Ram::new(0x0800, 0x0000);
    assert_eq!(ram.read(0x0123), 0);
    ram.write(0x0123, 0xAB);
    assert_eq!(ram.read(0x0123), 0xAB);
    assert_eq!(ram.peek(0x0123), 0xAB);
    assert_eq!(ram.read_range(), Some(AddressRange::new(0x0000, 0x07FF)));
}

#[test]
fn bus_routes_by_range_relative_to_start() {
    let mut bus: Bus<Ram> = Bus::new();
    let low = bus.add_component(Ram::new(0x0100, 0x0000));
    let high = bus.add_component(Ram::new(0x0100, 0x8000));
    assert_eq!(low, 0);
    assert_eq!(high, 1);
    bus.write(0x8010, 0x77);
    bus.write(0x0010, 0x11);
    assert_eq!(bus.read(0x8010), 0x77);
    assert_eq!(bus.read(0x0010), 0x11);
    // Nothing answers here
    assert_eq!(bus.read(0x4000), 0);
}

#[test]
fn bus_ors_overlapping_components() {
    let mut bus: Bus<Ram> = Bus::new();
    let a = bus.add_component(Ram::new(0x0010, 0x0000));
    bus.write(0x0005, 0x0F);
    let _b = bus.add_component(Ram::new(0x0010, 0x0000));
    // The second memory holds 0 at 5; the first 0x0F; a write reaches both
    assert_eq!(bus.read(0x0005), 0x0F);
    bus.write(0x0006, 0xF0);
    assert_eq!(bus.read(0x0006), 0xF0);
    let removed = bus.remove_component(a);
    assert!(removed.is_some());
    assert_eq!(bus.read(0x0005), 0x00);
    assert!(bus.remove_component(a).is_none());
}

#[test]
fn mirrored_component_repeats_its_range() {
    let ram = Ram::new(0x0800, 0x0000);
    let mut mirrored: MirroredBusComponent<Ram> = mirror_component(ram, 0x1FFF);
    assert_eq!(mirrored.read_range(), Some(AddressRange::new(0x0000, 0x1FFF)));
    mirrored.write(0x0801, 0x42);
    assert_eq!(mirrored.read(0x0001), 0x42);
    assert_eq!(mirrored.read(0x1801), 0x42);
}

#[test]
fn a_mirror_of_the_whole_address_space_can_be_built() {
    // Memory of no bytes spans the whole address space; its mirror is built all the same.
    let empty = Ram::new(0, 0x0000);
    let mirrored = mirror_component(empty, 0x1FFF);
    assert_eq!(mirrored.read_range(), Some(AddressRange::new(0x0000, 0x1FFF)));
    assert_eq!(mirrored.write_range(), Some(AddressRange::new(0x0000, 0x1FFF)));
}
