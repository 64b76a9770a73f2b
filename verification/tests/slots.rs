//! Slot allocation, the slot/device-map balance, device removal, and BAR
//! registration on the dispatch buses.

use std::sync::Arc;
use std::sync::Barrier;

use pci::BarReprogrammingParams;
use pci::DeviceRelocation;
use pci::DispatchBus;
use pci::PciBarConfiguration;
use pci::PciBarRegionType;
use pci::PciBus;
use pci::PciConfiguration;
use pci::PciDevice;
use pci::PciRoot;
use pci::PciRootError;

/// A relocation collaborator that accepts every move without recording it.
struct NoReloc;

impl<D> DeviceRelocation<D> for NoReloc {
    // Ghost trait item: erased from every runtime path, never called.
    fn calls(&self) -> vstd::seq::Seq<BarReprogrammingParams> {
        panic!()
    }

    fn move_bar(
        &mut self,
        _old_base: u64,
        _new_base: u64,
        _len: u64,
        _device: &mut D,
        _region_type: PciBarRegionType,
    ) -> Result<(), std::io::Error> {
        Ok(())
    }
}

/// A dispatch bus that accepts the first `capacity` insertions and refuses
/// the rest, recording what it accepted.
struct FakeBus {
    capacity: usize,
    ranges: Vec<(u64, u64)>,
}

impl FakeBus {
    fn new(capacity: usize) -> Self {
        FakeBus { capacity, ranges: Vec::new() }
    }
}

impl DispatchBus for FakeBus {
    // Ghost trait item: erased from every runtime path, never called.
    fn inserted(&self) -> vstd::seq::Seq<(u64, u64)> {
        panic!()
    }

    fn insert(&mut self, base: u64, size: u64) -> Result<(), std::io::Error> {
        if self.ranges.len() < self.capacity {
            self.ranges.push((base, size));
            Ok(())
        } else {
            Err(std::io::Error::new(std::io::ErrorKind::Other, "range conflict"))
        }
    }
}

fn fresh_bus() -> PciBus<PciRoot, NoReloc> {
    PciBus::new(PciRoot::new(None), NoReloc)
}

#[test]
fn slot_allocation_order() {
    let mut bus = fresh_bus();
    assert_eq!(bus.next_device_id().unwrap(), 1);
    assert_eq!(bus.next_device_id().unwrap(), 2);
    assert_eq!(bus.next_device_id().unwrap(), 3);
}

#[test]
fn slot_recycling() {
    let mut bus = fresh_bus();
    assert_eq!(bus.next_device_id().unwrap(), 1);
    assert_eq!(bus.next_device_id().unwrap(), 2);
    assert_eq!(bus.next_device_id().unwrap(), 3);
    bus.put_device_id(2).unwrap();
    assert_eq!(bus.next_device_id().unwrap(), 2);
}

#[test]
fn slot_zero_is_reserved_at_construction() {
    let mut bus = fresh_bus();
    assert!(bus.device_ids[0]);
    assert!(bus.devices.contains_key(&0));
    assert_eq!(
        bus.get_device_id(0),
        Err(PciRootError::AlreadyInUsePciDeviceSlot(0))
    );
}

#[test]
fn get_device_id_reserves_and_rejects() {
    let mut bus = fresh_bus();
    bus.get_device_id(5).unwrap();
    assert_eq!(
        bus.get_device_id(5),
        Err(PciRootError::AlreadyInUsePciDeviceSlot(5))
    );
    assert_eq!(bus.get_device_id(32), Err(PciRootError::InvalidPciDeviceSlot(32)));
    // The reservation shapes later scans: 0 and 5 are taken.
    assert_eq!(bus.next_device_id().unwrap(), 1);
}

#[test]
fn put_device_id_rejects_out_of_range() {
    let mut bus = fresh_bus();
    assert_eq!(bus.put_device_id(40), Err(PciRootError::InvalidPciDeviceSlot(40)));
    // Releasing an already-free slot is not an error.
    bus.put_device_id(7).unwrap();
}

#[test]
fn exhausted_bus_has_no_slot_available() {
    let mut bus = fresh_bus();
    for expected in 1..32 {
        assert_eq!(bus.next_device_id().unwrap(), expected);
    }
    assert_eq!(bus.next_device_id(), Err(PciRootError::NoPciDeviceSlotAvailable));
}

#[test]
fn slot_flags_match_device_count() {
    let mut bus = fresh_bus();
    let slot = bus.next_device_id().unwrap();
    bus.add_device(slot, PciRoot::new(None)).unwrap();
    let claimed = bus.device_ids.iter().filter(|b| **b).count();
    assert_eq!(claimed, bus.devices.len());
    assert_eq!(claimed, 2);
}

#[test]
fn remove_by_device_removes_only_matches() {
    let mut bus = fresh_bus();
    let slot = bus.next_device_id().unwrap();
    let mut other = PciConfiguration::new(0x1af4, 0x1000, 0x02, 0x00);
    other.write_config_register(16, 0, &0x1234_5678u32.to_le_bytes());
    bus.add_device(slot, PciRoot::new(Some(other))).unwrap();
    let mut probe = PciConfiguration::new(0x1af4, 0x1000, 0x02, 0x00);
    probe.write_config_register(16, 0, &0x1234_5678u32.to_le_bytes());
    bus.remove_by_device(&PciRoot::new(Some(probe))).unwrap();
    assert!(!bus.devices.contains_key(&slot));
    // The host bridge stays, and so does its slot reservation.
    assert!(bus.devices.contains_key(&0));
    assert!(bus.device_ids[slot as usize]);
}

#[test]
fn register_mapping_splits_by_region_type() {
    let bus = fresh_bus();
    let mut io_bus = FakeBus::new(8);
    let mut mmio_bus = FakeBus::new(8);
    let bars = vec![
        PciBarConfiguration::new(0x1000, 0x10, PciBarRegionType::IoRegion),
        PciBarConfiguration::new(0xc000_0000, 0x1000, PciBarRegionType::Memory32BitRegion),
        PciBarConfiguration::new(0x8_0000_0000, 0x10000, PciBarRegionType::Memory64BitRegion),
    ];
    bus.register_mapping(&mut io_bus, &mut mmio_bus, bars).unwrap();
    assert_eq!(io_bus.ranges, vec![(0x1000, 0x10)]);
    assert_eq!(
        mmio_bus.ranges,
        vec![(0xc000_0000, 0x1000), (0x8_0000_0000, 0x10000)]
    );
}

#[test]
fn register_mapping_surfaces_pio_conflict() {
    let bus = fresh_bus();
    let mut io_bus = FakeBus::new(0);
    let mut mmio_bus = FakeBus::new(8);
    let bars = vec![PciBarConfiguration::new(0x1000, 0x10, PciBarRegionType::IoRegion)];
    assert_eq!(
        bus.register_mapping(&mut io_bus, &mut mmio_bus, bars),
        Err(PciRootError::PioInsert)
    );
}

#[test]
fn register_mapping_surfaces_mmio_conflict_and_keeps_partial_work() {
    let bus = fresh_bus();
    let mut io_bus = FakeBus::new(8);
    let mut mmio_bus = FakeBus::new(0);
    let bars = vec![
        PciBarConfiguration::new(0x1000, 0x10, PciBarRegionType::IoRegion),
        PciBarConfiguration::new(0xc000_0000, 0x1000, PciBarRegionType::Memory32BitRegion),
    ];
    assert_eq!(
        bus.register_mapping(&mut io_bus, &mut mmio_bus, bars),
        Err(PciRootError::MmioInsert)
    );
    // Not transactional: the I/O insertion made before the refusal stays.
    assert_eq!(io_bus.ranges, vec![(0x1000, 0x10)]);
    assert_eq!(mmio_bus.ranges, vec![]);
}

#[test]
fn host_bridge_write_produces_no_bar_moves_and_no_barrier() {
    let mut root = PciRoot::new(None);
    let (moves, barrier): (Vec<BarReprogrammingParams>, Option<Arc<Barrier>>) =
        root.write_config_register(16, 0, &0x5555_aaaau32.to_le_bytes());
    assert!(moves.is_empty());
    assert!(barrier.is_none());
    assert_eq!(root.read_config_register(16), 0x5555_aaaa);
    assert!(root.id().is_none());
}

#[test]
fn configuration_space_defaults_and_bounds() {
    let config = PciConfiguration::new(0x8086, 0x0d57, 0x06, 0x00);
    let root = PciRoot::new(Some(config));
    assert_eq!(root.read_config_register(0), 0x0d57_8086);
    assert_eq!(root.read_config_register(2), 0x0600_0000);
    assert_eq!(root.read_config_register(3), 0);
    // Out-of-range registers read as all-ones.
    assert_eq!(root.read_config_register(64), 0xffff_ffff);
}

#[test]
fn configuration_write_widths() {
    let mut config = PciConfiguration::new(0x8086, 0x0d57, 0x06, 0x00);
    config.write_config_register(16, 0, &[0x11]);
    config.write_config_register(16, 2, &[0x22, 0x33]);
    assert_eq!(config.read_reg(16), 0x3322_0011);
    // A three-byte write and a boundary-crossing write are ignored.
    config.write_config_register(16, 0, &[0xaa, 0xbb, 0xcc]);
    config.write_config_register(16, 3, &[0xaa, 0xbb]);
    assert_eq!(config.read_reg(16), 0x3322_0011);
}
