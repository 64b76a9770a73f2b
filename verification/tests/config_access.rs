//! Guest-visible behaviour of the two configuration-access mechanisms.

use std::sync::Arc;
use std::sync::Barrier;

use pci::BarReprogrammingParams;
use pci::DeviceRelocation;
use pci::PciBarRegionType;
use pci::PciBus;
use pci::PciConfigIo;
use pci::PciConfigMmio;
use pci::PciDevice;
use pci::PciRoot;

/// A relocation collaborator that records every invocation.
struct Recorder {
    moves: Vec<(u64, u64, u64, PciBarRegionType)>,
}

impl Recorder {
    fn new() -> Self {
        Recorder { moves: Vec::new() }
    }
}

impl<D> DeviceRelocation<D> for Recorder {
    // Ghost trait item: erased from every runtime path, never called.
    fn calls(&self) -> vstd::seq::Seq<BarReprogrammingParams> {
        panic!()
    }

    fn move_bar(
        &mut self,
        old_base: u64,
        new_base: u64,
        len: u64,
        _device: &mut D,
        region_type: PciBarRegionType,
    ) -> Result<(), std::io::Error> {
        self.moves.push((old_base, new_base, len, region_type));
        Ok(())
    }
}

/// A device with eight writable registers; register 4 acts as a 32-bit
/// memory BAR of 4 KiB, and rewriting its base reports one BAR move.
/// Writes return a barrier so the posted-write asymmetry is observable.
struct TestDevice {
    regs: Vec<u32>,
}

impl TestDevice {
    fn new(bar0: u32) -> Self {
        let mut regs = vec![0u32; 8];
        regs[0] = 0xabcd_1234;
        regs[4] = bar0;
        TestDevice { regs }
    }
}

impl PciDevice for TestDevice {
    // Ghost trait items: erased from every runtime path, never called.
    fn spec_read_reg(&self, _reg_idx: usize) -> u32 {
        panic!()
    }

    fn spec_same_device(&self, _other: &Self) -> bool {
        panic!()
    }

    fn spec_reg_after_write(
        &self,
        _reg_idx: usize,
        _offset: u64,
        _data: vstd::seq::Seq<u8>,
        _q: usize,
    ) -> u32 {
        panic!()
    }

    fn spec_write_moves(
        &self,
        _reg_idx: usize,
        _offset: u64,
        _data: vstd::seq::Seq<u8>,
    ) -> vstd::seq::Seq<BarReprogrammingParams> {
        panic!()
    }

    fn spec_write_barrier(&self, _reg_idx: usize, _offset: u64, _data: vstd::seq::Seq<u8>) -> bool {
        panic!()
    }

    fn read_config_register(&self, reg_idx: usize) -> u32 {
        if reg_idx < self.regs.len() {
            self.regs[reg_idx]
        } else {
            0xffff_ffff
        }
    }

    fn write_config_register(
        &mut self,
        reg_idx: usize,
        offset: u64,
        data: &[u8],
    ) -> (Vec<BarReprogrammingParams>, Option<Arc<Barrier>>) {
        let mut moves = Vec::new();
        if reg_idx < self.regs.len() && offset as usize + data.len() <= 4 {
            let mut bytes = self.regs[reg_idx].to_le_bytes();
            for (i, b) in data.iter().enumerate() {
                bytes[offset as usize + i] = *b;
            }
            let new_value = u32::from_le_bytes(bytes);
            let old_value = self.regs[reg_idx];
            self.regs[reg_idx] = new_value;
            if reg_idx == 4 && old_value != new_value {
                moves.push(BarReprogrammingParams {
                    old_base: old_value as u64,
                    new_base: new_value as u64,
                    len: 0x1000,
                    region_type: PciBarRegionType::Memory32BitRegion,
                });
            }
        }
        (moves, Some(Arc::new(Barrier::new(1))))
    }

    fn same_device(&self, other: &Self) -> bool {
        self.regs == other.regs
    }

    fn id(&self) -> Option<String> {
        Some("test-device".to_string())
    }
}

fn host_bridge_bus() -> PciBus<PciRoot, Recorder> {
    PciBus::new(PciRoot::new(None), Recorder::new())
}

#[test]
fn host_bridge_identification() {
    let mut bus = host_bridge_bus();
    let mut io = PciConfigIo::new();
    let none = io.write(&mut bus, 0xcf8, 0, &0x8000_0000u32.to_le_bytes());
    assert!(none.is_none());
    let mut buf = vec![0u8; 4];
    io.read(&bus, 0xcf8, 4, &mut buf);
    assert_eq!(u32::from_le_bytes([buf[0], buf[1], buf[2], buf[3]]), 0x0d57_8086);
}

#[test]
fn missing_device_reads_all_ones() {
    let mut bus = host_bridge_bus();
    let mut io = PciConfigIo::new();
    io.write(&mut bus, 0xcf8, 0, &0x8000_0800u32.to_le_bytes());
    let mut buf = vec![0u8; 4];
    io.read(&bus, 0xcf8, 4, &mut buf);
    assert_eq!(u32::from_le_bytes([buf[0], buf[1], buf[2], buf[3]]), 0xffff_ffff);
}

#[test]
fn enable_bit_gating() {
    let mut bus = host_bridge_bus();
    let mut io = PciConfigIo::new();
    io.write(&mut bus, 0xcf8, 0, &0x0000_0000u32.to_le_bytes());
    let mut buf = vec![0u8; 4];
    io.read(&bus, 0xcf8, 4, &mut buf);
    // The decoded target (bus 0, device 0) exists, yet the read is all-ones.
    assert_eq!(u32::from_le_bytes([buf[0], buf[1], buf[2], buf[3]]), 0xffff_ffff);
}

#[test]
fn nonzero_bus_reads_all_ones() {
    let mut bus = host_bridge_bus();
    let mut io = PciConfigIo::new();
    // Enable bit set, bus 1, device 0, register 0.
    io.write(&mut bus, 0xcf8, 0, &0x8001_0000u32.to_le_bytes());
    assert_eq!(io.config_space_read(&bus), 0xffff_ffff);
}

#[test]
fn nonzero_function_reads_all_ones() {
    let mut bus = host_bridge_bus();
    let mut io = PciConfigIo::new();
    // Enable bit set, bus 0, device 0, function 1, register 0.
    io.write(&mut bus, 0xcf8, 0, &0x8000_0100u32.to_le_bytes());
    assert_eq!(io.config_space_read(&bus), 0xffff_ffff);
}

#[test]
fn latch_word_writes_compose() {
    let mut bus = host_bridge_bus();
    let mut io_words = PciConfigIo::new();
    io_words.write(&mut bus, 0xcf8, 0, &[0x10, 0x08]);
    io_words.write(&mut bus, 0xcf8, 2, &[0x00, 0x80]);
    let mut io_dword = PciConfigIo::new();
    io_dword.write(&mut bus, 0xcf8, 0, &0x8000_0810u32.to_le_bytes());
    assert_eq!(io_words.config_address, io_dword.config_address);
    assert_eq!(io_words.config_address, 0x8000_0810);
}

#[test]
fn latch_byte_writes_compose() {
    let mut bus = host_bridge_bus();
    let mut io = PciConfigIo::new();
    for (i, b) in 0x8000_0810u32.to_le_bytes().iter().enumerate() {
        io.write(&mut bus, 0xcf8, i as u64, &[*b]);
    }
    assert_eq!(io.config_address, 0x8000_0810);
}

#[test]
fn latch_reads_back_little_endian() {
    let mut bus = host_bridge_bus();
    let mut io = PciConfigIo::new();
    io.write(&mut bus, 0xcf8, 0, &0x1234_5678u32.to_le_bytes());
    let mut buf = vec![0u8; 4];
    io.read(&bus, 0xcf8, 0, &mut buf);
    assert_eq!(buf, vec![0x78, 0x56, 0x34, 0x12]);
    let mut high = vec![0u8; 2];
    io.read(&bus, 0xcf8, 2, &mut high);
    assert_eq!(high, vec![0x34, 0x12]);
}

#[test]
fn oversized_latch_write_is_ignored() {
    let mut bus = host_bridge_bus();
    let mut io = PciConfigIo::new();
    io.write(&mut bus, 0xcf8, 0, &0x8000_0000u32.to_le_bytes());
    // Offset 2 plus three bytes crosses the DWORD boundary: a no-op.
    io.write(&mut bus, 0xcf8, 2, &[0x11, 0x22, 0x33]);
    assert_eq!(io.config_address, 0x8000_0000);
    // A three-byte width is unsupported even when it fits: also a no-op.
    io.write(&mut bus, 0xcf8, 0, &[0x11, 0x22, 0x33]);
    assert_eq!(io.config_address, 0x8000_0000);
}

#[test]
fn oversized_data_write_is_ignored() {
    let mut bus = host_bridge_bus();
    let mut io = PciConfigIo::new();
    // Enable, bus 0, device 0 (the host bridge), register 16.
    io.write(&mut bus, 0xcf8, 0, &0x8000_0040u32.to_le_bytes());
    // Offset 6 is offset 2 of the data window: four bytes cross the boundary.
    io.write(&mut bus, 0xcf8, 6, &0xdead_beefu32.to_le_bytes());
    assert_eq!(io.config_space_read(&bus), 0);
}

#[test]
fn boundary_crossing_read_returns_all_ff() {
    let mut bus = host_bridge_bus();
    let mut io = PciConfigIo::new();
    io.write(&mut bus, 0xcf8, 0, &0x8000_0000u32.to_le_bytes());
    let mut buf = vec![0u8; 4];
    // Offset 6 within the window is byte 2 of the data DWORD: 2 + 4 > 4.
    io.read(&bus, 0xcf8, 6, &mut buf);
    assert_eq!(buf, vec![0xff, 0xff, 0xff, 0xff]);
}

#[test]
fn cam_write_read_back_via_ecam() {
    let mut bus = host_bridge_bus();
    let mut io = PciConfigIo::new();
    let mmio = PciConfigMmio::new();
    // Write register 16 of the host bridge through the CAM data window.
    io.write(&mut bus, 0xcf8, 0, &(0x8000_0000u32 | (16 << 2)).to_le_bytes());
    let barrier = io.write(&mut bus, 0xcf8, 4, &0xcafe_f00du32.to_le_bytes());
    // The host bridge never returns a barrier, so the CAM path hands back none.
    assert!(barrier.is_none());
    // Read it back through the ECAM window: bus 0, device 0, register 16.
    let mut buf = vec![0u8; 4];
    mmio.read(&bus, 0, (16 << 2) as u64, &mut buf);
    assert_eq!(u32::from_le_bytes([buf[0], buf[1], buf[2], buf[3]]), 0xcafe_f00d);
}

#[test]
fn ecam_write_read_back_via_cam() {
    let mut bus = host_bridge_bus();
    let mut io = PciConfigIo::new();
    let mmio = PciConfigMmio::new();
    let _ = mmio.write(&mut bus, 0, (20 << 2) as u64, &0x0102_0304u32.to_le_bytes());
    io.write(&mut bus, 0xcf8, 0, &(0x8000_0000u32 | (20 << 2)).to_le_bytes());
    assert_eq!(io.config_space_read(&bus), 0x0102_0304);
}

#[test]
fn ecam_offset_beyond_u32_reads_all_ff() {
    let bus = host_bridge_bus();
    let mmio = PciConfigMmio::new();
    let mut buf = vec![0u8; 4];
    mmio.read(&bus, 0, 0x1_0000_0000u64, &mut buf);
    assert_eq!(buf, vec![0xff, 0xff, 0xff, 0xff]);
}

#[test]
fn ecam_offset_beyond_u32_write_is_ignored() {
    let mut bus = host_bridge_bus();
    let mmio = PciConfigMmio::new();
    let r = mmio.write(&mut bus, 0, 0x1_0000_0000u64, &0x5555_5555u32.to_le_bytes());
    assert!(r.is_none());
    let mut buf = vec![0u8; 4];
    mmio.read(&bus, 0, 0, &mut buf);
    assert_eq!(u32::from_le_bytes([buf[0], buf[1], buf[2], buf[3]]), 0x0d57_8086);
}

#[test]
fn ecam_nonzero_bus_reads_all_ones() {
    let bus = host_bridge_bus();
    let mmio = PciConfigMmio::new();
    // Bus 1 in ECAM: bit 20.
    assert_eq!(mmio.config_space_read(&bus, 1 << 20), 0xffff_ffff);
}

#[test]
fn bar_relocation_invokes_move_bar_once() {
    let host = TestDevice::new(0);
    let mut bus: PciBus<TestDevice, Recorder> = PciBus::new(host, Recorder::new());
    let slot = bus.next_device_id().unwrap();
    assert_eq!(slot, 1);
    bus.add_device(slot, TestDevice::new(0x1000_0000)).unwrap();
    let mut io = PciConfigIo::new();
    // Enable, bus 0, device 1, register 4 (BAR0).
    let address = 0x8000_0000u32 | (1 << 11) | (4 << 2);
    io.write(&mut bus, 0xcf8, 0, &address.to_le_bytes());
    let barrier = io.write(&mut bus, 0xcf8, 4, &0x2000_0000u32.to_le_bytes());
    // The CAM path hands the device's barrier back to the caller.
    assert!(barrier.is_some());
    assert_eq!(
        bus.device_reloc.moves,
        vec![(0x1000_0000, 0x2000_0000, 0x1000, PciBarRegionType::Memory32BitRegion)]
    );
}

#[test]
fn ecam_drops_the_barrier() {
    let host = TestDevice::new(0);
    let mut bus: PciBus<TestDevice, Recorder> = PciBus::new(host, Recorder::new());
    let slot = bus.next_device_id().unwrap();
    bus.add_device(slot, TestDevice::new(0x1000_0000)).unwrap();
    let mmio = PciConfigMmio::new();
    // Device 1, register 4 in ECAM; the device returns a barrier, ECAM
    // swallows it and one BAR move is still applied.
    let offset = ((1u64) << 15) | (4 << 2);
    let r = mmio.write(&mut bus, 0, offset, &0x3000_0000u32.to_le_bytes());
    assert!(r.is_none());
    assert_eq!(
        bus.device_reloc.moves,
        vec![(0x1000_0000, 0x3000_0000, 0x1000, PciBarRegionType::Memory32BitRegion)]
    );
}

#[test]
fn relocation_log_records_moves() {
    let mut bus: PciBus<TestDevice, pci::RelocationLog> =
        PciBus::new(TestDevice::new(0), pci::RelocationLog::new());
    let slot = bus.next_device_id().unwrap();
    bus.add_device(slot, TestDevice::new(0x4000_0000)).unwrap();
    let mut io = PciConfigIo::new();
    let address = 0x8000_0000u32 | (1 << 11) | (4 << 2);
    io.write(&mut bus, 0xcf8, 0, &address.to_le_bytes());
    io.write(&mut bus, 0xcf8, 4, &0x5000_0000u32.to_le_bytes());
    assert_eq!(
        bus.device_reloc.moves,
        vec![BarReprogrammingParams {
            old_base: 0x4000_0000,
            new_base: 0x5000_0000,
            len: 0x1000,
            region_type: PciBarRegionType::Memory32BitRegion,
        }]
    );
}

#[test]
fn decoders_extract_the_documented_fields() {
    // CAM: bus 0xAB, device 0x13, function 0x5, register 0x2C.
    let cam = (0xabu32 << 16) | (0x13 << 11) | (0x5 << 8) | (0x2c << 2);
    assert_eq!(pci::parse_io_config_address(cam), (0xab, 0x13, 0x5, 0x2c));
    // ECAM: bus 0xAB, device 0x13, function 0x5, register 0x3C1.
    let ecam = (0xabu32 << 20) | (0x13 << 15) | (0x5 << 12) | (0x3c1 << 2);
    assert_eq!(pci::parse_mmio_config_address(ecam), (0xab, 0x13, 0x5, 0x3c1));
    assert_eq!(pci::shift_and_mask(0xdead_beef, 8, 0xff), 0xbe);
}
