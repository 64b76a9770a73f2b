//! Emulation of a single-bus PCI root complex: the host bridge, the slot
//! table, and the two standard configuration-access mechanisms (the legacy
//! 0xCF8/0xCFC port pair and the memory-mapped ECAM window).

pub mod address;
pub mod bus;
pub mod config_io;
pub mod config_mmio;
pub mod device;
pub mod le;
pub mod root;

pub use address::parse_io_config_address;
pub use address::parse_mmio_config_address;
pub use address::shift_and_mask;
pub use bus::PciBarConfiguration;
pub use bus::PciBus;
pub use bus::PciRootError;
pub use config_io::PciConfigIo;
pub use config_mmio::PciConfigMmio;
pub use device::BarReprogrammingParams;
pub use device::DeviceRelocation;
pub use device::DispatchBus;
pub use device::PciBarRegionType;
pub use device::PciDevice;
pub use device::RelocationLog;
pub use root::PciConfiguration;
pub use root::PciRoot;
