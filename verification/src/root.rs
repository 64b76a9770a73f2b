//! The host bridge: a degenerate PCI device whose sole state is a
//! configuration space identifying it as a host bridge.

use std::sync::Arc;
use std::sync::Barrier;
use vstd::prelude::*;

use crate::device::BarReprogrammingParams;
use crate::device::PciDevice;
use crate::le::apply_dword_write;
use crate::le::dword_merge;

verus! {

pub const VENDOR_ID_INTEL: u16 = 0x8086;

pub const DEVICE_ID_INTEL_VIRT_PCIE_HOST: u16 = 0x0d57;

/// How many 32-bit registers a configuration-space block holds.
pub const NUM_CONFIGURATION_REGISTERS: usize = 64;

/// What a configuration register reads as: its stored value, or the
/// architectural all-ones for an index out of range.
pub open spec fn spec_cfg_read(regs: Seq<u32>, reg_idx: usize) -> u32 {
    if reg_idx < regs.len() {
        regs[reg_idx as int]
    } else {
        0xffff_ffffu32
    }
}

/// The register block after a byte-granular write: the addressed register
/// merged with the written bytes, when the write is in range, within the
/// DWORD, and 1, 2 or 4 bytes wide; otherwise unchanged.
pub open spec fn spec_cfg_write(regs: Seq<u32>, reg_idx: usize, offset: u64, data: Seq<u8>) -> Seq<
    u32,
> {
    if reg_idx < regs.len() && offset + data.len() <= 4 && (data.len() == 1 || data.len() == 2
        || data.len() == 4) {
        regs.update(reg_idx as int, dword_merge(regs[reg_idx as int], offset, data))
    } else {
        regs
    }
}

/// A PCI configuration-space block: 64 32-bit registers, read whole and
/// written byte-granularly within one DWORD at a time.
pub struct PciConfiguration {
    pub registers: Vec<u32>,
}

impl PciConfiguration {
    /// A block identifying a device: register 0 carries the vendor and device
    /// identifiers, register 2 the class and subclass codes; everything else
    /// starts as zero.
    pub fn new(vendor_id: u16, device_id: u16, class_code: u8, subclass: u8) -> (r: Self)
        ensures
            r.registers@.len() == 64,
            r.registers@[0] == ((device_id as u32) << 16u32) | (vendor_id as u32),
            r.registers@[2] == ((class_code as u32) << 24u32) | ((subclass as u32) << 16u32),
            forall|j: int| 0 <= j < 64 && j != 0 && j != 2 ==> r.registers@[j] == 0,
    {
        let mut registers: Vec<u32> = Vec::new();
        let mut i: usize = 0;
        while i < NUM_CONFIGURATION_REGISTERS
            invariant
                i <= 64,
                registers@.len() == i,
                forall|j: int| 0 <= j < i ==> registers@[j] == 0,
            decreases 64 - i,
        {
            registers.push(0);
            i += 1;
        }
        registers[0] = ((device_id as u32) << 16) | (vendor_id as u32);
        registers[2] = ((class_code as u32) << 24) | ((subclass as u32) << 16);
        PciConfiguration { registers }
    }

    /// Read one register by DWORD index.
    pub fn read_reg(&self, reg_idx: usize) -> (r: u32)
        ensures
            r == spec_cfg_read(self.registers@, reg_idx),
    {
        if reg_idx < self.registers.len() {
            self.registers[reg_idx]
        } else {
            0xffff_ffff
        }
    }

    /// Write 1, 2 or 4 bytes at `offset` within register `reg_idx`. A write
    /// that is out of range, crosses the DWORD boundary, or has an
    /// unsupported width is ignored.
    pub fn write_config_register(&mut self, reg_idx: usize, offset: u64, data: &[u8]) -> (r: Vec<
        BarReprogrammingParams,
    >)
        ensures
            final (self).registers@ == spec_cfg_write(
                old(self).registers@,
                reg_idx,
                offset,
                data@,
            ),
            r@ == Seq::<BarReprogrammingParams>::empty(),
    {
        if reg_idx < self.registers.len() && offset < 4 && data.len() <= 4 - (offset as usize) && (
        data.len() == 1 || data.len() == 2 || data.len() == 4) {
            let merged = apply_dword_write(self.registers[reg_idx], offset, data);
            self.registers[reg_idx] = merged;
        }
        Vec::new()
    }
}

/// What was written to a configuration register reads back exactly: after a
/// supported write, the addressed register holds the written bytes merged
/// into its old value, and a full-DWORD write reads back as the written word
/// itself. Together with the access mechanisms' contracts this gives the
/// round trip: a value written through one window is read back through the
/// other.
pub proof fn lemma_cfg_write_read_back(regs: Seq<u32>, reg_idx: usize, offset: u64, data: Seq<u8>)
    requires
        reg_idx < regs.len(),
        offset + data.len() <= 4,
        data.len() == 1 || data.len() == 2 || data.len() == 4,
    ensures
        spec_cfg_read(spec_cfg_write(regs, reg_idx, offset, data), reg_idx) == dword_merge(
            regs[reg_idx as int],
            offset,
            data,
        ),
        data.len() == 4 ==> spec_cfg_read(spec_cfg_write(regs, reg_idx, offset, data), reg_idx)
            == crate::le::le_u32(data[0], data[1], data[2], data[3]),
{
}

/// Emulates the PCI root bridge device.
pub struct PciRoot {
    /// Configuration space.
    pub config: PciConfiguration,
}

impl PciRoot {
    /// Create an empty PCI root bridge: either around a caller-supplied
    /// configuration space, or with the default host-bridge identity
    /// (vendor 0x8086, device 0x0D57, class bridge, subclass host bridge).
    pub fn new(config: Option<PciConfiguration>) -> (r: Self)
        ensures
            config matches Some(c) ==> r.config == c,
            config is None ==> {
                &&& r.config.registers@.len() == 64
                &&& r.config.registers@[0] == 0x0d57_8086u32
                &&& r.config.registers@[2] == 0x0600_0000u32
                &&& forall|j: int| 0 <= j < 64 && j != 0 && j != 2 ==> r.config.registers@[j] == 0
            },
    {
        if let Some(config) = config {
            PciRoot { config }
        } else {
            let config = PciConfiguration::new(
                VENDOR_ID_INTEL,
                DEVICE_ID_INTEL_VIRT_PCIE_HOST,
                0x06,  // class code: bridge device
                0x00,  // subclass: host bridge
            );
            proof {
                assert(((0x0d57u16 as u32) << 16u32) | (0x8086u16 as u32) == 0x0d57_8086u32)
                    by (bit_vector);
                assert(((0x06u8 as u32) << 24u32) | ((0x00u8 as u32) << 16u32) == 0x0600_0000u32)
                    by (bit_vector);
            }
            PciRoot { config }
        }
    }
}

impl PciDevice for PciRoot {
    open spec fn spec_read_reg(&self, reg_idx: usize) -> u32 {
        spec_cfg_read(self.config.registers@, reg_idx)
    }

    /// The host bridge's sole state is its configuration space, so equality
    /// of the register blocks is the only identity it has: with owned
    /// devices there is no handle to compare, and two bridges with identical
    /// blocks are indistinguishable. A device type that can be attached more
    /// than once should carry an identity token of its own instead.
    open spec fn spec_same_device(&self, other: &Self) -> bool {
        self.config.registers@ == other.config.registers@
    }

    open spec fn spec_reg_after_write(&self, reg_idx: usize, offset: u64, data: Seq<u8>, q: usize) -> u32 {
        spec_cfg_read(spec_cfg_write(self.config.registers@, reg_idx, offset, data), q)
    }

    open spec fn spec_write_moves(&self, reg_idx: usize, offset: u64, data: Seq<u8>) -> Seq<
        BarReprogrammingParams,
    > {
        Seq::empty()
    }

    open spec fn spec_write_barrier(&self, reg_idx: usize, offset: u64, data: Seq<u8>) -> bool {
        false
    }

    fn read_config_register(&self, reg_idx: usize) -> (r: u32) {
        self.config.read_reg(reg_idx)
    }

    /// The host bridge delegates writes straight to its configuration-space
    /// block; it never produces BAR reprogramming events and never returns a
    /// barrier.
    fn write_config_register(&mut self, reg_idx: usize, offset: u64, data: &[u8]) -> (r: (
        Vec<BarReprogrammingParams>,
        Option<Arc<Barrier>>,
    ))
        ensures
            final (self).config.registers@ == spec_cfg_write(
                old(self).config.registers@,
                reg_idx,
                offset,
                data@,
            ),
            r.0@ == Seq::<BarReprogrammingParams>::empty(),
            r.1 is None,
    {
        (self.config.write_config_register(reg_idx, offset, data), None)
    }

    fn same_device(&self, other: &Self) -> (r: bool) {
        let a = &self.config.registers;
        let b = &other.config.registers;
        if a.len() != b.len() {
            return false;
        }
        let mut i: usize = 0;
        while i < a.len()
            invariant
                i <= a@.len(),
                a@.len() == b@.len(),
                a == &self.config.registers,
                b == &other.config.registers,
                forall|j: int| 0 <= j < i ==> a@[j] == b@[j],
            decreases a@.len() - i,
        {
            if a[i] != b[i] {
                return false;
            }
            i += 1;
        }
        proof {
            assert(a@ =~= b@);
        }
        true
    }

    fn id(&self) -> (r: Option<String>)
        ensures
            r is None,
    {
        None
    }
}

} // verus!
