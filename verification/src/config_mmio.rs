//! The ECAM façade: a memory-mapped configuration window whose byte offset
//! directly encodes the (bus, device, function, register) tuple.

use std::sync::Arc;
use std::sync::Barrier;
use vstd::prelude::*;

use crate::address::ecam_bus;
use crate::address::ecam_device;
use crate::address::ecam_register;
use crate::address::parse_mmio_config_address;
use crate::bus::write_effect;
use crate::bus::PciBus;
use crate::device::DeviceRelocation;
use crate::device::PciDevice;
use crate::le::u32_byte;

verus! {

/// What an ECAM read of the DWORD at `address` returns: all-ones when the
/// offset names another bus or an empty slot, otherwise the addressed
/// device's register. Only the bus number is gated here: on this
/// single-function bus, an offset with a nonzero function field decodes to a
/// slot lookup like any other and finds no device.
pub open spec fn ecam_read_result<D: PciDevice, R: DeviceRelocation<D>>(
    address: u32,
    bus: PciBus<D, R>,
) -> u32 {
    if ecam_bus(address) != 0 {
        0xffff_ffffu32
    } else if !bus.devices@.contains_key(ecam_device(address)) {
        0xffff_ffffu32
    } else {
        bus.devices@[ecam_device(address)].spec_read_reg(ecam_register(address) as usize)
    }
}

/// Which slot an ECAM write goes to, if any: none when the write crosses the
/// DWORD boundary or the offset names another bus.
pub open spec fn ecam_write_target(address: u32, offset: u64, len: nat) -> Option<u32> {
    if offset + len > 4 || ecam_bus(address) != 0 {
        Option::None
    } else {
        Option::Some(ecam_device(address))
    }
}

/// Single-bus policy of the ECAM window: an access that names another bus
/// reads as all-ones and writes to no device, and a write that would cross
/// the DWORD boundary goes to no device either.
pub proof fn lemma_ecam_gating<D: PciDevice, R: DeviceRelocation<D>>(
    address: u32,
    bus: PciBus<D, R>,
    offset: u64,
    len: nat,
)
    ensures
        ecam_bus(address) != 0 ==> ecam_read_result(address, bus) == 0xffff_ffffu32,
        ecam_bus(address) != 0 ==> ecam_write_target(address, offset, len) is None,
        offset + len > 4 ==> ecam_write_target(address, offset, len) is None,
{
}

/// The write/read round trip seen through the ECAM window: after a
/// configuration write that reached the device at the addressed slot —
/// through either access mechanism, since `write_effect` describes both —
/// and whose write model reports no BAR move, an ECAM read of that slot
/// returns exactly what the device's write model says the addressed register
/// now holds. For the host bridge that is the written bytes merged into the
/// old register value (`lemma_cfg_write_read_back`).
pub proof fn lemma_write_then_ecam_read<D: PciDevice, R: DeviceRelocation<D>>(
    pre: PciBus<D, R>,
    post: PciBus<D, R>,
    address: u32,
    register: usize,
    offset: u64,
    data: Seq<u8>,
)
    requires
        ecam_bus(address) == 0,
        pre.devices@.contains_key(ecam_device(address)),
        crate::bus::write_effect(pre, post, Some(ecam_device(address)), register, offset, data),
        pre.devices@[ecam_device(address)].spec_write_moves(register, offset, data).len() == 0,
    ensures
        ecam_read_result(address, post) == pre.devices@[ecam_device(
            address,
        )].spec_reg_after_write(register, offset, data, ecam_register(address) as usize),
{
}

/// Emulates the PCI memory-mapped configuration access mechanism.
pub struct PciConfigMmio {}

impl PciConfigMmio {
    pub fn new() -> (r: Self) {
        PciConfigMmio {}
    }

    /// Read the DWORD the ECAM offset addresses, or all-ones wherever the
    /// single-bus gating applies.
    pub fn config_space_read<D: PciDevice, R: DeviceRelocation<D>>(
        &self,
        bus: &PciBus<D, R>,
        config_address: u32,
    ) -> (r: u32)
        ensures
            r == ecam_read_result(config_address, *bus),
    {
        let (bus_num, device, _function, register) = parse_mmio_config_address(config_address);
        // Only support one bus.
        if bus_num != 0 {
            return 0xffff_ffff;
        }
        match bus.devices.get(&(device as u32)) {
            Option::Some(d) => d.read_config_register(register),
            Option::None => 0xffff_ffff,
        }
    }

    /// Write bytes at `offset` within the DWORD the ECAM offset addresses,
    /// and apply any BAR moves the write triggered. Memory-mapped
    /// configuration writes are posted, so the device's barrier is dropped
    /// here rather than handed back.
    pub fn config_space_write<D: PciDevice, R: DeviceRelocation<D>>(
        &self,
        bus: &mut PciBus<D, R>,
        config_address: u32,
        offset: u64,
        data: &[u8],
    )
        requires
            old(bus).wf(),
        ensures
            final (bus).wf(),
            write_effect(
                *old(bus),
                *final (bus),
                ecam_write_target(config_address, offset, data@.len()),
                ecam_register(config_address) as usize,
                offset,
                data@,
            ),
    {
        if offset > 4 || data.len() > 4 - (offset as usize) {
            return ;
        }
        let (bus_num, device, _function, register) = parse_mmio_config_address(config_address);
        // Only support one bus.
        if bus_num != 0 {
            return ;
        }
        // Posted-write semantics: the device's barrier is dropped, nothing
        // waits on an ECAM write.
        let _ = bus.write_register_and_relocate(device as u32, register, offset, data);
    }

    /// Read `data.len()` bytes of the ECAM window at `offset`, little-endian.
    /// A read that crosses a DWORD boundary, or lies beyond the 32-bit
    /// offset range, returns all-ones.
    pub fn read<D: PciDevice, R: DeviceRelocation<D>>(
        &self,
        bus: &PciBus<D, R>,
        _base: u64,
        offset: u64,
        data: &mut Vec<u8>,
    )
        ensures
            final (data)@.len() == old(data)@.len(),
            (offset % 4) + old(data)@.len() <= 4 && offset <= u32::MAX ==> forall|j: int|
                0 <= j < old(data)@.len() ==> final (data)@[j] == u32_byte(
                    ecam_read_result(offset as u32, *bus),
                    (offset % 4) + j,
                ),
            (offset % 4) + old(data)@.len() > 4 || offset > u32::MAX ==> forall|j: int|
                0 <= j < old(data)@.len() ==> final (data)@[j] == 0xffu8,
    {
        let start = (offset % 4) as usize;
        let len = data.len();
        if len > 4 || start + len > 4 || offset > 0xffff_ffff {
            let mut j: usize = 0;
            while j < len
                invariant
                    j <= len,
                    data@.len() == len,
                    forall|i: int| 0 <= i < j ==> data@[i] == 0xffu8,
                decreases len - j,
            {
                data[j] = 0xff;
                j += 1;
            }
            return ;
        }
        let value = self.config_space_read(bus, offset as u32);
        let mut j: usize = 0;
        while j < len
            invariant
                j <= len,
                start + len <= 4,
                data@.len() == len,
                value == ecam_read_result(offset as u32, *bus),
                start == offset % 4,
                forall|i: int| 0 <= i < j ==> data@[i] == u32_byte(value, start + i),
            decreases len - j,
        {
            let sh: u32 = ((start + j) as u32) * 8;
            data[j] = #[verifier::truncate] ((value >> sh) as u8);
            j += 1;
        }
    }

    /// Write `data` into the ECAM window at `offset`. A write beyond the
    /// 32-bit offset range is ignored; no barrier is ever returned, matching
    /// the posted-write semantics of memory-mapped configuration space.
    pub fn write<D: PciDevice, R: DeviceRelocation<D>>(
        &self,
        bus: &mut PciBus<D, R>,
        _base: u64,
        offset: u64,
        data: &[u8],
    ) -> (r: Option<Arc<Barrier>>)
        requires
            old(bus).wf(),
        ensures
            final (bus).wf(),
            r is None,
            offset <= u32::MAX ==> write_effect(
                *old(bus),
                *final (bus),
                ecam_write_target(offset as u32, offset % 4, data@.len()),
                ecam_register(offset as u32) as usize,
                offset % 4,
                data@,
            ),
            offset > u32::MAX ==> *final (bus) == *old(bus),
    {
        if offset > 0xffff_ffff {
            return None;
        }
        self.config_space_write(bus, offset as u32, offset % 4, data);
        None
    }
}

} // verus!
