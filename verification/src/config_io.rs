//! The legacy CAM façade: an 8-byte port-I/O window at 0xCF8, whose low four
//! bytes are the CONFIG_ADDRESS latch and whose high four bytes are the data
//! window into the addressed device's configuration space.

use std::sync::Arc;
use std::sync::Barrier;
use vstd::prelude::*;

use crate::address::cam_bus;
use crate::address::cam_device;
use crate::address::cam_function;
use crate::address::cam_register;
use crate::address::parse_io_config_address;
use crate::bus::write_effect;
use crate::bus::PciBus;
use crate::device::DeviceRelocation;
use crate::device::PciDevice;
use crate::le::dword_merge;
use crate::le::u32_byte;

verus! {

/// What a data-window read returns, given the latch and the bus: all-ones
/// when the enable bit is clear, when the address names another bus or a
/// nonzero function, or when no device sits at the addressed slot; otherwise
/// the addressed device's register.
pub open spec fn cam_read_result<D: PciDevice, R: DeviceRelocation<D>>(
    address: u32,
    bus: PciBus<D, R>,
) -> u32 {
    if address & 0x8000_0000 == 0 {
        0xffff_ffffu32
    } else if cam_bus(address) != 0 {
        0xffff_ffffu32
    } else if cam_function(address) != 0 {
        0xffff_ffffu32
    } else if !bus.devices@.contains_key(cam_device(address)) {
        0xffff_ffffu32
    } else {
        bus.devices@[cam_device(address)].spec_read_reg(cam_register(address) as usize)
    }
}

/// Which slot a data-window write goes to, if any: none when the write
/// crosses the DWORD boundary, when the enable bit is clear, or when the
/// address names another bus. The function field is not consulted on writes.
pub open spec fn cam_write_target(address: u32, offset: u64, len: nat) -> Option<u32> {
    if offset + len > 4 || address & 0x8000_0000 == 0 || cam_bus(address) != 0 {
        Option::None
    } else {
        Option::Some(cam_device(address))
    }
}

/// The value the 8-byte port window exposes at `offset`: the latch over the
/// low DWORD, the data window over the high DWORD, all-ones beyond.
pub open spec fn cam_window_value<D: PciDevice, R: DeviceRelocation<D>>(
    io: PciConfigIo,
    bus: PciBus<D, R>,
    offset: u64,
) -> u32 {
    if offset <= 3 {
        io.config_address
    } else if offset <= 7 {
        cam_read_result(io.config_address, bus)
    } else {
        0xffff_ffffu32
    }
}

/// Any read of configuration space while the enable bit is clear returns
/// all-ones, regardless of target.
pub proof fn lemma_read_disabled<D: PciDevice, R: DeviceRelocation<D>>(
    address: u32,
    bus: PciBus<D, R>,
)
    requires
        address & 0x8000_0000 == 0,
    ensures
        cam_read_result(address, bus) == 0xffff_ffffu32,
{
}

/// Single-bus, single-function policy of the CAM window: a read that names
/// another bus or a nonzero function returns all-ones, and a write that
/// names another bus goes to no device.
pub proof fn lemma_cam_gating<D: PciDevice, R: DeviceRelocation<D>>(
    address: u32,
    bus: PciBus<D, R>,
    offset: u64,
    len: nat,
)
    ensures
        cam_bus(address) != 0 || cam_function(address) != 0 ==> cam_read_result(address, bus)
            == 0xffff_ffffu32,
        cam_bus(address) != 0 ==> cam_write_target(address, offset, len) is None,
{
}

/// A data-window write that would cross the DWORD boundary goes to no
/// device, and a latch write that would cross it leaves the latch unchanged.
pub proof fn lemma_oversized_write_ignored(address: u32, latch: u32, offset: u64, data: Seq<u8>)
    requires
        offset + data.len() > 4,
    ensures
        cam_write_target(address, offset, data.len()) is None,
        dword_merge(latch, offset, data) == latch,
{
}

/// The write/read round trip seen through the CAM data window: after a
/// configuration write that reached the device at the addressed slot —
/// through either access mechanism — and whose write model reports no BAR
/// move, a CAM read of that slot returns exactly what the device's write
/// model says the addressed register now holds.
pub proof fn lemma_write_then_cam_read<D: PciDevice, R: DeviceRelocation<D>>(
    pre: PciBus<D, R>,
    post: PciBus<D, R>,
    address: u32,
    register: usize,
    offset: u64,
    data: Seq<u8>,
)
    requires
        address & 0x8000_0000 != 0,
        cam_bus(address) == 0,
        cam_function(address) == 0,
        pre.devices@.contains_key(cam_device(address)),
        write_effect(pre, post, Some(cam_device(address)), register, offset, data),
        pre.devices@[cam_device(address)].spec_write_moves(register, offset, data).len() == 0,
    ensures
        cam_read_result(address, post) == pre.devices@[cam_device(address)].spec_reg_after_write(
            register,
            offset,
            data,
            cam_register(address) as usize,
        ),
{
}

/// The legacy CAM façade: the CONFIG_ADDRESS latch, exposed together with
/// the data window as a port-I/O device at 0xCF8.
pub struct PciConfigIo {
    /// Config space register.
    pub config_address: u32,
}

impl PciConfigIo {
    /// A fresh façade: the latch starts at zero, so the enable bit is clear.
    pub fn new() -> (r: Self)
        ensures
            r.config_address == 0,
    {
        PciConfigIo { config_address: 0 }
    }

    /// Read the data window: the register the latch addresses, or all-ones
    /// wherever the architectural gating applies.
    pub fn config_space_read<D: PciDevice, R: DeviceRelocation<D>>(&self, bus: &PciBus<D, R>) -> (r:
        u32)
        ensures
            r == cam_read_result(self.config_address, *bus),
    {
        let enabled = (self.config_address & 0x8000_0000) != 0;
        if !enabled {
            return 0xffff_ffff;
        }
        let (bus_num, device, function, register) = parse_io_config_address(
            self.config_address & !0x8000_0000,
        );
        proof {
            let a = self.config_address;
            assert(cam_bus(a & !0x8000_0000) == cam_bus(a)) by (bit_vector);
            assert(cam_device(a & !0x8000_0000) == cam_device(a)) by (bit_vector);
            assert(cam_function(a & !0x8000_0000) == cam_function(a)) by (bit_vector);
            assert(cam_register(a & !0x8000_0000) == cam_register(a)) by (bit_vector);
        }
        // Only support one bus.
        if bus_num != 0 {
            return 0xffff_ffff;
        }
        // Don't support multi-function devices.
        if function > 0 {
            return 0xffff_ffff;
        }
        match bus.devices.get(&(device as u32)) {
            Option::Some(d) => d.read_config_register(register),
            Option::None => 0xffff_ffff,
        }
    }

    /// Write the data window: delegate to the device the latch addresses and
    /// apply any BAR moves the write triggered, or ignore the write wherever
    /// the architectural gating applies. The device's barrier, if any, is
    /// handed back for the dispatch layer to wait on.
    pub fn config_space_write<D: PciDevice, R: DeviceRelocation<D>>(
        &self,
        bus: &mut PciBus<D, R>,
        offset: u64,
        data: &[u8],
    ) -> (r: Option<Arc<Barrier>>)
        requires
            old(bus).wf(),
        ensures
            final (bus).wf(),
            write_effect(
                *old(bus),
                *final (bus),
                cam_write_target(self.config_address, offset, data@.len()),
                cam_register(self.config_address) as usize,
                offset,
                data@,
            ),
            cam_write_target(self.config_address, offset, data@.len()) is None ==> r is None,
            cam_write_target(self.config_address, offset, data@.len()) matches Some(dev) && !old(
                bus,
            ).devices@.contains_key(dev) ==> r is None,
            cam_write_target(self.config_address, offset, data@.len()) matches Some(dev) ==> (old(
                bus,
            ).devices@.contains_key(dev) ==> (r is Some) == old(
                bus,
            ).devices@[dev].spec_write_barrier(
                cam_register(self.config_address) as usize,
                offset,
                data@,
            )),
    {
        if offset > 4 || data.len() > 4 - (offset as usize) {
            return None;
        }
        let enabled = (self.config_address & 0x8000_0000) != 0;
        if !enabled {
            return None;
        }
        let (bus_num, device, _function, register) = parse_io_config_address(
            self.config_address & !0x8000_0000,
        );
        proof {
            let a = self.config_address;
            assert(cam_bus(a & !0x8000_0000) == cam_bus(a)) by (bit_vector);
            assert(cam_device(a & !0x8000_0000) == cam_device(a)) by (bit_vector);
            assert(cam_register(a & !0x8000_0000) == cam_register(a)) by (bit_vector);
        }
        // Only support one bus.
        if bus_num != 0 {
            return None;
        }
        bus.write_register_and_relocate(device as u32, register, offset, data)
    }

    /// Write the CONFIG_ADDRESS latch: merge the written bytes into it,
    /// little-endian. A write that crosses the DWORD boundary, or is neither
    /// 1, 2 nor 4 bytes wide, is silently ignored.
    pub fn set_config_address(&mut self, offset: u64, data: &[u8])
        ensures
            final (self).config_address == dword_merge(old(self).config_address, offset, data@),
    {
        self.config_address = crate::le::apply_dword_write(self.config_address, offset, data);
    }

    /// Read `data.len()` bytes of the port window at `offset` (relative to
    /// 0xCF8), little-endian. A read that crosses a DWORD boundary returns
    /// all-ones.
    pub fn read<D: PciDevice, R: DeviceRelocation<D>>(
        &self,
        bus: &PciBus<D, R>,
        _base: u64,
        offset: u64,
        data: &mut Vec<u8>,
    )
        ensures
            final (data)@.len() == old(data)@.len(),
            (offset % 4) + old(data)@.len() <= 4 ==> forall|j: int|
                0 <= j < old(data)@.len() ==> final (data)@[j] == u32_byte(
                    cam_window_value(*self, *bus, offset),
                    (offset % 4) + j,
                ),
            (offset % 4) + old(data)@.len() > 4 ==> forall|j: int|
                0 <= j < old(data)@.len() ==> final (data)@[j] == 0xffu8,
    {
        let value = if offset < 4 {
            self.config_address
        } else if offset < 8 {
            self.config_space_read(bus)
        } else {
            0xffff_ffff
        };
        let start = (offset % 4) as usize;
        let len = data.len();
        if len <= 4 && start + len <= 4 {
            let mut j: usize = 0;
            while j < len
                invariant
                    j <= len,
                    start + len <= 4,
                    data@.len() == len,
                    value == cam_window_value(*self, *bus, offset),
                    start == offset % 4,
                    forall|i: int|
                        0 <= i < j ==> data@[i] == u32_byte(value, start + i),
                decreases len - j,
            {
                let sh: u32 = ((start + j) as u32) * 8;
                data[j] = #[verifier::truncate] ((value >> sh) as u8);
                j += 1;
            }
        } else {
            let mut j: usize = 0;
            while j < len
                invariant
                    j <= len,
                    data@.len() == len,
                    forall|i: int| 0 <= i < j ==> data@[i] == 0xffu8,
                decreases len - j,
            {
                data[j] = 0xff;
                j += 1;
            }
        }
    }

    /// Write `data` into the port window at `offset` (relative to 0xCF8):
    /// offsets 0 to 3 update the latch, offsets 4 to 7 write the data window,
    /// anything beyond is ignored.
    pub fn write<D: PciDevice, R: DeviceRelocation<D>>(
        &mut self,
        bus: &mut PciBus<D, R>,
        _base: u64,
        offset: u64,
        data: &[u8],
    ) -> (r: Option<Arc<Barrier>>)
        requires
            old(bus).wf(),
        ensures
            final (bus).wf(),
            offset <= 3 ==> final (self).config_address == dword_merge(
                old(self).config_address,
                offset,
                data@,
            ) && *final (bus) == *old(bus) && r is None,
            4 <= offset <= 7 ==> *final (self) == *old(self) && write_effect(
                *old(bus),
                *final (bus),
                cam_write_target(old(self).config_address, (offset - 4) as u64, data@.len()),
                cam_register(old(self).config_address) as usize,
                (offset - 4) as u64,
                data@,
            ),
            4 <= offset <= 7 && cam_write_target(
                old(self).config_address,
                (offset - 4) as u64,
                data@.len(),
            ) is None ==> r is None,
            4 <= offset <= 7 ==> (cam_write_target(
                old(self).config_address,
                (offset - 4) as u64,
                data@.len(),
            ) matches Some(dev) ==> (old(bus).devices@.contains_key(dev) ==> (r is Some) == old(
                bus,
            ).devices@[dev].spec_write_barrier(
                cam_register(old(self).config_address) as usize,
                (offset - 4) as u64,
                data@,
            ))),
            offset > 7 ==> *final (self) == *old(self) && *final (bus) == *old(bus) && r is None,
    {
        if offset < 4 {
            self.set_config_address(offset, data);
            None
        } else if offset < 8 {
            self.config_space_write(bus, offset - 4, data)
        } else {
            None
        }
    }
}

} // verus!
