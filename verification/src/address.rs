//! Pure address decoding for the two PCI configuration-access mechanisms.
//!
//! The legacy CAM mechanism packs (bus, device, function, register) into the
//! 32-bit CONFIG_ADDRESS register at 0xCF8; the ECAM mechanism packs the same
//! tuple into the byte offset within a memory-mapped window. Both layouts are
//! normative and must match the PCI specifications bit for bit.

use vstd::prelude::*;

verus! {

/// Bus number field of a CAM CONFIG_ADDRESS value: bits 23:16.
pub open spec fn cam_bus(address: u32) -> u32 {
    (address >> 16) & 0xff
}

/// Device number field of a CAM CONFIG_ADDRESS value: bits 15:11.
pub open spec fn cam_device(address: u32) -> u32 {
    (address >> 11) & 0x1f
}

/// Function number field of a CAM CONFIG_ADDRESS value: bits 10:8.
pub open spec fn cam_function(address: u32) -> u32 {
    (address >> 8) & 0x07
}

/// Register index field of a CAM CONFIG_ADDRESS value: bits 7:2, a DWORD index.
pub open spec fn cam_register(address: u32) -> u32 {
    (address >> 2) & 0x3f
}

/// Bus number field of an ECAM offset: bits 27:20.
pub open spec fn ecam_bus(offset: u32) -> u32 {
    (offset >> 20) & 0xff
}

/// Device number field of an ECAM offset: bits 19:15.
pub open spec fn ecam_device(offset: u32) -> u32 {
    (offset >> 15) & 0x1f
}

/// Function number field of an ECAM offset: bits 14:12.
pub open spec fn ecam_function(offset: u32) -> u32 {
    (offset >> 12) & 0x07
}

/// Register index field of an ECAM offset: bits 11:2. Ten bits wide, covering
/// the 4 KiB of PCI Express extended configuration space per function.
pub open spec fn ecam_register(offset: u32) -> u32 {
    (offset >> 2) & 0x3ff
}

/// A CAM CONFIG_ADDRESS value composed from its fields. Inverse of the
/// `cam_*` field extractors on in-range fields.
pub open spec fn compose_cam(bus: u32, device: u32, function: u32, register: u32) -> u32 {
    ((bus & 0xff) << 16) | ((device & 0x1f) << 11) | ((function & 0x07) << 8) | ((register & 0x3f)
        << 2)
}

/// An ECAM offset composed from its fields. Inverse of the `ecam_*` field
/// extractors on in-range fields.
pub open spec fn compose_ecam(bus: u32, device: u32, function: u32, register: u32) -> u32 {
    ((bus & 0xff) << 20) | ((device & 0x1f) << 15) | ((function & 0x07) << 12) | ((register
        & 0x3ff) << 2)
}

/// Decoding a composed CAM address recovers exactly the fields it was built
/// from, for every tuple within the architectural field widths.
pub proof fn lemma_cam_round_trip(bus: u32, device: u32, function: u32, register: u32)
    by (bit_vector)
    requires
        bus < 0x100,
        device < 0x20,
        function < 0x08,
        register < 0x40,
    ensures
        cam_bus(compose_cam(bus, device, function, register)) == bus,
        cam_device(compose_cam(bus, device, function, register)) == device,
        cam_function(compose_cam(bus, device, function, register)) == function,
        cam_register(compose_cam(bus, device, function, register)) == register,
{
}

/// Decoding a composed ECAM offset recovers exactly the fields it was built
/// from, for every tuple within the architectural field widths.
pub proof fn lemma_ecam_round_trip(bus: u32, device: u32, function: u32, register: u32)
    by (bit_vector)
    requires
        bus < 0x100,
        device < 0x20,
        function < 0x08,
        register < 0x400,
    ensures
        ecam_bus(compose_ecam(bus, device, function, register)) == bus,
        ecam_device(compose_ecam(bus, device, function, register)) == device,
        ecam_function(compose_ecam(bus, device, function, register)) == function,
        ecam_register(compose_ecam(bus, device, function, register)) == register,
{
}

/// Shift a value right and mask off a field, as the decoders below do for
/// every address field.
pub fn shift_and_mask(value: u32, offset: usize, mask: u32) -> (r: usize)
    requires
        offset < 32,
    ensures
        r == ((value >> offset as u32) & mask) as usize,
{
    ((value >> offset) & mask) as usize
}

/// Decode the CAM CONFIG_ADDRESS register into its
/// (bus, device, function, register) fields.
pub fn parse_io_config_address(config_address: u32) -> (r: (usize, usize, usize, usize))
    ensures
        r.0 == cam_bus(config_address) as usize,
        r.1 == cam_device(config_address) as usize,
        r.2 == cam_function(config_address) as usize,
        r.3 == cam_register(config_address) as usize,
{
    (
        shift_and_mask(config_address, 16, 0x00ff),
        shift_and_mask(config_address, 11, 0x1f),
        shift_and_mask(config_address, 8, 0x07),
        shift_and_mask(config_address, 2, 0x3f),
    )
}

/// Decode an ECAM window offset into its (bus, device, function, register)
/// fields.
pub fn parse_mmio_config_address(config_address: u32) -> (r: (usize, usize, usize, usize))
    ensures
        r.0 == ecam_bus(config_address) as usize,
        r.1 == ecam_device(config_address) as usize,
        r.2 == ecam_function(config_address) as usize,
        r.3 == ecam_register(config_address) as usize,
{
    (
        shift_and_mask(config_address, 20, 0x00ff),
        shift_and_mask(config_address, 15, 0x1f),
        shift_and_mask(config_address, 12, 0x07),
        shift_and_mask(config_address, 2, 0x3ff),
    )
}

} // verus!
