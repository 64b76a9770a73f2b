//! The contracts the bus's collaborators implement: attached PCI devices, the
//! BAR relocation callback, and the host's address-dispatch buses.

use std::sync::Arc;
use std::sync::Barrier;
use vstd::prelude::*;

verus! {

/// The kind of address window a BAR occupies.
#[derive(Clone, Copy, Debug, PartialEq, Eq, Structural)]
pub enum PciBarRegionType {
    IoRegion,
    Memory32BitRegion,
    Memory64BitRegion,
}

/// An in-flight BAR move: produced by a device when a guest rewrites one of
/// its BARs, consumed immediately by the `DeviceRelocation` collaborator.
#[derive(Clone, Copy, Debug, PartialEq, Eq, Structural)]
pub struct BarReprogrammingParams {
    pub old_base: u64,
    pub new_base: u64,
    pub len: u64,
    pub region_type: PciBarRegionType,
}

/// Synchronization barriers travel opaquely from a device's configuration
/// write back to the dispatch layer; nothing here inspects one.
#[verifier::external_type_specification]
#[verifier::external_body]
pub struct ExBarrier(Barrier);

/// Errors from collaborators are reported, never inspected, so the standard
/// I/O error type is carried through opaquely.
#[verifier::external_type_specification]
#[verifier::external_body]
pub struct ExIoError(std::io::Error);

/// The capability set every attached PCI device must implement.
pub trait PciDevice {
    /// The value each 32-bit configuration register currently reads as, by
    /// DWORD index. Out-of-range indices must read as 0xFFFF_FFFF.
    spec fn spec_read_reg(&self, reg_idx: usize) -> u32;

    /// Whether `other` stands for the same underlying device as `self`. Used
    /// by `PciBus::remove_by_device` in place of handle identity: a device
    /// type that can be attached more than once should carry an identity
    /// token of its own (a unique id) and compare that, so that two distinct
    /// devices never answer true.
    spec fn spec_same_device(&self, other: &Self) -> bool;

    /// The write model, observation by observation: register `q` as it reads
    /// after writing `data` at byte `offset` within register `reg_idx`.
    spec fn spec_reg_after_write(&self, reg_idx: usize, offset: u64, data: Seq<u8>, q: usize) -> u32;

    /// The BAR moves that write triggers, in order.
    spec fn spec_write_moves(&self, reg_idx: usize, offset: u64, data: Seq<u8>) -> Seq<
        BarReprogrammingParams,
    >;

    /// Whether that write returns a completion barrier.
    spec fn spec_write_barrier(&self, reg_idx: usize, offset: u64, data: Seq<u8>) -> bool;

    /// Read one 32-bit configuration register. Reads are side-effect-free.
    fn read_config_register(&self, reg_idx: usize) -> (r: u32)
        ensures
            r == self.spec_read_reg(reg_idx),
    ;

    /// Write 1, 2 or 4 bytes at sub-DWORD `offset` within register `reg_idx`.
    /// Returns the BAR moves the write triggered and, optionally, a barrier
    /// the caller must honour before acknowledging the write. The outcome is
    /// exactly what the device's write model says: the registers read back
    /// per `spec_reg_after_write`, the moves are `spec_write_moves`, and a
    /// barrier comes back exactly when `spec_write_barrier` says so.
    fn write_config_register(&mut self, reg_idx: usize, offset: u64, data: &[u8]) -> (r: (
        Vec<BarReprogrammingParams>,
        Option<Arc<Barrier>>,
    ))
        ensures
            forall|q: usize| #[trigger]
                final (self).spec_read_reg(q) == old(self).spec_reg_after_write(
                    reg_idx,
                    offset,
                    data@,
                    q,
                ),
            r.0@ == old(self).spec_write_moves(reg_idx, offset, data@),
            (r.1 is Some) == old(self).spec_write_barrier(reg_idx, offset, data@),
    ;

    /// Executable form of `spec_same_device`.
    fn same_device(&self, other: &Self) -> (r: bool)
        ensures
            r == self.spec_same_device(other),
    ;

    /// Stable human-readable identifier, or none for anonymous devices such
    /// as the host bridge.
    fn id(&self) -> (r: Option<String>);
}

/// The collaborator that reflects BAR moves into the host's dispatch tables.
/// Its history of invocations is ghost state, so that the configuration-write
/// paths can state exactly which moves they requested.
pub trait DeviceRelocation<D> {
    /// Every `move_bar` invocation so far, oldest first.
    spec fn calls(&self) -> Seq<BarReprogrammingParams>;

    /// Relocate the window of `device` from `old_base` to `new_base`.
    /// Implementations record the invocation whether or not it succeeds;
    /// nothing is promised about success, which is the collaborator's to
    /// decide.
    fn move_bar(
        &mut self,
        old_base: u64,
        new_base: u64,
        len: u64,
        device: &mut D,
        region_type: PciBarRegionType,
    ) -> (r: Result<(), std::io::Error>)
        ensures
            final (self).calls() == old(self).calls().push(
                BarReprogrammingParams { old_base, new_base, len, region_type },
            ),
    ;
}

/// The library's own minimal relocation collaborator: it accepts every move
/// and keeps, as a plain vector, exactly the record its ghost history
/// promises. A host that has no dispatch tables to maintain can run a bus
/// with it and inspect the moves afterwards.
pub struct RelocationLog {
    pub moves: Vec<BarReprogrammingParams>,
}

impl RelocationLog {
    pub fn new() -> (r: Self)
        ensures
            r.moves@ == Seq::<BarReprogrammingParams>::empty(),
    {
        RelocationLog { moves: Vec::new() }
    }
}

impl<D> DeviceRelocation<D> for RelocationLog {
    open spec fn calls(&self) -> Seq<BarReprogrammingParams> {
        self.moves@
    }

    fn move_bar(
        &mut self,
        old_base: u64,
        new_base: u64,
        len: u64,
        _device: &mut D,
        region_type: PciBarRegionType,
    ) -> (r: Result<(), std::io::Error>) {
        self.moves.push(BarReprogrammingParams { old_base, new_base, len, region_type });
        Ok(())
    }
}

/// An address-dispatch bus: an opaque container of device windows keyed by
/// byte range. The ranges it has accepted are ghost state, so that BAR
/// registration can state exactly what it inserted.
pub trait DispatchBus {
    /// Every range accepted so far, as (base, size) pairs, oldest first.
    spec fn inserted(&self) -> Seq<(u64, u64)>;

    /// Offer the byte range [base, base + size) to the bus. Refusal (a range
    /// conflict) leaves the bus as it was; nothing is promised about when the
    /// bus accepts.
    fn insert(&mut self, base: u64, size: u64) -> (r: Result<(), std::io::Error>)
        ensures
            r is Ok ==> final (self).inserted() == old(self).inserted().push((base, size)),
            r is Err ==> final (self).inserted() == old(self).inserted(),
    ;
}

} // verus!
