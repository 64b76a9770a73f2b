//! The PCI bus: slot allocation, the device map, BAR registration, and the
//! laws the slot table obeys.

use std::collections::HashMap;
use std::sync::Arc;
use std::sync::Barrier;
use vstd::prelude::*;

use crate::device::DeviceRelocation;
use crate::device::DispatchBus;
use crate::device::PciBarRegionType;
use crate::device::PciDevice;

verus! {

broadcast use vstd::std_specs::hash::group_hash_axioms;

/// How many device slots a single PCI bus offers.
pub const NUM_DEVICE_IDS: usize = 32;

/// Errors for device management on the root bus.
#[derive(Clone, Copy, Debug, PartialEq, Eq, Structural)]
pub enum PciRootError {
    /// Could not allocate device address space for the device.
    AllocateDeviceAddrs,
    /// Could not allocate an IRQ number.
    AllocateIrq,
    /// Could not add a device to the port io bus.
    PioInsert,
    /// Could not add a device to the mmio bus.
    MmioInsert,
    /// Could not find an available device slot on the PCI bus.
    NoPciDeviceSlotAvailable,
    /// Invalid PCI device identifier provided.
    InvalidPciDeviceSlot(usize),
    /// Valid PCI device identifier but already used.
    AlreadyInUsePciDeviceSlot(usize),
}

/// One BAR of a device: where it lives, how long it is, and which address
/// space it occupies.
#[derive(Clone, Copy, Debug, PartialEq, Eq, Structural)]
pub struct PciBarConfiguration {
    pub addr: u64,
    pub size: u64,
    pub region_type: PciBarRegionType,
}

impl PciBarConfiguration {
    pub fn new(addr: u64, size: u64, region_type: PciBarRegionType) -> (r: Self)
        ensures
            r == (PciBarConfiguration { addr, size, region_type }),
    {
        PciBarConfiguration { addr, size, region_type }
    }

    pub fn addr(&self) -> (r: u64)
        ensures
            r == self.addr,
    {
        self.addr
    }

    pub fn size(&self) -> (r: u64)
        ensures
            r == self.size,
    {
        self.size
    }

    pub fn region_type(&self) -> (r: PciBarRegionType)
        ensures
            r == self.region_type,
    {
        self.region_type
    }
}

/// The lowest free slot at or after position `i`, if any.
pub open spec fn first_free_from(ids: Seq<bool>, i: int) -> Option<int>
    decreases ids.len() - i,
{
    if i < 0 || i >= ids.len() {
        None
    } else if !ids[i] {
        Some(i)
    } else {
        first_free_from(ids, i + 1)
    }
}

/// The lowest free slot of the table, if any.
pub open spec fn first_free(ids: Seq<bool>) -> Option<int> {
    first_free_from(ids, 0)
}

/// How many slots of the table are claimed.
pub open spec fn count_true(ids: Seq<bool>) -> int
    decreases ids.len(),
{
    if ids.len() == 0 {
        0
    } else {
        count_true(ids.drop_last()) + if ids.last() {
            1int
        } else {
            0int
        }
    }
}

/// The claimed slot numbers of the table, as a set.
pub open spec fn occupied_set(ids: Seq<bool>) -> Set<u32> {
    Set::new(|k: u32| k < ids.len() && ids[k as int])
}

proof fn lemma_first_free_from_found(ids: Seq<bool>, i: int, k: int)
    requires
        0 <= i <= k < ids.len(),
        forall|j: int| i <= j < k ==> ids[j],
        !ids[k],
    ensures
        first_free_from(ids, i) == Some(k),
    decreases k - i,
{
    if i < k {
        lemma_first_free_from_found(ids, i + 1, k);
    }
}

proof fn lemma_first_free_from_none(ids: Seq<bool>, i: int)
    requires
        0 <= i,
        forall|j: int| i <= j < ids.len() ==> ids[j],
    ensures
        first_free_from(ids, i) is None,
    decreases ids.len() - i,
{
    if i < ids.len() {
        lemma_first_free_from_none(ids, i + 1);
    }
}

/// The claimed slots of a table, counted as a set, are as many as its true
/// flags.
pub proof fn lemma_occupied_count(ids: Seq<bool>)
    requires
        ids.len() <= 0x1_0000_0000,
    ensures
        occupied_set(ids).finite(),
        occupied_set(ids).len() == count_true(ids),
    decreases ids.len(),
{
    if ids.len() == 0 {
        assert(occupied_set(ids) =~= Set::<u32>::empty());
    } else {
        let pre = ids.drop_last();
        let last = (ids.len() - 1) as u32;
        lemma_occupied_count(pre);
        if ids.last() {
            assert forall|x: u32|
                occupied_set(ids).contains(x) == occupied_set(pre).insert(last).contains(x) by {
                if x < pre.len() {
                    assert(pre[x as int] == ids[x as int]);
                }
            }
            assert(occupied_set(ids) =~= occupied_set(pre).insert(last));
            assert(!occupied_set(pre).contains(last));
        } else {
            assert forall|x: u32|
                occupied_set(ids).contains(x) == occupied_set(pre).contains(x) by {
                if x < pre.len() {
                    assert(pre[x as int] == ids[x as int]);
                }
            }
            assert(occupied_set(ids) =~= occupied_set(pre));
        }
    }
}

/// For all slot tables and device maps in the correspondence the bus
/// maintains — a device present exactly at every claimed slot — the number of
/// claimed slots equals the cardinality of the device map.
pub proof fn lemma_slot_count_matches_device_count<D>(ids: Seq<bool>, devices: Map<u32, D>)
    requires
        ids.len() <= 0x1_0000_0000,
        forall|k: u32| #[trigger] devices.contains_key(k) <==> (k < ids.len() && ids[k as int]),
    ensures
        devices.dom().finite(),
        devices.dom().len() == count_true(ids),
{
    assert forall|x: u32| devices.dom().contains(x) == occupied_set(ids).contains(x) by {
        assert(devices.contains_key(x) <==> (x < ids.len() && ids[x as int]));
    }
    assert(devices.dom() =~= occupied_set(ids));
    lemma_occupied_count(ids);
}

/// A bus as `PciBus::new` builds it already satisfies the slot/device
/// balance: one claimed slot, one device — the host bridge.
pub proof fn lemma_fresh_bus_balance<D: PciDevice, R: DeviceRelocation<D>>(
    bus: PciBus<D, R>,
    host_bridge: D,
)
    requires
        bus.device_ids@.len() == 32,
        bus.device_ids@[0],
        forall|j: int| 1 <= j < 32 ==> !bus.device_ids@[j],
        bus.devices@ == Map::<u32, D>::empty().insert(0u32, host_bridge),
    ensures
        bus.devices@.dom().len() == count_true(bus.device_ids@),
{
    assert forall|k: u32|
        bus.devices@.contains_key(k) <==> (k < bus.device_ids@.len() && bus.device_ids@[k as int])
    by {
        assert(bus.devices@.contains_key(k) <==> k == 0);
    }
    lemma_slot_count_matches_device_count(bus.device_ids@, bus.devices@);
}

/// Claiming or releasing any slot other than slot 0 leaves slot 0 claimed:
/// once the host bridge takes it at construction, only an explicit release of
/// slot 0 itself can give it up.
pub proof fn lemma_slot_zero_stays_occupied(ids: Seq<bool>, id: int, claimed: bool)
    requires
        ids.len() > 0,
        ids[0],
        0 < id < ids.len(),
    ensures
        ids.update(id, claimed)[0],
{
}

proof fn lemma_first_free_from_ge(ids: Seq<bool>, i: int)
    requires
        0 <= i,
    ensures
        first_free_from(ids, i) matches Some(k) ==> i <= k < ids.len(),
    decreases ids.len() - i,
{
    if i < ids.len() && ids[i] {
        lemma_first_free_from_ge(ids, i + 1);
    }
}

/// The allocator never hands out slot 0 while it is claimed.
pub proof fn lemma_slot_zero_not_allocated(ids: Seq<bool>)
    requires
        ids.len() > 0,
        ids[0],
    ensures
        first_free(ids) matches Some(k) ==> k != 0,
{
    lemma_first_free_from_ge(ids, 1);
}

/// Releasing slot `s` and then asking for the next free slot returns `s`
/// whenever every slot below `s` is claimed — that is, whenever `s` is the
/// lowest free slot after the release.
pub proof fn lemma_put_then_next(ids: Seq<bool>, s: int)
    requires
        ids.len() == 32,
        0 <= s < 32,
        forall|j: int| 0 <= j < s ==> ids[j],
    ensures
        first_free(ids.update(s, false)) == Some(s),
{
    lemma_first_free_from_found(ids.update(s, false), 0, s);
}

/// The I/O-space ranges of a BAR list, in order, as (base, size) pairs.
pub open spec fn io_bar_ranges(bars: Seq<PciBarConfiguration>) -> Seq<(u64, u64)>
    decreases bars.len(),
{
    if bars.len() == 0 {
        Seq::empty()
    } else {
        let rest = io_bar_ranges(bars.drop_last());
        let b = bars.last();
        if b.region_type == PciBarRegionType::IoRegion {
            rest.push((b.addr, b.size))
        } else {
            rest
        }
    }
}

/// The memory-space ranges of a BAR list, in order, as (base, size) pairs.
pub open spec fn mem_bar_ranges(bars: Seq<PciBarConfiguration>) -> Seq<(u64, u64)>
    decreases bars.len(),
{
    if bars.len() == 0 {
        Seq::empty()
    } else {
        let rest = mem_bar_ranges(bars.drop_last());
        let b = bars.last();
        if b.region_type == PciBarRegionType::IoRegion {
            rest
        } else {
            rest.push((b.addr, b.size))
        }
    }
}

/// How a configuration write changes the bus, as seen from either access
/// mechanism, once the address decoding has settled on `target` and the
/// register index. A gated-off write (no target) changes nothing, and so
/// does a write to an absent slot. A write to a present device delegates
/// `(register, offset, data)` to that device and to no other: the slot
/// table, the set of attached slots, and every other device stay as they
/// were; the relocation history grows by exactly the BAR moves the device's
/// write model reports for that call, in order; and when the model reports
/// no move, the target device afterwards reads back exactly per its write
/// model. (When moves occur, the relocation collaborator receives the device
/// mutably, as the hardware model demands, so the device's final state is
/// the collaborator's to determine.)
pub open spec fn write_effect<D: PciDevice, R: DeviceRelocation<D>>(
    pre: PciBus<D, R>,
    post: PciBus<D, R>,
    target: Option<u32>,
    register: usize,
    offset: u64,
    data: Seq<u8>,
) -> bool {
    match target {
        Option::None => {
            &&& post.devices@ == pre.devices@
            &&& post.device_ids == pre.device_ids
            &&& post.device_reloc == pre.device_reloc
        },
        Option::Some(dev) => {
            if !pre.devices@.contains_key(dev) {
                &&& post.devices@ == pre.devices@
                &&& post.device_ids == pre.device_ids
                &&& post.device_reloc == pre.device_reloc
            } else {
                let d = pre.devices@[dev];
                let moves = d.spec_write_moves(register, offset, data);
                &&& post.device_ids == pre.device_ids
                &&& post.devices@.dom() =~= pre.devices@.dom()
                &&& forall|k: u32|
                    k != dev && #[trigger] pre.devices@.contains_key(k) ==> post.devices@[k]
                        == pre.devices@[k]
                &&& post.device_reloc.calls() == pre.device_reloc.calls() + moves
                &&& moves.len() == 0 ==> forall|q: usize| #[trigger]
                    post.devices@[dev].spec_read_reg(q) == d.spec_reg_after_write(
                        register,
                        offset,
                        data,
                        q,
                    )
            }
        },
    }
}

/// A single PCI bus: the devices attached to it by slot, the slot-occupancy
/// table, and the collaborator that reflects BAR moves into the host's
/// dispatch tables. Device 0 is the host bridge.
pub struct PciBus<D: PciDevice, R: DeviceRelocation<D>> {
    /// Devices attached to this bus, by slot number.
    pub devices: HashMap<u32, D>,
    pub device_reloc: R,
    pub device_ids: Vec<bool>,
}

impl<D: PciDevice, R: DeviceRelocation<D>> PciBus<D, R> {
    /// The shape every reachable bus keeps: a 32-entry slot table, and
    /// devices only at slot numbers the table covers.
    pub open spec fn wf(&self) -> bool {
        &&& self.device_ids@.len() == 32
        &&& forall|k: u32| #[trigger] self.devices@.contains_key(k) ==> k < 32
    }

    /// A fresh bus: the host bridge sits at slot 0, slot 0 is claimed, every
    /// other slot is free.
    pub fn new(host_bridge: D, device_reloc: R) -> (r: Self)
        ensures
            r.wf(),
            r.devices@ == Map::<u32, D>::empty().insert(0u32, host_bridge),
            r.device_ids@.len() == 32,
            r.device_ids@[0],
            forall|j: int| 1 <= j < 32 ==> !r.device_ids@[j],
            r.device_reloc == device_reloc,
    {
        let mut devices: HashMap<u32, D> = HashMap::new();
        let mut device_ids: Vec<bool> = Vec::new();
        let mut i: usize = 0;
        while i < 32
            invariant
                i <= 32,
                device_ids@.len() == i,
                forall|j: int| 0 <= j < i ==> !device_ids@[j],
            decreases 32 - i,
        {
            device_ids.push(false);
            i += 1;
        }
        devices.insert(0, host_bridge);
        device_ids[0] = true;
        PciBus { devices, device_reloc, device_ids }
    }

    /// Scan the slot table low to high and claim the first free slot.
    /// Returns its number, or `NoPciDeviceSlotAvailable` when all 32 slots
    /// are claimed. The tie-break order is strictly ascending: it fixes the
    /// addresses at which devices appear to the guest.
    pub fn next_device_id(&mut self) -> (r: Result<u32, PciRootError>)
        requires
            old(self).wf(),
        ensures
            final (self).wf(),
            final (self).devices == old(self).devices,
            final (self).device_reloc == old(self).device_reloc,
            (r is Ok) == (first_free(old(self).device_ids@) is Some),
            r matches Ok(slot) ==> first_free(old(self).device_ids@) == Some(slot as int) && final (
            self).device_ids@ == old(self).device_ids@.update(slot as int, true),
            r matches Err(e) ==> e == PciRootError::NoPciDeviceSlotAvailable && final (
            self).device_ids@ == old(self).device_ids@,
            old(self).device_ids@[0] ==> final (self).device_ids@[0],
    {
        let mut idx: usize = 0;
        while idx < 32
            invariant
                idx <= 32,
                *self == *old(self),
                old(self).wf(),
                forall|j: int| 0 <= j < idx ==> old(self).device_ids@[j],
            decreases 32 - idx,
        {
            if !self.device_ids[idx] {
                self.device_ids[idx] = true;
                proof {
                    lemma_first_free_from_found(old(self).device_ids@, 0, idx as int);
                }
                return Ok(idx as u32);
            }
            idx += 1;
        }
        proof {
            lemma_first_free_from_none(old(self).device_ids@, 0);
        }
        Err(PciRootError::NoPciDeviceSlotAvailable)
    }

    /// Idempotent reservation of a specific slot. Fails with
    /// `InvalidPciDeviceSlot` when the slot number is out of range, and with
    /// `AlreadyInUsePciDeviceSlot` when the slot is already claimed.
    pub fn get_device_id(&mut self, id: usize) -> (r: Result<(), PciRootError>)
        requires
            old(self).wf(),
        ensures
            final (self).wf(),
            final (self).devices == old(self).devices,
            final (self).device_reloc == old(self).device_reloc,
            id < 32 && !old(self).device_ids@[id as int] ==> r is Ok && final (self).device_ids@
                == old(self).device_ids@.update(id as int, true),
            id < 32 && old(self).device_ids@[id as int] ==> r == Err::<(), PciRootError>(
                PciRootError::AlreadyInUsePciDeviceSlot(id),
            ) && final (self).device_ids@ == old(self).device_ids@,
            id >= 32 ==> r == Err::<(), PciRootError>(PciRootError::InvalidPciDeviceSlot(id))
                && final (self).device_ids@ == old(self).device_ids@,
            old(self).device_ids@[0] ==> final (self).device_ids@[0],
    {
        if id < NUM_DEVICE_IDS {
            if !self.device_ids[id] {
                self.device_ids[id] = true;
                Ok(())
            } else {
                Err(PciRootError::AlreadyInUsePciDeviceSlot(id))
            }
        } else {
            Err(PciRootError::InvalidPciDeviceSlot(id))
        }
    }

    /// Release a slot. Releasing an already-free slot is not an error; a slot
    /// number out of range fails with `InvalidPciDeviceSlot`.
    pub fn put_device_id(&mut self, id: usize) -> (r: Result<(), PciRootError>)
        requires
            old(self).wf(),
        ensures
            final (self).wf(),
            final (self).devices == old(self).devices,
            final (self).device_reloc == old(self).device_reloc,
            id < 32 ==> r is Ok && final (self).device_ids@ == old(self).device_ids@.update(
                id as int,
                false,
            ),
            id >= 32 ==> r == Err::<(), PciRootError>(PciRootError::InvalidPciDeviceSlot(id))
                && final (self).device_ids@ == old(self).device_ids@,
            id != 0 && old(self).device_ids@[0] ==> final (self).device_ids@[0],
    {
        if id < NUM_DEVICE_IDS {
            self.device_ids[id] = false;
            Ok(())
        } else {
            Err(PciRootError::InvalidPciDeviceSlot(id))
        }
    }

    /// Insert a device into the slot map. Callers must have claimed the slot
    /// via `next_device_id` or `get_device_id`; the insertion itself cannot
    /// fail. An existing mapping at the slot is silently overwritten.
    pub fn add_device(&mut self, device_id: u32, device: D) -> (r: Result<(), PciRootError>)
        requires
            old(self).wf(),
            device_id < 32,
        ensures
            final (self).wf(),
            r is Ok,
            final (self).devices@ == old(self).devices@.insert(device_id, device),
            final (self).device_ids == old(self).device_ids,
            final (self).device_reloc == old(self).device_reloc,
    {
        self.devices.insert(device_id, device);
        Ok(())
    }

    /// Remove every entry that stands for the same underlying device as
    /// `device` — typically exactly one. The slot-occupancy table is left
    /// untouched, slot 0's host-bridge reservation included.
    pub fn remove_by_device(&mut self, device: &D) -> (r: Result<(), PciRootError>)
        requires
            old(self).wf(),
        ensures
            final (self).wf(),
            r is Ok,
            final (self).device_ids == old(self).device_ids,
            final (self).device_reloc == old(self).device_reloc,
            forall|k: u32| #[trigger]
                final (self).devices@.contains_key(k) <==> (old(self).devices@.contains_key(k)
                    && !old(self).devices@[k].spec_same_device(device)),
            forall|k: u32| #[trigger]
                final (self).devices@.contains_key(k) ==> final (self).devices@[k] == old(
                    self,
                ).devices@[k],
    {
        let mut k: u32 = 0;
        while k < 32
            invariant
                k <= 32,
                self.wf(),
                self.device_ids == old(self).device_ids,
                self.device_reloc == old(self).device_reloc,
                forall|j: u32|
                    j >= k ==> (#[trigger] self.devices@.contains_key(j) == old(
                        self,
                    ).devices@.contains_key(j)),
                forall|j: u32| #[trigger]
                    self.devices@.contains_key(j) && j < k ==> !old(
                        self,
                    ).devices@[j].spec_same_device(device),
                forall|j: u32| #[trigger]
                    old(self).devices@.contains_key(j) && j < k && !old(
                        self,
                    ).devices@[j].spec_same_device(device) ==> self.devices@.contains_key(j),
                forall|j: u32| #[trigger]
                    self.devices@.contains_key(j) ==> old(self).devices@.contains_key(j)
                        && self.devices@[j] == old(self).devices@[j],
            decreases 32 - k,
        {
            let matched = match self.devices.get(&k) {
                Some(d) => d.same_device(device),
                None => false,
            };
            if matched {
                self.devices.remove(&k);
            }
            k += 1;
        }
        Ok(())
    }

    /// For each BAR of `bars`, offer the device's window to the port-I/O bus
    /// (I/O BARs) or to the MMIO bus (32- and 64-bit memory BARs). A refusal
    /// surfaces as `PioInsert` or `MmioInsert`; the operation is not
    /// transactional, and the insertions made before a refusal stay.
    pub fn register_mapping<B1: DispatchBus, B2: DispatchBus>(
        &self,
        io_bus: &mut B1,
        mmio_bus: &mut B2,
        bars: Vec<PciBarConfiguration>,
    ) -> (r: Result<(), PciRootError>)
        ensures
            r is Ok ==> final (io_bus).inserted() == old(io_bus).inserted() + io_bar_ranges(bars@)
                && final (mmio_bus).inserted() == old(mmio_bus).inserted() + mem_bar_ranges(bars@),
            r matches Err(e) ==> exists|i: int|
                #![trigger bars@.take(i)]
                {
                    &&& 0 <= i < bars@.len()
                    &&& e == (if bars@[i].region_type == PciBarRegionType::IoRegion {
                        PciRootError::PioInsert
                    } else {
                        PciRootError::MmioInsert
                    })
                    &&& final (io_bus).inserted() == old(io_bus).inserted() + io_bar_ranges(
                        bars@.take(i),
                    )
                    &&& final (mmio_bus).inserted() == old(mmio_bus).inserted() + mem_bar_ranges(
                        bars@.take(i),
                    )
                },
    {
        proof {
            assert(old(io_bus).inserted() + io_bar_ranges(bars@.take(0)) =~= old(
                io_bus,
            ).inserted());
            assert(old(mmio_bus).inserted() + mem_bar_ranges(bars@.take(0)) =~= old(
                mmio_bus,
            ).inserted());
        }
        let mut i: usize = 0;
        while i < bars.len()
            invariant
                i <= bars@.len(),
                io_bus.inserted() == old(io_bus).inserted() + io_bar_ranges(bars@.take(i as int)),
                mmio_bus.inserted() == old(mmio_bus).inserted() + mem_bar_ranges(
                    bars@.take(i as int),
                ),
            decreases bars@.len() - i,
        {
            let bar = bars[i];
            proof {
                assert(bars@.take(i + 1).drop_last() =~= bars@.take(i as int));
                assert(bars@.take(i + 1).last() == bars@[i as int]);
            }
            match bar.region_type() {
                PciBarRegionType::IoRegion => {
                    let inserted = io_bus.insert(bar.addr(), bar.size());
                    if inserted.is_err() {
                        return Err(PciRootError::PioInsert);
                    }
                },
                PciBarRegionType::Memory32BitRegion | PciBarRegionType::Memory64BitRegion => {
                    let inserted = mmio_bus.insert(bar.addr(), bar.size());
                    if inserted.is_err() {
                        return Err(PciRootError::MmioInsert);
                    }
                },
            }
            i += 1;
        }
        proof {
            assert(bars@.take(bars@.len() as int) =~= bars@);
        }
        Ok(())
    }

    /// The shared tail of a configuration write, once decoding has picked a
    /// slot: delegate the register write to the device there, then hand each
    /// BAR move it triggered to the relocation collaborator. A failed move is
    /// never surfaced to the guest — hardware has no signalling channel for
    /// it — so the write still returns the device's barrier, if any. A write
    /// to an absent slot is ignored.
    pub(crate) fn write_register_and_relocate(
        &mut self,
        device_id: u32,
        register: usize,
        offset: u64,
        data: &[u8],
    ) -> (r: Option<Arc<Barrier>>)
        requires
            old(self).wf(),
        ensures
            final (self).wf(),
            write_effect(*old(self), *final (self), Some(device_id), register, offset, data@),
            !old(self).devices@.contains_key(device_id) ==> r is None,
            old(self).devices@.contains_key(device_id) ==> (r is Some) == old(
                self,
            ).devices@[device_id].spec_write_barrier(register, offset, data@),
    {
        if !self.devices.contains_key(&device_id) {
            return None;
        }
        let removed = self.devices.remove(&device_id);
        match removed {
            Option::None => {
                proof {
                    assert(false);
                }
                None
            },
            Option::Some(mut d) => {
                let (bar_reprogram, ret) = d.write_config_register(register, offset, data);
                let ghost pre_calls = self.device_reloc.calls();
                let ghost d_after_write = d;
                let mut i: usize = 0;
                while i < bar_reprogram.len()
                    invariant
                        i <= bar_reprogram@.len(),
                        self.devices@ == old(self).devices@.remove(device_id),
                        self.device_ids == old(self).device_ids,
                        self.device_reloc.calls() == pre_calls + bar_reprogram@.take(i as int),
                        bar_reprogram@.len() == 0 ==> d == d_after_write,
                    decreases bar_reprogram@.len() - i,
                {
                    let params = bar_reprogram[i];
                    // A failed move is deliberately dropped: the guest's
                    // write visibly succeeds either way, as on real hardware.
                    let _ = self.device_reloc.move_bar(
                        params.old_base,
                        params.new_base,
                        params.len,
                        &mut d,
                        params.region_type,
                    );
                    proof {
                        assert(pre_calls + bar_reprogram@.take(i as int) + seq![
                            bar_reprogram@[i as int],
                        ] =~= pre_calls + bar_reprogram@.take(i + 1));
                    }
                    i += 1;
                }
                self.devices.insert(device_id, d);
                proof {
                    assert(self.devices@.dom() =~= old(self).devices@.dom());
                    assert(bar_reprogram@.take(bar_reprogram@.len() as int) =~= bar_reprogram@);
                }
                ret
            },
        }
    }
}

} // verus!
