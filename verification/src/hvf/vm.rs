//! The memory and the event addresses of a machine.
//!
//! A memory slot is a region of guest addresses. Most are mapped at once; a
//! window for shared files is only reserved, and pieces of files are mapped into
//! it one by one.

use std::collections::{BTreeMap, HashSet};

use fnv::FnvHashMap;
use vstd::prelude::*;
use vstd::laws_cmp::obeys_cmp;
use vstd::std_specs::btree::{increasing_seq, spec_keys_iter};
use vstd::std_specs::cmp::OrdSpec;
use vstd::std_specs::iter::IteratorSpec;

use crate::align::{is_power_of_two, round_up, rounded_up};
use crate::errno::{Error, EINVAL, ENOTSUP};
use crate::hvf::boot::GuestRegion;
use crate::hvf::ffi;
use crate::hvf::ffi::{hv_memory_flags_t, hv_return_t};
use crate::hvf::ioevents::{table_get, table_insert, table_new, table_remove};

verus! {

broadcast use {
    vstd::std_specs::hash::group_hash_axioms,
    vstd::std_specs::btree::group_btree_axioms,
    vstd::laws_cmp::group_laws_cmp,
};

/// The number of a memory slot.
pub type MemSlot = u32;

/// How the caches treat a memory slot.
#[derive(Clone, Copy, Debug, PartialEq, Eq, Structural)]
pub enum MemCacheType {
    /// Cached as usual.
    CacheCoherent,
    /// A window for shared files: its addresses are reserved, but nothing is
    /// mapped until a file is.
    CacheNonCoherent,
}

/// What a machine may be able to do.
#[derive(Clone, Copy, Debug, PartialEq, Eq, Structural)]
pub enum VmCap {
    DirtyLog,
    PvClock,
    Protected,
    EarlyInitCpuid,
    ReadOnlyMemoryRegion,
    MemNoncoherentDma,
    ArmPmuV3,
    Sve,
}

/// An address whose access signals an event.
#[derive(Clone, Copy, Debug, PartialEq, Eq, Structural)]
pub enum IoEventAddress {
    /// A port.
    Pio(u64),
    /// A memory address.
    Mmio(u64),
}

/// A piece of a file that is mapped into a memory slot.
#[derive(Clone, Copy, Debug, PartialEq, Eq, Structural)]
pub struct DaxMapping {
    /// Where the piece lies in the host.
    pub host_addr: u64,
    /// Where it lies in the guest.
    pub guest_addr: u64,
    /// Its size, a multiple of the page size.
    pub size: usize,
    /// Whether the host mapping is ours to release. It is not where the host
    /// address was handed over by the graphics driver.
    pub mmap_owned: bool,
}

/// A call that a change of memory asks for.
#[derive(Clone, Copy, Debug, PartialEq, Eq, Structural)]
pub enum VmRequest {
    /// Map host memory into the guest.
    MapMemory { host_addr: u64, guest_addr: u64, size: usize, flags: hv_memory_flags_t },
    /// Take a range out of the guest.
    Unmap { guest_addr: u64, size: usize },
    /// Read the sixteen bytes at this offset of the file.
    ReadHeader { offset: usize },
    /// Map the file into the host, from the wanted offset on.
    MapFile { size: usize },
    /// Release a mapping of the host.
    Release { host_addr: u64, size: usize },
}

/// The reply to a [`VmRequest`].
#[derive(Clone, Copy, Debug, PartialEq, Eq)]
pub struct VmReply {
    /// The return code, or the error number of a file that cannot be mapped.
    pub ret: i32,
    /// The two words that were read, if all sixteen bytes were there.
    pub header: Option<(u64, u64)>,
    /// Where the file was mapped, if it was.
    pub address: Option<u64>,
}

/// A wish to map a piece of a file.
#[derive(Clone, Copy, Debug, PartialEq, Eq, Structural)]
pub struct FdMapping {
    /// The memory slot.
    pub slot: MemSlot,
    /// The offset in the slot.
    pub offset: usize,
    /// The size of the piece.
    pub size: usize,
    /// Whether the guest may write.
    pub writable: bool,
    /// The page size of the host.
    pub page_size: usize,
}

/// What is awaited while a piece of a file is mapped.
#[derive(Clone, Copy, Debug, PartialEq, Eq, Structural)]
pub enum FdState {
    /// The header behind the data.
    Header,
    /// The host address of the file.
    File,
    /// The piece that was there before is out of the guest.
    OldUnmapped { old: DaxMapping, new: DaxMapping },
    /// The piece that was there before is released.
    OldReleased { new: DaxMapping },
    /// The new piece was mapped.
    Mapped { new: DaxMapping },
    /// The host mapping of the new piece was released, for this error.
    Dropped { error: i32 },
}

/// The next step.
#[derive(Clone, Copy, Debug, PartialEq, Eq)]
pub enum FdStep {
    /// Make a call and report the reply to [`HvfVm::fd_mapping_resume`].
    Do(VmRequest, FdState),
    /// The piece is mapped, or could not be.
    Done(Result<(), Error>),
}

/// The word that begins a header which holds a host pointer.
pub const VENUS_MAGIC: u64 = 0x5645_4E55_5350_5452;

/// The contents of a machine.
#[verifier::ext_equal]
pub struct VmState {
    /// The memory slots.
    pub regions: Map<MemSlot, GuestRegion>,
    /// The number of the next slot.
    pub next_slot: MemSlot,
    /// The events by address.
    pub events: Map<(u8, u64), i32>,
    /// The pieces of files, by slot and offset.
    pub dax: Map<(MemSlot, usize), DaxMapping>,
    /// The slots that are mapped as a whole.
    pub mapped: Set<MemSlot>,
}

impl VmState {
    /// What always holds of a machine: slot numbers are not used twice, only a
    /// slot that exists is mapped, and a piece of a file lies in a slot that
    /// exists, at its offset.
    pub open spec fn wf(self) -> bool {
        &&& forall|slot: MemSlot| #[trigger]
            self.regions.contains_key(slot) ==> slot < self.next_slot
        &&& forall|slot: MemSlot| #[trigger]
            self.mapped.contains(slot) ==> self.regions.contains_key(slot)
        &&& forall|key: (MemSlot, usize)| #[trigger]
            self.dax.contains_key(key) ==> self.regions.contains_key(key.0)
                && self.dax[key].guest_addr == self.regions[key.0].guest_addr + key.1
    }
}

/// Read, execute and, unless the slot is read-only, write.
pub open spec fn slot_flags(read_only: bool) -> hv_memory_flags_t {
    if read_only {
        5
    } else {
        7
    }
}

/// Read and, if asked for, write.
pub open spec fn piece_flags(writable: bool) -> hv_memory_flags_t {
    if writable {
        3
    } else {
        1
    }
}

/// The key of an event address.
pub open spec fn event_key(addr: IoEventAddress) -> (u8, u64) {
    match addr {
        IoEventAddress::Pio(a) => (0, a),
        IoEventAddress::Mmio(a) => (1, a),
    }
}

/// What takes a piece out of the guest and, if it is ours, out of the host.
pub open spec fn release_requests(mapping: DaxMapping) -> Seq<VmRequest> {
    let unmap = VmRequest::Unmap { guest_addr: mapping.guest_addr, size: mapping.size };
    if mapping.mmap_owned {
        seq![unmap, VmRequest::Release { host_addr: mapping.host_addr, size: mapping.size }]
    } else {
        seq![unmap]
    }
}

/// What takes out the pieces at `offsets` of a slot, one after the other.
pub open spec fn release_all(
    dax: Map<(MemSlot, usize), DaxMapping>,
    slot: MemSlot,
    offsets: Seq<usize>,
) -> Seq<VmRequest>
    decreases offsets.len(),
{
    if offsets.len() == 0 {
        Seq::empty()
    } else {
        release_all(dax, slot, offsets.drop_last()) + release_requests(dax[(slot, offsets.last())])
    }
}

/// Whether `offsets` lists the pieces of a slot in ascending order.
pub open spec fn lists_pieces(
    dax: Map<(MemSlot, usize), DaxMapping>,
    slot: MemSlot,
    offsets: Seq<usize>,
) -> bool {
    &&& forall|i: int, j: int| 0 <= i < j < offsets.len() ==> offsets[i] < offsets[j]
    &&& forall|offset: usize| #[trigger]
        dax.contains_key((slot, offset)) <==> offsets.contains(offset)
}

/// The pieces of all other slots.
pub open spec fn without_slot(
    dax: Map<(MemSlot, usize), DaxMapping>,
    slot: MemSlot,
) -> Map<(MemSlot, usize), DaxMapping> {
    Map::new(|key: (MemSlot, usize)| dax.contains_key(key) && key.0 != slot, |key| dax[key])
}

/// The size of a piece in whole pages.
pub open spec fn piece_size(wish: FdMapping) -> usize {
    rounded_up(wish.size as int, wish.page_size as int) as usize
}

/// Whether a wish can be worked with: the page size is one, and the rounded
/// size and the guest address are numbers of the machine.
pub open spec fn wish_fits(vm: VmState, wish: FdMapping) -> bool {
    &&& is_power_of_two(wish.page_size as int)
    &&& wish.size + wish.page_size - 1 <= usize::MAX
    &&& vm.regions.contains_key(wish.slot) && wish.offset + wish.size
        <= vm.regions[wish.slot].size ==> vm.regions[wish.slot].guest_addr + wish.offset
        <= u64::MAX
}

/// The new piece at a host address.
pub open spec fn new_piece(
    vm: VmState,
    wish: FdMapping,
    host_addr: u64,
    mmap_owned: bool,
) -> DaxMapping {
    DaxMapping {
        host_addr,
        guest_addr: (vm.regions[wish.slot].guest_addr + wish.offset) as u64,
        size: piece_size(wish),
        mmap_owned,
    }
}

/// The step that maps the new piece into the guest.
pub open spec fn map_piece(wish: FdMapping, new: DaxMapping) -> FdStep {
    FdStep::Do(
        VmRequest::MapMemory {
            host_addr: new.host_addr,
            guest_addr: new.guest_addr,
            size: new.size,
            flags: piece_flags(wish.writable),
        },
        FdState::Mapped { new },
    )
}

/// The step that gives up the wish: a host mapping of ours is released.
pub open spec fn give_up(host_addr: u64, size: usize, mmap_owned: bool) -> FdStep {
    if mmap_owned {
        FdStep::Do(VmRequest::Release { host_addr, size }, FdState::Dropped { error: EINVAL })
    } else {
        FdStep::Done(Err(Error { number: EINVAL }))
    }
}

/// Whether the piece lies within a slot that exists.
pub open spec fn in_slot(vm: VmState, wish: FdMapping) -> bool {
    vm.regions.contains_key(wish.slot) && wish.offset + wish.size <= vm.regions[wish.slot].size
}

/// The step once the host address of the piece is known.
pub open spec fn placed_step(
    vm: VmState,
    wish: FdMapping,
    host_addr: u64,
    mmap_owned: bool,
) -> FdStep {
    let new = new_piece(vm, wish, host_addr, mmap_owned);
    if !vm.regions.contains_key(wish.slot) {
        FdStep::Done(Err(Error { number: EINVAL }))
    } else if !in_slot(vm, wish) {
        give_up(host_addr, piece_size(wish), mmap_owned)
    } else if vm.dax.contains_key((wish.slot, wish.offset)) {
        let old = vm.dax[(wish.slot, wish.offset)];
        FdStep::Do(
            VmRequest::Unmap { guest_addr: old.guest_addr, size: old.size },
            FdState::OldUnmapped { old, new },
        )
    } else {
        map_piece(wish, new)
    }
}

/// The machine once the host address of the piece is known: a piece that was at
/// the same place is forgotten.
pub open spec fn placed_vm(vm: VmState, wish: FdMapping) -> VmState {
    if in_slot(vm, wish) {
        VmState { dax: vm.dax.remove((wish.slot, wish.offset)), ..vm }
    } else {
        vm
    }
}

/// The host pointer that a header holds, if it can be mapped.
pub open spec fn venus_pointer(reply: VmReply, page_size: usize) -> Option<u64> {
    match reply.header {
        Some((magic, pointer)) => if magic == VENUS_MAGIC && pointer % (page_size as u64) == 0
            && pointer != 0 {
            Some(pointer)
        } else {
            None
        },
        None => None,
    }
}

/// The step that follows the reply to a request.
pub open spec fn fd_step(vm: VmState, wish: FdMapping, state: FdState, reply: VmReply) -> FdStep {
    match state {
        FdState::Header => match venus_pointer(reply, wish.page_size) {
            Some(pointer) => placed_step(vm, wish, pointer, false),
            None => FdStep::Do(VmRequest::MapFile { size: piece_size(wish) }, FdState::File),
        },
        FdState::File => match reply.address {
            Some(address) => placed_step(vm, wish, address, true),
            None => FdStep::Done(Err(Error { number: reply.ret })),
        },
        FdState::OldUnmapped { old, new } => if old.mmap_owned {
            FdStep::Do(
                VmRequest::Release { host_addr: old.host_addr, size: old.size },
                FdState::OldReleased { new },
            )
        } else {
            map_piece(wish, new)
        },
        FdState::OldReleased { new } => map_piece(wish, new),
        FdState::Mapped { new } => if reply.ret == ffi::HV_SUCCESS {
            FdStep::Done(Ok(()))
        } else {
            give_up(new.host_addr, new.size, new.mmap_owned)
        },
        FdState::Dropped { error } => FdStep::Done(Err(Error { number: error })),
    }
}

/// The machine after the reply to a request.
pub open spec fn fd_vm(vm: VmState, wish: FdMapping, state: FdState, reply: VmReply) -> VmState {
    match state {
        FdState::Header => if venus_pointer(reply, wish.page_size) is Some {
            placed_vm(vm, wish)
        } else {
            vm
        },
        FdState::File => if reply.address is Some {
            placed_vm(vm, wish)
        } else {
            vm
        },
        FdState::Mapped { new } => if reply.ret == ffi::HV_SUCCESS {
            VmState { dax: vm.dax.insert((wish.slot, wish.offset), new), ..vm }
        } else {
            vm
        },
        _ => vm,
    }
}

/// Whether a state belongs to a machine: a piece that is about to be recorded
/// lies where the slot says.
pub open spec fn fd_fits(vm: VmState, wish: FdMapping, state: FdState) -> bool {
    match state {
        FdState::OldUnmapped { old: _, new } => piece_fits(vm, wish, new),
        FdState::OldReleased { new } => piece_fits(vm, wish, new),
        FdState::Mapped { new } => piece_fits(vm, wish, new),
        _ => true,
    }
}

/// Whether a new piece lies where the slot says.
pub open spec fn piece_fits(vm: VmState, wish: FdMapping, new: DaxMapping) -> bool {
    vm.regions.contains_key(wish.slot) && new.guest_addr == vm.regions[wish.slot].guest_addr
        + wish.offset
}

/// The keys of one slot come in the order of their offsets.
proof fn lemma_keys_ascend(keys: Seq<&(MemSlot, usize)>, i: int, j: int)
    requires
        increasing_seq(keys),
        0 <= i < j < keys.len(),
        keys[i].0 == keys[j].0,
    ensures
        keys[i].1 < keys[j].1,
{
    assert(obeys_cmp::<&(MemSlot, usize)>());
    assert(OrdSpec::cmp_spec(&keys[i], &keys[j]) is Less);
}

/// A memory slot that is taken out of a machine.
pub struct RegionRemoval {
    /// What takes out the pieces of files in the slot; what these calls return
    /// does not matter.
    pub cleanup: Vec<VmRequest>,
    /// The slot's region, if there is such a slot.
    pub region: Result<GuestRegion, Error>,
    /// What takes the slot itself out of the guest, if it is mapped.
    pub unmap: Option<VmRequest>,
}

/// A machine.
pub struct HvfVm {
    mem_regions: BTreeMap<MemSlot, GuestRegion>,
    next_mem_slot: MemSlot,
    ioevents: FnvHashMap<(u8, u64), i32>,
    dax_mappings: BTreeMap<(MemSlot, usize), DaxMapping>,
    mapped_slots: HashSet<MemSlot>,
}

impl View for HvfVm {
    type V = VmState;

    closed spec fn view(&self) -> VmState {
        VmState {
            regions: self.mem_regions@,
            next_slot: self.next_mem_slot,
            events: self.ioevents@,
            dax: self.dax_mappings@,
            mapped: self.mapped_slots@,
        }
    }
}

impl HvfVm {
    /// The machine that came up with the given outcome: it has no memory slots
    /// and no events yet.
    pub fn new(outcome: Result<(), Error>) -> (r: Result<HvfVm, Error>)
        ensures
            match outcome {
                Ok(_) => r matches Ok(vm) && vm@.wf() && vm@ == (VmState {
                    regions: Map::empty(),
                    next_slot: 0,
                    events: Map::empty(),
                    dax: Map::empty(),
                    mapped: Set::empty(),
                }),
                Err(e) => r == Err::<HvfVm, Error>(e),
            },
    {
        match outcome {
            Ok(_) => Ok(
                HvfVm {
                    mem_regions: BTreeMap::new(),
                    next_mem_slot: 0,
                    ioevents: table_new(),
                    dax_mappings: BTreeMap::new(),
                    mapped_slots: HashSet::new(),
                },
            ),
            Err(e) => Err(e),
        }
    }

    /// The call that maps a memory slot before it is added; none for a window.
    /// The size is rounded up to whole pages.
    pub fn memory_region_mapping(
        region: &GuestRegion,
        read_only: bool,
        cache: MemCacheType,
        page_size: usize,
    ) -> (request: Option<VmRequest>)
        requires
            is_power_of_two(page_size as int),
            region.size + page_size - 1 <= usize::MAX,
        ensures
            request == slot_mapping(*region, read_only, cache, page_size),
    {
        if cache == MemCacheType::CacheNonCoherent {
            return None;
        }
        let size: usize = round_up(region.size, page_size);
        let mut flags: hv_memory_flags_t = ffi::HV_MEMORY_READ + ffi::HV_MEMORY_EXEC;
        if !read_only {
            flags = flags + ffi::HV_MEMORY_WRITE;
        }
        Some(
            VmRequest::MapMemory {
                host_addr: region.host_addr,
                guest_addr: region.guest_addr,
                size,
                flags,
            },
        )
    }

    /// Adds a memory slot. `ret` is what the call of
    /// [`HvfVm::memory_region_mapping`] returned; it does not matter for a
    /// window. The slot gets the next number.
    pub fn add_memory_region(
        &mut self,
        region: GuestRegion,
        cache: MemCacheType,
        ret: hv_return_t,
    ) -> (r: Result<MemSlot, Error>)
        requires
            old(self)@.wf(),
            old(self)@.next_slot < MemSlot::MAX,
        ensures
            final(self)@.wf(),
            (final(self)@, r) == slot_added(old(self)@, region, cache, ret),
    {
        if cache != MemCacheType::CacheNonCoherent {
            match ffi::hvf_result(ret) {
                Ok(_) => {},
                Err(e) => {
                    return Err(e);
                },
            }
        }
        let slot: MemSlot = self.next_mem_slot;
        self.next_mem_slot = slot + 1;
        if cache != MemCacheType::CacheNonCoherent {
            self.mapped_slots.insert(slot);
        }
        self.mem_regions.insert(slot, region);
        assert(self@ == added_vm(old(self)@, region, cache));
        Ok(slot)
    }

    fn offsets_of(&self, slot: MemSlot) -> (offsets: Vec<usize>)
        ensures
            lists_pieces(self.dax_mappings@, slot, offsets@),
    {
        let mut offsets: Vec<usize> = Vec::new();
        let ghost all = spec_keys_iter(&self.dax_mappings).remaining().unref();
        for key in keys: self.dax_mappings.keys()
            invariant
                all == keys.seq().unref(),
                increasing_seq(keys.seq()),
                forall|i: int, j: int|
                    0 <= i < j < offsets@.len() ==> offsets@[i] < offsets@[j],
                forall|i: int|
                    0 <= i < keys.index() && (#[trigger] all[i]).0 == slot ==> offsets@.contains(
                        all[i].1,
                    ),
                forall|offset: usize| #[trigger]
                    offsets@.contains(offset) ==> all.take(keys.index()).contains((slot, offset)),
        {
            let ghost before = offsets@;
            let ghost n = keys.index();
            assert(all[n] == *key);
            if key.0 == slot {
                assert forall|k: int| 0 <= k < offsets@.len() implies offsets@[k] < key.1 by {
                    assert(offsets@.contains(offsets@[k]));
                    let i = choose|i: int|
                        0 <= i < n && #[trigger] all.take(n)[i] == (slot, offsets@[k]);
                    assert(all[i] == (slot, offsets@[k]));
                    assert(*keys.seq()[i] == all[i]);
                    lemma_keys_ascend(keys.seq(), i, n);
                }
                offsets.push(key.1);
                assert(offsets@.last() == key.1);
            }
            assert forall|i: int| 0 <= i < n + 1 && (#[trigger] all[i]).0 == slot implies
                offsets@.contains(all[i].1) by {
                if i < n {
                    let k = choose|k: int| 0 <= k < before.len() && before[k] == all[i].1;
                    assert(offsets@[k] == all[i].1);
                }
            }
            assert forall|offset: usize| #[trigger]
                offsets@.contains(offset) implies all.take(n + 1).contains((slot, offset)) by {
                let k = choose|k: int| 0 <= k < offsets@.len() && offsets@[k] == offset;
                if k < before.len() {
                    assert(before.contains(before[k]));
                    let i = choose|i: int|
                        0 <= i < n && #[trigger] all.take(n)[i] == (slot, offset);
                    assert(all.take(n + 1)[i] == (slot, offset));
                } else {
                    assert(all.take(n + 1)[n] == (slot, offset));
                }
            }
        }
        assert forall|offset: usize| #[trigger]
            self.dax_mappings@.contains_key((slot, offset)) <==> offsets@.contains(offset) by {
            assert(self.dax_mappings@.contains_key((slot, offset)) <==> all.to_set().contains(
                (slot, offset),
            ));
            assert(all.take(all.len() as int) =~= all);
            if all.contains((slot, offset)) {
                let i = choose|i: int| 0 <= i < all.len() && all[i] == (slot, offset);
                assert(all[i].0 == slot);
            }
        }
        offsets
    }

    /// Takes a memory slot out of the machine, and with it the pieces of files
    /// that are mapped into it, in the order of their offsets. The slot is
    /// taken out whatever its unmapping returns.
    pub fn remove_memory_region(&mut self, slot: MemSlot, page_size: usize) -> (removal:
        RegionRemoval)
        requires
            old(self)@.wf(),
            is_power_of_two(page_size as int),
            old(self)@.mapped.contains(slot) ==> old(self)@.regions[slot].size + page_size - 1
                <= usize::MAX,
        ensures
            final(self)@.wf(),
            final(self)@ == removed_vm(old(self)@, slot),
            exists|offsets: Seq<usize>| #[trigger]
                lists_pieces(old(self)@.dax, slot, offsets) && removal.cleanup@ == release_all(
                    old(self)@.dax,
                    slot,
                    offsets,
                ),
            (removal.region, removal.unmap) == slot_removed(old(self)@, slot, page_size),
    {
        let offsets: Vec<usize> = self.offsets_of(slot);
        let ghost dax = self.dax_mappings@;
        let ghost start = self@;
        let mut cleanup: Vec<VmRequest> = Vec::new();
        let mut i: usize = 0;
        while i < offsets.len()
            invariant
                i <= offsets@.len(),
                dax == start.dax,
                lists_pieces(dax, slot, offsets@),
                cleanup@ == release_all(dax, slot, offsets@.take(i as int)),
                self.mem_regions@ == start.regions,
                self.next_mem_slot == start.next_slot,
                self.ioevents@ == start.events,
                self.mapped_slots@ == start.mapped,
                forall|key: (MemSlot, usize)| #[trigger]
                    self.dax_mappings@.contains_key(key) <==> dax.contains_key(key) && !(key.0
                        == slot && offsets@.take(i as int).contains(key.1)),
                forall|key: (MemSlot, usize)| #[trigger]
                    self.dax_mappings@.contains_key(key) ==> self.dax_mappings@[key] == dax[key],
            decreases offsets.len() - i,
        {
            let offset: usize = offsets[i];
            let ghost before = offsets@.take(i as int);
            let ghost after = offsets@.take(i + 1);
            proof {
                assert(after =~= before.push(offset));
                assert(after.drop_last() =~= before);
                assert(offsets@.contains(offset));
                assert(!before.contains(offset));
                assert(self.dax_mappings@.contains_key((slot, offset)));
                assert forall|o: usize| after.contains(o) <==> before.contains(o) || o
                    == offset by {
                    if before.contains(o) {
                        let k = choose|k: int| 0 <= k < before.len() && before[k] == o;
                        assert(after[k] == o);
                    }
                    assert(after[i as int] == offset);
                }
            }
            if let Some(mapping) = self.dax_mappings.remove(&(slot, offset)) {
                cleanup.push(
                    VmRequest::Unmap { guest_addr: mapping.guest_addr, size: mapping.size },
                );
                if mapping.mmap_owned {
                    cleanup.push(
                        VmRequest::Release { host_addr: mapping.host_addr, size: mapping.size },
                    );
                }
                assert(cleanup@ =~= release_all(dax, slot, before) + release_requests(mapping));
            }
            i += 1;
        }
        proof {
            assert(offsets@.take(offsets@.len() as int) =~= offsets@);
            assert(self.dax_mappings@ =~= without_slot(dax, slot));
        }
        match self.mem_regions.remove(&slot) {
            Some(region) => {
                let mut unmap: Option<VmRequest> = None;
                if self.mapped_slots.remove(&slot) {
                    let size: usize = round_up(region.size, page_size);
                    unmap = Some(VmRequest::Unmap { guest_addr: region.guest_addr, size });
                }
                proof {
                    assert(self@.mapped =~= start.mapped.remove(slot));
                }
                RegionRemoval { cleanup, region: Ok(region), unmap }
            },
            None => {
                proof {
                    assert(self@.regions =~= start.regions.remove(slot));
                    assert(self@.mapped =~= start.mapped.remove(slot));
                }
                RegionRemoval { cleanup, region: Err(Error::new(EINVAL)), unmap: None }
            },
        }
    }

    /// Starts to map a piece of a file. The file may hold, behind the data, a
    /// header with the host address of the data.
    pub fn add_fd_mapping(&self, wish: FdMapping) -> (step: FdStep)
        ensures
            step == fd_first(wish),
    {
        FdStep::Do(VmRequest::ReadHeader { offset: wish.size }, FdState::Header)
    }

    /// Whether a wish can be worked with: [`wish_fits`].
    pub fn fd_mapping_fits(&self, wish: FdMapping) -> (fits: bool)
        requires
            self@.wf(),
            is_power_of_two(wish.page_size as int),
        ensures
            fits == wish_fits(self@, wish),
    {
        proof {
            crate::align::lemma_power_of_two_positive(wish.page_size as int);
        }
        if wish.size > usize::MAX - (wish.page_size - 1) {
            return false;
        }
        match self.mem_regions.get(&wish.slot) {
            Some(region) => match wish.offset.checked_add(wish.size) {
                Some(end) => end > region.size || wish.offset as u64 <= u64::MAX
                    - region.guest_addr,
                None => true,
            },
            None => true,
        }
    }

    /// Continues to map a piece of a file with the reply to the request that was
    /// made in `state`.
    pub fn fd_mapping_resume(&mut self, wish: FdMapping, state: FdState, reply: VmReply) -> (step:
        FdStep)
        requires
            old(self)@.wf(),
            wish_fits(old(self)@, wish),
            fd_fits(old(self)@, wish, state),
        ensures
            final(self)@.wf(),
            final(self)@ == fd_vm(old(self)@, wish, state, reply),
            step == fd_step(old(self)@, wish, state, reply),
            step matches FdStep::Do(_, next) ==> fd_fits(final(self)@, wish, next),
    {
        proof {
            crate::align::lemma_power_of_two_positive(wish.page_size as int);
        }
        match state {
            FdState::Header => {
                if let Some((magic, pointer)) = reply.header {
                    if magic == VENUS_MAGIC && pointer % (wish.page_size as u64) == 0 && pointer
                        != 0 {
                        return self.place(wish, pointer, false);
                    }
                }
                let size: usize = round_up(wish.size, wish.page_size);
                FdStep::Do(VmRequest::MapFile { size }, FdState::File)
            },
            FdState::File => match reply.address {
                Some(address) => self.place(wish, address, true),
                None => FdStep::Done(Err(Error::new(reply.ret))),
            },
            FdState::OldUnmapped { old, new } => if old.mmap_owned {
                FdStep::Do(
                    VmRequest::Release { host_addr: old.host_addr, size: old.size },
                    FdState::OldReleased { new },
                )
            } else {
                Self::map_into_guest(wish, new)
            },
            FdState::OldReleased { new } => Self::map_into_guest(wish, new),
            FdState::Mapped { new } => {
                if reply.ret != ffi::HV_SUCCESS {
                    return Self::abandon(new.host_addr, new.size, new.mmap_owned);
                }
                self.dax_mappings.insert((wish.slot, wish.offset), new);
                FdStep::Done(Ok(()))
            },
            FdState::Dropped { error } => FdStep::Done(Err(Error::new(error))),
        }
    }

    fn map_into_guest(wish: FdMapping, new: DaxMapping) -> (step: FdStep)
        ensures
            step == map_piece(wish, new),
    {
        let mut flags: hv_memory_flags_t = ffi::HV_MEMORY_READ;
        if wish.writable {
            flags = flags + ffi::HV_MEMORY_WRITE;
        }
        FdStep::Do(
            VmRequest::MapMemory {
                host_addr: new.host_addr,
                guest_addr: new.guest_addr,
                size: new.size,
                flags,
            },
            FdState::Mapped { new },
        )
    }

    fn abandon(host_addr: u64, size: usize, mmap_owned: bool) -> (step: FdStep)
        ensures
            step == give_up(host_addr, size, mmap_owned),
    {
        if mmap_owned {
            FdStep::Do(VmRequest::Release { host_addr, size }, FdState::Dropped { error: EINVAL })
        } else {
            FdStep::Done(Err(Error::new(EINVAL)))
        }
    }

    fn place(&mut self, wish: FdMapping, host_addr: u64, mmap_owned: bool) -> (step: FdStep)
        requires
            old(self)@.wf(),
            wish_fits(old(self)@, wish),
        ensures
            final(self)@.wf(),
            final(self)@ == placed_vm(old(self)@, wish),
            step == placed_step(old(self)@, wish, host_addr, mmap_owned),
            step matches FdStep::Do(_, next) ==> fd_fits(final(self)@, wish, next),
    {
        let size: usize = round_up(wish.size, wish.page_size);
        let region: GuestRegion = match self.mem_regions.get(&wish.slot) {
            Some(region) => *region,
            None => {
                return FdStep::Done(Err(Error::new(EINVAL)));
            },
        };
        match wish.offset.checked_add(wish.size) {
            Some(end) => {
                if end > region.size {
                    return Self::abandon(host_addr, size, mmap_owned);
                }
            },
            None => {
                return Self::abandon(host_addr, size, mmap_owned);
            },
        }
        let guest_addr: u64 = region.guest_addr + wish.offset as u64;
        let new: DaxMapping = DaxMapping { host_addr, guest_addr, size, mmap_owned };
        let ghost before = self.dax_mappings@;
        match self.dax_mappings.remove(&(wish.slot, wish.offset)) {
            Some(old) => FdStep::Do(
                VmRequest::Unmap { guest_addr: old.guest_addr, size: old.size },
                FdState::OldUnmapped { old, new },
            ),
            None => {
                assert(self.dax_mappings@ =~= before.remove((wish.slot, wish.offset)));
                Self::map_into_guest(wish, new)
            },
        }
    }

    /// Takes a piece of a file out of the machine: the calls that do so, none if
    /// there is no piece at this offset. What the calls return does not matter,
    /// nor does `size`: the whole piece is taken out.
    pub fn remove_mapping(&mut self, slot: MemSlot, offset: usize, size: usize) -> (requests: Vec<
        VmRequest,
    >)
        requires
            old(self)@.wf(),
        ensures
            final(self)@.wf(),
            (final(self)@, requests@) == piece_removed(old(self)@, slot, offset),
    {
        let mut requests: Vec<VmRequest> = Vec::new();
        let ghost before = self.dax_mappings@;
        match self.dax_mappings.remove(&(slot, offset)) {
            Some(mapping) => {
                requests.push(
                    VmRequest::Unmap { guest_addr: mapping.guest_addr, size: mapping.size },
                );
                if mapping.mmap_owned {
                    requests.push(
                        VmRequest::Release { host_addr: mapping.host_addr, size: mapping.size },
                    );
                }
                assert(requests@ =~= release_requests(mapping));
            },
            None => {
                assert(self.dax_mappings@ =~= before.remove((slot, offset)));
            },
        }
        assert(self@ == (VmState { dax: old(self)@.dax.remove((slot, offset)), ..old(self)@ }));
        requests
    }

    /// Registers the event that an access to `addr` signals, in place of any
    /// other. `event` is the descriptor of a clone of the event, or the error
    /// that cloning it gave.
    pub fn register_ioevent(&mut self, event: Result<i32, Error>, addr: IoEventAddress) -> (r:
        Result<(), Error>)
        requires
            old(self)@.wf(),
        ensures
            final(self)@.wf(),
            (final(self)@, r) == event_registered(old(self)@, event, addr),
    {
        match event {
            Ok(event) => {
                table_insert(&mut self.ioevents, Self::key_of(addr), event);
                assert(self@ == (VmState {
                    events: old(self)@.events.insert(event_key(addr), event),
                    ..old(self)@
                }));
                Ok(())
            },
            Err(e) => Err(e),
        }
    }

    /// Drops the event of `addr`, whichever it is.
    pub fn unregister_ioevent(&mut self, addr: IoEventAddress) -> (r: Result<(), Error>)
        requires
            old(self)@.wf(),
        ensures
            final(self)@.wf(),
            r == Ok::<(), Error>(()),
            final(self)@ == event_dropped(old(self)@, addr),
    {
        table_remove(&mut self.ioevents, Self::key_of(addr));
        Ok(())
    }

    /// The event to signal for an access to `addr`, if one is registered.
    pub fn handle_io_events(&self, addr: IoEventAddress) -> (event: Option<i32>)
        ensures
            event == event_signaled(self@, addr),
    {
        table_get(&self.ioevents, Self::key_of(addr))
    }

    fn key_of(addr: IoEventAddress) -> (key: (u8, u64))
        ensures
            key == event_key(addr),
    {
        match addr {
            IoEventAddress::Pio(a) => (0, a),
            IoEventAddress::Mmio(a) => (1, a),
        }
    }

    /// Whether the machine can do something: only read-only memory.
    pub fn check_capability(&self, c: VmCap) -> (b: bool)
        ensures
            b == machine_can(c),
    {
        match c {
            VmCap::ReadOnlyMemoryRegion => true,
            _ => false,
        }
    }

    /// The width of guest physical addresses.
    pub fn get_guest_phys_addr_bits(&self) -> (bits: u8)
        ensures
            bits == 36,
    {
        36
    }

    /// There is no descriptor to clone.
    pub fn try_clone_descriptor(&self) -> (r: Result<i32, Error>)
        ensures
            r == Err::<i32, Error>(Error { number: ENOTSUP }),
    {
        Err(Error::new(ENOTSUP))
    }

    /// The framework creates no devices.
    pub fn create_device(&self) -> (r: Result<i32, Error>)
        ensures
            r == Err::<i32, Error>(Error { number: ENOTSUP }),
    {
        Err(Error::new(ENOTSUP))
    }

    /// Dirty pages are not tracked.
    pub fn get_dirty_log(&self, slot: MemSlot) -> (r: Result<(), Error>)
        ensures
            r == Err::<(), Error>(Error { number: ENOTSUP }),
    {
        Err(Error::new(ENOTSUP))
    }

    /// There is no paravirtual clock.
    pub fn get_pvclock(&self) -> (r: Result<u64, Error>)
        ensures
            r == Err::<u64, Error>(Error { number: ENOTSUP }),
    {
        Err(Error::new(ENOTSUP))
    }

    /// There is no paravirtual clock.
    pub fn set_pvclock(&self, state: u64) -> (r: Result<(), Error>)
        ensures
            r == Err::<(), Error>(Error { number: ENOTSUP }),
    {
        Err(Error::new(ENOTSUP))
    }

    /// Writes changes of a range of a memory slot back: nothing is to be done,
    /// since the memory is mapped directly.
    pub fn msync_memory_region(&mut self, slot: MemSlot, offset: usize, size: usize) -> (r: Result<
        (),
        Error,
    >)
        ensures
            r == Ok::<(), Error>(()),
            final(self)@ == old(self)@,
    {
        Ok(())
    }

    /// An event of the memory balloon: nothing is done.
    pub fn handle_balloon_event(&mut self) -> (r: Result<(), Error>)
        ensures
            r == Ok::<(), Error>(()),
            final(self)@ == old(self)@,
    {
        Ok(())
    }

    /// Enables a range of hypercalls: nothing is to be done, since each of them
    /// leaves the guest anyway.
    pub fn enable_hypercalls(&mut self, nr: u64, count: usize) -> (r: Result<(), Error>)
        ensures
            r == Ok::<(), Error>(()),
            final(self)@ == old(self)@,
    {
        Ok(())
    }

    /// Prepares the machine for its payload: nothing is to be done.
    pub fn init_arch(
        &self,
        payload_entry_address: u64,
        fdt_address: u64,
        fdt_size: usize,
    ) -> (r: Result<(), Error>)
        ensures
            r == Ok::<(), Error>(()),
    {
        Ok(())
    }

    /// Protected machines are not supported.
    pub fn load_protected_vm_firmware(&mut self, fw_addr: u64, fw_max_size: u64) -> (r: Result<
        (),
        Error,
    >)
        ensures
            r == Err::<(), Error>(Error { number: ENOTSUP }),
            final(self)@ == old(self)@,
    {
        Err(Error::new(ENOTSUP))
    }
}

/// What a request on memory needs of a machine.
pub trait Vm: Sized {
    /// Whether writing changes of a range back can end with `r` and leave the
    /// machine as `after`.
    spec fn msync_ends(self, slot: MemSlot, offset: usize, size: usize, r: Result<(), Error>, after:
        Self) -> bool;

    /// Writes changes of a range of a memory slot back.
    fn msync_memory_region(&mut self, slot: MemSlot, offset: usize, size: usize) -> (r: Result<
        (),
        Error,
    >)
        ensures
            (*old(self)).msync_ends(slot, offset, size, r, *final(self)),
    ;
}

impl Vm for HvfVm {
    open spec fn msync_ends(
        self,
        slot: MemSlot,
        offset: usize,
        size: usize,
        r: Result<(), Error>,
        after: HvfVm,
    ) -> bool {
        r == Ok::<(), Error>(()) && after@ == self@
    }

    fn msync_memory_region(&mut self, slot: MemSlot, offset: usize, size: usize) -> (r: Result<
        (),
        Error,
    >) {
        HvfVm::msync_memory_region(self, slot, offset, size)
    }
}

/// Whether a machine can do something.
pub open spec fn machine_can(c: VmCap) -> bool {
    c == VmCap::ReadOnlyMemoryRegion
}

/// The call that maps a memory slot before it is added.
pub open spec fn slot_mapping(
    region: GuestRegion,
    read_only: bool,
    cache: MemCacheType,
    page_size: usize,
) -> Option<VmRequest> {
    if cache == MemCacheType::CacheNonCoherent {
        None
    } else {
        Some(
            VmRequest::MapMemory {
                host_addr: region.host_addr,
                guest_addr: region.guest_addr,
                size: rounded_up(region.size as int, page_size as int) as usize,
                flags: slot_flags(read_only),
            },
        )
    }
}

/// The machine and the number of a slot, once it was to be added and mapping it
/// returned `ret`.
pub open spec fn slot_added(
    vm: VmState,
    region: GuestRegion,
    cache: MemCacheType,
    ret: hv_return_t,
) -> (VmState, Result<MemSlot, Error>) {
    if cache == MemCacheType::CacheNonCoherent || ret == ffi::HV_SUCCESS {
        (added_vm(vm, region, cache), Ok(vm.next_slot))
    } else {
        (vm, Err(Error { number: ret }))
    }
}

/// The region of a slot that is taken out, and what takes it out of the guest.
pub open spec fn slot_removed(vm: VmState, slot: MemSlot, page_size: usize) -> (
    Result<GuestRegion, Error>,
    Option<VmRequest>,
) {
    (
        if vm.regions.contains_key(slot) {
            Ok(vm.regions[slot])
        } else {
            Err(Error { number: EINVAL })
        },
        if vm.mapped.contains(slot) {
            Some(
                VmRequest::Unmap {
                    guest_addr: vm.regions[slot].guest_addr,
                    size: rounded_up(vm.regions[slot].size as int, page_size as int) as usize,
                },
            )
        } else {
            None
        },
    )
}

/// The machine without a piece of a file, and what takes it out.
pub open spec fn piece_removed(vm: VmState, slot: MemSlot, offset: usize) -> (
    VmState,
    Seq<VmRequest>,
) {
    (
        VmState { dax: vm.dax.remove((slot, offset)), ..vm },
        if vm.dax.contains_key((slot, offset)) {
            release_requests(vm.dax[(slot, offset)])
        } else {
            Seq::empty()
        },
    )
}

/// The machine once an event was registered for an address, or could not be.
pub open spec fn event_registered(
    vm: VmState,
    event: Result<i32, Error>,
    addr: IoEventAddress,
) -> (VmState, Result<(), Error>) {
    match event {
        Ok(event) => (
            VmState { events: vm.events.insert(event_key(addr), event), ..vm },
            Ok(()),
        ),
        Err(e) => (vm, Err(e)),
    }
}

/// The machine once the event of an address was dropped.
pub open spec fn event_dropped(vm: VmState, addr: IoEventAddress) -> VmState {
    VmState { events: vm.events.remove(event_key(addr)), ..vm }
}

/// The event to signal for an access to an address.
pub open spec fn event_signaled(vm: VmState, addr: IoEventAddress) -> Option<i32> {
    if vm.events.contains_key(event_key(addr)) {
        Some(vm.events[event_key(addr)])
    } else {
        None
    }
}

/// The machine without a slot.
pub open spec fn removed_vm(vm: VmState, slot: MemSlot) -> VmState {
    VmState {
        regions: vm.regions.remove(slot),
        dax: without_slot(vm.dax, slot),
        mapped: vm.mapped.remove(slot),
        ..vm
    }
}

/// The machine with a new slot.
pub open spec fn added_vm(vm: VmState, region: GuestRegion, cache: MemCacheType) -> VmState {
    VmState {
        regions: vm.regions.insert(vm.next_slot, region),
        next_slot: (vm.next_slot + 1) as u32,
        mapped: if cache == MemCacheType::CacheNonCoherent {
            vm.mapped
        } else {
            vm.mapped.insert(vm.next_slot)
        },
        ..vm
    }
}

/// A slot that is added and removed again leaves the machine as it was, except
/// that its number is not used again.
pub proof fn law_remove_undoes_add(vm: VmState, region: GuestRegion, cache: MemCacheType)
    requires
        vm.wf(),
        vm.next_slot < MemSlot::MAX,
    ensures
        removed_vm(added_vm(vm, region, cache), vm.next_slot) == (VmState {
            next_slot: (vm.next_slot + 1) as u32,
            ..vm
        }),
{
    let after = removed_vm(added_vm(vm, region, cache), vm.next_slot);
    assert(!vm.regions.contains_key(vm.next_slot));
    assert(!vm.mapped.contains(vm.next_slot));
    assert(after.regions =~= vm.regions);
    assert(after.mapped =~= vm.mapped);
    assert forall|key: (MemSlot, usize)| #[trigger] vm.dax.contains_key(key) implies key.0
        != vm.next_slot by {}
    assert(after.dax =~= vm.dax);
}

/// A slot that is removed leaves no piece of a file behind, and the other slots
/// keep their regions and their pieces.
pub proof fn law_remove_is_local(vm: VmState, slot: MemSlot, other: MemSlot, offset: usize)
    requires
        vm.wf(),
        other != slot,
    ensures
        !removed_vm(vm, slot).dax.contains_key((slot, offset)),
        !removed_vm(vm, slot).regions.contains_key(slot),
        removed_vm(vm, slot).regions.contains_key(other) == vm.regions.contains_key(other),
        removed_vm(vm, slot).regions[other] == vm.regions[other],
        removed_vm(vm, slot).mapped.contains(other) == vm.mapped.contains(other),
        removed_vm(vm, slot).dax.contains_key((other, offset)) == vm.dax.contains_key(
            (other, offset),
        ),
        vm.dax.contains_key((other, offset)) ==> removed_vm(vm, slot).dax[(other, offset)]
            == vm.dax[(other, offset)],
        removed_vm(vm, slot).events == vm.events,
{
}

/// How mapping a piece of a file goes on from `step` when each request gets the
/// reply that `replies` has for it: the requests, the outcome if there is one
/// within `fuel` requests, and the machine.
pub open spec fn fd_run(
    vm: VmState,
    wish: FdMapping,
    step: FdStep,
    replies: spec_fn(VmRequest) -> VmReply,
    fuel: nat,
) -> (Seq<VmRequest>, Option<Result<(), Error>>, VmState)
    decreases fuel,
{
    match step {
        FdStep::Do(request, state) => if fuel == 0 {
            (Seq::empty(), None, vm)
        } else {
            let rest = fd_run(
                fd_vm(vm, wish, state, replies(request)),
                wish,
                fd_step(vm, wish, state, replies(request)),
                replies,
                (fuel - 1) as nat,
            );
            (seq![request] + rest.0, rest.1, rest.2)
        },
        FdStep::Done(result) => (Seq::empty(), Some(result), vm),
    }
}

/// The first step of mapping a piece of a file.
pub open spec fn fd_first(wish: FdMapping) -> FdStep {
    FdStep::Do(VmRequest::ReadHeader { offset: wish.size }, FdState::Header)
}

/// Mapping a piece of a file ends within six calls, whatever they return. If it
/// succeeds, the piece is recorded at its place and everything else is as it
/// was. If it fails, no piece is recorded that was not there before, and at
/// most the one at the same place is gone.
pub proof fn law_fd_mapping(
    vm: VmState,
    wish: FdMapping,
    replies: spec_fn(VmRequest) -> VmReply,
)
    requires
        vm.wf(),
        wish_fits(vm, wish),
    ensures
        ({
            let run = fd_run(vm, wish, fd_first(wish), replies, 6);
            let key = (wish.slot, wish.offset);
            match run.1 {
                Some(Ok(_)) => {
                    &&& in_slot(vm, wish)
                    &&& exists|host_addr: u64, owned: bool|
                        run.2 == (VmState {
                            dax: vm.dax.insert(
                                key,
                                #[trigger] new_piece(vm, wish, host_addr, owned),
                            ),
                            ..vm
                        })
                },
                Some(Err(_)) => run.2 == vm || run.2 == (VmState { dax: vm.dax.remove(key), ..vm }),
                None => false,
            }
        }),
{
    reveal_with_fuel(fd_run, 8);
    let key = (wish.slot, wish.offset);
    let header = replies(VmRequest::ReadHeader { offset: wish.size });
    let file = replies(VmRequest::MapFile { size: piece_size(wish) });
    let (host_addr, owned) = match venus_pointer(header, wish.page_size) {
        Some(pointer) => (pointer, false),
        None => (file.address->0, true),
    };
    let new = new_piece(vm, wish, host_addr, owned);
    assert(vm.dax.remove(key).insert(key, new) =~= vm.dax.insert(key, new));
}

/// A host mapping that was made for a piece which is then not mapped, because
/// the piece does not fit its slot or the framework refuses it, is released.
pub proof fn law_failed_mapping_is_released(
    vm: VmState,
    wish: FdMapping,
    replies: spec_fn(VmRequest) -> VmReply,
)
    requires
        vm.wf(),
        wish_fits(vm, wish),
        vm.regions.contains_key(wish.slot),
        venus_pointer(replies(VmRequest::ReadHeader { offset: wish.size }), wish.page_size) is None,
        replies(VmRequest::MapFile { size: piece_size(wish) }).address is Some,
        fd_run(vm, wish, fd_first(wish), replies, 6).1 matches Some(Err(_)),
    ensures
        fd_run(vm, wish, fd_first(wish), replies, 6).0.last() == (VmRequest::Release {
            host_addr: replies(VmRequest::MapFile { size: piece_size(wish) }).address->0,
            size: piece_size(wish),
        }),
{
    reveal_with_fuel(fd_run, 8);
}

/// A piece that is mapped and removed again leaves the machine without a piece
/// at its place, and otherwise as it was; the calls that remove it release
/// exactly what was mapped.
pub proof fn law_remove_mapping_undoes_add(
    vm: VmState,
    wish: FdMapping,
    host_addr: u64,
    owned: bool,
)
    requires
        vm.wf(),
        in_slot(vm, wish),
    ensures
        ({
            let key = (wish.slot, wish.offset);
            let new = new_piece(vm, wish, host_addr, owned);
            let added = vm.dax.insert(key, new);
            &&& added.remove(key) == vm.dax.remove(key)
            &&& release_requests(added[key])[0] == (VmRequest::Unmap {
                guest_addr: new.guest_addr,
                size: new.size,
            })
            &&& owned <==> release_requests(added[key]).contains(
                VmRequest::Release { host_addr, size: new.size },
            )
        }),
{
    let key = (wish.slot, wish.offset);
    let new = new_piece(vm, wish, host_addr, owned);
    let added = vm.dax.insert(key, new);
    assert(added.remove(key) =~= vm.dax.remove(key));
    if owned {
        assert(release_requests(new)[1] == (VmRequest::Release { host_addr, size: new.size }));
    }
}

/// The last event that was registered for an address is the one that an access
/// signals, until it is dropped; other addresses are not affected.
pub proof fn law_events(vm: VmState, addr: IoEventAddress, other: IoEventAddress, event: i32)
    requires
        addr != other,
    ensures
        vm.events.insert(event_key(addr), event)[event_key(addr)] == event,
        !vm.events.insert(event_key(addr), event).remove(event_key(addr)).contains_key(
            event_key(addr),
        ),
        event_key(addr) != event_key(other),
        vm.events.insert(event_key(addr), event).contains_key(event_key(other))
            == vm.events.contains_key(event_key(other)),
        vm.events.insert(event_key(addr), event)[event_key(other)] == vm.events[event_key(other)],
{
}

proof fn lemma_rounded(size: int, page_size: int)
    requires
        0 <= size,
        page_size >= 1,
    ensures
        rounded_up(size, page_size) % page_size == 0,
        size <= rounded_up(size, page_size) < size + page_size,
{
    let x = size + page_size - 1;
    vstd::arithmetic::div_mod::lemma_fundamental_div_mod(x, page_size);
    vstd::arithmetic::div_mod::lemma_mod_multiples_basic(x / page_size, page_size);
    vstd::arithmetic::div_mod::lemma_mod_bound(x, page_size);
    assert(page_size * (x / page_size) == x / page_size * page_size) by (nonlinear_arith);
}

/// A memory slot is mapped where its region says, in whole pages that cover it and not
/// one more, for the guest to read and to execute, and to write unless it is read-only.
/// A window is not mapped. What takes a slot out of the guest again covers exactly what
/// was mapped, and nothing is taken out that was not.
pub proof fn law_slot_is_mapped_whole(
    vm: VmState,
    region: GuestRegion,
    read_only: bool,
    cache: MemCacheType,
    ret: hv_return_t,
    page_size: usize,
)
    requires
        vm.wf(),
        vm.next_slot < MemSlot::MAX,
        is_power_of_two(page_size as int),
        region.size + page_size - 1 <= usize::MAX,
    ensures
        ({
            let call = slot_mapping(region, read_only, cache, page_size);
            let (after, slot) = slot_added(vm, region, cache, ret);
            &&& call is Some <==> cache is CacheCoherent
            &&& call matches Some(call) ==> {
                &&& call is MapMemory
                &&& call->MapMemory_host_addr == region.host_addr
                &&& call->MapMemory_guest_addr == region.guest_addr
                &&& call->MapMemory_size % page_size == 0
                &&& region.size <= call->MapMemory_size < region.size + page_size
                &&& call->flags & 1 == 1
                &&& call->flags & 4 == 4
                &&& call->flags & 2 == 2 <==> !read_only
                &&& call->flags < 8
            }
            &&& slot is Ok <==> cache is CacheNonCoherent || ret == 0
            &&& slot matches Err(e) ==> e.number == ret && after == vm
            &&& slot matches Ok(n) ==> {
                &&& n == vm.next_slot
                &&& !vm.regions.contains_key(n)
                &&& after.regions.contains_key(n) && after.regions[n] == region
                &&& slot_removed(after, n, page_size).0 == Ok::<GuestRegion, Error>(region)
                &&& slot_removed(after, n, page_size).1 == (match call {
                    Some(VmRequest::MapMemory { guest_addr, size, .. }) => Some(
                        VmRequest::Unmap { guest_addr, size },
                    ),
                    _ => None,
                })
                &&& after.events == vm.events && after.dax == vm.dax
                &&& forall|other: MemSlot| #![trigger vm.regions.contains_key(other)]
                    other != n ==> after.regions.contains_key(other) == vm.regions.contains_key(
                        other,
                    ) && after.regions[other] == vm.regions[other] && after.mapped.contains(other)
                        == vm.mapped.contains(other)
            }
        }),
{
    crate::align::lemma_power_of_two_positive(page_size as int);
    lemma_rounded(region.size as int, page_size as int);
    assert(7u64 & 1 == 1 && 7u64 & 4 == 4 && 7u64 & 2 == 2 && 5u64 & 1 == 1 && 5u64 & 4 == 4 && 5u64
        & 2 == 0) by (bit_vector);
}

/// What takes out a slot that is not there: nothing, and it is an error.
pub proof fn law_unknown_slot(vm: VmState, slot: MemSlot, page_size: usize)
    requires
        vm.wf(),
        !vm.regions.contains_key(slot),
    ensures
        slot_removed(vm, slot, page_size) == (
            Err::<GuestRegion, Error>(Error { number: 22 }),
            None::<VmRequest>,
        ),
{
}

/// The calls that map a piece of a file. The header behind the data is looked for; where
/// it holds a host pointer that begins a page, that is what is mapped, else the file is
/// mapped into the host, in whole pages that cover the piece. A piece at the same place
/// is taken out first. Then the host memory is mapped at the place of the piece in its
/// slot, for the guest to read, and to write if wanted. If that fails, what was mapped
/// into the host is released.
pub proof fn law_piece_is_mapped(
    vm: VmState,
    wish: FdMapping,
    replies: spec_fn(VmRequest) -> VmReply,
)
    requires
        vm.wf(),
        wish_fits(vm, wish),
        vm.regions.contains_key(wish.slot),
        wish.offset + wish.size <= vm.regions[wish.slot].size,
        replies(VmRequest::MapFile { size: piece_size(wish) }).address is Some,
    ensures
        ({
            let header = replies(VmRequest::ReadHeader { offset: wish.size }).header;
            let given = header is Some && (header->0).0 == 0x5645_4E55_5350_5452 && (header->0).1
                % (wish.page_size as u64) == 0 && (header->0).1 != 0;
            let pages = piece_size(wish);
            let host_addr = if given {
                (header->0).1
            } else {
                replies(VmRequest::MapFile { size: pages }).address->0
            };
            let looked = if given {
                seq![VmRequest::ReadHeader { offset: wish.size }]
            } else {
                seq![
                    VmRequest::ReadHeader { offset: wish.size },
                    VmRequest::MapFile { size: pages },
                ]
            };
            let map = VmRequest::MapMemory {
                host_addr,
                guest_addr: (vm.regions[wish.slot].guest_addr + wish.offset) as u64,
                size: pages,
                flags: if wish.writable {
                    3
                } else {
                    1
                },
            };
            let undo = if replies(map).ret != 0 && !given {
                seq![VmRequest::Release { host_addr, size: pages }]
            } else {
                Seq::empty()
            };
            let (made, end, after) = fd_run(vm, wish, fd_first(wish), replies, 6);
            let key = (wish.slot, wish.offset);
            &&& pages % wish.page_size == 0
            &&& wish.size <= pages < wish.size + wish.page_size
            &&& made == looked + piece_removed(vm, wish.slot, wish.offset).1 + seq![map] + undo
            &&& end == Some(
                if replies(map).ret == 0 {
                    Ok::<(), Error>(())
                } else {
                    Err(Error { number: 22 })
                },
            )
            &&& replies(map).ret == 0 ==> after.dax.contains_key(key) && after.dax[key]
                == (DaxMapping {
                host_addr,
                guest_addr: (vm.regions[wish.slot].guest_addr + wish.offset) as u64,
                size: pages,
                mmap_owned: !given,
            })
            &&& replies(map).ret != 0 ==> !after.dax.contains_key(key)
            &&& after.dax.remove(key) == vm.dax.remove(key)
            &&& after.regions == vm.regions && after.events == vm.events && after.mapped
                == vm.mapped && after.next_slot == vm.next_slot
        }),
{
    crate::align::lemma_power_of_two_positive(wish.page_size as int);
    lemma_rounded(wish.size as int, wish.page_size as int);
    reveal_with_fuel(fd_run, 8);
    let key = (wish.slot, wish.offset);
    let header = replies(VmRequest::ReadHeader { offset: wish.size }).header;
    let given = header is Some && (header->0).0 == 0x5645_4E55_5350_5452 && (header->0).1 % (
    wish.page_size as u64) == 0 && (header->0).1 != 0;
    let pages = piece_size(wish);
    let host_addr = if given {
        (header->0).1
    } else {
        replies(VmRequest::MapFile { size: pages }).address->0
    };
    let looked = if given {
        seq![VmRequest::ReadHeader { offset: wish.size }]
    } else {
        seq![VmRequest::ReadHeader { offset: wish.size }, VmRequest::MapFile { size: pages }]
    };
    let map = VmRequest::MapMemory {
        host_addr,
        guest_addr: (vm.regions[wish.slot].guest_addr + wish.offset) as u64,
        size: pages,
        flags: if wish.writable {
            3
        } else {
            1
        },
    };
    let undo = if replies(map).ret != 0 && !given {
        seq![VmRequest::Release { host_addr, size: pages }]
    } else {
        Seq::empty()
    };
    let (made, end, after) = fd_run(vm, wish, fd_first(wish), replies, 6);
    assert(made =~= looked + piece_removed(vm, wish.slot, wish.offset).1 + seq![map] + undo);
    assert(after.dax.remove(key) =~= vm.dax.remove(key));
}

/// A piece of a file that cannot be placed changes nothing: one whose slot is not there
/// or does not reach so far, and one whose file cannot be mapped into the host, which
/// says why.
pub proof fn law_piece_out_of_place(
    vm: VmState,
    wish: FdMapping,
    replies: spec_fn(VmRequest) -> VmReply,
)
    requires
        vm.wf(),
        wish_fits(vm, wish),
    ensures
        ({
            let (made, end, after) = fd_run(vm, wish, fd_first(wish), replies, 6);
            let header = replies(VmRequest::ReadHeader { offset: wish.size }).header;
            let file = replies(VmRequest::MapFile { size: piece_size(wish) });
            let outside = !vm.regions.contains_key(wish.slot) || wish.offset + wish.size
                > vm.regions[wish.slot].size;
            &&& header is None && file.address is None ==> end == Some(
                Err::<(), Error>(Error { number: file.ret }),
            ) && after == vm && made.len() == 2
            &&& outside && (file.address is Some || venus_pointer(
                replies(VmRequest::ReadHeader { offset: wish.size }),
                wish.page_size,
            ) is Some) ==> end == Some(Err::<(), Error>(Error { number: 22 })) && after == vm
            &&& outside ==> forall|i: int|
                0 <= i < made.len() ==> !(#[trigger] made[i] is MapMemory)
        }),
{
    reveal_with_fuel(fd_run, 8);
}

/// A piece of a file that is taken out is gone, and nothing else is; it is unmapped from
/// the guest as it was mapped, and what was mapped into the host for it is released
/// after that. Where there is no such piece, nothing happens.
pub proof fn law_piece_is_taken_out(vm: VmState, slot: MemSlot, offset: usize)
    ensures
        ({
            let (after, made) = piece_removed(vm, slot, offset);
            let piece = vm.dax[(slot, offset)];
            &&& !after.dax.contains_key((slot, offset))
            &&& forall|key: (MemSlot, usize)| #![trigger vm.dax.contains_key(key)]
                key != (slot, offset) ==> after.dax.contains_key(key) == vm.dax.contains_key(key)
                    && after.dax[key] == vm.dax[key]
            &&& after.regions == vm.regions && after.events == vm.events && after.mapped
                == vm.mapped && after.next_slot == vm.next_slot
            &&& !vm.dax.contains_key((slot, offset)) ==> made.len() == 0
            &&& vm.dax.contains_key((slot, offset)) ==> {
                &&& made.len() == if piece.mmap_owned {
                    2int
                } else {
                    1
                }
                &&& made[0] == (VmRequest::Unmap { guest_addr: piece.guest_addr, size: piece.size })
                &&& piece.mmap_owned ==> made[1] == (VmRequest::Release {
                    host_addr: piece.host_addr,
                    size: piece.size,
                })
            }
        }),
{
}

/// Every piece of a slot that is taken out is unmapped from the guest, and what was
/// mapped into the host for it is released.
pub proof fn law_all_pieces_are_taken_out(
    vm: VmState,
    slot: MemSlot,
    offsets: Seq<usize>,
    offset: usize,
)
    requires
        lists_pieces(vm.dax, slot, offsets),
        vm.dax.contains_key((slot, offset)),
    ensures
        ({
            let made = release_all(vm.dax, slot, offsets);
            let piece = vm.dax[(slot, offset)];
            &&& made.contains(VmRequest::Unmap { guest_addr: piece.guest_addr, size: piece.size })
            &&& piece.mmap_owned ==> made.contains(
                VmRequest::Release { host_addr: piece.host_addr, size: piece.size },
            )
        }),
{
    let i = choose|i: int| 0 <= i < offsets.len() && offsets[i] == offset;
    lemma_all_released(vm.dax, slot, offsets, i);
}

proof fn lemma_all_released(
    dax: Map<(MemSlot, usize), DaxMapping>,
    slot: MemSlot,
    offsets: Seq<usize>,
    i: int,
)
    requires
        0 <= i < offsets.len(),
    ensures
        ({
            let made = release_all(dax, slot, offsets);
            let piece = dax[(slot, offsets[i])];
            &&& made.contains(VmRequest::Unmap { guest_addr: piece.guest_addr, size: piece.size })
            &&& piece.mmap_owned ==> made.contains(
                VmRequest::Release { host_addr: piece.host_addr, size: piece.size },
            )
        }),
    decreases offsets.len(),
{
    let shorter = offsets.drop_last();
    let before = release_all(dax, slot, shorter);
    let last = release_requests(dax[(slot, offsets.last())]);
    let made = release_all(dax, slot, offsets);
    let piece = dax[(slot, offsets[i])];
    let unmap = VmRequest::Unmap { guest_addr: piece.guest_addr, size: piece.size };
    let release = VmRequest::Release { host_addr: piece.host_addr, size: piece.size };
    if i == offsets.len() - 1 {
        assert(made[before.len() as int] == unmap);
        if piece.mmap_owned {
            assert(made[before.len() as int + 1] == release);
        }
    } else {
        lemma_all_released(dax, slot, shorter, i);
        let a = choose|a: int| 0 <= a < before.len() && before[a] == unmap;
        assert(made[a] == unmap);
        if piece.mmap_owned {
            let b = choose|b: int| 0 <= b < before.len() && before[b] == release;
            assert(made[b] == release);
        }
    }
}

/// An access signals the event that was registered last for its address, until it is
/// dropped, and no event of another address or of a port of the same number. An event
/// that could not be cloned changes nothing.
pub proof fn law_events_are_signaled(
    vm: VmState,
    addr: IoEventAddress,
    other: IoEventAddress,
    event: i32,
    error: Error,
)
    requires
        addr != other,
    ensures
        ({
            let (after, r) = event_registered(vm, Ok(event), addr);
            let left = event_dropped(after, addr);
            &&& r is Ok
            &&& event_signaled(after, addr) == Some(event)
            &&& event_signaled(after, other) == event_signaled(vm, other)
            &&& event_signaled(left, addr) is None
            &&& event_signaled(left, other) == event_signaled(vm, other)
            &&& left.regions == vm.regions && left.dax == vm.dax && left.mapped == vm.mapped
                && left.next_slot == vm.next_slot
            &&& event_registered(vm, Err(error), addr) == (vm, Err::<(), Error>(error))
        }),
{
}

/// A machine can have memory that the guest cannot write, as the rights of a read-only slot
/// show, and nothing else that a machine may be able to do.
pub proof fn law_capabilities(c: VmCap)
    ensures
        machine_can(c) <==> c is ReadOnlyMemoryRegion,
        machine_can(VmCap::ReadOnlyMemoryRegion) ==> slot_flags(true) + 2 == slot_flags(false),
{
}

} // verus!
