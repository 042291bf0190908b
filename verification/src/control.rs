//! Control of a running machine: requests and their responses.

pub mod gpu;

use vstd::prelude::*;

use crate::errno::{Error, EINVAL, ERANGE};
use crate::hvf::boot::GuestRegion;
use crate::hvf::ffi;
use crate::hvf::ffi::hv_return_t;
use crate::hvf::vm::{
    added_vm, piece_removed, FdMapping, FdStep, HvfVm, MemCacheType, MemSlot, Vm, VmRequest,
    VmState,
};

verus! {

/// The response to a request.
#[derive(Clone, Copy, Debug, PartialEq, Eq, Structural)]
pub enum VmResponse {
    /// The request was carried out.
    Done,
    /// The request failed.
    Failed(Error),
    /// Memory was registered in this slot.
    RegisterMemory { slot: MemSlot },
}

/// A call that sending a request needs.
#[derive(Clone, Copy, Debug, PartialEq, Eq)]
pub enum RequestStep {
    /// Connect to the socket of the exchange.
    Connect,
    /// Make a tube of the connection.
    MakeTube,
    /// Limit the time that receiving takes, in milliseconds.
    SetTimeout(u128),
    /// Send the request of the exchange.
    Send,
    /// Receive the response.
    Receive,
    /// The response, or none if a call failed.
    Finished(Option<VmResponse>),
}

/// A request that is being sent.
#[derive(Clone, Copy, Debug, PartialEq, Eq)]
pub struct RequestExchange<R, P> {
    /// What is sent.
    pub request: R,
    /// Where the socket is that it is sent to.
    pub socket_path: P,
    /// The time limit of receiving, in milliseconds.
    pub timeout: Option<u128>,
}

/// The step after a call. `ok` tells whether it succeeded, `response` is what
/// receiving gave.
pub open spec fn request_next(
    timeout: Option<u128>,
    step: RequestStep,
    ok: bool,
    response: VmResponse,
) -> RequestStep {
    match step {
        RequestStep::Finished(_) => step,
        _ => if !ok {
            RequestStep::Finished(None)
        } else {
            match step {
                RequestStep::Connect => RequestStep::MakeTube,
                RequestStep::MakeTube => match timeout {
                    Some(limit) => RequestStep::SetTimeout(limit),
                    None => RequestStep::Send,
                },
                RequestStep::SetTimeout(_) => RequestStep::Send,
                RequestStep::Send => RequestStep::Receive,
                _ => RequestStep::Finished(Some(response)),
            }
        },
    }
}

/// A request on its way to a socket.
pub open spec fn exchange_of<R, P>(
    request: R,
    socket_path: P,
    timeout: Option<u128>,
) -> RequestExchange<R, P> {
    RequestExchange { request, socket_path, timeout }
}

/// The first step of sending a request.
pub open spec fn request_first() -> RequestStep {
    RequestStep::Connect
}

/// Sends a request to a socket, without a time limit.
pub fn handle_request<R, P>(request: R, socket_path: P) -> (exchange: RequestExchange<R, P>)
    ensures
        exchange == exchange_of(request, socket_path, None),
{
    handle_request_with_timeout(request, socket_path, None)
}

/// Sends a request to a socket, with a time limit for the response if one is
/// given.
pub fn handle_request_with_timeout<R, P>(request: R, socket_path: P, timeout: Option<u128>) -> (
    exchange: RequestExchange<R, P>)
    ensures
        exchange == exchange_of(request, socket_path, timeout),
{
    RequestExchange { request, socket_path, timeout }
}

impl<R, P> RequestExchange<R, P> {
    /// The first step.
    pub fn first(&self) -> (step: RequestStep)
        ensures
            step == request_first(),
    {
        RequestStep::Connect
    }

    /// The step after a call. `ok` tells whether it succeeded, `response` is
    /// what receiving gave and does not matter for the other calls.
    pub fn after(&self, step: RequestStep, ok: bool, response: VmResponse) -> (next: RequestStep)
        ensures
            next == request_next(self.timeout, step, ok, response),
    {
        match step {
            RequestStep::Finished(_) => step,
            _ => if !ok {
                RequestStep::Finished(None)
            } else {
                match step {
                    RequestStep::Connect => RequestStep::MakeTube,
                    RequestStep::MakeTube => match self.timeout {
                        Some(limit) => RequestStep::SetTimeout(limit),
                        None => RequestStep::Send,
                    },
                    RequestStep::SetTimeout(_) => RequestStep::Send,
                    RequestStep::Send => RequestStep::Receive,
                    _ => RequestStep::Finished(Some(response)),
                }
            },
        }
    }
}

/// The step after as many calls as `oks` tells of.
pub open spec fn request_run(
    timeout: Option<u128>,
    oks: Seq<bool>,
    response: VmResponse,
) -> RequestStep
    decreases oks.len(),
{
    if oks.len() == 0 {
        request_first()
    } else {
        request_next(
            timeout,
            request_run(timeout, oks.drop_last(), response),
            oks.last(),
            response,
        )
    }
}

/// If every call succeeds, the response comes after four calls, five with a time
/// limit.
pub proof fn law_response_is_returned(timeout: Option<u128>, oks: Seq<bool>, response: VmResponse)
    requires
        oks.len() == (if timeout is Some {
            5int
        } else {
            4
        }),
        forall|i: int| 0 <= i < oks.len() ==> oks[i],
    ensures
        request_run(timeout, oks, response) == RequestStep::Finished(Some(response)),
{
    reveal_with_fuel(request_run, 6);
}

/// Once a call fails there is no response, whatever comes after it: the request
/// is not sent if the connection or the time limit failed.
pub proof fn law_failure_is_final(
    timeout: Option<u128>,
    oks: Seq<bool>,
    failed: int,
    response: VmResponse,
)
    requires
        0 <= failed < oks.len(),
        !oks[failed],
        failed < (if timeout is Some {
            5int
        } else {
            4
        }),
        forall|i: int| 0 <= i < failed ==> oks[i],
    ensures
        request_run(timeout, oks, response) == RequestStep::Finished(None),
    decreases oks.len(),
{
    if oks.len() == failed + 1 {
        reveal_with_fuel(request_run, 6);
        lemma_progress(timeout, oks.drop_last(), response);
    } else {
        law_failure_is_final(timeout, oks.drop_last(), failed, response);
    }
}

/// Before the last call nothing is finished.
proof fn lemma_progress(timeout: Option<u128>, oks: Seq<bool>, response: VmResponse)
    requires
        oks.len() < (if timeout is Some {
            5int
        } else {
            4
        }),
        forall|i: int| 0 <= i < oks.len() ==> oks[i],
    ensures
        !(request_run(timeout, oks, response) is Finished),
{
    reveal_with_fuel(request_run, 6);
}

/// A request on the memory of a machine.
#[derive(Clone, Copy, Debug, PartialEq, Eq, Structural)]
pub enum VmMemoryMappingRequest {
    /// Write changes of a range of a slot back.
    MsyncArena { slot: MemSlot, offset: usize, size: usize },
}

/// The response to a request on memory.
#[derive(Clone, Copy, Debug, PartialEq, Eq, Structural)]
pub enum VmMemoryMappingResponse {
    /// The request was carried out.
    Done,
    /// The request failed.
    Failed(Error),
}

/// The response to a request on memory that ended so.
pub open spec fn memory_response(r: Result<(), Error>) -> VmMemoryMappingResponse {
    match r {
        Ok(_) => VmMemoryMappingResponse::Done,
        Err(e) => VmMemoryMappingResponse::Failed(e),
    }
}

impl VmMemoryMappingRequest {
    /// Carries the request out: the machine is asked to write the range of the
    /// request back, and the response tells how that ended.
    pub fn execute<V: Vm>(&self, vm: &mut V) -> (response: VmMemoryMappingResponse)
        ensures
            match *self {
                VmMemoryMappingRequest::MsyncArena { slot, offset, size } => exists|
                    r: Result<(), Error>,
                | #[trigger]
                    (*old(vm)).msync_ends(slot, offset, size, r, *final(vm)) && response
                        == memory_response(r),
            },
    {
        match *self {
            VmMemoryMappingRequest::MsyncArena { slot, offset, size } => {
                match vm.msync_memory_region(slot, offset, size) {
                    Ok(_) => VmMemoryMappingResponse::Done,
                    Err(e) => VmMemoryMappingResponse::Failed(e),
                }
            },
        }
    }
}

/// A machine of the framework carries out every request on memory, and is not
/// changed by it.
pub proof fn law_memory_requests_succeed(
    before: HvfVm,
    after: HvfVm,
    slot: MemSlot,
    offset: usize,
    size: usize,
    r: Result<(), Error>,
)
    requires
        before.msync_ends(slot, offset, size, r, after),
    ensures
        memory_response(r) == VmMemoryMappingResponse::Done,
        after@ == before@,
{
}

/// What an address range was allocated for.
#[derive(Clone, Copy, Debug, PartialEq, Eq, Structural)]
pub enum Alloc {
    /// Anything that has no name.
    Anon(usize),
    /// A range of a device.
    PciBar { bus: u8, dev: u8, func: u8, bar: u8 },
    /// Persistent memory.
    PmemDevice(usize),
    /// A window of a bridge.
    PciBridgeWindow { bus: u8, dev: u8, func: u8 },
    /// A mapping of a file.
    FileBacked(u64),
}

/// An address range that was allocated.
#[derive(Clone, Copy, Debug, PartialEq, Eq)]
pub struct AllocatedRange {
    /// The first address.
    pub start: u64,
    /// The number of addresses, if it is a number of 64 bits.
    pub len: Option<u64>,
}

/// Why memory could not be reserved.
#[derive(Clone, Copy, Debug, PartialEq, Eq, Structural)]
pub enum MmapError {
    /// A call failed.
    SystemCallFailed(Error),
    /// The arguments were not acceptable.
    Refused,
}

/// Guest memory that is mapped.
#[derive(Clone, Copy, Debug, PartialEq, Eq, Structural)]
pub struct VmMappedMemoryRegion {
    /// The first address in the guest.
    pub guest_address: u64,
    /// The slot.
    pub slot: MemSlot,
}

/// The size of the memory that an allocated range takes: the range must be that
/// of a device, there must be one, and its length must be a length of the
/// machine.
pub open spec fn region_size(alloc: Alloc, range: Option<AllocatedRange>) -> Result<usize, Error> {
    if !(alloc is PciBar) {
        Err(Error { number: EINVAL })
    } else {
        match range {
            None => Err(Error { number: EINVAL }),
            Some(r) => match r.len {
                Some(len) => if len <= usize::MAX {
                    Ok(len as usize)
                } else {
                    Err(Error { number: ERANGE })
                },
                None => Err(Error { number: ERANGE }),
            },
        }
    }
}

/// The size of the memory to reserve for an allocated range.
pub fn shared_memory_size(alloc: Alloc, range: Option<AllocatedRange>) -> (r: Result<usize, Error>)
    ensures
        r == region_size(alloc, range),
{
    match alloc {
        Alloc::PciBar { .. } => {},
        _ => {
            return Err(Error::new(EINVAL));
        },
    }
    match range {
        Some(range) => match range.len {
            Some(len) => if len <= usize::MAX as u64 {
                Ok(len as usize)
            } else {
                Err(Error::new(ERANGE))
            },
            None => Err(Error::new(ERANGE)),
        },
        None => Err(Error::new(EINVAL)),
    }
}

/// The region of the machine that shared memory at a host address becomes.
pub open spec fn shared_region(range: AllocatedRange, host_addr: u64) -> GuestRegion {
    GuestRegion { guest_addr: range.start, host_addr, size: range.len->0 as usize }
}

/// What preparing shared memory returns. `arena` is the host address of the
/// memory that was reserved, `ret` the code that mapping it gave.
pub open spec fn prepared(
    vm: VmState,
    alloc: Alloc,
    range: Option<AllocatedRange>,
    arena: Result<u64, MmapError>,
    cache: MemCacheType,
    ret: hv_return_t,
) -> Result<VmMappedMemoryRegion, Error> {
    match region_size(alloc, range) {
        Err(e) => Err(e),
        Ok(_) => match arena {
            Err(MmapError::SystemCallFailed(e)) => Err(e),
            Err(MmapError::Refused) => Err(Error { number: EINVAL }),
            Ok(_) => if cache == MemCacheType::CacheNonCoherent || ret == ffi::HV_SUCCESS {
                Ok(VmMappedMemoryRegion { guest_address: range->0.start, slot: vm.next_slot })
            } else {
                Err(Error { number: ret })
            },
        },
    }
}

/// The machine once shared memory was prepared.
pub open spec fn prepared_vm(
    vm: VmState,
    alloc: Alloc,
    range: Option<AllocatedRange>,
    arena: Result<u64, MmapError>,
    cache: MemCacheType,
    ret: hv_return_t,
) -> VmState {
    if prepared(vm, alloc, range, arena, cache, ret) is Ok {
        added_vm(vm, shared_region(range->0, arena->Ok_0), cache)
    } else {
        vm
    }
}

/// Makes an allocated range of a device a memory slot. The memory of
/// [`shared_memory_size`] was reserved at the host address `arena`, and mapped
/// with the code `ret`; neither matters if the range is refused.
pub fn prepare_shared_memory_region(
    vm: &mut HvfVm,
    alloc: Alloc,
    range: Option<AllocatedRange>,
    arena: Result<u64, MmapError>,
    cache: MemCacheType,
    ret: hv_return_t,
) -> (r: Result<VmMappedMemoryRegion, Error>)
    requires
        old(vm)@.wf(),
        old(vm)@.next_slot < MemSlot::MAX,
    ensures
        final(vm)@.wf(),
        r == prepared(old(vm)@, alloc, range, arena, cache, ret),
        final(vm)@ == prepared_vm(old(vm)@, alloc, range, arena, cache, ret),
{
    let size: usize = match shared_memory_size(alloc, range) {
        Ok(size) => size,
        Err(e) => {
            return Err(e);
        },
    };
    let start: u64 = match range {
        Some(range) => range.start,
        None => {
            return Err(Error::new(EINVAL));
        },
    };
    let host_addr: u64 = match arena {
        Ok(host_addr) => host_addr,
        Err(MmapError::SystemCallFailed(e)) => {
            return Err(e);
        },
        Err(_) => {
            return Err(Error::new(EINVAL));
        },
    };
    match vm.add_memory_region(GuestRegion { guest_addr: start, host_addr, size }, cache, ret) {
        Ok(slot) => Ok(VmMappedMemoryRegion { guest_address: start, slot }),
        Err(e) => Err(e),
    }
}

/// Whether shared memory is prepared before it is used: always.
pub fn should_prepare_memory_region() -> (b: bool)
    ensures
        b,
{
    true
}

/// What may be done with memory.
#[derive(Clone, Copy, Debug, PartialEq, Eq, Structural)]
pub struct Protection {
    pub read: bool,
    pub write: bool,
}

/// A request on the window for shared files.
#[derive(Clone, Copy, Debug, PartialEq, Eq, Structural)]
pub enum FsMappingRequest {
    /// Make an allocated range the window.
    AllocateSharedMemoryRegion(Alloc),
    /// Map a piece of a file.
    CreateMemoryMapping {
        slot: u32,
        fd: i32,
        size: usize,
        file_offset: u64,
        prot: Protection,
        mem_offset: usize,
    },
    /// Take a piece of a file out.
    RemoveMemoryMapping { slot: u32, offset: usize, size: usize },
}

/// What a request on the window comes to.
pub enum FsOutcome {
    /// Make these calls, whatever they return; this is the response.
    Respond(Vec<VmRequest>, VmResponse),
    /// A piece of a file is being mapped, from this offset of this file on;
    /// [`mapping_response`] tells the response from how that ends.
    Mapping { wish: FdMapping, fd: i32, file_offset: u64, step: FdStep },
}

/// The response to mapping a piece of a file.
pub open spec fn mapped_response(result: Result<(), Error>) -> VmResponse {
    match result {
        Ok(_) => VmResponse::Done,
        Err(e) => VmResponse::Failed(e),
    }
}

/// What a request on the window comes to, as it is modelled.
pub enum FsResult {
    /// These calls are made, and this is the response.
    Response(Seq<VmRequest>, VmResponse),
    /// A piece of a file is being mapped.
    Mapping { wish: FdMapping, fd: i32, file_offset: u64, step: FdStep },
}

/// The machine once a request on the window was carried out, and what comes of it.
pub open spec fn fs_request(
    vm: VmState,
    request: FsMappingRequest,
    range: Option<AllocatedRange>,
    arena: Result<u64, MmapError>,
    ret: hv_return_t,
    page_size: usize,
) -> (VmState, FsResult) {
    match request {
        FsMappingRequest::AllocateSharedMemoryRegion(alloc) => (
            prepared_vm(vm, alloc, range, arena, MemCacheType::CacheCoherent, ret),
            FsResult::Response(
                Seq::empty(),
                match prepared(vm, alloc, range, arena, MemCacheType::CacheCoherent, ret) {
                    Ok(region) => VmResponse::RegisterMemory { slot: region.slot },
                    Err(e) => VmResponse::Failed(e),
                },
            ),
        ),
        FsMappingRequest::CreateMemoryMapping { slot, fd, size, file_offset, prot, mem_offset } => {
            let wish = FdMapping {
                slot,
                offset: mem_offset,
                size,
                writable: prot.write,
                page_size,
            };
            (
                vm,
                FsResult::Mapping { wish, fd, file_offset, step: crate::hvf::vm::fd_first(wish) },
            )
        },
        FsMappingRequest::RemoveMemoryMapping { slot, offset, size } => {
            let (after, made) = piece_removed(vm, slot, offset);
            (after, FsResult::Response(made, VmResponse::Done))
        },
    }
}

/// The response to mapping a piece of a file.
pub fn mapping_response(result: Result<(), Error>) -> (response: VmResponse)
    ensures
        response == mapped_response(result),
{
    match result {
        Ok(_) => VmResponse::Done,
        Err(e) => VmResponse::Failed(e),
    }
}

impl FsMappingRequest {
    /// Carries the request out. The range, the arena and the code are those of
    /// [`prepare_shared_memory_region`], and matter for its request alone.
    pub fn execute(
        &self,
        vm: &mut HvfVm,
        range: Option<AllocatedRange>,
        arena: Result<u64, MmapError>,
        ret: hv_return_t,
        page_size: usize,
    ) -> (outcome: FsOutcome)
        requires
            old(vm)@.wf(),
            self is AllocateSharedMemoryRegion ==> old(vm)@.next_slot < MemSlot::MAX,
        ensures
            final(vm)@.wf(),
            ({
                let (after, result) = fs_request(
                    old(vm)@,
                    *self,
                    range,
                    arena,
                    ret,
                    page_size,
                );
                &&& final(vm)@ == after
                &&& match result {
                    FsResult::Response(made, answer) => outcome matches FsOutcome::Respond(
                        requests,
                        response,
                    ) && requests@ == made && response == answer,
                    FsResult::Mapping { wish, fd, file_offset, step } => outcome
                        == (FsOutcome::Mapping { wish, fd, file_offset, step }),
                }
            }),
    {
        match *self {
            FsMappingRequest::AllocateSharedMemoryRegion(alloc) => {
                let response: VmResponse = match prepare_shared_memory_region(
                    vm,
                    alloc,
                    range,
                    arena,
                    MemCacheType::CacheCoherent,
                    ret,
                ) {
                    Ok(region) => VmResponse::RegisterMemory { slot: region.slot },
                    Err(e) => VmResponse::Failed(e),
                };
                FsOutcome::Respond(Vec::new(), response)
            },
            FsMappingRequest::CreateMemoryMapping {
                slot,
                fd,
                size,
                file_offset,
                prot,
                mem_offset,
            } => {
                let wish: FdMapping = FdMapping {
                    slot,
                    offset: mem_offset,
                    size,
                    writable: prot.write,
                    page_size,
                };
                let step: FdStep = vm.add_fd_mapping(wish);
                FsOutcome::Mapping { wish, fd, file_offset, step }
            },
            FsMappingRequest::RemoveMemoryMapping { slot, offset, size } => {
                let requests: Vec<VmRequest> = vm.remove_mapping(slot, offset, size);
                FsOutcome::Respond(requests, VmResponse::Done)
            },
        }
    }
}

/// A window that was registered can be looked up by the slot of the response.
pub proof fn law_registered_slot_exists(
    vm: VmState,
    alloc: Alloc,
    range: AllocatedRange,
    host_addr: u64,
    ret: hv_return_t,
    cache: MemCacheType,
)
    requires
        vm.wf(),
        prepared(vm, alloc, Some(range), Ok(host_addr), cache, ret) is Ok,
    ensures
        ({
            let region = prepared(vm, alloc, Some(range), Ok(host_addr), cache, ret)->Ok_0;
            let after = prepared_vm(vm, alloc, Some(range), Ok(host_addr), cache, ret);
            &&& !vm.regions.contains_key(region.slot)
            &&& after.regions.contains_key(region.slot)
            &&& after.regions[region.slot] == shared_region(range, host_addr)
            &&& region.guest_address == range.start
        }),
{
}

/// A request is sent step by step, each of which is made only if the one before succeeded:
/// the socket is connected to, a tube is made of it, the time limit is set if there is one,
/// the request is sent, and the response is received. Any failure ends it without a
/// response, and the response that came is what is returned.
pub proof fn law_request_step_by_step(timeout: Option<u128>, step: RequestStep, response: VmResponse)
    ensures
        request_first() == RequestStep::Connect,
        request_next(timeout, RequestStep::Connect, true, response) == RequestStep::MakeTube,
        timeout is None ==> request_next(timeout, RequestStep::MakeTube, true, response)
            == RequestStep::Send,
        timeout matches Some(limit) ==> request_next(timeout, RequestStep::MakeTube, true, response)
            == RequestStep::SetTimeout(limit) && request_next(
            timeout,
            RequestStep::SetTimeout(limit),
            true,
            response,
        ) == RequestStep::Send,
        request_next(timeout, RequestStep::Send, true, response) == RequestStep::Receive,
        request_next(timeout, RequestStep::Receive, true, response) == RequestStep::Finished(
            Some(response),
        ),
        !(step is Finished) ==> request_next(timeout, step, false, response)
            == RequestStep::Finished(None),
        step is Finished ==> request_next(timeout, step, true, response) == step && request_next(
            timeout,
            step,
            false,
            response,
        ) == step,
{
}

/// What is sent, where to and within what time is what was asked for.
pub proof fn law_request_is_kept<R, P>(request: R, socket_path: P, timeout: Option<u128>)
    ensures
        exchange_of(request, socket_path, timeout).request == request,
        exchange_of(request, socket_path, timeout).socket_path == socket_path,
        exchange_of(request, socket_path, timeout).timeout == timeout,
{
}

/// A response tells whether a request succeeded, and if not, why.
pub proof fn law_responses(result: Result<(), Error>)
    ensures
        result is Ok ==> mapped_response(result) == VmResponse::Done && memory_response(result)
            == VmMemoryMappingResponse::Done,
        result matches Err(e) ==> mapped_response(result) == VmResponse::Failed(e)
            && memory_response(result) == VmMemoryMappingResponse::Failed(e),
{
}

/// Shared memory is as large as the range of the device that it is for; only a range of a
/// device has any, it must have been allocated, and its length must be one of the machine.
pub proof fn law_shared_memory_sizes(alloc: Alloc, range: Option<AllocatedRange>)
    ensures
        ({
            let device = alloc is PciBar;
            let size = region_size(alloc, range);
            &&& !device || range is None ==> size == Err::<usize, Error>(Error { number: 22 })
            &&& device ==> (range matches Some(r) ==> {
                &&& r.len is None ==> size == Err::<usize, Error>(Error { number: 34 })
                &&& r.len matches Some(len) ==> (len <= usize::MAX ==> size is Ok && size->Ok_0
                    == len) && (len > usize::MAX ==> size == Err::<usize, Error>(
                    Error { number: 34 },
                ))
            })
        }),
{
}

/// Shared memory becomes a memory slot of the machine, at the addresses of its range and of
/// the memory that was reserved, and in the size of the range. Where the range has no size,
/// no memory was reserved, or it could not be mapped, that is told and the machine stays as
/// it is; a window is not mapped, so that cannot fail.
pub proof fn law_shared_memory_becomes_a_slot(
    vm: VmState,
    alloc: Alloc,
    range: Option<AllocatedRange>,
    arena: Result<u64, MmapError>,
    cache: MemCacheType,
    ret: hv_return_t,
)
    requires
        vm.wf(),
        vm.next_slot < MemSlot::MAX,
    ensures
        ({
            let result = prepared(vm, alloc, range, arena, cache, ret);
            let after = prepared_vm(vm, alloc, range, arena, cache, ret);
            let size = region_size(alloc, range);
            &&& result is Ok <==> size is Ok && arena is Ok && (cache is CacheNonCoherent || ret == 0)
            &&& size matches Err(e) ==> result == Err::<VmMappedMemoryRegion, Error>(e)
            &&& size is Ok && arena == Err::<u64, MmapError>(MmapError::Refused) ==> result == Err::<
                VmMappedMemoryRegion,
                Error,
            >(Error { number: 22 })
            &&& size is Ok && arena is Ok && cache is CacheCoherent && ret != 0 ==> result == Err::<
                VmMappedMemoryRegion,
                Error,
            >(Error { number: ret })
            &&& size is Ok ==> (arena matches Err(MmapError::SystemCallFailed(e)) ==> result
                == Err::<VmMappedMemoryRegion, Error>(e))
            &&& result is Err ==> after == vm
            &&& result matches Ok(region) ==> {
                &&& region.guest_address == range->0.start
                &&& region.slot == vm.next_slot
                &&& after.next_slot == vm.next_slot + 1
                &&& after.regions.contains_key(region.slot)
                &&& after.regions[region.slot].guest_addr == range->0.start
                &&& after.regions[region.slot].host_addr == arena->Ok_0
                &&& after.regions[region.slot].size == size->Ok_0
                &&& after.mapped.contains(region.slot) <==> cache is CacheCoherent
                &&& after.events == vm.events && after.dax == vm.dax
            }
        }),
{
}

/// What a request on the window comes to: to make the window registers shared memory that
/// is mapped, and tells its slot or why not; to map a piece of a file starts to, at the
/// offsets, in the size and with the rights that were asked for; to take a piece out does
/// so and always succeeds.
pub proof fn law_window_requests(
    vm: VmState,
    alloc: Alloc,
    slot: u32,
    fd: i32,
    size: usize,
    file_offset: u64,
    prot: Protection,
    offset: usize,
    range: Option<AllocatedRange>,
    arena: Result<u64, MmapError>,
    ret: hv_return_t,
    page_size: usize,
)
    ensures
        ({
            let request = FsMappingRequest::AllocateSharedMemoryRegion(alloc);
            let (after, result) = fs_request(vm, request, range, arena, ret, page_size);
            let made = prepared(vm, alloc, range, arena, MemCacheType::CacheCoherent, ret);
            &&& after == prepared_vm(vm, alloc, range, arena, MemCacheType::CacheCoherent, ret)
            &&& result is Response && result->Response_0.len() == 0
            &&& made matches Ok(region) ==> result->Response_1 == (VmResponse::RegisterMemory {
                slot: region.slot,
            })
            &&& made matches Err(e) ==> result->Response_1 == VmResponse::Failed(e)
        }),
        ({
            let request = FsMappingRequest::CreateMemoryMapping {
                slot,
                fd,
                size,
                file_offset,
                prot,
                mem_offset: offset,
            };
            let (after, result) = fs_request(vm, request, range, arena, ret, page_size);
            &&& after == vm
            &&& result is Mapping
            &&& result->fd == fd && result->file_offset == file_offset
            &&& result->wish.slot == slot && result->wish.offset == offset && result->wish.size
                == size && result->wish.writable == prot.write && result->wish.page_size
                == page_size
            &&& result->step == crate::hvf::vm::fd_first(result->wish)
        }),
        ({
            let request = FsMappingRequest::RemoveMemoryMapping { slot, offset, size };
            let (after, result) = fs_request(vm, request, range, arena, ret, page_size);
            &&& after == piece_removed(vm, slot, offset).0
            &&& result == FsResult::Response(
                piece_removed(vm, slot, offset).1,
                VmResponse::Done,
            )
        }),
{
}

} // verus!
