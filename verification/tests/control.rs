use crosvm_macos::arch::get_acpi_event_sock;
use crosvm_macos::command::{error_to_exit_code, run_command, start_device, PanicStep};
use crosvm_macos::control::gpu::{MacosDisplayMode, MacosMouseMode};
use crosvm_macos::control::{
    handle_request, handle_request_with_timeout, mapping_response, prepare_shared_memory_region,
    shared_memory_size, should_prepare_memory_region, Alloc, AllocatedRange, FsMappingRequest,
    FsOutcome, MmapError, Protection, RequestExchange, RequestStep, VmMappedMemoryRegion,
    VmMemoryMappingRequest, VmMemoryMappingResponse, VmResponse,
};
use crosvm_macos::errno::{Error, EINVAL, ERANGE};
use crosvm_macos::hvf::vm::{FdState, FdStep, HvfVm, MemCacheType, Vm, VmRequest};
use crosvm_macos::memory::{
    finalize_shm, FileBackedMappingParameters, GuestMemory, MacosUdmabufDriver, MemoryPolicy,
    MemoryRegion, OpenMode, UdmabufError,
};

const BAR: Alloc = Alloc::PciBar { bus: 0, dev: 1, func: 0, bar: 2 };

fn steps(exchange: RequestExchange<u32, &str>, fail_at: usize) -> Vec<RequestStep> {
    let mut step = exchange.first();
    let mut made = vec![step];
    let mut n = 0;
    while !matches!(step, RequestStep::Finished(_)) {
        step = exchange.after(step, n != fail_at, VmResponse::Done);
        made.push(step);
        n += 1;
    }
    made
}

#[test]
fn requests_are_sent_step_by_step() {
    assert_eq!(
        steps(handle_request(5, "/run/vm.sock"), 99),
        vec![
            RequestStep::Connect,
            RequestStep::MakeTube,
            RequestStep::Send,
            RequestStep::Receive,
            RequestStep::Finished(Some(VmResponse::Done)),
        ]
    );
    let with_limit = handle_request_with_timeout(5, "/run/vm.sock", Some(50));
    assert_eq!((with_limit.request, with_limit.socket_path), (5, "/run/vm.sock"));
    assert_eq!(steps(with_limit, 99)[2], RequestStep::SetTimeout(50));
    assert_eq!(steps(with_limit, 99).len(), 6);
    for n in 0..5 {
        assert_eq!(steps(with_limit, n).last(), Some(&RequestStep::Finished(None)));
        assert_eq!(steps(with_limit, n).len(), n + 2);
    }
}

#[test]
fn memory_requests_succeed() {
    let mut vm = HvfVm::new(Ok(())).unwrap();
    let request = VmMemoryMappingRequest::MsyncArena { slot: 1, offset: 2, size: 3 };
    assert_eq!(request.execute(&mut vm), VmMemoryMappingResponse::Done);
}

struct Recorder {
    calls: Vec<(u32, usize, usize)>,
}

impl Vm for Recorder {
    fn msync_ends(
        self,
        _slot: u32,
        _offset: usize,
        _size: usize,
        r: Result<(), Error>,
        _after: Self,
    ) -> bool {
        r.is_err()
    }

    fn msync_memory_region(&mut self, slot: u32, offset: usize, size: usize) -> Result<(), Error> {
        self.calls.push((slot, offset, size));
        Err(Error::new(ERANGE))
    }
}

#[test]
fn memory_requests_reach_the_machine() {
    let mut vm = Recorder { calls: vec![] };
    let request = VmMemoryMappingRequest::MsyncArena { slot: 1, offset: 2, size: 3 };
    assert_eq!(
        request.execute(&mut vm),
        VmMemoryMappingResponse::Failed(Error::new(ERANGE))
    );
    assert_eq!(vm.calls, vec![(1, 2, 3)]);
}

fn range(len: Option<u64>) -> Option<AllocatedRange> {
    Some(AllocatedRange { start: 0x10_0000, len })
}

#[test]
fn shared_memory_of_devices() {
    assert_eq!(shared_memory_size(BAR, range(Some(0x4000))), Ok(0x4000));
    assert_eq!(shared_memory_size(Alloc::Anon(1), range(Some(1))), Err(Error::new(EINVAL)));
    assert_eq!(shared_memory_size(BAR, None), Err(Error::new(EINVAL)));
    assert_eq!(shared_memory_size(BAR, range(None)), Err(Error::new(ERANGE)));
    let mut vm = HvfVm::new(Ok(())).unwrap();
    let cache = MemCacheType::CacheNonCoherent;
    let e = Error::new(12);
    assert_eq!(
        prepare_shared_memory_region(
            &mut vm,
            BAR,
            range(Some(1)),
            Err(MmapError::SystemCallFailed(e)),
            cache,
            0
        ),
        Err(e)
    );
    assert_eq!(
        prepare_shared_memory_region(
            &mut vm,
            BAR,
            range(Some(1)),
            Err(MmapError::Refused),
            cache,
            0
        ),
        Err(Error::new(EINVAL))
    );
    assert_eq!(
        prepare_shared_memory_region(&mut vm, BAR, range(Some(0x4000)), Ok(7), cache, -1),
        Ok(VmMappedMemoryRegion { guest_address: 0x10_0000, slot: 0 })
    );
    assert_eq!(vm.remove_memory_region(0, 0x4000).region.unwrap().host_addr, 7);
    assert!(should_prepare_memory_region());
}

#[test]
fn window_requests() {
    let mut vm = HvfVm::new(Ok(())).unwrap();
    let allocate = FsMappingRequest::AllocateSharedMemoryRegion(BAR);
    let refused = allocate.execute(&mut vm, None, Ok(0), 0, 0x4000);
    assert!(matches!(
        refused,
        FsOutcome::Respond(_, VmResponse::Failed(Error { number: EINVAL }))
    ));
    let registered = allocate.execute(&mut vm, range(Some(0x10_0000)), Ok(7), 0, 0x4000);
    assert!(matches!(
        registered,
        FsOutcome::Respond(_, VmResponse::RegisterMemory { slot: 0 })
    ));
    let create = FsMappingRequest::CreateMemoryMapping {
        slot: 0,
        fd: 9,
        size: 100,
        file_offset: 0x8000,
        prot: Protection { read: true, write: true },
        mem_offset: 0x4000,
    };
    match create.execute(&mut vm, None, Ok(0), 0, 0x4000) {
        FsOutcome::Mapping { wish, fd, file_offset, step } => {
            assert_eq!((fd, file_offset), (9, 0x8000));
            assert_eq!((wish.slot, wish.offset, wish.size, wish.writable), (0, 0x4000, 100, true));
            assert_eq!(
                step,
                FdStep::Do(VmRequest::ReadHeader { offset: 100 }, FdState::Header)
            );
        }
        FsOutcome::Respond(..) => panic!("a mapping was expected"),
    }
    let remove = FsMappingRequest::RemoveMemoryMapping { slot: 0, offset: 0x4000, size: 100 };
    assert!(matches!(
        remove.execute(&mut vm, None, Ok(0), 0, 0x4000),
        FsOutcome::Respond(requests, VmResponse::Done) if requests.is_empty()
    ));
    assert_eq!(mapping_response(Ok(())), VmResponse::Done);
    assert_eq!(mapping_response(Err(Error::new(3))), VmResponse::Failed(Error::new(3)));
}

#[test]
fn display_modes() {
    let mode = MacosDisplayMode::Windowed(1920, 1080);
    assert_eq!(mode.get_window_size(), (1920, 1080));
    assert_eq!(mode.get_virtual_display_size(), (1920, 1080));
    assert_eq!(mode.get_virtual_display_size_4k_uhd(true), (1920, 1080));
    assert_eq!(MacosMouseMode::Touchscreen, MacosMouseMode::Touchscreen);
}

#[test]
fn guest_memory_helpers() {
    let mut region = MemoryRegion { mapping: vec![1, 2, 3, 4, 5] };
    assert_eq!(region.zero_range(1, 3), Ok(()));
    assert_eq!(region.mapping, vec![1, 0, 0, 0, 5]);
    assert_eq!(region.zero_range(5, 0), Ok(()));
    assert_eq!(region.find_data_ranges(), Ok(vec![(0, 5)]));
    let memory = GuestMemory { regions: vec![region] };
    memory.set_memory_policy(MemoryPolicy::use_hugepages());
    assert_eq!(memory.regions[0].mapping, vec![1, 0, 0, 0, 5]);
    assert_eq!(MemoryPolicy::empty().bits, 0);
    assert_eq!(finalize_shm(), Ok(()));
    let params = FileBackedMappingParameters { path: "/a".to_string(), writable: true };
    assert_eq!(params.open(), ("/a".to_string(), OpenMode { read: true, write: false }));
    assert_eq!(MacosUdmabufDriver::new(), Err(UdmabufError::UdmabufUnsupported));
    assert_eq!(
        MacosUdmabufDriver {}.create_udmabuf(&vec![(0, 1)]),
        Err(UdmabufError::UdmabufUnsupported)
    );
}

#[test]
fn command_line() {
    assert_eq!(start_device(), Err("Device subcommands not yet supported on macOS"));
    assert_eq!(run_command(), Err("Platform-specific commands not yet supported on macOS"));
    assert_eq!(error_to_exit_code(), 1);
    assert_eq!(get_acpi_event_sock(), Ok(None));
}

#[test]
fn panics_are_reported_and_end_the_program() {
    let mut step = PanicStep::first();
    let mut made = vec![step];
    while step != PanicStep::Abort {
        step = step.after(true);
        made.push(step);
    }
    assert_eq!(
        made,
        vec![
            PanicStep::KeepErrorOutput,
            PanicStep::MakePipe,
            PanicStep::Redirect,
            PanicStep::Report { captured: true },
            PanicStep::Restore,
            PanicStep::LogLines,
            PanicStep::Abort,
        ]
    );
    assert_eq!(PanicStep::MakePipe.after(false), PanicStep::LogCaptureFailure);
    assert_eq!(
        PanicStep::LogCaptureFailure.after(true),
        PanicStep::Report { captured: false }
    );
    assert_eq!(PanicStep::Report { captured: false }.after(true), PanicStep::Abort);
    assert_eq!(PanicStep::Restore.after(false), PanicStep::LogRestoreFailure);
}
