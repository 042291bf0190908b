use crosvm_macos::errno::{Error, EINVAL, EIO, ENOTSUP};
use crosvm_macos::hvf::boot::{
    BootReply, BootRequest, BootState, BootStep, GicParams, GuestRegion, VmBoot,
};
use crosvm_macos::hvf::ffi;
use crosvm_macos::hvf::vcpu::{
    HvfVcpu, RunState, RunStep, VcpuExit, VcpuRegAArch64, VcpuReply, VcpuRequest, ICC_IAR1_EL1,
    SPURIOUS_IRQ,
};
use crosvm_macos::hvf::vcpu_io::{
    load_value, store_bytes, HypercallState, HypercallStep, MmioState, MmioStep,
    SMCCC_NOT_SUPPORTED,
};
use crosvm_macos::hvf::vm::{
    FdMapping, FdState, FdStep, HvfVm, IoEventAddress, MemCacheType, VmCap, VmReply, VmRequest,
    VENUS_MAGIC,
};
use crosvm_macos::hvf::{Hvf, HypervisorCap};

#[test]
fn ffi_constants_correct() {
    // Exception Class values from ARM DDI 0487 (ARMv8-A Architecture Reference Manual)
    // Table D13-6: Exception classes
    assert_eq!(ffi::EC_WFX_TRAP, 0x01, "EC_WFX_TRAP must be 0x01");
    assert_eq!(ffi::EC_AA64_HVC, 0x16, "EC_AA64_HVC must be 0x16");
    assert_eq!(ffi::EC_AA64_SMC, 0x17, "EC_AA64_SMC must be 0x17");
    assert_eq!(
        ffi::EC_SYSTEMREGISTERTRAP, 0x18,
        "EC_SYSTEMREGISTERTRAP must be 0x18"
    );
    assert_eq!(ffi::EC_INSNABORT, 0x20, "EC_INSNABORT must be 0x20");
    assert_eq!(ffi::EC_DATAABORT, 0x24, "EC_DATAABORT must be 0x24");
    assert_eq!(ffi::EC_BREAKPOINT, 0x30, "EC_BREAKPOINT must be 0x30");
    assert_eq!(ffi::EC_SOFTWARESTEP, 0x32, "EC_SOFTWARESTEP must be 0x32");
    assert_eq!(ffi::EC_WATCHPOINT, 0x34, "EC_WATCHPOINT must be 0x34");
    assert_eq!(ffi::EC_AA64_BKPT, 0x3c, "EC_AA64_BKPT must be 0x3c");

    // HVF exit reasons
    assert_eq!(ffi::HV_EXIT_REASON_CANCELED, 0);
    assert_eq!(ffi::HV_EXIT_REASON_EXCEPTION, 1);
    assert_eq!(ffi::HV_EXIT_REASON_VTIMER_ACTIVATED, 2);

    // HVF memory flags
    assert_eq!(ffi::HV_MEMORY_READ, 1 << 0);
    assert_eq!(ffi::HV_MEMORY_WRITE, 1 << 1);
    assert_eq!(ffi::HV_MEMORY_EXEC, 1 << 2);

    // HVF return codes
    assert_eq!(ffi::HV_SUCCESS, 0);
}

#[test]
fn syndrome_parsing_ec_extraction() {
    // EC is bits [31:26] of the syndrome (ESR_EL2)
    // Data Abort from lower EL: EC=0x24, syndrome with ISV=1, iswrite=1, SAS=2 (word), SRT=5
    let syndrome: u64 = (0x24u64 << 26) | (1 << 24) | (1 << 6) | (2 << 22) | (5 << 16);
    assert_eq!(ffi::syn_get_ec(syndrome), ffi::EC_DATAABORT);
}

#[test]
fn syndrome_parsing_data_abort_write() {
    // Data abort: ISV=1, iswrite=1, SAS=2 (4-byte word), SRT=3 (register X3)
    let syndrome: u64 = (ffi::EC_DATAABORT as u64) << 26
        | (1u64 << 24)  // ISV
        | (1u64 << 6)   // iswrite
        | (2u64 << 22)  // SAS = 2 (word)
        | (3u64 << 16); // SRT = 3 (X3)

    assert!(ffi::data_abort_isv(syndrome), "ISV should be set");
    assert!(ffi::data_abort_iswrite(syndrome), "iswrite should be set");
    assert_eq!(ffi::data_abort_sas(syndrome), 2, "SAS should be 2 (word)");
    assert_eq!(ffi::data_abort_srt(syndrome), 3, "SRT should be 3 (X3)");
    assert!(!ffi::data_abort_s1ptw(syndrome), "s1ptw should not be set");
}

#[test]
fn syndrome_parsing_data_abort_read() {
    // Data abort: ISV=1, iswrite=0, SAS=3 (8-byte dword), SRT=10 (X10)
    let syndrome: u64 = (ffi::EC_DATAABORT as u64) << 26
        | (1u64 << 24)   // ISV
        | (0u64 << 6)    // iswrite = 0 (read)
        | (3u64 << 22)   // SAS = 3 (doubleword)
        | (10u64 << 16); // SRT = 10 (X10)

    assert!(ffi::data_abort_isv(syndrome));
    assert!(!ffi::data_abort_iswrite(syndrome), "should be a read");
    assert_eq!(ffi::data_abort_sas(syndrome), 3, "SAS should be 3 (dword)");
    assert_eq!(ffi::data_abort_srt(syndrome), 10, "SRT should be 10 (X10)");
}

#[test]
fn syndrome_parsing_data_abort_byte_access() {
    // Data abort: ISV=1, iswrite=1, SAS=0 (1-byte), SRT=0 (X0)
    let syndrome: u64 = (ffi::EC_DATAABORT as u64) << 26
        | (1u64 << 24)  // ISV
        | (1u64 << 6)   // iswrite
        | (0u64 << 22)  // SAS = 0 (byte)
        | (0u64 << 16); // SRT = 0 (X0)

    assert_eq!(ffi::data_abort_sas(syndrome), 0, "SAS should be 0 (byte)");
    assert_eq!(ffi::data_abort_srt(syndrome), 0, "SRT should be 0 (X0)");
    assert_eq!(1usize << ffi::data_abort_sas(syndrome), 1, "access size should be 1 byte");
}

#[test]
fn syndrome_parsing_wfx() {
    // WFI: EC=0x01, bit 0 = 0 (WFI)
    let wfi_syndrome: u64 = (ffi::EC_WFX_TRAP as u64) << 26;
    assert!(!ffi::wfx_is_wfe(wfi_syndrome), "should be WFI, not WFE");

    // WFE: EC=0x01, bit 0 = 1 (WFE)
    let wfe_syndrome: u64 = (ffi::EC_WFX_TRAP as u64) << 26 | 1;
    assert!(ffi::wfx_is_wfe(wfe_syndrome), "should be WFE");
}

#[test]
fn syndrome_parsing_sysreg_trap() {
    // System register trap: EC=0x18, bit 0 = 1 (read), RT = 7
    let syndrome: u64 = (ffi::EC_SYSTEMREGISTERTRAP as u64) << 26
        | 1           // isread
        | (7 << 5);   // RT = 7

    assert!(ffi::sysreg_isread(syndrome), "should be a read");
    assert_eq!(ffi::sysreg_rt(syndrome), 7, "RT should be 7");

    // Write: bit 0 = 0
    let write_syndrome: u64 = (ffi::EC_SYSTEMREGISTERTRAP as u64) << 26
        | (0)         // isread = 0 (write)
        | (15 << 5);  // RT = 15

    assert!(!ffi::sysreg_isread(write_syndrome), "should be a write");
    assert_eq!(ffi::sysreg_rt(write_syndrome), 15, "RT should be 15");
}

fn exception(syndrome: u64, physical_address: u64) -> ffi::hv_vcpu_exit_t {
    ffi::hv_vcpu_exit_t {
        reason: ffi::HV_EXIT_REASON_EXCEPTION,
        exception: ffi::hv_vcpu_exit_exception_t {
            syndrome,
            virtual_address: 0,
            physical_address,
        },
    }
}

fn good(value: u64) -> VcpuReply {
    VcpuReply { ret: 0, value }
}

fn vcpu() -> HvfVcpu {
    HvfVcpu::new(3, 0, 77, 0).unwrap()
}

#[test]
fn sysreg_fields_and_encoding() {
    // ICC_IAR1_EL1 is (3, 0, 12, 12, 0).
    let syndrome: u64 = (0x18 << 26) | (3 << 20) | (12 << 10) | (12 << 1) | 1 | (4 << 5);
    assert_eq!(ffi::sysreg_op0(syndrome), 3);
    assert_eq!(ffi::sysreg_op1(syndrome), 0);
    assert_eq!(ffi::sysreg_crn(syndrome), 12);
    assert_eq!(ffi::sysreg_crm(syndrome), 12);
    assert_eq!(ffi::sysreg_op2(syndrome), 0);
    assert_eq!(ffi::sysreg_encode(3, 0, 12, 12, 0), 0xc660);
    assert_eq!(ICC_IAR1_EL1, 0xc660);
    assert_eq!(
        HvfVcpu::handle_sysreg_trap(syndrome),
        RunStep::Do(
            VcpuRequest::GetSysReg(0xc660),
            RunState::TrappedRead { reg_id: 0xc660, rt: 4 }
        )
    );
}

#[test]
fn return_codes() {
    assert_eq!(ffi::hvf_result(0), Ok(()));
    assert_eq!(ffi::hvf_result(ffi::HV_ERROR), Err(Error::new(ffi::HV_ERROR)));
    assert_eq!(ffi::hv_vcpu_cancel(None), ffi::HV_SUCCESS);
    assert_eq!(ffi::hv_vcpu_cancel(Some(5)), 5);
    assert_eq!(ffi::gic_call_code(None), -1);
    assert_eq!(ffi::gic_call_code(Some(0)), 0);
}

#[test]
fn vcpu_creation() {
    assert_eq!(vcpu().hvf_handle(), 77);
    assert_eq!(vcpu().id(), 3);
    assert_eq!(HvfVcpu::new(0, -1, 0, 0), Err(Error::new(-1)));
    assert_eq!(HvfVcpu::new(0, 0, 0, -2), Err(Error::new(-2)));
}

#[test]
fn immediate_exit_is_taken_once() {
    let mut cpu = vcpu();
    assert_eq!(cpu.set_immediate_exit(true), Some(VcpuRequest::Cancel));
    assert_eq!(cpu.run(), RunStep::Done(Ok(VcpuExit::Intr)));
    assert_eq!(cpu.run(), RunStep::Enter);
    let mut exit = exception(0, 0);
    exit.reason = ffi::HV_EXIT_REASON_CANCELED;
    assert_eq!(cpu.on_exit(0, &exit, false), RunStep::Done(Ok(VcpuExit::Intr)));
    assert_eq!(cpu.on_exit(0, &exit, false), RunStep::Done(Ok(VcpuExit::Canceled)));
}

#[test]
fn every_exit_is_decoded() {
    let mut cpu = vcpu();
    let after_pc = |exit| {
        RunStep::Do(VcpuRequest::GetReg(ffi::HV_REG_PC), RunState::ReadPc { exit })
    };
    let of = |ec: u64| vcpu().on_exit(0, &exception(ec << 26, 0), false);
    assert_eq!(of(0x24), RunStep::Done(Ok(VcpuExit::Mmio)));
    assert_eq!(of(0x25), RunStep::Done(Ok(VcpuExit::Mmio)));
    assert_eq!(of(0x16), RunStep::Done(Ok(VcpuExit::Hypercall)));
    assert_eq!(of(0x17), after_pc(VcpuExit::Hypercall));
    assert_eq!(of(0x01), after_pc(VcpuExit::Hlt));
    assert_eq!(cpu.on_exit(0, &exception((1 << 26) | 1, 0), false), after_pc(VcpuExit::Intr));
    for ec in [0x30, 0x31, 0x32, 0x33, 0x34, 0x35, 0x3c] {
        assert_eq!(of(ec), RunStep::Done(Ok(VcpuExit::Debug)));
    }
    assert_eq!(of(0x20), RunStep::Done(Ok(VcpuExit::Exception)));
    let mut exit = exception(0, 0);
    exit.reason = ffi::HV_EXIT_REASON_CANCELED;
    assert_eq!(cpu.on_exit(0, &exit, false), RunStep::Done(Ok(VcpuExit::Canceled)));
    exit.reason = ffi::HV_EXIT_REASON_VTIMER_ACTIVATED;
    assert_eq!(
        cpu.on_exit(0, &exit, true),
        RunStep::Do(VcpuRequest::UnmaskVtimer, RunState::TimerHandled)
    );
    assert_eq!(
        cpu.on_exit(0, &exit, false),
        RunStep::Do(VcpuRequest::InjectIrq, RunState::TimerHandled)
    );
    exit.reason = 9;
    assert_eq!(cpu.on_exit(0, &exit, false), RunStep::Done(Ok(VcpuExit::Exception)));
    assert_eq!(cpu.on_exit(-5, &exit, false), RunStep::Done(Err(Error::new(-5))));
}

#[test]
fn emulated_instruction_is_stepped_over() {
    let mut cpu = vcpu();
    assert_eq!(
        cpu.resume(RunState::ReadPc { exit: VcpuExit::Hlt }, good(0x1000)),
        RunStep::Do(
            VcpuRequest::SetReg(ffi::HV_REG_PC, 0x1004),
            RunState::PcWritten { exit: VcpuExit::Hlt }
        )
    );
    assert_eq!(
        cpu.resume(RunState::PcWritten { exit: VcpuExit::Hlt }, good(0)),
        RunStep::Done(Ok(VcpuExit::Hlt))
    );
    assert_eq!(
        cpu.resume(
            RunState::PcWritten { exit: VcpuExit::Hlt },
            VcpuReply { ret: -3, value: 0 }
        ),
        RunStep::Done(Err(Error::new(-3)))
    );
}

#[test]
fn interrupt_is_acknowledged_once() {
    let mut cpu = vcpu();
    cpu.pending_irq = Some(45);
    let refused = VcpuReply { ret: -1, value: 0 };
    assert_eq!(cpu.read_sysreg_value(ICC_IAR1_EL1, refused), 45);
    assert_eq!(cpu.read_sysreg_value(ICC_IAR1_EL1, refused), SPURIOUS_IRQ);
    assert_eq!(SPURIOUS_IRQ, 1023);
    assert_eq!(cpu.read_sysreg_value(ICC_IAR1_EL1, good(9)), 9);
}

#[test]
fn mmio_accesses() {
    let cpu = vcpu();
    let isv: u64 = 1 << 24;
    let store = (0x24 << 26) | isv | (1 << 6) | (2 << 22) | (5 << 16);
    assert_eq!(
        cpu.handle_mmio(&exception(store, 0x900_0000)),
        MmioStep::Do(
            VcpuRequest::GetReg(5),
            MmioState::StoreValue { address: 0x900_0000, len: 4 }
        )
    );
    assert_eq!(
        cpu.mmio_resume(
            MmioState::StoreValue { address: 0x900_0000, len: 4 },
            good(0x1_2345_6789)
        ),
        MmioStep::Write { address: 0x900_0000, value: 0x1_2345_6789, len: 4 }
    );
    assert_eq!(store_bytes(0x1_2345_6789, 4), vec![0x89, 0x67, 0x45, 0x23]);
    assert_eq!(
        cpu.mmio_written(Ok(())),
        MmioStep::Do(VcpuRequest::GetReg(ffi::HV_REG_PC), MmioState::ReadPc)
    );
    let load = (0x24 << 26) | isv | (3 << 22) | (10 << 16);
    assert_eq!(
        cpu.handle_mmio(&exception(load, 0x40)),
        MmioStep::Read { address: 0x40, len: 8, reg: 10 }
    );
    assert_eq!(
        cpu.mmio_read(10, Ok(vec![1, 2, 0, 0, 0, 0, 0, 0])),
        MmioStep::Do(VcpuRequest::SetReg(10, 0x201), MmioState::LoadWritten)
    );
    assert_eq!(
        cpu.handle_mmio(&exception(0x24 << 26, 0)),
        MmioStep::Done(Err(Error::new(EIO)))
    );
    assert_eq!(load_value(&store_bytes(0xdead_beef_0102_0304, 8)), 0xdead_beef_0102_0304);
}

#[test]
fn hypercalls() {
    let cpu = vcpu();
    assert_eq!(
        cpu.handle_hypercall(),
        HypercallStep::Do(VcpuRequest::GetReg(0), HypercallState::Function)
    );
    assert_eq!(
        cpu.hypercall_fetched(
            HypercallState::Arg3 { id: 1, arg1: 2, arg2: 3 },
            good(4)
        ),
        HypercallStep::Handle { id: 1, arg1: 2, arg2: 3, arg3: 4 }
    );
    let abi = HvfVcpu::hypercall_abi(0x8400_0000, 1, 2, 3);
    assert_eq!(abi.hypercall_id(), 0x8400_0000);
    assert_eq!(abi.get_argument(2), Some(3));
    assert_eq!(abi.get_argument(3), None);
    assert_eq!(abi.get_results()[0], SMCCC_NOT_SUPPORTED);
    let results = vec![7, 8];
    assert_eq!(
        cpu.hypercall_store(&results),
        HypercallStep::Do(VcpuRequest::SetReg(0, 7), HypercallState::Stored { index: 0 })
    );
    assert_eq!(
        cpu.hypercall_stored(&results, 0, 0),
        HypercallStep::Do(VcpuRequest::SetReg(1, 8), HypercallState::Stored { index: 1 })
    );
    assert_eq!(cpu.hypercall_stored(&results, 1, 0), HypercallStep::Finished);
    assert_eq!(cpu.hypercall_stored(&results, 1, -7), HypercallStep::Failed(Error::new(-7)));
}

#[test]
fn registers_of_a_vcpu() {
    let cpu = vcpu();
    assert_eq!(HvfVcpu::reg_to_hvf(&VcpuRegAArch64::X(30)), Ok(30));
    assert_eq!(HvfVcpu::reg_to_hvf(&VcpuRegAArch64::X(31)), Err(Error::new(EINVAL)));
    assert_eq!(HvfVcpu::reg_to_hvf(&VcpuRegAArch64::Pc), Ok(31));
    assert_eq!(HvfVcpu::reg_to_hvf(&VcpuRegAArch64::Pstate), Ok(34));
    assert_eq!(HvfVcpu::reg_to_hvf(&VcpuRegAArch64::Sp), Err(Error::new(EINVAL)));
    assert_eq!(HvfVcpu::reg_to_hvf(&VcpuRegAArch64::System(1)), Err(Error::new(EINVAL)));
    assert_eq!(cpu.set_one_reg(VcpuRegAArch64::Sp, 1), Err(Error::new(EINVAL)));
    assert_eq!(
        cpu.set_one_reg(VcpuRegAArch64::Pc, 0x8000),
        Ok(VcpuRequest::SetReg(ffi::HV_REG_PC, 0x8000))
    );
    assert_eq!(
        cpu.set_one_reg(VcpuRegAArch64::System(0xc081), 5),
        Ok(VcpuRequest::SetSysReg(0xc081, 5))
    );
    assert_eq!(
        cpu.get_one_reg(VcpuRegAArch64::Pstate),
        Ok(VcpuRequest::GetReg(ffi::HV_REG_CPSR))
    );
    assert_eq!(cpu.set_vector_reg(31, 1 << 100), Ok(VcpuRequest::SetVectorReg(31, 1 << 100)));
    assert_eq!(cpu.get_vector_reg(32), Err(Error::new(EINVAL)));
    assert_eq!(HvfVcpu::vector_value(0, 9), Ok(9));
    assert_eq!(HvfVcpu::vector_value(-2, 9), Err(Error::new(-2)));
    assert_eq!(HvfVcpu::get_reg(good(8)), Ok(8));
    assert!(!cpu.has_pvtime_support());
    assert!(cpu.get_system_regs().is_empty());
    let version = cpu.get_psci_version();
    assert_eq!((version.major, version.minor), (1, 0));
}

#[test]
fn hypervisor_creation() {
    assert!(Hvf::new(0).is_ok());
    assert_eq!(Hvf::new(-1).map(|_| ()), Err(Error::new(-1)));
    assert!(Hvf::new(0).unwrap().check_capability(HypervisorCap::UserMemory));
}

fn boot_reply(ret: i32, present: bool) -> BootReply {
    BootReply { ret, present, params: GicParams::unknown() }
}

#[test]
fn machine_comes_up() {
    let boot = VmBoot {
        regions: vec![GuestRegion { guest_addr: 0x8000_0000, host_addr: 0x1000, size: 0x4000 }],
        gic_dist_base: 0x3fff_0000,
    };
    let first = boot.start();
    assert_eq!(
        first,
        BootStep::Do(
            BootRequest::MapMemory {
                host_addr: 0x1000,
                guest_addr: 0x8000_0000,
                size: 0x4000,
                flags: 7
            },
            BootState::Mapped { index: 0 }
        )
    );
    assert_eq!(
        boot.resume(BootState::Mapped { index: 0 }, boot_reply(-6, false)),
        BootStep::Done(Err(Error::new(-6)))
    );
    assert_eq!(
        boot.resume(BootState::Mapped { index: 0 }, boot_reply(0, false)),
        BootStep::Do(BootRequest::GicAvailable, BootState::Availability)
    );
    assert_eq!(
        boot.resume(BootState::Availability, boot_reply(0, false)),
        BootStep::Done(Ok(()))
    );
    assert_eq!(
        boot.resume(BootState::Availability, boot_reply(0, true)),
        BootStep::Do(BootRequest::GicParameters, BootState::Parameters)
    );
    assert!(matches!(
        boot.resume(BootState::Parameters, boot_reply(0, true)),
        BootStep::Do(BootRequest::GicConfigCreate, BootState::Config { .. })
    ));
}

fn machine() -> HvfVm {
    HvfVm::new(Ok(())).unwrap()
}

const PAGE: usize = 0x4000;

fn region(guest_addr: u64, size: usize) -> GuestRegion {
    GuestRegion { guest_addr, host_addr: 0x7000_0000, size }
}

#[test]
fn removing_a_slot_undoes_adding_it() {
    let mut vm = machine();
    let memory = region(0x8000_0000, 0x5000);
    assert_eq!(
        HvfVm::memory_region_mapping(&memory, false, MemCacheType::CacheCoherent, PAGE),
        Some(VmRequest::MapMemory {
            host_addr: 0x7000_0000,
            guest_addr: 0x8000_0000,
            size: 0x8000,
            flags: 7
        })
    );
    assert_eq!(
        HvfVm::memory_region_mapping(&memory, false, MemCacheType::CacheNonCoherent, PAGE),
        None
    );
    assert_eq!(
        vm.add_memory_region(memory, MemCacheType::CacheCoherent, -4),
        Err(Error::new(-4))
    );
    assert_eq!(vm.add_memory_region(memory, MemCacheType::CacheCoherent, 0), Ok(0));
    assert_eq!(vm.add_memory_region(memory, MemCacheType::CacheNonCoherent, -4), Ok(1));
    let removal = vm.remove_memory_region(0, PAGE);
    assert!(removal.cleanup.is_empty());
    assert_eq!(removal.region, Ok(memory));
    assert_eq!(
        removal.unmap,
        Some(VmRequest::Unmap { guest_addr: 0x8000_0000, size: 0x8000 })
    );
    assert!(vm.remove_memory_region(0, PAGE).region.is_err());
    let window = vm.remove_memory_region(1, PAGE);
    assert_eq!(window.region, Ok(memory));
    assert_eq!(window.unmap, None);
}

fn vm_reply(ret: i32, header: Option<(u64, u64)>, address: Option<u64>) -> VmReply {
    VmReply { ret, header, address }
}

fn map_file(vm: &mut HvfVm, wish: FdMapping, address: u64) -> Vec<VmRequest> {
    let mut made = Vec::new();
    let mut step = vm.add_fd_mapping(wish);
    loop {
        match step {
            FdStep::Do(request, state) => {
                made.push(request);
                step = vm.fd_mapping_resume(wish, state, vm_reply(0, None, Some(address)));
            }
            FdStep::Done(result) => {
                assert_eq!(result, Ok(()));
                return made;
            }
        }
    }
}

#[test]
fn pieces_past_the_last_address_do_not_fit() {
    let mut vm = machine();
    let slot = vm
        .add_memory_region(region(u64::MAX - 0x3fff, 0x10_0000), MemCacheType::CacheNonCoherent, 0)
        .unwrap();
    let wish = FdMapping { slot, offset: 0x3fff, size: 100, writable: true, page_size: PAGE };
    assert!(vm.fd_mapping_fits(wish));
    assert!(!vm.fd_mapping_fits(FdMapping { offset: 0x4000, ..wish }));
    assert!(vm.fd_mapping_fits(FdMapping { offset: 0x10_0000, ..wish }));
    assert!(vm.fd_mapping_fits(FdMapping { slot: slot + 1, offset: 0x4000, ..wish }));
    assert!(!vm.fd_mapping_fits(FdMapping { size: usize::MAX, ..wish }));
}

#[test]
fn file_pieces_are_mapped_and_replaced() {
    let mut vm = machine();
    let slot = vm
        .add_memory_region(region(0x1_0000_0000, 0x10_0000), MemCacheType::CacheNonCoherent, 0)
        .unwrap();
    let wish = FdMapping { slot, offset: 0x8000, size: 100, writable: true, page_size: PAGE };
    let made = map_file(&mut vm, wish, 0x5000_0000);
    assert_eq!(
        made,
        vec![
            VmRequest::ReadHeader { offset: 100 },
            VmRequest::MapFile { size: PAGE },
            VmRequest::MapMemory {
                host_addr: 0x5000_0000,
                guest_addr: 0x1_0000_8000,
                size: PAGE,
                flags: 3
            },
        ]
    );
    let made = map_file(&mut vm, wish, 0x6000_0000);
    assert_eq!(made[2], VmRequest::Unmap { guest_addr: 0x1_0000_8000, size: PAGE });
    assert_eq!(made[3], VmRequest::Release { host_addr: 0x5000_0000, size: PAGE });
    assert_eq!(
        vm.remove_mapping(slot, 0x8000, 100),
        vec![
            VmRequest::Unmap { guest_addr: 0x1_0000_8000, size: PAGE },
            VmRequest::Release { host_addr: 0x6000_0000, size: PAGE },
        ]
    );
    assert!(vm.remove_mapping(slot, 0x8000, 100).is_empty());
    map_file(&mut vm, wish, 0x6000_0000);
    assert_eq!(vm.remove_memory_region(slot, PAGE).cleanup.len(), 2);
}

#[test]
fn driver_pointer_is_mapped_without_the_file() {
    let mut vm = machine();
    let slot = vm
        .add_memory_region(region(0x1_0000_0000, 0x10_0000), MemCacheType::CacheNonCoherent, 0)
        .unwrap();
    let wish = FdMapping { slot, offset: 0, size: 100, writable: false, page_size: PAGE };
    assert_eq!(VENUS_MAGIC, 0x5645_4E55_5350_5452);
    assert_eq!(
        vm.fd_mapping_resume(
            wish,
            FdState::Header,
            vm_reply(0, Some((VENUS_MAGIC, 0x9_0000)), None)
        ),
        FdStep::Do(
            VmRequest::MapMemory {
                host_addr: 0x9_0000,
                guest_addr: 0x1_0000_0000,
                size: PAGE,
                flags: 1
            },
            FdState::Mapped {
                new: crosvm_macos::hvf::vm::DaxMapping {
                    host_addr: 0x9_0000,
                    guest_addr: 0x1_0000_0000,
                    size: PAGE,
                    mmap_owned: false
                }
            }
        )
    );
    assert_eq!(
        vm.fd_mapping_resume(
            wish,
            FdState::Header,
            vm_reply(0, Some((VENUS_MAGIC, 0x9_0001)), None)
        ),
        FdStep::Do(VmRequest::MapFile { size: PAGE }, FdState::File)
    );
}

#[test]
fn failed_file_mappings() {
    let mut vm = machine();
    let wish = FdMapping { slot: 5, offset: 0, size: 100, writable: false, page_size: PAGE };
    assert_eq!(
        vm.fd_mapping_resume(wish, FdState::File, vm_reply(13, None, None)),
        FdStep::Done(Err(Error::new(13)))
    );
    assert_eq!(
        vm.fd_mapping_resume(wish, FdState::File, vm_reply(0, None, Some(1))),
        FdStep::Done(Err(Error::new(EINVAL)))
    );
    let slot = vm
        .add_memory_region(region(0, 0x4000), MemCacheType::CacheNonCoherent, 0)
        .unwrap();
    let wish = FdMapping { slot, offset: 0x4000, size: 1, writable: false, page_size: PAGE };
    assert_eq!(
        vm.fd_mapping_resume(wish, FdState::File, vm_reply(0, None, Some(0x10_0000))),
        FdStep::Do(
            VmRequest::Release { host_addr: 0x10_0000, size: PAGE },
            FdState::Dropped { error: EINVAL }
        )
    );
}

#[test]
fn events_by_address() {
    let mut vm = machine();
    let addr = IoEventAddress::Mmio(0x1000);
    assert_eq!(vm.handle_io_events(addr), None);
    assert_eq!(vm.register_ioevent(Ok(31), addr), Ok(()));
    assert_eq!(vm.register_ioevent(Ok(32), IoEventAddress::Pio(0x1000)), Ok(()));
    assert_eq!(
        vm.register_ioevent(Err(Error::new(9)), IoEventAddress::Mmio(1)),
        Err(Error::new(9))
    );
    assert_eq!(vm.handle_io_events(addr), Some(31));
    assert_eq!(vm.handle_io_events(IoEventAddress::Pio(0x1000)), Some(32));
    assert_eq!(vm.handle_io_events(IoEventAddress::Mmio(1)), None);
    assert_eq!(vm.unregister_ioevent(addr), Ok(()));
    assert_eq!(vm.handle_io_events(addr), None);
    assert_eq!(vm.handle_io_events(IoEventAddress::Pio(0x1000)), Some(32));
}

#[test]
fn machine_capabilities() {
    let mut vm = machine();
    assert!(HvfVm::new(Err(Error::new(1))).is_err());
    assert!(vm.check_capability(VmCap::ReadOnlyMemoryRegion));
    assert!(!vm.check_capability(VmCap::DirtyLog));
    assert_eq!(vm.get_guest_phys_addr_bits(), 36);
    assert_eq!(vm.create_device(), Err(Error::new(ENOTSUP)));
    assert_eq!(vm.get_pvclock(), Err(Error::new(ENOTSUP)));
    assert_eq!(vm.load_protected_vm_firmware(0, 0), Err(Error::new(ENOTSUP)));
    assert_eq!(vm.msync_memory_region(0, 0, 0), Ok(()));
    assert_eq!(vm.handle_balloon_event(), Ok(()));
    assert_eq!(vm.enable_hypercalls(0, 1), Ok(()));
    assert_eq!(vm.init_arch(0, 0, 0), Ok(()));
}
