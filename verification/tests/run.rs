use std::collections::BTreeMap;

use crosvm_macos::errno::Error;
use crosvm_macos::hvf::vcpu::{VcpuExit, VcpuRegAArch64};
use crosvm_macos::hvf::vm::IoEventAddress;
use crosvm_macos::irqchip::hvf_gic::{DeviceId, HvfGicChip, IrqEventSource};
use crosvm_macos::psci::{CpuOnResult, PSCI_EXIT_NONE, PSCI_EXIT_RESET, PSCI_EXIT_SHUTDOWN};
use crosvm_macos::run::components::{
    setup_vm_components, Config, Executable, HostTopology, PciConfig, SetupError, VmImage,
};
use crosvm_macos::run::handlers::{
    after_wait_request, initial_waits, irq_handler_step, irq_setup, msi_handler_continues,
    refresh_waits, IrqHandlerEvent, IrqHandlerRequest, IrqHandlerStep, IrqSetup, WaitRequest,
};
use crosvm_macos::run::plan::{
    run_config, Part, RunNext, RunStage, StopNext, StopStage, VcpuPart,
};
use crosvm_macos::run::settings::{
    enable_earlycon, guest_vsock, share_settings, CachePolicy, SerialHardware, SerialPort,
};
use crosvm_macos::run::vcpus::{
    after_thread_stage, await_start, exit_asked_for, mmio_event, mpidr_value,
    secondary_registers, thread_result, vcpu_loop, LoopEvent, LoopStep, StartStep, ThreadNext,
    ThreadStage, VcpuSet, SECONDARY_PSTATE,
};
use crosvm_macos::run::{
    gic_windows, merge_exit_states, net_features, net_mtu, share_path, BusRange, ExitState,
};

fn config() -> Config {
    Config {
        initrd_path: None,
        executable_path: Some(Executable::Kernel("kernel".to_string())),
        memory: None,
        vcpu_count: None,
        vcpu_affinity: None,
        host_cpu_topology: false,
        cpu_clusters: vec![vec![0, 1]],
        cpu_capacity: BTreeMap::new(),
        no_smt: true,
        params: vec!["quiet".to_string()],
        rt_cpus: vec![1],
        delay_rt: false,
        pci_config: PciConfig { cam: None, mem: None },
    }
}

fn topology() -> Result<HostTopology, Error> {
    Ok(HostTopology { cpu_clusters: vec![vec![3]], cpu_capacity: BTreeMap::new() })
}

#[test]
fn components_of_a_machine() {
    let parts = setup_vm_components(config(), Ok(3), Ok(4), topology()).unwrap();
    assert_eq!(parts.memory_size, 256 * 1024 * 1024);
    assert_eq!(parts.vcpu_count, 1);
    assert!(matches!(parts.vm_image, VmImage::Kernel(4)));
    assert_eq!(parts.initrd_image, None);
    assert_eq!(parts.cpu_clusters, vec![vec![0, 1]]);
    assert_eq!(parts.extra_kernel_params, vec!["quiet".to_string()]);
    assert!(parts.no_smt && parts.no_i8042 && !parts.no_rtc);

    let mut cfg = config();
    cfg.initrd_path = Some("initrd".to_string());
    cfg.executable_path = Some(Executable::Bios("bios".to_string()));
    cfg.host_cpu_topology = true;
    cfg.memory = Some(2);
    cfg.vcpu_count = Some(6);
    let parts = setup_vm_components(cfg, Ok(3), Ok(4), topology()).unwrap();
    assert_eq!(parts.memory_size, 2 * 1024 * 1024);
    assert_eq!(parts.vcpu_count, 6);
    assert!(matches!(parts.vm_image, VmImage::Bios(4)));
    assert_eq!(parts.initrd_image, Some(3));
    assert_eq!(parts.cpu_clusters, vec![vec![3]]);
}

#[test]
fn components_that_are_missing() {
    let e = Error::new(2);
    let mut cfg = config();
    cfg.initrd_path = Some("initrd".to_string());
    assert_eq!(
        setup_vm_components(cfg, Err(e), Err(e), Err(e)).err(),
        Some(SetupError::OpenInitrd(e))
    );
    assert_eq!(
        setup_vm_components(config(), Ok(3), Err(e), topology()).err(),
        Some(SetupError::OpenKernel(e))
    );
    let mut cfg = config();
    cfg.executable_path = Some(Executable::Bios("bios".to_string()));
    assert_eq!(
        setup_vm_components(cfg, Ok(3), Err(e), topology()).err(),
        Some(SetupError::OpenBios(e))
    );
    let mut cfg = config();
    cfg.executable_path = None;
    assert_eq!(
        setup_vm_components(cfg, Ok(3), Ok(4), topology()).err(),
        Some(SetupError::NoExecutable)
    );
    let mut cfg = config();
    cfg.host_cpu_topology = true;
    assert_eq!(
        setup_vm_components(cfg, Ok(3), Ok(4), Err(e)).err(),
        Some(SetupError::HostTopology(e))
    );
    let mut cfg = config();
    cfg.memory = Some(1 << 44);
    assert_eq!(
        setup_vm_components(cfg, Ok(3), Ok(4), topology()).err(),
        Some(SetupError::MemoryTooLarge)
    );
}

#[test]
fn stages_in_order() {
    let mut cfg = config();
    cfg.vcpu_count = Some(2);
    let plan = run_config(&cfg, 1, false, true, true, true);
    assert_eq!(plan.vcpus, 2);
    let mut stages = Vec::new();
    let mut next = plan.first();
    while let RunNext::Do(stage) = next {
        stages.push(stage);
        next = plan.after(stage, true);
    }
    assert_eq!(next, RunNext::Join);
    assert_eq!(stages[0], RunStage::Components);
    assert_eq!(stages.last(), Some(&RunStage::Vcpu(1, VcpuPart::Spawn)));
    let place = |s: RunStage| stages.iter().position(|x| *x == s).unwrap();
    assert!(place(RunStage::Disk(0, Part::PciDevice)) < place(RunStage::Net));
    assert!(place(RunStage::Net) < place(RunStage::Vsock(Part::Device)));
    assert!(place(RunStage::Gpu(Part::PciDevice)) < place(RunStage::BuildVm));
    assert!(!stages.contains(&RunStage::GicWindows));
    assert!(place(RunStage::MsiHandler) < place(RunStage::IrqHandler));
}

#[test]
fn optional_stages_may_fail() {
    let plan = run_config(&config(), 0, true, false, false, false);
    assert_eq!(plan.vcpus, 1);
    assert!(!plan.net);
    assert_eq!(
        plan.after(RunStage::Vsock(Part::Device), false),
        RunNext::Do(RunStage::BuildVm)
    );
    assert_eq!(plan.after(RunStage::BuildVm, true), RunNext::Do(RunStage::GicWindows));
    assert_eq!(
        plan.after(RunStage::CreateVm, false),
        RunNext::Failed(RunStage::CreateVm)
    );
    assert_eq!(
        plan.after(RunStage::Vsock(Part::MsiTube), false),
        RunNext::Failed(RunStage::Vsock(Part::MsiTube))
    );
}

#[test]
fn machines_are_taken_apart() {
    for disks in [0, 2] {
        let plan = run_config(&config(), disks, true, false, false, true);
        let mut stages = Vec::new();
        let mut next = plan.first_stop();
        while let StopNext::Do(stage) = next {
            stages.push(stage);
            next = plan.after_stop_stage(ExitState::Reset, stage);
        }
        assert_eq!(next, StopNext::Exit(ExitState::Reset));
        assert_eq!(
            stages[..4],
            [
                StopStage::CanonTerminal,
                StopStage::TellIrqHandler,
                StopStage::JoinIrqHandler,
                StopStage::CloseIoeventTubes,
            ]
        );
        assert_eq!(stages.len(), if disks > 0 { 5 } else { 4 });
    }
    let plan = run_config(&config(), 0, true, false, false, true);
    assert_eq!(
        plan.after(RunStage::RawTerminal, false),
        RunNext::Do(RunStage::Vcpu(0, VcpuPart::CloneVm))
    );
}

#[test]
fn exit_states_are_merged() {
    assert_eq!(merge_exit_states(&vec![]), ExitState::Stop);
    assert_eq!(
        merge_exit_states(&vec![Some(ExitState::Stop), Some(ExitState::Reset)]),
        ExitState::Reset
    );
    assert_eq!(
        merge_exit_states(&vec![Some(ExitState::Crash), Some(ExitState::Reset)]),
        ExitState::Crash
    );
}

#[test]
fn windows_of_the_emulated_controller() {
    let ranges = gic_windows(2);
    assert_eq!(ranges.len(), 3);
    assert_eq!(ranges[0], BusRange { base: 0x3fff_0000, len: 0x1_0000 });
    assert_eq!(ranges[1].len, 0x2_0000);
    assert_eq!(ranges[2].base, ranges[1].base + 0x2_0000);
}

#[test]
fn network_defaults() {
    assert_eq!(net_features(1 << 32, false), (1 << 32) | (1 << 3) | (1 << 17));
    assert_eq!(net_features(0, true), (1 << 3) | (1 << 5) | (1 << 17));
    assert_eq!(net_mtu(None), 1500);
    assert_eq!(net_mtu(Some(9000)), 9000);
}

#[test]
fn shared_directory() {
    assert_eq!(share_path(None, None), "/private/tmp/aetheria-share");
    assert_eq!(share_path(Some("/a".to_string()), None), "/a");
    assert_eq!(share_path(Some("/a".to_string()), Some("/b".to_string())), "/b");
}

#[test]
fn vcpus_are_started_once() {
    let mut set = VcpuSet::new(2);
    set.set_handle(0, 10);
    assert_eq!(set.cpu_on(1, 0x8000, 7), CpuOnResult::Success);
    assert_eq!(set.signals[1], Some((0x8000, 7)));
    set.set_running(1, true);
    assert_eq!(set.cpu_on(1, 0x9000, 8), CpuOnResult::AlreadyOn);
    assert_eq!(set.signals[1], Some((0x8000, 7)));
    assert_eq!(set.cpu_on(2, 0, 0), CpuOnResult::InvalidParameters);
    assert_eq!(set.system_off(), vec![10]);
}

#[test]
fn secondary_vcpus_wait_for_the_guest() {
    assert_eq!(await_start(None, PSCI_EXIT_NONE), StartStep::Wait);
    assert_eq!(await_start(None, PSCI_EXIT_SHUTDOWN), StartStep::Stop);
    assert_eq!(
        await_start(Some((1, 2)), PSCI_EXIT_NONE),
        StartStep::Start { entry_point: 1, context_id: 2 }
    );
    assert_eq!(
        secondary_registers(0x8000, 7),
        vec![
            (VcpuRegAArch64::Pc, 0x8000),
            (VcpuRegAArch64::X(0), 7),
            (VcpuRegAArch64::Pstate, SECONDARY_PSTATE),
        ]
    );
    assert_eq!(SECONDARY_PSTATE, 0x3c5);
    assert_eq!(mpidr_value(3), 0x8000_0003);
    assert_eq!(
        after_thread_stage(1, ThreadStage::RecordHandle, true),
        ThreadNext::Do(ThreadStage::AwaitStart)
    );
    assert_eq!(
        after_thread_stage(0, ThreadStage::RecordHandle, true),
        ThreadNext::Do(ThreadStage::Run)
    );
    assert_eq!(
        after_thread_stage(0, ThreadStage::Create, false),
        ThreadNext::End(ExitState::Crash)
    );
    assert_eq!(thread_result(Ok(ExitState::Reset)), ExitState::Reset);
    assert_eq!(thread_result(Err(Error::new(1))), ExitState::Crash);
}

#[test]
fn vcpu_loop_steps() {
    let e = Error::new(4);
    assert_eq!(vcpu_loop(LoopEvent::Started, PSCI_EXIT_NONE), LoopStep::Inject);
    assert_eq!(vcpu_loop(LoopEvent::Injected(Ok(())), PSCI_EXIT_NONE), LoopStep::Run);
    assert_eq!(
        vcpu_loop(LoopEvent::Exited(Ok(VcpuExit::Mmio)), PSCI_EXIT_NONE),
        LoopStep::HandleMmio
    );
    assert_eq!(
        vcpu_loop(LoopEvent::Exited(Ok(VcpuExit::Hypercall)), PSCI_EXIT_NONE),
        LoopStep::HandleHypercall
    );
    assert_eq!(
        vcpu_loop(LoopEvent::HypercallHandled, PSCI_EXIT_SHUTDOWN),
        LoopStep::Leave(Ok(ExitState::Stop))
    );
    assert_eq!(
        vcpu_loop(LoopEvent::HypercallHandled, PSCI_EXIT_RESET),
        LoopStep::Leave(Ok(ExitState::Reset))
    );
    assert_eq!(
        vcpu_loop(LoopEvent::HypercallHandled, PSCI_EXIT_NONE),
        LoopStep::Inject
    );
    assert_eq!(
        vcpu_loop(LoopEvent::Exited(Ok(VcpuExit::SystemEventCrash)), PSCI_EXIT_NONE),
        LoopStep::Leave(Ok(ExitState::Crash))
    );
    assert!(matches!(
        vcpu_loop(LoopEvent::Exited(Err(e)), PSCI_EXIT_NONE),
        LoopStep::Leave(_)
    ));
    assert_eq!(
        vcpu_loop(LoopEvent::Exited(Ok(VcpuExit::Canceled)), PSCI_EXIT_RESET),
        LoopStep::Leave(Ok(ExitState::Reset))
    );
    assert_eq!(exit_asked_for(PSCI_EXIT_NONE), None);
    assert_eq!(mmio_event(0x100, true), Some(IoEventAddress::Mmio(0x100)));
    assert_eq!(mmio_event(0x100, false), None);
}

fn irq_source() -> IrqEventSource {
    IrqEventSource {
        device_id: DeviceId::PlatformDeviceId(1),
        queue_id: 0,
        device_name: "serial".to_string(),
    }
}

#[test]
fn interrupt_handler_steps() {
    assert_eq!(irq_handler_step(IrqHandlerEvent::Irq(3)), IrqHandlerStep::Service(3));
    assert_eq!(
        irq_handler_step(IrqHandlerEvent::Control(Some(IrqHandlerRequest::Exit))),
        IrqHandlerStep::Stop
    );
    assert_eq!(
        irq_handler_step(IrqHandlerEvent::Control(Some(
            IrqHandlerRequest::RefreshIrqEventTokens
        ))),
        IrqHandlerStep::Refresh
    );
    assert_eq!(
        irq_handler_step(IrqHandlerEvent::Control(Some(IrqHandlerRequest::Other))),
        IrqHandlerStep::Ignore
    );
    let initial = vec![(0, irq_source(), 5)];
    let present = vec![(0, irq_source(), 6), (1, irq_source(), 7)];
    assert_eq!(initial_waits(&initial), vec![WaitRequest::Add { event: 5, index: 0 }]);
    assert_eq!(
        refresh_waits(&initial, &present),
        vec![
            WaitRequest::Delete { event: 5 },
            WaitRequest::Add { event: 6, index: 0 },
            WaitRequest::Add { event: 7, index: 1 },
        ]
    );
    assert!(msi_handler_continues(true, true));
    assert!(!msi_handler_continues(false, true));
}

#[test]
fn only_a_failing_add_ends_the_interrupt_thread() {
    let add = WaitRequest::Add { event: 6, index: 0 };
    let delete = WaitRequest::Delete { event: 5 };
    let failed = Err(Error { number: 9 });
    assert_eq!(after_wait_request(add, Ok(())), Ok(()));
    assert_eq!(after_wait_request(add, failed), failed);
    assert_eq!(after_wait_request(delete, failed), Ok(()));
    let refresh = [(delete, failed), (add, Ok(())), (add, failed), (add, Ok(()))];
    let made = refresh
        .iter()
        .take_while(|(request, result)| after_wait_request(*request, *result).is_ok())
        .count();
    assert_eq!(made, 2);
}

#[test]
fn device_settings() {
    let port = |hardware, num| SerialPort { hardware, num, earlycon: false };
    let mut ports = vec![
        port(SerialHardware::Other, 1),
        port(SerialHardware::Serial, 2),
        port(SerialHardware::Serial, 1),
    ];
    enable_earlycon(&mut ports);
    assert_eq!(ports.iter().map(|p| p.earlycon).collect::<Vec<_>>(), vec![false, false, true]);
    assert_eq!((ports[2].hardware, ports[2].num), (SerialHardware::Serial, 1));
    let device = guest_vsock(0x1_0000_0000);
    assert_eq!((device.guest_cid, device.features), (3, 0x1_0000_0000));
    let share = share_settings();
    assert_eq!(share.tag, "host_share");
    assert_eq!((share.cache_policy, share.num_workers), (CachePolicy::Always, 1));
}

#[test]
fn interrupt_setup_requests() {
    let mut chip = HvfGicChip::new(1).unwrap();
    let event = IrqSetup::Event { irq: 9, source: irq_source() };
    assert_eq!(irq_setup(&mut chip, event, true, Ok(5)), Ok(()));
    assert_eq!(chip.irq_events.len(), 1);
    assert_eq!(chip.irq_events[0].gsi, 9);
    assert_eq!(irq_setup(&mut chip, IrqSetup::Route, true, Ok(0)), Ok(()));
    assert_eq!(irq_setup(&mut chip, IrqSetup::UnRegister { irq: 9 }, true, Ok(0)), Ok(()));
    assert!(chip.irq_events.is_empty());
}
