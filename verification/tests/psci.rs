use crosvm_macos::hypercall::HypercallAbi;
use crosvm_macos::psci::{
    CpuOnResult, PsciDevice, PsciError, PsciStep, PSCI_AFFINITY_INFO_64, PSCI_CPU_OFF, PSCI_CPU_ON_64,
    PSCI_EXIT_NONE, PSCI_EXIT_RESET, PSCI_EXIT_SHUTDOWN, PSCI_FEATURES, PSCI_MIGRATE_INFO_TYPE,
    PSCI_SYSTEM_OFF, PSCI_SYSTEM_RESET, PSCI_VERSION,
};

type Device = PsciDevice<fn(u64, u64, u64) -> CpuOnResult, fn()>;

fn start(target: u64, _entry: u64, _context: u64) -> CpuOnResult {
    if target == 1 {
        CpuOnResult::Success
    } else if target == 2 {
        CpuOnResult::AlreadyOn
    } else {
        CpuOnResult::InvalidParameters
    }
}

fn off() {}

fn call(device: &mut Device, id: u32, args: [u64; 3]) -> u64 {
    let mut abi = HypercallAbi::new(id as u64, args.to_vec(), vec![u64::MAX, 0, 0, 0]);
    device.handle_hypercall(&mut abi).unwrap();
    abi.get_results()[0]
}

#[test]
fn answers() {
    let mut device: Device = PsciDevice::new(PSCI_EXIT_NONE);
    assert_eq!(device.debug_label(), "PsciDevice");
    assert_eq!(call(&mut device, PSCI_VERSION, [0; 3]), 0x1_0000);
    assert_eq!(call(&mut device, PSCI_MIGRATE_INFO_TYPE, [0; 3]), 2);
    assert_eq!(call(&mut device, PSCI_AFFINITY_INFO_64, [0; 3]), 0xffff_ffff);
    assert_eq!(call(&mut device, PSCI_FEATURES, [PSCI_CPU_ON_64 as u64, 0, 0]), 0);
    assert_eq!(call(&mut device, PSCI_FEATURES, [0x1234, 0, 0]) as u32 as i32, -1);
    assert_eq!(call(&mut device, PSCI_CPU_OFF, [0; 3]), 0);
}

#[test]
fn starting_processors() {
    let mut device: Device = PsciDevice::new(PSCI_EXIT_NONE);
    assert_eq!(call(&mut device, PSCI_CPU_ON_64, [1, 0, 0]) as u32 as i32, -1);
    let mut device = device.with_cpu_on_callback(start);
    assert_eq!(call(&mut device, PSCI_CPU_ON_64, [1, 0, 0]), 0);
    assert_eq!(call(&mut device, PSCI_CPU_ON_64, [2, 0, 0]) as u32 as i32, -4);
    assert_eq!(call(&mut device, PSCI_CPU_ON_64, [3, 0, 0]) as u32 as i32, -2);
}

#[test]
fn guest_asks_to_end() {
    let mut device: Device = PsciDevice::new(PSCI_EXIT_NONE);
    device = device.with_system_off_callback(off);
    call(&mut device, PSCI_SYSTEM_OFF, [0; 3]);
    assert_eq!(device.exit_request, PSCI_EXIT_SHUTDOWN);
    call(&mut device, PSCI_SYSTEM_RESET, [0; 3]);
    assert_eq!(device.exit_request, PSCI_EXIT_RESET);
}

fn never(_target: u64, _entry: u64, _context: u64) -> CpuOnResult {
    panic!("this callback was replaced")
}

#[test]
fn last_callback_counts() {
    let device: Device = PsciDevice::new(PSCI_EXIT_NONE);
    let mut device = device
        .with_system_off_callback(off)
        .with_cpu_on_callback(never)
        .with_cpu_on_callback(start);
    assert_eq!(call(&mut device, PSCI_CPU_ON_64, [1, 0, 0]), 0);
    call(&mut device, PSCI_SYSTEM_OFF, [0; 3]);
    assert_eq!(device.exit_request, PSCI_EXIT_SHUTDOWN);
}

#[test]
fn calls_step_by_step() {
    let abi = HypercallAbi::new(PSCI_SYSTEM_RESET as u64, vec![], vec![0; 4]);
    let first = Device::first(&abi, true);
    assert_eq!(first, PsciStep::StoreExit(PSCI_EXIT_RESET));
    let second = Device::after(first, CpuOnResult::Success);
    assert_eq!(second, PsciStep::TellStop);
    assert_eq!(Device::after(second, CpuOnResult::Success), PsciStep::Reply(0));
    let abi = HypercallAbi::new(PSCI_CPU_ON_64 as u64, vec![1, 2, 3], vec![0; 4]);
    let first = Device::first(&abi, true);
    assert_eq!(
        first,
        PsciStep::StartCpu { target_cpu: 1, entry_point: 2, context_id: 3 }
    );
    assert_eq!(Device::after(first, CpuOnResult::AlreadyOn), PsciStep::Reply(0xffff_fffc));
}

#[test]
fn unknown_calls_are_refused() {
    let mut device: Device = PsciDevice::new(PSCI_EXIT_NONE);
    let mut abi = HypercallAbi::new(0x8400_0019, vec![0; 3], vec![5, 0, 0, 0]);
    assert_eq!(
        device.handle_hypercall(&mut abi),
        Err(PsciError::UnknownFunction(0x8400_0019))
    );
    assert_eq!(abi.get_results()[0], 5);
}

#[test]
fn function_ranges() {
    let narrow = Device::hvc32_fid_range();
    assert!(narrow.contains(&PSCI_VERSION) && narrow.contains(&PSCI_FEATURES));
    let wide = Device::hvc64_fid_range();
    assert!(wide.contains(&PSCI_CPU_ON_64));
}
