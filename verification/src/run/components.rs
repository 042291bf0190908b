//! The parts of a machine, from its configuration.

use std::collections::BTreeMap;

use vstd::prelude::*;

use crate::errno::Error;

verus! {

/// What the machine starts from.
pub enum Executable {
    /// A kernel.
    Kernel(String),
    /// A firmware.
    Bios(String),
    /// A plugin, which is not supported.
    Plugin(String),
}

/// An image that was opened.
#[derive(Clone, Copy, Debug, PartialEq, Eq, Structural)]
pub enum VmImage {
    Kernel(i32),
    Bios(i32),
}

/// Whether the host can see into the machine.
#[derive(Clone, Copy, Debug, PartialEq, Eq, Structural)]
pub enum ProtectionType {
    Protected,
    Unprotected,
}

/// On which host processors the vCPUs run.
pub enum VcpuAffinity {
    /// All of them on these.
    Global(Vec<usize>),
    /// Each on its own.
    PerVcpu(BTreeMap<usize, Vec<usize>>),
}

/// The configuration space of the bus, where it is given.
#[derive(Clone, Copy, Debug, PartialEq, Eq)]
pub struct PciConfig {
    pub cam: Option<(u64, u64)>,
    pub mem: Option<(u64, u64)>,
}

/// The configuration of a machine, as far as its parts depend on it.
pub struct Config {
    pub initrd_path: Option<String>,
    pub executable_path: Option<Executable>,
    /// The size of the memory in mebibytes.
    pub memory: Option<u64>,
    pub vcpu_count: Option<usize>,
    pub vcpu_affinity: Option<VcpuAffinity>,
    /// Whether the guest sees the processors as the host has them.
    pub host_cpu_topology: bool,
    pub cpu_clusters: Vec<Vec<usize>>,
    pub cpu_capacity: BTreeMap<usize, u32>,
    pub no_smt: bool,
    pub params: Vec<String>,
    pub rt_cpus: Vec<usize>,
    pub delay_rt: bool,
    pub pci_config: PciConfig,
}

/// The processors as the host has them.
pub struct HostTopology {
    pub cpu_clusters: Vec<Vec<usize>>,
    pub cpu_capacity: BTreeMap<usize, u32>,
}

/// The parts of a machine.
pub struct VmComponents {
    /// The size of the memory in bytes.
    pub memory_size: u64,
    pub swiotlb: Option<u64>,
    pub fw_cfg_enable: bool,
    pub vcpu_count: usize,
    pub vcpu_affinity: Option<VcpuAffinity>,
    pub cpu_clusters: Vec<Vec<usize>>,
    pub cpu_capacity: BTreeMap<usize, u32>,
    pub no_smt: bool,
    pub hugepages: bool,
    pub mte: bool,
    pub protection_type: ProtectionType,
    pub force_disable_readonly_mem: bool,
    pub vm_image: VmImage,
    pub pflash_block_size: u32,
    pub initrd_image: Option<i32>,
    pub extra_kernel_params: Vec<String>,
    pub rt_cpus: Vec<usize>,
    pub delay_rt: bool,
    pub no_i8042: bool,
    pub no_rtc: bool,
    pub host_cpu_topology: bool,
    pub itmt: bool,
    pub pci_config: PciConfig,
    pub boot_cpu: usize,
    pub smccc_trng: bool,
}

/// Why the parts could not be put together.
#[derive(Clone, Copy, Debug, PartialEq, Eq, Structural)]
pub enum SetupError {
    /// The initial file system could not be opened.
    OpenInitrd(Error),
    /// The kernel could not be opened.
    OpenKernel(Error),
    /// The firmware could not be opened.
    OpenBios(Error),
    /// There is nothing to start from.
    NoExecutable,
    /// The host does not tell its processors.
    HostTopology(Error),
    /// The memory is too large.
    MemoryTooLarge,
}

/// The size of the memory where none is given, in mebibytes.
pub const DEFAULT_MEMORY: u64 = 256;

/// The size of the memory in bytes.
pub open spec fn memory_bytes(memory: Option<u64>) -> int {
    match memory {
        Some(n) => n * 0x10_0000,
        None => DEFAULT_MEMORY * 0x10_0000,
    }
}

/// The first thing that keeps the parts from being put together, if anything
/// does. The initial file system is opened first, then the image; then the host
/// is asked for its processors; the size of the memory is looked at last.
pub open spec fn setup_failure(
    cfg: Config,
    initrd: Result<i32, Error>,
    image: Result<i32, Error>,
    topology: Result<HostTopology, Error>,
) -> Option<SetupError> {
    if cfg.initrd_path is Some && initrd is Err {
        Some(SetupError::OpenInitrd(initrd->Err_0))
    } else if !(cfg.executable_path matches Some(Executable::Kernel(_))
        || cfg.executable_path matches Some(Executable::Bios(_))) {
        Some(SetupError::NoExecutable)
    } else if image is Err {
        if cfg.executable_path matches Some(Executable::Kernel(_)) {
            Some(SetupError::OpenKernel(image->Err_0))
        } else {
            Some(SetupError::OpenBios(image->Err_0))
        }
    } else if cfg.host_cpu_topology && topology is Err {
        Some(SetupError::HostTopology(topology->Err_0))
    } else if memory_bytes(cfg.memory) > u64::MAX {
        Some(SetupError::MemoryTooLarge)
    } else {
        None
    }
}

/// The number of vCPUs: one unless it is configured.
pub open spec fn vcpus_of(vcpu_count: Option<usize>) -> usize {
    match vcpu_count {
        Some(n) => n,
        None => 1,
    }
}

/// The parts of a machine, where nothing keeps them from being put together.
pub open spec fn components_of(
    cfg: Config,
    initrd: Result<i32, Error>,
    image: Result<i32, Error>,
    topology: Result<HostTopology, Error>,
) -> VmComponents {
    VmComponents {
        memory_size: memory_bytes(cfg.memory) as u64,
        swiotlb: None,
        fw_cfg_enable: false,
        vcpu_count: vcpus_of(cfg.vcpu_count),
        vcpu_affinity: cfg.vcpu_affinity,
        cpu_clusters: if cfg.host_cpu_topology {
            topology->Ok_0.cpu_clusters
        } else {
            cfg.cpu_clusters
        },
        cpu_capacity: if cfg.host_cpu_topology {
            topology->Ok_0.cpu_capacity
        } else {
            cfg.cpu_capacity
        },
        no_smt: cfg.no_smt,
        hugepages: false,
        mte: false,
        protection_type: ProtectionType::Unprotected,
        force_disable_readonly_mem: false,
        vm_image: if cfg.executable_path matches Some(Executable::Kernel(_)) {
            VmImage::Kernel(image->Ok_0)
        } else {
            VmImage::Bios(image->Ok_0)
        },
        pflash_block_size: 0,
        initrd_image: if cfg.initrd_path is Some {
            Some(initrd->Ok_0)
        } else {
            None
        },
        extra_kernel_params: cfg.params,
        rt_cpus: cfg.rt_cpus,
        delay_rt: cfg.delay_rt,
        no_i8042: true,
        no_rtc: false,
        host_cpu_topology: cfg.host_cpu_topology,
        itmt: false,
        pci_config: cfg.pci_config,
        boot_cpu: 0,
        smccc_trng: false,
    }
}

/// Puts the parts of a machine together. `initrd` is what opening the initial
/// file system gave and counts only if the configuration names one; `image` is
/// what opening the kernel or the firmware gave; `topology` counts only if the
/// guest is to see the host's processors.
pub fn setup_vm_components(
    cfg: Config,
    initrd: Result<i32, Error>,
    image: Result<i32, Error>,
    topology: Result<HostTopology, Error>,
) -> (r: Result<VmComponents, SetupError>)
    ensures
        match setup_failure(cfg, initrd, image, topology) {
            Some(e) => r == Err::<VmComponents, SetupError>(e),
            None => r == Ok::<VmComponents, SetupError>(
                components_of(cfg, initrd, image, topology),
            ),
        },
{
    let initrd_image: Option<i32> = if cfg.initrd_path.is_some() {
        match initrd {
            Ok(file) => Some(file),
            Err(e) => {
                return Err(SetupError::OpenInitrd(e));
            },
        }
    } else {
        None
    };
    let vm_image: VmImage = match &cfg.executable_path {
        Some(Executable::Kernel(_)) => match image {
            Ok(file) => VmImage::Kernel(file),
            Err(e) => {
                return Err(SetupError::OpenKernel(e));
            },
        },
        Some(Executable::Bios(_)) => match image {
            Ok(file) => VmImage::Bios(file),
            Err(e) => {
                return Err(SetupError::OpenBios(e));
            },
        },
        _ => {
            return Err(SetupError::NoExecutable);
        },
    };
    let (cpu_clusters, cpu_capacity): (Vec<Vec<usize>>, BTreeMap<usize, u32>) =
        if cfg.host_cpu_topology {
        match topology {
            Ok(host) => (host.cpu_clusters, host.cpu_capacity),
            Err(e) => {
                return Err(SetupError::HostTopology(e));
            },
        }
    } else {
        (cfg.cpu_clusters, cfg.cpu_capacity)
    };
    let mebibytes: u64 = match cfg.memory {
        Some(n) => n,
        None => DEFAULT_MEMORY,
    };
    let memory_size: u64 = match mebibytes.checked_mul(0x10_0000) {
        Some(n) => n,
        None => {
            return Err(SetupError::MemoryTooLarge);
        },
    };
    let vcpu_count: usize = match cfg.vcpu_count {
        Some(n) => n,
        None => 1,
    };
    Ok(
        VmComponents {
            memory_size,
            swiotlb: None,
            fw_cfg_enable: false,
            vcpu_count,
            vcpu_affinity: cfg.vcpu_affinity,
            cpu_clusters,
            cpu_capacity,
            no_smt: cfg.no_smt,
            hugepages: false,
            mte: false,
            protection_type: ProtectionType::Unprotected,
            force_disable_readonly_mem: false,
            vm_image,
            pflash_block_size: 0,
            initrd_image,
            extra_kernel_params: cfg.params,
            rt_cpus: cfg.rt_cpus,
            delay_rt: cfg.delay_rt,
            no_i8042: true,
            no_rtc: false,
            host_cpu_topology: cfg.host_cpu_topology,
            itmt: false,
            pci_config: cfg.pci_config,
            boot_cpu: 0,
            smccc_trng: false,
        },
    )
}

/// The parts of a machine are what was configured: its memory in bytes, 256 mebibytes
/// unless a size is given; one vCPU unless a number is; the processors as the host has
/// them if the guest is to see that, else as configured; a kernel or a firmware, whichever
/// was named, and the initial file system if one was. The machine is not protected.
pub proof fn law_components_follow_configuration(
    cfg: Config,
    initrd: Result<i32, Error>,
    image: Result<i32, Error>,
    topology: Result<HostTopology, Error>,
)
    requires
        setup_failure(cfg, initrd, image, topology) is None,
    ensures
        ({
            let c = components_of(cfg, initrd, image, topology);
            &&& c.memory_size == 1048576 * (if cfg.memory is Some {
                cfg.memory->0 as int
            } else {
                256
            })
            &&& c.vcpu_count == (if cfg.vcpu_count is Some {
                cfg.vcpu_count->0
            } else {
                1
            })
            &&& cfg.host_cpu_topology ==> topology is Ok && c.cpu_clusters
                == topology->Ok_0.cpu_clusters && c.cpu_capacity == topology->Ok_0.cpu_capacity
            &&& !cfg.host_cpu_topology ==> c.cpu_clusters == cfg.cpu_clusters && c.cpu_capacity
                == cfg.cpu_capacity
            &&& image is Ok
            &&& cfg.executable_path matches Some(Executable::Kernel(_)) ==> c.vm_image
                == VmImage::Kernel(image->Ok_0)
            &&& cfg.executable_path matches Some(Executable::Bios(_)) ==> c.vm_image
                == VmImage::Bios(image->Ok_0)
            &&& cfg.executable_path is Some && !(cfg.executable_path->0 is Plugin)
            &&& c.initrd_image is Some <==> cfg.initrd_path is Some
            &&& c.initrd_image matches Some(file) ==> initrd == Ok::<i32, Error>(file)
            &&& c.vcpu_affinity == cfg.vcpu_affinity
            &&& c.extra_kernel_params == cfg.params
            &&& c.rt_cpus == cfg.rt_cpus && c.delay_rt == cfg.delay_rt && c.no_smt == cfg.no_smt
            &&& c.pci_config == cfg.pci_config && c.host_cpu_topology == cfg.host_cpu_topology
            &&& c.protection_type is Unprotected && c.boot_cpu == 0 && c.no_i8042
            &&& c.swiotlb is None && !c.fw_cfg_enable && !c.hugepages && !c.mte
            &&& !c.force_disable_readonly_mem && c.pflash_block_size == 0
            &&& !c.no_rtc && !c.itmt && !c.smccc_trng
        }),
{
}

/// Why the parts of a machine cannot be put together: a file that is needed cannot be
/// opened, there is nothing to start from, the host does not tell its processors where
/// that is asked for, or the memory has more bytes than 64 bits count. What comes first of
/// these counts, and what is not asked for cannot fail.
pub proof fn law_setup_fails_for_a_reason(
    cfg: Config,
    initrd: Result<i32, Error>,
    image: Result<i32, Error>,
    topology: Result<HostTopology, Error>,
)
    ensures
        ({
            let kernel = cfg.executable_path matches Some(Executable::Kernel(_));
            let bios = cfg.executable_path matches Some(Executable::Bios(_));
            let too_large = cfg.memory is Some && cfg.memory->0 * 1048576
                > 0xffff_ffff_ffff_ffff;
            let failure = setup_failure(cfg, initrd, image, topology);
            &&& failure is None <==> (cfg.initrd_path is Some ==> initrd is Ok) && (kernel || bios)
                && image is Ok && (cfg.host_cpu_topology ==> topology is Ok) && !too_large
            &&& cfg.initrd_path is Some && initrd is Err <==> failure is Some && failure->0
                is OpenInitrd
            &&& !kernel && !bios ==> failure->0 is OpenInitrd || failure->0 is NoExecutable
            &&& failure is Some && (failure->0 is HostTopology || failure->0 is MemoryTooLarge)
                ==> image is Ok
            &&& failure is Some && failure->0 is MemoryTooLarge && cfg.host_cpu_topology ==> topology
                is Ok
            &&& match failure {
                None => true,
                Some(SetupError::OpenInitrd(e)) => cfg.initrd_path is Some && initrd == Err::<
                    i32,
                    Error,
                >(e),
                Some(SetupError::NoExecutable) => !kernel && !bios,
                Some(SetupError::OpenKernel(e)) => kernel && image == Err::<i32, Error>(e),
                Some(SetupError::OpenBios(e)) => bios && image == Err::<i32, Error>(e),
                Some(SetupError::HostTopology(e)) => cfg.host_cpu_topology && topology == Err::<
                    HostTopology,
                    Error,
                >(e),
                Some(SetupError::MemoryTooLarge) => too_large,
            }
        }),
{
}

} // verus!
