//! The order in which a machine is put together, and what may fail on the way.

use vstd::prelude::*;

use crate::run::components::Config;
use crate::run::ExitState;

verus! {

/// What the order depends on.
#[derive(Clone, Copy, Debug, PartialEq, Eq, Structural)]
pub struct RunPlan {
    /// The number of disks.
    pub disks: usize,
    /// Whether a network device is wanted.
    pub net: bool,
    /// Whether there is a directory to share.
    pub share: bool,
    /// Whether there is a graphics device.
    pub gpu: bool,
    /// Whether the framework has an interrupt controller of its own.
    pub gic_available: bool,
    /// The number of vCPUs.
    pub vcpus: usize,
}

/// A step in making a device.
#[derive(Clone, Copy, Debug, PartialEq, Eq, Structural)]
pub enum Part {
    /// Open what the device is backed by, or make its control channel.
    Backing,
    /// Make the device.
    Device,
    /// Make the channel for its interrupts.
    MsiTube,
    /// Make the channel for its events.
    IoeventTube,
    /// Make the channel to the machine.
    VmTube,
    /// Clone the channel for events of the machine.
    EventClone,
    /// Make the channel for shared memory.
    ShmemTube,
    /// Put the device on the bus.
    PciDevice,
}

/// A step in starting a vCPU.
#[derive(Clone, Copy, Debug, PartialEq, Eq, Structural)]
pub enum VcpuPart {
    /// Clone the machine for its thread.
    CloneVm,
    /// Clone the interrupt controller for its thread.
    CloneIrqChip,
    /// Start its thread.
    Spawn,
}

/// A stage of putting a machine together.
#[derive(Clone, Copy, Debug, PartialEq, Eq, Structural)]
pub enum RunStage {
    Components,
    Hypervisor,
    MemoryLayout,
    GuestMemory,
    CreateVm,
    Allocator,
    EventTube,
    IrqChip,
    Disk(usize, Part),
    Net,
    Vsock(Part),
    Share(Part),
    Gpu(Part),
    BuildVm,
    /// Put the emulated interrupt controller on the bus.
    GicWindows,
    FinalizeDevices,
    FinalizeIrqChip,
    /// Clone the interrupt controller for the thread that hands out interrupts.
    MsiIrqChip,
    /// Start the thread that hands out interrupts.
    MsiHandler,
    /// Make the channel to the thread that serves interrupts.
    IrqControlTube,
    /// Clone the interrupt controller for that thread.
    IrqHandlerIrqChip,
    /// Start the thread that serves interrupts.
    IrqHandler,
    /// Put the power interface on the bus of hypercalls.
    Psci,
    /// Take the input of the terminal as it comes.
    RawTerminal,
    Vcpu(usize, VcpuPart),
}

/// What follows a stage.
#[derive(Clone, Copy, Debug, PartialEq, Eq, Structural)]
pub enum RunNext {
    /// The next stage.
    Do(RunStage),
    /// The machine cannot run, because this stage failed.
    Failed(RunStage),
    /// All vCPU threads run: wait for them to end.
    Join,
}

/// The stage that begins with disk `i`, or what follows the disks.
pub open spec fn disk_stage(plan: RunPlan, i: int) -> RunNext {
    if i < plan.disks {
        RunNext::Do(RunStage::Disk(i as usize, Part::Backing))
    } else if plan.net {
        RunNext::Do(RunStage::Net)
    } else {
        RunNext::Do(RunStage::Vsock(Part::Device))
    }
}

/// The stage that begins with the shared directory, or what follows it.
pub open spec fn share_stage(plan: RunPlan) -> RunNext {
    if plan.share {
        RunNext::Do(RunStage::Share(Part::Backing))
    } else {
        gpu_stage(plan)
    }
}

/// The stage that begins with the graphics device, or what follows it.
pub open spec fn gpu_stage(plan: RunPlan) -> RunNext {
    if plan.gpu {
        RunNext::Do(RunStage::Gpu(Part::Backing))
    } else {
        RunNext::Do(RunStage::BuildVm)
    }
}

/// The stage that begins with vCPU `i`, or the end.
pub open spec fn vcpu_stage(plan: RunPlan, i: int) -> RunNext {
    if i < plan.vcpus {
        RunNext::Do(RunStage::Vcpu(i as usize, VcpuPart::CloneVm))
    } else {
        RunNext::Join
    }
}

/// What follows a stage that succeeded.
pub open spec fn on_success(plan: RunPlan, stage: RunStage) -> RunNext {
    match stage {
        RunStage::Components => RunNext::Do(RunStage::Hypervisor),
        RunStage::Hypervisor => RunNext::Do(RunStage::MemoryLayout),
        RunStage::MemoryLayout => RunNext::Do(RunStage::GuestMemory),
        RunStage::GuestMemory => RunNext::Do(RunStage::CreateVm),
        RunStage::CreateVm => RunNext::Do(RunStage::Allocator),
        RunStage::Allocator => RunNext::Do(RunStage::EventTube),
        RunStage::EventTube => RunNext::Do(RunStage::IrqChip),
        RunStage::IrqChip => disk_stage(plan, 0),
        RunStage::Disk(i, part) => match part {
            Part::Backing => RunNext::Do(RunStage::Disk(i, Part::Device)),
            Part::Device => RunNext::Do(RunStage::Disk(i, Part::MsiTube)),
            Part::MsiTube => RunNext::Do(RunStage::Disk(i, Part::IoeventTube)),
            Part::IoeventTube => RunNext::Do(RunStage::Disk(i, Part::VmTube)),
            Part::VmTube => RunNext::Do(RunStage::Disk(i, Part::PciDevice)),
            _ => disk_stage(plan, i + 1),
        },
        RunStage::Net => RunNext::Do(RunStage::Vsock(Part::Device)),
        RunStage::Vsock(part) => match part {
            Part::Device => RunNext::Do(RunStage::Vsock(Part::MsiTube)),
            Part::MsiTube => RunNext::Do(RunStage::Vsock(Part::IoeventTube)),
            Part::IoeventTube => RunNext::Do(RunStage::Vsock(Part::VmTube)),
            Part::VmTube => RunNext::Do(RunStage::Vsock(Part::PciDevice)),
            _ => share_stage(plan),
        },
        RunStage::Share(part) => match part {
            Part::Backing => RunNext::Do(RunStage::Share(Part::Device)),
            Part::Device => RunNext::Do(RunStage::Share(Part::MsiTube)),
            Part::MsiTube => RunNext::Do(RunStage::Share(Part::IoeventTube)),
            Part::IoeventTube => RunNext::Do(RunStage::Share(Part::VmTube)),
            Part::VmTube => RunNext::Do(RunStage::Share(Part::PciDevice)),
            _ => gpu_stage(plan),
        },
        RunStage::Gpu(part) => match part {
            Part::Backing => RunNext::Do(RunStage::Gpu(Part::MsiTube)),
            Part::MsiTube => RunNext::Do(RunStage::Gpu(Part::IoeventTube)),
            Part::IoeventTube => RunNext::Do(RunStage::Gpu(Part::VmTube)),
            Part::VmTube => RunNext::Do(RunStage::Gpu(Part::EventClone)),
            Part::EventClone => RunNext::Do(RunStage::Gpu(Part::ShmemTube)),
            Part::ShmemTube => RunNext::Do(RunStage::Gpu(Part::PciDevice)),
            _ => RunNext::Do(RunStage::BuildVm),
        },
        RunStage::BuildVm => if plan.gic_available {
            RunNext::Do(RunStage::FinalizeDevices)
        } else {
            RunNext::Do(RunStage::GicWindows)
        },
        RunStage::GicWindows => RunNext::Do(RunStage::FinalizeDevices),
        RunStage::FinalizeDevices => RunNext::Do(RunStage::FinalizeIrqChip),
        RunStage::FinalizeIrqChip => RunNext::Do(RunStage::MsiIrqChip),
        RunStage::MsiIrqChip => if plan.disks > 0 {
            RunNext::Do(RunStage::MsiHandler)
        } else {
            RunNext::Do(RunStage::IrqControlTube)
        },
        RunStage::MsiHandler => RunNext::Do(RunStage::IrqControlTube),
        RunStage::IrqControlTube => RunNext::Do(RunStage::IrqHandlerIrqChip),
        RunStage::IrqHandlerIrqChip => RunNext::Do(RunStage::IrqHandler),
        RunStage::IrqHandler => RunNext::Do(RunStage::Psci),
        RunStage::Psci => RunNext::Do(RunStage::RawTerminal),
        RunStage::RawTerminal => vcpu_stage(plan, 0),
        RunStage::Vcpu(i, part) => match part {
            VcpuPart::CloneVm => RunNext::Do(RunStage::Vcpu(i, VcpuPart::CloneIrqChip)),
            VcpuPart::CloneIrqChip => RunNext::Do(RunStage::Vcpu(i, VcpuPart::Spawn)),
            VcpuPart::Spawn => vcpu_stage(plan, i + 1),
        },
    }
}

/// Whether the machine can do without a stage.
pub open spec fn is_optional(stage: RunStage) -> bool {
    match stage {
        RunStage::Net => true,
        RunStage::Vsock(part) => part is Device || part is PciDevice,
        RunStage::Share(part) => part is Device || part is PciDevice,
        RunStage::Gpu(part) => part is PciDevice,
        RunStage::RawTerminal => true,
        _ => false,
    }
}

/// What follows a stage that failed: the machine goes without it, or cannot
/// run.
pub open spec fn on_failure(plan: RunPlan, stage: RunStage) -> RunNext {
    if !is_optional(stage) {
        RunNext::Failed(stage)
    } else {
        match stage {
            RunStage::Net => RunNext::Do(RunStage::Vsock(Part::Device)),
            RunStage::Vsock(_) => share_stage(plan),
            RunStage::Share(_) => gpu_stage(plan),
            RunStage::RawTerminal => vcpu_stage(plan, 0),
            _ => RunNext::Do(RunStage::BuildVm),
        }
    }
}

/// What follows a stage.
pub open spec fn after_stage(plan: RunPlan, stage: RunStage, succeeded: bool) -> RunNext {
    if succeeded {
        on_success(plan, stage)
    } else {
        on_failure(plan, stage)
    }
}

/// Whether a stage belongs to a plan.
pub open spec fn stage_fits(plan: RunPlan, stage: RunStage) -> bool {
    match stage {
        RunStage::Disk(i, _) => i < plan.disks,
        RunStage::Vcpu(i, _) => i < plan.vcpus,
        _ => true,
    }
}

/// The plan of a machine.
pub open spec fn plan_of(
    vcpu_count: Option<usize>,
    disks: usize,
    no_net: bool,
    share_is_dir: bool,
    gpu: bool,
    gic_available: bool,
) -> RunPlan {
    RunPlan {
        disks,
        net: !no_net,
        share: share_is_dir,
        gpu,
        gic_available,
        vcpus: crate::run::components::vcpus_of(vcpu_count),
    }
}

/// The first stage of a run.
pub open spec fn first_stage() -> RunNext {
    RunNext::Do(RunStage::Components)
}

/// The plan of a machine with this configuration and this many disks. A network
/// device is made unless it is turned off; a directory is shared if it is one;
/// there is one vCPU if their number is not configured.
pub fn run_config(
    cfg: &Config,
    disks: usize,
    no_net: bool,
    share_is_dir: bool,
    gpu: bool,
    gic_available: bool,
) -> (plan: RunPlan)
    ensures
        plan == plan_of(cfg.vcpu_count, disks, no_net, share_is_dir, gpu, gic_available),
{
    let vcpus: usize = match cfg.vcpu_count {
        Some(n) => n,
        None => 1,
    };
    RunPlan { disks, net: !no_net, share: share_is_dir, gpu, gic_available, vcpus }
}

impl RunPlan {
    fn next_disk(&self, i: usize) -> (next: RunNext)
        ensures
            next == disk_stage(*self, i as int),
    {
        if i < self.disks {
            RunNext::Do(RunStage::Disk(i, Part::Backing))
        } else if self.net {
            RunNext::Do(RunStage::Net)
        } else {
            RunNext::Do(RunStage::Vsock(Part::Device))
        }
    }

    fn next_share(&self) -> (next: RunNext)
        ensures
            next == share_stage(*self),
    {
        if self.share {
            RunNext::Do(RunStage::Share(Part::Backing))
        } else {
            self.next_gpu()
        }
    }

    fn next_gpu(&self) -> (next: RunNext)
        ensures
            next == gpu_stage(*self),
    {
        if self.gpu {
            RunNext::Do(RunStage::Gpu(Part::Backing))
        } else {
            RunNext::Do(RunStage::BuildVm)
        }
    }

    fn next_vcpu(&self, i: usize) -> (next: RunNext)
        ensures
            next == vcpu_stage(*self, i as int),
    {
        if i < self.vcpus {
            RunNext::Do(RunStage::Vcpu(i, VcpuPart::CloneVm))
        } else {
            RunNext::Join
        }
    }

    /// The first stage.
    pub fn first(&self) -> (next: RunNext)
        ensures
            next == first_stage(),
    {
        RunNext::Do(RunStage::Components)
    }

    /// What follows a stage that succeeded or failed.
    pub fn after(&self, stage: RunStage, succeeded: bool) -> (next: RunNext)
        requires
            stage_fits(*self, stage),
        ensures
            next == after_stage(*self, stage, succeeded),
            next matches RunNext::Do(s) ==> stage_fits(*self, s),
    {
        if !succeeded {
            return match stage {
                RunStage::Net => RunNext::Do(RunStage::Vsock(Part::Device)),
                RunStage::Vsock(Part::Device) => self.next_share(),
                RunStage::Vsock(Part::PciDevice) => self.next_share(),
                RunStage::Share(Part::Device) => self.next_gpu(),
                RunStage::Share(Part::PciDevice) => self.next_gpu(),
                RunStage::Gpu(Part::PciDevice) => RunNext::Do(RunStage::BuildVm),
                RunStage::RawTerminal => self.next_vcpu(0),
                _ => RunNext::Failed(stage),
            };
        }
        match stage {
            RunStage::Components => RunNext::Do(RunStage::Hypervisor),
            RunStage::Hypervisor => RunNext::Do(RunStage::MemoryLayout),
            RunStage::MemoryLayout => RunNext::Do(RunStage::GuestMemory),
            RunStage::GuestMemory => RunNext::Do(RunStage::CreateVm),
            RunStage::CreateVm => RunNext::Do(RunStage::Allocator),
            RunStage::Allocator => RunNext::Do(RunStage::EventTube),
            RunStage::EventTube => RunNext::Do(RunStage::IrqChip),
            RunStage::IrqChip => self.next_disk(0),
            RunStage::Disk(i, part) => match part {
                Part::Backing => RunNext::Do(RunStage::Disk(i, Part::Device)),
                Part::Device => RunNext::Do(RunStage::Disk(i, Part::MsiTube)),
                Part::MsiTube => RunNext::Do(RunStage::Disk(i, Part::IoeventTube)),
                Part::IoeventTube => RunNext::Do(RunStage::Disk(i, Part::VmTube)),
                Part::VmTube => RunNext::Do(RunStage::Disk(i, Part::PciDevice)),
                _ => self.next_disk(i + 1),
            },
            RunStage::Net => RunNext::Do(RunStage::Vsock(Part::Device)),
            RunStage::Vsock(part) => match part {
                Part::Device => RunNext::Do(RunStage::Vsock(Part::MsiTube)),
                Part::MsiTube => RunNext::Do(RunStage::Vsock(Part::IoeventTube)),
                Part::IoeventTube => RunNext::Do(RunStage::Vsock(Part::VmTube)),
                Part::VmTube => RunNext::Do(RunStage::Vsock(Part::PciDevice)),
                _ => self.next_share(),
            },
            RunStage::Share(part) => match part {
                Part::Backing => RunNext::Do(RunStage::Share(Part::Device)),
                Part::Device => RunNext::Do(RunStage::Share(Part::MsiTube)),
                Part::MsiTube => RunNext::Do(RunStage::Share(Part::IoeventTube)),
                Part::IoeventTube => RunNext::Do(RunStage::Share(Part::VmTube)),
                Part::VmTube => RunNext::Do(RunStage::Share(Part::PciDevice)),
                _ => self.next_gpu(),
            },
            RunStage::Gpu(part) => match part {
                Part::Backing => RunNext::Do(RunStage::Gpu(Part::MsiTube)),
                Part::MsiTube => RunNext::Do(RunStage::Gpu(Part::IoeventTube)),
                Part::IoeventTube => RunNext::Do(RunStage::Gpu(Part::VmTube)),
                Part::VmTube => RunNext::Do(RunStage::Gpu(Part::EventClone)),
                Part::EventClone => RunNext::Do(RunStage::Gpu(Part::ShmemTube)),
                Part::ShmemTube => RunNext::Do(RunStage::Gpu(Part::PciDevice)),
                _ => RunNext::Do(RunStage::BuildVm),
            },
            RunStage::BuildVm => if self.gic_available {
                RunNext::Do(RunStage::FinalizeDevices)
            } else {
                RunNext::Do(RunStage::GicWindows)
            },
            RunStage::GicWindows => RunNext::Do(RunStage::FinalizeDevices),
            RunStage::FinalizeDevices => RunNext::Do(RunStage::FinalizeIrqChip),
            RunStage::FinalizeIrqChip => RunNext::Do(RunStage::MsiIrqChip),
            RunStage::MsiIrqChip => if self.disks > 0 {
                RunNext::Do(RunStage::MsiHandler)
            } else {
                RunNext::Do(RunStage::IrqControlTube)
            },
            RunStage::MsiHandler => RunNext::Do(RunStage::IrqControlTube),
            RunStage::IrqControlTube => RunNext::Do(RunStage::IrqHandlerIrqChip),
            RunStage::IrqHandlerIrqChip => RunNext::Do(RunStage::IrqHandler),
            RunStage::IrqHandler => RunNext::Do(RunStage::Psci),
            RunStage::Psci => RunNext::Do(RunStage::RawTerminal),
            RunStage::RawTerminal => self.next_vcpu(0),
            RunStage::Vcpu(i, part) => match part {
                VcpuPart::CloneVm => RunNext::Do(RunStage::Vcpu(i, VcpuPart::CloneIrqChip)),
                VcpuPart::CloneIrqChip => RunNext::Do(RunStage::Vcpu(i, VcpuPart::Spawn)),
                VcpuPart::Spawn => self.next_vcpu(i + 1),
            },
        }
    }
}

/// A stage of taking a machine apart, once all vCPU threads have ended.
#[derive(Clone, Copy, Debug, PartialEq, Eq, Structural)]
pub enum StopStage {
    /// Edit lines on the terminal again.
    CanonTerminal,
    /// Tell the thread that serves interrupts to end.
    TellIrqHandler,
    /// Wait for that thread to end.
    JoinIrqHandler,
    /// Close the channels for events.
    CloseIoeventTubes,
    /// Wait for the thread that hands out interrupts to end.
    JoinMsiHandler,
}

/// What follows a stage of taking a machine apart.
#[derive(Clone, Copy, Debug, PartialEq, Eq, Structural)]
pub enum StopNext {
    Do(StopStage),
    /// The machine ended so.
    Exit(ExitState),
}

/// The first stage of taking a machine apart.
pub open spec fn first_stop_stage() -> StopNext {
    StopNext::Do(StopStage::CanonTerminal)
}

/// What follows a stage of taking a machine apart. The thread that hands out
/// interrupts is there only if there are disks.
pub open spec fn after_stop(plan: RunPlan, state: ExitState, stage: StopStage) -> StopNext {
    match stage {
        StopStage::CanonTerminal => StopNext::Do(StopStage::TellIrqHandler),
        StopStage::TellIrqHandler => StopNext::Do(StopStage::JoinIrqHandler),
        StopStage::JoinIrqHandler => StopNext::Do(StopStage::CloseIoeventTubes),
        StopStage::CloseIoeventTubes => if plan.disks > 0 {
            StopNext::Do(StopStage::JoinMsiHandler)
        } else {
            StopNext::Exit(state)
        },
        StopStage::JoinMsiHandler => StopNext::Exit(state),
    }
}

impl RunPlan {
    /// The first stage of taking the machine apart.
    pub fn first_stop(&self) -> (next: StopNext)
        ensures
            next == first_stop_stage(),
    {
        StopNext::Do(StopStage::CanonTerminal)
    }

    /// What follows a stage of taking the machine apart, whether or not it
    /// succeeded; `state` is how the vCPUs ended.
    pub fn after_stop_stage(&self, state: ExitState, stage: StopStage) -> (next: StopNext)
        ensures
            next == after_stop(*self, state, stage),
    {
        match stage {
            StopStage::CanonTerminal => StopNext::Do(StopStage::TellIrqHandler),
            StopStage::TellIrqHandler => StopNext::Do(StopStage::JoinIrqHandler),
            StopStage::JoinIrqHandler => StopNext::Do(StopStage::CloseIoeventTubes),
            StopStage::CloseIoeventTubes => if self.disks > 0 {
                StopNext::Do(StopStage::JoinMsiHandler)
            } else {
                StopNext::Exit(state)
            },
            StopStage::JoinMsiHandler => StopNext::Exit(state),
        }
    }
}

/// The threads that a run started are waited for when it ends: the one that
/// serves interrupts is told to end before it is waited for, the one that hands
/// them out is waited for exactly if it was started, and the machine ends as its
/// vCPUs did.
pub proof fn law_threads_are_waited_for(plan: RunPlan, state: ExitState, stage: StopStage)
    ensures
        after_stop(plan, state, stage) == StopNext::Do(StopStage::JoinIrqHandler)
            <==> stage is TellIrqHandler,
        (exists|s: StopStage|
            #[trigger] after_stop(plan, state, s) == StopNext::Do(StopStage::JoinMsiHandler)) <==> (
        exists|s: RunStage| #[trigger]
            after_stage(plan, s, true) == RunNext::Do(RunStage::MsiHandler)),
        after_stop(plan, state, stage) matches StopNext::Exit(end) ==> end == state,
{
    if plan.disks > 0 {
        assert(after_stop(plan, state, StopStage::CloseIoeventTubes) == StopNext::Do(
            StopStage::JoinMsiHandler,
        ));
        assert(after_stage(plan, RunStage::MsiIrqChip, true) == RunNext::Do(RunStage::MsiHandler));
    }
}

/// The place of a part among the parts of a device.
pub open spec fn part_rank(part: Part) -> int {
    match part {
        Part::Backing => 0,
        Part::Device => 1,
        Part::MsiTube => 2,
        Part::IoeventTube => 3,
        Part::VmTube => 4,
        Part::EventClone => 5,
        Part::ShmemTube => 6,
        Part::PciDevice => 7,
    }
}

/// The place of a stage in the order.
pub open spec fn stage_rank(plan: RunPlan, stage: RunStage) -> int {
    let d = 8 * plan.disks;
    match stage {
        RunStage::Components => 0,
        RunStage::Hypervisor => 1,
        RunStage::MemoryLayout => 2,
        RunStage::GuestMemory => 3,
        RunStage::CreateVm => 4,
        RunStage::Allocator => 5,
        RunStage::EventTube => 6,
        RunStage::IrqChip => 7,
        RunStage::Disk(i, part) => 8 + 8 * i + part_rank(part),
        RunStage::Net => d + 8,
        RunStage::Vsock(part) => d + 9 + part_rank(part),
        RunStage::Share(part) => d + 17 + part_rank(part),
        RunStage::Gpu(part) => d + 25 + part_rank(part),
        RunStage::BuildVm => d + 33,
        RunStage::GicWindows => d + 34,
        RunStage::FinalizeDevices => d + 35,
        RunStage::FinalizeIrqChip => d + 36,
        RunStage::MsiIrqChip => d + 37,
        RunStage::MsiHandler => d + 38,
        RunStage::IrqControlTube => d + 39,
        RunStage::IrqHandlerIrqChip => d + 40,
        RunStage::IrqHandler => d + 41,
        RunStage::Psci => d + 42,
        RunStage::RawTerminal => d + 43,
        RunStage::Vcpu(i, part) => d + 44 + 3 * i + (match part {
            VcpuPart::CloneVm => 0int,
            VcpuPart::CloneIrqChip => 1,
            VcpuPart::Spawn => 2,
        }),
    }
}

/// The stages come in their order, whatever fails: none is done twice, and the
/// order ends. In particular no vCPU runs before the machine is built and both
/// interrupt threads are started.
pub proof fn law_stages_ascend(plan: RunPlan, stage: RunStage, succeeded: bool)
    requires
        stage_fits(plan, stage),
    ensures
        after_stage(plan, stage, succeeded) matches RunNext::Do(next) ==> {
            &&& stage_fits(plan, next)
            &&& stage_rank(plan, stage) < stage_rank(plan, next)
            &&& stage_rank(plan, next) < 8 * plan.disks + 44 + 3 * plan.vcpus
        },
{
    if !succeeded {
        lemma_failed_ascends(plan, stage);
    } else {
        match stage {
            RunStage::Disk(i, part) => lemma_disk_ascends(plan, i, part),
            RunStage::Vcpu(i, part) => lemma_vcpu_ascends(plan, i, part),
            RunStage::Vsock(_) | RunStage::Share(_) | RunStage::Gpu(_) => lemma_device_ascends(
                plan,
                stage,
            ),
            _ => lemma_other_ascends(plan, stage),
        }
    }
}

/// Whether what follows a stage, if anything does, comes after it in the order.
spec fn ascends(plan: RunPlan, stage: RunStage, next: RunNext) -> bool {
    next matches RunNext::Do(next) ==> stage_fits(plan, next) && stage_rank(plan, stage)
        < stage_rank(plan, next) && stage_rank(plan, next) < 8 * plan.disks + 44 + 3 * plan.vcpus
}

#[verifier::spinoff_prover]
proof fn lemma_failed_ascends(plan: RunPlan, stage: RunStage)
    requires
        stage_fits(plan, stage),
    ensures
        ascends(plan, stage, after_stage(plan, stage, false)),
{
}

#[verifier::spinoff_prover]
proof fn lemma_disk_ascends(plan: RunPlan, i: usize, part: Part)
    requires
        i < plan.disks,
    ensures
        ascends(
            plan,
            RunStage::Disk(i, part),
            after_stage(plan, RunStage::Disk(i, part), true),
        ),
{
    assert(8 * i + 8 <= 8 * plan.disks);
}

#[verifier::spinoff_prover]
proof fn lemma_vcpu_ascends(plan: RunPlan, i: usize, part: VcpuPart)
    requires
        i < plan.vcpus,
    ensures
        ascends(
            plan,
            RunStage::Vcpu(i, part),
            after_stage(plan, RunStage::Vcpu(i, part), true),
        ),
{
    assert(3 * i + 3 <= 3 * plan.vcpus);
}

#[verifier::spinoff_prover]
proof fn lemma_device_ascends(plan: RunPlan, stage: RunStage)
    requires
        stage is Vsock || stage is Share || stage is Gpu,
    ensures
        ascends(plan, stage, after_stage(plan, stage, true)),
{
}

#[verifier::spinoff_prover]
proof fn lemma_other_ascends(plan: RunPlan, stage: RunStage)
    requires
        !(stage is Vsock || stage is Share || stage is Gpu || stage is Disk || stage is Vcpu),
    ensures
        ascends(plan, stage, after_stage(plan, stage, true)),
{
}

/// A machine fails to start exactly at a stage that it cannot do without; a
/// network, socket, file sharing or graphics device that cannot be made is left
/// out, and a terminal that cannot be changed stays as it is.
pub proof fn law_only_needed_stages_fail(plan: RunPlan, stage: RunStage, succeeded: bool)
    ensures
        after_stage(plan, stage, succeeded) is Failed <==> !succeeded && !is_optional(stage),
        after_stage(plan, stage, succeeded) is Failed ==> after_stage(plan, stage, succeeded)
            == RunNext::Failed(stage),
{
}

/// The stages that a run goes through from `next` on, when each succeeds as
/// `outcomes` says, and how it ends.
pub open spec fn stages_from(
    plan: RunPlan,
    next: RunNext,
    outcomes: spec_fn(RunStage) -> bool,
    fuel: nat,
) -> (Seq<RunStage>, RunNext)
    decreases fuel,
{
    match next {
        RunNext::Do(stage) => if fuel == 0 {
            (Seq::empty(), next)
        } else {
            let rest = stages_from(
                plan,
                after_stage(plan, stage, outcomes(stage)),
                outcomes,
                (fuel - 1) as nat,
            );
            (seq![stage] + rest.0, rest.1)
        },
        _ => (Seq::empty(), next),
    }
}

/// The number of stages is bounded by the numbers of disks and vCPUs: within
/// that many the machine runs or has failed.
pub proof fn law_run_is_bounded(plan: RunPlan, stage: RunStage, outcomes: spec_fn(RunStage) -> bool)
    requires
        stage_fits(plan, stage),
    ensures
        !(stages_from(
            plan,
            RunNext::Do(stage),
            outcomes,
            (8 * plan.disks + 44 + 3 * plan.vcpus - stage_rank(plan, stage)) as nat,
        ).1 is Do),
    decreases 8 * plan.disks + 44 + 3 * plan.vcpus - stage_rank(plan, stage),
{
    let bound = 8 * plan.disks + 44 + 3 * plan.vcpus;
    let fuel = bound - stage_rank(plan, stage);
    assert(fuel > 0);
    law_stages_ascend(plan, stage, outcomes(stage));
    let next = after_stage(plan, stage, outcomes(stage));
    match next {
        RunNext::Do(s) => {
            law_run_is_bounded(plan, s, outcomes);
            lemma_more_fuel(
                plan,
                next,
                outcomes,
                (bound - stage_rank(plan, s)) as nat,
                (fuel - 1) as nat,
            );
            assert(stages_from(plan, RunNext::Do(stage), outcomes, fuel as nat).1 == stages_from(
                plan,
                next,
                outcomes,
                (fuel - 1) as nat,
            ).1);
            assert(!(stages_from(plan, next, outcomes, (fuel - 1) as nat).1 is Do));
            assert(!(stages_from(plan, RunNext::Do(stage), outcomes, fuel as nat).1 is Do));
        },
        _ => {},
    }
}

proof fn lemma_more_fuel(
    plan: RunPlan,
    next: RunNext,
    outcomes: spec_fn(RunStage) -> bool,
    a: nat,
    b: nat,
)
    requires
        a <= b,
        !(stages_from(plan, next, outcomes, a).1 is Do),
    ensures
        stages_from(plan, next, outcomes, b) == stages_from(plan, next, outcomes, a),
    decreases a,
{
    match next {
        RunNext::Do(stage) => {
            if a > 0 {
                lemma_more_fuel(
                    plan,
                    after_stage(plan, stage, outcomes(stage)),
                    outcomes,
                    (a - 1) as nat,
                    (b - 1) as nat,
                );
            }
        },
        _ => {},
    }
}

/// What a machine does without: the network device, the socket device, the shared
/// directory and the graphics device are left out where they cannot be made or put on
/// the bus, and the run goes on with what follows them; so it does where the terminal
/// cannot be changed. Any other stage that fails is how the run ends.
pub proof fn law_failing_stages(plan: RunPlan, stage: RunStage, part: Part)
    ensures
        after_stage(plan, RunStage::Net, false) == after_stage(plan, RunStage::Net, true),
        after_stage(plan, RunStage::RawTerminal, false) == after_stage(
            plan,
            RunStage::RawTerminal,
            true,
        ),
        part is Device || part is PciDevice ==> after_stage(plan, RunStage::Vsock(part), false)
            == after_stage(plan, RunStage::Vsock(Part::PciDevice), true) && after_stage(
            plan,
            RunStage::Share(part),
            false,
        ) == after_stage(plan, RunStage::Share(Part::PciDevice), true),
        after_stage(plan, RunStage::Gpu(Part::PciDevice), false) == after_stage(
            plan,
            RunStage::Gpu(Part::PciDevice),
            true,
        ),
        after_stage(plan, stage, false) == RunNext::Failed(stage) <==> !(match stage {
            RunStage::Net | RunStage::RawTerminal => true,
            RunStage::Vsock(part) | RunStage::Share(part) => part is Device || part is PciDevice,
            RunStage::Gpu(part) => part is PciDevice,
            _ => false,
        }),
        !(after_stage(plan, stage, true) is Failed),
{
}

/// The stages of taking a machine apart, from `next` on, and how it ended.
pub open spec fn stops_from(plan: RunPlan, state: ExitState, next: StopNext, fuel: nat) -> (
    Seq<StopStage>,
    StopNext,
)
    decreases fuel,
{
    match next {
        StopNext::Do(stage) => if fuel == 0 {
            (Seq::empty(), next)
        } else {
            let rest = stops_from(
                plan,
                state,
                after_stop(plan, state, stage),
                (fuel - 1) as nat,
            );
            (seq![stage] + rest.0, rest.1)
        },
        _ => (Seq::empty(), next),
    }
}

/// A machine is taken apart whole and in order: the terminal is as before first, then
/// the thread that serves interrupts ends, then the channels are closed, and the thread
/// that hands interrupts out, which was started exactly if there are disks, ends. The
/// machine ended as its vCPUs did.
pub proof fn law_machine_is_taken_apart(plan: RunPlan, state: ExitState)
    ensures
        ({
            let (stages, end) = stops_from(plan, state, first_stop_stage(), 5);
            &&& end == StopNext::Exit(state)
            &&& stages == seq![
                StopStage::CanonTerminal,
                StopStage::TellIrqHandler,
                StopStage::JoinIrqHandler,
                StopStage::CloseIoeventTubes,
            ] + if plan.disks > 0 {
                seq![StopStage::JoinMsiHandler]
            } else {
                Seq::empty()
            }
        }),
{
    reveal_with_fuel(stops_from, 6);
    let (stages, end) = stops_from(plan, state, first_stop_stage(), 5);
    assert(stages =~= seq![
        StopStage::CanonTerminal,
        StopStage::TellIrqHandler,
        StopStage::JoinIrqHandler,
        StopStage::CloseIoeventTubes,
    ] + if plan.disks > 0 {
        seq![StopStage::JoinMsiHandler]
    } else {
        Seq::empty()
    });
}

/// A plan is what was configured: one vCPU unless a number is given, all disks, a network
/// device unless it is turned off, and the rest as the host has it.
pub proof fn law_plan_follows_configuration(
    vcpu_count: Option<usize>,
    disks: usize,
    no_net: bool,
    share_is_dir: bool,
    gpu: bool,
    gic_available: bool,
)
    ensures
        ({
            let plan = plan_of(vcpu_count, disks, no_net, share_is_dir, gpu, gic_available);
            &&& vcpu_count is None ==> plan.vcpus == 1
            &&& vcpu_count matches Some(n) ==> plan.vcpus == n
            &&& plan.disks == disks
            &&& plan.net <==> !no_net
            &&& plan.share == share_is_dir
            &&& plan.gpu == gpu
            &&& plan.gic_available == gic_available
        }),
{
}

} // verus!
