//! The order in which a machine that nothing fails of is put together, as a whole.

use vstd::prelude::*;

use crate::run::plan::{
    after_stage, disk_stage, first_stage, gpu_stage, share_stage, stages_from, vcpu_stage,
};
use crate::run::plan::{Part, RunNext, RunPlan, RunStage, VcpuPart};

verus! {

/// The stages of one disk.
pub open spec fn disk_parts(i: int) -> Seq<RunStage> {
    seq![
        RunStage::Disk(i as usize, Part::Backing),
        RunStage::Disk(i as usize, Part::Device),
        RunStage::Disk(i as usize, Part::MsiTube),
        RunStage::Disk(i as usize, Part::IoeventTube),
        RunStage::Disk(i as usize, Part::VmTube),
        RunStage::Disk(i as usize, Part::PciDevice),
    ]
}

/// The stages of one vCPU.
pub open spec fn vcpu_parts(i: int) -> Seq<RunStage> {
    seq![
        RunStage::Vcpu(i as usize, VcpuPart::CloneVm),
        RunStage::Vcpu(i as usize, VcpuPart::CloneIrqChip),
        RunStage::Vcpu(i as usize, VcpuPart::Spawn),
    ]
}

/// The stages of the disks from `i` on.
pub open spec fn all_disks(plan: RunPlan, i: int) -> Seq<RunStage>
    decreases plan.disks - i,
{
    if i < plan.disks {
        disk_parts(i) + all_disks(plan, i + 1)
    } else {
        Seq::empty()
    }
}

/// The stages of the vCPUs from `i` on.
pub open spec fn all_vcpus(plan: RunPlan, i: int) -> Seq<RunStage>
    decreases plan.vcpus - i,
{
    if i < plan.vcpus {
        vcpu_parts(i) + all_vcpus(plan, i + 1)
    } else {
        Seq::empty()
    }
}

/// These stages if they are wanted.
pub open spec fn wanted(yes: bool, stages: Seq<RunStage>) -> Seq<RunStage> {
    if yes {
        stages
    } else {
        Seq::empty()
    }
}

/// The stages of the network device and the socket device.
pub open spec fn net_parts(plan: RunPlan) -> Seq<RunStage> {
    wanted(plan.net, seq![RunStage::Net]) + seq![
        RunStage::Vsock(Part::Device),
        RunStage::Vsock(Part::MsiTube),
        RunStage::Vsock(Part::IoeventTube),
        RunStage::Vsock(Part::VmTube),
        RunStage::Vsock(Part::PciDevice),
    ]
}

/// The stages of the shared directory.
pub open spec fn share_parts() -> Seq<RunStage> {
    seq![
        RunStage::Share(Part::Backing),
        RunStage::Share(Part::Device),
        RunStage::Share(Part::MsiTube),
        RunStage::Share(Part::IoeventTube),
        RunStage::Share(Part::VmTube),
        RunStage::Share(Part::PciDevice),
    ]
}

/// The stages of the graphics device.
pub open spec fn gpu_parts() -> Seq<RunStage> {
    seq![
        RunStage::Gpu(Part::Backing),
        RunStage::Gpu(Part::MsiTube),
        RunStage::Gpu(Part::IoeventTube),
        RunStage::Gpu(Part::VmTube),
        RunStage::Gpu(Part::EventClone),
        RunStage::Gpu(Part::ShmemTube),
        RunStage::Gpu(Part::PciDevice),
    ]
}

/// The stages that build the machine from its devices.
pub open spec fn build_parts(plan: RunPlan) -> Seq<RunStage> {
    seq![RunStage::BuildVm] + wanted(!plan.gic_available, seq![RunStage::GicWindows]) + seq![
        RunStage::FinalizeDevices,
        RunStage::FinalizeIrqChip,
        RunStage::MsiIrqChip,
    ]
}

/// The stages from the interrupt threads to the terminal.
pub open spec fn thread_parts(plan: RunPlan) -> Seq<RunStage> {
    wanted(plan.disks > 0, seq![RunStage::MsiHandler]) + seq![
        RunStage::IrqControlTube,
        RunStage::IrqHandlerIrqChip,
        RunStage::IrqHandler,
        RunStage::Psci,
        RunStage::RawTerminal,
    ]
}

/// The stages between the disks and the vCPUs.
pub open spec fn between(plan: RunPlan) -> Seq<RunStage> {
    net_parts(plan) + (wanted(plan.share, share_parts()) + (wanted(plan.gpu, gpu_parts()) + (
    build_parts(plan) + thread_parts(plan))))
}

/// The stages up to the disks.
pub open spec fn before_disks() -> Seq<RunStage> {
    seq![
        RunStage::Components,
        RunStage::Hypervisor,
        RunStage::MemoryLayout,
        RunStage::GuestMemory,
        RunStage::CreateVm,
        RunStage::Allocator,
        RunStage::EventTube,
        RunStage::IrqChip,
    ]
}

/// Whether the stages lead from one to the next, and the last one to `end`, where each
/// succeeds.
pub open spec fn leads_to(plan: RunPlan, stages: Seq<RunStage>, end: RunNext) -> bool {
    forall|i: int|
        0 <= i < stages.len() ==> after_stage(plan, #[trigger] stages[i], true) == if i + 1
            < stages.len() {
            RunNext::Do(stages[i + 1])
        } else {
            end
        }
}

proof fn lemma_chain(plan: RunPlan, stages: Seq<RunStage>, end: RunNext, fuel: nat)
    requires
        stages.len() > 0,
        leads_to(plan, stages, end),
    ensures
        ({
            let rest = stages_from(plan, end, |s: RunStage| true, fuel);
            stages_from(plan, RunNext::Do(stages[0]), |s: RunStage| true, stages.len() + fuel) == (
                stages + rest.0,
                rest.1,
            )
        }),
    decreases stages.len(),
{
    let all = |s: RunStage| true;
    let rest = stages_from(plan, end, all, fuel);
    let run = stages_from(plan, RunNext::Do(stages[0]), all, stages.len() + fuel);
    assert(all(stages[0]));
    if stages.len() == 1 {
        assert(after_stage(plan, stages[0], true) == end);
        assert(run.0 =~= stages + rest.0);
    } else {
        let tail = stages.skip(1);
        assert(after_stage(plan, stages[0], true) == RunNext::Do(stages[1]));
        assert forall|i: int| 0 <= i < tail.len() implies after_stage(plan, #[trigger] tail[i], true)
            == if i + 1 < tail.len() {
            RunNext::Do(tail[i + 1])
        } else {
            end
        } by {
            assert(tail[i] == stages[i + 1]);
            if i + 1 < tail.len() {
                assert(tail[i + 1] == stages[i + 2]);
            }
        }
        lemma_chain(plan, tail, end, fuel);
        assert(run.0 =~= stages + rest.0);
    }
}

proof fn lemma_vcpus(plan: RunPlan, i: int, fuel: nat)
    requires
        0 <= i <= plan.vcpus,
        fuel >= 3 * (plan.vcpus - i),
    ensures
        stages_from(plan, vcpu_stage(plan, i), |s: RunStage| true, fuel) == (
            all_vcpus(plan, i),
            RunNext::Join,
        ),
    decreases plan.vcpus - i,
{
    if i < plan.vcpus {
        let left = (fuel - 3) as nat;
        lemma_vcpus(plan, i + 1, left);
        lemma_chain(plan, vcpu_parts(i), vcpu_stage(plan, i + 1), left);
    }
}

/// Whether a run goes from `first` through these stages to `end`, where each succeeds.
pub open spec fn passes(plan: RunPlan, first: RunNext, stages: Seq<RunStage>, end: RunNext) -> bool {
    if stages.len() > 0 {
        first == RunNext::Do(stages[0]) && leads_to(plan, stages, end)
    } else {
        first == end
    }
}

proof fn lemma_segment(
    plan: RunPlan,
    first: RunNext,
    stages: Seq<RunStage>,
    end: RunNext,
    fuel: nat,
)
    requires
        passes(plan, first, stages, end),
    ensures
        ({
            let after = stages_from(plan, end, |s: RunStage| true, fuel);
            stages_from(plan, first, |s: RunStage| true, stages.len() + fuel) == (
                stages + after.0,
                after.1,
            )
        }),
{
    let after = stages_from(plan, end, |s: RunStage| true, fuel);
    if stages.len() > 0 {
        lemma_chain(plan, stages, end, fuel);
    } else {
        assert(stages + after.0 =~= after.0);
    }
}

proof fn lemma_five_parts(
    a: Seq<RunStage>,
    b: Seq<RunStage>,
    c: Seq<RunStage>,
    d: Seq<RunStage>,
    e: Seq<RunStage>,
    rest: Seq<RunStage>,
)
    ensures
        a + (b + (c + (d + (e + rest)))) == a + (b + (c + (d + e))) + rest,
        (a + (b + (c + (d + e)))).len() == a.len() + (b.len() + (c.len() + (d.len() + e.len()))),
{
    assert(a + (b + (c + (d + (e + rest)))) =~= a + (b + (c + (d + e))) + rest);
}

proof fn lemma_five_segments(
    plan: RunPlan,
    n: (RunNext, RunNext, RunNext, RunNext, RunNext, RunNext),
    a: Seq<RunStage>,
    b: Seq<RunStage>,
    c: Seq<RunStage>,
    d: Seq<RunStage>,
    e: Seq<RunStage>,
    fuel: nat,
)
    requires
        passes(plan, n.0, a, n.1),
        passes(plan, n.1, b, n.2),
        passes(plan, n.2, c, n.3),
        passes(plan, n.3, d, n.4),
        passes(plan, n.4, e, n.5),
    ensures
        ({
            let all = a + (b + (c + (d + e)));
            let rest = stages_from(plan, n.5, |s: RunStage| true, fuel);
            stages_from(plan, n.0, |s: RunStage| true, all.len() + fuel) == (
                all + rest.0,
                rest.1,
            )
        }),
{
    let rest = stages_from(plan, n.5, |s: RunStage| true, fuel);
    lemma_segment(plan, n.4, e, n.5, fuel);
    lemma_segment(plan, n.3, d, n.4, e.len() + fuel);
    lemma_segment(plan, n.2, c, n.3, d.len() + (e.len() + fuel));
    lemma_segment(plan, n.1, b, n.2, c.len() + (d.len() + (e.len() + fuel)));
    lemma_segment(plan, n.0, a, n.1, b.len() + (c.len() + (d.len() + (e.len() + fuel))));
    lemma_five_parts(a, b, c, d, e, rest.0);
}

proof fn lemma_between(plan: RunPlan, fuel: nat)
    ensures
        ({
            let rest = stages_from(plan, vcpu_stage(plan, 0), |s: RunStage| true, fuel);
            stages_from(
                plan,
                disk_stage(plan, plan.disks as int),
                |s: RunStage| true,
                between(plan).len() + fuel,
            ) == (between(plan) + rest.0, rest.1)
        }),
{
    lemma_net_passes(plan);
    lemma_share_passes(plan);
    lemma_gpu_passes(plan);
    lemma_build_passes(plan);
    lemma_threads_pass(plan);
    lemma_five_segments(
        plan,
        (
            disk_stage(plan, plan.disks as int),
            share_stage(plan),
            gpu_stage(plan),
            RunNext::Do(RunStage::BuildVm),
            first_thread(plan),
            vcpu_stage(plan, 0),
        ),
        net_parts(plan),
        wanted(plan.share, share_parts()),
        wanted(plan.gpu, gpu_parts()),
        build_parts(plan),
        thread_parts(plan),
        fuel,
    );
}

/// The first stage of the interrupt threads.
pub open spec fn first_thread(plan: RunPlan) -> RunNext {
    RunNext::Do(
        if plan.disks > 0 {
            RunStage::MsiHandler
        } else {
            RunStage::IrqControlTube
        },
    )
}

proof fn lemma_threads_pass(plan: RunPlan)
    ensures
        passes(plan, first_thread(plan), thread_parts(plan), vcpu_stage(plan, 0)),
{
}

proof fn lemma_build_passes(plan: RunPlan)
    ensures
        passes(plan, RunNext::Do(RunStage::BuildVm), build_parts(plan), first_thread(plan)),
{
}

proof fn lemma_gpu_passes(plan: RunPlan)
    ensures
        passes(
            plan,
            gpu_stage(plan),
            wanted(plan.gpu, gpu_parts()),
            RunNext::Do(RunStage::BuildVm),
        ),
{
}

proof fn lemma_share_passes(plan: RunPlan)
    ensures
        passes(plan, share_stage(plan), wanted(plan.share, share_parts()), gpu_stage(plan)),
{
}

proof fn lemma_net_passes(plan: RunPlan)
    ensures
        passes(plan, disk_stage(plan, plan.disks as int), net_parts(plan), share_stage(plan)),
{
}

proof fn lemma_disks(plan: RunPlan, i: int, fuel: nat)
    requires
        0 <= i <= plan.disks,
        fuel >= 6 * (plan.disks - i),
    ensures
        ({
            let left = (fuel - 6 * (plan.disks - i)) as nat;
            let rest = stages_from(
                plan,
                disk_stage(plan, plan.disks as int),
                |s: RunStage| true,
                left,
            );
            stages_from(plan, disk_stage(plan, i), |s: RunStage| true, fuel) == (
                all_disks(plan, i) + rest.0,
                rest.1,
            )
        }),
    decreases plan.disks - i,
{
    let left = (fuel - 6 * (plan.disks - i)) as nat;
    let rest = stages_from(plan, disk_stage(plan, plan.disks as int), |s: RunStage| true, left);
    if i < plan.disks {
        lemma_disks(plan, i + 1, (fuel - 6) as nat);
        lemma_chain(plan, disk_parts(i), disk_stage(plan, i + 1), (fuel - 6) as nat);
        assert(disk_parts(i) + (all_disks(plan, i + 1) + rest.0) =~= all_disks(plan, i) + rest.0);
    } else {
        assert(all_disks(plan, i) + rest.0 =~= rest.0);
    }
}

/// A machine nothing of which fails is put together whole and in order: the machine and
/// its memory, each disk, the other devices that are wanted, the machine from its
/// devices, its interrupt threads, the power interface and the terminal, and then each
/// vCPU. No stage is left out and none is added; then its end is waited for.
pub proof fn law_machine_is_put_together(plan: RunPlan)
    ensures
        stages_from(
            plan,
            first_stage(),
            |s: RunStage| true,
            (8 + 6 * plan.disks + between(plan).len() + 3 * plan.vcpus) as nat,
        ) == (
            seq![
                RunStage::Components,
                RunStage::Hypervisor,
                RunStage::MemoryLayout,
                RunStage::GuestMemory,
                RunStage::CreateVm,
                RunStage::Allocator,
                RunStage::EventTube,
                RunStage::IrqChip,
            ] + (all_disks(plan, 0) + (between(plan) + all_vcpus(plan, 0))),
            RunNext::Join,
        ),
        ({
            let none = Seq::<RunStage>::empty();
            between(plan) == (if plan.net {
                seq![RunStage::Net]
            } else {
                none
            }) + seq![
                RunStage::Vsock(Part::Device),
                RunStage::Vsock(Part::MsiTube),
                RunStage::Vsock(Part::IoeventTube),
                RunStage::Vsock(Part::VmTube),
                RunStage::Vsock(Part::PciDevice),
            ] + (if plan.share {
                seq![
                    RunStage::Share(Part::Backing),
                    RunStage::Share(Part::Device),
                    RunStage::Share(Part::MsiTube),
                    RunStage::Share(Part::IoeventTube),
                    RunStage::Share(Part::VmTube),
                    RunStage::Share(Part::PciDevice),
                ]
            } else {
                none
            }) + (if plan.gpu {
                seq![
                    RunStage::Gpu(Part::Backing),
                    RunStage::Gpu(Part::MsiTube),
                    RunStage::Gpu(Part::IoeventTube),
                    RunStage::Gpu(Part::VmTube),
                    RunStage::Gpu(Part::EventClone),
                    RunStage::Gpu(Part::ShmemTube),
                    RunStage::Gpu(Part::PciDevice),
                ]
            } else {
                none
            }) + seq![RunStage::BuildVm] + (if plan.gic_available {
                none
            } else {
                seq![RunStage::GicWindows]
            }) + seq![
                RunStage::FinalizeDevices,
                RunStage::FinalizeIrqChip,
                RunStage::MsiIrqChip,
            ] + (if plan.disks > 0 {
                seq![RunStage::MsiHandler]
            } else {
                none
            }) + seq![
                RunStage::IrqControlTube,
                RunStage::IrqHandlerIrqChip,
                RunStage::IrqHandler,
                RunStage::Psci,
                RunStage::RawTerminal,
            ]
        }),
{
    lemma_between_is_spelled_out(plan);
    let vcpu_fuel = (3 * plan.vcpus) as nat;
    let between_fuel = (between(plan).len() + vcpu_fuel) as nat;
    let disk_fuel = (6 * plan.disks + between_fuel) as nat;
    lemma_vcpus(plan, 0, vcpu_fuel);
    lemma_between(plan, vcpu_fuel);
    lemma_disks(plan, 0, disk_fuel);
    assert((disk_fuel - 6 * (plan.disks - 0)) as nat == between_fuel);
    lemma_chain(plan, before_disks(), disk_stage(plan, 0), disk_fuel);
}

proof fn lemma_between_is_spelled_out(plan: RunPlan)
    ensures
        ({
            let none = Seq::<RunStage>::empty();
            between(plan) == (if plan.net {
                seq![RunStage::Net]
            } else {
                none
            }) + seq![
                RunStage::Vsock(Part::Device),
                RunStage::Vsock(Part::MsiTube),
                RunStage::Vsock(Part::IoeventTube),
                RunStage::Vsock(Part::VmTube),
                RunStage::Vsock(Part::PciDevice),
            ] + (if plan.share {
                seq![
                    RunStage::Share(Part::Backing),
                    RunStage::Share(Part::Device),
                    RunStage::Share(Part::MsiTube),
                    RunStage::Share(Part::IoeventTube),
                    RunStage::Share(Part::VmTube),
                    RunStage::Share(Part::PciDevice),
                ]
            } else {
                none
            }) + (if plan.gpu {
                seq![
                    RunStage::Gpu(Part::Backing),
                    RunStage::Gpu(Part::MsiTube),
                    RunStage::Gpu(Part::IoeventTube),
                    RunStage::Gpu(Part::VmTube),
                    RunStage::Gpu(Part::EventClone),
                    RunStage::Gpu(Part::ShmemTube),
                    RunStage::Gpu(Part::PciDevice),
                ]
            } else {
                none
            }) + seq![RunStage::BuildVm] + (if plan.gic_available {
                none
            } else {
                seq![RunStage::GicWindows]
            }) + seq![
                RunStage::FinalizeDevices,
                RunStage::FinalizeIrqChip,
                RunStage::MsiIrqChip,
            ] + (if plan.disks > 0 {
                seq![RunStage::MsiHandler]
            } else {
                none
            }) + seq![
                RunStage::IrqControlTube,
                RunStage::IrqHandlerIrqChip,
                RunStage::IrqHandler,
                RunStage::Psci,
                RunStage::RawTerminal,
            ]
        }),
{
    let none = Seq::<RunStage>::empty();
    let net = if plan.net {
        seq![RunStage::Net]
    } else {
        none
    };
    let gic = if plan.gic_available {
        none
    } else {
        seq![RunStage::GicWindows]
    };
    let msi = if plan.disks > 0 {
        seq![RunStage::MsiHandler]
    } else {
        none
    };
    let vsock = seq![
        RunStage::Vsock(Part::Device),
        RunStage::Vsock(Part::MsiTube),
        RunStage::Vsock(Part::IoeventTube),
        RunStage::Vsock(Part::VmTube),
        RunStage::Vsock(Part::PciDevice),
    ];
    let last = seq![
        RunStage::IrqControlTube,
        RunStage::IrqHandlerIrqChip,
        RunStage::IrqHandler,
        RunStage::Psci,
        RunStage::RawTerminal,
    ];
    let finalize = seq![
        RunStage::FinalizeDevices,
        RunStage::FinalizeIrqChip,
        RunStage::MsiIrqChip,
    ];
    lemma_grouping(
        net,
        vsock,
        wanted(plan.share, share_parts()),
        wanted(plan.gpu, gpu_parts()),
        seq![RunStage::BuildVm],
        gic,
        finalize,
        msi,
        last,
    );
}

proof fn lemma_grouping(
    a: Seq<RunStage>,
    b: Seq<RunStage>,
    c: Seq<RunStage>,
    d: Seq<RunStage>,
    e: Seq<RunStage>,
    f: Seq<RunStage>,
    g: Seq<RunStage>,
    h: Seq<RunStage>,
    i: Seq<RunStage>,
)
    ensures
        (a + b) + (c + (d + ((e + f + g) + (h + i)))) == a + b + c + d + e + f + g + h + i,
{
    assert((a + b) + (c + (d + ((e + f + g) + (h + i)))) =~= a + b + c + d + e + f + g + h + i);
}

/// The stages of the disks and of the vCPUs, one by one: each disk is opened, made, given
/// its three channels and put on the bus, and each vCPU gets its clones and its thread,
/// in the order of their numbers.
pub proof fn law_disks_and_vcpus_one_by_one(plan: RunPlan, disk: int, vcpu: int)
    requires
        0 <= disk < plan.disks,
        0 <= vcpu < plan.vcpus,
    ensures
        all_disks(plan, 0).len() == 6 * plan.disks,
        all_disks(plan, 0).subrange(6 * disk, 6 * disk + 6) == seq![
            RunStage::Disk(disk as usize, Part::Backing),
            RunStage::Disk(disk as usize, Part::Device),
            RunStage::Disk(disk as usize, Part::MsiTube),
            RunStage::Disk(disk as usize, Part::IoeventTube),
            RunStage::Disk(disk as usize, Part::VmTube),
            RunStage::Disk(disk as usize, Part::PciDevice),
        ],
        all_vcpus(plan, 0).len() == 3 * plan.vcpus,
        all_vcpus(plan, 0).subrange(3 * vcpu, 3 * vcpu + 3) == seq![
            RunStage::Vcpu(vcpu as usize, VcpuPart::CloneVm),
            RunStage::Vcpu(vcpu as usize, VcpuPart::CloneIrqChip),
            RunStage::Vcpu(vcpu as usize, VcpuPart::Spawn),
        ],
{
    lemma_disk_by_disk(plan, 0, disk);
    lemma_vcpu_by_vcpu(plan, 0, vcpu);
}

proof fn lemma_disk_by_disk(plan: RunPlan, from: int, disk: int)
    requires
        0 <= from <= disk < plan.disks,
    ensures
        all_disks(plan, from).len() == 6 * (plan.disks - from),
        all_disks(plan, from).subrange(6 * (disk - from), 6 * (disk - from) + 6) == disk_parts(
            disk,
        ),
    decreases plan.disks - from,
{
    let all = all_disks(plan, from);
    let rest = all_disks(plan, from + 1);
    lemma_disks_len(plan, from + 1);
    if from == disk {
        assert(all.subrange(0, 6) =~= disk_parts(disk));
    } else {
        lemma_disk_by_disk(plan, from + 1, disk);
        let k = 6 * (disk - from - 1);
        assert(all.subrange(k + 6, k + 12) =~= rest.subrange(k, k + 6));
    }
}

proof fn lemma_disks_len(plan: RunPlan, from: int)
    requires
        0 <= from <= plan.disks,
    ensures
        all_disks(plan, from).len() == 6 * (plan.disks - from),
    decreases plan.disks - from,
{
    if from < plan.disks {
        lemma_disks_len(plan, from + 1);
    }
}

proof fn lemma_vcpu_by_vcpu(plan: RunPlan, from: int, vcpu: int)
    requires
        0 <= from <= vcpu < plan.vcpus,
    ensures
        all_vcpus(plan, from).len() == 3 * (plan.vcpus - from),
        all_vcpus(plan, from).subrange(3 * (vcpu - from), 3 * (vcpu - from) + 3) == vcpu_parts(
            vcpu,
        ),
    decreases plan.vcpus - from,
{
    let all = all_vcpus(plan, from);
    let rest = all_vcpus(plan, from + 1);
    lemma_vcpus_len(plan, from + 1);
    if from == vcpu {
        assert(all.subrange(0, 3) =~= vcpu_parts(vcpu));
    } else {
        lemma_vcpu_by_vcpu(plan, from + 1, vcpu);
        let k = 3 * (vcpu - from - 1);
        assert(all.subrange(k + 3, k + 6) =~= rest.subrange(k, k + 3));
    }
}

proof fn lemma_vcpus_len(plan: RunPlan, from: int)
    requires
        0 <= from <= plan.vcpus,
    ensures
        all_vcpus(plan, from).len() == 3 * (plan.vcpus - from),
    decreases plan.vcpus - from,
{
    if from < plan.vcpus {
        lemma_vcpus_len(plan, from + 1);
    }
}

} // verus!
