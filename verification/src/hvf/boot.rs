//! How a machine comes up: guest memory is mapped, then the framework's own
//! interrupt controller is set up where there is one.

use vstd::prelude::*;

use crate::align::{is_power_of_two, mask_down};
use crate::errno::Error;
use crate::hvf::ffi;
use crate::hvf::ffi::{hv_memory_flags_t, hv_return_t};

verus! {

/// A region of guest memory.
#[derive(Clone, Copy, Debug, PartialEq, Eq, Structural)]
pub struct GuestRegion {
    /// Where the region lies in the guest.
    pub guest_addr: u64,
    /// Where the region lies in the host.
    pub host_addr: u64,
    /// The size in bytes.
    pub size: usize,
}

/// What the framework tells of its interrupt controller.
#[derive(Clone, Copy, Debug, PartialEq, Eq, Structural)]
pub struct GicParams {
    /// The alignment of the distributor.
    pub dist_align: u64,
    /// The alignment of the redistributors.
    pub redist_align: u64,
    /// The size of the region that holds all redistributors.
    pub redist_region_size: u64,
}

/// The alignment of both parts of the interrupt controller where the framework
/// does not tell one.
pub const GIC_DEFAULT_ALIGN: u64 = 0x1_0000;

/// What holds where the framework tells nothing.
pub open spec fn unknown_params() -> GicParams {
    GicParams {
        dist_align: GIC_DEFAULT_ALIGN,
        redist_align: GIC_DEFAULT_ALIGN,
        redist_region_size: 0,
    }
}

impl GicParams {
    /// What holds where the framework tells nothing.
    pub fn unknown() -> (params: GicParams)
        ensures
            params == unknown_params(),
    {
        GicParams {
            dist_align: GIC_DEFAULT_ALIGN,
            redist_align: GIC_DEFAULT_ALIGN,
            redist_region_size: 0,
        }
    }
}

/// The distributor's control register.
pub const GICD_CTLR: u16 = 0;

/// Forward non-secure interrupts of group 1.
pub const GICD_CTLR_ENABLE_GRP1_NS: u64 = 2;

/// The first configuration register of shared interrupts.
pub const GICD_ICFGR_SPI: u16 = 0xC08;

/// All sixteen interrupts of a configuration register are edge-triggered.
pub const ALL_EDGE_TRIGGERED: u64 = 0xAAAA_AAAA;

/// The number of shared interrupts that are configured.
pub const CONFIGURED_SPIS: u16 = 64;

/// The number of interrupts in a configuration register.
pub const SPIS_PER_ICFGR: u16 = 16;

/// A call that bringing up a machine asks for.
#[derive(Clone, Copy, Debug, PartialEq, Eq, Structural)]
pub enum BootRequest {
    /// Map host memory into the guest.
    MapMemory { host_addr: u64, guest_addr: u64, size: usize, flags: hv_memory_flags_t },
    /// Tell whether the framework has an interrupt controller of its own.
    GicAvailable,
    /// Tell its parameters.
    GicParameters,
    /// Make a configuration for it.
    GicConfigCreate,
    /// Set where the distributor lies.
    SetDistributorBase(u64),
    /// Set where the redistributors lie.
    SetRedistributorBase(u64),
    /// Create the controller.
    GicCreate,
    /// Release the configuration.
    ConfigRelease,
    /// Write a register of the distributor.
    SetDistributorReg(u16, u64),
}

/// The reply to a [`BootRequest`]: the return code, the answer to a question,
/// or the parameters, as the request asks for.
#[derive(Clone, Copy, Debug, PartialEq, Eq, Structural)]
pub struct BootReply {
    pub ret: hv_return_t,
    /// Whether there is a controller, or a configuration.
    pub present: bool,
    pub params: GicParams,
}

/// What is awaited while a machine comes up.
#[derive(Clone, Copy, Debug, PartialEq, Eq, Structural)]
pub enum BootState {
    /// The region at `index` was mapped.
    Mapped { index: usize },
    /// Whether there is a controller.
    Availability,
    /// The parameters of the controller.
    Parameters,
    /// A configuration.
    Config { dist_base: u64, redist_base: u64 },
    /// The place of the distributor was set.
    DistributorSet { redist_base: u64 },
    /// The place of the redistributors was set.
    RedistributorSet,
    /// The controller was created.
    Created,
    /// The configuration was released; creating had returned `created`.
    Released { created: hv_return_t },
    /// The control register was written.
    ControlWritten,
    /// The configuration register `number` was written.
    ConfigWritten { number: u16 },
}

/// The next step.
#[derive(Clone, Copy, Debug, PartialEq, Eq)]
pub enum BootStep {
    /// Make a call and report the reply to [`VmBoot::resume`].
    Do(BootRequest, BootState),
    /// The machine is up, or could not be brought up.
    Done(Result<(), Error>),
}

/// Guest memory can be read, written and executed.
pub const GUEST_MEMORY_FLAGS: hv_memory_flags_t = 7;

/// Where the distributor is placed: at the wanted address, moved down to its
/// alignment.
pub open spec fn dist_base(wanted: u64, params: GicParams) -> u64 {
    wanted & !((params.dist_align - 1) as u64)
}

/// Where the redistributors are placed: right below the distributor, moved down
/// to their alignment.
pub open spec fn redist_base(wanted: u64, params: GicParams) -> u64 {
    ((dist_base(wanted, params) - params.redist_region_size) as u64) & !((params.redist_align
        - 1) as u64)
}

/// Whether there is room for the controller below the wanted address.
pub open spec fn gic_fits(wanted: u64, params: GicParams) -> bool {
    &&& params.dist_align >= 1
    &&& params.redist_align >= 1
    &&& params.redist_region_size <= dist_base(wanted, params)
}

/// The step that maps the region at `index`, or goes on to the interrupt
/// controller.
pub open spec fn map_step(regions: Seq<GuestRegion>, index: int) -> BootStep {
    if index < regions.len() {
        BootStep::Do(
            BootRequest::MapMemory {
                host_addr: regions[index].host_addr,
                guest_addr: regions[index].guest_addr,
                size: regions[index].size,
                flags: GUEST_MEMORY_FLAGS,
            },
            BootState::Mapped { index: index as usize },
        )
    } else {
        BootStep::Do(BootRequest::GicAvailable, BootState::Availability)
    }
}

/// The first step of bringing up a machine.
pub open spec fn boot_first(regions: Seq<GuestRegion>) -> BootStep {
    map_step(regions, 0)
}

/// The step that writes the configuration register at `index`, or ends.
pub open spec fn icfgr_step(index: int) -> BootStep {
    if index < 4 {
        BootStep::Do(
            BootRequest::SetDistributorReg(
                (GICD_ICFGR_SPI + 4 * index) as u16,
                ALL_EDGE_TRIGGERED,
            ),
            BootState::ConfigWritten { number: index as u16 },
        )
    } else {
        BootStep::Done(Ok(()))
    }
}

/// The step that follows the reply to a request. A region that cannot be mapped
/// ends it; what fails of the interrupt controller does not.
pub open spec fn boot_step(
    regions: Seq<GuestRegion>,
    gic_dist_base: u64,
    state: BootState,
    reply: BootReply,
) -> BootStep {
    match state {
        BootState::Mapped { index } => if reply.ret == ffi::HV_SUCCESS {
            map_step(regions, index + 1)
        } else {
            BootStep::Done(Err(Error { number: reply.ret }))
        },
        BootState::Availability => if reply.present {
            BootStep::Do(BootRequest::GicParameters, BootState::Parameters)
        } else {
            BootStep::Done(Ok(()))
        },
        BootState::Parameters => BootStep::Do(
            BootRequest::GicConfigCreate,
            BootState::Config {
                dist_base: dist_base(gic_dist_base, reply.params),
                redist_base: redist_base(gic_dist_base, reply.params),
            },
        ),
        BootState::Config { dist_base, redist_base } => if reply.present {
            BootStep::Do(
                BootRequest::SetDistributorBase(dist_base),
                BootState::DistributorSet { redist_base },
            )
        } else {
            BootStep::Done(Ok(()))
        },
        BootState::DistributorSet { redist_base } => BootStep::Do(
            BootRequest::SetRedistributorBase(redist_base),
            BootState::RedistributorSet,
        ),
        BootState::RedistributorSet => BootStep::Do(BootRequest::GicCreate, BootState::Created),
        BootState::Created => BootStep::Do(
            BootRequest::ConfigRelease,
            BootState::Released { created: reply.ret },
        ),
        BootState::Released { created } => if created == ffi::HV_SUCCESS {
            BootStep::Do(
                BootRequest::SetDistributorReg(GICD_CTLR, GICD_CTLR_ENABLE_GRP1_NS),
                BootState::ControlWritten,
            )
        } else {
            BootStep::Done(Ok(()))
        },
        BootState::ControlWritten => icfgr_step(0),
        BootState::ConfigWritten { number } => icfgr_step(number + 1),
    }
}

/// A machine that is coming up.
pub struct VmBoot {
    /// The regions of guest memory, in the order in which they are mapped.
    pub regions: Vec<GuestRegion>,
    /// Where the distributor of the interrupt controller is wanted.
    pub gic_dist_base: u64,
}

impl VmBoot {
    /// Starts to bring up a machine.
    pub fn start(&self) -> (step: BootStep)
        ensures
            step == boot_first(self.regions@),
    {
        self.map_at(0)
    }

    fn map_at(&self, index: usize) -> (step: BootStep)
        ensures
            step == map_step(self.regions@, index as int),
    {
        if index < self.regions.len() {
            let region: GuestRegion = self.regions[index];
            BootStep::Do(
                BootRequest::MapMemory {
                    host_addr: region.host_addr,
                    guest_addr: region.guest_addr,
                    size: region.size,
                    flags: GUEST_MEMORY_FLAGS,
                },
                BootState::Mapped { index },
            )
        } else {
            BootStep::Do(BootRequest::GicAvailable, BootState::Availability)
        }
    }

    fn configure_at(index: u16) -> (step: BootStep)
        requires
            index <= 4,
        ensures
            step == icfgr_step(index as int),
    {
        if index < CONFIGURED_SPIS / SPIS_PER_ICFGR {
            BootStep::Do(
                BootRequest::SetDistributorReg(GICD_ICFGR_SPI + 4 * index, ALL_EDGE_TRIGGERED),
                BootState::ConfigWritten { number: index },
            )
        } else {
            BootStep::Done(Ok(()))
        }
    }

    /// Continues with the reply to the request that was made in `state`.
    pub fn resume(&self, state: BootState, reply: BootReply) -> (step: BootStep)
        requires
            state matches BootState::Mapped { index } ==> index < self.regions@.len(),
            state matches BootState::ConfigWritten { number } ==> number < 4,
            state is Parameters ==> gic_fits(self.gic_dist_base, reply.params),
        ensures
            step == boot_step(self.regions@, self.gic_dist_base, state, reply),
    {
        match state {
            BootState::Mapped { index } => {
                if reply.ret != ffi::HV_SUCCESS {
                    return BootStep::Done(Err(Error::new(reply.ret)));
                }
                assert(self.regions.len() == self.regions@.len());
                self.map_at(index + 1)
            },
            BootState::Availability => if reply.present {
                BootStep::Do(BootRequest::GicParameters, BootState::Parameters)
            } else {
                BootStep::Done(Ok(()))
            },
            BootState::Parameters => {
                let params: GicParams = reply.params;
                let dist_base: u64 = mask_down(self.gic_dist_base, params.dist_align);
                let redist_base: u64 = mask_down(
                    dist_base - params.redist_region_size,
                    params.redist_align,
                );
                BootStep::Do(
                    BootRequest::GicConfigCreate,
                    BootState::Config { dist_base, redist_base },
                )
            },
            BootState::Config { dist_base, redist_base } => if reply.present {
                BootStep::Do(
                    BootRequest::SetDistributorBase(dist_base),
                    BootState::DistributorSet { redist_base },
                )
            } else {
                BootStep::Done(Ok(()))
            },
            BootState::DistributorSet { redist_base } => BootStep::Do(
                BootRequest::SetRedistributorBase(redist_base),
                BootState::RedistributorSet,
            ),
            BootState::RedistributorSet => BootStep::Do(BootRequest::GicCreate, BootState::Created),
            BootState::Created => BootStep::Do(
                BootRequest::ConfigRelease,
                BootState::Released { created: reply.ret },
            ),
            BootState::Released { created } => if created == ffi::HV_SUCCESS {
                BootStep::Do(
                    BootRequest::SetDistributorReg(GICD_CTLR, GICD_CTLR_ENABLE_GRP1_NS),
                    BootState::ControlWritten,
                )
            } else {
                BootStep::Done(Ok(()))
            },
            BootState::ControlWritten => Self::configure_at(0),
            BootState::ConfigWritten { number } => Self::configure_at(number + 1),
        }
    }
}

/// How bringing up a machine goes on from `step` when each request gets the
/// reply that `replies` has for it: the requests that are made and how it ends,
/// if it does within `fuel` requests.
pub open spec fn boot_run(
    regions: Seq<GuestRegion>,
    gic_dist_base: u64,
    step: BootStep,
    replies: spec_fn(BootRequest) -> BootReply,
    fuel: nat,
) -> (Seq<BootRequest>, Option<Result<(), Error>>)
    decreases fuel,
{
    match step {
        BootStep::Do(request, state) => if fuel == 0 {
            (Seq::empty(), None)
        } else {
            let rest = boot_run(
                regions,
                gic_dist_base,
                boot_step(regions, gic_dist_base, state, replies(request)),
                replies,
                (fuel - 1) as nat,
            );
            (seq![request] + rest.0, rest.1)
        },
        BootStep::Done(result) => (Seq::empty(), Some(result)),
    }
}

/// The code that mapping the region at `index` returns.
pub open spec fn map_ret(
    regions: Seq<GuestRegion>,
    index: int,
    replies: spec_fn(BootRequest) -> BootReply,
) -> hv_return_t {
    replies(map_step(regions, index)->Do_0).ret
}

/// The most calls that setting up the interrupt controller takes.
pub open spec fn gic_calls() -> nat {
    12
}

proof fn lemma_gic_never_fails(
    regions: Seq<GuestRegion>,
    gic_dist_base: u64,
    replies: spec_fn(BootRequest) -> BootReply,
    fuel: nat,
)
    requires
        fuel >= gic_calls(),
    ensures
        boot_run(
            regions,
            gic_dist_base,
            BootStep::Do(BootRequest::GicAvailable, BootState::Availability),
            replies,
            fuel,
        ).1 == Some(Ok::<(), Error>(())),
{
    reveal_with_fuel(boot_run, 14);
}

proof fn lemma_boot(
    regions: Seq<GuestRegion>,
    index: int,
    gic_dist_base: u64,
    replies: spec_fn(BootRequest) -> BootReply,
    fuel: nat,
)
    requires
        0 <= index <= regions.len() <= usize::MAX,
        fuel >= regions.len() - index + gic_calls(),
    ensures
        ({
            let outcome = boot_run(
                regions,
                gic_dist_base,
                map_step(regions, index),
                replies,
                fuel,
            ).1;
            match outcome {
                Some(Ok(_)) => forall|i: int|
                    index <= i < regions.len() ==> #[trigger] map_ret(regions, i, replies)
                        == ffi::HV_SUCCESS,
                Some(Err(e)) => exists|i: int|
                    index <= i < regions.len() && #[trigger] map_ret(regions, i, replies)
                        == e.number && e.number != ffi::HV_SUCCESS && (forall|j: int|
                        index <= j < i ==> #[trigger] map_ret(regions, j, replies)
                            == ffi::HV_SUCCESS),
                None => false,
            }
        }),
    decreases regions.len() - index,
{
    let step = map_step(regions, index);
    if index < regions.len() {
        let reply = replies(step->Do_0);
        assert(map_ret(regions, index, replies) == reply.ret);
        if reply.ret == ffi::HV_SUCCESS {
            assert(boot_step(regions, gic_dist_base, step->Do_1, reply) == map_step(
                regions,
                index + 1,
            ));
            lemma_boot(regions, index + 1, gic_dist_base, replies, (fuel - 1) as nat);
            let rest = boot_run(
                regions,
                gic_dist_base,
                map_step(regions, index + 1),
                replies,
                (fuel - 1) as nat,
            ).1;
            assert(boot_run(regions, gic_dist_base, step, replies, fuel).1 == rest);
            if let Some(Err(e)) = rest {
                let i = choose|i: int|
                    index + 1 <= i < regions.len() && #[trigger] map_ret(regions, i, replies)
                        == e.number && e.number != ffi::HV_SUCCESS && (forall|j: int|
                        index + 1 <= j < i ==> #[trigger] map_ret(regions, j, replies)
                            == ffi::HV_SUCCESS);
                assert(map_ret(regions, i, replies) == e.number);
            }
        } else {
            let done = boot_step(regions, gic_dist_base, step->Do_1, reply);
            assert(done == BootStep::Done(Err(Error { number: reply.ret })));
            assert(boot_run(regions, gic_dist_base, done, replies, (fuel - 1) as nat).1 == Some(
                Err::<(), Error>(Error { number: reply.ret }),
            ));
        }
    } else {
        lemma_gic_never_fails(regions, gic_dist_base, replies, fuel);
    }
}

/// A machine comes up if and only if all its memory can be mapped; else it
/// fails with the code of the first region that cannot. Nothing that goes wrong
/// with the interrupt controller keeps it from coming up.
pub proof fn law_only_memory_decides(
    regions: Seq<GuestRegion>,
    gic_dist_base: u64,
    replies: spec_fn(BootRequest) -> BootReply,
)
    requires
        regions.len() <= usize::MAX,
    ensures
        ({
            let outcome = boot_run(
                regions,
                gic_dist_base,
                map_step(regions, 0),
                replies,
                regions.len() + gic_calls(),
            ).1;
            match outcome {
                Some(Ok(_)) => forall|i: int|
                    0 <= i < regions.len() ==> #[trigger] map_ret(regions, i, replies)
                        == ffi::HV_SUCCESS,
                Some(Err(e)) => exists|i: int|
                    0 <= i < regions.len() && #[trigger] map_ret(regions, i, replies) == e.number
                        && e.number != ffi::HV_SUCCESS && (forall|j: int|
                        0 <= j < i ==> #[trigger] map_ret(regions, j, replies) == ffi::HV_SUCCESS),
                None => false,
            }
        }),
{
    lemma_boot(regions, 0, gic_dist_base, replies, regions.len() + gic_calls());
}

/// The distributor and the redistributors are aligned as the framework asks and
/// do not overlap, and the distributor lies no higher than was wanted.
pub proof fn law_gic_placement(wanted: u64, params: GicParams)
    requires
        gic_fits(wanted, params),
        is_power_of_two(params.dist_align as int),
        is_power_of_two(params.redist_align as int),
    ensures
        dist_base(wanted, params) % params.dist_align == 0,
        redist_base(wanted, params) % params.redist_align == 0,
        dist_base(wanted, params) <= wanted,
        redist_base(wanted, params) + params.redist_region_size <= dist_base(wanted, params),
{
    let below = (dist_base(wanted, params) - params.redist_region_size) as u64;
    crate::align::lemma_mask_down(wanted, params.dist_align);
    crate::align::lemma_mask_down(below, params.redist_align);
}

/// The distributor is programmed only if the controller was created. Then its
/// control register is written first, and each configuration register of the
/// first interrupts is set to edge-triggered, in ascending order.
pub proof fn law_distributor_programming(
    regions: Seq<GuestRegion>,
    gic_dist_base: u64,
    created: hv_return_t,
    replies: spec_fn(BootRequest) -> BootReply,
)
    ensures
        boot_run(
            regions,
            gic_dist_base,
            BootStep::Do(BootRequest::ConfigRelease, BootState::Released { created }),
            replies,
            6,
        ).0 == (if created == ffi::HV_SUCCESS {
            seq![
                BootRequest::ConfigRelease,
                BootRequest::SetDistributorReg(0, 2),
                BootRequest::SetDistributorReg(0xC08, 0xAAAA_AAAA),
                BootRequest::SetDistributorReg(0xC0C, 0xAAAA_AAAA),
                BootRequest::SetDistributorReg(0xC10, 0xAAAA_AAAA),
                BootRequest::SetDistributorReg(0xC14, 0xAAAA_AAAA),
            ]
        } else {
            seq![BootRequest::ConfigRelease]
        }),
{
    reveal_with_fuel(boot_run, 8);
    let run = boot_run(
        regions,
        gic_dist_base,
        BootStep::Do(BootRequest::ConfigRelease, BootState::Released { created }),
        replies,
        6,
    ).0;
    if created == ffi::HV_SUCCESS {
        assert(run =~= seq![
            BootRequest::ConfigRelease,
            BootRequest::SetDistributorReg(0, 2),
            BootRequest::SetDistributorReg(0xC08, 0xAAAA_AAAA),
            BootRequest::SetDistributorReg(0xC0C, 0xAAAA_AAAA),
            BootRequest::SetDistributorReg(0xC10, 0xAAAA_AAAA),
            BootRequest::SetDistributorReg(0xC14, 0xAAAA_AAAA),
        ]);
    } else {
        assert(run =~= seq![BootRequest::ConfigRelease]);
    }
}

/// Setting up the interrupt controller, call by call: nothing is asked of a framework
/// that has none; where a configuration can be made, both parts get their places, the
/// controller is created and the configuration is released, and only a controller that
/// was created is programmed. What the calls that set places and registers return does
/// not matter.
pub proof fn law_gic_is_set_up(
    regions: Seq<GuestRegion>,
    wanted: u64,
    replies: spec_fn(BootRequest) -> BootReply,
)
    ensures
        ({
            let params = replies(BootRequest::GicParameters).params;
            let asked = seq![BootRequest::GicAvailable];
            let tried = seq![BootRequest::GicParameters, BootRequest::GicConfigCreate];
            let placed = seq![
                BootRequest::SetDistributorBase(dist_base(wanted, params)),
                BootRequest::SetRedistributorBase(redist_base(wanted, params)),
                BootRequest::GicCreate,
                BootRequest::ConfigRelease,
            ];
            let programmed = seq![
                BootRequest::SetDistributorReg(0, 2),
                BootRequest::SetDistributorReg(0xC08, 0xAAAA_AAAA),
                BootRequest::SetDistributorReg(0xC0C, 0xAAAA_AAAA),
                BootRequest::SetDistributorReg(0xC10, 0xAAAA_AAAA),
                BootRequest::SetDistributorReg(0xC14, 0xAAAA_AAAA),
            ];
            let (made, end) = boot_run(
                regions,
                wanted,
                map_step(regions, regions.len() as int),
                replies,
                12,
            );
            &&& end == Some(Ok::<(), Error>(()))
            &&& made == (if !replies(BootRequest::GicAvailable).present {
                asked
            } else if !replies(BootRequest::GicConfigCreate).present {
                asked + tried
            } else if replies(BootRequest::GicCreate).ret != 0 {
                asked + tried + placed
            } else {
                asked + tried + placed + programmed
            })
        }),
{
    reveal_with_fuel(boot_run, 14);
    let params = replies(BootRequest::GicParameters).params;
    let asked = seq![BootRequest::GicAvailable];
    let tried = seq![BootRequest::GicParameters, BootRequest::GicConfigCreate];
    let placed = seq![
        BootRequest::SetDistributorBase(dist_base(wanted, params)),
        BootRequest::SetRedistributorBase(redist_base(wanted, params)),
        BootRequest::GicCreate,
        BootRequest::ConfigRelease,
    ];
    let programmed = seq![
        BootRequest::SetDistributorReg(0, 2),
        BootRequest::SetDistributorReg(0xC08, 0xAAAA_AAAA),
        BootRequest::SetDistributorReg(0xC0C, 0xAAAA_AAAA),
        BootRequest::SetDistributorReg(0xC10, 0xAAAA_AAAA),
        BootRequest::SetDistributorReg(0xC14, 0xAAAA_AAAA),
    ];
    let made = boot_run(regions, wanted, map_step(regions, regions.len() as int), replies, 12).0;
    if !replies(BootRequest::GicAvailable).present {
        assert(made =~= asked);
    } else if !replies(BootRequest::GicConfigCreate).present {
        assert(made =~= asked + tried);
    } else if replies(BootRequest::GicCreate).ret != 0 {
        assert(made =~= asked + tried + placed);
    } else {
        assert(made =~= asked + tried + placed + programmed);
    }
}

/// The calls that map guest memory: each region in its order, from where it lies in the
/// host to where it lies in the guest, in its whole size, to be read, written and
/// executed. The first that fails is the last call of all; after all of them comes the
/// interrupt controller.
pub proof fn law_all_memory_is_mapped(
    regions: Seq<GuestRegion>,
    wanted: u64,
    replies: spec_fn(BootRequest) -> BootReply,
    n: int,
)
    requires
        regions.len() <= usize::MAX,
        0 <= n <= regions.len(),
        forall|i: int|
            0 <= i < n ==> (#[trigger] replies(
                BootRequest::MapMemory {
                    host_addr: regions[i].host_addr,
                    guest_addr: regions[i].guest_addr,
                    size: regions[i].size,
                    flags: 7,
                },
            )).ret == 0,
        n < regions.len() ==> replies(
            BootRequest::MapMemory {
                host_addr: regions[n].host_addr,
                guest_addr: regions[n].guest_addr,
                size: regions[n].size,
                flags: 7,
            },
        ).ret != 0,
    ensures
        ({
            let (made, end) = boot_run(
                regions,
                wanted,
                boot_first(regions),
                replies,
                regions.len() + 12,
            );
            &&& n < regions.len() ==> made.len() == n + 1 && end is Some && end->0 is Err
            &&& n == regions.len() ==> made.len() > n && made[n] == BootRequest::GicAvailable && end
                == Some(Ok::<(), Error>(()))
            &&& forall|i: int|
                0 <= i < made.len() && i < regions.len() ==> #[trigger] made[i]
                    == (BootRequest::MapMemory {
                    host_addr: regions[i].host_addr,
                    guest_addr: regions[i].guest_addr,
                    size: regions[i].size,
                    flags: 7,
                })
        }),
{
    lemma_all_mapped(regions, wanted, replies, 0, n, regions.len() + 12);
}

proof fn lemma_all_mapped(
    regions: Seq<GuestRegion>,
    wanted: u64,
    replies: spec_fn(BootRequest) -> BootReply,
    from: int,
    n: int,
    fuel: nat,
)
    requires
        regions.len() <= usize::MAX,
        0 <= from <= n <= regions.len(),
        fuel >= regions.len() - from + 12,
        forall|i: int|
            from <= i < n ==> (#[trigger] replies(
                BootRequest::MapMemory {
                    host_addr: regions[i].host_addr,
                    guest_addr: regions[i].guest_addr,
                    size: regions[i].size,
                    flags: 7,
                },
            )).ret == 0,
        n < regions.len() ==> replies(
            BootRequest::MapMemory {
                host_addr: regions[n].host_addr,
                guest_addr: regions[n].guest_addr,
                size: regions[n].size,
                flags: 7,
            },
        ).ret != 0,
    ensures
        ({
            let (made, end) = boot_run(regions, wanted, map_step(regions, from), replies, fuel);
            &&& n < regions.len() ==> made.len() == n + 1 - from && end is Some && end->0 is Err
            &&& n == regions.len() ==> made.len() > n - from && made[n - from]
                == BootRequest::GicAvailable && end == Some(Ok::<(), Error>(()))
            &&& forall|i: int|
                0 <= i < made.len() && from + i < regions.len() ==> #[trigger] made[i]
                    == (BootRequest::MapMemory {
                    host_addr: regions[from + i].host_addr,
                    guest_addr: regions[from + i].guest_addr,
                    size: regions[from + i].size,
                    flags: 7,
                })
        }),
    decreases n - from,
{
    let step = map_step(regions, from);
    let (made, end) = boot_run(regions, wanted, step, replies, fuel);
    if from == regions.len() {
        lemma_gic_never_fails(regions, wanted, replies, fuel);
    } else {
        let request = BootRequest::MapMemory {
            host_addr: regions[from].host_addr,
            guest_addr: regions[from].guest_addr,
            size: regions[from].size,
            flags: 7,
        };
        let next = boot_step(regions, wanted, step->Do_1, replies(request));
        let rest = boot_run(regions, wanted, next, replies, (fuel - 1) as nat);
        assert(made == seq![request] + rest.0 && end == rest.1);
        if from < n {
            assert(replies(request).ret == 0);
            assert(next == map_step(regions, from + 1));
            lemma_all_mapped(regions, wanted, replies, from + 1, n, (fuel - 1) as nat);
            assert forall|i: int| 0 <= i < made.len() && from + i < regions.len() implies #[trigger] made[i]
                == (BootRequest::MapMemory {
                host_addr: regions[from + i].host_addr,
                guest_addr: regions[from + i].guest_addr,
                size: regions[from + i].size,
                flags: 7,
            }) by {
                if i > 0 {
                    assert(made[i] == rest.0[i - 1]);
                }
            }
        }
    }
}

/// Each part of the interrupt controller lies as high as its alignment allows: the
/// distributor below what was wanted, the redistributors below the distributor.
pub proof fn law_gic_is_placed_high(wanted: u64, params: GicParams)
    requires
        gic_fits(wanted, params),
        is_power_of_two(params.dist_align as int),
        is_power_of_two(params.redist_align as int),
    ensures
        wanted - dist_base(wanted, params) < params.dist_align,
        dist_base(wanted, params) - params.redist_region_size - redist_base(wanted, params)
            < params.redist_align,
{
    let below = (dist_base(wanted, params) - params.redist_region_size) as u64;
    crate::align::lemma_mask_down(wanted, params.dist_align);
    crate::align::lemma_mask_down(below, params.redist_align);
}

/// Where the framework tells nothing, both parts of the interrupt controller lie at the
/// wanted address, moved down to 64 kibibytes.
pub proof fn law_unknown_parameters(wanted: u64)
    ensures
        dist_base(wanted, unknown_params()) == wanted & !0xffff,
        redist_base(wanted, unknown_params()) == wanted & !0xffff,
{
    assert((wanted & !0xffff) & !0xffff == wanted & !0xffff) by (bit_vector);
}

} // verus!
