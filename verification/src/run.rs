//! Running a machine from its configuration to its end.

pub mod components;
pub mod handlers;
pub mod order;
pub mod plan;
pub mod settings;
pub mod vcpus;

use vstd::prelude::*;

use crate::vmnet::DEFAULT_MTU;

verus! {

/// How a machine ended.
#[derive(Clone, Copy, Debug, PartialEq, Eq, Structural)]
pub enum ExitState {
    Stop,
    Reset,
    Crash,
    GuestPanic,
    WatchdogReset,
}

/// How a machine ended so far, once one more vCPU thread ended: a crash, which a
/// panic of the thread counts as, outweighs a reset, and that outweighs all else.
pub open spec fn merged(state: ExitState, thread: Option<ExitState>) -> ExitState {
    match thread {
        None => ExitState::Crash,
        Some(other) => if state is Crash {
            state
        } else if other is Crash {
            other
        } else if state is Reset {
            state
        } else if other is Reset {
            other
        } else {
            state
        },
    }
}

/// How a machine ended, given the ends of its vCPU threads; none stands for a
/// thread that panicked.
pub open spec fn merged_all(threads: Seq<Option<ExitState>>) -> ExitState
    decreases threads.len(),
{
    if threads.len() == 0 {
        ExitState::Stop
    } else {
        merged(merged_all(threads.drop_last()), threads.last())
    }
}

/// How a machine ended, given the ends of its vCPU threads.
pub fn merge_exit_states(threads: &Vec<Option<ExitState>>) -> (state: ExitState)
    ensures
        state == merged_all(threads@),
{
    let mut state: ExitState = ExitState::Stop;
    let mut i: usize = 0;
    assert(threads@.take(0).len() == 0);
    while i < threads.len()
        invariant
            i <= threads@.len(),
            state == merged_all(threads@.take(i as int)),
        decreases threads.len() - i,
    {
        assert(threads@.take(i + 1).drop_last() =~= threads@.take(i as int));
        match threads[i] {
            Some(other) => {
                let dominated: bool = match (state, other) {
                    (ExitState::Crash, _) => false,
                    (_, ExitState::Crash) => true,
                    (ExitState::Reset, _) => false,
                    (_, ExitState::Reset) => true,
                    _ => false,
                };
                if dominated {
                    state = other;
                }
            },
            None => {
                state = ExitState::Crash;
            },
        }
        i += 1;
    }
    assert(threads@.take(i as int) =~= threads@);
    state
}

/// Whether a thread crashed or panicked.
pub open spec fn crashed(thread: Option<ExitState>) -> bool {
    thread is None || thread == Some(ExitState::Crash)
}

/// A machine crashed if and only if one of its vCPU threads did, in whatever
/// order they ended; else it is reset if and only if one of them asked for that;
/// else it stopped.
pub proof fn law_exit_priority(threads: Seq<Option<ExitState>>)
    ensures
        merged_all(threads) == (if exists|i: int|
            0 <= i < threads.len() && crashed(#[trigger] threads[i]) {
            ExitState::Crash
        } else if threads.contains(Some(ExitState::Reset)) {
            ExitState::Reset
        } else {
            ExitState::Stop
        }),
    decreases threads.len(),
{
    if threads.len() > 0 {
        let rest = threads.drop_last();
        let last = threads.last();
        law_exit_priority(rest);
        assert(threads[threads.len() - 1] == last);
        if exists|i: int| 0 <= i < rest.len() && crashed(#[trigger] rest[i]) {
            let i = choose|i: int| 0 <= i < rest.len() && crashed(#[trigger] rest[i]);
            assert(crashed(threads[i]));
        } else if crashed(last) {
            assert(crashed(threads[threads.len() - 1]));
        } else {
            assert forall|i: int| 0 <= i < threads.len() implies !crashed(#[trigger] threads[i]) by {
                if i < rest.len() {
                    assert(threads[i] == rest[i]);
                }
            }
            if rest.contains(Some(ExitState::Reset)) {
                let i = choose|i: int| 0 <= i < rest.len() && rest[i] == Some(ExitState::Reset);
                assert(threads[i] == Some(ExitState::Reset));
            }
            if threads.contains(Some(ExitState::Reset)) && last != Some(ExitState::Reset) {
                let i = choose|i: int|
                    0 <= i < threads.len() && threads[i] == Some(ExitState::Reset);
                assert(rest[i] == Some(ExitState::Reset));
            }
        }
    }
}

/// Where the distributor of the interrupt controller lies.
pub const GIC_DIST_BASE: u64 = 0x3FFF_0000;

/// The size of the distributor.
pub const GIC_DIST_SIZE: u64 = 0x1_0000;

/// Where the redistributor of the first vCPU lies.
pub const GIC_REDIST_BASE: u64 = 0x3FFD_0000;

/// The size of a redistributor.
pub const GIC_REDIST_SIZE_PER_CPU: u64 = 0x2_0000;

/// The number of interrupts of the emulated distributor.
pub const GIC_EMULATED_IRQS: u32 = 64;

/// A range of addresses on the bus.
#[derive(Clone, Copy, Debug, PartialEq, Eq, Structural)]
pub struct BusRange {
    pub base: u64,
    pub len: u64,
}

/// The range of a redistributor.
pub open spec fn redist_range(cpu_id: int) -> BusRange {
    BusRange {
        base: (GIC_REDIST_BASE + cpu_id * GIC_REDIST_SIZE_PER_CPU) as u64,
        len: GIC_REDIST_SIZE_PER_CPU,
    }
}

/// The ranges of the emulated interrupt controller.
pub open spec fn windows(vcpu_count: nat) -> Seq<BusRange> {
    Seq::new(
        vcpu_count + 1,
        |i: int|
            if i == 0 {
                BusRange { base: GIC_DIST_BASE, len: GIC_DIST_SIZE }
            } else {
                redist_range(i - 1)
            },
    )
}

/// The ranges of the emulated interrupt controller: the distributor, then a
/// redistributor for each vCPU.
pub fn gic_windows(vcpu_count: usize) -> (ranges: Vec<BusRange>)
    requires
        vcpu_count <= 0xffff_ffff,
    ensures
        ranges@ == windows(vcpu_count as nat),
{
    let mut ranges: Vec<BusRange> = Vec::new();
    ranges.push(BusRange { base: GIC_DIST_BASE, len: GIC_DIST_SIZE });
    let mut cpu_id: usize = 0;
    while cpu_id < vcpu_count
        invariant
            cpu_id <= vcpu_count,
            vcpu_count <= 0xffff_ffff,
            ranges@.len() == cpu_id + 1,
            ranges@[0] == (BusRange { base: GIC_DIST_BASE, len: GIC_DIST_SIZE }),
            forall|i: int| 0 <= i < cpu_id ==> #[trigger] ranges@[i + 1] == redist_range(i),
        decreases vcpu_count - cpu_id,
    {
        let ghost before = ranges@;
        ranges.push(
            BusRange {
                base: GIC_REDIST_BASE + (cpu_id as u64) * GIC_REDIST_SIZE_PER_CPU,
                len: GIC_REDIST_SIZE_PER_CPU,
            },
        );
        assert forall|i: int| 0 <= i < cpu_id + 1 implies #[trigger] ranges@[i + 1] == redist_range(
            i,
        ) by {
            if i < cpu_id {
                assert(ranges@[i + 1] == before[i + 1]);
            }
        }
        cpu_id += 1;
    }
    assert forall|k: int| 0 <= k < ranges@.len() implies ranges@[k] == windows(
        vcpu_count as nat,
    )[k] by {
        if k > 0 {
            assert(ranges@[(k - 1) + 1] == redist_range(k - 1));
        }
    }
    assert(ranges@ =~= windows(vcpu_count as nat));
    ranges
}

/// Whether two ranges share no address.
pub open spec fn disjoint(a: BusRange, b: BusRange) -> bool {
    a.base + a.len <= b.base || b.base + b.len <= a.base
}

/// The redistributors do not overlap each other. That of the first vCPU ends
/// where the distributor begins, so it does not overlap that either; that of
/// the second begins there.
pub proof fn law_gic_windows(i: int, j: int)
    requires
        0 <= i < j <= 0xffff_ffff,
    ensures
        disjoint(redist_range(i), redist_range(j)),
        disjoint(redist_range(0), (BusRange { base: GIC_DIST_BASE, len: GIC_DIST_SIZE })),
        redist_range(1).base == GIC_DIST_BASE,
{
}

/// The network device tells its largest packet.
pub const VIRTIO_NET_F_MTU: u64 = 3;

/// The network device tells its address.
pub const VIRTIO_NET_F_MAC: u64 = 5;

/// The network device has a control queue.
pub const VIRTIO_NET_F_CTRL_VQ: u64 = 17;

/// The features of the network device.
pub open spec fn features_of(base_features: u64, has_mac: bool) -> u64 {
    base_features | 0x8 | 0x2_0000 | (if has_mac {
        0x20u64
    } else {
        0u64
    })
}

/// The features of the network device: the base features, its largest packet
/// and a control queue, and its address if that is known. Nothing that offloads
/// checksums or segmentation is on offer.
pub fn net_features(base_features: u64, has_mac: bool) -> (features: u64)
    ensures
        features == features_of(base_features, has_mac),
{
    let mut features: u64 = base_features | 0x8 | 0x2_0000;
    if has_mac {
        features = features | 0x20;
    } else {
        assert(features | 0 == features) by (bit_vector);
    }
    features
}

/// The largest packet of the network device.
pub open spec fn mtu_of(mtu: Option<u16>) -> u16 {
    match mtu {
        Some(n) => n,
        None => DEFAULT_MTU,
    }
}

/// The largest packet of the network device.
pub fn net_mtu(mtu: Option<u16>) -> (n: u16)
    ensures
        n == mtu_of(mtu),
{
    match mtu {
        Some(n) => n,
        None => DEFAULT_MTU,
    }
}

/// The directory that is shared with the guest.
pub open spec fn shared_path(
    configured: Option<Seq<char>>,
    canonical: Option<Seq<char>>,
) -> Seq<char> {
    match canonical {
        Some(path) => path,
        None => match configured {
            Some(path) => path,
            None => "/private/tmp/aetheria-share"@,
        },
    }
}

/// The directory that is shared with the guest: the configured one or the
/// default, in its canonical form if it has one.
pub fn share_path(configured: Option<String>, canonical: Option<String>) -> (path: String)
    ensures
        path@ == shared_path(
            match configured {
                Some(path) => Some(path@),
                None => None,
            },
            match canonical {
                Some(path) => Some(path@),
                None => None,
            },
        ),
{
    match canonical {
        Some(path) => path,
        None => match configured {
            Some(path) => path,
            None => "/private/tmp/aetheria-share".to_owned(),
        },
    }
}

/// The graphics render server of the host.
pub struct GpuRenderServerParameters {
    /// The program.
    pub path: String,
    /// Where it caches compiled programs, if it does.
    pub cache_path: Option<String>,
    /// How large that cache may grow.
    pub cache_size: Option<String>,
    /// The list of databases of compiled programs.
    pub foz_db_list_path: Option<String>,
    /// Where programs that were compiled before are.
    pub precompiled_cache_path: Option<String>,
    /// A library that is loaded first.
    pub ld_preload_path: Option<String>,
}

/// Where the emulated interrupt controller lies: the distributor in the 64 kibibytes
/// below the guest's memory, which begins at one gibibyte, and a redistributor of 128
/// kibibytes for each vCPU, one behind the other, the first of which ends where the
/// distributor begins.
pub proof fn law_gic_addresses(vcpu_count: nat, i: int)
    requires
        0 <= i < vcpu_count <= 0xffff_ffff,
    ensures
        windows(vcpu_count).len() == 1 + vcpu_count,
        windows(vcpu_count)[0].base + windows(vcpu_count)[0].len == 0x4000_0000,
        windows(vcpu_count)[0].len == 0x1_0000,
        windows(vcpu_count)[1].base + windows(vcpu_count)[1].len == windows(vcpu_count)[0].base,
        windows(vcpu_count)[1 + i].len == 0x2_0000,
        windows(vcpu_count)[1 + i].base == windows(vcpu_count)[1].base + i * 0x2_0000,
{
}

/// The network device offers what the base features do, tells its largest packet and has
/// a control queue, tells its address exactly if it is known or was on offer anyway, and
/// offers nothing else.
pub proof fn law_net_features(base_features: u64, has_mac: bool, bit: u64)
    requires
        bit < 64,
    ensures
        (features_of(base_features, has_mac) >> bit) & 1 == 1 <==> (base_features >> bit) & 1 == 1
            || bit == 3 || bit == 17 || (bit == 5 && has_mac),
{
    assert(((base_features | 0x8 | 0x2_0000 | 0x20) >> bit) & 1 == 1 <==> (base_features >> bit) & 1
        == 1 || bit == 3 || bit == 17 || bit == 5) by (bit_vector)
        requires
            bit < 64,
    ;
    assert(((base_features | 0x8 | 0x2_0000 | 0) >> bit) & 1 == 1 <==> (base_features >> bit) & 1
        == 1 || bit == 3 || bit == 17) by (bit_vector)
        requires
            bit < 64,
    ;
}

/// The largest packet is what the interface tells, else 1500 bytes.
pub proof fn law_mtu(n: u16)
    ensures
        mtu_of(Some(n)) == n,
        mtu_of(None) == 1500,
{
}

/// The shared directory is the one that was configured, whether or not it has a canonical
/// form; its canonical form counts if it has one, and there is a default.
pub proof fn law_shared_directory(configured: Seq<char>, canonical: Seq<char>)
    ensures
        shared_path(Some(configured), None) == configured,
        shared_path(Some(configured), Some(canonical)) == canonical,
        shared_path(None, Some(canonical)) == canonical,
        shared_path(None, None) == "/private/tmp/aetheria-share"@,
{
}

} // verus!
