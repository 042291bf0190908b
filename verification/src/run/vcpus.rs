//! The vCPUs of a machine: how they are started, run and stopped.

use vstd::prelude::*;

use crate::errno::Error;
use crate::hvf::ffi::{hv_vcpu_exit_t, hv_vcpu_t, HV_EXIT_REASON_CANCELED, MPIDR_RES1};
use crate::hvf::vcpu::{exit_step, RunStep, VcpuExit, VcpuRegAArch64};
use crate::hvf::vm::IoEventAddress;
use crate::psci::{CpuOnResult, PSCI_EXIT_NONE, PSCI_EXIT_RESET, PSCI_EXIT_SHUTDOWN};
use crate::run::ExitState;

verus! {

/// Kernel mode, with all interrupts masked.
pub const SECONDARY_PSTATE: u64 = 0x3C5;

/// What is known of the vCPUs of a machine.
pub struct VcpuSet {
    /// The framework's handles; zero stands for a vCPU that is not there yet.
    pub handles: Vec<hv_vcpu_t>,
    /// Where each vCPU was told to start, and with what argument.
    pub signals: Vec<Option<(u64, u64)>>,
    /// Which vCPUs run.
    pub running: Vec<bool>,
}

/// The vCPU that an affinity names.
pub open spec fn target_vcpu(mpidr: u64) -> int {
    (mpidr % 0x100) as int
}

impl VcpuSet {
    /// The three lists have an entry for each vCPU.
    pub open spec fn wf(self) -> bool {
        &&& self.signals@.len() == self.handles@.len()
        &&& self.running@.len() == self.handles@.len()
    }

    /// How starting a vCPU goes: one that is not there is refused, and each is
    /// started once.
    pub open spec fn cpu_on_result(self, mpidr: u64) -> CpuOnResult {
        let target = target_vcpu(mpidr);
        if target >= self.running@.len() {
            CpuOnResult::InvalidParameters
        } else if self.running@[target] || self.signals@[target] is Some {
            CpuOnResult::AlreadyOn
        } else {
            CpuOnResult::Success
        }
    }

    /// The handles of the vCPUs that are there.
    pub open spec fn present(self) -> Seq<hv_vcpu_t> {
        self.handles@.filter(|h: hv_vcpu_t| h != 0)
    }

    /// Where each vCPU was told to start, once one more was.
    pub open spec fn signals_after(self, mpidr: u64, entry_point: u64, context_id: u64) -> Seq<
        Option<(u64, u64)>,
    > {
        if self.cpu_on_result(mpidr) is Success {
            self.signals@.update(target_vcpu(mpidr), Some((entry_point, context_id)))
        } else {
            self.signals@
        }
    }

    /// A set of vCPUs none of which is there yet.
    pub fn new(vcpu_count: usize) -> (set: VcpuSet)
        ensures
            set.wf(),
            set.handles@ == Seq::new(vcpu_count as nat, |i: int| 0u64),
            set.signals@ == Seq::new(vcpu_count as nat, |i: int| None::<(u64, u64)>),
            set.running@ == Seq::new(vcpu_count as nat, |i: int| false),
    {
        let mut handles: Vec<hv_vcpu_t> = Vec::new();
        let mut signals: Vec<Option<(u64, u64)>> = Vec::new();
        let mut running: Vec<bool> = Vec::new();
        let mut i: usize = 0;
        while i < vcpu_count
            invariant
                i <= vcpu_count,
                handles@ =~= Seq::new(i as nat, |i: int| 0u64),
                signals@ =~= Seq::new(i as nat, |i: int| None::<(u64, u64)>),
                running@ =~= Seq::new(i as nat, |i: int| false),
            decreases vcpu_count - i,
        {
            handles.push(0);
            signals.push(None);
            running.push(false);
            i += 1;
        }
        VcpuSet { handles, signals, running }
    }

    /// Tells a vCPU to start at `entry_point` with `context_id`.
    pub fn cpu_on(&mut self, target_mpidr: u64, entry_point: u64, context_id: u64) -> (result:
        CpuOnResult)
        requires
            old(self).wf(),
        ensures
            final(self).wf(),
            result == old(self).cpu_on_result(target_mpidr),
            final(self).handles == old(self).handles,
            final(self).running == old(self).running,
            final(self).signals@ == old(self).signals_after(target_mpidr, entry_point, context_id),
    {
        let target_id: usize = (target_mpidr % 0x100) as usize;
        if target_id >= self.running.len() {
            return CpuOnResult::InvalidParameters;
        }
        if self.running[target_id] {
            return CpuOnResult::AlreadyOn;
        }
        if self.signals[target_id].is_some() {
            return CpuOnResult::AlreadyOn;
        }
        self.signals.set(target_id, Some((entry_point, context_id)));
        CpuOnResult::Success
    }

    /// The handles of the vCPUs that are to be stopped: all that are there.
    pub fn system_off(&self) -> (handles: Vec<hv_vcpu_t>)
        ensures
            handles@ == self.present(),
    {
        let mut handles: Vec<hv_vcpu_t> = Vec::new();
        let ghost present = |h: hv_vcpu_t| h != 0;
        let mut i: usize = 0;
        assert(self.handles@.take(0).filter(present) =~= Seq::<hv_vcpu_t>::empty()) by {
            reveal(Seq::filter);
        }
        while i < self.handles.len()
            invariant
                i <= self.handles@.len(),
                present == (|h: hv_vcpu_t| h != 0),
                handles@ == self.handles@.take(i as int).filter(present),
            decreases self.handles.len() - i,
        {
            let h: hv_vcpu_t = self.handles[i];
            proof {
                reveal(Seq::filter);
                assert(self.handles@.take(i + 1).drop_last() =~= self.handles@.take(i as int));
            }
            if h != 0 {
                handles.push(h);
            }
            i += 1;
        }
        assert(self.handles@.take(i as int) =~= self.handles@);
        handles
    }

    /// Records the handle of a vCPU.
    pub fn set_handle(&mut self, vcpu_id: usize, handle: hv_vcpu_t)
        requires
            old(self).wf(),
            vcpu_id < old(self).handles@.len(),
        ensures
            final(self).wf(),
            final(self).handles@ == old(self).handles@.update(vcpu_id as int, handle),
            final(self).signals == old(self).signals,
            final(self).running == old(self).running,
    {
        self.handles.set(vcpu_id, handle);
    }

    /// Records whether a vCPU runs.
    pub fn set_running(&mut self, vcpu_id: usize, running: bool)
        requires
            old(self).wf(),
            vcpu_id < old(self).handles@.len(),
        ensures
            final(self).wf(),
            final(self).running@ == old(self).running@.update(vcpu_id as int, running),
            final(self).signals == old(self).signals,
            final(self).handles == old(self).handles,
    {
        self.running.set(vcpu_id, running);
    }
}

/// A vCPU is started once: after a start that succeeded, another one of the same
/// vCPU is refused, and the others are not affected.
pub proof fn law_started_once(before: VcpuSet, after: VcpuSet, mpidr: u64, other: u64)
    requires
        before.wf(),
        before.cpu_on_result(mpidr) is Success,
        after.handles == before.handles,
        after.running == before.running,
        exists|entry: u64, context: u64|
            after.signals@ == #[trigger] before.signals@.update(
                target_vcpu(mpidr),
                Some((entry, context)),
            ),
        target_vcpu(other) != target_vcpu(mpidr),
    ensures
        after.cpu_on_result(mpidr) is AlreadyOn,
        after.cpu_on_result(other) == before.cpu_on_result(other),
{
}

/// What a vCPU that waits to be started does.
#[derive(Clone, Copy, Debug, PartialEq, Eq, Structural)]
pub enum StartStep {
    /// Start at this address with this argument.
    Start { entry_point: u64, context_id: u64 },
    /// End: the machine is turned off.
    Stop,
    /// Wait on.
    Wait,
}

/// What a vCPU that waits to be started does, given where it was told to start,
/// if it was, and the exit that the guest asked for.
pub open spec fn start_step(signal: Option<(u64, u64)>, exit_request: u8) -> StartStep {
    match signal {
        Some((entry_point, context_id)) => StartStep::Start { entry_point, context_id },
        None => if exit_request != PSCI_EXIT_NONE {
            StartStep::Stop
        } else {
            StartStep::Wait
        },
    }
}

/// What a vCPU that waits to be started does.
pub fn await_start(signal: Option<(u64, u64)>, exit_request: u8) -> (step: StartStep)
    ensures
        step == start_step(signal, exit_request),
{
    match signal {
        Some((entry_point, context_id)) => StartStep::Start { entry_point, context_id },
        None => if exit_request != PSCI_EXIT_NONE {
            StartStep::Stop
        } else {
            StartStep::Wait
        },
    }
}

/// The registers of a vCPU that starts.
pub open spec fn start_registers(entry_point: u64, context_id: u64) -> Seq<(VcpuRegAArch64, u64)> {
    seq![
        (VcpuRegAArch64::Pc, entry_point),
        (VcpuRegAArch64::X(0), context_id),
        (VcpuRegAArch64::Pstate, SECONDARY_PSTATE),
    ]
}

/// The registers of a vCPU that starts: where it begins, its argument, and
/// kernel mode with interrupts masked.
pub fn secondary_registers(entry_point: u64, context_id: u64) -> (regs: Vec<(VcpuRegAArch64, u64)>)
    ensures
        regs@ == start_registers(entry_point, context_id),
{
    let mut regs: Vec<(VcpuRegAArch64, u64)> = Vec::new();
    regs.push((VcpuRegAArch64::Pc, entry_point));
    regs.push((VcpuRegAArch64::X(0), context_id));
    regs.push((VcpuRegAArch64::Pstate, SECONDARY_PSTATE));
    regs
}

/// The affinity register of a vCPU.
pub open spec fn affinity_of(vcpu_id: usize) -> u64 {
    MPIDR_RES1 | vcpu_id as u64
}

/// The affinity register of a vCPU: its number, and the bit that is always set.
pub fn mpidr_value(vcpu_id: usize) -> (mpidr: u64)
    ensures
        mpidr == affinity_of(vcpu_id),
        vcpu_id < 0x8000_0000 ==> mpidr == MPIDR_RES1 + vcpu_id,
        vcpu_id < 0x100 ==> target_vcpu(mpidr) == vcpu_id,
{
    let id: u64 = vcpu_id as u64;
    proof {
        assert(id < 0x8000_0000 ==> 0x8000_0000u64 | id == 0x8000_0000 + id) by (bit_vector);
    }
    MPIDR_RES1 | id
}

/// A stage in the life of a vCPU thread.
#[derive(Clone, Copy, Debug, PartialEq, Eq, Structural)]
pub enum ThreadStage {
    /// Create the vCPU.
    Create,
    /// Set its affinity register.
    SetAffinity,
    /// Initialize it.
    Init,
    /// Set its registers as the first vCPU of the machine.
    Configure,
    /// Tell the interrupt controller of it.
    AddToIrqChip,
    /// Record its handle.
    RecordHandle,
    /// Wait to be started.
    AwaitStart,
    /// Set the registers that it starts with.
    SetRegisters,
    /// Record that it runs, run it, and record that it does not.
    Run,
}

/// What follows a stage of a vCPU thread.
#[derive(Clone, Copy, Debug, PartialEq, Eq, Structural)]
pub enum ThreadNext {
    Do(ThreadStage),
    /// The thread ends.
    End(ExitState),
}

/// What follows a stage of a vCPU thread. A vCPU that cannot be created,
/// initialized or configured crashes; the affinity register, the interrupt
/// controller and the registers it starts with may fail. Only the first vCPU is
/// configured, all others wait to be started; a wait that does not succeed is
/// one that the end of the machine cut short. The run is the last stage: no stage
/// follows it.
pub open spec fn thread_next(vcpu_id: usize, stage: ThreadStage, succeeded: bool) -> ThreadNext {
    match stage {
        ThreadStage::Create => if succeeded {
            ThreadNext::Do(ThreadStage::SetAffinity)
        } else {
            ThreadNext::End(ExitState::Crash)
        },
        ThreadStage::SetAffinity => ThreadNext::Do(ThreadStage::Init),
        ThreadStage::Init => if !succeeded {
            ThreadNext::End(ExitState::Crash)
        } else if vcpu_id == 0 {
            ThreadNext::Do(ThreadStage::Configure)
        } else {
            ThreadNext::Do(ThreadStage::AddToIrqChip)
        },
        ThreadStage::Configure => if succeeded {
            ThreadNext::Do(ThreadStage::AddToIrqChip)
        } else {
            ThreadNext::End(ExitState::Crash)
        },
        ThreadStage::AddToIrqChip => ThreadNext::Do(ThreadStage::RecordHandle),
        ThreadStage::RecordHandle => if vcpu_id > 0 {
            ThreadNext::Do(ThreadStage::AwaitStart)
        } else {
            ThreadNext::Do(ThreadStage::Run)
        },
        ThreadStage::AwaitStart => if succeeded {
            ThreadNext::Do(ThreadStage::SetRegisters)
        } else {
            ThreadNext::End(ExitState::Stop)
        },
        ThreadStage::SetRegisters | ThreadStage::Run => ThreadNext::Do(ThreadStage::Run),
    }
}

/// What follows a stage of a vCPU thread that succeeded or failed; a run ends
/// with [`thread_result`] instead.
pub fn after_thread_stage(vcpu_id: usize, stage: ThreadStage, succeeded: bool) -> (next: ThreadNext)
    requires
        !(stage is Run),
    ensures
        next == thread_next(vcpu_id, stage, succeeded),
{
    match stage {
        ThreadStage::Create => if succeeded {
            ThreadNext::Do(ThreadStage::SetAffinity)
        } else {
            ThreadNext::End(ExitState::Crash)
        },
        ThreadStage::SetAffinity => ThreadNext::Do(ThreadStage::Init),
        ThreadStage::Init => if !succeeded {
            ThreadNext::End(ExitState::Crash)
        } else if vcpu_id == 0 {
            ThreadNext::Do(ThreadStage::Configure)
        } else {
            ThreadNext::Do(ThreadStage::AddToIrqChip)
        },
        ThreadStage::Configure => if succeeded {
            ThreadNext::Do(ThreadStage::AddToIrqChip)
        } else {
            ThreadNext::End(ExitState::Crash)
        },
        ThreadStage::AddToIrqChip => ThreadNext::Do(ThreadStage::RecordHandle),
        ThreadStage::RecordHandle => if vcpu_id > 0 {
            ThreadNext::Do(ThreadStage::AwaitStart)
        } else {
            ThreadNext::Do(ThreadStage::Run)
        },
        ThreadStage::AwaitStart => if succeeded {
            ThreadNext::Do(ThreadStage::SetRegisters)
        } else {
            ThreadNext::End(ExitState::Stop)
        },
        ThreadStage::SetRegisters | ThreadStage::Run => ThreadNext::Do(ThreadStage::Run),
    }
}

/// How a vCPU thread ends whose run ended so.
pub open spec fn thread_end(result: Result<ExitState, Error>) -> ExitState {
    match result {
        Ok(state) => state,
        Err(_) => ExitState::Crash,
    }
}

/// How a vCPU thread ends whose run ended so: an error is a crash.
pub fn thread_result(result: Result<ExitState, Error>) -> (state: ExitState)
    ensures
        state == thread_end(result),
{
    match result {
        Ok(state) => state,
        Err(_) => ExitState::Crash,
    }
}

/// No vCPU but the first runs without having been started, and the first one
/// does not wait.
pub proof fn law_secondary_vcpus_wait(vcpu_id: usize, stage: ThreadStage, succeeded: bool)
    requires
        !(stage is Run),
    ensures
        thread_next(vcpu_id, stage, succeeded) == ThreadNext::Do(ThreadStage::Run) && vcpu_id > 0
            ==> stage is SetRegisters,
        thread_next(vcpu_id, stage, succeeded) == ThreadNext::Do(ThreadStage::SetRegisters)
            ==> stage is AwaitStart && succeeded,
        vcpu_id == 0 ==> thread_next(vcpu_id, stage, succeeded) != ThreadNext::Do(
            ThreadStage::AwaitStart,
        ),
        thread_next(vcpu_id, stage, succeeded) == ThreadNext::Do(ThreadStage::Configure)
            ==> vcpu_id == 0,
{
}

/// What happened in the loop that runs a vCPU.
#[derive(Clone, Copy, Debug, PartialEq, Eq)]
pub enum LoopEvent {
    /// The loop begins.
    Started,
    /// Pending interrupts were injected, or could not be.
    Injected(Result<(), Error>),
    /// The vCPU exited, or could not run.
    Exited(Result<VcpuExit, Error>),
    /// A device memory access was dealt with, in whatever way.
    MmioHandled,
    /// A hypercall was dealt with, in whatever way.
    HypercallHandled,
}

/// What the loop that runs a vCPU does next.
#[derive(Clone, Copy, Debug, PartialEq, Eq)]
pub enum LoopStep {
    /// Inject pending interrupts.
    Inject,
    /// Run the vCPU.
    Run,
    /// Deal with a device memory access.
    HandleMmio,
    /// Deal with a hypercall.
    HandleHypercall,
    /// End.
    Leave(Result<ExitState, Error>),
}

/// How the machine ends by the exit that the guest asked for, if it did.
pub open spec fn requested_exit(exit_request: u8) -> Option<ExitState> {
    if exit_request == PSCI_EXIT_SHUTDOWN {
        Some(ExitState::Stop)
    } else if exit_request == PSCI_EXIT_RESET {
        Some(ExitState::Reset)
    } else {
        None
    }
}

/// The loop ends if the guest asked for it, else it goes on.
pub open spec fn leave_if_requested(exit_request: u8) -> LoopStep {
    match requested_exit(exit_request) {
        Some(state) => LoopStep::Leave(Ok(state)),
        None => LoopStep::Inject,
    }
}

/// What the loop that runs a vCPU does next. `exit_request` is the exit that the
/// guest asked for, looked up after the event.
pub open spec fn loop_step(event: LoopEvent, exit_request: u8) -> LoopStep {
    match event {
        LoopEvent::Started => LoopStep::Inject,
        LoopEvent::Injected(Ok(_)) => LoopStep::Run,
        LoopEvent::Injected(Err(e)) => LoopStep::Leave(Err(e)),
        LoopEvent::Exited(Err(_)) => LoopStep::Leave(Ok(ExitState::Crash)),
        LoopEvent::Exited(Ok(exit)) => match exit {
            VcpuExit::Mmio => LoopStep::HandleMmio,
            VcpuExit::Hypercall => LoopStep::HandleHypercall,
            VcpuExit::Shutdown => LoopStep::Leave(Ok(ExitState::Stop)),
            VcpuExit::SystemEventShutdown => LoopStep::Leave(Ok(ExitState::Stop)),
            VcpuExit::SystemEventReset => LoopStep::Leave(Ok(ExitState::Reset)),
            VcpuExit::SystemEventCrash => LoopStep::Leave(Ok(ExitState::Crash)),
            VcpuExit::Exception => leave_if_requested(exit_request),
            VcpuExit::Canceled => match requested_exit(exit_request) {
                Some(state) => LoopStep::Leave(Ok(state)),
                None => LoopStep::Leave(Ok(ExitState::Stop)),
            },
            _ => LoopStep::Inject,
        },
        LoopEvent::MmioHandled => LoopStep::Inject,
        LoopEvent::HypercallHandled => leave_if_requested(exit_request),
    }
}

/// How the machine ends by the exit that the guest asked for, if it did.
pub fn exit_asked_for(exit_request: u8) -> (state: Option<ExitState>)
    ensures
        state == requested_exit(exit_request),
{
    if exit_request == PSCI_EXIT_SHUTDOWN {
        Some(ExitState::Stop)
    } else if exit_request == PSCI_EXIT_RESET {
        Some(ExitState::Reset)
    } else {
        None
    }
}

/// What the loop that runs a vCPU does next.
pub fn vcpu_loop(event: LoopEvent, exit_request: u8) -> (step: LoopStep)
    ensures
        step == loop_step(event, exit_request),
{
    match event {
        LoopEvent::Started => LoopStep::Inject,
        LoopEvent::Injected(Ok(_)) => LoopStep::Run,
        LoopEvent::Injected(Err(e)) => LoopStep::Leave(Err(e)),
        LoopEvent::Exited(Err(_)) => LoopStep::Leave(Ok(ExitState::Crash)),
        LoopEvent::Exited(Ok(exit)) => match exit {
            VcpuExit::Mmio => LoopStep::HandleMmio,
            VcpuExit::Hypercall => LoopStep::HandleHypercall,
            VcpuExit::Shutdown => LoopStep::Leave(Ok(ExitState::Stop)),
            VcpuExit::SystemEventShutdown => LoopStep::Leave(Ok(ExitState::Stop)),
            VcpuExit::SystemEventReset => LoopStep::Leave(Ok(ExitState::Reset)),
            VcpuExit::SystemEventCrash => LoopStep::Leave(Ok(ExitState::Crash)),
            VcpuExit::Exception => match exit_asked_for(exit_request) {
                Some(state) => LoopStep::Leave(Ok(state)),
                None => LoopStep::Inject,
            },
            VcpuExit::Canceled => match exit_asked_for(exit_request) {
                Some(state) => LoopStep::Leave(Ok(state)),
                None => LoopStep::Leave(Ok(ExitState::Stop)),
            },
            _ => LoopStep::Inject,
        },
        LoopEvent::MmioHandled => LoopStep::Inject,
        LoopEvent::HypercallHandled => match exit_asked_for(exit_request) {
            Some(state) => LoopStep::Leave(Ok(state)),
            None => LoopStep::Inject,
        },
    }
}

/// The event that a device memory access signals.
pub open spec fn signaled_by(address: u64, is_write: bool) -> Option<IoEventAddress> {
    if is_write {
        Some(IoEventAddress::Mmio(address))
    } else {
        None
    }
}

/// The event that a device memory access signals: a write signals that of its
/// address.
pub fn mmio_event(address: u64, is_write: bool) -> (event: Option<IoEventAddress>)
    ensures
        event == signaled_by(address, is_write),
{
    if is_write {
        Some(IoEventAddress::Mmio(address))
    } else {
        None
    }
}

/// A guest that asks to be turned off or reset by a hypercall is, as soon as the
/// call was dealt with.
pub proof fn law_guest_exit_is_obeyed()
    ensures
        loop_step(LoopEvent::HypercallHandled, PSCI_EXIT_SHUTDOWN) == LoopStep::Leave(
            Ok(ExitState::Stop),
        ),
        loop_step(LoopEvent::HypercallHandled, PSCI_EXIT_RESET) == LoopStep::Leave(
            Ok(ExitState::Reset),
        ),
        loop_step(LoopEvent::HypercallHandled, PSCI_EXIT_NONE) == LoopStep::Inject,
{
}

/// A guest that asks to be turned off or reset ends as a whole: every vCPU that
/// is there is among those that are cancelled, a vCPU whose run is cancelled
/// leaves its loop with the end that the guest asked for, and one that still
/// waits to be started stops.
pub proof fn law_shutdown_reaches_all_vcpus(
    set: VcpuSet,
    vcpu_id: int,
    exit: hv_vcpu_exit_t,
    gic_available: bool,
    exit_request: u8,
)
    requires
        set.wf(),
        0 <= vcpu_id < set.handles@.len(),
        exit.reason == HV_EXIT_REASON_CANCELED,
        exit_request == PSCI_EXIT_SHUTDOWN || exit_request == PSCI_EXIT_RESET,
    ensures
        set.handles@[vcpu_id] != 0 <==> set.present().contains(set.handles@[vcpu_id]),
        !set.present().contains(0),
        exit_step(exit, gic_available, false) matches RunStep::Done(Ok(e)) && loop_step(
            LoopEvent::Exited(Ok(e)),
            exit_request,
        ) == LoopStep::Leave(Ok(requested_exit(exit_request)->0)),
        start_step(None, exit_request) == StartStep::Stop,
{
    let there = |h: hv_vcpu_t| h != 0;
    if set.handles@[vcpu_id] != 0 {
        assert(there(set.handles@[vcpu_id]));
        set.handles@.lemma_filter_contains(there, vcpu_id);
    }
    assert forall|i: int| 0 <= i < set.present().len() implies set.present()[i] != 0 by {
        set.handles@.lemma_filter_pred(there, i);
    }
}

/// The guest is entered only right after its pending interrupts were injected.
pub proof fn law_injection_precedes_run(event: LoopEvent, exit_request: u8)
    ensures
        loop_step(event, exit_request) is Run <==> event matches LoopEvent::Injected(Ok(_)),
{
}

/// The loop goes on until there is a reason to end. It ends only where interrupts
/// cannot be injected or the vCPU cannot run, where the guest shut down, was cancelled
/// or reported an end, and where the guest asked for an exit and either made a
/// hypercall or took an exception; and with the end that belongs to the reason.
pub proof fn law_loop_ends_for_a_reason(event: LoopEvent, exit_request: u8)
    ensures
        ({
            let asked = exit_request == 1 || exit_request == 2;
            let end = match loop_step(event, exit_request) {
                LoopStep::Leave(end) => Some(end),
                _ => None,
            };
            match event {
                LoopEvent::Started | LoopEvent::MmioHandled => end is None,
                LoopEvent::Injected(result) => (result is Ok ==> end is None) && (
                result matches Err(e) ==> end == Some(Err::<ExitState, Error>(e))),
                LoopEvent::HypercallHandled => end is Some <==> asked,
                LoopEvent::Exited(Err(_)) => end == Some(Ok::<ExitState, Error>(ExitState::Crash)),
                LoopEvent::Exited(Ok(exit)) => {
                    &&& end is Some <==> (exit is Shutdown || exit is SystemEventShutdown || exit
                        is SystemEventReset || exit is SystemEventCrash || exit is Canceled || (
                    exit is Exception && asked))
                    &&& exit is Shutdown || exit is SystemEventShutdown || (exit is Canceled
                        && !asked) ==> end == Some(Ok::<ExitState, Error>(ExitState::Stop))
                    &&& exit is SystemEventReset ==> end == Some(
                        Ok::<ExitState, Error>(ExitState::Reset),
                    )
                    &&& exit is SystemEventCrash ==> end == Some(
                        Ok::<ExitState, Error>(ExitState::Crash),
                    )
                },
            }
        }),
{
}

/// A guest that asked for an exit gets the one that it asked for, however the loop
/// comes to leave on that account: after a hypercall, after an exception, or because
/// its run was cancelled.
pub proof fn law_requested_end(event: LoopEvent, exit_request: u8)
    requires
        exit_request == 1 || exit_request == 2,
        event is HypercallHandled || event == LoopEvent::Exited(
            Ok::<VcpuExit, Error>(VcpuExit::Exception),
        ) || event == LoopEvent::Exited(Ok::<VcpuExit, Error>(VcpuExit::Canceled)),
    ensures
        loop_step(event, exit_request) == LoopStep::Leave(
            Ok::<ExitState, Error>(
                if exit_request == 1 {
                    ExitState::Stop
                } else {
                    ExitState::Reset
                },
            ),
        ),
{
}

/// What deals with an exit, if anything does, and the step after that.
pub open spec fn after_exit(exit: VcpuExit, exit_request: u8) -> (Option<LoopStep>, LoopStep) {
    let step = loop_step(LoopEvent::Exited(Ok(exit)), exit_request);
    match step {
        LoopStep::HandleMmio => (
            Some(step),
            loop_step(LoopEvent::MmioHandled, exit_request),
        ),
        LoopStep::HandleHypercall => (
            Some(step),
            loop_step(LoopEvent::HypercallHandled, exit_request),
        ),
        _ => (None, step),
    }
}

/// The guest is entered again after every exit that is no end: an access or a
/// hypercall is dealt with first, nothing else is, then pending interrupts are
/// injected, and then the guest runs. An idle guest, above all, goes on.
pub proof fn law_guest_is_entered_again(exit: VcpuExit, exit_request: u8)
    requires
        exit_request != 1 && exit_request != 2,
        !(exit is Shutdown || exit is SystemEventShutdown || exit is SystemEventReset || exit
            is SystemEventCrash || exit is Canceled),
    ensures
        after_exit(exit, exit_request).0 == (if exit is Mmio {
            Some(LoopStep::HandleMmio)
        } else if exit is Hypercall {
            Some(LoopStep::HandleHypercall)
        } else {
            None
        }),
        after_exit(exit, exit_request).1 == LoopStep::Inject,
        loop_step(LoopEvent::Started, exit_request) == LoopStep::Inject,
        loop_step(LoopEvent::Injected(Ok(())), exit_request) == LoopStep::Run,
{
}

/// A write to device memory signals the event of its address and no other, a read
/// signals none.
pub proof fn law_writes_signal_their_address(address: u64, other: u64, is_write: bool)
    ensures
        signaled_by(address, is_write) is Some <==> is_write,
        signaled_by(address, is_write) == Some(IoEventAddress::Mmio(other)) <==> is_write && address
            == other,
{
}

/// A vCPU that is told to start does so with what the caller gave: the affinity that
/// the vCPU shows names it; being told is a success exactly if the vCPU is there, does
/// not run and was not told before; and then the one that waits starts at the entry
/// point, with the argument in its first register and interrupts masked, even where the
/// machine is being turned off. No other vCPU is told anything.
pub proof fn law_told_vcpu_starts(
    set: VcpuSet,
    vcpu_id: usize,
    other: int,
    entry_point: u64,
    context_id: u64,
    exit_request: u8,
)
    requires
        set.wf(),
        vcpu_id < 0x100,
        0 <= other < set.signals@.len(),
        other != vcpu_id,
    ensures
        ({
            let mpidr = affinity_of(vcpu_id);
            let result = set.cpu_on_result(mpidr);
            let signals = set.signals_after(mpidr, entry_point, context_id);
            let start = StartStep::Start { entry_point, context_id };
            let regs = start_registers(entry_point, context_id);
            &&& mpidr == 0x8000_0000 + vcpu_id
            &&& result is InvalidParameters <==> vcpu_id >= set.handles@.len()
            &&& result is AlreadyOn <==> vcpu_id < set.handles@.len() && (
            set.running@[vcpu_id as int] || set.signals@[vcpu_id as int] is Some)
            &&& result is Success ==> start_step(signals[vcpu_id as int], exit_request) == start
            &&& !(result is Success) ==> signals == set.signals@
            &&& signals.len() == set.signals@.len()
            &&& signals[other] == set.signals@[other]
            &&& regs.len() == 3
            &&& regs.contains((VcpuRegAArch64::Pc, entry_point))
            &&& regs.contains((VcpuRegAArch64::X(0), context_id))
            &&& regs.contains((VcpuRegAArch64::Pstate, 0x3c5))
        }),
{
    let id: u64 = vcpu_id as u64;
    assert(id < 0x100 ==> 0x8000_0000u64 | id == 0x8000_0000 + id) by (bit_vector);
    let regs = start_registers(entry_point, context_id);
    assert(regs[0] == (VcpuRegAArch64::Pc, entry_point));
    assert(regs[1] == (VcpuRegAArch64::X(0), context_id));
    assert(regs[2] == (VcpuRegAArch64::Pstate, 0x3c5u64));
}

/// Only the lowest eight bits of an affinity count.
pub proof fn law_affinity_is_the_low_byte(set: VcpuSet, a: u64, b: u64)
    requires
        a & 0xff == b & 0xff,
    ensures
        set.cpu_on_result(a) == set.cpu_on_result(b),
        target_vcpu(a) == a & 0xff,
{
    assert(a % 0x100 == a & 0xff && b % 0x100 == b & 0xff) by (bit_vector);
}

/// A vCPU that was not told to start waits as long as the guest asked for no exit, and
/// stops as soon as it did.
pub proof fn law_untold_vcpu_waits(exit_request: u8)
    ensures
        start_step(None, exit_request) == (if exit_request == 0 {
            StartStep::Wait
        } else {
            StartStep::Stop
        }),
{
}

/// The stages of a vCPU thread from `stage` on, each of which succeeds if `succeeds`
/// says so, and how the thread ends if it does before it runs.
pub open spec fn thread_run(
    vcpu_id: usize,
    stage: ThreadStage,
    succeeds: spec_fn(ThreadStage) -> bool,
    fuel: nat,
) -> (Seq<ThreadStage>, Option<ExitState>)
    decreases fuel,
{
    if fuel == 0 || stage is Run {
        (seq![stage], None)
    } else {
        match thread_next(vcpu_id, stage, succeeds(stage)) {
            ThreadNext::End(state) => (seq![stage], Some(state)),
            ThreadNext::Do(next) => {
                let rest = thread_run(vcpu_id, next, succeeds, (fuel - 1) as nat);
                (seq![stage] + rest.0, rest.1)
            },
        }
    }
}

/// The stages of a vCPU thread that comes to run: the first vCPU is configured and runs
/// at once, any other waits to be told where to start and gets its registers before it
/// runs. Stages that may fail do not hold it up.
pub proof fn law_thread_comes_to_run(vcpu_id: usize, succeeds: spec_fn(ThreadStage) -> bool)
    requires
        succeeds(ThreadStage::Create),
        succeeds(ThreadStage::Init),
        vcpu_id == 0 ==> succeeds(ThreadStage::Configure),
        vcpu_id > 0 ==> succeeds(ThreadStage::AwaitStart),
    ensures
        thread_run(vcpu_id, ThreadStage::Create, succeeds, 9) == (
            if vcpu_id == 0 {
                seq![
                    ThreadStage::Create,
                    ThreadStage::SetAffinity,
                    ThreadStage::Init,
                    ThreadStage::Configure,
                    ThreadStage::AddToIrqChip,
                    ThreadStage::RecordHandle,
                    ThreadStage::Run,
                ]
            } else {
                seq![
                    ThreadStage::Create,
                    ThreadStage::SetAffinity,
                    ThreadStage::Init,
                    ThreadStage::AddToIrqChip,
                    ThreadStage::RecordHandle,
                    ThreadStage::AwaitStart,
                    ThreadStage::SetRegisters,
                    ThreadStage::Run,
                ]
            },
            None::<ExitState>,
        ),
{
    reveal_with_fuel(thread_run, 10);
    let stages = thread_run(vcpu_id, ThreadStage::Create, succeeds, 9).0;
    if vcpu_id == 0 {
        assert(stages =~= seq![
            ThreadStage::Create,
            ThreadStage::SetAffinity,
            ThreadStage::Init,
            ThreadStage::Configure,
            ThreadStage::AddToIrqChip,
            ThreadStage::RecordHandle,
            ThreadStage::Run,
        ]);
    } else {
        assert(stages =~= seq![
            ThreadStage::Create,
            ThreadStage::SetAffinity,
            ThreadStage::Init,
            ThreadStage::AddToIrqChip,
            ThreadStage::RecordHandle,
            ThreadStage::AwaitStart,
            ThreadStage::SetRegisters,
            ThreadStage::Run,
        ]);
    }
}

/// A vCPU thread that does not come to run ends with a crash, unless it waited to be
/// started when the machine ended; one whose run failed crashed too, and any other end
/// of a run is that of the thread.
pub proof fn law_thread_ends(
    vcpu_id: usize,
    succeeds: spec_fn(ThreadStage) -> bool,
    state: ExitState,
    error: Error,
)
    ensures
        ({
            let (stages, end) = thread_run(vcpu_id, ThreadStage::Create, succeeds, 9);
            &&& end is Some <==> !succeeds(stages.last()) && !(stages.last() is Run)
            &&& end is None ==> stages.last() is Run
            &&& end matches Some(end) ==> (end is Stop <==> stages.last() is AwaitStart) && (end
                is Crash <==> !(stages.last() is AwaitStart))
        }),
        thread_end(Ok(state)) == state,
        thread_end(Err(error)) is Crash,
{
    reveal_with_fuel(thread_run, 10);
}

} // verus!
