//! The life of a vCPU between two entries into guest code.
//!
//! A vCPU is driven by requests: each step below either asks for one call of
//! the framework (a [`VcpuRequest`]) together with the state in which its reply
//! is awaited, or is done. The caller makes the call and hands the reply back.

use vstd::prelude::*;

use crate::errno::Error;
use crate::hvf::ffi;
use crate::hvf::ffi::{bit_field, hv_reg_t, hv_return_t, hv_sys_reg_t, hv_vcpu_exit_t, hv_vcpu_t};

verus! {

/// Why a vCPU handed control back to the monitor.
#[derive(Clone, Copy, Debug, PartialEq, Eq, Structural)]
pub enum VcpuExit {
    /// An access to a device port; never raised on this architecture.
    Io,
    /// An access to device memory.
    Mmio,
    /// The guest waits for an interrupt.
    Hlt,
    /// The guest shut down.
    Shutdown,
    /// The guest asked to be powered off.
    SystemEventShutdown,
    /// The guest asked to be reset.
    SystemEventReset,
    /// The guest reported a crash.
    SystemEventCrash,
    /// The guest made a hypercall.
    Hypercall,
    /// The guest took an exception that the monitor does not handle.
    Exception,
    /// A debug event.
    Debug,
    /// Nothing to do but to run on.
    Intr,
    /// The run was canceled from another thread.
    Canceled,
}

/// A register of the guest.
#[derive(Clone, Copy, Debug, PartialEq, Eq, Structural)]
pub enum VcpuRegAArch64 {
    /// A general-purpose register, `X0` to `X30`.
    X(u8),
    /// The stack pointer.
    Sp,
    /// The program counter.
    Pc,
    /// The processor state.
    Pstate,
    /// The system register with this identifier.
    System(u16),
}

/// A call of the framework that a vCPU asks for.
#[derive(Clone, Copy, Debug, PartialEq, Eq, Structural)]
pub enum VcpuRequest {
    /// Run guest code until the next exit.
    Run,
    /// Read a general-purpose register.
    GetReg(hv_reg_t),
    /// Write a general-purpose register.
    SetReg(hv_reg_t, u64),
    /// Read a system register.
    GetSysReg(hv_sys_reg_t),
    /// Write a system register.
    SetSysReg(hv_sys_reg_t, u64),
    /// Read a vector register.
    GetVectorReg(u32),
    /// Write a vector register.
    SetVectorReg(u32, u128),
    /// Unmask the virtual timer.
    UnmaskVtimer,
    /// Assert the interrupt line of the vCPU.
    InjectIrq,
    /// Make a running vCPU exit.
    Cancel,
}

/// The reply to a [`VcpuRequest`]: the return code, and the value that was
/// read where the request reads one.
#[derive(Clone, Copy, Debug, PartialEq, Eq, Structural)]
pub struct VcpuReply {
    pub ret: hv_return_t,
    pub value: u64,
}

/// What is awaited while a run is in progress.
#[derive(Clone, Copy, Debug, PartialEq, Eq, Structural)]
pub enum RunState {
    /// The value of a trapped system register, for the transfer register `rt`.
    TrappedRead { reg_id: hv_sys_reg_t, rt: u32 },
    /// The transfer register was written.
    TransferWritten,
    /// The value of the transfer register, for a trapped system register.
    TransferRead { reg_id: hv_sys_reg_t },
    /// A trapped system register was written.
    TrappedWritten,
    /// The program counter, which is to be advanced before `exit` is reported.
    ReadPc { exit: VcpuExit },
    /// The program counter was written.
    PcWritten { exit: VcpuExit },
    /// The virtual timer was dealt with.
    TimerHandled,
}

/// The next step of a run.
#[derive(Clone, Copy, Debug, PartialEq, Eq)]
pub enum RunStep {
    /// Enter the guest and report the exit to [`HvfVcpu::on_exit`].
    Enter,
    /// Make a call and report the reply to [`HvfVcpu::resume`].
    Do(VcpuRequest, RunState),
    /// The run is over.
    Done(Result<VcpuExit, Error>),
}

/// `ICC_SRE_EL1`: system register interface of the interrupt controller.
pub const ICC_SRE_EL1: hv_sys_reg_t = 0xC665;

/// `ICC_CTLR_EL1`: control.
pub const ICC_CTLR_EL1: hv_sys_reg_t = 0xC664;

/// `ICC_PMR_EL1`: priority mask.
pub const ICC_PMR_EL1: hv_sys_reg_t = 0xC230;

/// `ICC_IAR1_EL1`: interrupt acknowledge.
pub const ICC_IAR1_EL1: hv_sys_reg_t = 0xC660;

/// `ICC_EOIR1_EL1`: end of interrupt.
pub const ICC_EOIR1_EL1: hv_sys_reg_t = 0xC661;

/// `ICC_IGRPEN1_EL1`: group 1 enable.
pub const ICC_IGRPEN1_EL1: hv_sys_reg_t = 0xC667;

/// `ICC_BPR1_EL1`: binary point.
pub const ICC_BPR1_EL1: hv_sys_reg_t = 0xC663;

/// The number that an acknowledge returns when no interrupt is pending.
pub const SPURIOUS_IRQ: u64 = 1023;

/// The value that a system register reads as when the framework has none for
/// it. Acknowledging yields the pending interrupt; enabled are the system
/// register interface, all priorities and group 1; all else reads zero.
pub open spec fn fallback_value(reg_id: hv_sys_reg_t, pending: Option<u32>) -> u64 {
    if reg_id == ICC_SRE_EL1 {
        7
    } else if reg_id == ICC_PMR_EL1 {
        0xff
    } else if reg_id == ICC_IAR1_EL1 {
        match pending {
            Some(irq) => irq as u64,
            None => SPURIOUS_IRQ,
        }
    } else if reg_id == ICC_IGRPEN1_EL1 {
        1
    } else {
        0
    }
}

/// What is pending after a system register was read: an acknowledge that the
/// framework did not serve takes the pending interrupt.
pub open spec fn pending_after_read(
    reg_id: hv_sys_reg_t,
    reply: VcpuReply,
    pending: Option<u32>,
) -> Option<u32> {
    if reply.ret != ffi::HV_SUCCESS && reg_id == ICC_IAR1_EL1 {
        None
    } else {
        pending
    }
}

/// The value of a trapped read: the framework's if it has one, else the
/// fallback.
pub open spec fn trapped_value(
    reg_id: hv_sys_reg_t,
    reply: VcpuReply,
    pending: Option<u32>,
) -> u64 {
    if reply.ret == ffi::HV_SUCCESS {
        reply.value
    } else {
        fallback_value(reg_id, pending)
    }
}

/// The exception class of a syndrome.
pub open spec fn exception_class(syndrome: u64) -> nat {
    bit_field(syndrome, 0x400_0000, 0x40)
}

/// The system register that a trapped access names.
pub open spec fn trapped_register(syndrome: u64) -> int {
    ffi::sysreg_id(
        bit_field(syndrome, 0x10_0000, 4) as u32,
        bit_field(syndrome, 0x4000, 8) as u32,
        bit_field(syndrome, 0x400, 0x10) as u32,
        bit_field(syndrome, 2, 0x10) as u32,
        bit_field(syndrome, 0x2_0000, 8) as u32,
    )
}

/// The transfer register of a trapped access; 31 is the zero register.
pub open spec fn transfer_register(syndrome: u64) -> nat {
    bit_field(syndrome, 0x20, 0x20)
}

/// The run ends with `exit`.
pub open spec fn exits(exit: VcpuExit) -> RunStep {
    RunStep::Done(Ok(exit))
}

/// The program counter is moved past the current instruction, then the run
/// ends with `exit`.
pub open spec fn exits_after_advance(exit: VcpuExit) -> RunStep {
    RunStep::Do(VcpuRequest::GetReg(ffi::HV_REG_PC), RunState::ReadPc { exit })
}

/// The first step of a trapped system register access.
pub open spec fn trap_step(syndrome: u64) -> RunStep {
    let reg_id = trapped_register(syndrome) as u16;
    let rt = transfer_register(syndrome) as u32;
    if bit_field(syndrome, 1, 2) == 1 {
        RunStep::Do(VcpuRequest::GetSysReg(reg_id), RunState::TrappedRead { reg_id, rt })
    } else if rt < 31 {
        RunStep::Do(VcpuRequest::GetReg(rt), RunState::TransferRead { reg_id })
    } else {
        RunStep::Do(VcpuRequest::SetSysReg(reg_id, 0), RunState::TrappedWritten)
    }
}

/// Whether an exception class is one of the debug events.
pub open spec fn is_debug_class(ec: nat) -> bool {
    ec == ffi::EC_SOFTWARESTEP || ec == ffi::EC_SOFTWARESTEP_SAME_EL || ec == ffi::EC_AA64_BKPT
        || ec == ffi::EC_BREAKPOINT || ec == ffi::EC_BREAKPOINT_SAME_EL || ec == ffi::EC_WATCHPOINT
        || ec == ffi::EC_WATCHPOINT_SAME_EL
}

/// The first step after an exception exit.
pub open spec fn exception_step(syndrome: u64) -> RunStep {
    let ec = exception_class(syndrome);
    if ec == ffi::EC_DATAABORT || ec == ffi::EC_DATAABORT_SAME_EL {
        exits(VcpuExit::Mmio)
    } else if ec == ffi::EC_SYSTEMREGISTERTRAP {
        trap_step(syndrome)
    } else if ec == ffi::EC_WFX_TRAP {
        if bit_field(syndrome, 1, 2) == 1 {
            exits_after_advance(VcpuExit::Intr)
        } else {
            exits_after_advance(VcpuExit::Hlt)
        }
    } else if ec == ffi::EC_AA64_HVC {
        exits(VcpuExit::Hypercall)
    } else if ec == ffi::EC_AA64_SMC {
        exits_after_advance(VcpuExit::Hypercall)
    } else if is_debug_class(ec) {
        exits(VcpuExit::Debug)
    } else {
        exits(VcpuExit::Exception)
    }
}

/// The first step after any exit. A run that was cancelled is an interruption if
/// an immediate exit of this vCPU was asked for; else the machine stops.
pub open spec fn exit_step(
    exit: hv_vcpu_exit_t,
    gic_available: bool,
    cancel_asked: bool,
) -> RunStep {
    if exit.reason == ffi::HV_EXIT_REASON_EXCEPTION {
        exception_step(exit.exception.syndrome)
    } else if exit.reason == ffi::HV_EXIT_REASON_CANCELED {
        if cancel_asked {
            exits(VcpuExit::Intr)
        } else {
            exits(VcpuExit::Canceled)
        }
    } else if exit.reason == ffi::HV_EXIT_REASON_VTIMER_ACTIVATED {
        if gic_available {
            RunStep::Do(VcpuRequest::UnmaskVtimer, RunState::TimerHandled)
        } else {
            RunStep::Do(VcpuRequest::InjectIrq, RunState::TimerHandled)
        }
    } else {
        exits(VcpuExit::Exception)
    }
}

/// The step that follows the reply to a request.
pub open spec fn resume_step(
    state: RunState,
    reply: VcpuReply,
    pending: Option<u32>,
) -> RunStep {
    let failed = RunStep::Done(Err(Error { number: reply.ret }));
    match state {
        RunState::TrappedRead { reg_id, rt } => if rt < 31 {
            RunStep::Do(
                VcpuRequest::SetReg(rt, trapped_value(reg_id, reply, pending)),
                RunState::TransferWritten,
            )
        } else {
            exits_after_advance(VcpuExit::Intr)
        },
        RunState::TransferWritten => if reply.ret == ffi::HV_SUCCESS {
            exits_after_advance(VcpuExit::Intr)
        } else {
            failed
        },
        RunState::TransferRead { reg_id } => if reply.ret == ffi::HV_SUCCESS {
            RunStep::Do(VcpuRequest::SetSysReg(reg_id, reply.value), RunState::TrappedWritten)
        } else {
            failed
        },
        RunState::TrappedWritten => exits_after_advance(VcpuExit::Intr),
        RunState::ReadPc { exit } => if reply.ret == ffi::HV_SUCCESS {
            RunStep::Do(
                VcpuRequest::SetReg(ffi::HV_REG_PC, (reply.value + 4) as u64),
                RunState::PcWritten { exit },
            )
        } else {
            failed
        },
        RunState::PcWritten { exit } => if reply.ret == ffi::HV_SUCCESS {
            exits(exit)
        } else {
            failed
        },
        RunState::TimerHandled => exits(VcpuExit::Intr),
    }
}

/// What is pending after the reply to a request.
pub open spec fn pending_after(
    state: RunState,
    reply: VcpuReply,
    pending: Option<u32>,
) -> Option<u32> {
    match state {
        RunState::TrappedRead { reg_id, .. } => pending_after_read(reg_id, reply, pending),
        _ => pending,
    }
}

/// Whether a reply can be handled: a program counter can be advanced.
pub open spec fn reply_fits(state: RunState, reply: VcpuReply) -> bool {
    state is ReadPc && reply.ret == ffi::HV_SUCCESS ==> reply.value + 4 <= u64::MAX
}

/// A vCPU.
#[derive(Clone, Copy, Debug, PartialEq, Eq)]
pub struct HvfVcpu {
    /// The number of the vCPU in its machine.
    pub id: usize,
    /// The framework's handle.
    pub vcpu: hv_vcpu_t,
    /// Whether the next run is to return at once.
    pub immediate_exit: bool,
    /// Whether the run was cancelled because an immediate exit was asked for,
    /// and has not exited on that account yet.
    pub cancel_asked: bool,
    /// The interrupt that the next acknowledge returns.
    pub pending_irq: Option<u32>,
}

/// The vCPU that comes of creating one.
pub open spec fn new_vcpu(
    id: usize,
    created: hv_return_t,
    vcpu: hv_vcpu_t,
    trapping: hv_return_t,
) -> Result<HvfVcpu, Error> {
    if created != ffi::HV_SUCCESS {
        Err(Error { number: created })
    } else if trapping != ffi::HV_SUCCESS {
        Err(Error { number: trapping })
    } else {
        Ok(HvfVcpu { id, vcpu, immediate_exit: false, cancel_asked: false, pending_irq: None })
    }
}

/// A vCPU once a run of it was started, and the first step of the run.
pub open spec fn run_started(vcpu: HvfVcpu) -> (HvfVcpu, RunStep) {
    (
        HvfVcpu { immediate_exit: false, ..vcpu },
        if vcpu.immediate_exit {
            exits(VcpuExit::Intr)
        } else {
            RunStep::Enter
        },
    )
}

/// A vCPU once the guest was left, and the step that follows.
pub open spec fn guest_left(
    vcpu: HvfVcpu,
    ret: hv_return_t,
    exit: hv_vcpu_exit_t,
    gic_available: bool,
) -> (HvfVcpu, RunStep) {
    (
        HvfVcpu {
            cancel_asked: vcpu.cancel_asked && !(ret == ffi::HV_SUCCESS && exit.reason
                == ffi::HV_EXIT_REASON_CANCELED),
            ..vcpu
        },
        if ret == ffi::HV_SUCCESS {
            exit_step(exit, gic_available, vcpu.cancel_asked)
        } else {
            RunStep::Done(Err(Error { number: ret }))
        },
    )
}

/// A vCPU once an immediate exit was asked for or the wish was withdrawn, and the call
/// that this asks for.
pub open spec fn exit_asked(vcpu: HvfVcpu, exit: bool) -> (HvfVcpu, Option<VcpuRequest>) {
    (
        HvfVcpu { immediate_exit: exit, cancel_asked: vcpu.cancel_asked || exit, ..vcpu },
        if exit {
            Some(VcpuRequest::Cancel)
        } else {
            None
        },
    )
}

impl HvfVcpu {
    /// The vCPU `id`, once the framework was asked to create it (`created` with
    /// the handle that it gave) and to trap debug exceptions (`trapping`).
    pub fn new(id: usize, created: hv_return_t, vcpu: hv_vcpu_t, trapping: hv_return_t) -> (r:
        Result<HvfVcpu, Error>)
        ensures
            r == new_vcpu(id, created, vcpu, trapping),
    {
        if created != ffi::HV_SUCCESS {
            return Err(Error::new(created));
        }
        if trapping != ffi::HV_SUCCESS {
            return Err(Error::new(trapping));
        }
        Ok(HvfVcpu { id, vcpu, immediate_exit: false, cancel_asked: false, pending_irq: None })
    }

    /// The framework's handle of the vCPU.
    pub fn hvf_handle(&self) -> (vcpu: hv_vcpu_t)
        ensures
            vcpu == self.vcpu,
    {
        self.vcpu
    }

    /// The number of the vCPU.
    pub fn id(&self) -> (id: usize)
        ensures
            id == self.id,
    {
        self.id
    }

    /// Starts a run. If an immediate exit was asked for, the wish is taken and
    /// the guest is not entered.
    pub fn run(&mut self) -> (step: RunStep)
        ensures
            (*final(self), step) == run_started(*old(self)),
    {
        if self.immediate_exit {
            self.immediate_exit = false;
            return RunStep::Done(Ok(VcpuExit::Intr));
        }
        RunStep::Enter
    }

    /// Continues a run after the guest was entered: `ret` is the return code,
    /// `exit` the exit that the framework reports. `gic_available` says whether
    /// the framework has an interrupt controller of its own.
    pub fn on_exit(&mut self, ret: hv_return_t, exit: &hv_vcpu_exit_t, gic_available: bool) -> (step:
        RunStep)
        ensures
            (*final(self), step) == guest_left(*old(self), ret, *exit, gic_available),
    {
        if ret != ffi::HV_SUCCESS {
            return RunStep::Done(Err(Error::new(ret)));
        }
        if exit.reason == ffi::HV_EXIT_REASON_EXCEPTION {
            Self::on_exception(exit.exception.syndrome)
        } else if exit.reason == ffi::HV_EXIT_REASON_CANCELED {
            if self.cancel_asked {
                self.cancel_asked = false;
                RunStep::Done(Ok(VcpuExit::Intr))
            } else {
                RunStep::Done(Ok(VcpuExit::Canceled))
            }
        } else if exit.reason == ffi::HV_EXIT_REASON_VTIMER_ACTIVATED {
            if gic_available {
                RunStep::Do(VcpuRequest::UnmaskVtimer, RunState::TimerHandled)
            } else {
                RunStep::Do(VcpuRequest::InjectIrq, RunState::TimerHandled)
            }
        } else {
            RunStep::Done(Ok(VcpuExit::Exception))
        }
    }

    fn on_exception(syndrome: u64) -> (step: RunStep)
        ensures
            step == exception_step(syndrome),
    {
        let ec: u32 = ffi::syn_get_ec(syndrome);
        if ec == ffi::EC_DATAABORT || ec == ffi::EC_DATAABORT_SAME_EL {
            RunStep::Done(Ok(VcpuExit::Mmio))
        } else if ec == ffi::EC_SYSTEMREGISTERTRAP {
            Self::handle_sysreg_trap(syndrome)
        } else if ec == ffi::EC_WFX_TRAP {
            if ffi::wfx_is_wfe(syndrome) {
                Self::advance_pc(VcpuExit::Intr)
            } else {
                Self::advance_pc(VcpuExit::Hlt)
            }
        } else if ec == ffi::EC_AA64_HVC {
            RunStep::Done(Ok(VcpuExit::Hypercall))
        } else if ec == ffi::EC_AA64_SMC {
            Self::advance_pc(VcpuExit::Hypercall)
        } else if ec == ffi::EC_SOFTWARESTEP || ec == ffi::EC_SOFTWARESTEP_SAME_EL || ec
            == ffi::EC_AA64_BKPT || ec == ffi::EC_BREAKPOINT || ec == ffi::EC_BREAKPOINT_SAME_EL
            || ec == ffi::EC_WATCHPOINT || ec == ffi::EC_WATCHPOINT_SAME_EL {
            RunStep::Done(Ok(VcpuExit::Debug))
        } else {
            RunStep::Done(Ok(VcpuExit::Exception))
        }
    }

    /// Starts a trapped system register access. The syndrome tells the
    /// register, the direction and the transfer register.
    pub fn handle_sysreg_trap(syndrome: u64) -> (step: RunStep)
        ensures
            step == trap_step(syndrome),
    {
        let rt: u32 = ffi::sysreg_rt(syndrome);
        let op0: u32 = ffi::sysreg_op0(syndrome);
        let op1: u32 = ffi::sysreg_op1(syndrome);
        let crn: u32 = ffi::sysreg_crn(syndrome);
        let crm: u32 = ffi::sysreg_crm(syndrome);
        let op2: u32 = ffi::sysreg_op2(syndrome);
        let reg_id: u16 = ffi::sysreg_encode(op0, op1, crn, crm, op2);
        if ffi::sysreg_isread(syndrome) {
            RunStep::Do(VcpuRequest::GetSysReg(reg_id), RunState::TrappedRead { reg_id, rt })
        } else if rt < 31 {
            RunStep::Do(
                VcpuRequest::GetReg(ffi::HV_REG_X0 + rt),
                RunState::TransferRead { reg_id },
            )
        } else {
            RunStep::Do(VcpuRequest::SetSysReg(reg_id, 0), RunState::TrappedWritten)
        }
    }

    /// Starts to move the program counter past the current instruction.
    pub fn advance_pc(exit: VcpuExit) -> (step: RunStep)
        ensures
            step == exits_after_advance(exit),
    {
        RunStep::Do(VcpuRequest::GetReg(ffi::HV_REG_PC), RunState::ReadPc { exit })
    }

    /// The value of the trapped system register `reg_id`, given the framework's
    /// reply to reading it.
    pub fn read_sysreg_value(&mut self, reg_id: hv_sys_reg_t, reply: VcpuReply) -> (value: u64)
        ensures
            value == trapped_value(reg_id, reply, old(self).pending_irq),
            *final(self) == (HvfVcpu {
                pending_irq: pending_after_read(reg_id, reply, old(self).pending_irq),
                ..*old(self)
            }),
    {
        if reply.ret == ffi::HV_SUCCESS {
            return reply.value;
        }
        if reg_id == ICC_SRE_EL1 {
            7
        } else if reg_id == ICC_PMR_EL1 {
            0xff
        } else if reg_id == ICC_IAR1_EL1 {
            let pending: Option<u32> = self.pending_irq;
            self.pending_irq = None;
            match pending {
                Some(irq) => irq as u64,
                None => SPURIOUS_IRQ,
            }
        } else if reg_id == ICC_IGRPEN1_EL1 {
            1
        } else {
            0
        }
    }

    /// Continues a run with the reply to the request that was made in `state`.
    pub fn resume(&mut self, state: RunState, reply: VcpuReply) -> (step: RunStep)
        requires
            reply_fits(state, reply),
        ensures
            step == resume_step(state, reply, old(self).pending_irq),
            *final(self) == (HvfVcpu {
                pending_irq: pending_after(state, reply, old(self).pending_irq),
                ..*old(self)
            }),
    {
        match state {
            RunState::TrappedRead { reg_id, rt } => {
                let value: u64 = self.read_sysreg_value(reg_id, reply);
                if rt < 31 {
                    RunStep::Do(
                        VcpuRequest::SetReg(ffi::HV_REG_X0 + rt, value),
                        RunState::TransferWritten,
                    )
                } else {
                    Self::advance_pc(VcpuExit::Intr)
                }
            },
            RunState::TransferWritten => {
                if reply.ret != ffi::HV_SUCCESS {
                    return RunStep::Done(Err(Error::new(reply.ret)));
                }
                Self::advance_pc(VcpuExit::Intr)
            },
            RunState::TransferRead { reg_id } => {
                if reply.ret != ffi::HV_SUCCESS {
                    return RunStep::Done(Err(Error::new(reply.ret)));
                }
                RunStep::Do(VcpuRequest::SetSysReg(reg_id, reply.value), RunState::TrappedWritten)
            },
            RunState::TrappedWritten => Self::advance_pc(VcpuExit::Intr),
            RunState::ReadPc { exit } => {
                if reply.ret != ffi::HV_SUCCESS {
                    return RunStep::Done(Err(Error::new(reply.ret)));
                }
                RunStep::Do(
                    VcpuRequest::SetReg(ffi::HV_REG_PC, reply.value + 4),
                    RunState::PcWritten { exit },
                )
            },
            RunState::PcWritten { exit } => {
                if reply.ret != ffi::HV_SUCCESS {
                    return RunStep::Done(Err(Error::new(reply.ret)));
                }
                RunStep::Done(Ok(exit))
            },
            RunState::TimerHandled => RunStep::Done(Ok(VcpuExit::Intr)),
        }
    }
}

/// How a run goes on from `step` when each request gets the reply that
/// `replies` has for it: the requests that are made, at most `fuel` of them.
pub open spec fn requests_from(
    step: RunStep,
    pending: Option<u32>,
    replies: spec_fn(VcpuRequest) -> VcpuReply,
    fuel: nat,
) -> Seq<VcpuRequest>
    decreases fuel,
{
    match step {
        RunStep::Do(request, state) => if fuel == 0 {
            Seq::empty()
        } else {
            seq![request] + requests_from(
                resume_step(state, replies(request), pending),
                pending_after(state, replies(request), pending),
                replies,
                (fuel - 1) as nat,
            )
        },
        _ => Seq::empty(),
    }
}

/// How a run that goes on from `step` ends within `fuel` requests, if it does.
pub open spec fn outcome_from(
    step: RunStep,
    pending: Option<u32>,
    replies: spec_fn(VcpuRequest) -> VcpuReply,
    fuel: nat,
) -> Option<Result<VcpuExit, Error>>
    decreases fuel,
{
    match step {
        RunStep::Do(request, state) => if fuel == 0 {
            None
        } else {
            outcome_from(
                resume_step(state, replies(request), pending),
                pending_after(state, replies(request), pending),
                replies,
                (fuel - 1) as nat,
            )
        },
        RunStep::Done(result) => Some(result),
        RunStep::Enter => None,
    }
}

/// Every exit is dealt with by at most four calls of the framework, whatever
/// those calls return.
pub proof fn law_every_exit_is_handled(
    exit: hv_vcpu_exit_t,
    gic_available: bool,
    cancel_asked: bool,
    pending: Option<u32>,
    replies: spec_fn(VcpuRequest) -> VcpuReply,
)
    ensures
        outcome_from(exit_step(exit, gic_available, cancel_asked), pending, replies, 4) is Some,
        requests_from(exit_step(exit, gic_available, cancel_asked), pending, replies, 4).len() <= 4,
{
    reveal_with_fuel(outcome_from, 5);
    reveal_with_fuel(requests_from, 5);
}

/// Whether an exception is dealt with by emulating the instruction that caused
/// it: a trapped system register access, a wait, or a secure monitor call.
pub open spec fn emulates_instruction(exit: hv_vcpu_exit_t) -> bool {
    let ec = exception_class(exit.exception.syndrome);
    exit.reason == ffi::HV_EXIT_REASON_EXCEPTION && (ec == ffi::EC_SYSTEMREGISTERTRAP || ec
        == ffi::EC_WFX_TRAP || ec == ffi::EC_AA64_SMC)
}

/// An instruction that is emulated is stepped over: if no call fails, the last
/// call sets the program counter four bytes past the value that was read.
pub proof fn law_emulated_instruction_is_stepped_over(
    exit: hv_vcpu_exit_t,
    gic_available: bool,
    cancel_asked: bool,
    pending: Option<u32>,
    replies: spec_fn(VcpuRequest) -> VcpuReply,
)
    requires
        emulates_instruction(exit),
        forall|request: VcpuRequest| (#[trigger] replies(request)).ret == ffi::HV_SUCCESS,
        replies(VcpuRequest::GetReg(ffi::HV_REG_PC)).value + 4 <= u64::MAX,
    ensures
        requests_from(exit_step(exit, gic_available, cancel_asked), pending, replies, 4).last()
            == VcpuRequest::SetReg(
            ffi::HV_REG_PC,
            (replies(VcpuRequest::GetReg(ffi::HV_REG_PC)).value + 4) as u64,
        ),
        outcome_from(exit_step(exit, gic_available, cancel_asked), pending, replies, 4) matches Some(Ok(_)),
{
    reveal_with_fuel(outcome_from, 5);
    reveal_with_fuel(requests_from, 5);
}

/// All other exits leave the program counter alone.
pub proof fn law_other_exits_keep_pc(
    exit: hv_vcpu_exit_t,
    gic_available: bool,
    cancel_asked: bool,
    pending: Option<u32>,
    replies: spec_fn(VcpuRequest) -> VcpuReply,
    value: u64,
)
    requires
        !emulates_instruction(exit),
    ensures
        !requests_from(exit_step(exit, gic_available, cancel_asked), pending, replies, 4).contains(
            VcpuRequest::SetReg(ffi::HV_REG_PC, value),
        ),
{
    reveal_with_fuel(requests_from, 5);
}

/// A pending interrupt is acknowledged once: where the framework does not serve
/// the acknowledge register, the first read returns the interrupt, the next one
/// reports that there is none.
pub proof fn law_acknowledge_once(irq: u32, first: VcpuReply, second: VcpuReply)
    requires
        first.ret != ffi::HV_SUCCESS,
        second.ret != ffi::HV_SUCCESS,
    ensures
        trapped_value(ICC_IAR1_EL1, first, Some(irq)) == irq,
        trapped_value(
            ICC_IAR1_EL1,
            second,
            pending_after_read(ICC_IAR1_EL1, first, Some(irq)),
        ) == SPURIOUS_IRQ,
{
}

/// The exception class, the direction bit and the transfer register of a syndrome, and
/// the system register that it names, by the bits of the syndrome.
pub open spec fn syndrome_bits(syndrome: u64) -> (u64, bool, u32, u16) {
    (
        (syndrome >> 26) & 0x3f,
        syndrome & 1 == 1,
        ((syndrome >> 5) & 0x1f) as u32,
        ((((syndrome >> 20) & 3) << 14) | (((syndrome >> 14) & 7) << 11) | (((syndrome >> 10) & 0xf)
            << 7) | (((syndrome >> 1) & 0xf) << 3) | ((syndrome >> 17) & 7)) as u16,
    )
}

proof fn lemma_syndrome_bits(syndrome: u64)
    ensures
        exception_class(syndrome) == syndrome_bits(syndrome).0,
        bit_field(syndrome, 1, 2) == 1 <==> syndrome_bits(syndrome).1,
        transfer_register(syndrome) == syndrome_bits(syndrome).2,
        trapped_register(syndrome) == syndrome_bits(syndrome).3,
{
    assert(syndrome / 0x400_0000 % 0x40 == (syndrome >> 26) & 0x3f && syndrome % 2 == syndrome & 1
        && syndrome / 0x20 % 0x20 == (syndrome >> 5) & 0x1f && (syndrome >> 5) & 0x1f < 0x20)
        by (bit_vector);
    let op0 = (syndrome / 0x10_0000 % 4) as u64;
    let op1 = (syndrome / 0x4000 % 8) as u64;
    let crn = (syndrome / 0x400 % 0x10) as u64;
    let crm = (syndrome / 2 % 0x10) as u64;
    let op2 = (syndrome / 0x2_0000 % 8) as u64;
    assert(syndrome / 0x10_0000 % 4 == (syndrome >> 20) & 3 && syndrome / 0x4000 % 8 == (syndrome
        >> 14) & 7 && syndrome / 0x400 % 0x10 == (syndrome >> 10) & 0xf && syndrome / 2 % 0x10 == (
    syndrome >> 1) & 0xf && syndrome / 0x2_0000 % 8 == (syndrome >> 17) & 7) by (bit_vector);
    assert(((op0 << 14) | (op1 << 11) | (crn << 7) | (crm << 3) | op2) as u16 == op0 * 0x4000 + op1
        * 0x800 + crn * 0x80 + crm * 8 + op2) by (bit_vector)
        requires
            op0 < 4,
            op1 < 8,
            crn < 16,
            crm < 16,
            op2 < 8,
    ;
}

/// The calls that set the program counter past an instruction of four bytes.
pub open spec fn steps_over(replies: spec_fn(VcpuRequest) -> VcpuReply) -> Seq<VcpuRequest> {
    seq![
        VcpuRequest::GetReg(31),
        VcpuRequest::SetReg(31, (replies(VcpuRequest::GetReg(31)).value + 4) as u64),
    ]
}

/// What an exception exit comes to where every call succeeds: data aborts are device
/// memory accesses, `HVC` and `SMC` are hypercalls, `WFI` is a halt, `WFE` is passed
/// over, debug events are reported, and everything else is an exception. Only `SMC`
/// and the waits are stepped over, and no call but the two for that is made.
pub proof fn law_exceptions_are_decoded(
    exit: hv_vcpu_exit_t,
    gic_available: bool,
    cancel_asked: bool,
    pending: Option<u32>,
    replies: spec_fn(VcpuRequest) -> VcpuReply,
)
    requires
        exit.reason == 1,
        (exit.exception.syndrome >> 26) & 0x3f != 0x18,
        forall|request: VcpuRequest| (#[trigger] replies(request)).ret == 0,
        replies(VcpuRequest::GetReg(31)).value + 4 <= u64::MAX,
    ensures
        ({
            let ec = (exit.exception.syndrome >> 26) & 0x3f;
            let bit0 = exit.exception.syndrome & 1 == 1;
            let pc = replies(VcpuRequest::GetReg(31)).value;
            let stepped = seq![
                VcpuRequest::GetReg(31),
                VcpuRequest::SetReg(31, (pc + 4) as u64),
            ];
            let step = exit_step(exit, gic_available, cancel_asked);
            let end = outcome_from(step, pending, replies, 4);
            let made = requests_from(step, pending, replies, 4);
            &&& ec == 0x24 || ec == 0x25 <==> end == Some(Ok::<VcpuExit, Error>(VcpuExit::Mmio))
            &&& ec == 0x16 || ec == 0x17 <==> end == Some(
                Ok::<VcpuExit, Error>(VcpuExit::Hypercall),
            )
            &&& ec == 0x01 && !bit0 <==> end == Some(Ok::<VcpuExit, Error>(VcpuExit::Hlt))
            &&& ec == 0x01 && bit0 <==> end == Some(Ok::<VcpuExit, Error>(VcpuExit::Intr))
            &&& 0x30 <= ec <= 0x35 || ec == 0x3c <==> end == Some(
                Ok::<VcpuExit, Error>(VcpuExit::Debug),
            )
            &&& !(ec == 0x24 || ec == 0x25 || ec == 0x16 || ec == 0x17 || ec == 0x01 || 0x30 <= ec
                <= 0x35 || ec == 0x3c) <==> end == Some(Ok::<VcpuExit, Error>(VcpuExit::Exception))
            &&& ec == 0x01 || ec == 0x17 ==> made == stepped
            &&& ec != 0x01 && ec != 0x17 ==> made.len() == 0
        }),
{
    lemma_syndrome_bits(exit.exception.syndrome);
    reveal_with_fuel(outcome_from, 5);
    reveal_with_fuel(requests_from, 5);
    let step = exit_step(exit, gic_available, cancel_asked);
    let ec = syndrome_bits(exit.exception.syndrome).0;
    if ec == 0x01 || ec == 0x17 {
        assert(requests_from(step, pending, replies, 4) =~= steps_over(replies));
    }
}

/// A trapped read of a system register gives the guest its value: the register that
/// the syndrome names is read, the transfer register gets what was read unless it is
/// the zero register, and the instruction is stepped over. A trapped write writes the
/// transfer register to it, or zero. That is all, and the guest runs on.
pub proof fn law_trapped_access_is_carried_out(
    exit: hv_vcpu_exit_t,
    gic_available: bool,
    cancel_asked: bool,
    pending: Option<u32>,
    replies: spec_fn(VcpuRequest) -> VcpuReply,
)
    requires
        exit.reason == 1,
        (exit.exception.syndrome >> 26) & 0x3f == 0x18,
        forall|request: VcpuRequest| (#[trigger] replies(request)).ret == 0,
        replies(VcpuRequest::GetReg(31)).value + 4 <= u64::MAX,
    ensures
        ({
            let syndrome = exit.exception.syndrome;
            let read = syndrome & 1 == 1;
            let rt = ((syndrome >> 5) & 0x1f) as u32;
            let id = ((((syndrome >> 20) & 3) << 14) | (((syndrome >> 14) & 7) << 11) | (((syndrome
                >> 10) & 0xf) << 7) | (((syndrome >> 1) & 0xf) << 3) | ((syndrome >> 17) & 7)) as u16;
            let pc = replies(VcpuRequest::GetReg(31)).value;
            let stepped = seq![
                VcpuRequest::GetReg(31),
                VcpuRequest::SetReg(31, (pc + 4) as u64),
            ];
            let step = exit_step(exit, gic_available, cancel_asked);
            let made = requests_from(step, pending, replies, 4);
            &&& outcome_from(step, pending, replies, 4) == Some(
                Ok::<VcpuExit, Error>(VcpuExit::Intr),
            )
            &&& read && rt != 31 ==> made == seq![
                VcpuRequest::GetSysReg(id),
                VcpuRequest::SetReg(rt, replies(VcpuRequest::GetSysReg(id)).value),
            ] + stepped
            &&& read && rt == 31 ==> made == seq![VcpuRequest::GetSysReg(id)] + stepped
            &&& !read && rt != 31 ==> made == seq![
                VcpuRequest::GetReg(rt),
                VcpuRequest::SetSysReg(id, replies(VcpuRequest::GetReg(rt)).value),
            ] + stepped
            &&& !read && rt == 31 ==> made == seq![VcpuRequest::SetSysReg(id, 0)] + stepped
        }),
{
    let syndrome = exit.exception.syndrome;
    lemma_syndrome_bits(syndrome);
    assert((syndrome >> 5) & 0x1f <= 31) by (bit_vector);
    reveal_with_fuel(outcome_from, 5);
    reveal_with_fuel(requests_from, 5);
    let (_, read, rt, id) = syndrome_bits(syndrome);
    let step = exit_step(exit, gic_available, cancel_asked);
    let made = requests_from(step, pending, replies, 4);
    if read && rt != 31 {
        assert(made =~= seq![
            VcpuRequest::GetSysReg(id),
            VcpuRequest::SetReg(rt, replies(VcpuRequest::GetSysReg(id)).value),
        ] + steps_over(replies));
    } else if read {
        assert(made =~= seq![VcpuRequest::GetSysReg(id)] + steps_over(replies));
    } else if rt != 31 {
        assert(made =~= seq![
            VcpuRequest::GetReg(rt),
            VcpuRequest::SetSysReg(id, replies(VcpuRequest::GetReg(rt)).value),
        ] + steps_over(replies));
    } else {
        assert(made =~= seq![VcpuRequest::SetSysReg(id, 0)] + steps_over(replies));
    }
}

/// A trapped access goes on where the framework does not know the register: a read
/// gives what the interrupt controller would, else zero; a write is passed over. The
/// pending interrupt is taken by a read of the acknowledge register and by nothing else.
pub proof fn law_unknown_registers_are_emulated(
    id: u16,
    rt: u32,
    reply: VcpuReply,
    pending: Option<u32>,
)
    requires
        reply.ret != 0,
        rt < 31,
    ensures
        ({
            let read = RunState::TrappedRead { reg_id: id, rt };
            let after = RunState::TransferWritten;
            let value = if id == 0xc665 {
                7u64
            } else if id == 0xc230 {
                0xff
            } else if id == 0xc667 {
                1
            } else if id == 0xc660 {
                match pending {
                    Some(irq) => irq as u64,
                    None => 1023,
                }
            } else {
                0
            };
            &&& resume_step(read, reply, pending) == RunStep::Do(
                VcpuRequest::SetReg(rt, value),
                after,
            )
            &&& pending_after(read, reply, pending) == if id == 0xc660 {
                None
            } else {
                pending
            }
            &&& resume_step(RunState::TrappedWritten, reply, pending) == resume_step(
                RunState::TrappedWritten,
                VcpuReply { ret: 0, ..reply },
                pending,
            )
            &&& forall|state: RunState, ok: VcpuReply|
                ok.ret == 0 ==> #[trigger] pending_after(state, ok, pending) == pending
        }),
{
}

/// A call that fails ends the run with its error, unless it is one whose result does
/// not matter: an access to the trapped register itself and dealing with the timer.
pub proof fn law_failing_calls_end_the_run(
    state: RunState,
    reply: VcpuReply,
    pending: Option<u32>,
)
    requires
        reply.ret != 0,
    ensures
        resume_step(state, reply, pending) == RunStep::Done(
            Err::<VcpuExit, Error>(Error { number: reply.ret }),
        ) <==> !(state is TrappedRead || state is TrappedWritten || state is TimerHandled),
{
}

/// Exits that are no exceptions: the timer is unmasked where the framework has an
/// interrupt controller, else it becomes an interrupt, and either way the guest runs
/// on; a cancelled run is an interruption once for each time that an immediate exit was
/// asked for, else it is reported as cancelled; anything else is an exception.
pub proof fn law_other_exits_are_decoded(
    exit: hv_vcpu_exit_t,
    gic_available: bool,
    cancel_asked: bool,
    pending: Option<u32>,
    replies: spec_fn(VcpuRequest) -> VcpuReply,
)
    requires
        exit.reason != 1,
    ensures
        ({
            let step = exit_step(exit, gic_available, cancel_asked);
            let end = outcome_from(step, pending, replies, 4);
            let made = requests_from(step, pending, replies, 4);
            &&& exit.reason == 2 ==> made == seq![
                if gic_available {
                    VcpuRequest::UnmaskVtimer
                } else {
                    VcpuRequest::InjectIrq
                },
            ] && end == Some(Ok::<VcpuExit, Error>(VcpuExit::Intr))
            &&& exit.reason != 2 ==> made.len() == 0
            &&& exit.reason == 0 && cancel_asked ==> end == Some(
                Ok::<VcpuExit, Error>(VcpuExit::Intr),
            )
            &&& exit.reason == 0 && !cancel_asked ==> end == Some(
                Ok::<VcpuExit, Error>(VcpuExit::Canceled),
            )
            &&& exit.reason > 2 ==> end == Some(Ok::<VcpuExit, Error>(VcpuExit::Exception))
        }),
{
    reveal_with_fuel(outcome_from, 5);
    reveal_with_fuel(requests_from, 5);
    let step = exit_step(exit, gic_available, cancel_asked);
    if exit.reason == 2 {
        let made = requests_from(step, pending, replies, 4);
        assert(made =~= seq![
            if gic_available {
                VcpuRequest::UnmaskVtimer
            } else {
                VcpuRequest::InjectIrq
            },
        ]);
    }
}

/// A vCPU whose immediate exit is asked for is told to exit, and its next run ends
/// without entering the guest; the run after that enters it, and so does the next run
/// where the wish was withdrawn. One that was in the guest ends its run the first time
/// that it is cancelled as an interruption; if it is cancelled again, that is reported.
/// Nothing else of the vCPU changes.
pub proof fn law_immediate_exit_counts_once(
    vcpu: HvfVcpu,
    exit: hv_vcpu_exit_t,
    gic_available: bool,
)
    requires
        exit.reason == 0,
    ensures
        ({
            let (asked, call) = exit_asked(vcpu, true);
            let (stopped, first) = run_started(asked);
            let (_, second) = run_started(stopped);
            let (withdrawn, no_call) = exit_asked(asked, false);
            let (left, interrupted) = guest_left(asked, 0, exit, gic_available);
            let (_, canceled) = guest_left(left, 0, exit, gic_available);
            &&& call == Some(VcpuRequest::Cancel)
            &&& no_call is None
            &&& first == RunStep::Done(Ok::<VcpuExit, Error>(VcpuExit::Intr))
            &&& second is Enter
            &&& run_started(withdrawn).1 is Enter
            &&& interrupted == RunStep::Done(Ok::<VcpuExit, Error>(VcpuExit::Intr))
            &&& canceled == RunStep::Done(Ok::<VcpuExit, Error>(VcpuExit::Canceled))
            &&& asked.id == vcpu.id && asked.vcpu == vcpu.vcpu && asked.pending_irq
                == vcpu.pending_irq
            &&& stopped.id == vcpu.id && stopped.vcpu == vcpu.vcpu && stopped.pending_irq
                == vcpu.pending_irq
            &&& left.id == vcpu.id && left.vcpu == vcpu.vcpu && left.pending_irq
                == vcpu.pending_irq
        }),
{
}

/// A new vCPU is there exactly if both calls that make it succeed; else the first that
/// failed says why. It enters the guest on its first run, reports it where it is
/// cancelled, and has no pending interrupt.
pub proof fn law_new_vcpu(
    id: usize,
    created: hv_return_t,
    handle: hv_vcpu_t,
    trapping: hv_return_t,
    exit: hv_vcpu_exit_t,
)
    requires
        exit.reason == 0,
    ensures
        match new_vcpu(id, created, handle, trapping) {
            Ok(vcpu) => {
                &&& created == 0 && trapping == 0
                &&& vcpu.id == id && vcpu.vcpu == handle && vcpu.pending_irq is None
                &&& run_started(vcpu).1 is Enter
                &&& guest_left(vcpu, 0, exit, false).1 == RunStep::Done(
                    Ok::<VcpuExit, Error>(VcpuExit::Canceled),
                )
            },
            Err(e) => {
                &&& created != 0 || trapping != 0
                &&& e.number == if created != 0 {
                    created
                } else {
                    trapping
                }
            },
        },
{
}

/// A run that could not enter the guest ends with the error of that, and changes
/// nothing.
pub proof fn law_failed_entry(
    vcpu: HvfVcpu,
    ret: hv_return_t,
    exit: hv_vcpu_exit_t,
    gic_available: bool,
)
    requires
        ret != 0,
    ensures
        guest_left(vcpu, ret, exit, gic_available) == (
            vcpu,
            RunStep::Done(Err::<VcpuExit, Error>(Error { number: ret })),
        ),
{
}

} // verus!
