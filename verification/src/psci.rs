//! Power state coordination: the calls by which a guest starts further
//! processors, asks for features, and turns itself off.

use std::ops::Range;

use vstd::prelude::*;

use crate::hypercall::HypercallAbi;

verus! {

/// Tells the version of the interface.
pub const PSCI_VERSION: u32 = 0x8400_0000;

/// Suspends a processor, 32-bit call.
pub const PSCI_CPU_SUSPEND_32: u32 = 0x8400_0001;

/// Turns a processor off.
pub const PSCI_CPU_OFF: u32 = 0x8400_0002;

/// Starts a processor, 32-bit call.
pub const PSCI_CPU_ON_32: u32 = 0x8400_0003;

/// Tells the state of a processor, 32-bit call.
pub const PSCI_AFFINITY_INFO_32: u32 = 0x8400_0004;

/// Tells whether a trusted system can migrate.
pub const PSCI_MIGRATE_INFO_TYPE: u32 = 0x8400_0006;

/// Turns the machine off.
pub const PSCI_SYSTEM_OFF: u32 = 0x8400_0008;

/// Resets the machine.
pub const PSCI_SYSTEM_RESET: u32 = 0x8400_0009;

/// Tells whether a function is there.
pub const PSCI_FEATURES: u32 = 0x8400_000a;

/// Suspends a processor, 64-bit call.
pub const PSCI_CPU_SUSPEND_64: u32 = 0xc400_0001;

/// Starts a processor, 64-bit call.
pub const PSCI_CPU_ON_64: u32 = 0xc400_0003;

/// Tells the state of a processor, 64-bit call.
pub const PSCI_AFFINITY_INFO_64: u32 = 0xc400_0004;

/// The call succeeded.
pub const PSCI_SUCCESS: i32 = 0;

/// The function is not there.
pub const PSCI_NOT_SUPPORTED: i32 = -1;

/// An argument is wrong.
pub const PSCI_INVALID_PARAMETERS: i32 = -2;

/// The processor runs already.
pub const PSCI_ALREADY_ON: i32 = -4;

/// Version 1.0: the major number in the upper half.
pub const PSCI_VERSION_1_0: u64 = 0x1_0000;

/// No trusted system on any processor.
pub const TOS_NOT_PRESENT_MP: u64 = 2;

/// No exit is asked for.
pub const PSCI_EXIT_NONE: u8 = 0;

/// The guest asked to be turned off.
pub const PSCI_EXIT_SHUTDOWN: u8 = 1;

/// The guest asked to be reset.
pub const PSCI_EXIT_RESET: u8 = 2;

/// How starting a processor went.
#[derive(Clone, Copy, Debug, PartialEq, Eq, Structural)]
pub enum CpuOnResult {
    /// It was started.
    Success,
    /// It runs already.
    AlreadyOn,
    /// There is no such processor.
    InvalidParameters,
}

/// A call that the device does not know.
#[derive(Clone, Copy, Debug, PartialEq, Eq, Structural)]
pub enum PsciError {
    /// The function with this identifier.
    UnknownFunction(u32),
}

/// A return value as the register shows it: 32-bit two's complement.
pub open spec fn return_word(val: i32) -> u64 {
    if val >= 0 {
        val as u64
    } else {
        (0x1_0000_0000 + val) as u64
    }
}

/// Whether the guest is told that a function is there.
pub open spec fn is_feature(fid: u32) -> bool {
    fid == PSCI_VERSION || fid == PSCI_CPU_ON_32 || fid == PSCI_CPU_ON_64 || fid == PSCI_CPU_OFF
        || fid == PSCI_SYSTEM_OFF || fid == PSCI_SYSTEM_RESET || fid == PSCI_FEATURES || fid
        == PSCI_MIGRATE_INFO_TYPE
}

/// Whether a call starts a processor.
pub open spec fn is_cpu_on(fid: u32) -> bool {
    fid == PSCI_CPU_ON_32 || fid == PSCI_CPU_ON_64
}

/// Whether a call turns the machine off or resets it.
pub open spec fn is_system_exit(fid: u32) -> bool {
    fid == PSCI_SYSTEM_OFF || fid == PSCI_SYSTEM_RESET
}

/// Whether a call is known.
pub open spec fn is_known(fid: u32) -> bool {
    is_feature(fid) || fid == PSCI_CPU_SUSPEND_32 || fid == PSCI_CPU_SUSPEND_64 || fid
        == PSCI_AFFINITY_INFO_32 || fid == PSCI_AFFINITY_INFO_64
}

/// The first result of a known call that does not start a processor.
pub open spec fn plain_result(fid: u32, args: Seq<u64>) -> u64 {
    if fid == PSCI_VERSION {
        PSCI_VERSION_1_0
    } else if fid == PSCI_MIGRATE_INFO_TYPE {
        TOS_NOT_PRESENT_MP
    } else if fid == PSCI_FEATURES {
        if is_feature((argument(args, 0) % 0x1_0000_0000) as u32) {
            return_word(PSCI_SUCCESS)
        } else {
            return_word(PSCI_NOT_SUPPORTED)
        }
    } else if fid == PSCI_CPU_OFF || is_system_exit(fid) {
        return_word(PSCI_SUCCESS)
    } else {
        return_word(PSCI_NOT_SUPPORTED)
    }
}

/// The first result of a call that starts a processor.
pub open spec fn cpu_on_word(result: CpuOnResult) -> u64 {
    match result {
        CpuOnResult::Success => return_word(PSCI_SUCCESS),
        CpuOnResult::AlreadyOn => return_word(PSCI_ALREADY_ON),
        CpuOnResult::InvalidParameters => return_word(PSCI_INVALID_PARAMETERS),
    }
}

/// An argument; one that was not passed is zero.
pub open spec fn argument(args: Seq<u64>, index: int) -> u64 {
    if index < args.len() {
        args[index]
    } else {
        0
    }
}

/// The processor that a call starts, the address of its first instruction and its first
/// argument.
pub open spec fn cpu_on_arguments(args: Seq<u64>) -> (u64, u64, u64) {
    (argument(args, 0), argument(args, 1), argument(args, 2))
}

/// The identifier of a call: the low half of its register.
pub open spec fn function_id(abi: HypercallAbi) -> u32 {
    (abi.id % 0x1_0000_0000) as u32
}

/// The identifiers of 32-bit calls: the first, and the first that is none.
pub open spec fn range32() -> (u32, u32) {
    (0x8400_0000, 0x8400_0010)
}

/// The identifiers of 64-bit calls: the first, and the first that is none.
pub open spec fn range64() -> (u32, u32) {
    (0xc400_0000, 0xc400_0010)
}

/// What answering a call asks for next.
#[derive(Clone, Copy, Debug, PartialEq, Eq, Structural)]
pub enum PsciStep {
    /// Start a processor, and go on with how that went.
    StartCpu { target_cpu: u64, entry_point: u64, context_id: u64 },
    /// Record the exit that the guest asks for.
    StoreExit(u8),
    /// Tell that the machine stops. The exit is recorded by then, so whoever is
    /// told can look it up.
    TellStop,
    /// Answer with this word and three zeros.
    Reply(u64),
    /// The call is not known: it fails.
    Refuse(u32),
}

/// The first step of answering a call. `can_start` says whether processors can be
/// started.
pub open spec fn first_step(fid: u32, args: Seq<u64>, can_start: bool) -> PsciStep {
    if !is_known(fid) {
        PsciStep::Refuse(fid)
    } else if is_cpu_on(fid) {
        if can_start {
            PsciStep::StartCpu {
                target_cpu: argument(args, 0),
                entry_point: argument(args, 1),
                context_id: argument(args, 2),
            }
        } else {
            PsciStep::Reply(return_word(PSCI_NOT_SUPPORTED))
        }
    } else if is_system_exit(fid) {
        PsciStep::StoreExit(requested_exit_of(fid))
    } else {
        PsciStep::Reply(plain_result(fid, args))
    }
}

/// The exit that a call asks for.
pub open spec fn requested_exit_of(fid: u32) -> u8 {
    if fid == PSCI_SYSTEM_OFF {
        PSCI_EXIT_SHUTDOWN
    } else {
        PSCI_EXIT_RESET
    }
}

/// The step after another; `started` is how starting a processor went and does
/// not matter for the others.
pub open spec fn next_step(step: PsciStep, started: CpuOnResult) -> PsciStep {
    match step {
        PsciStep::StartCpu { .. } => PsciStep::Reply(cpu_on_word(started)),
        PsciStep::StoreExit(_) => PsciStep::TellStop,
        PsciStep::TellStop => PsciStep::Reply(return_word(PSCI_SUCCESS)),
        _ => step,
    }
}

/// The results of a call that is answered with a word.
pub open spec fn answered(word: u64) -> Seq<u64> {
    seq![word, 0u64, 0u64, 0u64]
}

/// The exit that the guest asked for last, once a call was answered.
pub open spec fn exit_after(fid: u32, before: u8) -> u8 {
    if fid == PSCI_SYSTEM_OFF {
        PSCI_EXIT_SHUTDOWN
    } else if fid == PSCI_SYSTEM_RESET {
        PSCI_EXIT_RESET
    } else {
        before
    }
}

/// The device that answers the calls. `C` starts a processor, given its
/// affinity, the address of its first instruction and its first argument; `S`
/// makes all processors stop.
pub struct PsciDevice<C, S> {
    /// The exit that the guest asked for last.
    pub exit_request: u8,
    /// What starts a processor, if processors can be started.
    pub cpu_on_callback: Option<C>,
    /// What is told that the machine stops.
    pub system_off_callback: Option<S>,
}

impl<C: Fn(u64, u64, u64) -> CpuOnResult, S: Fn()> PsciDevice<C, S> {
    /// The identifiers of 32-bit calls.
    pub fn hvc32_fid_range() -> (range: Range<u32>)
        ensures
            (range.start, range.end) == range32(),
    {
        0x8400_0000..0x8400_0010
    }

    /// The identifiers of 64-bit calls.
    pub fn hvc64_fid_range() -> (range: Range<u32>)
        ensures
            (range.start, range.end) == range64(),
    {
        0xc400_0000..0xc400_0010
    }

    /// A device that cannot start processors yet.
    pub fn new(exit_request: u8) -> (device: Self)
        ensures
            device.exit_request == exit_request,
            device.cpu_on_callback is None,
            device.system_off_callback is None,
    {
        PsciDevice { exit_request, cpu_on_callback: None, system_off_callback: None }
    }

    /// The device, with what starts a processor.
    pub fn with_cpu_on_callback(self, cb: C) -> (device: Self)
        ensures
            device == with_cpu_on(self, cb),
    {
        PsciDevice {
            exit_request: self.exit_request,
            cpu_on_callback: Some(cb),
            system_off_callback: self.system_off_callback,
        }
    }

    /// The device, with what is told that the machine stops.
    pub fn with_system_off_callback(self, cb: S) -> (device: Self)
        ensures
            device == with_system_off(self, cb),
    {
        PsciDevice {
            exit_request: self.exit_request,
            cpu_on_callback: self.cpu_on_callback,
            system_off_callback: Some(cb),
        }
    }

    /// A return value as the register shows it.
    pub fn psci_return(val: i32) -> (word: u64)
        ensures
            word == return_word(val),
    {
        if val >= 0 {
            val as u64
        } else {
            (0x1_0000_0000i64 + val as i64) as u64
        }
    }

    /// The first result of a call that starts a processor.
    pub fn cpu_on_reply(result: CpuOnResult) -> (word: u64)
        ensures
            word == cpu_on_word(result),
    {
        match result {
            CpuOnResult::Success => Self::psci_return(PSCI_SUCCESS),
            CpuOnResult::AlreadyOn => Self::psci_return(PSCI_ALREADY_ON),
            CpuOnResult::InvalidParameters => Self::psci_return(PSCI_INVALID_PARAMETERS),
        }
    }

    fn argument_or_zero(abi: &HypercallAbi, index: usize) -> (arg: u64)
        ensures
            arg == argument(abi.args@, index as int),
    {
        match abi.get_argument(index) {
            Some(arg) => arg,
            None => 0,
        }
    }

    /// The name of the device in logs.
    pub fn debug_label(&self) -> (label: String)
        ensures
            label@ == "PsciDevice"@,
    {
        "PsciDevice".to_owned()
    }

    /// Answers a call. A call that is not known fails and its results stay as
    /// they are. Else the first result is the answer and the three others are
    /// zero. A call that turns the machine off or resets it records that and
    /// tells the callback.
    pub fn handle_hypercall(&mut self, abi: &mut HypercallAbi) -> (r: Result<(), PsciError>)
        requires
            is_cpu_on(function_id(*old(abi))) ==> (old(self).cpu_on_callback matches Some(cb)
                ==> call_requires(
                cb,
                cpu_on_arguments(old(abi).args@),
            )),
            is_system_exit(function_id(*old(abi))) ==> (old(self).system_off_callback matches Some(
                cb,
            ) ==> call_requires(cb, ())),
        ensures
            r == (if is_known(function_id(*old(abi))) {
                Ok::<(), PsciError>(())
            } else {
                Err(PsciError::UnknownFunction(function_id(*old(abi))))
            }),
            final(abi).id == old(abi).id,
            final(abi).args == old(abi).args,
            !is_known(function_id(*old(abi))) ==> final(abi).results == old(abi).results,
            is_known(function_id(*old(abi))) && !is_cpu_on(function_id(*old(abi)))
                ==> final(abi).results@ == answered(
                plain_result(function_id(*old(abi)), old(abi).args@),
            ),
            is_cpu_on(function_id(*old(abi))) ==> (match old(self).cpu_on_callback {
                Some(cb) => exists|result: CpuOnResult| #[trigger]
                    call_ensures(
                        cb,
                        cpu_on_arguments(old(abi).args@),
                        result,
                    ) && final(abi).results@ == answered(cpu_on_word(result)),
                None => final(abi).results@ == answered(return_word(PSCI_NOT_SUPPORTED)),
            }),
            is_system_exit(function_id(*old(abi))) ==> (old(self).system_off_callback matches Some(
                cb,
            ) ==> call_ensures(cb, (), ())),
            *final(self) == (PsciDevice {
                exit_request: exit_after(function_id(*old(abi)), old(self).exit_request),
                ..*old(self)
            }),
    {
        let mut step: PsciStep = Self::first(abi, self.cpu_on_callback.is_some());
        if let PsciStep::StoreExit(request) = step {
            self.exit_request = request;
            step = Self::after(step, CpuOnResult::Success);
            match &self.system_off_callback {
                Some(cb) => {
                    cb();
                },
                None => {},
            }
            step = Self::after(step, CpuOnResult::Success);
        }
        if let PsciStep::StartCpu { target_cpu, entry_point, context_id } = step {
            match &self.cpu_on_callback {
                Some(cb) => {
                    let started: CpuOnResult = cb(target_cpu, entry_point, context_id);
                    step = Self::after(step, started);
                },
                None => {},
            }
        }
        match step {
            PsciStep::Reply(word) => {
                abi.set_results(vec![word, 0, 0, 0]);
                Ok(())
            },
            _ => Err(PsciError::UnknownFunction((abi.hypercall_id() % 0x1_0000_0000) as u32)),
        }
    }

    /// The first step of answering a call.
    pub fn first(abi: &HypercallAbi, can_start: bool) -> (step: PsciStep)
        ensures
            step == first_step(function_id(*abi), abi.args@, can_start),
    {
        let fid: u32 = (abi.hypercall_id() % 0x1_0000_0000) as u32;
        if fid == PSCI_VERSION {
            PsciStep::Reply(PSCI_VERSION_1_0)
        } else if fid == PSCI_MIGRATE_INFO_TYPE {
            PsciStep::Reply(TOS_NOT_PRESENT_MP)
        } else if fid == PSCI_FEATURES {
            let id: u32 = (Self::argument_or_zero(abi, 0) % 0x1_0000_0000) as u32;
            if id == PSCI_VERSION || id == PSCI_CPU_ON_32 || id == PSCI_CPU_ON_64 || id
                == PSCI_CPU_OFF || id == PSCI_SYSTEM_OFF || id == PSCI_SYSTEM_RESET || id
                == PSCI_FEATURES || id == PSCI_MIGRATE_INFO_TYPE {
                PsciStep::Reply(Self::psci_return(PSCI_SUCCESS))
            } else {
                PsciStep::Reply(Self::psci_return(PSCI_NOT_SUPPORTED))
            }
        } else if fid == PSCI_CPU_OFF {
            PsciStep::Reply(Self::psci_return(PSCI_SUCCESS))
        } else if fid == PSCI_CPU_ON_32 || fid == PSCI_CPU_ON_64 {
            if can_start {
                PsciStep::StartCpu {
                    target_cpu: Self::argument_or_zero(abi, 0),
                    entry_point: Self::argument_or_zero(abi, 1),
                    context_id: Self::argument_or_zero(abi, 2),
                }
            } else {
                PsciStep::Reply(Self::psci_return(PSCI_NOT_SUPPORTED))
            }
        } else if fid == PSCI_CPU_SUSPEND_32 || fid == PSCI_CPU_SUSPEND_64 || fid
            == PSCI_AFFINITY_INFO_32 || fid == PSCI_AFFINITY_INFO_64 {
            PsciStep::Reply(Self::psci_return(PSCI_NOT_SUPPORTED))
        } else if fid == PSCI_SYSTEM_OFF {
            PsciStep::StoreExit(PSCI_EXIT_SHUTDOWN)
        } else if fid == PSCI_SYSTEM_RESET {
            PsciStep::StoreExit(PSCI_EXIT_RESET)
        } else {
            PsciStep::Refuse(fid)
        }
    }

    /// The step after another; `started` is how starting a processor went and
    /// does not matter for the others.
    pub fn after(step: PsciStep, started: CpuOnResult) -> (next: PsciStep)
        ensures
            next == next_step(step, started),
    {
        match step {
            PsciStep::StartCpu { .. } => PsciStep::Reply(Self::cpu_on_reply(started)),
            PsciStep::StoreExit(_) => PsciStep::TellStop,
            PsciStep::TellStop => PsciStep::Reply(Self::psci_return(PSCI_SUCCESS)),
            _ => step,
        }
    }
}

/// A call that starts a processor asks for that once, if processors can be started,
/// and answers how it went; if they cannot, it asks for nothing and is refused. A
/// call that turns the machine off or resets it records that before anyone is
/// told, tells it once, and succeeds; no other call asks for either.
pub proof fn law_each_action_once(
    fid: u32,
    args: Seq<u64>,
    can_start: bool,
    started: CpuOnResult,
)
    ensures
        ({
            let first = first_step(fid, args, can_start);
            let second = next_step(first, started);
            let third = next_step(second, started);
            &&& is_cpu_on(fid) && can_start ==> first == (PsciStep::StartCpu {
                target_cpu: argument(args, 0),
                entry_point: argument(args, 1),
                context_id: argument(args, 2),
            }) && second == PsciStep::Reply(cpu_on_word(started))
            &&& is_cpu_on(fid) && !can_start ==> first == PsciStep::Reply(
                return_word(PSCI_NOT_SUPPORTED),
            )
            &&& is_system_exit(fid) ==> first == PsciStep::StoreExit(requested_exit_of(fid))
                && second is TellStop && third == PsciStep::Reply(return_word(PSCI_SUCCESS))
            &&& !is_cpu_on(fid) && !is_system_exit(fid) ==> first is Reply || first is Refuse
        }),
{
}

/// A device with what starts a processor.
pub open spec fn with_cpu_on<C, S>(device: PsciDevice<C, S>, cb: C) -> PsciDevice<C, S> {
    PsciDevice { cpu_on_callback: Some(cb), ..device }
}

/// A device with what is told that the machine stops.
pub open spec fn with_system_off<C, S>(device: PsciDevice<C, S>, cb: S) -> PsciDevice<C, S> {
    PsciDevice { system_off_callback: Some(cb), ..device }
}

/// The callback that was set last is the one that counts, nothing is left of one
/// that it replaces, the two kinds do not affect each other or the recorded
/// exit, and the order in which they are set does not matter.
pub proof fn law_last_callback_counts<C, S>(device: PsciDevice<C, S>, off: S, a: C, b: C)
    ensures
        with_cpu_on(with_cpu_on(with_system_off(device, off), a), b) == (PsciDevice {
            exit_request: device.exit_request,
            cpu_on_callback: Some(b),
            system_off_callback: Some(off),
        }),
        with_system_off(with_cpu_on(with_cpu_on(device, a), b), off) == with_cpu_on(
            with_system_off(device, off),
            b,
        ),
{
}

/// Every known call has an identifier in one of the two ranges.
pub proof fn law_known_calls_are_in_range(fid: u32)
    requires
        is_known(fid),
    ensures
        0x8400_0000 <= fid < 0x8400_0010 || 0xc400_0000 <= fid < 0xc400_0010,
{
}

/// A function that the guest is told to be there is answered, and with
/// success unless it is one that starts a processor.
pub proof fn law_features_are_answered(fid: u32, args: Seq<u64>)
    requires
        is_feature(fid),
    ensures
        is_known(fid),
        !is_cpu_on(fid) && fid != PSCI_FEATURES ==> plain_result(fid, args) != return_word(
            PSCI_NOT_SUPPORTED,
        ),
{
}

/// Different return values show differently in the register.
pub proof fn law_return_words_differ(a: i32, b: i32)
    requires
        a != b,
    ensures
        return_word(a) != return_word(b),
        return_word(a) <= 0xffff_ffff,
{
}

/// What each call of the guest is answered, by its number. Version 1.0 is told; there is
/// no trusted system; a feature is there exactly if it is one of the eight that do
/// something; a processor can turn itself off; suspending and asking for the state of a
/// processor are not supported, and neither is starting one where that cannot be done; a
/// processor is started as the three arguments say; the machine is turned off or reset;
/// any other call is refused. An argument that is missing is zero.
pub proof fn law_calls_are_answered(fid: u32, args: Seq<u64>, can_start: bool)
    ensures
        ({
            let step = first_step(fid, args, can_start);
            let arg = |i: int|
                if i < args.len() {
                    args[i]
                } else {
                    0u64
                };
            let asked = arg(0) & 0xffff_ffff;
            let on = fid == 0x8400_0003 || fid == 0xc400_0003;
            &&& fid == 0x8400_0000 ==> step == PsciStep::Reply(0x1_0000)
            &&& fid == 0x8400_0006 ==> step == PsciStep::Reply(2)
            &&& fid == 0x8400_0002 ==> step == PsciStep::Reply(0)
            &&& fid == 0x8400_0001 || fid == 0xc400_0001 || fid == 0x8400_0004 || fid == 0xc400_0004
                || (on && !can_start) ==> step == PsciStep::Reply(0xffff_ffff)
            &&& on && can_start ==> step == (PsciStep::StartCpu {
                target_cpu: arg(0),
                entry_point: arg(1),
                context_id: arg(2),
            })
            &&& step == PsciStep::StoreExit(1) <==> fid == 0x8400_0008
            &&& step == PsciStep::StoreExit(2) <==> fid == 0x8400_0009
            &&& step is StoreExit ==> fid == 0x8400_0008 || fid == 0x8400_0009
            &&& fid == 0x8400_000a ==> step == PsciStep::Reply(
                if asked == 0x8400_0000 || asked == 0x8400_0002 || asked == 0x8400_0003 || asked
                    == 0xc400_0003 || asked == 0x8400_0006 || asked == 0x8400_0008 || asked
                    == 0x8400_0009 || asked == 0x8400_000a {
                    0
                } else {
                    0xffff_ffff
                },
            )
            &&& step is Refuse <==> !(0x8400_0000 <= fid <= 0x8400_0004 || fid == 0x8400_0006
                || 0x8400_0008 <= fid <= 0x8400_000a || fid == 0xc400_0001 || fid == 0xc400_0003
                || fid == 0xc400_0004)
            &&& step is Refuse ==> step == PsciStep::Refuse(fid)
        }),
{
    let x: u64 = argument(args, 0);
    assert(x % 0x1_0000_0000 == x & 0xffff_ffff) by (bit_vector);
}

/// A processor that was started is a success, one that runs already is minus four, one
/// that is not there is minus two, each as 32 bits; turning off or resetting succeeds
/// after the exit was stored and told, in this order. An answer is the first result and
/// the three others are zero.
pub proof fn law_steps_are_answered(step: PsciStep, started: CpuOnResult, word: u64)
    ensures
        step is StartCpu ==> next_step(step, started) == PsciStep::Reply(
            match started {
                CpuOnResult::Success => 0,
                CpuOnResult::AlreadyOn => 0xffff_fffc,
                CpuOnResult::InvalidParameters => 0xffff_fffe,
            },
        ),
        step is StoreExit ==> next_step(step, started) == PsciStep::TellStop,
        step is TellStop ==> next_step(step, started) == PsciStep::Reply(0),
        step is Reply || step is Refuse ==> next_step(step, started) == step,
        answered(word).len() == 4,
        answered(word)[0] == word,
        forall|i: int| 1 <= i < 4 ==> #[trigger] answered(word)[i] == 0,
{
}

/// A call that is answered at once and one that is answered step by step get the same
/// answer, and leave the same exit: the one that the guest asked for by turning off or
/// resetting, else the one before.
pub proof fn law_both_ways_agree(
    fid: u32,
    args: Seq<u64>,
    can_start: bool,
    started: CpuOnResult,
    before: u8,
)
    ensures
        ({
            let first = first_step(fid, args, can_start);
            let second = next_step(first, started);
            let last = next_step(second, started);
            &&& is_known(fid) <==> !(first is Refuse)
            &&& is_known(fid) && !is_cpu_on(fid) ==> last == PsciStep::Reply(
                plain_result(fid, args),
            )
            &&& is_cpu_on(fid) && can_start ==> last == PsciStep::Reply(cpu_on_word(started))
            &&& is_cpu_on(fid) && !can_start ==> last == PsciStep::Reply(0xffff_ffff)
            &&& is_cpu_on(fid) <==> fid == 0x8400_0003 || fid == 0xc400_0003
            &&& exit_after(fid, before) == (match first {
                PsciStep::StoreExit(request) => request,
                _ => before,
            })
        }),
{
}

/// The identifier of a call is the low half of its register, and a processor is started as
/// the first three arguments say, in their order, however the call is answered. Each range
/// of identifiers has the sixteen that begin with its kind, and every known call is in one.
pub proof fn law_call_is_read(abi: HypercallAbi, started: CpuOnResult)
    ensures
        function_id(abi) == (abi.id & 0xffff_ffff) as u32,
        abi.args@.len() >= 3 ==> cpu_on_arguments(abi.args@) == (
            abi.args@[0],
            abi.args@[1],
            abi.args@[2],
        ),
        abi.args@.len() == 0 ==> cpu_on_arguments(abi.args@) == (0u64, 0u64, 0u64),
        is_cpu_on(function_id(abi)) ==> first_step(function_id(abi), abi.args@, true)
            == (PsciStep::StartCpu {
            target_cpu: cpu_on_arguments(abi.args@).0,
            entry_point: cpu_on_arguments(abi.args@).1,
            context_id: cpu_on_arguments(abi.args@).2,
        }),
        is_known(function_id(abi)) ==> range32().0 <= function_id(abi) < range32().1 || range64().0
            <= function_id(abi) < range64().1,
        range32().1 - range32().0 == 16,
        range64().1 - range64().0 == 16,
        range32().0 == 0x8400_0000,
        range64().0 - range32().0 == 0x4000_0000,
{
    let id = abi.id;
    assert(id % 0x1_0000_0000 == id & 0xffff_ffff) by (bit_vector);
}

} // verus!
