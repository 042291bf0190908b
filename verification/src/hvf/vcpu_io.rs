//! Device memory accesses and hypercalls of a vCPU.

use vstd::prelude::*;

use crate::errno::{Error, EINVAL, EIO};
use crate::hvf::ffi;
use crate::hvf::ffi::{bit_field, hv_reg_t, hv_vcpu_exit_t};
use crate::hvf::vcpu::{HvfVcpu, VcpuReply, VcpuRequest};
use crate::hypercall::HypercallAbi;
use crate::words::{from_le64, law_word64_round_trip, le64, to_le64, word64};

verus! {

/// What is awaited while a device memory access is in progress.
#[derive(Clone, Copy, Debug, PartialEq, Eq, Structural)]
pub enum MmioState {
    /// The value of the register that is stored.
    StoreValue { address: u64, len: usize },
    /// The register that is loaded was written.
    LoadWritten,
    /// The program counter.
    ReadPc,
    /// The program counter was written.
    PcWritten,
}

/// The next step of a device memory access.
#[derive(Clone, Copy, Debug, PartialEq, Eq)]
pub enum MmioStep {
    /// Make a call and report the reply to [`HvfVcpu::mmio_resume`].
    Do(VcpuRequest, MmioState),
    /// Write the low `len` bytes of `value`, lowest first, to the device at
    /// `address` and report the result to [`HvfVcpu::mmio_written`].
    Write { address: u64, value: u64, len: usize },
    /// Read `len` bytes from the device at `address` and report them to
    /// [`HvfVcpu::mmio_read`].
    Read { address: u64, len: usize, reg: hv_reg_t },
    /// The access is over.
    Done(Result<(), Error>),
}

/// The number of bytes of an access.
pub open spec fn access_len(syndrome: u64) -> nat {
    let sas = bit_field(syndrome, 0x40_0000, 4);
    if sas == 0 {
        1
    } else if sas == 1 {
        2
    } else if sas == 2 {
        4
    } else {
        8
    }
}

/// The first step of an access.
pub open spec fn mmio_first_step(exit: hv_vcpu_exit_t) -> MmioStep {
    let syndrome = exit.exception.syndrome;
    let address = exit.exception.physical_address;
    let len = access_len(syndrome) as usize;
    let reg = bit_field(syndrome, 0x1_0000, 0x20) as u32;
    if bit_field(syndrome, 0x100_0000, 2) == 0 {
        MmioStep::Done(Err(Error { number: EIO }))
    } else if bit_field(syndrome, 0x40, 2) == 1 {
        MmioStep::Do(VcpuRequest::GetReg(reg), MmioState::StoreValue { address, len })
    } else {
        MmioStep::Read { address, len, reg }
    }
}

/// The step that begins to move the program counter.
pub open spec fn mmio_advance() -> MmioStep {
    MmioStep::Do(VcpuRequest::GetReg(ffi::HV_REG_PC), MmioState::ReadPc)
}

/// The step that follows the reply to a request.
pub open spec fn mmio_next_step(state: MmioState, reply: VcpuReply) -> MmioStep {
    if reply.ret != ffi::HV_SUCCESS {
        MmioStep::Done(Err(Error { number: reply.ret }))
    } else {
        match state {
            MmioState::StoreValue { address, len } => MmioStep::Write {
                address,
                value: reply.value,
                len,
            },
            MmioState::LoadWritten => mmio_advance(),
            MmioState::ReadPc => MmioStep::Do(
                VcpuRequest::SetReg(ffi::HV_REG_PC, (reply.value + 4) as u64),
                MmioState::PcWritten,
            ),
            MmioState::PcWritten => MmioStep::Done(Ok(())),
        }
    }
}

/// The low `len` bytes of `value`, lowest first.
pub open spec fn low_bytes(value: u64, len: nat) -> Seq<u8> {
    le64(value).take(len as int)
}

/// The number whose low bytes, lowest first, are `data` and whose other bytes
/// are zero.
pub open spec fn from_low_bytes(data: Seq<u8>) -> u64 {
    word64(data + Seq::new((8 - data.len()) as nat, |i: int| 0u8))
}

/// The step that follows writing to the device.
pub open spec fn mmio_after_write(result: Result<(), Error>) -> MmioStep {
    match result {
        Ok(_) => mmio_advance(),
        Err(e) => MmioStep::Done(Err(e)),
    }
}

/// The step that follows reading from the device.
pub open spec fn mmio_after_read(reg: hv_reg_t, result: Result<Seq<u8>, Error>) -> MmioStep {
    match result {
        Ok(data) => MmioStep::Do(
            VcpuRequest::SetReg(reg, from_low_bytes(data)),
            MmioState::LoadWritten,
        ),
        Err(e) => MmioStep::Done(Err(e)),
    }
}

/// The bytes that a store of `value` writes: its low `len` bytes.
pub fn store_bytes(value: u64, len: usize) -> (data: Vec<u8>)
    requires
        len <= 8,
    ensures
        data@ == low_bytes(value, len as nat),
{
    let mut data: Vec<u8> = to_le64(value);
    data.truncate(len);
    data
}

/// The value that a load of `data` puts into its register.
pub fn load_value(data: &Vec<u8>) -> (value: u64)
    requires
        data@.len() <= 8,
    ensures
        value == from_low_bytes(data@),
{
    let mut padded: Vec<u8> = Vec::new();
    let mut i: usize = 0;
    while i < 8
        invariant
            i <= 8,
            data@.len() <= 8,
            padded@.len() == i,
            forall|j: int|
                0 <= j < i ==> padded@[j] == (if j < data@.len() {
                    data@[j]
                } else {
                    0u8
                }),
        decreases 8 - i,
    {
        if i < data.len() {
            padded.push(data[i]);
        } else {
            padded.push(0);
        }
        i += 1;
    }
    assert(padded@ =~= data@ + Seq::new((8 - data@.len()) as nat, |i: int| 0u8));
    from_le64(padded.as_slice())
}

impl HvfVcpu {
    /// Starts the device memory access that caused `exit`. An access whose
    /// syndrome is not valid cannot be decoded and fails.
    pub fn handle_mmio(&self, exit: &hv_vcpu_exit_t) -> (step: MmioStep)
        ensures
            step == mmio_first_step(*exit),
    {
        let syndrome: u64 = exit.exception.syndrome;
        let address: u64 = exit.exception.physical_address;
        if !ffi::data_abort_isv(syndrome) {
            return MmioStep::Done(Err(Error::new(EIO)));
        }
        let sas: u32 = ffi::data_abort_sas(syndrome);
        let len: usize = if sas == 0 {
            1
        } else if sas == 1 {
            2
        } else if sas == 2 {
            4
        } else {
            8
        };
        let reg: u32 = ffi::HV_REG_X0 + ffi::data_abort_srt(syndrome);
        if ffi::data_abort_iswrite(syndrome) {
            MmioStep::Do(VcpuRequest::GetReg(reg), MmioState::StoreValue { address, len })
        } else {
            MmioStep::Read { address, len, reg }
        }
    }

    /// Continues an access with the reply to the request that was made in
    /// `state`.
    pub fn mmio_resume(&self, state: MmioState, reply: VcpuReply) -> (step: MmioStep)
        requires
            state is ReadPc && reply.ret == ffi::HV_SUCCESS ==> reply.value + 4 <= u64::MAX,
        ensures
            step == mmio_next_step(state, reply),
    {
        if reply.ret != ffi::HV_SUCCESS {
            return MmioStep::Done(Err(Error::new(reply.ret)));
        }
        match state {
            MmioState::StoreValue { address, len } => MmioStep::Write {
                address,
                value: reply.value,
                len,
            },
            MmioState::LoadWritten => MmioStep::Do(
                VcpuRequest::GetReg(ffi::HV_REG_PC),
                MmioState::ReadPc,
            ),
            MmioState::ReadPc => MmioStep::Do(
                VcpuRequest::SetReg(ffi::HV_REG_PC, reply.value + 4),
                MmioState::PcWritten,
            ),
            MmioState::PcWritten => MmioStep::Done(Ok(())),
        }
    }

    /// Continues an access once the device took the bytes of a store.
    pub fn mmio_written(&self, result: Result<(), Error>) -> (step: MmioStep)
        ensures
            step == mmio_after_write(result),
    {
        match result {
            Ok(_) => MmioStep::Do(VcpuRequest::GetReg(ffi::HV_REG_PC), MmioState::ReadPc),
            Err(e) => MmioStep::Done(Err(e)),
        }
    }

    /// Continues an access once the device gave the bytes of a load.
    pub fn mmio_read(&self, reg: hv_reg_t, result: Result<Vec<u8>, Error>) -> (step: MmioStep)
        requires
            result matches Ok(data) ==> data@.len() <= 8,
        ensures
            step == mmio_after_read(
                reg,
                match result {
                    Ok(data) => Ok(data@),
                    Err(e) => Err(e),
                },
            ),
    {
        match result {
            Ok(data) => MmioStep::Do(
                VcpuRequest::SetReg(reg, load_value(&data)),
                MmioState::LoadWritten,
            ),
            Err(e) => MmioStep::Done(Err(e)),
        }
    }
}

/// What a store of an access puts into device memory, a load of the same
/// access size gets back: the register receives the low bytes of the value that
/// was stored, zero-extended.
pub proof fn law_load_returns_store(value: u64, len: nat)
    requires
        len == 1 || len == 2 || len == 4 || len == 8,
    ensures
        len == 1 ==> from_low_bytes(low_bytes(value, len)) == value % 0x100,
        len == 2 ==> from_low_bytes(low_bytes(value, len)) == value % 0x1_0000,
        len == 4 ==> from_low_bytes(low_bytes(value, len)) == value % 0x1_0000_0000,
        len == 8 ==> from_low_bytes(low_bytes(value, len)) == value,
{
    let data = low_bytes(value, len);
    let padded = data + Seq::new((8 - data.len()) as nat, |i: int| 0u8);
    if len == 1 {
        let kept: u64 = (value % 0x100) as u64;
        lemma_small_bytes(kept);
        law_word64_round_trip(kept);
        assert(padded =~= le64(kept));
    } else if len == 2 {
        let kept: u64 = (value % 0x1_0000) as u64;
        lemma_low_half_bytes(value);
        lemma_small_bytes(kept);
        law_word64_round_trip(kept);
        assert(padded =~= le64(kept));
    } else if len == 4 {
        let kept: u64 = (value % 0x1_0000_0000) as u64;
        lemma_low_word_bytes(value);
        lemma_small_bytes(kept);
        law_word64_round_trip(kept);
        assert(padded =~= le64(kept));
    } else {
        law_word64_round_trip(value);
        assert(padded =~= le64(value));
    }
}

/// The high bytes of a small number are zero.
proof fn lemma_small_bytes(x: u64)
    ensures
        x < 0x100 ==> x % 0x100 == x && x / 0x100 == 0,
        x < 0x1_0000 ==> x / 0x1_0000 == 0,
        x < 0x1_0000_0000 ==> x / 0x100_0000 < 0x100 && x / 0x1_0000_0000 == 0 && x
            / 0x100_0000_0000 == 0 && x / 0x1_0000_0000_0000 == 0 && x / 0x100_0000_0000_0000 == 0,
        x < 0x1_0000 ==> x / 0x100_0000 == 0,
{
}

/// The bytes of a number and of its lowest two bytes.
proof fn lemma_low_half_bytes(x: u64)
    ensures
        (x % 0x1_0000) % 0x100 == x % 0x100,
        (x % 0x1_0000) / 0x100 % 0x100 == x / 0x100 % 0x100,
{
    assert((x % 0x1_0000) % 0x100 == x % 0x100 && (x % 0x1_0000) / 0x100 % 0x100 == x / 0x100
        % 0x100) by (bit_vector);
}

/// The bytes of a number and of its lowest four bytes.
proof fn lemma_low_word_bytes(x: u64)
    ensures
        (x % 0x1_0000_0000) % 0x100 == x % 0x100,
        (x % 0x1_0000_0000) / 0x100 % 0x100 == x / 0x100 % 0x100,
        (x % 0x1_0000_0000) / 0x1_0000 % 0x100 == x / 0x1_0000 % 0x100,
        (x % 0x1_0000_0000) / 0x100_0000 % 0x100 == x / 0x100_0000 % 0x100,
{
    assert((x % 0x1_0000_0000) % 0x100 == x % 0x100 && (x % 0x1_0000_0000) / 0x100 % 0x100 == x
        / 0x100 % 0x100 && (x % 0x1_0000_0000) / 0x1_0000 % 0x100 == x / 0x1_0000 % 0x100 && (x
        % 0x1_0000_0000) / 0x100_0000 % 0x100 == x / 0x100_0000 % 0x100) by (bit_vector);
}

/// What an access does to the vCPU and to the device.
pub enum MmioEffect {
    /// A call of the framework.
    Call(VcpuRequest),
    /// Bytes are written to the device.
    DeviceWrite { address: u64, bytes: Seq<u8> },
    /// So many bytes are read from the device.
    DeviceRead { address: u64, len: usize },
}

/// What an access that goes on from `step` does, and how it ends within `fuel` steps,
/// if it does. Each call of the framework gets the reply that `replies` has for it;
/// the device gives `given` and takes bytes as `taken` says.
pub open spec fn mmio_run(
    step: MmioStep,
    replies: spec_fn(VcpuRequest) -> VcpuReply,
    given: Result<Seq<u8>, Error>,
    taken: Result<(), Error>,
    fuel: nat,
) -> (Seq<MmioEffect>, Option<Result<(), Error>>)
    decreases fuel,
{
    if fuel == 0 {
        (Seq::empty(), None)
    } else {
        let left = (fuel - 1) as nat;
        match step {
            MmioStep::Done(result) => (Seq::empty(), Some(result)),
            MmioStep::Do(request, state) => {
                let next = mmio_next_step(state, replies(request));
                let rest = mmio_run(next, replies, given, taken, left);
                (seq![MmioEffect::Call(request)] + rest.0, rest.1)
            },
            MmioStep::Write { address, value, len } => {
                let bytes = low_bytes(value, len as nat);
                let rest = mmio_run(mmio_after_write(taken), replies, given, taken, left);
                (seq![MmioEffect::DeviceWrite { address, bytes }] + rest.0, rest.1)
            },
            MmioStep::Read { address, len, reg } => {
                let rest = mmio_run(mmio_after_read(reg, given), replies, given, taken, left);
                (seq![MmioEffect::DeviceRead { address, len }] + rest.0, rest.1)
            },
        }
    }
}

/// The register that an access transfers, the number of its bytes, whether it is a
/// store, and whether its syndrome is valid, by the bits of the syndrome.
pub open spec fn access_bits(syndrome: u64) -> (u32, u64, bool, bool) {
    (
        ((syndrome >> 16) & 0x1f) as u32,
        1u64 << ((syndrome >> 22) & 3),
        (syndrome >> 6) & 1 == 1,
        (syndrome >> 24) & 1 == 1,
    )
}

proof fn lemma_access_bits(syndrome: u64)
    ensures
        bit_field(syndrome, 0x1_0000, 0x20) == access_bits(syndrome).0,
        access_len(syndrome) == access_bits(syndrome).1,
        access_len(syndrome) <= 8,
        (bit_field(syndrome, 0x40, 2) == 1) == access_bits(syndrome).2,
        (bit_field(syndrome, 0x100_0000, 2) == 1) == access_bits(syndrome).3,
        bit_field(syndrome, 0x100_0000, 2) < 2,
{
    let sas = (syndrome >> 22) & 3;
    assert(syndrome / 0x1_0000 % 0x20 == (syndrome >> 16) & 0x1f && syndrome / 0x40_0000 % 4 == (
    syndrome >> 22) & 3 && syndrome / 0x40 % 2 == (syndrome >> 6) & 1 && syndrome / 0x100_0000 % 2
        == (syndrome >> 24) & 1 && (syndrome >> 16) & 0x1f < 0x20) by (bit_vector);
    assert(1u64 << 0 == 1 && 1u64 << 1 == 2 && 1u64 << 2 == 4 && 1u64 << 3 == 8 && sas <= 3)
        by (bit_vector)
        requires
            sas == (syndrome >> 22) & 3,
    ;
}

/// A store is carried out: the register that the syndrome names is read, its low bytes
/// are written to the device at the address of the access, the lowest byte first, and
/// the program counter is set past the instruction. That is all.
pub proof fn law_store_is_carried_out(
    exit: hv_vcpu_exit_t,
    replies: spec_fn(VcpuRequest) -> VcpuReply,
    given: Result<Seq<u8>, Error>,
)
    requires
        (exit.exception.syndrome >> 24) & 1 == 1,
        (exit.exception.syndrome >> 6) & 1 == 1,
        forall|request: VcpuRequest| (#[trigger] replies(request)).ret == 0,
        replies(VcpuRequest::GetReg(31)).value + 4 <= u64::MAX,
    ensures
        ({
            let syndrome = exit.exception.syndrome;
            let srt = ((syndrome >> 16) & 0x1f) as u32;
            let len = 1u64 << ((syndrome >> 22) & 3);
            let value = replies(VcpuRequest::GetReg(srt)).value;
            let pc = replies(VcpuRequest::GetReg(31)).value;
            let (effects, end) = mmio_run(mmio_first_step(exit), replies, given, Ok(()), 5);
            &&& end == Some(Ok::<(), Error>(()))
            &&& effects.len() == 4
            &&& effects[0] == MmioEffect::Call(VcpuRequest::GetReg(srt))
            &&& effects[1] matches MmioEffect::DeviceWrite { address, bytes } && address
                == exit.exception.physical_address && bytes.len() == len && forall|i: u64|
                i < len ==> (#[trigger] bytes[i as int]) as u64 == (value >> (8 * i) as u64) & 0xff
            &&& effects[2] == MmioEffect::Call(VcpuRequest::GetReg(31))
            &&& effects[3] == MmioEffect::Call(VcpuRequest::SetReg(31, (pc + 4) as u64))
        }),
{
    let (srt, len, _, _) = access_bits(exit.exception.syndrome);
    let value = replies(VcpuRequest::GetReg(srt)).value;
    lemma_access_bits(exit.exception.syndrome);
    crate::words::law_bytes_are_digits(value);
    reveal_with_fuel(mmio_run, 6);
    let bytes = low_bytes(value, len as nat);
    assert forall|i: u64| i < len implies (#[trigger] bytes[i as int]) as u64 == (value >> (8 * i) as u64)
        & 0xff by {
        assert(bytes[i as int] == le64(value)[i as int]);
    }
    let (effects, end) = mmio_run(mmio_first_step(exit), replies, given, Ok(()), 5);
    assert(effects[1] == MmioEffect::DeviceWrite {
        address: exit.exception.physical_address,
        bytes,
    });
}

/// A load is carried out: as many bytes as the access has are read from the device at
/// its address, the register that the syndrome names gets them, the first one lowest
/// and zeros above them, and the program counter is set past the instruction. That is
/// all.
pub proof fn law_load_is_carried_out(
    exit: hv_vcpu_exit_t,
    replies: spec_fn(VcpuRequest) -> VcpuReply,
    data: Seq<u8>,
    taken: Result<(), Error>,
)
    requires
        (exit.exception.syndrome >> 24) & 1 == 1,
        (exit.exception.syndrome >> 6) & 1 != 1,
        data.len() == 1u64 << ((exit.exception.syndrome >> 22) & 3),
        forall|request: VcpuRequest| (#[trigger] replies(request)).ret == 0,
        replies(VcpuRequest::GetReg(31)).value + 4 <= u64::MAX,
    ensures
        ({
            let syndrome = exit.exception.syndrome;
            let srt = ((syndrome >> 16) & 0x1f) as u32;
            let len = 1u64 << ((syndrome >> 22) & 3);
            let pc = replies(VcpuRequest::GetReg(31)).value;
            let (effects, end) = mmio_run(mmio_first_step(exit), replies, Ok(data), taken, 5);
            &&& end == Some(Ok::<(), Error>(()))
            &&& effects.len() == 4
            &&& effects[0] == (MmioEffect::DeviceRead {
                address: exit.exception.physical_address,
                len: len as usize,
            })
            &&& effects[1] matches MmioEffect::Call(VcpuRequest::SetReg(reg, value)) && reg == srt
                && forall|i: u64|
                i < 8 ==> #[trigger] ((value >> (8 * i) as u64) & 0xff) == if i < len {
                    data[i as int] as u64
                } else {
                    0
                }
            &&& effects[2] == MmioEffect::Call(VcpuRequest::GetReg(31))
            &&& effects[3] == MmioEffect::Call(VcpuRequest::SetReg(31, (pc + 4) as u64))
        }),
{
    let (srt, len, _, _) = access_bits(exit.exception.syndrome);
    lemma_access_bits(exit.exception.syndrome);
    let padded = data + Seq::new((8 - data.len()) as nat, |i: int| 0u8);
    let value = from_low_bytes(data);
    crate::words::law_bytes_round_trip(padded);
    crate::words::law_bytes_are_digits(value);
    reveal_with_fuel(mmio_run, 6);
    assert forall|i: u64| i < 8 implies #[trigger] ((value >> (8 * i) as u64) & 0xff) == if i < len {
        data[i as int] as u64
    } else {
        0
    } by {
        assert(padded[i as int] == le64(value)[i as int]);
    }
    let (effects, end) = mmio_run(mmio_first_step(exit), replies, Ok(data), taken, 5);
    assert(effects[1] == MmioEffect::Call(VcpuRequest::SetReg(srt, value)));
}

/// An access that cannot be carried out is not stepped over: one whose syndrome is not
/// valid does nothing at all, and one that is refused by the device, or one of whose
/// registers cannot be read or written, ends with that error; in either case nothing
/// is done after what failed.
pub proof fn law_failed_access_keeps_pc(
    exit: hv_vcpu_exit_t,
    replies: spec_fn(VcpuRequest) -> VcpuReply,
    given: Result<Seq<u8>, Error>,
    taken: Result<(), Error>,
)
    ensures
        ({
            let syndrome = exit.exception.syndrome;
            let srt = ((syndrome >> 16) & 0x1f) as u32;
            let store = (syndrome >> 6) & 1 == 1;
            let valid = (syndrome >> 24) & 1 == 1;
            let (effects, end) = mmio_run(mmio_first_step(exit), replies, given, taken, 5);
            let reading = replies(VcpuRequest::GetReg(srt)).ret;
            &&& !valid ==> effects.len() == 0 && end == Some(Err::<(), Error>(Error { number: 5 }))
            &&& valid && store && reading != 0 ==> effects.len() == 1 && end == Some(
                Err::<(), Error>(Error { number: reading }),
            )
            &&& valid && store && reading == 0 ==> (taken matches Err(e) ==> effects.len() == 2
                && end == Some(Err::<(), Error>(e)))
            &&& valid && !store ==> (given matches Err(e) ==> effects.len() == 1 && end == Some(
                Err::<(), Error>(e),
            ))
            &&& end is Some
            &&& end matches Some(Ok(_)) ==> valid && effects.len() == 4
            &&& srt != 31 ==> forall|i: int, value: u64|
                (end matches Some(Err(_))) && 0 <= i < effects.len() && effects[i]
                    == MmioEffect::Call(VcpuRequest::SetReg(31, value)) ==> (#[trigger] replies(
                    VcpuRequest::SetReg(31, value),
                )).ret != 0 && #[trigger] effects[i] == effects.last()
        }),
{
    lemma_access_bits(exit.exception.syndrome);
    reveal_with_fuel(mmio_run, 6);
}

/// The result that a hypercall has if no handler sets one: the call is not
/// supported.
pub const SMCCC_NOT_SUPPORTED: u64 = 0xffff_ffff_ffff_ffff;

/// The number of general-purpose registers, `X0` to `X30`.
pub const GENERAL_REGISTERS: usize = 31;

/// What is awaited while a hypercall is fetched or answered.
#[derive(Clone, Copy, Debug, PartialEq, Eq, Structural)]
pub enum HypercallState {
    /// The function identifier.
    Function,
    /// The first argument.
    Arg1 { id: u64 },
    /// The second argument.
    Arg2 { id: u64, arg1: u64 },
    /// The third argument.
    Arg3 { id: u64, arg1: u64, arg2: u64 },
    /// The result at `index` was stored.
    Stored { index: usize },
}

/// The next step of a hypercall.
#[derive(Clone, Copy, Debug, PartialEq, Eq)]
pub enum HypercallStep {
    /// Make a call. In the state `Stored` the reply goes to
    /// [`HvfVcpu::hypercall_stored`], else to [`HvfVcpu::hypercall_fetched`].
    Do(VcpuRequest, HypercallState),
    /// Hand the call to its handler, then store the results by
    /// [`HvfVcpu::hypercall_store`].
    Handle { id: u64, arg1: u64, arg2: u64, arg3: u64 },
    /// All results are stored: the hypercall ends as its handler did.
    Finished,
    /// A register could not be read or written.
    Failed(Error),
}

/// The first step of a hypercall.
pub open spec fn hypercall_first_step() -> HypercallStep {
    HypercallStep::Do(VcpuRequest::GetReg(0), HypercallState::Function)
}

/// The identifier and the arguments that a handler gets, and the results that stand
/// unless it sets others.
pub open spec fn handed_over(id: u64, arg1: u64, arg2: u64, arg3: u64) -> (
    u64,
    Seq<u64>,
    Seq<u64>,
) {
    (id, seq![arg1, arg2, arg3], seq![SMCCC_NOT_SUPPORTED, 0u64, 0u64, 0u64])
}

/// The step that follows the reply to a read of the identifier or an argument.
/// The identifier is the low half of its register. In the state `Stored` nothing is
/// read, so nothing is to be fetched.
pub open spec fn fetched_step(state: HypercallState, reply: VcpuReply) -> HypercallStep {
    if reply.ret != ffi::HV_SUCCESS {
        HypercallStep::Failed(Error { number: reply.ret })
    } else {
        match state {
            HypercallState::Function => HypercallStep::Do(
                VcpuRequest::GetReg(1),
                HypercallState::Arg1 { id: (reply.value % 0x1_0000_0000) as u64 },
            ),
            HypercallState::Arg1 { id } => HypercallStep::Do(
                VcpuRequest::GetReg(2),
                HypercallState::Arg2 { id, arg1: reply.value },
            ),
            HypercallState::Arg2 { id, arg1 } => HypercallStep::Do(
                VcpuRequest::GetReg(3),
                HypercallState::Arg3 { id, arg1, arg2: reply.value },
            ),
            HypercallState::Arg3 { id, arg1, arg2 } => HypercallStep::Handle {
                id,
                arg1,
                arg2,
                arg3: reply.value,
            },
            HypercallState::Stored { .. } => HypercallStep::Finished,
        }
    }
}

/// The step that stores the result at `index`, or ends the call when all
/// results are stored. There is no register for a result past `X30`.
pub open spec fn store_step(results: Seq<u64>, index: int) -> HypercallStep {
    if index >= results.len() {
        HypercallStep::Finished
    } else if index >= GENERAL_REGISTERS {
        HypercallStep::Failed(Error { number: EINVAL })
    } else {
        HypercallStep::Do(
            VcpuRequest::SetReg(index as u32, results[index]),
            HypercallState::Stored { index: index as usize },
        )
    }
}

/// The first step of storing results.
pub open spec fn store_first(results: Seq<u64>) -> HypercallStep {
    store_step(results, 0)
}

/// The step that follows the reply to storing the result at `index`.
pub open spec fn stored_step(results: Seq<u64>, index: int, ret: i32) -> HypercallStep {
    if ret != ffi::HV_SUCCESS {
        HypercallStep::Failed(Error { number: ret })
    } else {
        store_step(results, index + 1)
    }
}

impl HvfVcpu {
    /// Starts a hypercall: the identifier is in `X0`, the arguments are in `X1`
    /// to `X3`.
    pub fn handle_hypercall(&self) -> (step: HypercallStep)
        ensures
            step == hypercall_first_step(),
    {
        HypercallStep::Do(VcpuRequest::GetReg(ffi::HV_REG_X0), HypercallState::Function)
    }

    /// Continues a hypercall with the value of the register that was read in
    /// `state`.
    pub fn hypercall_fetched(&self, state: HypercallState, reply: VcpuReply) -> (step:
        HypercallStep)
        requires
            !(state is Stored),
        ensures
            step == fetched_step(state, reply),
    {
        if reply.ret != ffi::HV_SUCCESS {
            return HypercallStep::Failed(Error::new(reply.ret));
        }
        match state {
            HypercallState::Function => HypercallStep::Do(
                VcpuRequest::GetReg(ffi::HV_REG_X0 + 1),
                HypercallState::Arg1 { id: reply.value % 0x1_0000_0000 },
            ),
            HypercallState::Arg1 { id } => HypercallStep::Do(
                VcpuRequest::GetReg(ffi::HV_REG_X0 + 2),
                HypercallState::Arg2 { id, arg1: reply.value },
            ),
            HypercallState::Arg2 { id, arg1 } => HypercallStep::Do(
                VcpuRequest::GetReg(ffi::HV_REG_X0 + 3),
                HypercallState::Arg3 { id, arg1, arg2: reply.value },
            ),
            HypercallState::Arg3 { id, arg1, arg2 } => HypercallStep::Handle {
                id,
                arg1,
                arg2,
                arg3: reply.value,
            },
            HypercallState::Stored { .. } => HypercallStep::Finished,
        }
    }

    /// The call that a handler gets. Unless it sets results, the guest is told
    /// that the function is not supported.
    pub fn hypercall_abi(id: u64, arg1: u64, arg2: u64, arg3: u64) -> (abi: HypercallAbi)
        ensures
            abi.id == handed_over(id, arg1, arg2, arg3).0,
            abi.args@ == handed_over(id, arg1, arg2, arg3).1,
            abi.results@ == handed_over(id, arg1, arg2, arg3).2,
    {
        let args: Vec<u64> = vec![arg1, arg2, arg3];
        let results: Vec<u64> = vec![SMCCC_NOT_SUPPORTED, 0, 0, 0];
        HypercallAbi::new(id, args, results)
    }

    /// Starts to store the results that the handler left, the first in `X0`.
    /// They are stored whether or not the handler succeeded.
    pub fn hypercall_store(&self, results: &Vec<u64>) -> (step: HypercallStep)
        ensures
            step == store_first(results@),
    {
        Self::store_at(results, 0)
    }

    /// Continues to store results once the one at `index` was stored.
    pub fn hypercall_stored(&self, results: &Vec<u64>, index: usize, ret: i32) -> (step:
        HypercallStep)
        requires
            index < results@.len(),
        ensures
            step == stored_step(results@, index as int, ret),
    {
        if ret != ffi::HV_SUCCESS {
            return HypercallStep::Failed(Error::new(ret));
        }
        assert(results.len() == results@.len());
        Self::store_at(results, index + 1)
    }

    fn store_at(results: &Vec<u64>, index: usize) -> (step: HypercallStep)
        ensures
            step == store_step(results@, index as int),
    {
        if index >= results.len() {
            return HypercallStep::Finished;
        }
        if index >= GENERAL_REGISTERS {
            return HypercallStep::Failed(Error::new(EINVAL));
        }
        HypercallStep::Do(
            VcpuRequest::SetReg(ffi::HV_REG_X0 + index as u32, results[index]),
            HypercallState::Stored { index },
        )
    }
}

/// The requests that fetching a hypercall makes from `step` on, at most `fuel` of them,
/// and the step that it comes to, where each gets the reply that `replies` has for it.
pub open spec fn fetch_run(
    step: HypercallStep,
    replies: spec_fn(VcpuRequest) -> VcpuReply,
    fuel: nat,
) -> (Seq<VcpuRequest>, HypercallStep)
    decreases fuel,
{
    match step {
        HypercallStep::Do(request, state) => if fuel == 0 {
            (Seq::empty(), step)
        } else {
            let rest = fetch_run(
                fetched_step(state, replies(request)),
                replies,
                (fuel - 1) as nat,
            );
            (seq![request] + rest.0, rest.1)
        },
        _ => (Seq::empty(), step),
    }
}

/// A hypercall is handed over as the guest made it: `X0` to `X3` are read in this
/// order and nothing else is done; the handler gets the low half of `X0` as the
/// identifier and `X1`, `X2` and `X3` as the three arguments, in this order. Unless it
/// sets other results, `X0` will read as minus one and `X1` to `X3` as zero.
pub proof fn law_hypercall_is_handed_over(replies: spec_fn(VcpuRequest) -> VcpuReply)
    requires
        forall|request: VcpuRequest| (#[trigger] replies(request)).ret == 0,
    ensures
        ({
            let x = |i: u32| replies(VcpuRequest::GetReg(i)).value;
            let (reads, end) = fetch_run(hypercall_first_step(), replies, 4);
            &&& reads == Seq::new(4, |i: int| VcpuRequest::GetReg(i as u32))
            &&& end matches HypercallStep::Handle { id, arg1, arg2, arg3 } && id == x(0) & 0xffff_ffff
                && arg1 == x(1) && arg2 == x(2) && arg3 == x(3) && handed_over(id, arg1, arg2, arg3)
                == (x(0) & 0xffff_ffff, seq![x(1), x(2), x(3)], seq![u64::MAX, 0, 0, 0])
        }),
{
    reveal_with_fuel(fetch_run, 5);
    let x0 = replies(VcpuRequest::GetReg(0)).value;
    assert(x0 % 0x1_0000_0000 == x0 & 0xffff_ffff) by (bit_vector);
    let (reads, end) = fetch_run(hypercall_first_step(), replies, 4);
    assert(reads =~= Seq::new(4, |i: int| VcpuRequest::GetReg(i as u32)));
}

/// A hypercall one of whose registers cannot be read is not handed over: it fails with
/// the error of the first one that cannot, and no register after it is read.
pub proof fn law_unreadable_hypercall_fails(
    replies: spec_fn(VcpuRequest) -> VcpuReply,
    n: u32,
)
    requires
        n < 4,
        forall|i: u32| i < n ==> (#[trigger] replies(VcpuRequest::GetReg(i))).ret == 0,
        replies(VcpuRequest::GetReg(n)).ret != 0,
    ensures
        ({
            let (reads, end) = fetch_run(hypercall_first_step(), replies, 4);
            &&& reads == Seq::new((n + 1) as nat, |i: int| VcpuRequest::GetReg(i as u32))
            &&& end == HypercallStep::Failed(
                Error { number: replies(VcpuRequest::GetReg(n)).ret },
            )
        }),
{
    reveal_with_fuel(fetch_run, 5);
    assert(n == 0 || n == 1 || n == 2 || n == 3);
    let (reads, end) = fetch_run(hypercall_first_step(), replies, 4);
    assert(reads =~= Seq::new((n + 1) as nat, |i: int| VcpuRequest::GetReg(i as u32)));
}

/// The requests that storing `results` from `index` on makes, and how it ends,
/// when each write returns what `rets` has for its register.
pub open spec fn stores(results: Seq<u64>, index: int, rets: spec_fn(u32) -> i32) -> (
    Seq<VcpuRequest>,
    HypercallStep,
)
    decreases results.len() - index,
{
    match store_step(results, index) {
        HypercallStep::Do(request, _) => if rets(index as u32) != ffi::HV_SUCCESS || index < 0
            || index >= results.len() {
            (seq![request], HypercallStep::Failed(Error { number: rets(index as u32) }))
        } else {
            let rest = stores(results, index + 1, rets);
            (seq![request] + rest.0, rest.1)
        },
        step => (Seq::empty(), step),
    }
}

proof fn lemma_results_reach_their_registers(
    results: Seq<u64>,
    index: int,
    rets: spec_fn(u32) -> i32,
)
    requires
        0 <= index <= results.len() <= GENERAL_REGISTERS,
        forall|reg: u32| #[trigger] rets(reg) == ffi::HV_SUCCESS,
    ensures
        stores(results, index, rets).0 == Seq::new(
            (results.len() - index) as nat,
            |i: int| VcpuRequest::SetReg((index + i) as u32, results[index + i]),
        ),
        stores(results, index, rets).1 == HypercallStep::Finished,
    decreases results.len() - index,
{
    if index < results.len() {
        lemma_results_reach_their_registers(results, index + 1, rets);
        let rest = stores(results, index + 1, rets);
        let request = VcpuRequest::SetReg(index as u32, results[index]);
        assert(rets(index as u32) == ffi::HV_SUCCESS);
        assert(stores(results, index, rets).0 =~= seq![request] + rest.0);
        assert(stores(results, index, rets).0 =~= Seq::new(
            (results.len() - index) as nat,
            |i: int| VcpuRequest::SetReg((index + i) as u32, results[index + i]),
        ));
    } else {
        assert(stores(results, index, rets).0 =~= Seq::new(
            0,
            |i: int| VcpuRequest::SetReg((index + i) as u32, results[index + i]),
        ));
    }
}

/// If no write fails, result `i` of a hypercall reaches register `Xi`, in this
/// order and for every result, and nothing else is written.
pub proof fn law_results_reach_their_registers(results: Seq<u64>, rets: spec_fn(u32) -> i32)
    requires
        results.len() <= GENERAL_REGISTERS,
        forall|reg: u32| #[trigger] rets(reg) == ffi::HV_SUCCESS,
    ensures
        stores(results, 0, rets).0 == Seq::new(
            results.len(),
            |i: int| VcpuRequest::SetReg(i as u32, results[i]),
        ),
        stores(results, 0, rets).1 == HypercallStep::Finished,
{
    lemma_results_reach_their_registers(results, 0, rets);
    assert(stores(results, 0, rets).0 =~= Seq::new(
        results.len(),
        |i: int| VcpuRequest::SetReg(i as u32, results[i]),
    ));
}

/// The requests that storing results makes from `step` on, and how it ends, where each
/// write returns what `rets` has for it.
pub open spec fn store_run(
    step: HypercallStep,
    results: Seq<u64>,
    rets: spec_fn(VcpuRequest) -> i32,
    fuel: nat,
) -> (Seq<VcpuRequest>, HypercallStep)
    decreases fuel,
{
    if fuel == 0 {
        (Seq::empty(), step)
    } else {
        match step {
            HypercallStep::Do(request, HypercallState::Stored { index }) => {
                let next = stored_step(results, index as int, rets(request));
                let rest = store_run(next, results, rets, (fuel - 1) as nat);
                (seq![request] + rest.0, rest.1)
            },
            _ => (Seq::empty(), step),
        }
    }
}

proof fn lemma_store_run(
    results: Seq<u64>,
    rets: spec_fn(VcpuRequest) -> i32,
    from: int,
    n: int,
    fuel: nat,
)
    requires
        0 <= from <= n <= results.len(),
        n <= 31,
        fuel > n - from,
        forall|i: int|
            from <= i < n ==> (#[trigger] rets(VcpuRequest::SetReg(i as u32, results[i]))) == 0,
        n < results.len() && n < 31 ==> rets(VcpuRequest::SetReg(n as u32, results[n])) != 0,
        n < results.len() && n < 31 ==> fuel > n + 1 - from,
    ensures
        ({
            let (writes, end) = store_run(store_step(results, from), results, rets, fuel);
            if n == results.len() {
                writes == Seq::new(
                    (n - from) as nat,
                    |i: int| VcpuRequest::SetReg((from + i) as u32, results[from + i]),
                ) && end == HypercallStep::Finished
            } else if n == 31 {
                writes == Seq::new(
                    (n - from) as nat,
                    |i: int| VcpuRequest::SetReg((from + i) as u32, results[from + i]),
                ) && end == HypercallStep::Failed(Error { number: 22 })
            } else {
                writes == Seq::new(
                    (n + 1 - from) as nat,
                    |i: int| VcpuRequest::SetReg((from + i) as u32, results[from + i]),
                ) && end == HypercallStep::Failed(
                    Error { number: rets(VcpuRequest::SetReg(n as u32, results[n])) },
                )
            }
        }),
    decreases n - from,
{
    reveal_with_fuel(store_run, 3);
    let (writes, end) = store_run(store_step(results, from), results, rets, fuel);
    if from < n {
        lemma_store_run(results, rets, from + 1, n, (fuel - 1) as nat);
        let request = VcpuRequest::SetReg(from as u32, results[from]);
        assert(rets(request) == 0);
        let rest = store_run(store_step(results, from + 1), results, rets, (fuel - 1) as nat);
        assert(writes == seq![request] + rest.0);
    }
    let whole = if n == results.len() || n == 31 {
        n - from
    } else {
        n + 1 - from
    };
    assert(writes =~= Seq::new(
        whole as nat,
        |i: int| VcpuRequest::SetReg((from + i) as u32, results[from + i]),
    ));
}

/// The results of a hypercall are stored, result `i` in register `Xi`, one after the
/// other. All are if every write succeeds and there are registers for them; where a
/// write fails it is the last one, and its error is how the hypercall ends; there is
/// no register for a result past `X30`.
pub proof fn law_results_are_stored(
    results: Seq<u64>,
    rets: spec_fn(VcpuRequest) -> i32,
    n: int,
)
    requires
        0 <= n <= results.len(),
        n <= 31,
        forall|i: int|
            0 <= i < n ==> (#[trigger] rets(VcpuRequest::SetReg(i as u32, results[i]))) == 0,
        n < results.len() && n < 31 ==> rets(VcpuRequest::SetReg(n as u32, results[n])) != 0,
    ensures
        ({
            let (writes, end) = store_run(store_first(results), results, rets, 33);
            &&& n == results.len() ==> writes.len() == n && end == HypercallStep::Finished
            &&& n < results.len() && n == 31 ==> writes.len() == n && end == HypercallStep::Failed(
                Error { number: 22 },
            )
            &&& n < results.len() && n < 31 ==> writes.len() == n + 1 && end
                == HypercallStep::Failed(
                Error { number: rets(VcpuRequest::SetReg(n as u32, results[n])) },
            )
            &&& forall|i: int|
                0 <= i < writes.len() ==> #[trigger] writes[i] == VcpuRequest::SetReg(
                    i as u32,
                    results[i],
                )
        }),
{
    lemma_store_run(results, rets, 0, n, 33);
}

} // verus!
