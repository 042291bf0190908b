//! The layer over the operating system.

pub mod context;
pub mod event;
pub mod ioctl;
pub mod terminal;
pub mod timer;

use vstd::prelude::*;
use vstd::string::StringExecFns;

use crate::errno::{Error, EINVAL};

verus! {

/// The 64-bit number that a two's complement register shows for `x`.
pub open spec fn as_signed(x: u64) -> i64 {
    if x < 0x8000_0000_0000_0000 {
        x as i64
    } else {
        (x - 0x1_0000_0000_0000_0000) as i64
    }
}

fn to_signed(x: u64) -> (y: i64)
    ensures
        y == as_signed(x),
{
    if x < 0x8000_0000_0000_0000 {
        x as i64
    } else {
        (x as i128 - 0x1_0000_0000_0000_0000) as i64
    }
}

/// The result of a call that returned `ret`.
pub open spec fn result_of(ret: i64, last: Error) -> Result<usize, Error> {
    if ret < 0 {
        Err(last)
    } else {
        Ok(ret as usize)
    }
}

/// The result of a call that returned `ret`, below zero on failure; `last` is
/// the error that it left.
pub fn system_result(ret: i64, last: Error) -> (r: Result<usize, Error>)
    requires
        ret <= usize::MAX,
    ensures
        r == result_of(ret, last),
{
    if ret < 0 {
        Err(last)
    } else {
        Ok(ret as usize)
    }
}

/// What naming the current thread comes to.
pub open spec fn thread_named(name: Seq<char>, ret: i32) -> Result<(), Error> {
    if name.contains('\0') {
        Err(Error { number: EINVAL })
    } else if ret == 0 {
        Ok(())
    } else {
        Err(Error { number: ret })
    }
}

/// Names the current thread: a name with a zero character in it is refused, else
/// `ret` is what the system returned.
pub fn set_thread_name(name: &str, ret: i32) -> (r: Result<(), Error>)
    ensures
        r == thread_named(name@, ret),
{
    let n: usize = name.unicode_len();
    let mut i: usize = 0;
    while i < n
        invariant
            i <= n,
            n == name@.len(),
            forall|j: int| 0 <= j < i ==> name@[j] != '\0',
        decreases n - i,
    {
        if name.get_char(i) == '\0' {
            assert(name@[i as int] == '\0');
            return Err(Error::new(EINVAL));
        }
        i += 1;
    }
    if ret == 0 {
        Ok(())
    } else {
        Err(Error::new(ret))
    }
}

/// The processors that a thread may run on.
pub open spec fn processors(count: i64, last: Error) -> Result<Seq<usize>, Error> {
    if count < 1 {
        Err(last)
    } else {
        Ok(Seq::new(count as nat, |i: int| i as usize))
    }
}

/// The processors that a thread may run on: all of them. `count` is the number
/// of processors that the system tells, `last` its last error.
pub fn get_cpu_affinity(count: i64, last: Error) -> (r: Result<Vec<usize>, Error>)
    requires
        count <= usize::MAX,
    ensures
        match processors(count, last) {
            Ok(all) => r matches Ok(cpus) && cpus@ == all,
            Err(e) => r == Err::<Vec<usize>, Error>(e),
        },
{
    if count < 1 {
        return Err(last);
    }
    let n: usize = count as usize;
    let mut cpus: Vec<usize> = Vec::new();
    let mut i: usize = 0;
    while i < n
        invariant
            i <= n,
            cpus@ =~= Seq::new(i as nat, |i: int| i as usize),
        decreases n - i,
    {
        cpus.push(i);
        i += 1;
    }
    Ok(cpus)
}

/// Restricts a thread to some processors: the wish is taken and has no effect.
pub fn set_cpu_affinity(cpus: &Vec<usize>) -> (r: Result<(), Error>)
    ensures
        r == Ok::<(), Error>(()),
{
    Ok(())
}

/// Timers of high resolution, for as long as this is held.
#[derive(Clone, Copy, Debug, PartialEq, Eq, Structural)]
pub struct UnixSetTimerResolution {}

/// Asks for timers of high resolution: they always have it.
pub fn enable_high_res_timers() -> (r: Result<UnixSetTimerResolution, Error>)
    ensures
        r == Ok::<UnixSetTimerResolution, Error>(UnixSetTimerResolution {  }),
{
    Ok(UnixSetTimerResolution {  })
}

/// Logging to the system.
#[derive(Clone, Copy, Debug, PartialEq, Eq, Structural)]
pub struct PlatformSyslog {}

impl PlatformSyslog {
    /// The logger and its descriptor: there are none, since messages go to the
    /// error output.
    pub fn new() -> (r: (Option<PlatformSyslog>, Option<i32>))
        ensures
            r == (None::<PlatformSyslog>, None::<i32>),
    {
        (None, None)
    }
}

/// The argument of the call that punches a hole in a file.
#[derive(Clone, Copy, Debug, PartialEq, Eq, Structural)]
pub struct PunchHoleArgs {
    pub fp_flags: u32,
    pub reserved: u32,
    pub fp_offset: u64,
    pub fp_length: u64,
}

/// The argument of the call that punches a hole in a file.
pub fn file_punch_hole(offset: u64, length: u64) -> (args: PunchHoleArgs)
    ensures
        args == (PunchHoleArgs {
            fp_flags: 0,
            reserved: 0,
            fp_offset: offset,
            fp_length: length,
        }),
{
    PunchHoleArgs { fp_flags: 0, reserved: 0, fp_offset: offset, fp_length: length }
}

/// The bytes that zeroing a range of a file writes.
pub fn file_write_zeroes_at(length: usize) -> (zeros: Vec<u8>)
    ensures
        zeros@ == Seq::new(length as nat, |i: int| 0u8),
{
    let mut zeros: Vec<u8> = Vec::new();
    zeros.resize(length, 0);
    assert(zeros@ =~= Seq::new(length as nat, |i: int| 0u8));
    zeros
}

/// The argument of the call that allocates a range of a file.
#[derive(Clone, Copy, Debug, PartialEq, Eq, Structural)]
pub struct FStore {
    pub fst_flags: u32,
    pub fst_posmode: i32,
    pub fst_offset: i64,
    pub fst_length: i64,
    pub fst_bytesalloc: i64,
}

/// All of the range, or nothing of it.
pub const F_ALLOCATEALL: u32 = 4;

/// The argument of the call that allocates a range of a file.
pub open spec fn store_of(offset: u64, len: u64) -> FStore {
    FStore {
        fst_flags: F_ALLOCATEALL,
        fst_posmode: 0,
        fst_offset: as_signed(offset),
        fst_length: as_signed(len),
        fst_bytesalloc: 0,
    }
}

/// The argument of the call that allocates a range of a file.
pub fn allocate(offset: u64, len: u64) -> (store: FStore)
    ensures
        store == store_of(offset, len),
{
    FStore {
        fst_flags: F_ALLOCATEALL,
        fst_posmode: 0,
        fst_offset: to_signed(offset),
        fst_length: to_signed(len),
        fst_bytesalloc: 0,
    }
}

/// The size that a file is given instead.
pub open spec fn fallback_size(ret: i32, offset: u64, len: u64) -> Option<u64> {
    if ret < 0 {
        Some((offset + len) as u64)
    } else {
        None
    }
}

/// The size that the file is given instead if the range could not be allocated,
/// which `ret` tells.
pub fn allocate_fallback(ret: i32, offset: u64, len: u64) -> (size: Option<u64>)
    requires
        ret < 0 ==> offset + len <= u64::MAX,
    ensures
        size == fallback_size(ret, offset, len),
{
    if ret < 0 {
        Some(offset + len)
    } else {
        None
    }
}

/// A descriptor that is open. Two are equal if their numbers are.
#[derive(Clone, Copy, Debug, PartialEq, Eq, Structural)]
pub struct SafeDescriptor {
    pub descriptor: i32,
}

/// The name of a shared memory object.
pub open spec fn object_name(debug_name: Option<Seq<char>>) -> Seq<char> {
    "/crosvm_"@ + (match debug_name {
        Some(s) => s,
        None => "aetheria_shm"@,
    })
}

/// The name of a shared memory object, from a name for debugging; that is
/// missing if it is not text.
pub fn shm_name(debug_name: Option<&str>) -> (name: String)
    ensures
        name@ == object_name(
            match debug_name {
                Some(s) => Some(s@),
                None => None,
            },
        ),
{
    let mut name: String = "/crosvm_".to_owned();
    match debug_name {
        Some(s) => name.append(s),
        None => name.append("aetheria_shm"),
    }
    name
}

/// Shared memory.
#[derive(Clone, Copy, Debug, PartialEq, Eq, Structural)]
pub struct SharedMemory {
    pub descriptor: i32,
    pub size: u64,
}

/// Shared memory, once it was opened and sized, and whether it is to be closed.
pub open spec fn shared_memory(
    size: u64,
    opened: Result<i32, Error>,
    sized: Result<(), Error>,
) -> (Result<SharedMemory, Error>, bool) {
    match (opened, sized) {
        (Err(e), _) => (Err(e), false),
        (Ok(_), Err(e)) => (Err(e), true),
        (Ok(descriptor), Ok(_)) => (Ok(SharedMemory { descriptor, size }), false),
    }
}

impl SharedMemory {
    /// Shared memory, once it was opened and sized; memory that could not be
    /// sized is to be closed, which the flag tells.
    pub fn new(size: u64, opened: Result<i32, Error>, sized: Result<(), Error>) -> (r: (
        Result<SharedMemory, Error>,
        bool,
    ))
        ensures
            r == shared_memory(size, opened, sized),
    {
        match opened {
            Err(e) => (Err(e), false),
            Ok(descriptor) => match sized {
                Err(e) => (Err(e), true),
                Ok(_) => (Ok(SharedMemory { descriptor, size }), false),
            },
        }
    }

    /// Shared memory from a descriptor.
    pub fn from_safe_descriptor(descriptor: i32, size: u64) -> (shm: SharedMemory)
        ensures
            shm == (SharedMemory { descriptor, size }),
    {
        SharedMemory { descriptor, size }
    }
}

/// A pipe, once it was made and set up.
pub open spec fn pipe_of(
    ends: Result<(i32, i32), Error>,
    first: Result<(), Error>,
    second: Result<(), Error>,
) -> Result<(i32, i32), Error> {
    match (ends, first, second) {
        (Err(e), _, _) => Err(e),
        (Ok(_), Err(e), _) => Err(e),
        (Ok(_), Ok(_), Err(e)) => Err(e),
        (Ok(pair), Ok(_), Ok(_)) => Ok(pair),
    }
}

/// A pipe, once it was made and both ends were set to be closed on execution:
/// the end to read first.
pub fn pipe(ends: Result<(i32, i32), Error>, first: Result<(), Error>, second: Result<(), Error>) -> (r:
    Result<(i32, i32), Error>)
    ensures
        r == pipe_of(ends, first, second),
{
    let pair: (i32, i32) = match ends {
        Ok(pair) => pair,
        Err(e) => {
            return Err(e);
        },
    };
    match first {
        Ok(_) => {},
        Err(e) => {
            return Err(e);
        },
    }
    match second {
        Ok(_) => {},
        Err(e) => {
            return Err(e);
        },
    }
    Ok(pair)
}

/// A call failed exactly if it returned a number below zero, and then its error is told;
/// else it returned that number.
pub proof fn law_system_results(ret: i64, last: Error)
    requires
        ret <= usize::MAX,
    ensures
        ret < 0 ==> result_of(ret, last) == Err::<usize, Error>(last),
        ret >= 0 ==> result_of(ret, last) is Ok && result_of(ret, last)->Ok_0 == ret,
{
}

/// A thread gets its name unless the system refuses it, which says why, or the name has a
/// zero character in it, wherever that is.
pub proof fn law_thread_names(name: Seq<char>, ret: i32, i: int)
    ensures
        0 <= i < name.len() && name[i] == '\0' ==> thread_named(name, ret) == Err::<(), Error>(
            Error { number: 22 },
        ),
        thread_named(name, ret) is Ok ==> ret == 0,
        !name.contains('\0') && ret == 0 ==> thread_named(name, ret) is Ok,
        !name.contains('\0') && ret != 0 ==> thread_named(name, ret) == Err::<(), Error>(
            Error { number: ret },
        ),
{
}

/// A thread may run on every processor that the system tells of, and there is at least
/// one.
pub proof fn law_all_processors(count: i64, last: Error, cpu: usize)
    requires
        count <= usize::MAX,
    ensures
        count < 1 ==> processors(count, last) == Err::<Seq<usize>, Error>(last),
        count >= 1 ==> processors(count, last) is Ok && processors(count, last)->Ok_0.len()
            == count && (processors(count, last)->Ok_0.contains(cpu) <==> cpu < count),
{
    if count >= 1 {
        let all = processors(count, last)->Ok_0;
        if cpu < count {
            assert(all[cpu as int] == cpu);
        }
    }
}

/// A range of a file is allocated as a whole, from its first byte to its last; where the
/// system cannot do that, the file is made to end where the range does. Numbers of 64 bits
/// reach the system as they are.
pub proof fn law_ranges_are_allocated(offset: u64, len: u64, ret: i32)
    requires
        offset + len <= u64::MAX,
    ensures
        store_of(offset, len).fst_flags == 4,
        store_of(offset, len).fst_posmode == 0,
        store_of(offset, len).fst_bytesalloc == 0,
        offset <= i64::MAX ==> store_of(offset, len).fst_offset == offset,
        len <= i64::MAX ==> store_of(offset, len).fst_length == len,
        offset > i64::MAX ==> store_of(offset, len).fst_offset == offset - 0x1_0000_0000_0000_0000,
        len > i64::MAX ==> store_of(offset, len).fst_length == len - 0x1_0000_0000_0000_0000,
        fallback_size(ret, offset, len) is Some <==> ret < 0,
        fallback_size(ret, offset, len) matches Some(size) ==> size - len == offset,
{
}

/// Shared memory is there exactly if it could be opened and sized, with its descriptor and
/// its size; memory that was opened and not sized is to be closed, and no other.
pub proof fn law_shared_memory_is_made(
    size: u64,
    opened: Result<i32, Error>,
    sized: Result<(), Error>,
)
    ensures
        ({
            let (memory, close) = shared_memory(size, opened, sized);
            &&& close <==> opened is Ok && sized is Err
            &&& memory is Ok <==> opened is Ok && sized is Ok
            &&& memory matches Ok(m) ==> m.size == size && opened == Ok::<i32, Error>(m.descriptor)
            &&& opened matches Err(e) ==> memory == Err::<SharedMemory, Error>(e)
            &&& opened is Ok ==> (sized matches Err(e) ==> memory == Err::<SharedMemory, Error>(e))
        }),
{
}

/// The name of a shared memory object ends in the name that was given, behind the same
/// beginning for all, so that different names stay different.
pub proof fn law_object_names(a: Seq<char>, b: Seq<char>)
    ensures
        object_name(Some(a)).take(8) == "/crosvm_"@,
        object_name(Some(a)).skip(8) == a,
        a != b ==> object_name(Some(a)) != object_name(Some(b)),
        object_name(None) == object_name(Some("aetheria_shm"@)),
{
    reveal_strlit("/crosvm_");
    assert(object_name(Some(a)).take(8) =~= "/crosvm_"@);
    assert(object_name(Some(a)).skip(8) =~= a);
    assert(object_name(Some(b)).skip(8) =~= b);
}

/// A pipe is there exactly if it was made and both its ends were set up; else what failed
/// first is told.
pub proof fn law_pipes_are_made(
    ends: Result<(i32, i32), Error>,
    first: Result<(), Error>,
    second: Result<(), Error>,
)
    ensures
        pipe_of(ends, first, second) is Ok <==> ends is Ok && first is Ok && second is Ok,
        pipe_of(ends, first, second) is Ok || ends is Err ==> pipe_of(ends, first, second) == ends,
        ends is Ok ==> (first matches Err(e) ==> pipe_of(ends, first, second) == Err::<
            (i32, i32),
            Error,
        >(e)),
        ends is Ok && first is Ok ==> (second matches Err(e) ==> pipe_of(ends, first, second)
            == Err::<(i32, i32), Error>(e)),
{
}

} // verus!
