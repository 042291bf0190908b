//! Events, which are pipes: a byte in the pipe means that the event is signaled.

use vstd::prelude::*;

use crate::base::SafeDescriptor;
use crate::errno::{Error, EAGAIN};

verus! {

/// How waiting for an event with a time limit ended.
#[derive(Clone, Copy, Debug, PartialEq, Eq, Structural)]
pub enum EventWaitResult {
    Signaled,
    TimedOut,
}

/// An event.
#[derive(Clone, Copy, Debug, PartialEq, Eq, Structural)]
pub struct PlatformEvent {
    /// The end that is waited for.
    pub read_end: i32,
    /// The end that is signaled.
    pub write_end: i32,
}

/// The time limit of the system call, from a time in milliseconds: its low 32
/// bits, as a signed number.
pub open spec fn poll_timeout(millis: u128) -> int {
    let low = millis % 0x1_0000_0000;
    if low < 0x8000_0000 {
        low as int
    } else {
        low - 0x1_0000_0000
    }
}

/// The result of signaling, given the result of writing a byte.
pub open spec fn signal_result(written: Result<usize, Error>) -> Result<(), Error> {
    match written {
        Ok(_) => Ok(()),
        Err(e) => if e.number == EAGAIN {
            Ok(())
        } else {
            Err(e)
        },
    }
}

/// The result of waiting with a time limit, given what the system call returned
/// and the last error.
pub open spec fn wait_result(ret: i32, last: Error) -> Result<EventWaitResult, Error> {
    if ret < 0 {
        Err(last)
    } else if ret == 0 {
        Ok(EventWaitResult::TimedOut)
    } else {
        Ok(EventWaitResult::Signaled)
    }
}

/// An event, once its pipe was made.
pub open spec fn event_of(pipe: Result<(i32, i32), Error>) -> Result<PlatformEvent, Error> {
    match pipe {
        Ok((read_end, write_end)) => Ok(PlatformEvent { read_end, write_end }),
        Err(e) => Err(e),
    }
}

/// The result of waiting, given what reading a byte returned and the last error.
pub open spec fn byte_awaited(ret: i64, last: Error) -> Result<(), Error> {
    if ret > 0 {
        Ok(())
    } else {
        Err(last)
    }
}

/// Whether resetting reads on, given what the last read returned.
pub open spec fn reads_on(ret: i64) -> bool {
    ret > 0
}

/// Another handle of an event, once both ends were cloned.
pub open spec fn clone_of(read_end: Result<i32, Error>, write_end: Result<i32, Error>) -> Result<
    PlatformEvent,
    Error,
> {
    match (read_end, write_end) {
        (Err(e), _) => Err(e),
        (Ok(_), Err(e)) => Err(e),
        (Ok(read_end), Ok(write_end)) => Ok(PlatformEvent { read_end, write_end }),
    }
}

impl PlatformEvent {
    /// An event, once its pipe was made.
    pub fn new(pipe: Result<(i32, i32), Error>) -> (r: Result<PlatformEvent, Error>)
        ensures
            r == event_of(pipe),
    {
        match pipe {
            Ok((read_end, write_end)) => Ok(PlatformEvent { read_end, write_end }),
            Err(e) => Err(e),
        }
    }

    /// The result of signaling, given the result of writing a byte: a full pipe
    /// means that the event is signaled already.
    pub fn signal(&self, written: Result<usize, Error>) -> (r: Result<(), Error>)
        ensures
            r == signal_result(written),
    {
        match written {
            Ok(_) => Ok(()),
            Err(e) => if e.errno() == EAGAIN {
                Ok(())
            } else {
                Err(e)
            },
        }
    }

    /// The result of waiting, given what reading a byte returned and the last
    /// error.
    pub fn wait(&self, ret: i64, last: Error) -> (r: Result<(), Error>)
        ensures
            r == byte_awaited(ret, last),
    {
        if ret <= 0 {
            return Err(last);
        }
        Ok(())
    }

    /// The time limit of the system call, from a time in milliseconds.
    pub fn timeout_ms(millis: u128) -> (ms: i32)
        ensures
            ms == poll_timeout(millis),
    {
        let low: u32 = (millis % 0x1_0000_0000) as u32;
        if low < 0x8000_0000 {
            low as i32
        } else {
            (low as i64 - 0x1_0000_0000) as i32
        }
    }

    /// The result of waiting with a time limit, given what the system call
    /// returned and the last error. A byte is to be read if the event is
    /// signaled.
    pub fn wait_timeout(&self, ret: i32, last: Error) -> (r: Result<EventWaitResult, Error>)
        ensures
            r == wait_result(ret, last),
    {
        if ret < 0 {
            return Err(last);
        }
        if ret == 0 {
            return Ok(EventWaitResult::TimedOut);
        }
        Ok(EventWaitResult::Signaled)
    }

    /// Whether resetting reads on, given what the last read returned.
    pub fn reset(&self, ret: i64) -> (more: bool)
        ensures
            more == reads_on(ret),
    {
        ret > 0
    }

    /// Another handle of the event, once both ends were cloned.
    pub fn try_clone(&self, read_end: Result<i32, Error>, write_end: Result<i32, Error>) -> (r:
        Result<PlatformEvent, Error>)
        ensures
            r == clone_of(read_end, write_end),
    {
        match read_end {
            Err(e) => Err(e),
            Ok(read_end) => match write_end {
                Err(e) => Err(e),
                Ok(write_end) => Ok(PlatformEvent { read_end, write_end }),
            },
        }
    }

    /// The descriptor of the event: the end that is waited for.
    pub fn as_raw_descriptor(&self) -> (fd: i32)
        ensures
            fd == self.read_end,
    {
        self.read_end
    }

    /// The event of which only the end that is waited for is known. It cannot be
    /// signaled.
    pub fn from_raw_descriptor(descriptor: i32) -> (event: PlatformEvent)
        ensures
            event == (PlatformEvent { read_end: descriptor, write_end: -1i32 }),
    {
        PlatformEvent { read_end: descriptor, write_end: -1 }
    }

    /// The descriptor of the event, which the caller now owns.
    pub fn into_raw_descriptor(self) -> (fd: i32)
        ensures
            fd == self.read_end,
    {
        self.read_end
    }
}

impl From<PlatformEvent> for SafeDescriptor {
    fn from(evt: PlatformEvent) -> (sd: SafeDescriptor) {
        SafeDescriptor { descriptor: evt.read_end }
    }
}

impl vstd::std_specs::convert::FromSpecImpl<PlatformEvent> for SafeDescriptor {
    open spec fn obeys_from_spec() -> bool {
        true
    }

    open spec fn from_spec(evt: PlatformEvent) -> SafeDescriptor {
        SafeDescriptor { descriptor: evt.read_end }
    }
}

impl From<SafeDescriptor> for PlatformEvent {
    fn from(sd: SafeDescriptor) -> (evt: PlatformEvent) {
        PlatformEvent { read_end: sd.descriptor, write_end: -1 }
    }
}

impl vstd::std_specs::convert::FromSpecImpl<SafeDescriptor> for PlatformEvent {
    open spec fn obeys_from_spec() -> bool {
        true
    }

    open spec fn from_spec(sd: SafeDescriptor) -> PlatformEvent {
        PlatformEvent { read_end: sd.descriptor, write_end: -1i32 }
    }
}

/// An event that was sent as its descriptor is waited for at the same
/// descriptor, and can no longer be signaled.
pub proof fn law_sent_events_are_waited_for(evt: PlatformEvent)
    ensures
        ({
            let sent = <SafeDescriptor as vstd::std_specs::convert::FromSpec<
                PlatformEvent,
            >>::from_spec(evt);
            let received = <PlatformEvent as vstd::std_specs::convert::FromSpec<
                SafeDescriptor,
            >>::from_spec(sent);
            received.read_end == evt.read_end && received.write_end == -1
        }),
{
}

/// The bytes in the pipe of an event that has room for `room` of them, after
/// signaling it: one more, unless the pipe is full.
pub open spec fn bytes_after_signal(bytes: nat, room: nat) -> nat {
    if bytes < room {
        bytes + 1
    } else {
        bytes
    }
}

/// What writing a byte to such a pipe returns.
pub open spec fn write_of_signal(bytes: nat, room: nat) -> Result<usize, Error> {
    if bytes < room {
        Ok(1)
    } else {
        Err(Error { number: EAGAIN })
    }
}

/// What looking at such a pipe for no time returns: the number of descriptors
/// that have something to read.
pub open spec fn poll_of_wait(bytes: nat) -> i32 {
    if bytes > 0 {
        1
    } else {
        0
    }
}

/// The bytes in the pipe after such a wait: one is read if there is any.
pub open spec fn bytes_after_wait(bytes: nat) -> nat {
    if bytes > 0 {
        (bytes - 1) as nat
    } else {
        0
    }
}

/// The pipes of the system: `of` tells the pipe of a descriptor, `bytes` what is
/// in each, and `room` how much each can hold.
pub struct Pipes {
    pub of: spec_fn(i32) -> int,
    pub bytes: spec_fn(int) -> nat,
    pub room: nat,
}

impl Pipes {
    /// Whether two events share a pipe, as clones do: their descriptors are
    /// clones of the same two ends of one pipe.
    pub open spec fn shared(self, a: PlatformEvent, b: PlatformEvent) -> bool {
        let pipe = (self.of)(a.read_end);
        &&& (self.of)(a.write_end) == pipe
        &&& (self.of)(b.read_end) == pipe
        &&& (self.of)(b.write_end) == pipe
    }

    /// The pipes after an event was signaled.
    pub open spec fn signaled(self, event: PlatformEvent) -> Pipes {
        let pipe = (self.of)(event.write_end);
        Pipes {
            bytes: |p: int|
                if p == pipe {
                    bytes_after_signal((self.bytes)(p), self.room)
                } else {
                    (self.bytes)(p)
                },
            ..self
        }
    }

    /// What waiting for an event for no time gives.
    pub open spec fn wait(self, event: PlatformEvent, last: Error) -> Result<
        EventWaitResult,
        Error,
    > {
        wait_result(poll_of_wait((self.bytes)((self.of)(event.read_end))), last)
    }

    /// The pipes after that wait.
    pub open spec fn waited(self, event: PlatformEvent) -> Pipes {
        let pipe = (self.of)(event.read_end);
        Pipes {
            bytes: |p: int|
                if p == pipe {
                    bytes_after_wait((self.bytes)(p))
                } else {
                    (self.bytes)(p)
                },
            ..self
        }
    }
}

/// Clones share one event, and a signal is consumed once: if no signal is
/// pending and one of them is signaled, the first wait of any of them sees it,
/// and all waits after that time out, whoever waits.
pub proof fn law_clones_share_an_event(
    pipes: Pipes,
    signaler: PlatformEvent,
    waiter: PlatformEvent,
    other: PlatformEvent,
    last: Error,
)
    requires
        pipes.room > 0,
        pipes.shared(signaler, waiter),
        pipes.shared(signaler, other),
        (pipes.bytes)((pipes.of)(signaler.write_end)) == 0,
    ensures
        signal_result(write_of_signal(0, pipes.room)) == Ok::<(), Error>(()),
        pipes.signaled(signaler).wait(waiter, last) == Ok::<EventWaitResult, Error>(
            EventWaitResult::Signaled,
        ),
        pipes.signaled(signaler).waited(waiter).wait(other, last) == Ok::<EventWaitResult, Error>(
            EventWaitResult::TimedOut,
        ),
        pipes.signaled(signaler).waited(waiter).waited(other).wait(waiter, last) == Ok::<
            EventWaitResult,
            Error,
        >(EventWaitResult::TimedOut),
{
}

/// Signaling an event never fails for a full pipe, and an event that was signaled
/// and not waited for stays signaled.
pub proof fn law_signaled_stays_signaled(bytes: nat, room: nat, last: Error)
    requires
        room > 0,
    ensures
        signal_result(write_of_signal(bytes, room)) == Ok::<(), Error>(()),
        wait_result(poll_of_wait(bytes_after_signal(bytes, room)), last) == Ok::<
            EventWaitResult,
            Error,
        >(EventWaitResult::Signaled),
{
}

/// A time limit of less than 2^31 milliseconds reaches the system call as it is.
pub proof fn law_short_timeouts_are_exact(millis: u128)
    requires
        millis < 0x8000_0000,
    ensures
        poll_timeout(millis) == millis,
{
}

/// Signaling fails with the error of the write, except where the pipe is full. Waiting
/// succeeds exactly if a byte came; with a time limit, no byte in time is no error.
pub proof fn law_signals_and_waits(
    written: Result<usize, Error>,
    ret: i32,
    read: i64,
    last: Error,
)
    ensures
        written is Ok ==> signal_result(written) is Ok,
        written matches Err(e) ==> (e.number == 35 ==> signal_result(written) is Ok) && (e.number
            != 35 ==> signal_result(written) == Err::<(), Error>(e)),
        wait_result(ret, last) == Ok::<EventWaitResult, Error>(EventWaitResult::Signaled) <==> ret
            > 0,
        wait_result(ret, last) == Ok::<EventWaitResult, Error>(EventWaitResult::TimedOut) <==> ret
            == 0,
        ret < 0 ==> wait_result(ret, last) == Err::<EventWaitResult, Error>(last),
        byte_awaited(read, last) is Ok <==> read > 0,
        read <= 0 ==> byte_awaited(read, last) == Err::<(), Error>(last),
        reads_on(read) <==> read > 0,
{
}

/// A time limit reaches the system call as the 32-bit number that its milliseconds are
/// modulo 2^32.
pub proof fn law_timeouts_wrap(millis: u128)
    ensures
        i32::MIN <= poll_timeout(millis) <= i32::MAX,
        (poll_timeout(millis) - millis) % 0x1_0000_0000 == 0,
{
    let m = millis as int;
    let low = m % 0x1_0000_0000;
    let q = m / 0x1_0000_0000;
    vstd::arithmetic::div_mod::lemma_fundamental_div_mod(m, 0x1_0000_0000);
    let d = poll_timeout(millis) - m;
    if low < 0x8000_0000 {
        assert(d == 0x1_0000_0000 * (-q));
        vstd::arithmetic::div_mod::lemma_mod_multiples_basic(-q, 0x1_0000_0000);
    } else {
        assert(d == 0x1_0000_0000 * (-q - 1));
        vstd::arithmetic::div_mod::lemma_mod_multiples_basic(-q - 1, 0x1_0000_0000);
    }
}

/// An event and its clone wait at an end to read and are signaled at an end to write, each
/// its own; there is one exactly if both ends are there, and else the first that is not
/// says why.
pub proof fn law_events_have_two_ends(
    pipe: Result<(i32, i32), Error>,
    read_end: Result<i32, Error>,
    write_end: Result<i32, Error>,
)
    ensures
        match event_of(pipe) {
            Ok(event) => pipe == Ok::<(i32, i32), Error>((event.read_end, event.write_end)),
            Err(e) => pipe == Err::<(i32, i32), Error>(e),
        },
        match clone_of(read_end, write_end) {
            Ok(event) => read_end == Ok::<i32, Error>(event.read_end) && write_end == Ok::<
                i32,
                Error,
            >(event.write_end),
            Err(e) => read_end == Err::<i32, Error>(e) || (read_end is Ok && write_end == Err::<
                i32,
                Error,
            >(e)),
        },
{
}

} // verus!
