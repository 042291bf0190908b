//! Timers. A timer is a pipe that a thread writes to when the time is up; the
//! queue by which the time is set is found by the pipe's descriptor.

use std::collections::HashMap;

use vstd::prelude::*;

use crate::errno::{Error, EINVAL, ENOENT, ENOMEM, EPIPE};

verus! {

broadcast use vstd::std_specs::hash::group_hash_axioms;

/// The filter of a timer.
pub const EVFILT_TIMER: i16 = -7;

/// Set the timer.
pub const EV_ADD: u16 = 0x1;

/// Clear the timer.
pub const EV_DELETE: u16 = 0x2;

/// The timer fires once.
pub const EV_ONESHOT: u16 = 0x10;

/// The time is in nanoseconds.
pub const NOTE_NSECONDS: u32 = 0x4;

/// A change of a timer.
#[derive(Clone, Copy, Debug, PartialEq, Eq, Structural)]
pub struct TimerEvent {
    pub ident: u64,
    pub filter: i16,
    pub flags: u16,
    pub fflags: u32,
    pub data: i64,
}

/// The queues and the ends to write, by the ends to read of the timers' pipes.
pub struct TimerMap {
    pub timers: HashMap<i32, (i32, i32)>,
}

/// A timer.
#[derive(Clone, Copy, Debug, PartialEq, Eq)]
pub struct Timer {
    /// The end to read of the timer's pipe.
    pub handle: i32,
    /// The interval in nanoseconds, if the timer repeats.
    pub interval: Option<u128>,
}

/// What making a timer came to.
#[derive(Clone, Copy, Debug, PartialEq, Eq)]
pub struct TimerOutcome {
    /// The timer, or why there is none.
    pub result: Result<Timer, Error>,
    /// Whether both ends of the pipe are to be closed.
    pub close_pipe: bool,
}

impl TimerMap {
    /// No timers yet.
    pub fn new() -> (map: TimerMap)
        ensures
            map.timers@ == Map::<i32, (i32, i32)>::empty(),
    {
        TimerMap { timers: HashMap::new() }
    }
}

/// A change of the one timer of a queue.
pub open spec fn timer_event(flags: u16, fflags: u32, data: i64) -> TimerEvent {
    TimerEvent { ident: 0, filter: EVFILT_TIMER, flags, fflags, data }
}

/// A change of the one timer of a queue.
pub fn kevent_timer(flags: u16, fflags: u32, data: i64) -> (event: TimerEvent)
    ensures
        event == timer_event(flags, fflags, data),
{
    TimerEvent { ident: 0, filter: EVFILT_TIMER, flags, fflags, data }
}

/// The queue of a timer.
pub open spec fn queue_of(map: Map<i32, (i32, i32)>, handle: i32) -> Result<i32, Error> {
    if map.contains_key(handle) {
        Ok(map[handle].0)
    } else {
        Err(Error { number: ENOENT })
    }
}

/// The change that sets a timer, and the queue that takes it. A time that is not
/// a 64-bit number is refused.
pub open spec fn timer_request(
    map: Map<i32, (i32, i32)>,
    handle: i32,
    nanos: u128,
    flags: u16,
) -> Result<(i32, TimerEvent), Error> {
    match queue_of(map, handle) {
        Err(e) => Err(e),
        Ok(kq) => if nanos > i64::MAX {
            Err(Error { number: EINVAL })
        } else {
            Ok(
                (
                    kq,
                    timer_event(flags, NOTE_NSECONDS, nanos as i64),
                ),
            )
        },
    }
}

/// The timers once one was to be made, and what came of it.
pub open spec fn timer_made(
    map: Map<i32, (i32, i32)>,
    pipe: Result<(i32, i32), Error>,
    kq: Result<i32, Error>,
) -> (Map<i32, (i32, i32)>, TimerOutcome) {
    match (pipe, kq) {
        (Err(e), _) => (map, TimerOutcome { result: Err(e), close_pipe: false }),
        (Ok(_), Err(e)) => (map, TimerOutcome { result: Err(e), close_pipe: true }),
        (Ok((pipe_read, pipe_write)), Ok(kq)) => (
            map.insert(pipe_read, (kq, pipe_write)),
            TimerOutcome {
                result: Ok(Timer { handle: pipe_read, interval: None }),
                close_pipe: false,
            },
        ),
    }
}

/// A timer once its thread was to be started.
pub open spec fn timer_watched(timer: Timer, spawned: bool) -> Result<Timer, Error> {
    if spawned {
        Ok(timer)
    } else {
        Err(Error { number: ENOMEM })
    }
}

/// A timer that is to fire once, and the change that sets it.
pub open spec fn set_once(map: Map<i32, (i32, i32)>, timer: Timer, nanos: u128) -> (
    Timer,
    Result<(i32, TimerEvent), Error>,
) {
    (
        Timer { handle: timer.handle, interval: None },
        timer_request(map, timer.handle, nanos, 0x11),
    )
}

/// A timer that is to fire again and again, and the change that sets it.
pub open spec fn set_repeating(map: Map<i32, (i32, i32)>, timer: Timer, nanos: u128) -> (
    Timer,
    Result<(i32, TimerEvent), Error>,
) {
    (
        Timer { handle: timer.handle, interval: Some(nanos) },
        timer_request(map, timer.handle, nanos, 0x1),
    )
}

/// The change that clears a timer.
pub open spec fn clear_request(map: Map<i32, (i32, i32)>, handle: i32) -> Result<
    (i32, TimerEvent),
    Error,
> {
    match queue_of(map, handle) {
        Ok(kq) => Ok((kq, timer_event(EV_DELETE, 0, 0))),
        Err(e) => Err(e),
    }
}

/// Whether a timer had fired, given what emptying its pipe returned.
pub open spec fn had_fired(ret: i64) -> bool {
    ret > 0
}

/// The resolution of timers.
pub open spec fn resolution_of(ret: i32, sec: u64, nsec: u32, last: Error) -> Result<
    (u64, u32),
    Error,
> {
    if ret != 0 {
        Err(last)
    } else {
        Ok((sec, nsec))
    }
}

/// Whether the thread of a timer goes on once it wrote a byte to the pipe.
pub open spec fn watcher_goes_on(written: Result<usize, Error>) -> bool {
    written != Err::<usize, Error>(Error { number: EPIPE })
}

/// Whether the thread of a timer goes on, given what waiting for the queue returned.
pub open spec fn watcher_woke(ret: i32) -> bool {
    ret > 0
}

impl Timer {
    /// A timer, once its pipe and its queue were made, in this order; what comes
    /// after a failure does not count. The timer is recorded; then its thread is
    /// to be started: [`Timer::watched`].
    pub fn new(
        map: &mut TimerMap,
        pipe: Result<(i32, i32), Error>,
        kq: Result<i32, Error>,
    ) -> (outcome: TimerOutcome)
        ensures
            (final(map).timers@, outcome) == timer_made(old(map).timers@, pipe, kq),
    {
        let (pipe_read, pipe_write): (i32, i32) = match pipe {
            Ok(ends) => ends,
            Err(e) => {
                return TimerOutcome { result: Err(e), close_pipe: false };
            },
        };
        let kq: i32 = match kq {
            Ok(kq) => kq,
            Err(e) => {
                return TimerOutcome { result: Err(e), close_pipe: true };
            },
        };
        map.timers.insert(pipe_read, (kq, pipe_write));
        TimerOutcome { result: Ok(Timer { handle: pipe_read, interval: None }), close_pipe: false }
    }

    /// The timer, once its thread was started, or could not be. It stays recorded
    /// either way.
    pub fn watched(self, spawned: bool) -> (r: Result<Timer, Error>)
        ensures
            r == timer_watched(self, spawned),
    {
        if spawned {
            Ok(self)
        } else {
            Err(Error::new(ENOMEM))
        }
    }

    /// The queue of the timer.
    pub fn kqueue_fd(&self, map: &TimerMap) -> (r: Result<i32, Error>)
        ensures
            r == queue_of(map.timers@, self.handle),
    {
        match map.timers.get(&self.handle) {
            Some(entry) => Ok(entry.0),
            None => Err(Error::new(ENOENT)),
        }
    }

    fn request(&self, map: &TimerMap, nanos: u128, flags: u16) -> (r: Result<
        (i32, TimerEvent),
        Error,
    >)
        ensures
            r == timer_request(map.timers@, self.handle, nanos, flags),
    {
        let kq: i32 = match self.kqueue_fd(map) {
            Ok(kq) => kq,
            Err(e) => {
                return Err(e);
            },
        };
        if nanos > i64::MAX as u128 {
            return Err(Error::new(EINVAL));
        }
        Ok((kq, kevent_timer(flags, NOTE_NSECONDS, nanos as i64)))
    }

    /// Sets the timer to fire once, after this many nanoseconds: the change and
    /// the queue that takes it. It does not repeat any more, even if that fails.
    pub fn reset_oneshot(&mut self, map: &TimerMap, nanos: u128) -> (r: Result<
        (i32, TimerEvent),
        Error,
    >)
        ensures
            (*final(self), r) == set_once(map.timers@, *old(self), nanos),
    {
        self.interval = None;
        self.request(map, nanos, EV_ADD + EV_ONESHOT)
    }

    /// Sets the timer to fire every so many nanoseconds: the change and the
    /// queue that takes it. The interval is remembered even if that fails.
    pub fn reset_repeating(&mut self, map: &TimerMap, nanos: u128) -> (r: Result<
        (i32, TimerEvent),
        Error,
    >)
        ensures
            (*final(self), r) == set_repeating(map.timers@, *old(self), nanos),
    {
        self.interval = Some(nanos);
        self.request(map, nanos, EV_ADD)
    }

    /// Clears the timer: the change, which may fail, and the queue that takes
    /// it. The pipe is to be emptied then.
    pub fn clear(&self, map: &TimerMap) -> (r: Result<(i32, TimerEvent), Error>)
        ensures
            r == clear_request(map.timers@, self.handle),
    {
        match self.kqueue_fd(map) {
            Ok(kq) => Ok((kq, kevent_timer(EV_DELETE, 0, 0))),
            Err(e) => Err(e),
        }
    }

    /// The result of waiting, given what reading a byte returned and the last
    /// error.
    pub fn wait(&self, ret: i64, last: Error) -> (r: Result<(), Error>)
        ensures
            r == crate::base::event::byte_awaited(ret, last),
    {
        if ret <= 0 {
            return Err(last);
        }
        Ok(())
    }

    /// Whether the timer had fired, given what emptying the pipe returned.
    pub fn mark_waited(&self, ret: i64) -> (fired: bool)
        ensures
            fired == had_fired(ret),
    {
        ret > 0
    }

    /// The resolution of timers in seconds and nanoseconds, given what asking
    /// for it returned and the last error.
    pub fn resolution(&self, ret: i32, sec: u64, nsec: u32, last: Error) -> (r: Result<
        (u64, u32),
        Error,
    >)
        ensures
            r == resolution_of(ret, sec, nsec, last),
    {
        if ret != 0 {
            return Err(last);
        }
        Ok((sec, nsec))
    }

    /// Whether the thread of a timer goes on once it wrote a byte to the pipe, or
    /// could not: it ends when the pipe is closed. A full pipe tells of the timer
    /// already.
    pub fn watcher_told(written: Result<usize, Error>) -> (b: bool)
        ensures
            b == watcher_goes_on(written),
    {
        match written {
            Ok(_) => true,
            Err(e) => e.errno() != EPIPE,
        }
    }

    /// Whether the thread of a timer goes on, given what waiting for the queue
    /// returned; if so it writes a byte to the pipe.
    pub fn watcher_continues(ret: i32) -> (b: bool)
        ensures
            b == watcher_woke(ret),
    {
        ret > 0
    }
}

/// A timer that was made can be set: its queue is found by its handle, and
/// making another one does not change that.
pub proof fn law_timers_are_found(
    map: Map<i32, (i32, i32)>,
    handle: i32,
    kq: i32,
    write: i32,
    other: i32,
    other_kq: i32,
    other_write: i32,
)
    requires
        handle != other,
    ensures
        queue_of(map.insert(handle, (kq, write)), handle) == Ok::<i32, Error>(kq),
        queue_of(
            map.insert(handle, (kq, write)).insert(other, (other_kq, other_write)),
            handle,
        ) == Ok::<i32, Error>(kq),
{
}

/// A timer is made exactly if its pipe and its queue are; it is found by the end to read
/// of its pipe and does not repeat. A pipe without a queue is to be closed, and nothing is
/// recorded then; no other timer is affected.
pub proof fn law_timers_are_made(
    map: Map<i32, (i32, i32)>,
    pipe: Result<(i32, i32), Error>,
    kq: Result<i32, Error>,
    other: i32,
    spawned: bool,
)
    ensures
        ({
            let (after, outcome) = timer_made(map, pipe, kq);
            &&& outcome.result is Ok <==> pipe is Ok && kq is Ok
            &&& outcome.close_pipe <==> pipe is Ok && kq is Err
            &&& pipe matches Err(e) ==> outcome.result == Err::<Timer, Error>(e)
            &&& pipe is Ok ==> (kq matches Err(e) ==> outcome.result == Err::<Timer, Error>(e))
            &&& outcome.result is Err ==> after == map
            &&& outcome.result matches Ok(timer) ==> {
                &&& timer.handle == pipe->Ok_0.0
                &&& timer.interval is None
                &&& queue_of(after, timer.handle) == Ok::<i32, Error>(kq->Ok_0)
                &&& after[timer.handle].1 == pipe->Ok_0.1
                &&& other != timer.handle ==> queue_of(after, other) == queue_of(map, other)
                &&& timer_watched(timer, spawned) == (if spawned {
                    Ok::<Timer, Error>(timer)
                } else {
                    Err(Error { number: 12 })
                })
            }
        }),
{
}

/// A timer is set on its own queue for as many nanoseconds as were asked for: once, or
/// again and again; clearing it undoes either. A timer that is not known, and a time that
/// is not a number of 63 bits, is refused. Whether it repeats is remembered either way.
pub proof fn law_timers_are_set(map: Map<i32, (i32, i32)>, timer: Timer, nanos: u128)
    ensures
        ({
            let (once, once_call) = set_once(map, timer, nanos);
            let (again, again_call) = set_repeating(map, timer, nanos);
            let clear_call = clear_request(map, timer.handle);
            let known = map.contains_key(timer.handle);
            let fits = nanos < 0x8000_0000_0000_0000;
            &&& once.handle == timer.handle && once.interval is None
            &&& again.handle == timer.handle && again.interval == Some(nanos)
            &&& once_call is Ok <==> known && fits
            &&& again_call is Ok <==> known && fits
            &&& clear_call is Ok <==> known
            &&& !known ==> once_call == Err::<(i32, TimerEvent), Error>(Error { number: 2 })
                && again_call == once_call && clear_call == once_call
            &&& known && !fits ==> once_call == Err::<(i32, TimerEvent), Error>(
                Error { number: 22 },
            ) && again_call == once_call
            &&& known && fits ==> {
                &&& once_call->Ok_0.0 == map[timer.handle].0
                &&& again_call->Ok_0.0 == map[timer.handle].0
                &&& once_call->Ok_0.1.data == nanos && again_call->Ok_0.1.data == nanos
                &&& once_call->Ok_0.1.fflags == 4 && again_call->Ok_0.1.fflags == 4
                &&& once_call->Ok_0.1.flags & 0x13 == 0x11
                &&& again_call->Ok_0.1.flags & 0x13 == 0x1
                &&& once_call->Ok_0.1.filter == -7i16 && again_call->Ok_0.1.filter == -7i16
                &&& once_call->Ok_0.1.ident == 0 && again_call->Ok_0.1.ident == 0
            }
            &&& known ==> clear_call->Ok_0.0 == map[timer.handle].0 && clear_call->Ok_0.1.flags & 0x13
                == 2 && clear_call->Ok_0.1.filter == -7i16 && clear_call->Ok_0.1.ident == 0
                && clear_call->Ok_0.1.fflags == 0 && clear_call->Ok_0.1.data == 0
        }),
{
    assert(0x11u16 & 0x13 == 0x11 && 0x1u16 & 0x13 == 0x1 && 0x2u16 & 0x13 == 0x2) by (bit_vector);
}

/// The thread of a timer goes on as long as it is woken and its pipe is open, be it full
/// or not; a timer had fired exactly if a byte was in its pipe.
pub proof fn law_timer_thread_goes_on(
    written: Result<usize, Error>,
    ret: i32,
    read: i64,
    sec: u64,
    nsec: u32,
    last: Error,
)
    ensures
        written is Ok ==> watcher_goes_on(written),
        written matches Err(e) ==> (watcher_goes_on(written) <==> e.number != 32),
        watcher_woke(ret) <==> ret > 0,
        had_fired(read) <==> read > 0,
        resolution_of(0, sec, nsec, last) == Ok::<(u64, u32), Error>((sec, nsec)),
        ret != 0 ==> resolution_of(ret, sec, nsec, last) == Err::<(u64, u32), Error>(last),
{
}

} // verus!
