//! The reactor: it waits until descriptors become ready and wakes the tasks that
//! wait for them.

use slab::Slab;
use vstd::prelude::*;

use crate::cros_async::ops::{slab_drain, slab_get, slab_insert, slab_remove, slab_set};
use crate::cros_async::ops::{slab_entries, slab_vacant_key, slab_with_capacity};
use crate::cros_async::ops::{slab_next_key, values_in_key_order, OpStatus};
use crate::errno::{Error, EINTR};

verus! {

/// A descriptor can be read.
pub const EVFILT_READ: i16 = -1;

/// A descriptor can be written.
pub const EVFILT_WRITE: i16 = -2;

/// Wait for an event.
pub const EV_ADD: u16 = 0x1;

/// Wait for an event no longer.
pub const EV_DELETE: u16 = 0x2;

/// The event is reported once.
pub const EV_ONESHOT: u16 = 0x10;

/// The event is reported when it happens anew.
pub const EV_CLEAR: u16 = 0x20;

/// The number of operations that there is room for at first.
pub const INITIAL_CAPACITY: usize = 64;

/// The token of the event that wakes the reactor itself.
pub const WAKE_TOKEN: usize = 0;

/// What is waited for.
#[derive(Clone, Copy, Debug, PartialEq, Eq, Structural)]
pub enum EventType {
    Nothing,
    Read,
    Write,
    ReadWrite,
}

/// A change of what is waited for.
#[derive(Clone, Copy, Debug, PartialEq, Eq, Structural)]
pub struct KeventRequest {
    /// The descriptor.
    pub ident: i32,
    /// What is waited for.
    pub filter: i16,
    pub flags: u16,
    /// The token that the event is reported with.
    pub token: usize,
}

/// What can go wrong.
#[derive(Clone, Copy, Debug, PartialEq, Eq, Structural)]
pub enum ReactorError {
    /// A system call failed.
    Os(Error),
    /// A descriptor could not be made non-blocking.
    SetFlags(Error),
    /// Nothing is to be waited for.
    InvalidInput,
    /// The executor is gone.
    ExecutorGone,
}

/// The stages of making a reactor.
#[derive(Clone, Copy, Debug, PartialEq, Eq)]
pub struct ReactorParts {
    /// The queue of events.
    pub kq: Result<i32, Error>,
    /// The pipe that wakes the reactor, the end to read first.
    pub pipe: Result<(i32, i32), Error>,
    /// Whether the end to read could be made non-blocking.
    pub read_flags: Result<(), Error>,
    /// Whether the end to write could be made non-blocking.
    pub write_flags: Result<(), Error>,
}

/// The first thing that keeps a reactor from being made, if anything does.
pub open spec fn parts_failure(parts: ReactorParts) -> Option<ReactorError> {
    if parts.kq is Err {
        Some(ReactorError::Os(parts.kq->Err_0))
    } else if parts.pipe is Err {
        Some(ReactorError::Os(parts.pipe->Err_0))
    } else if parts.read_flags is Err {
        Some(ReactorError::SetFlags(parts.read_flags->Err_0))
    } else if parts.write_flags is Err {
        Some(ReactorError::SetFlags(parts.write_flags->Err_0))
    } else {
        None
    }
}

/// The filter of an event, if there is anything to wait for.
pub open spec fn filter_of(event_type: EventType) -> Option<i16> {
    match event_type {
        EventType::Read => Some(EVFILT_READ),
        EventType::ReadWrite => Some(EVFILT_READ),
        EventType::Write => Some(EVFILT_WRITE),
        EventType::Nothing => None,
    }
}

/// The requests that end waiting for an operation: those that delete both filters
/// of its descriptor, none if it is done.
pub open spec fn cancel_requests(op: OpStatus) -> Seq<KeventRequest> {
    match op {
        OpStatus::Pending { fd, .. } => seq![
            KeventRequest { ident: fd, filter: EVFILT_READ, flags: EV_DELETE, token: 0 },
            KeventRequest { ident: fd, filter: EVFILT_WRITE, flags: EV_DELETE, token: 0 },
        ],
        _ => Seq::empty(),
    }
}

/// The request that waits for the reactor to be woken.
pub open spec fn wake_request(wake_read: i32) -> KeventRequest {
    KeventRequest { ident: wake_read, filter: EVFILT_READ, flags: 0x21, token: WAKE_TOKEN }
}

/// The request that waits for a descriptor.
pub open spec fn wait_request(fd: i32, event_type: EventType, token: usize) -> Result<
    KeventRequest,
    ReactorError,
> {
    match filter_of(event_type) {
        Some(filter) => Ok(KeventRequest { ident: fd, filter, flags: 0x11, token }),
        None => Err(ReactorError::InvalidInput),
    }
}

/// The request that waits until a descriptor can be read.
pub open spec fn wait_to_read(fd: i32, token: usize) -> Result<KeventRequest, ReactorError> {
    wait_request(fd, EventType::Read, token)
}

/// The request that waits until a descriptor can be written.
pub open spec fn wait_to_write(fd: i32, token: usize) -> Result<KeventRequest, ReactorError> {
    wait_request(fd, EventType::Write, token)
}

/// The queue of events and the two ends of the pipe of a reactor.
pub open spec fn descriptors_of(parts: ReactorParts) -> (i32, i32, i32) {
    (parts.kq->Ok_0, parts.pipe->Ok_0.0, parts.pipe->Ok_0.1)
}

/// The operations once one was added.
pub open spec fn added(entries: Map<usize, OpStatus>, token: usize, fd: i32) -> Map<
    usize,
    OpStatus,
> {
    entries.insert(token, OpStatus::Pending { fd, waker: None })
}

/// The operations once one was polled, and whether it is done.
pub open spec fn polled(entries: Map<usize, OpStatus>, token: usize, waker: u64) -> (
    Map<usize, OpStatus>,
    bool,
) {
    match entries[token] {
        OpStatus::Pending { fd, .. } => (
            entries.insert(token, OpStatus::Pending { fd, waker: Some(waker) }),
            false,
        ),
        _ => (entries.remove(token), entries[token] is Completed),
    }
}

/// The operations once one was given up, and the requests that end waiting for it.
pub open spec fn cancelled(entries: Map<usize, OpStatus>, token: usize) -> (
    Map<usize, OpStatus>,
    Seq<KeventRequest>,
) {
    (entries.remove(token), cancel_requests(entries[token]))
}

/// What waiting for events that failed comes to.
pub open spec fn waiting_ended(error: Error) -> Result<(), ReactorError> {
    if error.number == EINTR {
        Ok(())
    } else {
        Err(ReactorError::Os(error))
    }
}

/// What an event asks for.
#[derive(Clone, Copy, Debug, PartialEq, Eq)]
pub enum EventAction {
    /// Nothing: no operation has this token.
    Ignore,
    /// The operation is done; wake the one that waits for it, if any.
    Wake(Option<u64>),
    /// Empty the pipe that wakes the reactor.
    DrainWakePipe,
}

/// What an event asks for.
pub open spec fn event_action(entries: Map<usize, OpStatus>, token: usize) -> EventAction {
    if !entries.contains_key(token) {
        EventAction::Ignore
    } else {
        match entries[token] {
            OpStatus::Pending { waker, .. } => EventAction::Wake(waker),
            OpStatus::Completed => EventAction::Ignore,
            OpStatus::WakeEvent => EventAction::DrainWakePipe,
        }
    }
}

/// The operations after an event.
pub open spec fn after_event(entries: Map<usize, OpStatus>, token: usize) -> Map<usize, OpStatus> {
    if entries.contains_key(token) && entries[token] is Pending {
        entries.insert(token, OpStatus::Completed)
    } else {
        entries
    }
}

/// The operations after several events.
pub open spec fn after_events(entries: Map<usize, OpStatus>, tokens: Seq<usize>) -> Map<
    usize,
    OpStatus,
>
    decreases tokens.len(),
{
    if tokens.len() == 0 {
        entries
    } else {
        after_event(after_events(entries, tokens.drop_last()), tokens.last())
    }
}

/// Whether the events can be reported together: none of them belongs to an
/// operation that is done, and that of a pending operation comes once.
pub open spec fn events_fit(entries: Map<usize, OpStatus>, tokens: Seq<usize>) -> bool {
    &&& forall|i: int|
        0 <= i < tokens.len() && #[trigger] entries.contains_key(tokens[i])
            ==> !(entries[tokens[i]] is Completed)
    &&& forall|i: int, j: int|
        0 <= i < j < tokens.len() && #[trigger] tokens[i] == #[trigger] tokens[j]
            && entries.contains_key(tokens[i]) ==> entries[tokens[i]] is WakeEvent
}

/// The tasks of pending operations, in their order.
pub open spec fn pending_wakers(items: Seq<OpStatus>) -> Seq<u64>
    decreases items.len(),
{
    if items.len() == 0 {
        Seq::empty()
    } else {
        let before = pending_wakers(items.drop_last());
        match items.last() {
            OpStatus::Pending { waker: Some(w), .. } => before.push(w),
            _ => before,
        }
    }
}

/// The reactor.
pub struct KqueueReactor {
    /// The queue of events.
    pub kq: i32,
    /// The end of the pipe that wakes the reactor.
    pub wake_read: i32,
    /// The end of the pipe by which the reactor is woken.
    pub wake_write: i32,
    /// The operations.
    pub ops: Slab<OpStatus>,
}

impl KqueueReactor {
    /// The operations, by their tokens.
    pub open spec fn entries(self) -> Map<usize, OpStatus> {
        slab_entries(self.ops)
    }

    /// The event that wakes the reactor is there, and no other entry is one.
    pub open spec fn wf(self) -> bool {
        &&& self.entries().contains_key(WAKE_TOKEN)
        &&& self.entries()[WAKE_TOKEN] is WakeEvent
        &&& forall|token: usize| #[trigger]
            self.entries().contains_key(token) && token != WAKE_TOKEN
                ==> !(self.entries()[token] is WakeEvent)
    }

    /// Starts to make a reactor: the request that waits for it to be woken.
    pub fn new_inner(parts: ReactorParts) -> (r: Result<(KqueueReactor, KeventRequest), ReactorError>)
        ensures
            match parts_failure(parts) {
                Some(e) => r == Err::<(KqueueReactor, KeventRequest), ReactorError>(e),
                None => r matches Ok((reactor, request)) && (
                    reactor.kq,
                    reactor.wake_read,
                    reactor.wake_write,
                ) == descriptors_of(parts) && reactor.entries() == Map::<usize, OpStatus>::empty()
                    && slab_next_key(reactor.ops) == WAKE_TOKEN && request == wake_request(
                    reactor.wake_read,
                ),
            },
    {
        let kq: i32 = match parts.kq {
            Ok(fd) => fd,
            Err(e) => {
                return Err(ReactorError::Os(e));
            },
        };
        let (wake_read, wake_write): (i32, i32) = match parts.pipe {
            Ok(ends) => ends,
            Err(e) => {
                return Err(ReactorError::Os(e));
            },
        };
        match parts.read_flags {
            Ok(_) => {},
            Err(e) => {
                return Err(ReactorError::SetFlags(e));
            },
        }
        match parts.write_flags {
            Ok(_) => {},
            Err(e) => {
                return Err(ReactorError::SetFlags(e));
            },
        }
        let ops: Slab<OpStatus> = slab_with_capacity(INITIAL_CAPACITY);
        let token: usize = slab_vacant_key(&ops);
        let reactor: KqueueReactor = KqueueReactor { kq, wake_read, wake_write, ops };
        Ok(
            (
                reactor,
                KeventRequest {
                    ident: wake_read,
                    filter: EVFILT_READ,
                    flags: EV_ADD + EV_CLEAR,
                    token,
                },
            ),
        )
    }

    /// Completes a reactor, once waiting for it to be woken was set up.
    pub fn wake_registered(self, result: Result<(), Error>) -> (r: Result<
        KqueueReactor,
        ReactorError,
    >)
        requires
            self.entries() == Map::<usize, OpStatus>::empty(),
            slab_next_key(self.ops) == WAKE_TOKEN,
        ensures
            match result {
                Ok(_) => r matches Ok(reactor) && reactor.wf() && reactor.kq == self.kq
                    && reactor.wake_read == self.wake_read && reactor.wake_write == self.wake_write
                    && reactor.entries() == Map::<usize, OpStatus>::empty().insert(
                    WAKE_TOKEN,
                    OpStatus::WakeEvent,
                ),
                Err(e) => r == Err::<KqueueReactor, ReactorError>(ReactorError::Os(e)),
            },
    {
        match result {
            Ok(_) => {
                let mut reactor: KqueueReactor = self;
                slab_insert(&mut reactor.ops, OpStatus::WakeEvent);
                Ok(reactor)
            },
            Err(e) => Err(ReactorError::Os(e)),
        }
    }

    /// Starts to wait for a descriptor: the request that does.
    pub fn add_operation(&self, fd: i32, event_type: EventType) -> (r: Result<
        KeventRequest,
        ReactorError,
    >)
        ensures
            r == wait_request(fd, event_type, slab_next_key(self.ops)),
            r matches Ok(request) ==> !self.entries().contains_key(request.token),
    {
        let token: usize = slab_vacant_key(&self.ops);
        let filter: i16 = match event_type {
            EventType::Read => EVFILT_READ,
            EventType::ReadWrite => EVFILT_READ,
            EventType::Write => EVFILT_WRITE,
            EventType::Nothing => {
                return Err(ReactorError::InvalidInput);
            },
        };
        Ok(KeventRequest { ident: fd, filter, flags: EV_ADD + EV_ONESHOT, token })
    }

    /// Records an operation, once waiting for its descriptor was set up, and
    /// tells its token.
    pub fn operation_added(&mut self, fd: i32, result: Result<(), Error>) -> (r: Result<
        usize,
        ReactorError,
    >)
        requires
            old(self).wf(),
        ensures
            final(self).wf(),
            final(self).kq == old(self).kq,
            final(self).wake_read == old(self).wake_read,
            final(self).wake_write == old(self).wake_write,
            match result {
                Ok(_) => {
                    let token = slab_next_key(old(self).ops);
                    &&& r == Ok::<usize, ReactorError>(token)
                    &&& final(self).entries() == added(old(self).entries(), token, fd)
                    &&& !old(self).entries().contains_key(token)
                    &&& token != WAKE_TOKEN
                },
                Err(e) => r == Err::<usize, ReactorError>(ReactorError::Os(e))
                    && final(self).entries() == old(self).entries(),
            },
    {
        match result {
            Ok(_) => Ok(slab_insert(&mut self.ops, OpStatus::Pending { fd, waker: None })),
            Err(e) => Err(ReactorError::Os(e)),
        }
    }

    /// Whether an operation is done. If it is, its token is given up; if not,
    /// `waker` stands for the task that is to be woken.
    pub fn is_ready(&mut self, token: usize, waker: u64) -> (ready: bool)
        requires
            old(self).wf(),
            token != WAKE_TOKEN,
            old(self).entries().contains_key(token),
        ensures
            final(self).wf(),
            (final(self).entries(), ready) == polled(old(self).entries(), token, waker),
            final(self).kq == old(self).kq,
            final(self).wake_read == old(self).wake_read,
            final(self).wake_write == old(self).wake_write,
    {
        match slab_get(&self.ops, token) {
            Some(OpStatus::Pending { fd, waker: _ }) => {
                slab_set(&mut self.ops, token, OpStatus::Pending { fd, waker: Some(waker) });
                false
            },
            _ => {
                slab_remove(&mut self.ops, token);
                true
            },
        }
    }

    /// Gives up an operation: the requests that end waiting for its descriptor,
    /// if it is not done. Which filter it had is not known, so both are deleted.
    /// Whether a request succeeds does not matter.
    pub fn cancel_operation(&mut self, token: usize) -> (requests: Vec<KeventRequest>)
        requires
            old(self).wf(),
            token != WAKE_TOKEN,
            old(self).entries().contains_key(token),
        ensures
            final(self).wf(),
            (final(self).entries(), requests@) == cancelled(old(self).entries(), token),
            final(self).kq == old(self).kq,
            final(self).wake_read == old(self).wake_read,
            final(self).wake_write == old(self).wake_write,
    {
        let mut requests: Vec<KeventRequest> = Vec::new();
        match slab_remove(&mut self.ops, token) {
            OpStatus::Pending { fd, waker: _ } => {
                requests.push(
                    KeventRequest { ident: fd, filter: EVFILT_READ, flags: EV_DELETE, token: 0 },
                );
                requests.push(
                    KeventRequest { ident: fd, filter: EVFILT_WRITE, flags: EV_DELETE, token: 0 },
                );
            },
            _ => {},
        }
        assert(requests@ =~= cancel_requests(old(self).entries()[token]));
        requests
    }

    /// Whether waiting for events that failed with this error is an error: being
    /// interrupted is not.
    pub fn wait_failed(error: Error) -> (r: Result<(), ReactorError>)
        ensures
            r == waiting_ended(error),
    {
        if error.errno() == EINTR {
            Ok(())
        } else {
            Err(ReactorError::Os(error))
        }
    }

    /// Whether the events of these tokens can be dealt with together.
    pub fn can_report(&self, tokens: &Vec<usize>) -> (b: bool)
        ensures
            b == events_fit(self.entries(), tokens@),
    {
        let mut i: usize = 0;
        while i < tokens.len()
            invariant
                i <= tokens@.len(),
                forall|k: int|
                    0 <= k < i && #[trigger] self.entries().contains_key(tokens@[k]) ==> !(
                    self.entries()[tokens@[k]] is Completed),
                forall|k: int, l: int|
                    0 <= k < l < i && #[trigger] tokens@[k] == #[trigger] tokens@[l]
                        && self.entries().contains_key(tokens@[k])
                        ==> self.entries()[tokens@[k]] is WakeEvent,
            decreases tokens.len() - i,
        {
            let token: usize = tokens[i];
            match slab_get(&self.ops, token) {
                Some(OpStatus::Completed) => {
                    assert(self.entries().contains_key(tokens@[i as int]));
                    return false;
                },
                Some(OpStatus::Pending { .. }) => {
                    let mut k: usize = 0;
                    while k < i
                        invariant
                            k <= i,
                            i < tokens@.len(),
                            token == tokens@[i as int],
                            self.entries().contains_key(token),
                            self.entries()[token] is Pending,
                            forall|l: int| 0 <= l < k ==> #[trigger] tokens@[l] != token,
                        decreases i - k,
                    {
                        if tokens[k] == token {
                            assert(tokens@[k as int] == tokens@[i as int]);
                            return false;
                        }
                        k += 1;
                    }
                },
                _ => {},
            }
            i += 1;
        }
        true
    }

    /// Deals with the events of these tokens: what each asks for, in their order.
    pub fn wait_for_work(&mut self, tokens: &Vec<usize>) -> (actions: Vec<EventAction>)
        requires
            old(self).wf(),
            events_fit(old(self).entries(), tokens@),
        ensures
            final(self).wf(),
            final(self).entries() == after_events(old(self).entries(), tokens@),
            actions@.len() == tokens@.len(),
            forall|i: int|
                0 <= i < tokens@.len() ==> #[trigger] actions@[i] == event_action(
                    old(self).entries(),
                    tokens@[i],
                ),
            final(self).kq == old(self).kq,
            final(self).wake_read == old(self).wake_read,
            final(self).wake_write == old(self).wake_write,
    {
        let mut actions: Vec<EventAction> = Vec::new();
        let ghost start = self.entries();
        let mut i: usize = 0;
        while i < tokens.len()
            invariant
                i <= tokens@.len(),
                self.wf(),
                start == old(self).entries(),
                events_fit(start, tokens@),
                self.entries() == after_events(start, tokens@.take(i as int)),
                actions@.len() == i,
                forall|j: int|
                    0 <= j < i ==> #[trigger] actions@[j] == event_action(start, tokens@[j]),
                forall|t: usize| #[trigger]
                    self.entries().contains_key(t) <==> start.contains_key(t),
                forall|t: usize| #[trigger]
                    start.contains_key(t) ==> self.entries()[t] == start[t] || (exists|j: int|
                        0 <= j < i && #[trigger] tokens@[j] == t && start[t] is Pending),
                self.kq == old(self).kq,
                self.wake_read == old(self).wake_read,
                self.wake_write == old(self).wake_write,
            decreases tokens.len() - i,
        {
            let token: usize = tokens[i];
            proof {
                assert(tokens@.take(i + 1).drop_last() =~= tokens@.take(i as int));
                assert(tokens@.take(i + 1).last() == token);
                assert(tokens@[i as int] == token);
                if start.contains_key(token) {
                    assert(start.contains_key(tokens@[i as int]));
                    assert(self.entries()[token] == start[token]);
                }
            }
            let ghost before = self.entries();
            match slab_get(&self.ops, token) {
                Some(OpStatus::Pending { fd: _, waker }) => {
                    slab_set(&mut self.ops, token, OpStatus::Completed);
                    actions.push(EventAction::Wake(waker));
                },
                Some(OpStatus::Completed) => {
                    actions.push(EventAction::Ignore);
                },
                Some(OpStatus::WakeEvent) => {
                    actions.push(EventAction::DrainWakePipe);
                },
                None => {
                    actions.push(EventAction::Ignore);
                },
            }
            assert(self.entries() == after_event(before, token));
            i += 1;
        }
        assert(tokens@.take(i as int) =~= tokens@);
        actions
    }

    /// Gives up all operations: the tasks that are to be woken, in the order of
    /// the tokens that they wait for.
    pub fn on_executor_drop(&mut self) -> (wakers: Vec<u64>)
        ensures
            final(self).entries() == Map::<usize, OpStatus>::empty(),
            final(self).kq == old(self).kq,
            final(self).wake_read == old(self).wake_read,
            final(self).wake_write == old(self).wake_write,
            exists|items: Seq<OpStatus>| #[trigger]
                values_in_key_order(old(self).entries(), items) && wakers@ == pending_wakers(items),
    {
        let items: Vec<OpStatus> = slab_drain(&mut self.ops);
        let mut wakers: Vec<u64> = Vec::new();
        let mut i: usize = 0;
        while i < items.len()
            invariant
                i <= items@.len(),
                wakers@ == pending_wakers(items@.take(i as int)),
            decreases items.len() - i,
        {
            assert(items@.take(i + 1).drop_last() =~= items@.take(i as int));
            match items[i] {
                OpStatus::Pending { fd: _, waker: Some(waker) } => {
                    wakers.push(waker);
                },
                _ => {},
            }
            i += 1;
        }
        assert(items@.take(i as int) =~= items@);
        assert(values_in_key_order(old(self).entries(), items@));
        wakers
    }

    /// The descriptors of the reactor.
    pub fn as_raw_descriptors(&self) -> (fds: Vec<i32>)
        ensures
            fds@ == seq![self.kq, self.wake_read, self.wake_write],
    {
        let mut fds: Vec<i32> = Vec::new();
        fds.push(self.kq);
        fds.push(self.wake_read);
        fds.push(self.wake_write);
        fds
    }
}

/// A source that the reactor waits for.
pub struct RegisteredSource<F> {
    /// What was registered.
    pub source: F,
    /// A descriptor of it that is the reactor's own.
    pub duped_fd: i32,
}

/// A source, once its descriptor was made non-blocking and duplicated.
pub open spec fn registered<F>(f: F, flags: Result<(), Error>, duped: Result<i32, Error>) -> Result<
    RegisteredSource<F>,
    ReactorError,
> {
    match (flags, duped) {
        (Err(e), _) => Err(ReactorError::SetFlags(e)),
        (Ok(_), Err(e)) => Err(ReactorError::Os(e)),
        (Ok(_), Ok(duped_fd)) => Ok(RegisteredSource { source: f, duped_fd }),
    }
}

impl<F> RegisteredSource<F> {
    /// A source, once its descriptor was made non-blocking and duplicated.
    pub fn new(f: F, flags: Result<(), Error>, duped: Result<i32, Error>) -> (r: Result<
        RegisteredSource<F>,
        ReactorError,
    >)
        ensures
            r == registered(f, flags, duped),
    {
        match flags {
            Ok(_) => {},
            Err(e) => {
                return Err(ReactorError::SetFlags(e));
            },
        }
        match duped {
            Ok(duped_fd) => Ok(RegisteredSource { source: f, duped_fd }),
            Err(e) => Err(ReactorError::Os(e)),
        }
    }

    /// Starts to wait until the source can be read; the executor may be gone.
    pub fn wait_readable(&self, reactor: Option<&KqueueReactor>) -> (r: Result<
        KeventRequest,
        ReactorError,
    >)
        ensures
            r == (match reactor {
                Some(reactor) => wait_to_read(self.duped_fd, slab_next_key(reactor.ops)),
                None => Err::<KeventRequest, ReactorError>(ReactorError::ExecutorGone),
            }),
    {
        match reactor {
            Some(reactor) => reactor.add_operation(self.duped_fd, EventType::Read),
            None => Err(ReactorError::ExecutorGone),
        }
    }

    /// Starts to wait until the source can be written; the executor may be gone.
    pub fn wait_writable(&self, reactor: Option<&KqueueReactor>) -> (r: Result<
        KeventRequest,
        ReactorError,
    >)
        ensures
            r == (match reactor {
                Some(reactor) => wait_to_write(self.duped_fd, slab_next_key(reactor.ops)),
                None => Err::<KeventRequest, ReactorError>(ReactorError::ExecutorGone),
            }),
    {
        match reactor {
            Some(reactor) => reactor.add_operation(self.duped_fd, EventType::Write),
            None => Err(ReactorError::ExecutorGone),
        }
    }
}

/// An operation that is waited for.
#[derive(Clone, Copy, Debug, PartialEq, Eq)]
pub struct PendingOperation {
    /// Its token, until it is done.
    pub token: Option<usize>,
}

/// What polling an operation gave.
#[derive(Clone, Copy, Debug, PartialEq, Eq)]
pub enum PollStep {
    Pending,
    Ready(Result<(), ReactorError>),
}

impl PendingOperation {
    /// Looks whether an operation is done.
    pub fn poll(&mut self, reactor: &mut KqueueReactor, waker: u64) -> (step: PollStep)
        requires
            old(self).token matches Some(token) && token != WAKE_TOKEN && old(
                reactor,
            ).entries().contains_key(token),
            old(reactor).wf(),
        ensures
            final(reactor).wf(),
            final(reactor).kq == old(reactor).kq,
            final(reactor).wake_read == old(reactor).wake_read,
            final(reactor).wake_write == old(reactor).wake_write,
            ({
                let (entries, ready) = polled(
                    old(reactor).entries(),
                    old(self).token->0,
                    waker,
                );
                &&& final(reactor).entries() == entries
                &&& ready ==> step == PollStep::Ready(Ok(())) && final(self).token is None
                &&& !ready ==> step == PollStep::Pending && *final(self) == *old(self)
            }),
    {
        match self.token {
            Some(token) => if reactor.is_ready(token, waker) {
                self.token = None;
                PollStep::Ready(Ok(()))
            } else {
                PollStep::Pending
            },
            None => PollStep::Pending,
        }
    }

    /// What polling an operation gives whose executor is gone.
    pub fn poll_without_executor(&self) -> (step: PollStep)
        ensures
            step == PollStep::Ready(Err(ReactorError::ExecutorGone)),
    {
        PollStep::Ready(Err(ReactorError::ExecutorGone))
    }

    /// Gives the operation up, if it is not done.
    pub fn cancel(&mut self, reactor: &mut KqueueReactor) -> (requests: Vec<KeventRequest>)
        requires
            old(reactor).wf(),
            old(self).token matches Some(token) ==> token != WAKE_TOKEN && old(
                reactor,
            ).entries().contains_key(token),
        ensures
            final(reactor).wf(),
            final(reactor).kq == old(reactor).kq,
            final(reactor).wake_read == old(reactor).wake_read,
            final(reactor).wake_write == old(reactor).wake_write,
            final(self).token is None,
            match old(self).token {
                Some(token) => (final(reactor).entries(), requests@) == cancelled(
                    old(reactor).entries(),
                    token,
                ),
                None => requests@.len() == 0 && final(reactor).entries() == old(
                    reactor,
                ).entries(),
            },
    {
        match self.token {
            Some(token) => {
                self.token = None;
                reactor.cancel_operation(token)
            },
            None => Vec::new(),
        }
    }
}

/// The life of an operation: between being added and its event it is pending;
/// after its event it is done; once that was noticed its token is free again,
/// and all other operations are as they were.
pub proof fn law_operation_life(entries: Map<usize, OpStatus>, token: usize, fd: i32, waker: u64)
    requires
        !entries.contains_key(token),
    ensures
        ({
            let added = entries.insert(token, OpStatus::Pending { fd, waker: None });
            let polled = added.insert(token, OpStatus::Pending { fd, waker: Some(waker) });
            let done = after_event(polled, token);
            &&& event_action(polled, token) == EventAction::Wake(Some(waker))
            &&& done[token] is Completed
            &&& done.remove(token) == entries
        }),
{
    let added = entries.insert(token, OpStatus::Pending { fd, waker: None });
    let polled = added.insert(token, OpStatus::Pending { fd, waker: Some(waker) });
    assert(after_event(polled, token).remove(token) =~= entries);
}

/// Nothing is left of an operation that was cancelled: whichever way it was
/// waited for, its registration is among those that are deleted.
pub proof fn law_cancelled_is_unregistered(fd: i32, waker: Option<u64>, event_type: EventType)
    requires
        filter_of(event_type) is Some,
    ensures
        cancel_requests(OpStatus::Pending { fd, waker }).contains(
            KeventRequest {
                ident: fd,
                filter: filter_of(event_type)->0,
                flags: EV_DELETE,
                token: 0,
            },
        ),
{
    let requests = cancel_requests(OpStatus::Pending { fd, waker });
    assert(requests.contains(requests[0]) && requests.contains(requests[1]));
}

/// An event changes only the operation that it belongs to.
pub proof fn law_events_are_local(entries: Map<usize, OpStatus>, token: usize, other: usize)
    requires
        token != other,
    ensures
        after_event(entries, token).contains_key(other) == entries.contains_key(other),
        after_event(entries, token)[other] == entries[other],
{
}

/// A task waits for its operation and is woken for it: an operation is not done until its
/// event came; the event wakes the task that looked at it last, and that then finds it
/// done, once. All other operations stay as they are throughout.
pub proof fn law_task_is_woken(
    entries: Map<usize, OpStatus>,
    token: usize,
    fd: i32,
    first: u64,
    second: u64,
)
    requires
        !entries.contains_key(token),
    ensures
        ({
            let begun = added(entries, token, fd);
            let (looked, early) = polled(begun, token, first);
            let (again, early_again) = polled(looked, token, second);
            let came = after_event(again, token);
            let (left, done) = polled(came, token, first);
            &&& begun.contains_key(token)
            &&& event_action(begun, token) == EventAction::Wake(None)
            &&& !early && !early_again
            &&& event_action(looked, token) == EventAction::Wake(Some(first))
            &&& event_action(again, token) == EventAction::Wake(Some(second))
            &&& done
            &&& left == entries
            &&& came.remove(token) == entries && again.remove(token) == entries
                && looked.remove(token) == entries && begun.remove(token) == entries
        }),
{
    let begun = added(entries, token, fd);
    let looked = polled(begun, token, first).0;
    let again = polled(looked, token, second).0;
    let came = after_event(again, token);
    assert(begun.remove(token) =~= entries);
    assert(looked.remove(token) =~= entries);
    assert(again.remove(token) =~= entries);
    assert(came.remove(token) =~= entries);
}

/// What each event asks for: that of an operation that is waited for wakes its task; that
/// which wakes the reactor empties its pipe and changes nothing; any other is passed over
/// and changes nothing.
pub proof fn law_events_are_told_apart(entries: Map<usize, OpStatus>, token: usize)
    ensures
        event_action(entries, token) is Wake <==> entries.contains_key(token) && entries[token]
            is Pending,
        event_action(entries, token) is DrainWakePipe <==> entries.contains_key(token)
            && entries[token] is WakeEvent,
        !(event_action(entries, token) is Wake) ==> after_event(entries, token) == entries,
        event_action(entries, token) is Wake ==> after_event(entries, token)[token] is Completed,
{
}

/// An operation that is given up is gone and no other is; where its event did not come
/// yet, both ways in which its descriptor may be waited for are ended, else nothing is.
pub proof fn law_given_up_is_gone(entries: Map<usize, OpStatus>, token: usize, other: usize)
    requires
        entries.contains_key(token),
        other != token,
    ensures
        ({
            let (left, requests) = cancelled(entries, token);
            &&& !left.contains_key(token)
            &&& left.contains_key(other) == entries.contains_key(other)
            &&& left[other] == entries[other]
            &&& !(entries[token] is Pending) ==> requests.len() == 0
            &&& entries[token] matches OpStatus::Pending { fd, .. } ==> requests.len() == 2
                && requests[0].ident == fd && requests[1].ident == fd && requests[0].filter == -1i16
                && requests[1].filter == -2i16 && requests[0].flags == 2 && requests[1].flags == 2
        }),
{
}

/// A descriptor is waited for under the token of its operation, once, and for what was
/// asked: to be read, which is what both ways come to, or to be written. To wait for
/// nothing is an error. The reactor waits to be woken under token zero, for as long as it
/// is there.
pub proof fn law_waits_are_registered(fd: i32, event_type: EventType, token: usize)
    ensures
        match wait_request(fd, event_type, token) {
            Ok(request) => {
                &&& !(event_type is Nothing)
                &&& request.ident == fd && request.token == token
                &&& request.filter == if event_type is Write {
                    -2i16
                } else {
                    -1i16
                }
                &&& request.flags & 1 == 1 && request.flags & 0x10 == 0x10 && request.flags & 2 == 0
            },
            Err(e) => event_type is Nothing && e is InvalidInput,
        },
        wake_request(fd).ident == fd,
        wake_request(fd).token == 0,
        wake_request(fd).filter == -1i16,
        wake_request(fd).flags & 1 == 1,
        wake_request(fd).flags & 0x20 == 0x20,
        wake_request(fd).flags & 0x12 == 0,
{
    assert(0x11u16 & 1 == 1 && 0x11u16 & 0x10 == 0x10 && 0x11u16 & 2 == 0 && 0x21u16 & 1 == 1
        && 0x21u16 & 0x20 == 0x20 && 0x21u16 & 0x12 == 0) by (bit_vector);
}

/// Being interrupted while waiting is no error; anything else is the error that it is.
pub proof fn law_interrupted_wait(error: Error)
    ensures
        waiting_ended(error) is Ok <==> error.number == 4,
        waiting_ended(error) matches Err(e) ==> e == ReactorError::Os(error),
{
}

/// A reactor is made exactly if its queue and its pipe are there and both ends of the pipe
/// do not block; else the first of these that failed says why.
pub proof fn law_reactor_is_made(parts: ReactorParts)
    ensures
        ({
            let failure = parts_failure(parts);
            &&& failure is None <==> parts.kq is Ok && parts.pipe is Ok && parts.read_flags is Ok
                && parts.write_flags is Ok
            &&& parts.kq matches Err(e) ==> failure == Some(ReactorError::Os(e))
            &&& parts.kq is Ok ==> (parts.pipe matches Err(e) ==> failure == Some(
                ReactorError::Os(e),
            ))
            &&& parts.kq is Ok && parts.pipe is Ok ==> (parts.read_flags matches Err(e) ==> failure
                == Some(ReactorError::SetFlags(e)))
            &&& parts.kq is Ok && parts.pipe is Ok && parts.read_flags is Ok ==> (
            parts.write_flags matches Err(e) ==> failure == Some(ReactorError::SetFlags(e)))
        }),
{
}

/// Whether an operation is one that a task waits for.
pub open spec fn awaits(op: OpStatus, waker: u64) -> bool {
    op is Pending && op->waker == Some(waker)
}

/// When the executor is gone, every task that waits for an operation is woken, and no
/// other.
pub proof fn law_all_tasks_are_woken(items: Seq<OpStatus>, waker: u64)
    ensures
        pending_wakers(items).contains(waker) <==> exists|i: int|
            0 <= i < items.len() && awaits(#[trigger] items[i], waker),
    decreases items.len(),
{
    if items.len() > 0 {
        let before = items.drop_last();
        law_all_tasks_are_woken(before, waker);
        let all = pending_wakers(items);
        let earlier = pending_wakers(before);
        if earlier.contains(waker) {
            let i = choose|i: int| 0 <= i < earlier.len() && earlier[i] == waker;
            assert(all[i] == waker);
            let k = choose|i: int|
                0 <= i < before.len() && awaits(#[trigger] before[i], waker);
            assert(items[k] == before[k]);
        }
        if exists|i: int|
            0 <= i < items.len() && awaits(#[trigger] items[i], waker) {
            let k = choose|i: int|
                0 <= i < items.len() && awaits(#[trigger] items[i], waker);
            if k < before.len() {
                assert(before[k] == items[k]);
            } else {
                assert(all[all.len() - 1] == waker);
            }
        }
        if all.contains(waker) && !earlier.contains(waker) {
            let i = choose|i: int| 0 <= i < all.len() && all[i] == waker;
            if i < earlier.len() {
                assert(earlier[i] == waker);
            }
            assert(items[items.len() - 1] == items.last());
        }
    }
}

/// A reactor has the queue and the pipe that it was made from; it is woken at the end to
/// write and waits at the end to read. A source is waited for in the way that was asked
/// for, by a descriptor of the reactor's own; it is there exactly if that could be made and
/// does not block.
pub proof fn law_descriptors_are_kept<F>(
    parts: ReactorParts,
    kq: i32,
    pipe: (i32, i32),
    source: F,
    flags: Result<(), Error>,
    duped: Result<i32, Error>,
    fd: i32,
    token: usize,
)
    requires
        parts.kq == Ok::<i32, Error>(kq),
        parts.pipe == Ok::<(i32, i32), Error>(pipe),
    ensures
        descriptors_of(parts) == (kq, pipe.0, pipe.1),
        wait_to_read(fd, token) is Ok,
        (wait_to_read(fd, token)->Ok_0).filter == -1i16,
        (wait_to_read(fd, token)->Ok_0).ident == fd,
        (wait_to_read(fd, token)->Ok_0).token == token,
        wait_to_write(fd, token) is Ok,
        (wait_to_write(fd, token)->Ok_0).filter == -2i16,
        (wait_to_write(fd, token)->Ok_0).ident == fd,
        (wait_to_write(fd, token)->Ok_0).token == token,
        match registered(source, flags, duped) {
            Ok(r) => flags is Ok && r.source == source && duped == Ok::<i32, Error>(r.duped_fd),
            Err(ReactorError::SetFlags(e)) => flags == Err::<(), Error>(e),
            Err(ReactorError::Os(e)) => flags is Ok && duped == Err::<i32, Error>(e),
            Err(_) => false,
        },
{
}

/// After several events, an operation is done exactly if it was or one of them is its own
/// and it was waited for; nothing else changes.
pub proof fn law_events_complete_operations(
    entries: Map<usize, OpStatus>,
    tokens: Seq<usize>,
    token: usize,
)
    ensures
        ({
            let after = after_events(entries, tokens);
            &&& after.contains_key(token) == entries.contains_key(token)
            &&& entries.contains_key(token) ==> after[token] == (if entries[token] is Pending
                && tokens.contains(token) {
                OpStatus::Completed
            } else {
                entries[token]
            })
        }),
    decreases tokens.len(),
{
    if tokens.len() > 0 {
        let before = tokens.drop_last();
        law_events_complete_operations(entries, before, token);
        assert(tokens[tokens.len() - 1] == tokens.last());
        if before.contains(token) {
            let i = choose|i: int| 0 <= i < before.len() && before[i] == token;
            assert(tokens[i] == token);
        }
        if tokens.contains(token) && tokens.last() != token {
            let i = choose|i: int| 0 <= i < tokens.len() && tokens[i] == token;
            assert(before[i] == token);
        }
    }
}

} // verus!
