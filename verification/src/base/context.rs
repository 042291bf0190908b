//! Waiting for several events.

use std::marker::PhantomData;

use vstd::prelude::*;

use crate::cros_async::kqueue_reactor::EventType;
use crate::errno::Error;

verus! {

/// An event that happened.
#[derive(Clone, Copy, Debug, PartialEq, Eq, Structural)]
pub struct TriggeredEvent {
    /// The token that the event was registered with.
    pub token: u64,
    pub is_readable: bool,
    pub is_writable: bool,
    pub is_hungup: bool,
}

/// Several events that happened; a few of them need no memory of their own.
#[verifier::external_body]
pub struct TriggeredEvents {
    items: smallvec::SmallVec<[TriggeredEvent; 16]>,
}

/// What a list of events holds.
pub uninterp spec fn triggered(events: TriggeredEvents) -> Seq<TriggeredEvent>;

/// `smallvec::SmallVec::new`: the list is empty.
#[verifier::external_body]
fn no_events() -> (events: TriggeredEvents)
    ensures
        triggered(events).len() == 0,
{
    TriggeredEvents { items: smallvec::SmallVec::new() }
}

impl TriggeredEvents {
    /// `smallvec::SmallVec::len`: the number of events.
    #[verifier::external_body]
    fn count(&self) -> (n: usize)
        ensures
            n == triggered(*self).len(),
    {
        self.items.len()
    }

    /// Whether nothing happened.
    pub fn is_empty(&self) -> (b: bool)
        ensures
            b == (triggered(*self).len() == 0),
    {
        self.count() == 0
    }
}

/// What is waited for, with tokens of type `T`. Nothing is registered with the
/// system, so nothing ever happens.
pub struct EventContext<T> {
    pub p: PhantomData<T>,
}

impl<T> EventContext<T> {
    /// Nothing is waited for.
    pub fn new() -> (r: Result<EventContext<T>, Error>)
        ensures
            r is Ok,
    {
        Ok(EventContext { p: PhantomData })
    }

    /// The given descriptors are waited for, each with its token.
    pub fn build_with(fd_tokens: &Vec<(i32, T)>) -> (r: Result<EventContext<T>, Error>)
        ensures
            r is Ok,
    {
        Ok(EventContext { p: PhantomData })
    }

    /// A descriptor is waited for.
    pub fn add_for_event(&self, descriptor: i32, event_type: EventType, token: T) -> (r: Result<
        (),
        Error,
    >)
        ensures
            r == Ok::<(), Error>(()),
    {
        Ok(())
    }

    /// A descriptor is waited for in another way.
    pub fn modify(&self, fd: i32, event_type: EventType, token: T) -> (r: Result<(), Error>)
        ensures
            r == Ok::<(), Error>(()),
    {
        Ok(())
    }

    /// A descriptor is not waited for any more.
    pub fn delete(&self, fd: i32) -> (r: Result<(), Error>)
        ensures
            r == Ok::<(), Error>(()),
    {
        Ok(())
    }

    /// Waits: nothing happens.
    pub fn wait(&self) -> (r: Result<TriggeredEvents, Error>)
        ensures
            r matches Ok(events) && triggered(events).len() == 0,
    {
        Ok(no_events())
    }

    /// Waits for some time, in milliseconds: nothing happens.
    pub fn wait_timeout(&self, timeout: u128) -> (r: Result<TriggeredEvents, Error>)
        ensures
            r matches Ok(events) && triggered(events).len() == 0,
    {
        Ok(no_events())
    }

    /// There is no descriptor.
    pub fn as_raw_descriptor(&self) -> (fd: i32)
        ensures
            fd == -1,
    {
        -1
    }
}

} // verus!
