//! Events and tubes that tasks wait for.

use vstd::prelude::*;

use crate::errno::{Error, ENODATA};
use crate::tube::Tube;

verus! {

/// What runs tasks.
#[derive(Clone, Copy, Debug, PartialEq, Eq, Structural)]
pub enum ExecutorKindSys {
    /// A reactor on a kernel queue.
    Kqueue,
}

/// Why something asynchronous failed.
#[derive(Clone, Copy, Debug, PartialEq, Eq, Structural)]
pub enum AsyncErrorSys {
    /// There is no implementation, with the error that tells so.
    Unimplemented(Error),
}

impl From<AsyncErrorSys> for Error {
    fn from(err: AsyncErrorSys) -> (e: Error) {
        match err {
            AsyncErrorSys::Unimplemented(e) => e,
        }
    }
}

impl vstd::std_specs::convert::FromSpecImpl<AsyncErrorSys> for Error {
    open spec fn obeys_from_spec() -> bool {
        true
    }

    open spec fn from_spec(err: AsyncErrorSys) -> Error {
        match err {
            AsyncErrorSys::Unimplemented(e) => e,
        }
    }
}

/// Why a task failed.
#[derive(Clone, Copy, Debug, PartialEq, Eq, Structural)]
pub enum AsyncError {
    EventAsync(Error),
    Io(Error),
    Timer(Error),
    TimerAsync(AsyncErrorSys),
}

impl From<AsyncError> for Error {
    fn from(err: AsyncError) -> (e: Error) {
        match err {
            AsyncError::EventAsync(e) => e,
            AsyncError::Io(e) => e,
            AsyncError::Timer(e) => e,
            AsyncError::TimerAsync(e) => Error::from(e),
        }
    }
}

impl vstd::std_specs::convert::FromSpecImpl<AsyncError> for Error {
    open spec fn obeys_from_spec() -> bool {
        true
    }

    open spec fn from_spec(err: AsyncError) -> Error {
        match err {
            AsyncError::EventAsync(e) => e,
            AsyncError::Io(e) => e,
            AsyncError::Timer(e) => e,
            AsyncError::TimerAsync(AsyncErrorSys::Unimplemented(e)) => e,
        }
    }
}

/// An event that a task waits for.
#[derive(Clone, Copy, Debug, PartialEq, Eq, Structural)]
pub struct EventAsync {
    /// The source of the event in the reactor.
    pub io_source: i32,
}

/// How often an event was signaled, given how many bytes of one were read.
pub open spec fn signals_read(read: Result<usize, AsyncError>) -> Result<u64, AsyncError> {
    match read {
        Ok(n) => if n == 0 {
            Err(AsyncError::EventAsync(Error { number: ENODATA }))
        } else {
            Ok(1)
        },
        Err(e) => Err(e),
    }
}

impl EventAsync {
    /// The event, once its source was made.
    pub fn new(source: Result<i32, AsyncError>) -> (r: Result<EventAsync, AsyncError>)
        ensures
            r == (match source {
                Ok(io_source) => Ok::<EventAsync, AsyncError>(EventAsync { io_source }),
                Err(e) => Err(e),
            }),
    {
        match source {
            Ok(io_source) => Ok(EventAsync { io_source }),
            Err(e) => Err(e),
        }
    }

    /// How often the event was signaled, given how many bytes of one were read:
    /// once, for each byte stands for itself.
    pub fn next_val(&self, read: Result<usize, AsyncError>) -> (r: Result<u64, AsyncError>)
        ensures
            r == signals_read(read),
    {
        match read {
            Ok(n) => if n == 0 {
                Err(AsyncError::EventAsync(Error::new(ENODATA)))
            } else {
                Ok(1)
            },
            Err(e) => Err(e),
        }
    }

    /// The same, since a byte that was read is gone.
    pub fn next_val_reset(&self, read: Result<usize, AsyncError>) -> (r: Result<u64, AsyncError>)
        ensures
            r == signals_read(read),
    {
        self.next_val(read)
    }
}

/// Why there is no asynchronous tube.
#[derive(Clone, Copy, Debug, PartialEq, Eq, Structural)]
pub enum AsyncTubeError {
    Unsupported,
}

/// A tube that tasks wait for.
pub struct AsyncTube {
    pub tube: Tube,
}

impl AsyncTube {
    /// Makes a tube asynchronous: that fails.
    pub fn new(tube: Tube) -> (r: Result<AsyncTube, AsyncTubeError>)
        ensures
            r == Err::<AsyncTube, AsyncTubeError>(AsyncTubeError::Unsupported),
    {
        Err(AsyncTubeError::Unsupported)
    }
}

/// An event was signaled once where a byte could be read; where none could, there is no
/// data; a failed read is the failure that it is.
pub proof fn law_byte_is_a_signal(n: usize, e: AsyncError)
    ensures
        n > 0 ==> signals_read(Ok(n)) == Ok::<u64, AsyncError>(1),
        signals_read(Ok(0)) == Err::<u64, AsyncError>(AsyncError::EventAsync(Error { number: 96 })),
        signals_read(Err(e)) == Err::<u64, AsyncError>(e),
{
}

} // verus!
