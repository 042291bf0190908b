//! Error numbers and the error value that carries one.

use vstd::prelude::*;

verus! {

/// No such file or directory.
pub const ENOENT: i32 = 2;

/// Input/output error.
pub const EIO: i32 = 5;

/// Cannot allocate memory.
pub const ENOMEM: i32 = 12;

/// Invalid argument.
pub const EINVAL: i32 = 22;

/// The pipe has no reader.
pub const EPIPE: i32 = 32;

/// Result too large.
pub const ERANGE: i32 = 34;

/// Resource temporarily unavailable, as Darwin numbers it.
pub const EAGAIN: i32 = 35;

/// Operation not supported, as Darwin numbers it.
pub const ENOTSUP: i32 = 45;

/// No message available, as Darwin numbers it.
pub const ENODATA: i32 = 96;

/// Interrupted system call.
pub const EINTR: i32 = 4;

/// A system error: the number that a call failed with.
///
/// Hypervisor.framework reports failure by negative codes; those are carried
/// unchanged.
#[derive(Clone, Copy, Debug, PartialEq, Eq, Structural)]
pub struct Error {
    /// The number of the error.
    pub number: i32,
}

impl Error {
    /// The error with the given number.
    pub fn new(number: i32) -> (e: Error)
        ensures
            e.number == number,
    {
        Error { number }
    }

    /// The number of the error.
    pub fn errno(&self) -> (number: i32)
        ensures
            number == self.number,
    {
        self.number
    }
}

} // verus!
