//! The network device as a process of its own.

use vstd::prelude::*;

verus! {

/// The options of the device.
pub struct Options {}

/// Runs the device: that fails.
pub fn start_device(opts: Options) -> (r: Result<(), &'static str>)
    ensures
        r matches Err(e) && e@ == "vhost-user-net backend not supported on macOS"@,
{
    Err("vhost-user-net backend not supported on macOS")
}

/// Starts a queue of the device: that fails.
pub fn start_queue() -> (r: Result<(), &'static str>)
    ensures
        r matches Err(e) && e@ == "vhost-user-net backend not supported on macOS"@,
{
    Err("vhost-user-net backend not supported on macOS")
}

} // verus!
