//! The block device as a process of its own.

use vstd::prelude::*;

verus! {

/// The options of the device.
pub struct Options {
    /// The path of the socket.
    pub socket_path: Option<String>,
}

/// Runs the device: that fails.
pub fn start_device(opts: Options) -> (r: Result<(), &'static str>)
    ensures
        r matches Err(e) && e@ == "vhost-user-backend block not supported on macOS"@,
{
    Err("vhost-user-backend block not supported on macOS")
}

} // verus!
