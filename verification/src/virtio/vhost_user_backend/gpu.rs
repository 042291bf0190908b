//! The graphics device as a process of its own.

use vstd::prelude::*;

verus! {

/// The options of the device.
pub struct Options {
    /// Not used.
    pub stub: Option<String>,
}

/// Runs the device: that fails.
pub fn run_gpu_device(opts: Options) -> (r: Result<(), &'static str>)
    ensures
        r matches Err(e) && e@ == "vhost-user GPU backend is not available on macOS"@,
{
    Err("vhost-user GPU backend is not available on macOS")
}

} // verus!
