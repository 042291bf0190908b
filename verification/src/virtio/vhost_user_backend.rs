//! Devices as processes of their own, which this platform does not have.

pub mod block;
pub mod gpu;
pub mod net;
