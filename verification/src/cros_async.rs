//! Asynchronous input and output.

pub mod event;
pub mod kqueue_reactor;
pub mod kqueue_source;
pub mod ops;
