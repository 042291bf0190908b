//! Decision logic of a virtual machine monitor on Apple's Hypervisor.framework.
//!
//! Everything the monitor decides (how a guest exit is decoded, which memory
//! is mapped where, how interrupts, power calls, socket packets and frames are
//! handled) stands here as functions from plain values to plain values. The
//! system calls around these decisions are made by the application that links
//! the library.

pub mod align;
pub mod arch;
pub mod base;
pub mod command;
pub mod control;
pub mod cros_async;
pub mod decimal;
pub mod display;
pub mod errno;
pub mod handle;
pub mod hvf;
pub mod hypercall;
pub mod irqchip;
pub mod memory;
pub mod psci;
pub mod read_dir;
pub mod run;
pub mod tube;
pub mod virtio;
pub mod vmnet;
pub mod words;
