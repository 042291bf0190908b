//! Interrupt controllers.

pub mod hvf_gic;
pub mod hvf_gic_mmio;
