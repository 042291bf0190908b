//! What the platform's bus offers to devices.

use vstd::prelude::*;

verus! {

/// What translates the addresses of a device.
#[derive(Clone, Copy, Debug, PartialEq, Eq, Structural)]
pub enum IommuDevType {
    NoIommu,
    VirtioIommu,
    CoIommu,
    PkvmPviommu,
}

/// The resources of a device on the platform's bus.
pub struct PlatformBusResources {
    /// The name of the device in the device tree.
    pub dt_symbol: String,
    /// Its memory, by address and size.
    pub regions: Vec<(u64, u64)>,
    /// Its interrupts, by number and flags.
    pub irqs: Vec<(u32, u32)>,
    /// What translates its addresses.
    pub iommus: Vec<(IommuDevType, Option<u32>, Vec<u32>)>,
    /// Whether the device has a power domain.
    pub requires_power_domain: bool,
}

/// The socket that tells of power events of the host: there is none.
pub fn get_acpi_event_sock() -> (r: Result<Option<i32>, crate::errno::Error>)
    ensures
        r == Ok::<Option<i32>, crate::errno::Error>(None),
{
    Ok(None)
}

} // verus!
