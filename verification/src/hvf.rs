//! The Hypervisor.framework backend.

pub mod boot;
pub mod ffi;
pub mod ioevents;
pub mod vcpu;
pub mod vcpu_io;
pub mod vcpu_regs;
pub mod vm;

use vstd::prelude::*;

use crate::errno::Error;
use crate::hvf::ffi::hv_return_t;

verus! {

/// What a hypervisor may be able to do.
#[derive(Clone, Copy, Debug, PartialEq, Eq, Structural)]
pub enum HypervisorCap {
    UserMemory,
    ImmediateExit,
    StaticSwiotlbAllocationRequired,
    HypervisorInitializedBootContext,
}

/// The framework. There is one machine in a process, so there is nothing to
/// hold.
#[derive(Clone, Copy, Debug, PartialEq, Eq, Structural)]
pub struct Hvf;

/// Whether the framework can do something.
pub open spec fn framework_can(cap: HypervisorCap) -> bool {
    cap == HypervisorCap::UserMemory || cap == HypervisorCap::ImmediateExit
}

/// The framework, once it was asked to create the machine.
pub open spec fn framework_of(created: hv_return_t) -> Result<Hvf, Error> {
    if created == ffi::HV_SUCCESS {
        Ok(Hvf)
    } else {
        Err(Error { number: created })
    }
}

impl Hvf {
    /// The framework, once it was asked to create the machine.
    pub fn new(created: hv_return_t) -> (r: Result<Hvf, Error>)
        ensures
            r == framework_of(created),
    {
        match ffi::hvf_result(created) {
            Ok(_) => Ok(Hvf),
            Err(e) => Err(e),
        }
    }

    /// Another handle of the same framework.
    pub fn try_clone(&self) -> (r: Result<Hvf, Error>)
        ensures
            r == Ok::<Hvf, Error>(*self),
    {
        Ok(Hvf)
    }

    /// Whether the framework can do something.
    pub fn check_capability(&self, cap: HypervisorCap) -> (b: bool)
        ensures
            b == framework_can(cap),
    {
        match cap {
            HypervisorCap::UserMemory => true,
            HypervisorCap::ImmediateExit => true,
            _ => false,
        }
    }
}

/// The framework maps memory of the user and can end a run at once; it does nothing else
/// that a hypervisor may be able to do. It is there exactly if the machine could be
/// created, and else the code says why.
pub proof fn law_framework(cap: HypervisorCap, created: hv_return_t)
    ensures
        framework_can(cap) <==> cap is UserMemory || cap is ImmediateExit,
        framework_of(created) is Ok <==> created == 0,
        framework_of(created) matches Err(e) ==> e.number == created,
{
}

} // verus!
