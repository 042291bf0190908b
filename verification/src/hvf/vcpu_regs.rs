//! Register access of a vCPU and what else the monitor asks of one.

use std::collections::BTreeMap;

use vstd::prelude::*;

use crate::errno::{Error, EINVAL, ENOTSUP};
use crate::hvf::ffi;
use crate::hvf::ffi::{hv_reg_t, hv_return_t};
use crate::hvf::vcpu::{exit_asked, HvfVcpu, VcpuRegAArch64, VcpuReply, VcpuRequest};

verus! {

/// A version of the power state coordination interface.
#[derive(Clone, Copy, Debug, PartialEq, Eq, Structural)]
pub struct PsciVersion {
    pub major: u32,
    pub minor: u32,
}

/// The framework's number of a register that is not a system register, if it
/// has one. The stack pointer is separate: it has no number among these.
pub open spec fn hvf_register(reg: VcpuRegAArch64) -> Option<hv_reg_t> {
    match reg {
        VcpuRegAArch64::X(n) => if n <= 30 {
            Some(n as u32)
        } else {
            None
        },
        VcpuRegAArch64::Sp => None,
        VcpuRegAArch64::Pc => Some(ffi::HV_REG_PC),
        VcpuRegAArch64::Pstate => Some(ffi::HV_REG_CPSR),
        VcpuRegAArch64::System(_) => None,
    }
}

/// The value of a register that was read, given the return code.
pub open spec fn value_read<T>(ret: hv_return_t, value: T) -> Result<T, Error> {
    if ret == ffi::HV_SUCCESS {
        Ok(value)
    } else {
        Err(Error { number: ret })
    }
}

/// The request that writes a register.
pub open spec fn write_request(reg: VcpuRegAArch64, data: u64) -> Result<VcpuRequest, Error> {
    match reg {
        VcpuRegAArch64::System(id) => Ok(VcpuRequest::SetSysReg(id, data)),
        _ => match hvf_register(reg) {
            Some(n) => Ok(VcpuRequest::SetReg(n, data)),
            None => Err(Error { number: EINVAL }),
        },
    }
}

/// The request that reads a register.
pub open spec fn read_request(reg: VcpuRegAArch64) -> Result<VcpuRequest, Error> {
    match reg {
        VcpuRegAArch64::System(id) => Ok(VcpuRequest::GetSysReg(id)),
        _ => match hvf_register(reg) {
            Some(n) => Ok(VcpuRequest::GetReg(n)),
            None => Err(Error { number: EINVAL }),
        },
    }
}

/// The request that writes a vector register.
pub open spec fn write_vector_request(reg_num: u8, data: u128) -> Result<VcpuRequest, Error> {
    if reg_num <= 31 {
        Ok(VcpuRequest::SetVectorReg(reg_num as u32, data))
    } else {
        Err(Error { number: EINVAL })
    }
}

/// The request that reads a vector register.
pub open spec fn read_vector_request(reg_num: u8) -> Result<VcpuRequest, Error> {
    if reg_num <= 31 {
        Ok(VcpuRequest::GetVectorReg(reg_num as u32))
    } else {
        Err(Error { number: EINVAL })
    }
}

impl HvfVcpu {
    /// The value of a register, given the reply to reading it.
    pub fn get_reg(reply: VcpuReply) -> (r: Result<u64, Error>)
        ensures
            r == value_read(reply.ret, reply.value),
    {
        match ffi::hvf_result(reply.ret) {
            Ok(_) => Ok(reply.value),
            Err(e) => Err(e),
        }
    }

    /// The framework's number of a register.
    pub fn reg_to_hvf(reg: &VcpuRegAArch64) -> (r: Result<hv_reg_t, Error>)
        ensures
            r == (match hvf_register(*reg) {
                Some(n) => Ok::<hv_reg_t, Error>(n),
                None => Err(Error { number: EINVAL }),
            }),
    {
        match *reg {
            VcpuRegAArch64::X(n) => if n <= 30 {
                Ok(ffi::HV_REG_X0 + n as u32)
            } else {
                Err(Error::new(EINVAL))
            },
            VcpuRegAArch64::Sp => Err(Error::new(EINVAL)),
            VcpuRegAArch64::Pc => Ok(ffi::HV_REG_PC),
            VcpuRegAArch64::Pstate => Ok(ffi::HV_REG_CPSR),
            VcpuRegAArch64::System(_) => Err(Error::new(EINVAL)),
        }
    }

    /// The request that writes a register. The framework numbers system
    /// registers as the architecture does.
    pub fn set_one_reg(&self, reg_id: VcpuRegAArch64, data: u64) -> (r: Result<VcpuRequest, Error>)
        ensures
            r == write_request(reg_id, data),
    {
        match reg_id {
            VcpuRegAArch64::System(id) => Ok(VcpuRequest::SetSysReg(id, data)),
            _ => match Self::reg_to_hvf(&reg_id) {
                Ok(n) => Ok(VcpuRequest::SetReg(n, data)),
                Err(e) => Err(e),
            },
        }
    }

    /// The request that reads a register.
    pub fn get_one_reg(&self, reg_id: VcpuRegAArch64) -> (r: Result<VcpuRequest, Error>)
        ensures
            r == read_request(reg_id),
    {
        match reg_id {
            VcpuRegAArch64::System(id) => Ok(VcpuRequest::GetSysReg(id)),
            _ => match Self::reg_to_hvf(&reg_id) {
                Ok(n) => Ok(VcpuRequest::GetReg(n)),
                Err(e) => Err(e),
            },
        }
    }

    /// The request that writes a vector register, `V0` to `V31`.
    pub fn set_vector_reg(&self, reg_num: u8, data: u128) -> (r: Result<VcpuRequest, Error>)
        ensures
            r == write_vector_request(reg_num, data),
    {
        if reg_num > 31 {
            return Err(Error::new(EINVAL));
        }
        Ok(VcpuRequest::SetVectorReg(reg_num as u32, data))
    }

    /// The request that reads a vector register.
    pub fn get_vector_reg(&self, reg_num: u8) -> (r: Result<VcpuRequest, Error>)
        ensures
            r == read_vector_request(reg_num),
    {
        if reg_num > 31 {
            return Err(Error::new(EINVAL));
        }
        Ok(VcpuRequest::GetVectorReg(reg_num as u32))
    }

    /// The value of a vector register, given what reading it returned.
    pub fn vector_value(ret: hv_return_t, value: u128) -> (r: Result<u128, Error>)
        ensures
            r == value_read(ret, value),
    {
        match ffi::hvf_result(ret) {
            Ok(_) => Ok(value),
            Err(e) => Err(e),
        }
    }

    /// Asks the next run to return at once, or withdraws that wish. A vCPU that
    /// is running is told to exit.
    pub fn set_immediate_exit(&mut self, exit: bool) -> (request: Option<VcpuRequest>)
        ensures
            (*final(self), request) == exit_asked(*old(self), exit),
    {
        self.immediate_exit = exit;
        if exit {
            self.cancel_asked = true;
            Some(VcpuRequest::Cancel)
        } else {
            None
        }
    }

    /// A vCPU is bound to the thread that created it and cannot be cloned.
    pub fn try_clone(&self) -> (r: Result<HvfVcpu, Error>)
        ensures
            r == Err::<HvfVcpu, Error>(Error { number: ENOTSUP }),
    {
        Err(Error::new(ENOTSUP))
    }

    /// The architecture has no port instructions.
    pub fn handle_io(&self) -> (r: Result<(), Error>)
        ensures
            r == Err::<(), Error>(Error { number: ENOTSUP }),
    {
        Err(Error::new(ENOTSUP))
    }

    /// Performance monitoring is not supported.
    pub fn init_pmu(&self, irq: u64) -> (r: Result<(), Error>)
        ensures
            r == Err::<(), Error>(Error { number: ENOTSUP }),
    {
        Err(Error::new(ENOTSUP))
    }

    /// Paravirtual time is not supported.
    pub fn has_pvtime_support(&self) -> (b: bool)
        ensures
            !b,
    {
        false
    }

    /// Paravirtual time is not supported.
    pub fn init_pvtime(&self, pvtime_ipa: u64) -> (r: Result<(), Error>)
        ensures
            r == Err::<(), Error>(Error { number: ENOTSUP }),
    {
        Err(Error::new(ENOTSUP))
    }

    /// The version of the power interface that the guest is told.
    pub fn get_psci_version(&self) -> (version: PsciVersion)
        ensures
            version == (PsciVersion { major: 1, minor: 0 }),
    {
        PsciVersion { major: 1, minor: 0 }
    }

    /// Guest debugging is not supported.
    pub fn set_guest_debug(&self, addrs: &Vec<u64>, enable_singlestep: bool) -> (r: Result<
        (),
        Error,
    >)
        ensures
            r == Err::<(), Error>(Error { number: ENOTSUP }),
    {
        Err(Error::new(ENOTSUP))
    }

    /// The number of hardware breakpoints on offer: none.
    pub fn get_max_hw_bps(&self) -> (r: Result<usize, Error>)
        ensures
            r == Ok::<usize, Error>(0),
    {
        Ok(0)
    }

    /// The system registers that a snapshot holds: none.
    pub fn get_system_regs(&self) -> (regs: BTreeMap<u16, u64>)
        ensures
            regs@ == Map::<u16, u64>::empty(),
    {
        BTreeMap::new()
    }
}

/// Registers with different names are different registers of the framework.
pub proof fn law_registers_are_distinct(a: VcpuRegAArch64, b: VcpuRegAArch64)
    requires
        a != b,
        hvf_register(a) is Some,
        hvf_register(b) is Some,
    ensures
        hvf_register(a) != hvf_register(b),
{
}

/// A register is read where it is written: the general-purpose registers under their
/// own numbers, the program counter and the processor state under the two that the
/// framework has for them, a system register under its identifier. What is written is
/// the data itself. No other register can be read or written.
pub proof fn law_registers_are_found(reg: VcpuRegAArch64, data: u64)
    ensures
        read_request(reg) is Ok <==> write_request(reg, data) is Ok,
        read_request(reg) matches Ok(VcpuRequest::GetReg(n)) ==> write_request(reg, data) == Ok::<
            VcpuRequest,
            Error,
        >(VcpuRequest::SetReg(n, data)) && (match reg {
            VcpuRegAArch64::X(x) => n == x && n < 31,
            VcpuRegAArch64::Pc => n == 31,
            VcpuRegAArch64::Pstate => n == 34,
            _ => false,
        }),
        read_request(reg) matches Ok(VcpuRequest::GetSysReg(id)) ==> write_request(reg, data)
            == Ok::<VcpuRequest, Error>(VcpuRequest::SetSysReg(id, data)) && reg
            == VcpuRegAArch64::System(id),
        read_request(reg) matches Ok(request) ==> request is GetReg || request is GetSysReg,
        read_request(reg) matches Err(e) ==> e.number == 22 && write_request(reg, data) == Err::<
            VcpuRequest,
            Error,
        >(e),
        read_request(reg) is Err <==> (reg is Sp || (reg matches VcpuRegAArch64::X(x) && x > 30)),
{
}

/// A vector register is read where it is written, and there are thirty-two of them.
pub proof fn law_vector_registers_are_found(reg_num: u8, data: u128)
    ensures
        reg_num < 32 ==> write_vector_request(reg_num, data) == Ok::<VcpuRequest, Error>(
            VcpuRequest::SetVectorReg(reg_num as u32, data),
        ) && read_vector_request(reg_num) == Ok::<VcpuRequest, Error>(
            VcpuRequest::GetVectorReg(reg_num as u32),
        ),
        reg_num >= 32 ==> write_vector_request(reg_num, data) == read_vector_request(reg_num)
            && read_vector_request(reg_num) == Err::<VcpuRequest, Error>(Error { number: 22 }),
{
}

/// A register that could be read has the value that was read; else the code is the error.
pub proof fn law_values_are_read<T>(ret: hv_return_t, value: T)
    ensures
        value_read(0, value) == Ok::<T, Error>(value),
        ret != 0 ==> value_read(ret, value) == Err::<T, Error>(Error { number: ret }),
{
}

} // verus!
