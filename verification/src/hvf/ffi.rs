//! Constants of Hypervisor.framework and the fields of an exception syndrome.
//!
//! A syndrome is the value of `ESR_EL2` that the framework hands over with an
//! exception exit. Each accessor below reads one field of it; its contract
//! gives the field by division and remainder, the weight of the field's lowest
//! bit first, the number of values of the field second.

use vstd::bits::*;
use vstd::prelude::*;

use crate::errno::Error;

verus! {

/// Return code of a framework call; zero is success.
#[allow(non_camel_case_types)]
pub type hv_return_t = i32;

/// Handle of a vCPU.
#[allow(non_camel_case_types)]
pub type hv_vcpu_t = u64;

pub const HV_SUCCESS: hv_return_t = 0;

pub const HV_ERROR: hv_return_t = -1;

pub const HV_BUSY: hv_return_t = -2;

pub const HV_BAD_ARGUMENT: hv_return_t = -3;

pub const HV_NO_RESOURCES: hv_return_t = -5;

pub const HV_NO_DEVICE: hv_return_t = -6;

pub const HV_DENIED: hv_return_t = -7;

pub const HV_UNSUPPORTED: hv_return_t = -8;

/// Access rights of a guest memory mapping.
#[allow(non_camel_case_types)]
pub type hv_memory_flags_t = u64;

pub const HV_MEMORY_READ: hv_memory_flags_t = 1;

pub const HV_MEMORY_WRITE: hv_memory_flags_t = 2;

pub const HV_MEMORY_EXEC: hv_memory_flags_t = 4;

/// Why a vCPU stopped running guest code.
#[allow(non_camel_case_types)]
pub type hv_exit_reason_t = u32;

pub const HV_EXIT_REASON_CANCELED: hv_exit_reason_t = 0;

pub const HV_EXIT_REASON_EXCEPTION: hv_exit_reason_t = 1;

pub const HV_EXIT_REASON_VTIMER_ACTIVATED: hv_exit_reason_t = 2;

pub const HV_EXIT_REASON_UNKNOWN: hv_exit_reason_t = 3;

pub const EC_WFX_TRAP: u32 = 0x01;

pub const EC_AA32_HVC: u32 = 0x12;

pub const EC_AA32_SMC: u32 = 0x13;

pub const EC_AA64_HVC: u32 = 0x16;

pub const EC_AA64_SMC: u32 = 0x17;

pub const EC_SYSTEMREGISTERTRAP: u32 = 0x18;

pub const EC_INSNABORT: u32 = 0x20;

pub const EC_INSNABORT_SAME_EL: u32 = 0x21;

pub const EC_DATAABORT: u32 = 0x24;

pub const EC_DATAABORT_SAME_EL: u32 = 0x25;

pub const EC_BREAKPOINT: u32 = 0x30;

pub const EC_BREAKPOINT_SAME_EL: u32 = 0x31;

pub const EC_SOFTWARESTEP: u32 = 0x32;

pub const EC_SOFTWARESTEP_SAME_EL: u32 = 0x33;

pub const EC_WATCHPOINT: u32 = 0x34;

pub const EC_WATCHPOINT_SAME_EL: u32 = 0x35;

pub const EC_AA64_BKPT: u32 = 0x3c;

/// The bit of a data abort syndrome that says that its fields are valid.
pub const ARM_EL_ISV: u64 = 0x100_0000;

/// The field of `word` whose lowest bit has the given weight and which can
/// hold `span` different values.
pub open spec fn bit_field(word: u64, weight: nat, span: nat) -> nat {
    (word as nat / weight) % span
}

proof fn lemma_bit_field(word: u64, low: u64, mask: u64, width: nat)
    requires
        low < 64,
        width < 64,
        mask == low_bits_mask(width),
    ensures
        (word >> low) & mask == bit_field(
            word,
            vstd::arithmetic::power2::pow2(low as nat),
            vstd::arithmetic::power2::pow2(width),
        ),
{
    lemma_u64_shr_is_div(word, low);
    lemma_u64_pow2_no_overflow(width);
    lemma_u64_low_bits_mask_is_mod(word >> low, width);
}

/// The exception class of a syndrome.
#[inline]
pub fn syn_get_ec(syndrome: u64) -> (value: u32)
    ensures
        value == bit_field(syndrome, 0x400_0000, 0x40),
{
    proof {
        lemma_low_bits_mask_values();
        vstd::arithmetic::power2::lemma2_to64();
        lemma_bit_field(syndrome, 26, 0x3f, 6);
    }
    ((syndrome >> 26) & 0x3f) as u32
}

/// Whether the remaining fields of a data abort syndrome are valid.
#[inline]
pub fn data_abort_isv(syndrome: u64) -> (b: bool)
    ensures
        b == (bit_field(syndrome, 0x100_0000, 2) == 1),
{
    proof {
        lemma_low_bits_mask_values();
        vstd::arithmetic::power2::lemma2_to64();
        lemma_bit_field(syndrome, 24, 1, 1);
        assert((syndrome & 0x100_0000 != 0) == ((syndrome >> 24) & 1 == 1)) by (bit_vector);
    }
    (syndrome & ARM_EL_ISV) != 0
}

/// Whether a data abort was caused by a write.
#[inline]
pub fn data_abort_iswrite(syndrome: u64) -> (b: bool)
    ensures
        b == (bit_field(syndrome, 0x40, 2) == 1),
{
    proof {
        lemma_low_bits_mask_values();
        vstd::arithmetic::power2::lemma2_to64();
        lemma_bit_field(syndrome, 6, 0x1, 1);
    }
    ((syndrome >> 6) & 1) != 0
}

/// The access size of a data abort: the access covers two to this power bytes.
#[inline]
pub fn data_abort_sas(syndrome: u64) -> (value: u32)
    ensures
        value == bit_field(syndrome, 0x40_0000, 0x4),
{
    proof {
        lemma_low_bits_mask_values();
        vstd::arithmetic::power2::lemma2_to64();
        lemma_bit_field(syndrome, 22, 0x3, 2);
    }
    ((syndrome >> 22) & 0x3) as u32
}

/// The general-purpose register that a data abort transfers.
#[inline]
pub fn data_abort_srt(syndrome: u64) -> (value: u32)
    ensures
        value == bit_field(syndrome, 0x1_0000, 0x20),
{
    proof {
        lemma_low_bits_mask_values();
        vstd::arithmetic::power2::lemma2_to64();
        lemma_bit_field(syndrome, 16, 0x1f, 5);
    }
    ((syndrome >> 16) & 0x1f) as u32
}

/// Whether a data abort arose from a stage 1 page table walk.
#[inline]
pub fn data_abort_s1ptw(syndrome: u64) -> (b: bool)
    ensures
        b == (bit_field(syndrome, 0x80, 2) == 1),
{
    proof {
        lemma_low_bits_mask_values();
        vstd::arithmetic::power2::lemma2_to64();
        lemma_bit_field(syndrome, 7, 0x1, 1);
    }
    ((syndrome >> 7) & 1) != 0
}

/// Whether a trapped system register access is a read.
#[inline]
pub fn sysreg_isread(syndrome: u64) -> (b: bool)
    ensures
        b == (bit_field(syndrome, 1, 2) == 1),
{
    proof {
        lemma_low_bits_mask_values();
        vstd::arithmetic::power2::lemma2_to64();
        lemma_u64_low_bits_mask_is_mod(syndrome, 1);
    }
    (syndrome & 1) != 0
}

/// The transfer register of a trapped system register access.
#[inline]
pub fn sysreg_rt(syndrome: u64) -> (value: u32)
    ensures
        value == bit_field(syndrome, 0x20, 0x20),
{
    proof {
        lemma_low_bits_mask_values();
        vstd::arithmetic::power2::lemma2_to64();
        lemma_bit_field(syndrome, 5, 0x1f, 5);
    }
    ((syndrome >> 5) & 0x1f) as u32
}

/// `CRm` of a trapped system register access.
#[inline]
pub fn sysreg_crm(syndrome: u64) -> (value: u32)
    ensures
        value == bit_field(syndrome, 0x2, 0x10),
{
    proof {
        lemma_low_bits_mask_values();
        vstd::arithmetic::power2::lemma2_to64();
        lemma_bit_field(syndrome, 1, 0xf, 4);
    }
    ((syndrome >> 1) & 0xf) as u32
}

/// `CRn` of a trapped system register access.
#[inline]
pub fn sysreg_crn(syndrome: u64) -> (value: u32)
    ensures
        value == bit_field(syndrome, 0x400, 0x10),
{
    proof {
        lemma_low_bits_mask_values();
        vstd::arithmetic::power2::lemma2_to64();
        lemma_bit_field(syndrome, 10, 0xf, 4);
    }
    ((syndrome >> 10) & 0xf) as u32
}

/// `Op1` of a trapped system register access.
#[inline]
pub fn sysreg_op1(syndrome: u64) -> (value: u32)
    ensures
        value == bit_field(syndrome, 0x4000, 0x8),
{
    proof {
        lemma_low_bits_mask_values();
        vstd::arithmetic::power2::lemma2_to64();
        lemma_bit_field(syndrome, 14, 0x7, 3);
    }
    ((syndrome >> 14) & 0x7) as u32
}

/// `Op2` of a trapped system register access.
#[inline]
pub fn sysreg_op2(syndrome: u64) -> (value: u32)
    ensures
        value == bit_field(syndrome, 0x2_0000, 0x8),
{
    proof {
        lemma_low_bits_mask_values();
        vstd::arithmetic::power2::lemma2_to64();
        lemma_bit_field(syndrome, 17, 0x7, 3);
    }
    ((syndrome >> 17) & 0x7) as u32
}

/// `Op0` of a trapped system register access.
#[inline]
pub fn sysreg_op0(syndrome: u64) -> (value: u32)
    ensures
        value == bit_field(syndrome, 0x10_0000, 0x4),
{
    proof {
        lemma_low_bits_mask_values();
        vstd::arithmetic::power2::lemma2_to64();
        lemma_bit_field(syndrome, 20, 0x3, 2);
    }
    ((syndrome >> 20) & 0x3) as u32
}

/// Whether the five numbers fit the fields of a system register identifier.
pub open spec fn sysreg_fields_fit(op0: u32, op1: u32, crn: u32, crm: u32, op2: u32) -> bool {
    op0 < 4 && op1 < 8 && crn < 16 && crm < 16 && op2 < 8
}

/// The identifier of the system register with the given fields.
pub open spec fn sysreg_id(op0: u32, op1: u32, crn: u32, crm: u32, op2: u32) -> int {
    op0 * 0x4000 + op1 * 0x800 + crn * 0x80 + crm * 8 + op2
}

/// Encodes a system register identifier from its five fields.
///
/// Fields that are too large spill into their neighbours, as the shifts and
/// the final truncation have it.
#[inline]
pub fn sysreg_encode(op0: u32, op1: u32, crn: u32, crm: u32, op2: u32) -> (id: u16)
    ensures
        id == ((op0 << 14u32) | (op1 << 11u32) | (crn << 7u32) | (crm << 3u32) | op2) as u16,
        sysreg_fields_fit(op0, op1, crn, crm, op2) ==> id == sysreg_id(op0, op1, crn, crm, op2),
{
    proof {
        assert(op0 < 4 && op1 < 8 && crn < 16 && crm < 16 && op2 < 8 ==> ((op0 << 14u32) | (op1
            << 11u32) | (crn << 7u32) | (crm << 3u32) | op2) as u16 == op0 * 0x4000 + op1 * 0x800
            + crn * 0x80 + crm * 8 + op2) by (bit_vector);
    }
    #[verifier::truncate]
    (((op0 << 14u32) | (op1 << 11u32) | (crn << 7u32) | (crm << 3u32) | op2) as u16)
}

/// Whether a trapped wait is `WFE` (and not `WFI`).
#[inline]
pub fn wfx_is_wfe(syndrome: u64) -> (b: bool)
    ensures
        b == (bit_field(syndrome, 1, 2) == 1),
{
    proof {
        lemma_low_bits_mask_values();
        vstd::arithmetic::power2::lemma2_to64();
        lemma_u64_low_bits_mask_is_mod(syndrome, 1);
    }
    (syndrome & 1) != 0
}

/// Distinct registers have distinct identifiers: the five fields can be read
/// back from the identifier.
pub proof fn law_sysreg_id_is_injective(
    op0: u32,
    op1: u32,
    crn: u32,
    crm: u32,
    op2: u32,
)
    requires
        sysreg_fields_fit(op0, op1, crn, crm, op2),
    ensures
        0 <= sysreg_id(op0, op1, crn, crm, op2) < 0x1_0000,
        op2 == sysreg_id(op0, op1, crn, crm, op2) % 8,
        crm == (sysreg_id(op0, op1, crn, crm, op2) / 8) % 16,
        crn == (sysreg_id(op0, op1, crn, crm, op2) / 0x80) % 16,
        op1 == (sysreg_id(op0, op1, crn, crm, op2) / 0x800) % 8,
        op0 == sysreg_id(op0, op1, crn, crm, op2) / 0x4000,
{
    let id = sysreg_id(op0, op1, crn, crm, op2);
    let above_op2 = op0 * 0x800 + op1 * 0x100 + crn * 0x10 + crm;
    let above_crm = op0 * 0x80 + op1 * 0x10 + crn;
    let above_crn = op0 * 8 + op1;
    assert(id == 8 * above_op2 + op2);
    assert(id / 8 == above_op2 && id % 8 == op2);
    assert(above_op2 == 0x10 * above_crm + crm);
    assert(above_op2 % 16 == crm);
    assert(id == 0x80 * above_crm + (8 * crm + op2));
    assert(id / 0x80 == above_crm);
    assert(above_crm == 0x10 * above_crn + crn);
    assert(above_crm % 16 == crn);
    assert(id == 0x800 * above_crn + (0x80 * crn + 8 * crm + op2));
    assert(id / 0x800 == above_crn);
    assert(above_crn % 8 == op1);
}

/// The fields that the accessors read from a syndrome always fit a system
/// register identifier, so a trap names exactly one register.
pub proof fn law_trap_names_a_register(syndrome: u64)
    ensures
        sysreg_fields_fit(
            bit_field(syndrome, 0x10_0000, 4) as u32,
            bit_field(syndrome, 0x4000, 8) as u32,
            bit_field(syndrome, 0x400, 0x10) as u32,
            bit_field(syndrome, 2, 0x10) as u32,
            bit_field(syndrome, 0x2_0000, 8) as u32,
        ),
{
}

/// What the framework reports of an exception exit.
#[allow(non_camel_case_types)]
#[derive(Clone, Copy, Debug)]
pub struct hv_vcpu_exit_exception_t {
    pub syndrome: u64,
    pub virtual_address: u64,
    pub physical_address: u64,
}

impl Default for hv_vcpu_exit_exception_t {
    fn default() -> (e: Self)
        ensures
            e.syndrome == 0 && e.virtual_address == 0 && e.physical_address == 0,
    {
        hv_vcpu_exit_exception_t { syndrome: 0, virtual_address: 0, physical_address: 0 }
    }
}

/// What the framework reports of an exit.
#[allow(non_camel_case_types)]
#[derive(Clone, Copy, Debug)]
pub struct hv_vcpu_exit_t {
    pub reason: hv_exit_reason_t,
    pub exception: hv_vcpu_exit_exception_t,
}

/// Identifier of a general-purpose register.
#[allow(non_camel_case_types)]
pub type hv_reg_t = u32;

/// `X0`; the registers up to `X30` follow in order.
pub const HV_REG_X0: hv_reg_t = 0;

pub const HV_REG_PC: hv_reg_t = 31;

pub const HV_REG_FPCR: hv_reg_t = 32;

pub const HV_REG_FPSR: hv_reg_t = 33;

pub const HV_REG_CPSR: hv_reg_t = 34;

/// Identifier of a system register.
#[allow(non_camel_case_types)]
pub type hv_sys_reg_t = u16;

pub const HV_SYS_REG_SP_EL0: hv_sys_reg_t = 0xC208;

pub const HV_SYS_REG_SP_EL1: hv_sys_reg_t = 0xE208;

pub const HV_SYS_REG_ELR_EL1: hv_sys_reg_t = 0xE201;

pub const HV_SYS_REG_SPSR_EL1: hv_sys_reg_t = 0xE200;

pub const HV_SYS_REG_VBAR_EL1: hv_sys_reg_t = 0xE600;

pub const HV_SYS_REG_SCTLR_EL1: hv_sys_reg_t = 0xC080;

pub const HV_SYS_REG_MAIR_EL1: hv_sys_reg_t = 0xE510;

pub const HV_SYS_REG_TCR_EL1: hv_sys_reg_t = 0xE102;

pub const HV_SYS_REG_TTBR0_EL1: hv_sys_reg_t = 0xE100;

pub const HV_SYS_REG_TTBR1_EL1: hv_sys_reg_t = 0xE101;

pub const HV_SYS_REG_MPIDR_EL1: hv_sys_reg_t = 0xC005;

pub const HV_SYS_REG_MIDR_EL1: hv_sys_reg_t = 0xC000;

pub const HV_SYS_REG_CNTV_CTL_EL0: hv_sys_reg_t = 0xDA19;

pub const HV_SYS_REG_CNTV_CVAL_EL0: hv_sys_reg_t = 0xDA1A;

/// Kind of a pending interrupt.
#[allow(non_camel_case_types)]
pub type hv_interrupt_type_t = u32;

pub const HV_INTERRUPT_TYPE_IRQ: hv_interrupt_type_t = 0;

pub const HV_INTERRUPT_TYPE_FIQ: hv_interrupt_type_t = 1;

/// Number of the first shared peripheral interrupt.
pub const GIC_SPI_BASE: u32 = 32;

/// The bit of `MPIDR_EL1` that is always set.
pub const MPIDR_RES1: u64 = 0x8000_0000;

/// What a return code of the framework means.
pub open spec fn code_result(ret: hv_return_t) -> Result<(), Error> {
    if ret == HV_SUCCESS {
        Ok(())
    } else {
        Err(Error { number: ret })
    }
}

/// What making a vCPU leave the guest returns.
pub open spec fn cancel_code(ret: Option<hv_return_t>) -> hv_return_t {
    match ret {
        Some(ret) => ret,
        None => HV_SUCCESS,
    }
}

/// What a function of the framework's interrupt controller returns.
pub open spec fn gic_code(ret: Option<hv_return_t>) -> hv_return_t {
    match ret {
        Some(ret) => ret,
        None => -1i32,
    }
}

/// What makes a vCPU leave the guest returns: the code of the framework's
/// function, or success where the framework has no such function.
pub fn hv_vcpu_cancel(ret: Option<hv_return_t>) -> (code: hv_return_t)
    ensures
        code == cancel_code(ret),
{
    match ret {
        Some(ret) => ret,
        None => HV_SUCCESS,
    }
}

/// What a function of the framework's interrupt controller returns: its code, or
/// -1 where the framework has no such function.
pub fn gic_call_code(ret: Option<hv_return_t>) -> (code: hv_return_t)
    ensures
        code == gic_code(ret),
{
    match ret {
        Some(ret) => ret,
        None => -1,
    }
}

/// Turns a return code of the framework into a result.
pub fn hvf_result(ret: hv_return_t) -> (r: Result<(), Error>)
    ensures
        r == code_result(ret),
{
    if ret == HV_SUCCESS {
        Ok(())
    } else {
        Err(Error::new(ret))
    }
}

/// A call of the framework succeeded exactly if it returned zero, and else its code is the
/// error. Where the framework lacks a function, making a vCPU leave the guest counts as
/// done, and a call of the interrupt controller as failed.
pub proof fn law_return_codes(ret: hv_return_t)
    ensures
        code_result(ret) is Ok <==> ret == 0,
        code_result(ret) matches Err(e) ==> e.number == ret,
        cancel_code(Some(ret)) == ret,
        gic_code(Some(ret)) == ret,
        code_result(cancel_code(None)) is Ok,
        code_result(gic_code(None)) is Err,
{
}

} // verus!
