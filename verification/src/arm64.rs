//! Apple Silicon extensions support.

use vstd::prelude::*;
use crate::check_return;
use crate::vcpu::Vcpu;
use crate::Error;
use crate::HV_SUCCESS;

verus! {

/// The value of a vCPU SIMD and floating-point register, sixteen bytes
/// carried as one unsigned integer.
pub type SimdFpUchar16 = u128;

/// Injected interrupt type.
#[derive(Debug, Copy, Clone, PartialEq, Eq, Structural)]
pub enum InterruptType {
    IRQ,
    FIQ,
}

impl InterruptType {
    /// The ABI constant this interrupt type encodes to.
    pub open spec fn spec_value(self) -> u32 {
        match self {
            InterruptType::IRQ => 0,
            InterruptType::FIQ => 1,
        }
    }

    /// The ABI constant handed to the framework.
    pub fn value(self) -> (v: u32)
        ensures
            v == self.spec_value(),
    {
        match self {
            InterruptType::IRQ => 0,
            InterruptType::FIQ => 1,
        }
    }

    /// The interrupt type a raw constant decodes to, if any.
    pub open spec fn spec_from_value(v: u32) -> Option<InterruptType> {
        if v == 0 {
            Some(InterruptType::IRQ)
        } else if v == 1 {
            Some(InterruptType::FIQ)
        } else {
            None
        }
    }
}

/// vCPU register identifiers, numbered as the ABI's register
/// enumeration numbers them.
#[allow(non_camel_case_types)]
#[non_exhaustive]
#[derive(Debug, Copy, Clone, PartialEq, Eq, Structural)]
pub enum Reg {
    X0,
    X1,
    X2,
    X3,
    X4,
    X5,
    X6,
    X7,
    X8,
    X9,
    X10,
    X11,
    X12,
    X13,
    X14,
    X15,
    X16,
    X17,
    X18,
    X19,
    X20,
    X21,
    X22,
    X23,
    X24,
    X25,
    X26,
    X27,
    X28,
    X29,
    X30,
    PC,
    FPCR,
    FPSR,
    CPSR,
}

impl Reg {
    /// The ABI constant this identifier encodes to.
    pub open spec fn spec_value(self) -> u32 {
        match self {
            Reg::X0 => 0,
            Reg::X1 => 1,
            Reg::X2 => 2,
            Reg::X3 => 3,
            Reg::X4 => 4,
            Reg::X5 => 5,
            Reg::X6 => 6,
            Reg::X7 => 7,
            Reg::X8 => 8,
            Reg::X9 => 9,
            Reg::X10 => 10,
            Reg::X11 => 11,
            Reg::X12 => 12,
            Reg::X13 => 13,
            Reg::X14 => 14,
            Reg::X15 => 15,
            Reg::X16 => 16,
            Reg::X17 => 17,
            Reg::X18 => 18,
            Reg::X19 => 19,
            Reg::X20 => 20,
            Reg::X21 => 21,
            Reg::X22 => 22,
            Reg::X23 => 23,
            Reg::X24 => 24,
            Reg::X25 => 25,
            Reg::X26 => 26,
            Reg::X27 => 27,
            Reg::X28 => 28,
            Reg::X29 => 29,
            Reg::X30 => 30,
            Reg::PC => 31,
            Reg::FPCR => 32,
            Reg::FPSR => 33,
            Reg::CPSR => 34,
        }
    }

    /// The ABI constant handed to the framework.
    pub fn value(self) -> (v: u32)
        ensures
            v == self.spec_value(),
    {
        match self {
            Reg::X0 => 0,
            Reg::X1 => 1,
            Reg::X2 => 2,
            Reg::X3 => 3,
            Reg::X4 => 4,
            Reg::X5 => 5,
            Reg::X6 => 6,
            Reg::X7 => 7,
            Reg::X8 => 8,
            Reg::X9 => 9,
            Reg::X10 => 10,
            Reg::X11 => 11,
            Reg::X12 => 12,
            Reg::X13 => 13,
            Reg::X14 => 14,
            Reg::X15 => 15,
            Reg::X16 => 16,
            Reg::X17 => 17,
            Reg::X18 => 18,
            Reg::X19 => 19,
            Reg::X20 => 20,
            Reg::X21 => 21,
            Reg::X22 => 22,
            Reg::X23 => 23,
            Reg::X24 => 24,
            Reg::X25 => 25,
            Reg::X26 => 26,
            Reg::X27 => 27,
            Reg::X28 => 28,
            Reg::X29 => 29,
            Reg::X30 => 30,
            Reg::PC => 31,
            Reg::FPCR => 32,
            Reg::FPSR => 33,
            Reg::CPSR => 34,
        }
    }

    /// The identifier a raw constant decodes to, if any.
    pub open spec fn spec_from_value(v: u32) -> Option<Reg> {
        if v == 0 {
            Some(Reg::X0)
        } else if v == 1 {
            Some(Reg::X1)
        } else if v == 2 {
            Some(Reg::X2)
        } else if v == 3 {
            Some(Reg::X3)
        } else if v == 4 {
            Some(Reg::X4)
        } else if v == 5 {
            Some(Reg::X5)
        } else if v == 6 {
            Some(Reg::X6)
        } else if v == 7 {
            Some(Reg::X7)
        } else if v == 8 {
            Some(Reg::X8)
        } else if v == 9 {
            Some(Reg::X9)
        } else if v == 10 {
            Some(Reg::X10)
        } else if v == 11 {
            Some(Reg::X11)
        } else if v == 12 {
            Some(Reg::X12)
        } else if v == 13 {
            Some(Reg::X13)
        } else if v == 14 {
            Some(Reg::X14)
        } else if v == 15 {
            Some(Reg::X15)
        } else if v == 16 {
            Some(Reg::X16)
        } else if v == 17 {
            Some(Reg::X17)
        } else if v == 18 {
            Some(Reg::X18)
        } else if v == 19 {
            Some(Reg::X19)
        } else if v == 20 {
            Some(Reg::X20)
        } else if v == 21 {
            Some(Reg::X21)
        } else if v == 22 {
            Some(Reg::X22)
        } else if v == 23 {
            Some(Reg::X23)
        } else if v == 24 {
            Some(Reg::X24)
        } else if v == 25 {
            Some(Reg::X25)
        } else if v == 26 {
            Some(Reg::X26)
        } else if v == 27 {
            Some(Reg::X27)
        } else if v == 28 {
            Some(Reg::X28)
        } else if v == 29 {
            Some(Reg::X29)
        } else if v == 30 {
            Some(Reg::X30)
        } else if v == 31 {
            Some(Reg::PC)
        } else if v == 32 {
            Some(Reg::FPCR)
        } else if v == 33 {
            Some(Reg::FPSR)
        } else if v == 34 {
            Some(Reg::CPSR)
        } else {
            None
        }
    }
}

/// vCPU SIMD and floating-point register identifiers.
#[allow(non_camel_case_types)]
#[non_exhaustive]
#[derive(Debug, Copy, Clone, PartialEq, Eq, Structural)]
pub enum SimdFpReg {
    Q0,
    Q1,
    Q2,
    Q3,
    Q4,
    Q5,
    Q6,
    Q7,
    Q8,
    Q9,
    Q10,
    Q11,
    Q12,
    Q13,
    Q14,
    Q15,
    Q16,
    Q17,
    Q18,
    Q19,
    Q20,
    Q21,
    Q22,
    Q23,
    Q24,
    Q25,
    Q26,
    Q27,
    Q28,
    Q29,
    Q30,
    Q31,
}

impl SimdFpReg {
    /// The ABI constant this identifier encodes to.
    pub open spec fn spec_value(self) -> u32 {
        match self {
            SimdFpReg::Q0 => 0,
            SimdFpReg::Q1 => 1,
            SimdFpReg::Q2 => 2,
            SimdFpReg::Q3 => 3,
            SimdFpReg::Q4 => 4,
            SimdFpReg::Q5 => 5,
            SimdFpReg::Q6 => 6,
            SimdFpReg::Q7 => 7,
            SimdFpReg::Q8 => 8,
            SimdFpReg::Q9 => 9,
            SimdFpReg::Q10 => 10,
            SimdFpReg::Q11 => 11,
            SimdFpReg::Q12 => 12,
            SimdFpReg::Q13 => 13,
            SimdFpReg::Q14 => 14,
            SimdFpReg::Q15 => 15,
            SimdFpReg::Q16 => 16,
            SimdFpReg::Q17 => 17,
            SimdFpReg::Q18 => 18,
            SimdFpReg::Q19 => 19,
            SimdFpReg::Q20 => 20,
            SimdFpReg::Q21 => 21,
            SimdFpReg::Q22 => 22,
            SimdFpReg::Q23 => 23,
            SimdFpReg::Q24 => 24,
            SimdFpReg::Q25 => 25,
            SimdFpReg::Q26 => 26,
            SimdFpReg::Q27 => 27,
            SimdFpReg::Q28 => 28,
            SimdFpReg::Q29 => 29,
            SimdFpReg::Q30 => 30,
            SimdFpReg::Q31 => 31,
        }
    }

    /// The ABI constant handed to the framework.
    pub fn value(self) -> (v: u32)
        ensures
            v == self.spec_value(),
    {
        match self {
            SimdFpReg::Q0 => 0,
            SimdFpReg::Q1 => 1,
            SimdFpReg::Q2 => 2,
            SimdFpReg::Q3 => 3,
            SimdFpReg::Q4 => 4,
            SimdFpReg::Q5 => 5,
            SimdFpReg::Q6 => 6,
            SimdFpReg::Q7 => 7,
            SimdFpReg::Q8 => 8,
            SimdFpReg::Q9 => 9,
            SimdFpReg::Q10 => 10,
            SimdFpReg::Q11 => 11,
            SimdFpReg::Q12 => 12,
            SimdFpReg::Q13 => 13,
            SimdFpReg::Q14 => 14,
            SimdFpReg::Q15 => 15,
            SimdFpReg::Q16 => 16,
            SimdFpReg::Q17 => 17,
            SimdFpReg::Q18 => 18,
            SimdFpReg::Q19 => 19,
            SimdFpReg::Q20 => 20,
            SimdFpReg::Q21 => 21,
            SimdFpReg::Q22 => 22,
            SimdFpReg::Q23 => 23,
            SimdFpReg::Q24 => 24,
            SimdFpReg::Q25 => 25,
            SimdFpReg::Q26 => 26,
            SimdFpReg::Q27 => 27,
            SimdFpReg::Q28 => 28,
            SimdFpReg::Q29 => 29,
            SimdFpReg::Q30 => 30,
            SimdFpReg::Q31 => 31,
        }
    }

    /// The identifier a raw constant decodes to, if any.
    pub open spec fn spec_from_value(v: u32) -> Option<SimdFpReg> {
        if v == 0 {
            Some(SimdFpReg::Q0)
        } else if v == 1 {
            Some(SimdFpReg::Q1)
        } else if v == 2 {
            Some(SimdFpReg::Q2)
        } else if v == 3 {
            Some(SimdFpReg::Q3)
        } else if v == 4 {
            Some(SimdFpReg::Q4)
        } else if v == 5 {
            Some(SimdFpReg::Q5)
        } else if v == 6 {
            Some(SimdFpReg::Q6)
        } else if v == 7 {
            Some(SimdFpReg::Q7)
        } else if v == 8 {
            Some(SimdFpReg::Q8)
        } else if v == 9 {
            Some(SimdFpReg::Q9)
        } else if v == 10 {
            Some(SimdFpReg::Q10)
        } else if v == 11 {
            Some(SimdFpReg::Q11)
        } else if v == 12 {
            Some(SimdFpReg::Q12)
        } else if v == 13 {
            Some(SimdFpReg::Q13)
        } else if v == 14 {
            Some(SimdFpReg::Q14)
        } else if v == 15 {
            Some(SimdFpReg::Q15)
        } else if v == 16 {
            Some(SimdFpReg::Q16)
        } else if v == 17 {
            Some(SimdFpReg::Q17)
        } else if v == 18 {
            Some(SimdFpReg::Q18)
        } else if v == 19 {
            Some(SimdFpReg::Q19)
        } else if v == 20 {
            Some(SimdFpReg::Q20)
        } else if v == 21 {
            Some(SimdFpReg::Q21)
        } else if v == 22 {
            Some(SimdFpReg::Q22)
        } else if v == 23 {
            Some(SimdFpReg::Q23)
        } else if v == 24 {
            Some(SimdFpReg::Q24)
        } else if v == 25 {
            Some(SimdFpReg::Q25)
        } else if v == 26 {
            Some(SimdFpReg::Q26)
        } else if v == 27 {
            Some(SimdFpReg::Q27)
        } else if v == 28 {
            Some(SimdFpReg::Q28)
        } else if v == 29 {
            Some(SimdFpReg::Q29)
        } else if v == 30 {
            Some(SimdFpReg::Q30)
        } else if v == 31 {
            Some(SimdFpReg::Q31)
        } else {
            None
        }
    }
}

/// Law: distinct register identifiers encode to distinct ABI constants;
/// decoding an identifier's constant returns that identifier.
pub proof fn lemma_reg_value_round_trip(r: Reg)
    ensures
        Reg::spec_from_value(r.spec_value()) == Some(r),
{
}

/// Law: distinct SIMD and floating-point register identifiers encode
/// to distinct ABI constants.
pub proof fn lemma_simd_fp_reg_value_round_trip(r: SimdFpReg)
    ensures
        SimdFpReg::spec_from_value(r.spec_value()) == Some(r),
{
}

/// Law: the two interrupt types encode to distinct ABI constants.
pub proof fn lemma_interrupt_type_value_round_trip(t: InterruptType)
    ensures
        InterruptType::spec_from_value(t.spec_value()) == Some(t),
{
}

impl Vcpu {
    /// Finishes the read of the register `reg`; `value` is the
    /// out-value the framework wrote.
    pub fn get_reg(&self, reg: Reg, code: u32, value: u64) -> (r: Result<u64, Error>)
        ensures
            r is Ok <==> code == HV_SUCCESS,
            r matches Ok(v) ==> v == value,
            r matches Err(e) ==> e == Error::spec_from_code(code),
    {
        match check_return(code) {
            Ok(()) => Ok(value),
            Err(e) => Err(e),
        }
    }

    /// Finishes the write of `value` to the register `reg`.
    pub fn set_reg(&self, reg: Reg, value: u64, code: u32) -> (r: Result<(), Error>)
        ensures
            r is Ok <==> code == HV_SUCCESS,
            r matches Err(e) ==> e == Error::spec_from_code(code),
    {
        check_return(code)
    }

    /// Finishes the read of the SIMD and floating-point register `reg`;
    /// `value` is the out-value the framework wrote.
    pub fn get_simd_fp_reg(&self, reg: SimdFpReg, code: u32, value: SimdFpUchar16) -> (r: Result<
        SimdFpUchar16,
        Error,
    >)
        ensures
            r is Ok <==> code == HV_SUCCESS,
            r matches Ok(v) ==> v == value,
            r matches Err(e) ==> e == Error::spec_from_code(code),
    {
        match check_return(code) {
            Ok(()) => Ok(value),
            Err(e) => Err(e),
        }
    }

    /// Finishes the write of `value` to the SIMD and floating-point
    /// register `reg`.
    pub fn set_simd_fp_reg(&self, reg: SimdFpReg, value: SimdFpUchar16, code: u32) -> (r: Result<
        (),
        Error,
    >)
        ensures
            r is Ok <==> code == HV_SUCCESS,
            r matches Err(e) ==> e == Error::spec_from_code(code),
    {
        check_return(code)
    }

    /// Finishes the read of the system register with the raw identifier
    /// `sys_reg`; `value` is the out-value the framework wrote.
    pub fn get_sys_reg(&self, sys_reg: u16, code: u32, value: u64) -> (r: Result<u64, Error>)
        ensures
            r is Ok <==> code == HV_SUCCESS,
            r matches Ok(v) ==> v == value,
            r matches Err(e) ==> e == Error::spec_from_code(code),
    {
        match check_return(code) {
            Ok(()) => Ok(value),
            Err(e) => Err(e),
        }
    }

    /// Finishes the write of `value` to the system register with the
    /// raw identifier `sys_reg`.
    pub fn set_sys_reg(&self, sys_reg: u16, value: u64, code: u32) -> (r: Result<(), Error>)
        ensures
            r is Ok <==> code == HV_SUCCESS,
            r matches Err(e) ==> e == Error::spec_from_code(code),
    {
        check_return(code)
    }

    /// Finishes the query whether an interrupt of type `ty` is pending;
    /// `pending` is the out-value the framework wrote.
    pub fn pending_interrupt(&self, ty: InterruptType, code: u32, pending: bool) -> (r: Result<
        bool,
        Error,
    >)
        ensures
            r is Ok <==> code == HV_SUCCESS,
            r matches Ok(v) ==> v == pending,
            r matches Err(e) ==> e == Error::spec_from_code(code),
    {
        match check_return(code) {
            Ok(()) => Ok(pending),
            Err(e) => Err(e),
        }
    }

    /// Finishes the call that sets whether an interrupt of type `ty` is
    /// pending.
    pub fn set_pending_interrupt(&self, ty: InterruptType, pending: bool, code: u32) -> (r: Result<
        (),
        Error,
    >)
        ensures
            r is Ok <==> code == HV_SUCCESS,
            r matches Err(e) ==> e == Error::spec_from_code(code),
    {
        check_return(code)
    }

    /// Finishes the query whether guest debug exceptions are trapped to
    /// the host; `enabled` is the out-value the framework wrote.
    pub fn trap_debug_exceptions(&self, code: u32, enabled: bool) -> (r: Result<bool, Error>)
        ensures
            r is Ok <==> code == HV_SUCCESS,
            r matches Ok(v) ==> v == enabled,
            r matches Err(e) ==> e == Error::spec_from_code(code),
    {
        match check_return(code) {
            Ok(()) => Ok(enabled),
            Err(e) => Err(e),
        }
    }

    /// Finishes the call that sets whether guest debug exceptions are
    /// trapped to the host.
    pub fn set_trap_debug_exceptions(&self, enable: bool, code: u32) -> (r: Result<(), Error>)
        ensures
            r is Ok <==> code == HV_SUCCESS,
            r matches Err(e) ==> e == Error::spec_from_code(code),
    {
        check_return(code)
    }

    /// Finishes the query whether guest debug register accesses are
    /// trapped to the host; `enabled` is the out-value the framework
    /// wrote.
    pub fn trap_debug_reg_accesses(&self, code: u32, enabled: bool) -> (r: Result<bool, Error>)
        ensures
            r is Ok <==> code == HV_SUCCESS,
            r matches Ok(v) ==> v == enabled,
            r matches Err(e) ==> e == Error::spec_from_code(code),
    {
        match check_return(code) {
            Ok(()) => Ok(enabled),
            Err(e) => Err(e),
        }
    }

    /// Finishes the call that sets whether guest debug register
    /// accesses are trapped to the host.
    pub fn set_trap_debug_reg_accesses(&self, enable: bool, code: u32) -> (r: Result<(), Error>)
        ensures
            r is Ok <==> code == HV_SUCCESS,
            r matches Err(e) ==> e == Error::spec_from_code(code),
    {
        check_return(code)
    }

    /// Finishes the query for the virtual timer mask; `masked` is the
    /// out-value the framework wrote.
    pub fn vtimer_mask(&self, code: u32, masked: bool) -> (r: Result<bool, Error>)
        ensures
            r is Ok <==> code == HV_SUCCESS,
            r matches Ok(v) ==> v == masked,
            r matches Err(e) ==> e == Error::spec_from_code(code),
    {
        match check_return(code) {
            Ok(()) => Ok(masked),
            Err(e) => Err(e),
        }
    }

    /// Finishes the call that masks or unmasks the virtual timer.
    pub fn set_vtimer_mask(&self, vtimer_is_masked: bool, code: u32) -> (r: Result<(), Error>)
        ensures
            r is Ok <==> code == HV_SUCCESS,
            r matches Err(e) ==> e == Error::spec_from_code(code),
    {
        check_return(code)
    }

    /// Finishes the query for the virtual timer offset; `offset` is the
    /// out-value the framework wrote.
    pub fn vtimer_offset(&self, code: u32, offset: u64) -> (r: Result<u64, Error>)
        ensures
            r is Ok <==> code == HV_SUCCESS,
            r matches Ok(v) ==> v == offset,
            r matches Err(e) ==> e == Error::spec_from_code(code),
    {
        match check_return(code) {
            Ok(()) => Ok(offset),
            Err(e) => Err(e),
        }
    }

    /// Finishes the write of the virtual timer offset.
    pub fn set_vtimer_offset(&self, vtimer_offset: u64, code: u32) -> (r: Result<(), Error>)
        ensures
            r is Ok <==> code == HV_SUCCESS,
            r matches Err(e) ==> e == Error::spec_from_code(code),
    {
        check_return(code)
    }
}

} // verus!
