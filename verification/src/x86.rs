//! x86 specific identifiers and operations.

use vstd::prelude::*;
use crate::check_return;
use crate::flags::Memory;
use crate::vcpu::Vcpu;
use crate::Error;
use crate::GPAddr;
use crate::UVAddr;
use crate::HV_SUCCESS;

verus! {

/// The capability identifier for the highest possible vCPU count.
pub const HV_CAP_VCPUMAX: u64 = 0;
/// The capability identifier for the highest possible count of
/// additional guest address spaces.
pub const HV_CAP_ADDRSPACEMAX: u64 = 1;

/// The identifier of the default guest address space of a VM.
pub const HV_VM_SPACE_DEFAULT: u64 = 0;

/// Type of a guest address space identifier.
pub type SpaceId = u64;

/// The system capabilities a VM can be asked about.
#[derive(Debug, Copy, Clone, PartialEq, Eq, Structural)]
pub enum Capability {
    VcpuMax,
    AddrSpaceMax,
}

impl Capability {
    /// The ABI constant this capability query encodes to.
    pub open spec fn spec_value(self) -> u64 {
        match self {
            Capability::VcpuMax => HV_CAP_VCPUMAX,
            Capability::AddrSpaceMax => HV_CAP_ADDRSPACEMAX,
        }
    }

    /// The ABI constant handed to the framework.
    pub fn value(self) -> (v: u64)
        ensures
            v == self.spec_value(),
    {
        match self {
            Capability::VcpuMax => HV_CAP_VCPUMAX,
            Capability::AddrSpaceMax => HV_CAP_ADDRSPACEMAX,
        }
    }
}

/// Represents an additional guest address space of the VM.
///
/// The handle is created by `Vm::create_space` and given back with
/// `Vm::destroy_space`, so the owning VM cannot be torn down while it is
/// live.  Each method finishes one framework call on this space: the
/// shell issues the raw call and hands the returned code back in.
#[derive(Debug)]
pub struct Space {
    id: u64,
}

impl Space {
    /// The raw space identifier the framework assigned to this handle.
    pub closed spec fn spec_id(self) -> u64 {
        self.id
    }

    pub(crate) fn new(id: u64) -> (r: Space)
        ensures
            r.spec_id() == id,
    {
        Space { id }
    }

    /// The raw space identifier, as the framework calls expect it.
    pub fn id(&self) -> (r: u64)
        ensures
            r == self.spec_id(),
    {
        self.id
    }

    /// Finishes the call that maps the task-virtual region at `uva` to
    /// the region at `gpa` of this address space, `size` bytes with the
    /// permissions `flags`.
    pub fn map(&self, uva: UVAddr, gpa: GPAddr, size: u64, flags: Memory, code: u32) -> (r: Result<
        (),
        Error,
    >)
        ensures
            r is Ok <==> code == HV_SUCCESS,
            r matches Err(e) ==> e == Error::spec_from_code(code),
    {
        check_return(code)
    }

    /// Finishes the call that unmaps the region at `gpa` of `size`
    /// bytes in this address space.
    pub fn unmap(&self, gpa: GPAddr, size: u64, code: u32) -> (r: Result<(), Error>)
        ensures
            r is Ok <==> code == HV_SUCCESS,
            r matches Err(e) ==> e == Error::spec_from_code(code),
    {
        check_return(code)
    }

    /// Finishes the call that changes the permissions of the region at
    /// `gpa` of `size` bytes in this address space to `flags`.
    pub fn protect(&self, gpa: GPAddr, size: u64, flags: Memory, code: u32) -> (r: Result<
        (),
        Error,
    >)
        ensures
            r is Ok <==> code == HV_SUCCESS,
            r matches Err(e) ==> e == Error::spec_from_code(code),
    {
        check_return(code)
    }
}

/// x86 architectural register identifiers, numbered as the ABI's
/// register enumeration numbers them.
#[allow(non_camel_case_types)]
#[non_exhaustive]
#[derive(Debug, Copy, Clone, PartialEq, Eq, Structural)]
pub enum Reg {
    RIP,
    RFLAGS,
    RAX,
    RCX,
    RDX,
    RBX,
    RSI,
    RDI,
    RSP,
    RBP,
    R8,
    R9,
    R10,
    R11,
    R12,
    R13,
    R14,
    R15,
    CS,
    SS,
    DS,
    ES,
    FS,
    GS,
    IDT_BASE,
    IDT_LIMIT,
    GDT_BASE,
    GDT_LIMIT,
    LDTR,
    LDT_BASE,
    LDT_LIMIT,
    LDT_AR,
    TR,
    TSS_BASE,
    TSS_LIMIT,
    TSS_AR,
    CR0,
    CR1,
    CR2,
    CR3,
    CR4,
    DR0,
    DR1,
    DR2,
    DR3,
    DR4,
    DR5,
    DR6,
    DR7,
    TPR,
    XCR0,
    MAX,
}

impl Reg {
    /// The ABI constant this identifier encodes to.
    pub open spec fn spec_value(self) -> u32 {
        match self {
            Reg::RIP => 0,
            Reg::RFLAGS => 1,
            Reg::RAX => 2,
            Reg::RCX => 3,
            Reg::RDX => 4,
            Reg::RBX => 5,
            Reg::RSI => 6,
            Reg::RDI => 7,
            Reg::RSP => 8,
            Reg::RBP => 9,
            Reg::R8 => 10,
            Reg::R9 => 11,
            Reg::R10 => 12,
            Reg::R11 => 13,
            Reg::R12 => 14,
            Reg::R13 => 15,
            Reg::R14 => 16,
            Reg::R15 => 17,
            Reg::CS => 18,
            Reg::SS => 19,
            Reg::DS => 20,
            Reg::ES => 21,
            Reg::FS => 22,
            Reg::GS => 23,
            Reg::IDT_BASE => 24,
            Reg::IDT_LIMIT => 25,
            Reg::GDT_BASE => 26,
            Reg::GDT_LIMIT => 27,
            Reg::LDTR => 28,
            Reg::LDT_BASE => 29,
            Reg::LDT_LIMIT => 30,
            Reg::LDT_AR => 31,
            Reg::TR => 32,
            Reg::TSS_BASE => 33,
            Reg::TSS_LIMIT => 34,
            Reg::TSS_AR => 35,
            Reg::CR0 => 36,
            Reg::CR1 => 37,
            Reg::CR2 => 38,
            Reg::CR3 => 39,
            Reg::CR4 => 40,
            Reg::DR0 => 41,
            Reg::DR1 => 42,
            Reg::DR2 => 43,
            Reg::DR3 => 44,
            Reg::DR4 => 45,
            Reg::DR5 => 46,
            Reg::DR6 => 47,
            Reg::DR7 => 48,
            Reg::TPR => 49,
            Reg::XCR0 => 50,
            Reg::MAX => 51,
        }
    }

    /// The ABI constant handed to the framework.
    pub fn value(self) -> (v: u32)
        ensures
            v == self.spec_value(),
    {
        match self {
            Reg::RIP => 0,
            Reg::RFLAGS => 1,
            Reg::RAX => 2,
            Reg::RCX => 3,
            Reg::RDX => 4,
            Reg::RBX => 5,
            Reg::RSI => 6,
            Reg::RDI => 7,
            Reg::RSP => 8,
            Reg::RBP => 9,
            Reg::R8 => 10,
            Reg::R9 => 11,
            Reg::R10 => 12,
            Reg::R11 => 13,
            Reg::R12 => 14,
            Reg::R13 => 15,
            Reg::R14 => 16,
            Reg::R15 => 17,
            Reg::CS => 18,
            Reg::SS => 19,
            Reg::DS => 20,
            Reg::ES => 21,
            Reg::FS => 22,
            Reg::GS => 23,
            Reg::IDT_BASE => 24,
            Reg::IDT_LIMIT => 25,
            Reg::GDT_BASE => 26,
            Reg::GDT_LIMIT => 27,
            Reg::LDTR => 28,
            Reg::LDT_BASE => 29,
            Reg::LDT_LIMIT => 30,
            Reg::LDT_AR => 31,
            Reg::TR => 32,
            Reg::TSS_BASE => 33,
            Reg::TSS_LIMIT => 34,
            Reg::TSS_AR => 35,
            Reg::CR0 => 36,
            Reg::CR1 => 37,
            Reg::CR2 => 38,
            Reg::CR3 => 39,
            Reg::CR4 => 40,
            Reg::DR0 => 41,
            Reg::DR1 => 42,
            Reg::DR2 => 43,
            Reg::DR3 => 44,
            Reg::DR4 => 45,
            Reg::DR5 => 46,
            Reg::DR6 => 47,
            Reg::DR7 => 48,
            Reg::TPR => 49,
            Reg::XCR0 => 50,
            Reg::MAX => 51,
        }
    }

    /// The identifier a raw constant decodes to, if any.
    pub open spec fn spec_from_value(v: u32) -> Option<Reg> {
        if v == 0 {
            Some(Reg::RIP)
        } else if v == 1 {
            Some(Reg::RFLAGS)
        } else if v == 2 {
            Some(Reg::RAX)
        } else if v == 3 {
            Some(Reg::RCX)
        } else if v == 4 {
            Some(Reg::RDX)
        } else if v == 5 {
            Some(Reg::RBX)
        } else if v == 6 {
            Some(Reg::RSI)
        } else if v == 7 {
            Some(Reg::RDI)
        } else if v == 8 {
            Some(Reg::RSP)
        } else if v == 9 {
            Some(Reg::RBP)
        } else if v == 10 {
            Some(Reg::R8)
        } else if v == 11 {
            Some(Reg::R9)
        } else if v == 12 {
            Some(Reg::R10)
        } else if v == 13 {
            Some(Reg::R11)
        } else if v == 14 {
            Some(Reg::R12)
        } else if v == 15 {
            Some(Reg::R13)
        } else if v == 16 {
            Some(Reg::R14)
        } else if v == 17 {
            Some(Reg::R15)
        } else if v == 18 {
            Some(Reg::CS)
        } else if v == 19 {
            Some(Reg::SS)
        } else if v == 20 {
            Some(Reg::DS)
        } else if v == 21 {
            Some(Reg::ES)
        } else if v == 22 {
            Some(Reg::FS)
        } else if v == 23 {
            Some(Reg::GS)
        } else if v == 24 {
            Some(Reg::IDT_BASE)
        } else if v == 25 {
            Some(Reg::IDT_LIMIT)
        } else if v == 26 {
            Some(Reg::GDT_BASE)
        } else if v == 27 {
            Some(Reg::GDT_LIMIT)
        } else if v == 28 {
            Some(Reg::LDTR)
        } else if v == 29 {
            Some(Reg::LDT_BASE)
        } else if v == 30 {
            Some(Reg::LDT_LIMIT)
        } else if v == 31 {
            Some(Reg::LDT_AR)
        } else if v == 32 {
            Some(Reg::TR)
        } else if v == 33 {
            Some(Reg::TSS_BASE)
        } else if v == 34 {
            Some(Reg::TSS_LIMIT)
        } else if v == 35 {
            Some(Reg::TSS_AR)
        } else if v == 36 {
            Some(Reg::CR0)
        } else if v == 37 {
            Some(Reg::CR1)
        } else if v == 38 {
            Some(Reg::CR2)
        } else if v == 39 {
            Some(Reg::CR3)
        } else if v == 40 {
            Some(Reg::CR4)
        } else if v == 41 {
            Some(Reg::DR0)
        } else if v == 42 {
            Some(Reg::DR1)
        } else if v == 43 {
            Some(Reg::DR2)
        } else if v == 44 {
            Some(Reg::DR3)
        } else if v == 45 {
            Some(Reg::DR4)
        } else if v == 46 {
            Some(Reg::DR5)
        } else if v == 47 {
            Some(Reg::DR6)
        } else if v == 48 {
            Some(Reg::DR7)
        } else if v == 49 {
            Some(Reg::TPR)
        } else if v == 50 {
            Some(Reg::XCR0)
        } else if v == 51 {
            Some(Reg::MAX)
        } else {
            None
        }
    }
}

/// Law: distinct register identifiers encode to distinct ABI constants;
/// decoding an identifier's constant returns that identifier.
pub proof fn lemma_reg_value_round_trip(r: Reg)
    ensures
        Reg::spec_from_value(r.spec_value()) == Some(r),
{
}

impl Vcpu {
    /// Finishes the read of the architectural x86 register `reg`;
    /// `value` is the out-value the framework wrote.
    pub fn read_register(&self, reg: Reg, code: u32, value: u64) -> (r: Result<u64, Error>)
        ensures
            r is Ok <==> code == HV_SUCCESS,
            r matches Ok(v) ==> v == value,
            r matches Err(e) ==> e == Error::spec_from_code(code),
    {
        match check_return(code) {
            Ok(()) => Ok(value),
            Err(e) => Err(e),
        }
    }

    /// Finishes the write of `value` to the architectural x86 register
    /// `reg`.
    pub fn write_register(&self, reg: Reg, value: u64, code: u32) -> (r: Result<(), Error>)
        ensures
            r is Ok <==> code == HV_SUCCESS,
            r matches Err(e) ==> e == Error::spec_from_code(code),
    {
        check_return(code)
    }

    /// Finishes the read of the architectural x86 floating point and
    /// SIMD state into the caller's buffer, whose layout the XSAVE
    /// feature set of the host processor defines.
    pub fn read_fpstate(&self, code: u32) -> (r: Result<(), Error>)
        ensures
            r is Ok <==> code == HV_SUCCESS,
            r matches Err(e) ==> e == Error::spec_from_code(code),
    {
        check_return(code)
    }

    /// Finishes the write of the architectural x86 floating point and
    /// SIMD state from the caller's buffer.
    pub fn write_fpstate(&self, code: u32) -> (r: Result<(), Error>)
        ensures
            r is Ok <==> code == HV_SUCCESS,
            r matches Err(e) ==> e == Error::spec_from_code(code),
    {
        check_return(code)
    }
}

} // verus!
