//! VMX extensions: capability queries, VMCS field access, and the
//! identifier tables the encodings come from.

use vstd::prelude::*;
use crate::check_return;
use crate::vcpu::Vcpu;
use crate::Error;
use crate::HV_SUCCESS;

verus! {

/// No shadow VMCS access.
pub const HV_SHADOW_VMCS_NONE: u32 = 0;
/// The shadow VMCS field may be read.
pub const HV_SHADOW_VMCS_READ: u32 = 1;
/// The shadow VMCS field may be written.
pub const HV_SHADOW_VMCS_WRITE: u32 = 2;

/// The VMX capability fields of the host processor.
#[derive(Debug, Copy, Clone, PartialEq, Eq, Structural)]
pub enum Capability {
    /// Pin-based VMX capabilities.
    PinBased,
    /// Primary proc-based VMX capabilities.
    ProcBased,
    /// Secondary proc-based VMX capabilities.
    ProcBased2,
    /// VM-entry VMX capabilities.
    Entry,
    /// VM-exit VMX capabilities.
    Exit,
    /// VMX preemption timer frequency.
    PreemptionTimer,
}

impl Capability {
    /// The ABI constant this capability field encodes to.
    pub open spec fn spec_value(self) -> u32 {
        match self {
            Capability::PinBased => 0,
            Capability::ProcBased => 1,
            Capability::ProcBased2 => 2,
            Capability::Entry => 3,
            Capability::Exit => 4,
            Capability::PreemptionTimer => 32,
        }
    }

    /// The ABI constant handed to the framework.
    pub fn value(self) -> (v: u32)
        ensures
            v == self.spec_value(),
    {
        match self {
            Capability::PinBased => 0,
            Capability::ProcBased => 1,
            Capability::ProcBased2 => 2,
            Capability::Entry => 3,
            Capability::Exit => 4,
            Capability::PreemptionTimer => 32,
        }
    }

    /// The capability field a raw constant decodes to, if any.
    pub open spec fn spec_from_value(v: u32) -> Option<Capability> {
        if v == 0 {
            Some(Capability::PinBased)
        } else if v == 1 {
            Some(Capability::ProcBased)
        } else if v == 2 {
            Some(Capability::ProcBased2)
        } else if v == 3 {
            Some(Capability::Entry)
        } else if v == 4 {
            Some(Capability::Exit)
        } else if v == 32 {
            Some(Capability::PreemptionTimer)
        } else {
            None
        }
    }
}

/// Finishes the query for the VMX capability field `field` of the host
/// processor; `value` is the out-value the framework wrote.
pub fn read_capability(field: Capability, code: u32, value: u64) -> (r: Result<u64, Error>)
    ensures
        r is Ok <==> code == HV_SUCCESS,
        r matches Ok(v) ==> v == value,
        r matches Err(e) ==> e == Error::spec_from_code(code),
{
    match check_return(code) {
        Ok(()) => Ok(value),
        Err(e) => Err(e),
    }
}

/// Access permissions of a shadow VMCS field, encoded for the ABI as a
/// mask of the `HV_SHADOW_VMCS_*` bits.
#[derive(Debug, Copy, Clone, PartialEq, Eq, Structural)]
pub struct ShadowFlags {
    pub read: bool,
    pub write: bool,
}

impl ShadowFlags {
    /// The raw mask this permission set encodes to.
    pub open spec fn spec_bits(self) -> int {
        (if self.read { HV_SHADOW_VMCS_READ } else { 0 })
            + (if self.write { HV_SHADOW_VMCS_WRITE } else { 0 })
    }

    /// No shadow access: `HV_SHADOW_VMCS_NONE` on the wire.
    pub fn none() -> (r: ShadowFlags)
        ensures
            r == (ShadowFlags { read: false, write: false }),
            r.spec_bits() == HV_SHADOW_VMCS_NONE,
    {
        ShadowFlags { read: false, write: false }
    }

    /// Read access alone.
    pub fn read() -> (r: ShadowFlags)
        ensures
            r == (ShadowFlags { read: true, write: false }),
    {
        ShadowFlags { read: true, write: false }
    }

    /// Write access alone.
    pub fn write() -> (r: ShadowFlags)
        ensures
            r == (ShadowFlags { read: false, write: true }),
    {
        ShadowFlags { read: false, write: true }
    }

    /// The accesses granted by either operand.
    pub fn union(self, other: ShadowFlags) -> (r: ShadowFlags)
        ensures
            r.read == (self.read || other.read),
            r.write == (self.write || other.write),
    {
        ShadowFlags { read: self.read || other.read, write: self.write || other.write }
    }

    /// The raw mask handed to the framework.
    pub fn bits(self) -> (r: u32)
        ensures
            r == self.spec_bits(),
            r <= 3,
    {
        (if self.read {
            HV_SHADOW_VMCS_READ
        } else {
            0
        }) + (if self.write {
            HV_SHADOW_VMCS_WRITE
        } else {
            0
        })
    }
}

/// Virtual Machine Control Structure (VMCS) field identifiers, encoded
/// as the architecture's field encodings.
#[allow(non_camel_case_types)]
#[non_exhaustive]
#[derive(Debug, Copy, Clone, PartialEq, Eq, Structural)]
pub enum Vmcs {
    VPID,
    CTRL_POSTED_INT_N_VECTOR,
    CTRL_EPTP_INDEX,
    GUEST_ES,
    GUEST_CS,
    GUEST_SS,
    GUEST_DS,
    GUEST_FS,
    GUEST_GS,
    GUEST_LDTR,
    GUEST_TR,
    GUEST_INT_STATUS,
    GUESTPML_INDEX,
    HOST_ES,
    HOST_CS,
    HOST_SS,
    HOST_DS,
    HOST_FS,
    HOST_GS,
    HOST_TR,
    CTRL_IO_BITMAP_A,
    CTRL_IO_BITMAP_B,
    CTRL_MSR_BITMAPS,
    CTRL_VMEXIT_MSR_STORE_ADDR,
    CTRL_VMEXIT_MSR_LOAD_ADDR,
    CTRL_VMENTRY_MSR_LOAD_ADDR,
    CTRL_EXECUTIVE_VMCS_PTR,
    CTRL_PML_ADDR,
    CTRL_TSC_OFFSET,
    CTRL_VIRTUAL_APIC,
    CTRL_APIC_ACCESS,
    CTRL_POSTED_INT_DESC_ADDR,
    CTRL_VMFUNC_CTRL,
    CTRL_EPTP,
    CTRL_EOI_EXIT_BITMAP_0,
    CTRL_EOI_EXIT_BITMAP_1,
    CTRL_EOI_EXIT_BITMAP_2,
    CTRL_EOI_EXIT_BITMAP_3,
    CTRL_EPTP_LIST_ADDR,
    CTRL_VMREAD_BITMAP_ADDR,
    CTRL_VMWRITE_BITMAP_ADDR,
    CTRL_VIRT_EXC_INFO_ADDR,
    CTRL_XSS_EXITING_BITMAP,
    CTRL_ENCLS_EXITING_BITMAP,
    CTRL_TSC_MULTIPLIER,
    GUEST_PHYSICAL_ADDRESS,
    GUEST_LINK_POINTER,
    GUEST_IA32_DEBUGCTL,
    GUEST_IA32_PAT,
    GUEST_IA32_EFER,
    GUEST_IA32_PERF_GLOBAL_CTRL,
    GUEST_PDPTE0,
    GUEST_PDPTE1,
    GUEST_PDPTE2,
    GUEST_PDPTE3,
    GUEST_IA32_BNDCFGS,
    HOST_IA32_PAT,
    HOST_IA32_EFER,
    HOST_IA32_PERF_GLOBAL_CTRL,
    CTRL_PIN_BASED,
    CTRL_CPU_BASED,
    CTRL_EXC_BITMAP,
    CTRL_PF_ERROR_MASK,
    CTRL_PF_ERROR_MATCH,
    CTRL_CR3_COUNT,
    CTRL_VMEXIT_CONTROLS,
    CTRL_VMEXIT_MSR_STORE_COUNT,
    CTRL_VMEXIT_MSR_LOAD_COUNT,
    CTRL_VMENTRY_CONTROLS,
    CTRL_VMENTRY_MSR_LOAD_COUNT,
    CTRL_VMENTRY_IRQ_INFO,
    CTRL_VMENTRY_EXC_ERROR,
    CTRL_VMENTRY_INSTR_LEN,
    CTRL_TPR_THRESHOLD,
    CTRL_CPU_BASED2,
    CTRL_PLE_GAP,
    CTRL_PLE_WINDOW,
    RO_INSTR_ERROR,
    RO_EXIT_REASON,
    RO_VMEXIT_IRQ_INFO,
    RO_VMEXIT_IRQ_ERROR,
    RO_IDT_VECTOR_INFO,
    RO_IDT_VECTOR_ERROR,
    RO_VMEXIT_INSTR_LEN,
    RO_VMX_INSTR_INFO,
    GUEST_ES_LIMIT,
    GUEST_CS_LIMIT,
    GUEST_SS_LIMIT,
    GUEST_DS_LIMIT,
    GUEST_FS_LIMIT,
    GUEST_GS_LIMIT,
    GUEST_LDTR_LIMIT,
    GUEST_TR_LIMIT,
    GUEST_GDTR_LIMIT,
    GUEST_IDTR_LIMIT,
    GUEST_ES_AR,
    GUEST_CS_AR,
    GUEST_SS_AR,
    GUEST_DS_AR,
    GUEST_FS_AR,
    GUEST_GS_AR,
    GUEST_LDTR_AR,
    GUEST_TR_AR,
    GUEST_IGNORE_IRQ,
    GUEST_ACTIVITY_STATE,
    GUEST_SMBASE,
    GUEST_IA32_SYSENTER_CS,
    GUEST_VMX_TIMER_VALUE,
    HOST_IA32_SYSENTER_CS,
    CTRL_CR0_MASK,
    CTRL_CR4_MASK,
    CTRL_CR0_SHADOW,
    CTRL_CR4_SHADOW,
    CTRL_CR3_VALUE0,
    CTRL_CR3_VALUE1,
    CTRL_CR3_VALUE2,
    CTRL_CR3_VALUE3,
    RO_EXIT_QUALIFIC,
    RO_IO_RCX,
    RO_IO_RSI,
    RO_IO_RDI,
    RO_IO_RIP,
    RO_GUEST_LIN_ADDR,
    GUEST_CR0,
    GUEST_CR3,
    GUEST_CR4,
    GUEST_ES_BASE,
    GUEST_CS_BASE,
    GUEST_SS_BASE,
    GUEST_DS_BASE,
    GUEST_FS_BASE,
    GUEST_GS_BASE,
    GUEST_LDTR_BASE,
    GUEST_TR_BASE,
    GUEST_GDTR_BASE,
    GUEST_IDTR_BASE,
    GUEST_DR7,
    GUEST_RSP,
    GUEST_RIP,
    GUEST_RFLAGS,
    GUEST_DEBUG_EXC,
    GUEST_SYSENTER_ESP,
    GUEST_SYSENTER_EIP,
    HOST_CR0,
    HOST_CR3,
    HOST_CR4,
    HOST_FS_BASE,
    HOST_GS_BASE,
    HOST_TR_BASE,
    HOST_GDTR_BASE,
    HOST_IDTR_BASE,
    HOST_IA32_SYSENTER_ESP,
    HOST_IA32_SYSENTER_EIP,
    HOST_RSP,
    HOST_RIP,
    MAX,
}

impl Vmcs {
    /// The ABI constant this identifier encodes to.
    pub open spec fn spec_value(self) -> u32 {
        match self {
            Vmcs::VPID => 0x0,
            Vmcs::CTRL_POSTED_INT_N_VECTOR => 0x2,
            Vmcs::CTRL_EPTP_INDEX => 0x4,
            Vmcs::GUEST_ES => 0x800,
            Vmcs::GUEST_CS => 0x802,
            Vmcs::GUEST_SS => 0x804,
            Vmcs::GUEST_DS => 0x806,
            Vmcs::GUEST_FS => 0x808,
            Vmcs::GUEST_GS => 0x80a,
            Vmcs::GUEST_LDTR => 0x80c,
            Vmcs::GUEST_TR => 0x80e,
            Vmcs::GUEST_INT_STATUS => 0x810,
            Vmcs::GUESTPML_INDEX => 0x812,
            Vmcs::HOST_ES => 0xc00,
            Vmcs::HOST_CS => 0xc02,
            Vmcs::HOST_SS => 0xc04,
            Vmcs::HOST_DS => 0xc06,
            Vmcs::HOST_FS => 0xc08,
            Vmcs::HOST_GS => 0xc0a,
            Vmcs::HOST_TR => 0xc0c,
            Vmcs::CTRL_IO_BITMAP_A => 0x2000,
            Vmcs::CTRL_IO_BITMAP_B => 0x2002,
            Vmcs::CTRL_MSR_BITMAPS => 0x2004,
            Vmcs::CTRL_VMEXIT_MSR_STORE_ADDR => 0x2006,
            Vmcs::CTRL_VMEXIT_MSR_LOAD_ADDR => 0x2008,
            Vmcs::CTRL_VMENTRY_MSR_LOAD_ADDR => 0x200a,
            Vmcs::CTRL_EXECUTIVE_VMCS_PTR => 0x200c,
            Vmcs::CTRL_PML_ADDR => 0x200e,
            Vmcs::CTRL_TSC_OFFSET => 0x2010,
            Vmcs::CTRL_VIRTUAL_APIC => 0x2012,
            Vmcs::CTRL_APIC_ACCESS => 0x2014,
            Vmcs::CTRL_POSTED_INT_DESC_ADDR => 0x2016,
            Vmcs::CTRL_VMFUNC_CTRL => 0x2018,
            Vmcs::CTRL_EPTP => 0x201a,
            Vmcs::CTRL_EOI_EXIT_BITMAP_0 => 0x201c,
            Vmcs::CTRL_EOI_EXIT_BITMAP_1 => 0x201e,
            Vmcs::CTRL_EOI_EXIT_BITMAP_2 => 0x2020,
            Vmcs::CTRL_EOI_EXIT_BITMAP_3 => 0x2022,
            Vmcs::CTRL_EPTP_LIST_ADDR => 0x2024,
            Vmcs::CTRL_VMREAD_BITMAP_ADDR => 0x2026,
            Vmcs::CTRL_VMWRITE_BITMAP_ADDR => 0x2028,
            Vmcs::CTRL_VIRT_EXC_INFO_ADDR => 0x202a,
            Vmcs::CTRL_XSS_EXITING_BITMAP => 0x202c,
            Vmcs::CTRL_ENCLS_EXITING_BITMAP => 0x202e,
            Vmcs::CTRL_TSC_MULTIPLIER => 0x2032,
            Vmcs::GUEST_PHYSICAL_ADDRESS => 0x2400,
            Vmcs::GUEST_LINK_POINTER => 0x2800,
            Vmcs::GUEST_IA32_DEBUGCTL => 0x2802,
            Vmcs::GUEST_IA32_PAT => 0x2804,
            Vmcs::GUEST_IA32_EFER => 0x2806,
            Vmcs::GUEST_IA32_PERF_GLOBAL_CTRL => 0x2808,
            Vmcs::GUEST_PDPTE0 => 0x280a,
            Vmcs::GUEST_PDPTE1 => 0x280c,
            Vmcs::GUEST_PDPTE2 => 0x280e,
            Vmcs::GUEST_PDPTE3 => 0x2810,
            Vmcs::GUEST_IA32_BNDCFGS => 0x2812,
            Vmcs::HOST_IA32_PAT => 0x2c00,
            Vmcs::HOST_IA32_EFER => 0x2c02,
            Vmcs::HOST_IA32_PERF_GLOBAL_CTRL => 0x2c04,
            Vmcs::CTRL_PIN_BASED => 0x4000,
            Vmcs::CTRL_CPU_BASED => 0x4002,
            Vmcs::CTRL_EXC_BITMAP => 0x4004,
            Vmcs::CTRL_PF_ERROR_MASK => 0x4006,
            Vmcs::CTRL_PF_ERROR_MATCH => 0x4008,
            Vmcs::CTRL_CR3_COUNT => 0x400a,
            Vmcs::CTRL_VMEXIT_CONTROLS => 0x400c,
            Vmcs::CTRL_VMEXIT_MSR_STORE_COUNT => 0x400e,
            Vmcs::CTRL_VMEXIT_MSR_LOAD_COUNT => 0x4010,
            Vmcs::CTRL_VMENTRY_CONTROLS => 0x4012,
            Vmcs::CTRL_VMENTRY_MSR_LOAD_COUNT => 0x4014,
            Vmcs::CTRL_VMENTRY_IRQ_INFO => 0x4016,
            Vmcs::CTRL_VMENTRY_EXC_ERROR => 0x4018,
            Vmcs::CTRL_VMENTRY_INSTR_LEN => 0x401a,
            Vmcs::CTRL_TPR_THRESHOLD => 0x401c,
            Vmcs::CTRL_CPU_BASED2 => 0x401e,
            Vmcs::CTRL_PLE_GAP => 0x4020,
            Vmcs::CTRL_PLE_WINDOW => 0x4022,
            Vmcs::RO_INSTR_ERROR => 0x4400,
            Vmcs::RO_EXIT_REASON => 0x4402,
            Vmcs::RO_VMEXIT_IRQ_INFO => 0x4404,
            Vmcs::RO_VMEXIT_IRQ_ERROR => 0x4406,
            Vmcs::RO_IDT_VECTOR_INFO => 0x4408,
            Vmcs::RO_IDT_VECTOR_ERROR => 0x440a,
            Vmcs::RO_VMEXIT_INSTR_LEN => 0x440c,
            Vmcs::RO_VMX_INSTR_INFO => 0x440e,
            Vmcs::GUEST_ES_LIMIT => 0x4800,
            Vmcs::GUEST_CS_LIMIT => 0x4802,
            Vmcs::GUEST_SS_LIMIT => 0x4804,
            Vmcs::GUEST_DS_LIMIT => 0x4806,
            Vmcs::GUEST_FS_LIMIT => 0x4808,
            Vmcs::GUEST_GS_LIMIT => 0x480a,
            Vmcs::GUEST_LDTR_LIMIT => 0x480c,
            Vmcs::GUEST_TR_LIMIT => 0x480e,
            Vmcs::GUEST_GDTR_LIMIT => 0x4810,
            Vmcs::GUEST_IDTR_LIMIT => 0x4812,
            Vmcs::GUEST_ES_AR => 0x4814,
            Vmcs::GUEST_CS_AR => 0x4816,
            Vmcs::GUEST_SS_AR => 0x4818,
            Vmcs::GUEST_DS_AR => 0x481a,
            Vmcs::GUEST_FS_AR => 0x481c,
            Vmcs::GUEST_GS_AR => 0x481e,
            Vmcs::GUEST_LDTR_AR => 0x4820,
            Vmcs::GUEST_TR_AR => 0x4822,
            Vmcs::GUEST_IGNORE_IRQ => 0x4824,
            Vmcs::GUEST_ACTIVITY_STATE => 0x4826,
            Vmcs::GUEST_SMBASE => 0x4828,
            Vmcs::GUEST_IA32_SYSENTER_CS => 0x482a,
            Vmcs::GUEST_VMX_TIMER_VALUE => 0x482e,
            Vmcs::HOST_IA32_SYSENTER_CS => 0x4c00,
            Vmcs::CTRL_CR0_MASK => 0x6000,
            Vmcs::CTRL_CR4_MASK => 0x6002,
            Vmcs::CTRL_CR0_SHADOW => 0x6004,
            Vmcs::CTRL_CR4_SHADOW => 0x6006,
            Vmcs::CTRL_CR3_VALUE0 => 0x6008,
            Vmcs::CTRL_CR3_VALUE1 => 0x600a,
            Vmcs::CTRL_CR3_VALUE2 => 0x600c,
            Vmcs::CTRL_CR3_VALUE3 => 0x600e,
            Vmcs::RO_EXIT_QUALIFIC => 0x6400,
            Vmcs::RO_IO_RCX => 0x6402,
            Vmcs::RO_IO_RSI => 0x6404,
            Vmcs::RO_IO_RDI => 0x6406,
            Vmcs::RO_IO_RIP => 0x6408,
            Vmcs::RO_GUEST_LIN_ADDR => 0x640a,
            Vmcs::GUEST_CR0 => 0x6800,
            Vmcs::GUEST_CR3 => 0x6802,
            Vmcs::GUEST_CR4 => 0x6804,
            Vmcs::GUEST_ES_BASE => 0x6806,
            Vmcs::GUEST_CS_BASE => 0x6808,
            Vmcs::GUEST_SS_BASE => 0x680a,
            Vmcs::GUEST_DS_BASE => 0x680c,
            Vmcs::GUEST_FS_BASE => 0x680e,
            Vmcs::GUEST_GS_BASE => 0x6810,
            Vmcs::GUEST_LDTR_BASE => 0x6812,
            Vmcs::GUEST_TR_BASE => 0x6814,
            Vmcs::GUEST_GDTR_BASE => 0x6816,
            Vmcs::GUEST_IDTR_BASE => 0x6818,
            Vmcs::GUEST_DR7 => 0x681a,
            Vmcs::GUEST_RSP => 0x681c,
            Vmcs::GUEST_RIP => 0x681e,
            Vmcs::GUEST_RFLAGS => 0x6820,
            Vmcs::GUEST_DEBUG_EXC => 0x6822,
            Vmcs::GUEST_SYSENTER_ESP => 0x6824,
            Vmcs::GUEST_SYSENTER_EIP => 0x6826,
            Vmcs::HOST_CR0 => 0x6c00,
            Vmcs::HOST_CR3 => 0x6c02,
            Vmcs::HOST_CR4 => 0x6c04,
            Vmcs::HOST_FS_BASE => 0x6c06,
            Vmcs::HOST_GS_BASE => 0x6c08,
            Vmcs::HOST_TR_BASE => 0x6c0a,
            Vmcs::HOST_GDTR_BASE => 0x6c0c,
            Vmcs::HOST_IDTR_BASE => 0x6c0e,
            Vmcs::HOST_IA32_SYSENTER_ESP => 0x6c10,
            Vmcs::HOST_IA32_SYSENTER_EIP => 0x6c12,
            Vmcs::HOST_RSP => 0x6c14,
            Vmcs::HOST_RIP => 0x6c16,
            Vmcs::MAX => 0x7000,
        }
    }

    /// The ABI constant handed to the framework.
    pub fn value(self) -> (v: u32)
        ensures
            v == self.spec_value(),
    {
        match self {
            Vmcs::VPID => 0x0,
            Vmcs::CTRL_POSTED_INT_N_VECTOR => 0x2,
            Vmcs::CTRL_EPTP_INDEX => 0x4,
            Vmcs::GUEST_ES => 0x800,
            Vmcs::GUEST_CS => 0x802,
            Vmcs::GUEST_SS => 0x804,
            Vmcs::GUEST_DS => 0x806,
            Vmcs::GUEST_FS => 0x808,
            Vmcs::GUEST_GS => 0x80a,
            Vmcs::GUEST_LDTR => 0x80c,
            Vmcs::GUEST_TR => 0x80e,
            Vmcs::GUEST_INT_STATUS => 0x810,
            Vmcs::GUESTPML_INDEX => 0x812,
            Vmcs::HOST_ES => 0xc00,
            Vmcs::HOST_CS => 0xc02,
            Vmcs::HOST_SS => 0xc04,
            Vmcs::HOST_DS => 0xc06,
            Vmcs::HOST_FS => 0xc08,
            Vmcs::HOST_GS => 0xc0a,
            Vmcs::HOST_TR => 0xc0c,
            Vmcs::CTRL_IO_BITMAP_A => 0x2000,
            Vmcs::CTRL_IO_BITMAP_B => 0x2002,
            Vmcs::CTRL_MSR_BITMAPS => 0x2004,
            Vmcs::CTRL_VMEXIT_MSR_STORE_ADDR => 0x2006,
            Vmcs::CTRL_VMEXIT_MSR_LOAD_ADDR => 0x2008,
            Vmcs::CTRL_VMENTRY_MSR_LOAD_ADDR => 0x200a,
            Vmcs::CTRL_EXECUTIVE_VMCS_PTR => 0x200c,
            Vmcs::CTRL_PML_ADDR => 0x200e,
            Vmcs::CTRL_TSC_OFFSET => 0x2010,
            Vmcs::CTRL_VIRTUAL_APIC => 0x2012,
            Vmcs::CTRL_APIC_ACCESS => 0x2014,
            Vmcs::CTRL_POSTED_INT_DESC_ADDR => 0x2016,
            Vmcs::CTRL_VMFUNC_CTRL => 0x2018,
            Vmcs::CTRL_EPTP => 0x201a,
            Vmcs::CTRL_EOI_EXIT_BITMAP_0 => 0x201c,
            Vmcs::CTRL_EOI_EXIT_BITMAP_1 => 0x201e,
            Vmcs::CTRL_EOI_EXIT_BITMAP_2 => 0x2020,
            Vmcs::CTRL_EOI_EXIT_BITMAP_3 => 0x2022,
            Vmcs::CTRL_EPTP_LIST_ADDR => 0x2024,
            Vmcs::CTRL_VMREAD_BITMAP_ADDR => 0x2026,
            Vmcs::CTRL_VMWRITE_BITMAP_ADDR => 0x2028,
            Vmcs::CTRL_VIRT_EXC_INFO_ADDR => 0x202a,
            Vmcs::CTRL_XSS_EXITING_BITMAP => 0x202c,
            Vmcs::CTRL_ENCLS_EXITING_BITMAP => 0x202e,
            Vmcs::CTRL_TSC_MULTIPLIER => 0x2032,
            Vmcs::GUEST_PHYSICAL_ADDRESS => 0x2400,
            Vmcs::GUEST_LINK_POINTER => 0x2800,
            Vmcs::GUEST_IA32_DEBUGCTL => 0x2802,
            Vmcs::GUEST_IA32_PAT => 0x2804,
            Vmcs::GUEST_IA32_EFER => 0x2806,
            Vmcs::GUEST_IA32_PERF_GLOBAL_CTRL => 0x2808,
            Vmcs::GUEST_PDPTE0 => 0x280a,
            Vmcs::GUEST_PDPTE1 => 0x280c,
            Vmcs::GUEST_PDPTE2 => 0x280e,
            Vmcs::GUEST_PDPTE3 => 0x2810,
            Vmcs::GUEST_IA32_BNDCFGS => 0x2812,
            Vmcs::HOST_IA32_PAT => 0x2c00,
            Vmcs::HOST_IA32_EFER => 0x2c02,
            Vmcs::HOST_IA32_PERF_GLOBAL_CTRL => 0x2c04,
            Vmcs::CTRL_PIN_BASED => 0x4000,
            Vmcs::CTRL_CPU_BASED => 0x4002,
            Vmcs::CTRL_EXC_BITMAP => 0x4004,
            Vmcs::CTRL_PF_ERROR_MASK => 0x4006,
            Vmcs::CTRL_PF_ERROR_MATCH => 0x4008,
            Vmcs::CTRL_CR3_COUNT => 0x400a,
            Vmcs::CTRL_VMEXIT_CONTROLS => 0x400c,
            Vmcs::CTRL_VMEXIT_MSR_STORE_COUNT => 0x400e,
            Vmcs::CTRL_VMEXIT_MSR_LOAD_COUNT => 0x4010,
            Vmcs::CTRL_VMENTRY_CONTROLS => 0x4012,
            Vmcs::CTRL_VMENTRY_MSR_LOAD_COUNT => 0x4014,
            Vmcs::CTRL_VMENTRY_IRQ_INFO => 0x4016,
            Vmcs::CTRL_VMENTRY_EXC_ERROR => 0x4018,
            Vmcs::CTRL_VMENTRY_INSTR_LEN => 0x401a,
            Vmcs::CTRL_TPR_THRESHOLD => 0x401c,
            Vmcs::CTRL_CPU_BASED2 => 0x401e,
            Vmcs::CTRL_PLE_GAP => 0x4020,
            Vmcs::CTRL_PLE_WINDOW => 0x4022,
            Vmcs::RO_INSTR_ERROR => 0x4400,
            Vmcs::RO_EXIT_REASON => 0x4402,
            Vmcs::RO_VMEXIT_IRQ_INFO => 0x4404,
            Vmcs::RO_VMEXIT_IRQ_ERROR => 0x4406,
            Vmcs::RO_IDT_VECTOR_INFO => 0x4408,
            Vmcs::RO_IDT_VECTOR_ERROR => 0x440a,
            Vmcs::RO_VMEXIT_INSTR_LEN => 0x440c,
            Vmcs::RO_VMX_INSTR_INFO => 0x440e,
            Vmcs::GUEST_ES_LIMIT => 0x4800,
            Vmcs::GUEST_CS_LIMIT => 0x4802,
            Vmcs::GUEST_SS_LIMIT => 0x4804,
            Vmcs::GUEST_DS_LIMIT => 0x4806,
            Vmcs::GUEST_FS_LIMIT => 0x4808,
            Vmcs::GUEST_GS_LIMIT => 0x480a,
            Vmcs::GUEST_LDTR_LIMIT => 0x480c,
            Vmcs::GUEST_TR_LIMIT => 0x480e,
            Vmcs::GUEST_GDTR_LIMIT => 0x4810,
            Vmcs::GUEST_IDTR_LIMIT => 0x4812,
            Vmcs::GUEST_ES_AR => 0x4814,
            Vmcs::GUEST_CS_AR => 0x4816,
            Vmcs::GUEST_SS_AR => 0x4818,
            Vmcs::GUEST_DS_AR => 0x481a,
            Vmcs::GUEST_FS_AR => 0x481c,
            Vmcs::GUEST_GS_AR => 0x481e,
            Vmcs::GUEST_LDTR_AR => 0x4820,
            Vmcs::GUEST_TR_AR => 0x4822,
            Vmcs::GUEST_IGNORE_IRQ => 0x4824,
            Vmcs::GUEST_ACTIVITY_STATE => 0x4826,
            Vmcs::GUEST_SMBASE => 0x4828,
            Vmcs::GUEST_IA32_SYSENTER_CS => 0x482a,
            Vmcs::GUEST_VMX_TIMER_VALUE => 0x482e,
            Vmcs::HOST_IA32_SYSENTER_CS => 0x4c00,
            Vmcs::CTRL_CR0_MASK => 0x6000,
            Vmcs::CTRL_CR4_MASK => 0x6002,
            Vmcs::CTRL_CR0_SHADOW => 0x6004,
            Vmcs::CTRL_CR4_SHADOW => 0x6006,
            Vmcs::CTRL_CR3_VALUE0 => 0x6008,
            Vmcs::CTRL_CR3_VALUE1 => 0x600a,
            Vmcs::CTRL_CR3_VALUE2 => 0x600c,
            Vmcs::CTRL_CR3_VALUE3 => 0x600e,
            Vmcs::RO_EXIT_QUALIFIC => 0x6400,
            Vmcs::RO_IO_RCX => 0x6402,
            Vmcs::RO_IO_RSI => 0x6404,
            Vmcs::RO_IO_RDI => 0x6406,
            Vmcs::RO_IO_RIP => 0x6408,
            Vmcs::RO_GUEST_LIN_ADDR => 0x640a,
            Vmcs::GUEST_CR0 => 0x6800,
            Vmcs::GUEST_CR3 => 0x6802,
            Vmcs::GUEST_CR4 => 0x6804,
            Vmcs::GUEST_ES_BASE => 0x6806,
            Vmcs::GUEST_CS_BASE => 0x6808,
            Vmcs::GUEST_SS_BASE => 0x680a,
            Vmcs::GUEST_DS_BASE => 0x680c,
            Vmcs::GUEST_FS_BASE => 0x680e,
            Vmcs::GUEST_GS_BASE => 0x6810,
            Vmcs::GUEST_LDTR_BASE => 0x6812,
            Vmcs::GUEST_TR_BASE => 0x6814,
            Vmcs::GUEST_GDTR_BASE => 0x6816,
            Vmcs::GUEST_IDTR_BASE => 0x6818,
            Vmcs::GUEST_DR7 => 0x681a,
            Vmcs::GUEST_RSP => 0x681c,
            Vmcs::GUEST_RIP => 0x681e,
            Vmcs::GUEST_RFLAGS => 0x6820,
            Vmcs::GUEST_DEBUG_EXC => 0x6822,
            Vmcs::GUEST_SYSENTER_ESP => 0x6824,
            Vmcs::GUEST_SYSENTER_EIP => 0x6826,
            Vmcs::HOST_CR0 => 0x6c00,
            Vmcs::HOST_CR3 => 0x6c02,
            Vmcs::HOST_CR4 => 0x6c04,
            Vmcs::HOST_FS_BASE => 0x6c06,
            Vmcs::HOST_GS_BASE => 0x6c08,
            Vmcs::HOST_TR_BASE => 0x6c0a,
            Vmcs::HOST_GDTR_BASE => 0x6c0c,
            Vmcs::HOST_IDTR_BASE => 0x6c0e,
            Vmcs::HOST_IA32_SYSENTER_ESP => 0x6c10,
            Vmcs::HOST_IA32_SYSENTER_EIP => 0x6c12,
            Vmcs::HOST_RSP => 0x6c14,
            Vmcs::HOST_RIP => 0x6c16,
            Vmcs::MAX => 0x7000,
        }
    }

    /// The identifier a raw constant decodes to, if any.
    pub open spec fn spec_from_value(v: u32) -> Option<Vmcs> {
        if v == 0x0 {
            Some(Vmcs::VPID)
        } else if v == 0x2 {
            Some(Vmcs::CTRL_POSTED_INT_N_VECTOR)
        } else if v == 0x4 {
            Some(Vmcs::CTRL_EPTP_INDEX)
        } else if v == 0x800 {
            Some(Vmcs::GUEST_ES)
        } else if v == 0x802 {
            Some(Vmcs::GUEST_CS)
        } else if v == 0x804 {
            Some(Vmcs::GUEST_SS)
        } else if v == 0x806 {
            Some(Vmcs::GUEST_DS)
        } else if v == 0x808 {
            Some(Vmcs::GUEST_FS)
        } else if v == 0x80a {
            Some(Vmcs::GUEST_GS)
        } else if v == 0x80c {
            Some(Vmcs::GUEST_LDTR)
        } else if v == 0x80e {
            Some(Vmcs::GUEST_TR)
        } else if v == 0x810 {
            Some(Vmcs::GUEST_INT_STATUS)
        } else if v == 0x812 {
            Some(Vmcs::GUESTPML_INDEX)
        } else if v == 0xc00 {
            Some(Vmcs::HOST_ES)
        } else if v == 0xc02 {
            Some(Vmcs::HOST_CS)
        } else if v == 0xc04 {
            Some(Vmcs::HOST_SS)
        } else if v == 0xc06 {
            Some(Vmcs::HOST_DS)
        } else if v == 0xc08 {
            Some(Vmcs::HOST_FS)
        } else if v == 0xc0a {
            Some(Vmcs::HOST_GS)
        } else if v == 0xc0c {
            Some(Vmcs::HOST_TR)
        } else if v == 0x2000 {
            Some(Vmcs::CTRL_IO_BITMAP_A)
        } else if v == 0x2002 {
            Some(Vmcs::CTRL_IO_BITMAP_B)
        } else if v == 0x2004 {
            Some(Vmcs::CTRL_MSR_BITMAPS)
        } else if v == 0x2006 {
            Some(Vmcs::CTRL_VMEXIT_MSR_STORE_ADDR)
        } else if v == 0x2008 {
            Some(Vmcs::CTRL_VMEXIT_MSR_LOAD_ADDR)
        } else if v == 0x200a {
            Some(Vmcs::CTRL_VMENTRY_MSR_LOAD_ADDR)
        } else if v == 0x200c {
            Some(Vmcs::CTRL_EXECUTIVE_VMCS_PTR)
        } else if v == 0x200e {
            Some(Vmcs::CTRL_PML_ADDR)
        } else if v == 0x2010 {
            Some(Vmcs::CTRL_TSC_OFFSET)
        } else if v == 0x2012 {
            Some(Vmcs::CTRL_VIRTUAL_APIC)
        } else if v == 0x2014 {
            Some(Vmcs::CTRL_APIC_ACCESS)
        } else if v == 0x2016 {
            Some(Vmcs::CTRL_POSTED_INT_DESC_ADDR)
        } else if v == 0x2018 {
            Some(Vmcs::CTRL_VMFUNC_CTRL)
        } else if v == 0x201a {
            Some(Vmcs::CTRL_EPTP)
        } else if v == 0x201c {
            Some(Vmcs::CTRL_EOI_EXIT_BITMAP_0)
        } else if v == 0x201e {
            Some(Vmcs::CTRL_EOI_EXIT_BITMAP_1)
        } else if v == 0x2020 {
            Some(Vmcs::CTRL_EOI_EXIT_BITMAP_2)
        } else if v == 0x2022 {
            Some(Vmcs::CTRL_EOI_EXIT_BITMAP_3)
        } else if v == 0x2024 {
            Some(Vmcs::CTRL_EPTP_LIST_ADDR)
        } else if v == 0x2026 {
            Some(Vmcs::CTRL_VMREAD_BITMAP_ADDR)
        } else if v == 0x2028 {
            Some(Vmcs::CTRL_VMWRITE_BITMAP_ADDR)
        } else if v == 0x202a {
            Some(Vmcs::CTRL_VIRT_EXC_INFO_ADDR)
        } else if v == 0x202c {
            Some(Vmcs::CTRL_XSS_EXITING_BITMAP)
        } else if v == 0x202e {
            Some(Vmcs::CTRL_ENCLS_EXITING_BITMAP)
        } else if v == 0x2032 {
            Some(Vmcs::CTRL_TSC_MULTIPLIER)
        } else if v == 0x2400 {
            Some(Vmcs::GUEST_PHYSICAL_ADDRESS)
        } else if v == 0x2800 {
            Some(Vmcs::GUEST_LINK_POINTER)
        } else if v == 0x2802 {
            Some(Vmcs::GUEST_IA32_DEBUGCTL)
        } else if v == 0x2804 {
            Some(Vmcs::GUEST_IA32_PAT)
        } else if v == 0x2806 {
            Some(Vmcs::GUEST_IA32_EFER)
        } else if v == 0x2808 {
            Some(Vmcs::GUEST_IA32_PERF_GLOBAL_CTRL)
        } else if v == 0x280a {
            Some(Vmcs::GUEST_PDPTE0)
        } else if v == 0x280c {
            Some(Vmcs::GUEST_PDPTE1)
        } else if v == 0x280e {
            Some(Vmcs::GUEST_PDPTE2)
        } else if v == 0x2810 {
            Some(Vmcs::GUEST_PDPTE3)
        } else if v == 0x2812 {
            Some(Vmcs::GUEST_IA32_BNDCFGS)
        } else if v == 0x2c00 {
            Some(Vmcs::HOST_IA32_PAT)
        } else if v == 0x2c02 {
            Some(Vmcs::HOST_IA32_EFER)
        } else if v == 0x2c04 {
            Some(Vmcs::HOST_IA32_PERF_GLOBAL_CTRL)
        } else if v == 0x4000 {
            Some(Vmcs::CTRL_PIN_BASED)
        } else if v == 0x4002 {
            Some(Vmcs::CTRL_CPU_BASED)
        } else if v == 0x4004 {
            Some(Vmcs::CTRL_EXC_BITMAP)
        } else if v == 0x4006 {
            Some(Vmcs::CTRL_PF_ERROR_MASK)
        } else if v == 0x4008 {
            Some(Vmcs::CTRL_PF_ERROR_MATCH)
        } else if v == 0x400a {
            Some(Vmcs::CTRL_CR3_COUNT)
        } else if v == 0x400c {
            Some(Vmcs::CTRL_VMEXIT_CONTROLS)
        } else if v == 0x400e {
            Some(Vmcs::CTRL_VMEXIT_MSR_STORE_COUNT)
        } else if v == 0x4010 {
            Some(Vmcs::CTRL_VMEXIT_MSR_LOAD_COUNT)
        } else if v == 0x4012 {
            Some(Vmcs::CTRL_VMENTRY_CONTROLS)
        } else if v == 0x4014 {
            Some(Vmcs::CTRL_VMENTRY_MSR_LOAD_COUNT)
        } else if v == 0x4016 {
            Some(Vmcs::CTRL_VMENTRY_IRQ_INFO)
        } else if v == 0x4018 {
            Some(Vmcs::CTRL_VMENTRY_EXC_ERROR)
        } else if v == 0x401a {
            Some(Vmcs::CTRL_VMENTRY_INSTR_LEN)
        } else if v == 0x401c {
            Some(Vmcs::CTRL_TPR_THRESHOLD)
        } else if v == 0x401e {
            Some(Vmcs::CTRL_CPU_BASED2)
        } else if v == 0x4020 {
            Some(Vmcs::CTRL_PLE_GAP)
        } else if v == 0x4022 {
            Some(Vmcs::CTRL_PLE_WINDOW)
        } else if v == 0x4400 {
            Some(Vmcs::RO_INSTR_ERROR)
        } else if v == 0x4402 {
            Some(Vmcs::RO_EXIT_REASON)
        } else if v == 0x4404 {
            Some(Vmcs::RO_VMEXIT_IRQ_INFO)
        } else if v == 0x4406 {
            Some(Vmcs::RO_VMEXIT_IRQ_ERROR)
        } else if v == 0x4408 {
            Some(Vmcs::RO_IDT_VECTOR_INFO)
        } else if v == 0x440a {
            Some(Vmcs::RO_IDT_VECTOR_ERROR)
        } else if v == 0x440c {
            Some(Vmcs::RO_VMEXIT_INSTR_LEN)
        } else if v == 0x440e {
            Some(Vmcs::RO_VMX_INSTR_INFO)
        } else if v == 0x4800 {
            Some(Vmcs::GUEST_ES_LIMIT)
        } else if v == 0x4802 {
            Some(Vmcs::GUEST_CS_LIMIT)
        } else if v == 0x4804 {
            Some(Vmcs::GUEST_SS_LIMIT)
        } else if v == 0x4806 {
            Some(Vmcs::GUEST_DS_LIMIT)
        } else if v == 0x4808 {
            Some(Vmcs::GUEST_FS_LIMIT)
        } else if v == 0x480a {
            Some(Vmcs::GUEST_GS_LIMIT)
        } else if v == 0x480c {
            Some(Vmcs::GUEST_LDTR_LIMIT)
        } else if v == 0x480e {
            Some(Vmcs::GUEST_TR_LIMIT)
        } else if v == 0x4810 {
            Some(Vmcs::GUEST_GDTR_LIMIT)
        } else if v == 0x4812 {
            Some(Vmcs::GUEST_IDTR_LIMIT)
        } else if v == 0x4814 {
            Some(Vmcs::GUEST_ES_AR)
        } else if v == 0x4816 {
            Some(Vmcs::GUEST_CS_AR)
        } else if v == 0x4818 {
            Some(Vmcs::GUEST_SS_AR)
        } else if v == 0x481a {
            Some(Vmcs::GUEST_DS_AR)
        } else if v == 0x481c {
            Some(Vmcs::GUEST_FS_AR)
        } else if v == 0x481e {
            Some(Vmcs::GUEST_GS_AR)
        } else if v == 0x4820 {
            Some(Vmcs::GUEST_LDTR_AR)
        } else if v == 0x4822 {
            Some(Vmcs::GUEST_TR_AR)
        } else if v == 0x4824 {
            Some(Vmcs::GUEST_IGNORE_IRQ)
        } else if v == 0x4826 {
            Some(Vmcs::GUEST_ACTIVITY_STATE)
        } else if v == 0x4828 {
            Some(Vmcs::GUEST_SMBASE)
        } else if v == 0x482a {
            Some(Vmcs::GUEST_IA32_SYSENTER_CS)
        } else if v == 0x482e {
            Some(Vmcs::GUEST_VMX_TIMER_VALUE)
        } else if v == 0x4c00 {
            Some(Vmcs::HOST_IA32_SYSENTER_CS)
        } else if v == 0x6000 {
            Some(Vmcs::CTRL_CR0_MASK)
        } else if v == 0x6002 {
            Some(Vmcs::CTRL_CR4_MASK)
        } else if v == 0x6004 {
            Some(Vmcs::CTRL_CR0_SHADOW)
        } else if v == 0x6006 {
            Some(Vmcs::CTRL_CR4_SHADOW)
        } else if v == 0x6008 {
            Some(Vmcs::CTRL_CR3_VALUE0)
        } else if v == 0x600a {
            Some(Vmcs::CTRL_CR3_VALUE1)
        } else if v == 0x600c {
            Some(Vmcs::CTRL_CR3_VALUE2)
        } else if v == 0x600e {
            Some(Vmcs::CTRL_CR3_VALUE3)
        } else if v == 0x6400 {
            Some(Vmcs::RO_EXIT_QUALIFIC)
        } else if v == 0x6402 {
            Some(Vmcs::RO_IO_RCX)
        } else if v == 0x6404 {
            Some(Vmcs::RO_IO_RSI)
        } else if v == 0x6406 {
            Some(Vmcs::RO_IO_RDI)
        } else if v == 0x6408 {
            Some(Vmcs::RO_IO_RIP)
        } else if v == 0x640a {
            Some(Vmcs::RO_GUEST_LIN_ADDR)
        } else if v == 0x6800 {
            Some(Vmcs::GUEST_CR0)
        } else if v == 0x6802 {
            Some(Vmcs::GUEST_CR3)
        } else if v == 0x6804 {
            Some(Vmcs::GUEST_CR4)
        } else if v == 0x6806 {
            Some(Vmcs::GUEST_ES_BASE)
        } else if v == 0x6808 {
            Some(Vmcs::GUEST_CS_BASE)
        } else if v == 0x680a {
            Some(Vmcs::GUEST_SS_BASE)
        } else if v == 0x680c {
            Some(Vmcs::GUEST_DS_BASE)
        } else if v == 0x680e {
            Some(Vmcs::GUEST_FS_BASE)
        } else if v == 0x6810 {
            Some(Vmcs::GUEST_GS_BASE)
        } else if v == 0x6812 {
            Some(Vmcs::GUEST_LDTR_BASE)
        } else if v == 0x6814 {
            Some(Vmcs::GUEST_TR_BASE)
        } else if v == 0x6816 {
            Some(Vmcs::GUEST_GDTR_BASE)
        } else if v == 0x6818 {
            Some(Vmcs::GUEST_IDTR_BASE)
        } else if v == 0x681a {
            Some(Vmcs::GUEST_DR7)
        } else if v == 0x681c {
            Some(Vmcs::GUEST_RSP)
        } else if v == 0x681e {
            Some(Vmcs::GUEST_RIP)
        } else if v == 0x6820 {
            Some(Vmcs::GUEST_RFLAGS)
        } else if v == 0x6822 {
            Some(Vmcs::GUEST_DEBUG_EXC)
        } else if v == 0x6824 {
            Some(Vmcs::GUEST_SYSENTER_ESP)
        } else if v == 0x6826 {
            Some(Vmcs::GUEST_SYSENTER_EIP)
        } else if v == 0x6c00 {
            Some(Vmcs::HOST_CR0)
        } else if v == 0x6c02 {
            Some(Vmcs::HOST_CR3)
        } else if v == 0x6c04 {
            Some(Vmcs::HOST_CR4)
        } else if v == 0x6c06 {
            Some(Vmcs::HOST_FS_BASE)
        } else if v == 0x6c08 {
            Some(Vmcs::HOST_GS_BASE)
        } else if v == 0x6c0a {
            Some(Vmcs::HOST_TR_BASE)
        } else if v == 0x6c0c {
            Some(Vmcs::HOST_GDTR_BASE)
        } else if v == 0x6c0e {
            Some(Vmcs::HOST_IDTR_BASE)
        } else if v == 0x6c10 {
            Some(Vmcs::HOST_IA32_SYSENTER_ESP)
        } else if v == 0x6c12 {
            Some(Vmcs::HOST_IA32_SYSENTER_EIP)
        } else if v == 0x6c14 {
            Some(Vmcs::HOST_RSP)
        } else if v == 0x6c16 {
            Some(Vmcs::HOST_RIP)
        } else if v == 0x7000 {
            Some(Vmcs::MAX)
        } else {
            None
        }
    }
}

/// The basic exit reasons a guest exit reports in the read-only
/// `Vmcs::RO_EXIT_REASON` field.
#[allow(non_camel_case_types)]
#[non_exhaustive]
#[derive(Debug, Copy, Clone, PartialEq, Eq, Structural)]
pub enum Reason {
    EXC_NMI,
    IRQ,
    TRIPLE_FAULT,
    INIT,
    SIPI,
    IO_SMI,
    OTHER_SMI,
    IRQ_WND,
    VIRTUAL_NMI_WND,
    TASK,
    CPUID,
    GETSEC,
    HLT,
    INVD,
    INVLPG,
    RDPMC,
    RDTSC,
    RSM,
    VMCALL,
    VMCLEAR,
    VMLAUNCH,
    VMPTRLD,
    VMPTRST,
    VMREAD,
    VMRESUME,
    VMWRITE,
    VMOFF,
    VMON,
    MOV_CR,
    MOV_DR,
    IO,
    RDMSR,
    WRMSR,
    VMENTRY_GUEST,
    VMENTRY_MSR,
    MWAIT,
    MTF,
    MONITOR,
    PAUSE,
    VMENTRY_MC,
    TPR_THRESHOLD,
    APIC_ACCESS,
    VIRTUALIZED_EOI,
    GDTR_IDTR,
    LDTR_TR,
    EPT_VIOLATION,
    EPT_MISCONFIG,
    EPT_INVEPT,
    RDTSCP,
    VMX_TIMER_EXPIRED,
    INVVPID,
    WBINVD,
    XSETBV,
    APIC_WRITE,
    RDRAND,
    INVPCID,
    VMFUNC,
    RDSEED,
    XSAVES,
    XRSTORS,
}

impl Reason {
    /// The ABI constant this identifier encodes to.
    pub open spec fn spec_value(self) -> u32 {
        match self {
            Reason::EXC_NMI => 0,
            Reason::IRQ => 1,
            Reason::TRIPLE_FAULT => 2,
            Reason::INIT => 3,
            Reason::SIPI => 4,
            Reason::IO_SMI => 5,
            Reason::OTHER_SMI => 6,
            Reason::IRQ_WND => 7,
            Reason::VIRTUAL_NMI_WND => 8,
            Reason::TASK => 9,
            Reason::CPUID => 10,
            Reason::GETSEC => 11,
            Reason::HLT => 12,
            Reason::INVD => 13,
            Reason::INVLPG => 14,
            Reason::RDPMC => 15,
            Reason::RDTSC => 16,
            Reason::RSM => 17,
            Reason::VMCALL => 18,
            Reason::VMCLEAR => 19,
            Reason::VMLAUNCH => 20,
            Reason::VMPTRLD => 21,
            Reason::VMPTRST => 22,
            Reason::VMREAD => 23,
            Reason::VMRESUME => 24,
            Reason::VMWRITE => 25,
            Reason::VMOFF => 26,
            Reason::VMON => 27,
            Reason::MOV_CR => 28,
            Reason::MOV_DR => 29,
            Reason::IO => 30,
            Reason::RDMSR => 31,
            Reason::WRMSR => 32,
            Reason::VMENTRY_GUEST => 33,
            Reason::VMENTRY_MSR => 34,
            Reason::MWAIT => 36,
            Reason::MTF => 37,
            Reason::MONITOR => 39,
            Reason::PAUSE => 40,
            Reason::VMENTRY_MC => 41,
            Reason::TPR_THRESHOLD => 43,
            Reason::APIC_ACCESS => 44,
            Reason::VIRTUALIZED_EOI => 45,
            Reason::GDTR_IDTR => 46,
            Reason::LDTR_TR => 47,
            Reason::EPT_VIOLATION => 48,
            Reason::EPT_MISCONFIG => 49,
            Reason::EPT_INVEPT => 50,
            Reason::RDTSCP => 51,
            Reason::VMX_TIMER_EXPIRED => 52,
            Reason::INVVPID => 53,
            Reason::WBINVD => 54,
            Reason::XSETBV => 55,
            Reason::APIC_WRITE => 56,
            Reason::RDRAND => 57,
            Reason::INVPCID => 58,
            Reason::VMFUNC => 59,
            Reason::RDSEED => 61,
            Reason::XSAVES => 63,
            Reason::XRSTORS => 64,
        }
    }

    /// The ABI constant handed to the framework.
    pub fn value(self) -> (v: u32)
        ensures
            v == self.spec_value(),
    {
        match self {
            Reason::EXC_NMI => 0,
            Reason::IRQ => 1,
            Reason::TRIPLE_FAULT => 2,
            Reason::INIT => 3,
            Reason::SIPI => 4,
            Reason::IO_SMI => 5,
            Reason::OTHER_SMI => 6,
            Reason::IRQ_WND => 7,
            Reason::VIRTUAL_NMI_WND => 8,
            Reason::TASK => 9,
            Reason::CPUID => 10,
            Reason::GETSEC => 11,
            Reason::HLT => 12,
            Reason::INVD => 13,
            Reason::INVLPG => 14,
            Reason::RDPMC => 15,
            Reason::RDTSC => 16,
            Reason::RSM => 17,
            Reason::VMCALL => 18,
            Reason::VMCLEAR => 19,
            Reason::VMLAUNCH => 20,
            Reason::VMPTRLD => 21,
            Reason::VMPTRST => 22,
            Reason::VMREAD => 23,
            Reason::VMRESUME => 24,
            Reason::VMWRITE => 25,
            Reason::VMOFF => 26,
            Reason::VMON => 27,
            Reason::MOV_CR => 28,
            Reason::MOV_DR => 29,
            Reason::IO => 30,
            Reason::RDMSR => 31,
            Reason::WRMSR => 32,
            Reason::VMENTRY_GUEST => 33,
            Reason::VMENTRY_MSR => 34,
            Reason::MWAIT => 36,
            Reason::MTF => 37,
            Reason::MONITOR => 39,
            Reason::PAUSE => 40,
            Reason::VMENTRY_MC => 41,
            Reason::TPR_THRESHOLD => 43,
            Reason::APIC_ACCESS => 44,
            Reason::VIRTUALIZED_EOI => 45,
            Reason::GDTR_IDTR => 46,
            Reason::LDTR_TR => 47,
            Reason::EPT_VIOLATION => 48,
            Reason::EPT_MISCONFIG => 49,
            Reason::EPT_INVEPT => 50,
            Reason::RDTSCP => 51,
            Reason::VMX_TIMER_EXPIRED => 52,
            Reason::INVVPID => 53,
            Reason::WBINVD => 54,
            Reason::XSETBV => 55,
            Reason::APIC_WRITE => 56,
            Reason::RDRAND => 57,
            Reason::INVPCID => 58,
            Reason::VMFUNC => 59,
            Reason::RDSEED => 61,
            Reason::XSAVES => 63,
            Reason::XRSTORS => 64,
        }
    }

    /// The identifier a raw constant decodes to, if any.
    pub open spec fn spec_from_value(v: u32) -> Option<Reason> {
        if v == 0 {
            Some(Reason::EXC_NMI)
        } else if v == 1 {
            Some(Reason::IRQ)
        } else if v == 2 {
            Some(Reason::TRIPLE_FAULT)
        } else if v == 3 {
            Some(Reason::INIT)
        } else if v == 4 {
            Some(Reason::SIPI)
        } else if v == 5 {
            Some(Reason::IO_SMI)
        } else if v == 6 {
            Some(Reason::OTHER_SMI)
        } else if v == 7 {
            Some(Reason::IRQ_WND)
        } else if v == 8 {
            Some(Reason::VIRTUAL_NMI_WND)
        } else if v == 9 {
            Some(Reason::TASK)
        } else if v == 10 {
            Some(Reason::CPUID)
        } else if v == 11 {
            Some(Reason::GETSEC)
        } else if v == 12 {
            Some(Reason::HLT)
        } else if v == 13 {
            Some(Reason::INVD)
        } else if v == 14 {
            Some(Reason::INVLPG)
        } else if v == 15 {
            Some(Reason::RDPMC)
        } else if v == 16 {
            Some(Reason::RDTSC)
        } else if v == 17 {
            Some(Reason::RSM)
        } else if v == 18 {
            Some(Reason::VMCALL)
        } else if v == 19 {
            Some(Reason::VMCLEAR)
        } else if v == 20 {
            Some(Reason::VMLAUNCH)
        } else if v == 21 {
            Some(Reason::VMPTRLD)
        } else if v == 22 {
            Some(Reason::VMPTRST)
        } else if v == 23 {
            Some(Reason::VMREAD)
        } else if v == 24 {
            Some(Reason::VMRESUME)
        } else if v == 25 {
            Some(Reason::VMWRITE)
        } else if v == 26 {
            Some(Reason::VMOFF)
        } else if v == 27 {
            Some(Reason::VMON)
        } else if v == 28 {
            Some(Reason::MOV_CR)
        } else if v == 29 {
            Some(Reason::MOV_DR)
        } else if v == 30 {
            Some(Reason::IO)
        } else if v == 31 {
            Some(Reason::RDMSR)
        } else if v == 32 {
            Some(Reason::WRMSR)
        } else if v == 33 {
            Some(Reason::VMENTRY_GUEST)
        } else if v == 34 {
            Some(Reason::VMENTRY_MSR)
        } else if v == 36 {
            Some(Reason::MWAIT)
        } else if v == 37 {
            Some(Reason::MTF)
        } else if v == 39 {
            Some(Reason::MONITOR)
        } else if v == 40 {
            Some(Reason::PAUSE)
        } else if v == 41 {
            Some(Reason::VMENTRY_MC)
        } else if v == 43 {
            Some(Reason::TPR_THRESHOLD)
        } else if v == 44 {
            Some(Reason::APIC_ACCESS)
        } else if v == 45 {
            Some(Reason::VIRTUALIZED_EOI)
        } else if v == 46 {
            Some(Reason::GDTR_IDTR)
        } else if v == 47 {
            Some(Reason::LDTR_TR)
        } else if v == 48 {
            Some(Reason::EPT_VIOLATION)
        } else if v == 49 {
            Some(Reason::EPT_MISCONFIG)
        } else if v == 50 {
            Some(Reason::EPT_INVEPT)
        } else if v == 51 {
            Some(Reason::RDTSCP)
        } else if v == 52 {
            Some(Reason::VMX_TIMER_EXPIRED)
        } else if v == 53 {
            Some(Reason::INVVPID)
        } else if v == 54 {
            Some(Reason::WBINVD)
        } else if v == 55 {
            Some(Reason::XSETBV)
        } else if v == 56 {
            Some(Reason::APIC_WRITE)
        } else if v == 57 {
            Some(Reason::RDRAND)
        } else if v == 58 {
            Some(Reason::INVPCID)
        } else if v == 59 {
            Some(Reason::VMFUNC)
        } else if v == 61 {
            Some(Reason::RDSEED)
        } else if v == 63 {
            Some(Reason::XSAVES)
        } else if v == 64 {
            Some(Reason::XRSTORS)
        } else {
            None
        }
    }
    /// Decodes the raw number a guest exit reported in the read-only
    /// exit-reason VMCS field; `None` for a number outside the table.
    pub fn from_value(v: u32) -> (r: Option<Reason>)
        ensures
            r == Reason::spec_from_value(v),
    {
        match v {
            0 => Some(Reason::EXC_NMI),
            1 => Some(Reason::IRQ),
            2 => Some(Reason::TRIPLE_FAULT),
            3 => Some(Reason::INIT),
            4 => Some(Reason::SIPI),
            5 => Some(Reason::IO_SMI),
            6 => Some(Reason::OTHER_SMI),
            7 => Some(Reason::IRQ_WND),
            8 => Some(Reason::VIRTUAL_NMI_WND),
            9 => Some(Reason::TASK),
            10 => Some(Reason::CPUID),
            11 => Some(Reason::GETSEC),
            12 => Some(Reason::HLT),
            13 => Some(Reason::INVD),
            14 => Some(Reason::INVLPG),
            15 => Some(Reason::RDPMC),
            16 => Some(Reason::RDTSC),
            17 => Some(Reason::RSM),
            18 => Some(Reason::VMCALL),
            19 => Some(Reason::VMCLEAR),
            20 => Some(Reason::VMLAUNCH),
            21 => Some(Reason::VMPTRLD),
            22 => Some(Reason::VMPTRST),
            23 => Some(Reason::VMREAD),
            24 => Some(Reason::VMRESUME),
            25 => Some(Reason::VMWRITE),
            26 => Some(Reason::VMOFF),
            27 => Some(Reason::VMON),
            28 => Some(Reason::MOV_CR),
            29 => Some(Reason::MOV_DR),
            30 => Some(Reason::IO),
            31 => Some(Reason::RDMSR),
            32 => Some(Reason::WRMSR),
            33 => Some(Reason::VMENTRY_GUEST),
            34 => Some(Reason::VMENTRY_MSR),
            36 => Some(Reason::MWAIT),
            37 => Some(Reason::MTF),
            39 => Some(Reason::MONITOR),
            40 => Some(Reason::PAUSE),
            41 => Some(Reason::VMENTRY_MC),
            43 => Some(Reason::TPR_THRESHOLD),
            44 => Some(Reason::APIC_ACCESS),
            45 => Some(Reason::VIRTUALIZED_EOI),
            46 => Some(Reason::GDTR_IDTR),
            47 => Some(Reason::LDTR_TR),
            48 => Some(Reason::EPT_VIOLATION),
            49 => Some(Reason::EPT_MISCONFIG),
            50 => Some(Reason::EPT_INVEPT),
            51 => Some(Reason::RDTSCP),
            52 => Some(Reason::VMX_TIMER_EXPIRED),
            53 => Some(Reason::INVVPID),
            54 => Some(Reason::WBINVD),
            55 => Some(Reason::XSETBV),
            56 => Some(Reason::APIC_WRITE),
            57 => Some(Reason::RDRAND),
            58 => Some(Reason::INVPCID),
            59 => Some(Reason::VMFUNC),
            61 => Some(Reason::RDSEED),
            63 => Some(Reason::XSAVES),
            64 => Some(Reason::XRSTORS),
            _ => None,
        }
    }
}

/// The interruption-type and validity bits of the interruption
/// information VMCS fields.
#[allow(non_camel_case_types)]
#[non_exhaustive]
#[derive(Debug, Copy, Clone, PartialEq, Eq, Structural)]
pub enum IrqInfo {
    EXT_IRQ,
    NMI,
    HARD_EXC,
    SOFT_IRQ,
    PRIV_SOFT_EXC,
    SOFT_EXC,
    ERROR_VALID,
    VALID,
}

impl IrqInfo {
    /// The ABI constant this identifier encodes to.
    pub open spec fn spec_value(self) -> u32 {
        match self {
            IrqInfo::EXT_IRQ => 0x0,
            IrqInfo::NMI => 0x200,
            IrqInfo::HARD_EXC => 0x300,
            IrqInfo::SOFT_IRQ => 0x400,
            IrqInfo::PRIV_SOFT_EXC => 0x500,
            IrqInfo::SOFT_EXC => 0x600,
            IrqInfo::ERROR_VALID => 0x800,
            IrqInfo::VALID => 0x8000_0000,
        }
    }

    /// The ABI constant handed to the framework.
    pub fn value(self) -> (v: u32)
        ensures
            v == self.spec_value(),
    {
        match self {
            IrqInfo::EXT_IRQ => 0x0,
            IrqInfo::NMI => 0x200,
            IrqInfo::HARD_EXC => 0x300,
            IrqInfo::SOFT_IRQ => 0x400,
            IrqInfo::PRIV_SOFT_EXC => 0x500,
            IrqInfo::SOFT_EXC => 0x600,
            IrqInfo::ERROR_VALID => 0x800,
            IrqInfo::VALID => 0x8000_0000,
        }
    }

    /// The identifier a raw constant decodes to, if any.
    pub open spec fn spec_from_value(v: u32) -> Option<IrqInfo> {
        if v == 0x0 {
            Some(IrqInfo::EXT_IRQ)
        } else if v == 0x200 {
            Some(IrqInfo::NMI)
        } else if v == 0x300 {
            Some(IrqInfo::HARD_EXC)
        } else if v == 0x400 {
            Some(IrqInfo::SOFT_IRQ)
        } else if v == 0x500 {
            Some(IrqInfo::PRIV_SOFT_EXC)
        } else if v == 0x600 {
            Some(IrqInfo::SOFT_EXC)
        } else if v == 0x800 {
            Some(IrqInfo::ERROR_VALID)
        } else if v == 0x8000_0000 {
            Some(IrqInfo::VALID)
        } else {
            None
        }
    }
}

/// Law: distinct VMCS field identifiers encode to distinct field
/// encodings; decoding an identifier's encoding returns that identifier.
pub proof fn lemma_vmcs_value_round_trip(f: Vmcs)
    ensures
        Vmcs::spec_from_value(f.spec_value()) == Some(f),
{
}

/// Law: distinct exit reasons encode to distinct reason numbers;
/// decoding a reason's number returns that reason.
pub proof fn lemma_reason_value_round_trip(r: Reason)
    ensures
        Reason::spec_from_value(r.spec_value()) == Some(r),
{
}

/// Law: distinct capability fields encode to distinct constants.
pub proof fn lemma_capability_value_round_trip(c: Capability)
    ensures
        Capability::spec_from_value(c.spec_value()) == Some(c),
{
}

/// Law: distinct interruption-information identifiers encode to
/// distinct constants.
pub proof fn lemma_irq_info_value_round_trip(i: IrqInfo)
    ensures
        IrqInfo::spec_from_value(i.spec_value()) == Some(i),
{
}

impl Vcpu {
    /// Finishes the read of the VMCS field `field`; `value` is the
    /// out-value the framework wrote.
    pub fn read_vmcs(&self, field: Vmcs, code: u32, value: u64) -> (r: Result<u64, Error>)
        ensures
            r is Ok <==> code == HV_SUCCESS,
            r matches Ok(v) ==> v == value,
            r matches Err(e) ==> e == Error::spec_from_code(code),
    {
        match check_return(code) {
            Ok(()) => Ok(value),
            Err(e) => Err(e),
        }
    }

    /// Finishes the write of `value` to the VMCS field `field`.
    pub fn write_vmcs(&self, field: Vmcs, value: u64, code: u32) -> (r: Result<(), Error>)
        ensures
            r is Ok <==> code == HV_SUCCESS,
            r matches Err(e) ==> e == Error::spec_from_code(code),
    {
        check_return(code)
    }

    /// Finishes the read of the shadow VMCS field `field`; `value` is
    /// the out-value the framework wrote.
    pub fn read_shadow_vmcs(&self, field: Vmcs, code: u32, value: u64) -> (r: Result<u64, Error>)
        ensures
            r is Ok <==> code == HV_SUCCESS,
            r matches Ok(v) ==> v == value,
            r matches Err(e) ==> e == Error::spec_from_code(code),
    {
        match check_return(code) {
            Ok(()) => Ok(value),
            Err(e) => Err(e),
        }
    }

    /// Finishes the write of `value` to the shadow VMCS field `field`.
    pub fn write_shadow_vmcs(&self, field: Vmcs, value: u64, code: u32) -> (r: Result<(), Error>)
        ensures
            r is Ok <==> code == HV_SUCCESS,
            r matches Err(e) ==> e == Error::spec_from_code(code),
    {
        check_return(code)
    }

    /// Finishes the call that sets the access permissions of the shadow
    /// VMCS field `field` to `flags`.
    pub fn set_shadow_access(&self, field: Vmcs, flags: ShadowFlags, code: u32) -> (r: Result<
        (),
        Error,
    >)
        ensures
            r is Ok <==> code == HV_SUCCESS,
            r matches Err(e) ==> e == Error::spec_from_code(code),
    {
        check_return(code)
    }
}

} // verus!
