use hv::arm64;
use hv::vmx;
use hv::x86;

#[test]
fn x86_register_values_follow_the_enumeration() {
    assert_eq!(x86::Reg::RIP.value(), 0);
    assert_eq!(x86::Reg::RFLAGS.value(), 1);
    assert_eq!(x86::Reg::RAX.value(), 2);
    assert_eq!(x86::Reg::R8.value(), 10);
    assert_eq!(x86::Reg::CS.value(), 18);
    assert_eq!(x86::Reg::CR0.value(), 36);
    assert_eq!(x86::Reg::DR7.value(), 48);
    assert_eq!(x86::Reg::TPR.value(), 49);
    assert_eq!(x86::Reg::XCR0.value(), 50);
    assert_eq!(x86::Reg::MAX.value(), 51);
}

#[test]
fn x86_capability_values() {
    assert_eq!(x86::Capability::VcpuMax.value(), x86::HV_CAP_VCPUMAX);
    assert_eq!(
        x86::Capability::AddrSpaceMax.value(),
        x86::HV_CAP_ADDRSPACEMAX
    );
    assert_eq!(x86::HV_CAP_VCPUMAX, 0);
    assert_eq!(x86::HV_CAP_ADDRSPACEMAX, 1);
    assert_eq!(x86::HV_VM_SPACE_DEFAULT, 0);
}

#[test]
fn vmx_capability_values() {
    assert_eq!(vmx::Capability::PinBased.value(), 0);
    assert_eq!(vmx::Capability::ProcBased.value(), 1);
    assert_eq!(vmx::Capability::ProcBased2.value(), 2);
    assert_eq!(vmx::Capability::Entry.value(), 3);
    assert_eq!(vmx::Capability::Exit.value(), 4);
    assert_eq!(vmx::Capability::PreemptionTimer.value(), 32);
}

#[test]
fn vmcs_field_encodings() {
    assert_eq!(vmx::Vmcs::VPID.value(), 0x0000_0000);
    assert_eq!(vmx::Vmcs::GUEST_ES.value(), 0x0000_0800);
    assert_eq!(vmx::Vmcs::HOST_ES.value(), 0x0000_0c00);
    assert_eq!(vmx::Vmcs::CTRL_IO_BITMAP_A.value(), 0x0000_2000);
    assert_eq!(vmx::Vmcs::CTRL_TSC_OFFSET.value(), 0x0000_2010);
    assert_eq!(vmx::Vmcs::GUEST_PHYSICAL_ADDRESS.value(), 0x0000_2400);
    assert_eq!(vmx::Vmcs::GUEST_LINK_POINTER.value(), 0x0000_2800);
    assert_eq!(vmx::Vmcs::CTRL_PIN_BASED.value(), 0x0000_4000);
    assert_eq!(vmx::Vmcs::RO_INSTR_ERROR.value(), 0x0000_4400);
    assert_eq!(vmx::Vmcs::RO_EXIT_REASON.value(), 0x0000_4402);
    assert_eq!(vmx::Vmcs::GUEST_ES_LIMIT.value(), 0x0000_4800);
    assert_eq!(vmx::Vmcs::GUEST_IA32_SYSENTER_CS.value(), 0x0000_482a);
    assert_eq!(vmx::Vmcs::HOST_IA32_SYSENTER_CS.value(), 0x0000_4c00);
    assert_eq!(vmx::Vmcs::CTRL_CR0_MASK.value(), 0x0000_6000);
    assert_eq!(vmx::Vmcs::RO_EXIT_QUALIFIC.value(), 0x0000_6400);
    assert_eq!(vmx::Vmcs::GUEST_CR0.value(), 0x0000_6800);
    assert_eq!(vmx::Vmcs::GUEST_RSP.value(), 0x0000_681c);
    assert_eq!(vmx::Vmcs::GUEST_RIP.value(), 0x0000_681e);
    assert_eq!(vmx::Vmcs::HOST_CR0.value(), 0x0000_6c00);
    assert_eq!(vmx::Vmcs::HOST_RSP.value(), 0x0000_6c14);
    assert_eq!(vmx::Vmcs::HOST_RIP.value(), 0x0000_6c16);
}

#[test]
fn exit_reason_numbers() {
    assert_eq!(vmx::Reason::EXC_NMI.value(), 0);
    assert_eq!(vmx::Reason::IRQ.value(), 1);
    assert_eq!(vmx::Reason::TRIPLE_FAULT.value(), 2);
    assert_eq!(vmx::Reason::CPUID.value(), 10);
    assert_eq!(vmx::Reason::HLT.value(), 12);
    assert_eq!(vmx::Reason::IO.value(), 30);
    assert_eq!(vmx::Reason::RDMSR.value(), 31);
    assert_eq!(vmx::Reason::WRMSR.value(), 32);
    assert_eq!(vmx::Reason::MWAIT.value(), 36);
    assert_eq!(vmx::Reason::MONITOR.value(), 39);
    assert_eq!(vmx::Reason::TPR_THRESHOLD.value(), 43);
    assert_eq!(vmx::Reason::EPT_VIOLATION.value(), 48);
    assert_eq!(vmx::Reason::VMX_TIMER_EXPIRED.value(), 52);
    assert_eq!(vmx::Reason::XSETBV.value(), 55);
    assert_eq!(vmx::Reason::RDSEED.value(), 61);
    assert_eq!(vmx::Reason::XSAVES.value(), 63);
    assert_eq!(vmx::Reason::XRSTORS.value(), 64);
}

#[test]
fn irq_info_bits() {
    assert_eq!(vmx::IrqInfo::EXT_IRQ.value(), 0);
    assert_eq!(vmx::IrqInfo::NMI.value(), 0x200);
    assert_eq!(vmx::IrqInfo::HARD_EXC.value(), 0x300);
    assert_eq!(vmx::IrqInfo::SOFT_IRQ.value(), 0x400);
    assert_eq!(vmx::IrqInfo::PRIV_SOFT_EXC.value(), 0x500);
    assert_eq!(vmx::IrqInfo::SOFT_EXC.value(), 0x600);
    assert_eq!(vmx::IrqInfo::ERROR_VALID.value(), 0x800);
    assert_eq!(vmx::IrqInfo::VALID.value(), 0x8000_0000);
}

#[test]
fn shadow_flag_bits() {
    assert_eq!(vmx::ShadowFlags::none().bits(), vmx::HV_SHADOW_VMCS_NONE);
    assert_eq!(vmx::ShadowFlags::read().bits(), vmx::HV_SHADOW_VMCS_READ);
    assert_eq!(vmx::ShadowFlags::write().bits(), vmx::HV_SHADOW_VMCS_WRITE);
    assert_eq!(
        vmx::ShadowFlags::read().union(vmx::ShadowFlags::write()).bits(),
        3
    );
}

#[test]
fn arm64_register_values_follow_the_enumeration() {
    assert_eq!(arm64::Reg::X0.value(), 0);
    assert_eq!(arm64::Reg::X1.value(), 1);
    assert_eq!(arm64::Reg::X29.value(), 29);
    assert_eq!(arm64::Reg::X30.value(), 30);
    assert_eq!(arm64::Reg::PC.value(), 31);
    assert_eq!(arm64::Reg::FPCR.value(), 32);
    assert_eq!(arm64::Reg::FPSR.value(), 33);
    assert_eq!(arm64::Reg::CPSR.value(), 34);
}

#[test]
fn arm64_simd_fp_register_values() {
    assert_eq!(arm64::SimdFpReg::Q0.value(), 0);
    assert_eq!(arm64::SimdFpReg::Q15.value(), 15);
    assert_eq!(arm64::SimdFpReg::Q31.value(), 31);
}

#[test]
fn interrupt_type_values() {
    assert_eq!(arm64::InterruptType::IRQ.value(), 0);
    assert_eq!(arm64::InterruptType::FIQ.value(), 1);
}

#[test]
fn exit_reason_decode_round_trips() {
    let reasons = [
        vmx::Reason::EXC_NMI,
        vmx::Reason::HLT,
        vmx::Reason::IO,
        vmx::Reason::RDMSR,
        vmx::Reason::EPT_VIOLATION,
        vmx::Reason::XRSTORS,
    ];
    for r in reasons {
        assert_eq!(vmx::Reason::from_value(r.value()), Some(r));
    }
    // Numbers the table skips decode to nothing.
    assert_eq!(vmx::Reason::from_value(35), None);
    assert_eq!(vmx::Reason::from_value(38), None);
    assert_eq!(vmx::Reason::from_value(42), None);
    assert_eq!(vmx::Reason::from_value(60), None);
    assert_eq!(vmx::Reason::from_value(62), None);
    assert_eq!(vmx::Reason::from_value(65), None);
    assert_eq!(vmx::Reason::from_value(u32::MAX), None);
}
