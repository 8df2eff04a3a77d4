use hv::arm64;
use hv::vmx;
use hv::x86;
use hv::Error;
use hv::Memory;
use hv::Vm;
use hv::VmOptions;
use hv::HV_BUSY;
use hv::HV_ERROR;
use hv::HV_SUCCESS;

#[test]
fn vm_creation_follows_the_return_code() {
    let vm = Vm::new(VmOptions::default(), HV_SUCCESS).unwrap();
    assert_eq!(vm.live_vcpus(), 0);
    assert_eq!(vm.live_spaces(), 0);
    assert_eq!(vm.destroy(HV_SUCCESS), Ok(()));

    // A second instance is refused by the framework; the refusal is
    // surfaced unchanged.
    assert_eq!(
        Vm::new(VmOptions::default(), HV_BUSY).unwrap_err(),
        Error::Busy
    );
}

#[test]
fn vcpu_handles_are_counted_until_given_back() {
    let mut vm = Vm::new(VmOptions::default(), HV_SUCCESS).unwrap();
    let cpu0 = vm.create_cpu(0, HV_SUCCESS).unwrap();
    let cpu1 = vm.create_cpu(1, HV_SUCCESS).unwrap();
    assert_eq!(cpu0.id(), 0);
    assert_eq!(cpu1.id(), 1);
    assert_eq!(vm.live_vcpus(), 2);

    // A failed creation leaves the count unchanged.
    assert_eq!(
        vm.create_cpu(2, HV_ERROR).unwrap_err(),
        Error::Unsuccessful
    );
    assert_eq!(vm.live_vcpus(), 2);

    assert_eq!(vm.destroy_cpu(cpu1, HV_SUCCESS), Ok(()));
    assert_eq!(vm.destroy_cpu(cpu0, HV_SUCCESS), Ok(()));
    assert_eq!(vm.live_vcpus(), 0);
    assert_eq!(vm.destroy(HV_SUCCESS), Ok(()));
}

#[test]
fn spaces_are_counted_until_given_back() {
    let mut vm = Vm::new(VmOptions::default(), HV_SUCCESS).unwrap();
    let space = vm.create_space(5, HV_SUCCESS).unwrap();
    assert_eq!(space.id(), 5);
    assert_eq!(vm.live_spaces(), 1);
    assert_eq!(
        space.map(0x1000, 0x4000, 0x1000, Memory::all(), HV_SUCCESS),
        Ok(())
    );
    assert_eq!(
        space.unmap(0x4000, 0x1000, HV_ERROR).unwrap_err(),
        Error::Unsuccessful
    );
    assert_eq!(
        space.protect(0x4000, 0x1000, Memory::read(), HV_SUCCESS),
        Ok(())
    );
    assert_eq!(vm.destroy_space(space, HV_SUCCESS), Ok(()));
    assert_eq!(vm.live_spaces(), 0);
    assert_eq!(vm.destroy(HV_SUCCESS), Ok(()));
}

#[test]
fn memory_calls_follow_the_return_code() {
    let vm = Vm::new(VmOptions::default(), HV_SUCCESS).unwrap();
    assert_eq!(
        vm.map(0x1000, 0x8000, 0x2000, Memory::all(), HV_SUCCESS),
        Ok(())
    );
    assert_eq!(
        vm.map(0x1001, 0x8000, 0x2000, Memory::all(), 0xfae9_4003)
            .unwrap_err(),
        Error::BadArgument
    );
    assert_eq!(vm.unmap(0x8000, 0x2000, HV_SUCCESS), Ok(()));
    assert_eq!(
        vm.protect(0x8000, 0x2000, Memory::read(), HV_SUCCESS),
        Ok(())
    );
    assert_eq!(Vm::sync_tsc(123456, HV_SUCCESS), Ok(()));
    assert_eq!(
        vm.capability(x86::Capability::VcpuMax, HV_SUCCESS, 64),
        Ok(64)
    );
    assert_eq!(
        vm.capability(x86::Capability::AddrSpaceMax, HV_ERROR, 0)
            .unwrap_err(),
        Error::Unsuccessful
    );
    assert_eq!(vm.destroy(HV_SUCCESS), Ok(()));
}

#[test]
fn vcpu_calls_follow_the_return_code() {
    let mut vm = Vm::new(VmOptions::default(), HV_SUCCESS).unwrap();
    let cpu = vm.create_cpu(3, HV_SUCCESS).unwrap();

    assert_eq!(cpu.run(HV_SUCCESS), Ok(()));
    assert_eq!(cpu.run(HV_ERROR).unwrap_err(), Error::Unsuccessful);
    assert_eq!(cpu.run_until(987654321, HV_SUCCESS), Ok(()));
    assert_eq!(cpu.flush(HV_SUCCESS), Ok(()));
    assert_eq!(cpu.invalidate_tlb(HV_SUCCESS), Ok(()));
    assert_eq!(cpu.interrupt(HV_SUCCESS), Ok(()));
    assert_eq!(cpu.set_space(x86::HV_VM_SPACE_DEFAULT, HV_SUCCESS), Ok(()));
    assert_eq!(cpu.exec_time(HV_SUCCESS, 5_000_000), Ok(5_000_000));
    assert_eq!(
        cpu.exec_time(HV_BUSY, 5_000_000).unwrap_err(),
        Error::Busy
    );
    assert_eq!(cpu.enable_native_msr(0xc000_0080, true, HV_SUCCESS), Ok(()));
    assert_eq!(cpu.read_msr(0xc000_0080, HV_SUCCESS, 0xd01), Ok(0xd01));
    assert_eq!(cpu.write_msr(0xc000_0080, 0xd01, HV_SUCCESS), Ok(()));

    assert_eq!(vm.destroy_cpu(cpu, HV_SUCCESS), Ok(()));
    assert_eq!(vm.destroy(HV_SUCCESS), Ok(()));
}

#[test]
fn register_and_vmcs_calls_follow_the_return_code() {
    let mut vm = Vm::new(VmOptions::default(), HV_SUCCESS).unwrap();
    let cpu = vm.create_cpu(0, HV_SUCCESS).unwrap();

    assert_eq!(
        cpu.read_register(x86::Reg::RAX, HV_SUCCESS, 42),
        Ok(42)
    );
    assert_eq!(
        cpu.read_register(x86::Reg::RAX, HV_ERROR, 42).unwrap_err(),
        Error::Unsuccessful
    );
    assert_eq!(cpu.write_register(x86::Reg::RIP, 0x1000, HV_SUCCESS), Ok(()));
    assert_eq!(cpu.read_fpstate(HV_SUCCESS), Ok(()));
    assert_eq!(cpu.write_fpstate(HV_SUCCESS), Ok(()));

    assert_eq!(
        cpu.read_vmcs(vmx::Vmcs::GUEST_RIP, HV_SUCCESS, 0x1000),
        Ok(0x1000)
    );
    assert_eq!(
        cpu.write_vmcs(vmx::Vmcs::GUEST_RIP, 0x2000, HV_SUCCESS),
        Ok(())
    );
    assert_eq!(
        cpu.read_shadow_vmcs(vmx::Vmcs::GUEST_RSP, HV_SUCCESS, 9),
        Ok(9)
    );
    assert_eq!(
        cpu.write_shadow_vmcs(vmx::Vmcs::GUEST_RSP, 10, HV_SUCCESS),
        Ok(())
    );
    assert_eq!(
        cpu.set_shadow_access(
            vmx::Vmcs::GUEST_RSP,
            vmx::ShadowFlags::read().union(vmx::ShadowFlags::write()),
            HV_SUCCESS
        ),
        Ok(())
    );
    assert_eq!(
        vmx::read_capability(vmx::Capability::PinBased, HV_SUCCESS, 0x1f),
        Ok(0x1f)
    );

    assert_eq!(cpu.get_reg(arm64::Reg::X0, HV_SUCCESS, 3), Ok(3));
    assert_eq!(cpu.set_reg(arm64::Reg::PC, 0x6942_0000, HV_SUCCESS), Ok(()));
    assert_eq!(
        cpu.get_simd_fp_reg(arm64::SimdFpReg::Q0, HV_SUCCESS, 1u128 << 100),
        Ok(1u128 << 100)
    );
    assert_eq!(
        cpu.set_simd_fp_reg(arm64::SimdFpReg::Q1, 7, HV_SUCCESS),
        Ok(())
    );
    assert_eq!(cpu.get_sys_reg(0xc082, HV_SUCCESS, 0x55), Ok(0x55));
    assert_eq!(cpu.set_sys_reg(0xc082, 0x56, HV_SUCCESS), Ok(()));
    assert_eq!(
        cpu.pending_interrupt(arm64::InterruptType::IRQ, HV_SUCCESS, true),
        Ok(true)
    );
    assert_eq!(
        cpu.set_pending_interrupt(arm64::InterruptType::FIQ, false, HV_SUCCESS),
        Ok(())
    );
    assert_eq!(cpu.trap_debug_exceptions(HV_SUCCESS, false), Ok(false));
    assert_eq!(cpu.set_trap_debug_exceptions(true, HV_SUCCESS), Ok(()));
    assert_eq!(cpu.trap_debug_reg_accesses(HV_SUCCESS, true), Ok(true));
    assert_eq!(cpu.set_trap_debug_reg_accesses(false, HV_SUCCESS), Ok(()));
    assert_eq!(cpu.vtimer_mask(HV_SUCCESS, true), Ok(true));
    assert_eq!(cpu.set_vtimer_mask(false, HV_SUCCESS), Ok(()));
    assert_eq!(cpu.vtimer_offset(HV_SUCCESS, 1000), Ok(1000));
    assert_eq!(cpu.set_vtimer_offset(2000, HV_SUCCESS), Ok(()));

    assert_eq!(vm.destroy_cpu(cpu, HV_SUCCESS), Ok(()));
    assert_eq!(vm.destroy(HV_SUCCESS), Ok(()));
}
