use hv::flags::HV_MEMORY_EXEC;
use hv::flags::HV_MEMORY_READ;
use hv::flags::HV_MEMORY_WRITE;
use hv::flags::HV_VM_DEFAULT;
use hv::flags::HV_VM_MITIGATION_A_ENABLE;
use hv::flags::HV_VM_MITIGATION_E_ENABLE;
use hv::flags::HV_VM_SPECIFY_MITIGATIONS;
use hv::Memory;
use hv::VmOptions;

#[test]
fn memory_permission_bits() {
    assert_eq!(HV_MEMORY_READ, 1);
    assert_eq!(HV_MEMORY_WRITE, 2);
    assert_eq!(HV_MEMORY_EXEC, 4);
    assert_eq!(Memory::empty().bits(), 0);
    assert_eq!(Memory::read().bits(), 1);
    assert_eq!(Memory::write().bits(), 2);
    assert_eq!(Memory::execute().bits(), 4);
    assert_eq!(Memory::all().bits(), 7);
}

#[test]
fn memory_union_and_intersection() {
    let rw = Memory::read().union(Memory::write());
    assert_eq!(rw.bits(), 3);
    let rwx = rw.union(Memory::execute());
    assert_eq!(rwx.bits(), 7);
    assert_eq!(rwx.intersection(Memory::write()).bits(), 2);
    assert_eq!(
        Memory::read().intersection(Memory::execute()).bits(),
        0
    );
}

#[test]
fn memory_contains_checks_every_permission() {
    let rw = Memory::read().union(Memory::write());
    assert!(rw.contains(Memory::read()));
    assert!(rw.contains(Memory::write()));
    assert!(rw.contains(rw));
    assert!(rw.contains(Memory::empty()));
    assert!(!rw.contains(Memory::execute()));
    assert!(!Memory::empty().contains(Memory::read()));
}

#[test]
fn memory_from_bits_round_trips() {
    for bits in 0..8 {
        let m = Memory::from_bits(bits).unwrap();
        assert_eq!(m.bits(), bits);
    }
    assert_eq!(Memory::from_bits(8), None);
    assert_eq!(Memory::from_bits(0xff), None);
}

#[test]
fn vm_option_bits() {
    assert_eq!(HV_VM_DEFAULT, 0);
    assert_eq!(HV_VM_SPECIFY_MITIGATIONS, 1);
    assert_eq!(HV_VM_MITIGATION_A_ENABLE, 2);
    assert_eq!(HV_VM_MITIGATION_E_ENABLE, 32);
    assert_eq!(VmOptions::default().bits(), HV_VM_DEFAULT);
    assert_eq!(VmOptions::specify_mitigations().bits(), 1);
}

#[test]
fn vm_option_union_accumulates_bits() {
    let opts = VmOptions {
        mitigation_a: true,
        ..VmOptions::default()
    };
    let opts = opts.union(VmOptions::specify_mitigations());
    assert_eq!(opts.bits(), 3);
    let all = VmOptions {
        specify_mitigations: true,
        mitigation_a: true,
        mitigation_b: true,
        mitigation_c: true,
        mitigation_d: true,
        mitigation_e: true,
    };
    assert_eq!(all.bits(), 63);
    assert_eq!(all.union(opts).bits(), 63);
}
