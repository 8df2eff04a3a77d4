//! Flag types passed to the framework as raw bit masks.

use vstd::prelude::*;

verus! {

/// Guest physical memory regions may be readable.
pub const HV_MEMORY_READ: u32 = 1;
/// Guest physical memory regions may be writable.
pub const HV_MEMORY_WRITE: u32 = 2;
/// Guest physical memory regions may be executable.
pub const HV_MEMORY_EXEC: u32 = 4;

/// Guest physical memory region permissions, encoded for the ABI as a
/// mask of the three `HV_MEMORY_*` bits.
#[derive(Debug, Copy, Clone, PartialEq, Eq, Structural)]
pub struct Memory {
    pub read: bool,
    pub write: bool,
    pub exec_allowed: bool,
}

impl Memory {
    /// The raw mask this permission set encodes to.
    pub open spec fn spec_bits(self) -> int {
        (if self.read { HV_MEMORY_READ } else { 0 })
            + (if self.write { HV_MEMORY_WRITE } else { 0 })
            + (if self.exec_allowed { HV_MEMORY_EXEC } else { 0 })
    }

    /// No permission at all.
    pub fn empty() -> (r: Memory)
        ensures
            r == (Memory { read: false, write: false, exec_allowed: false }),
    {
        Memory { read: false, write: false, exec_allowed: false }
    }

    /// Read permission alone.
    pub fn read() -> (r: Memory)
        ensures
            r == (Memory { read: true, write: false, exec_allowed: false }),
    {
        Memory { read: true, write: false, exec_allowed: false }
    }

    /// Write permission alone.
    pub fn write() -> (r: Memory)
        ensures
            r == (Memory { read: false, write: true, exec_allowed: false }),
    {
        Memory { read: false, write: true, exec_allowed: false }
    }

    /// Execute permission alone.
    pub fn execute() -> (r: Memory)
        ensures
            r == (Memory { read: false, write: false, exec_allowed: true }),
    {
        Memory { read: false, write: false, exec_allowed: true }
    }

    /// All three permissions.
    pub fn all() -> (r: Memory)
        ensures
            r == (Memory { read: true, write: true, exec_allowed: true }),
    {
        Memory { read: true, write: true, exec_allowed: true }
    }

    /// The permissions granted by either operand.
    pub fn union(self, other: Memory) -> (r: Memory)
        ensures
            r.read == (self.read || other.read),
            r.write == (self.write || other.write),
            r.exec_allowed == (self.exec_allowed || other.exec_allowed),
    {
        Memory {
            read: self.read || other.read,
            write: self.write || other.write,
            exec_allowed: self.exec_allowed || other.exec_allowed,
        }
    }

    /// The permissions granted by both operands.
    pub fn intersection(self, other: Memory) -> (r: Memory)
        ensures
            r.read == (self.read && other.read),
            r.write == (self.write && other.write),
            r.exec_allowed == (self.exec_allowed && other.exec_allowed),
    {
        Memory {
            read: self.read && other.read,
            write: self.write && other.write,
            exec_allowed: self.exec_allowed && other.exec_allowed,
        }
    }

    /// Whether every permission in `other` is also granted here.
    pub fn contains(self, other: Memory) -> (r: bool)
        ensures
            r == ((other.read ==> self.read) && (other.write ==> self.write) && (
            other.exec_allowed ==> self.exec_allowed)),
    {
        (!other.read || self.read) && (!other.write || self.write) && (!other.exec_allowed
            || self.exec_allowed)
    }

    /// The raw mask handed to the framework.
    pub fn bits(self) -> (r: u32)
        ensures
            r == self.spec_bits(),
            r <= 7,
    {
        (if self.read {
            HV_MEMORY_READ
        } else {
            0
        }) + (if self.write {
            HV_MEMORY_WRITE
        } else {
            0
        }) + (if self.exec_allowed {
            HV_MEMORY_EXEC
        } else {
            0
        })
    }

    /// The permission set a raw mask decodes to; `None` when the mask
    /// holds a bit outside the three permission bits.
    pub fn from_bits(bits: u32) -> (r: Option<Memory>)
        ensures
            r is Some <==> bits <= 7,
            r matches Some(m) ==> m.spec_bits() == bits,
    {
        match bits {
            0 => Some(Memory { read: false, write: false, exec_allowed: false }),
            1 => Some(Memory { read: true, write: false, exec_allowed: false }),
            2 => Some(Memory { read: false, write: true, exec_allowed: false }),
            3 => Some(Memory { read: true, write: true, exec_allowed: false }),
            4 => Some(Memory { read: false, write: false, exec_allowed: true }),
            5 => Some(Memory { read: true, write: false, exec_allowed: true }),
            6 => Some(Memory { read: false, write: true, exec_allowed: true }),
            7 => Some(Memory { read: true, write: true, exec_allowed: true }),
            _ => None,
        }
    }
}

/// Default VM creation, with no option bit set.
pub const HV_VM_DEFAULT: u64 = 0;
/// The mitigation bits below are meaningful.
pub const HV_VM_SPECIFY_MITIGATIONS: u64 = 1;
pub const HV_VM_MITIGATION_A_ENABLE: u64 = 2;
pub const HV_VM_MITIGATION_B_ENABLE: u64 = 4;
pub const HV_VM_MITIGATION_C_ENABLE: u64 = 8;
pub const HV_VM_MITIGATION_D_ENABLE: u64 = 16;
pub const HV_VM_MITIGATION_E_ENABLE: u64 = 32;

/// Options for VM creation, encoded for the ABI as a mask of the
/// `HV_VM_*` bits.
#[derive(Debug, Copy, Clone, PartialEq, Eq, Structural)]
pub struct VmOptions {
    pub specify_mitigations: bool,
    pub mitigation_a: bool,
    pub mitigation_b: bool,
    pub mitigation_c: bool,
    pub mitigation_d: bool,
    pub mitigation_e: bool,
}

impl VmOptions {
    /// The raw mask this option set encodes to.
    pub open spec fn spec_bits(self) -> int {
        (if self.specify_mitigations { HV_VM_SPECIFY_MITIGATIONS } else { 0 })
            + (if self.mitigation_a { HV_VM_MITIGATION_A_ENABLE } else { 0 })
            + (if self.mitigation_b { HV_VM_MITIGATION_B_ENABLE } else { 0 })
            + (if self.mitigation_c { HV_VM_MITIGATION_C_ENABLE } else { 0 })
            + (if self.mitigation_d { HV_VM_MITIGATION_D_ENABLE } else { 0 })
            + (if self.mitigation_e { HV_VM_MITIGATION_E_ENABLE } else { 0 })
    }

    /// The option set with no bit raised.
    pub open spec fn spec_default() -> VmOptions {
        VmOptions {
            specify_mitigations: false,
            mitigation_a: false,
            mitigation_b: false,
            mitigation_c: false,
            mitigation_d: false,
            mitigation_e: false,
        }
    }

    /// The option set for `HV_VM_SPECIFY_MITIGATIONS`.
    pub fn specify_mitigations() -> (r: VmOptions)
        ensures
            r == (VmOptions { specify_mitigations: true, ..VmOptions::spec_default() }),
    {
        VmOptions { specify_mitigations: true, ..Default::default() }
    }

    /// The options granted by either operand.
    pub fn union(self, other: VmOptions) -> (r: VmOptions)
        ensures
            r.specify_mitigations == (self.specify_mitigations || other.specify_mitigations),
            r.mitigation_a == (self.mitigation_a || other.mitigation_a),
            r.mitigation_b == (self.mitigation_b || other.mitigation_b),
            r.mitigation_c == (self.mitigation_c || other.mitigation_c),
            r.mitigation_d == (self.mitigation_d || other.mitigation_d),
            r.mitigation_e == (self.mitigation_e || other.mitigation_e),
    {
        VmOptions {
            specify_mitigations: self.specify_mitigations || other.specify_mitigations,
            mitigation_a: self.mitigation_a || other.mitigation_a,
            mitigation_b: self.mitigation_b || other.mitigation_b,
            mitigation_c: self.mitigation_c || other.mitigation_c,
            mitigation_d: self.mitigation_d || other.mitigation_d,
            mitigation_e: self.mitigation_e || other.mitigation_e,
        }
    }

    /// The raw mask handed to the framework.
    pub fn bits(self) -> (r: u64)
        ensures
            r == self.spec_bits(),
            r <= 63,
    {
        (if self.specify_mitigations {
            HV_VM_SPECIFY_MITIGATIONS
        } else {
            0
        }) + (if self.mitigation_a {
            HV_VM_MITIGATION_A_ENABLE
        } else {
            0
        }) + (if self.mitigation_b {
            HV_VM_MITIGATION_B_ENABLE
        } else {
            0
        }) + (if self.mitigation_c {
            HV_VM_MITIGATION_C_ENABLE
        } else {
            0
        }) + (if self.mitigation_d {
            HV_VM_MITIGATION_D_ENABLE
        } else {
            0
        }) + (if self.mitigation_e {
            HV_VM_MITIGATION_E_ENABLE
        } else {
            0
        })
    }
}

impl Default for VmOptions {
    /// The default options: every bit clear, `HV_VM_DEFAULT` on the wire.
    fn default() -> (r: VmOptions)
        ensures
            r == VmOptions::spec_default(),
            r.spec_bits() == HV_VM_DEFAULT,
    {
        VmOptions {
            specify_mitigations: false,
            mitigation_a: false,
            mitigation_b: false,
            mitigation_c: false,
            mitigation_d: false,
            mitigation_e: false,
        }
    }
}

} // verus!
