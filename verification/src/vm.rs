//! The per-process VM instance.

use vstd::prelude::*;
use crate::check_return;
use crate::flags::Memory;
use crate::flags::VmOptions;
use crate::vcpu::Vcpu;
use crate::x86::Capability;
use crate::x86::Space;
use crate::Error;
use crate::GPAddr;
use crate::UVAddr;
use crate::HV_SUCCESS;

verus! {

/// The entry point to the hypervisor: the single VM instance of the
/// current process.
///
/// The handle counts its live child handles, so the creation and
/// destruction calls keep their required order: a vCPU or an address
/// space is created only under a live VM, and `destroy` accepts the VM
/// only once every child has been given back.
///
/// Each method finishes one framework call: the shell issues the raw
/// call with the values the library encodes and hands the returned code
/// (with any out-value) back in.
#[derive(Debug)]
pub struct Vm {
    live_vcpus: u64,
    live_spaces: u64,
}

impl Vm {
    /// How many vCPU handles created from this VM are still live.
    pub closed spec fn spec_live_vcpus(self) -> u64 {
        self.live_vcpus
    }

    /// How many address-space handles created from this VM are still live.
    pub closed spec fn spec_live_spaces(self) -> u64 {
        self.live_spaces
    }

    /// Finishes the call that creates the VM instance for the current
    /// process with the options `options`.  Only one VM can exist at a
    /// time; the framework refuses every further attempt through `code`.
    pub fn new(options: VmOptions, code: u32) -> (r: Result<Vm, Error>)
        ensures
            r is Ok <==> code == HV_SUCCESS,
            r matches Ok(vm) ==> vm.spec_live_vcpus() == 0 && vm.spec_live_spaces() == 0,
            r matches Err(e) ==> e == Error::spec_from_code(code),
    {
        match check_return(code) {
            Ok(()) => Ok(Vm { live_vcpus: 0, live_spaces: 0 }),
            Err(e) => Err(e),
        }
    }

    /// How many vCPU handles created from this VM are still live.
    pub fn live_vcpus(&self) -> (r: u64)
        ensures
            r == self.spec_live_vcpus(),
    {
        self.live_vcpus
    }

    /// How many address-space handles created from this VM are still live.
    pub fn live_spaces(&self) -> (r: u64)
        ensures
            r == self.spec_live_spaces(),
    {
        self.live_spaces
    }

    /// Finishes the call that creates a vCPU for the current thread;
    /// `id` is the vCPU identifier the framework wrote.  On success the
    /// new handle is counted against this VM until `destroy_cpu` gives
    /// it back.
    pub fn create_cpu(&mut self, id: u64, code: u32) -> (r: Result<Vcpu, Error>)
        requires
            old(self).spec_live_vcpus() < u64::MAX,
        ensures
            r is Ok <==> code == HV_SUCCESS,
            r matches Ok(cpu) ==> cpu.spec_id() == id && final(self).spec_live_vcpus() == old(
                self,
            ).spec_live_vcpus() + 1,
            r is Err ==> final(self).spec_live_vcpus() == old(self).spec_live_vcpus(),
            r matches Err(e) ==> e == Error::spec_from_code(code),
            final(self).spec_live_spaces() == old(self).spec_live_spaces(),
    {
        match check_return(code) {
            Ok(()) => {
                self.live_vcpus = self.live_vcpus + 1;
                Ok(Vcpu::new(id))
            },
            Err(e) => Err(e),
        }
    }

    /// Finishes the call that destroys the vCPU `cpu`, consuming the
    /// handle and releasing its slot on this VM.
    pub fn destroy_cpu(&mut self, cpu: Vcpu, code: u32) -> (r: Result<(), Error>)
        requires
            old(self).spec_live_vcpus() > 0,
        ensures
            r is Ok <==> code == HV_SUCCESS,
            r matches Err(e) ==> e == Error::spec_from_code(code),
            final(self).spec_live_vcpus() == old(self).spec_live_vcpus() - 1,
            final(self).spec_live_spaces() == old(self).spec_live_spaces(),
    {
        self.live_vcpus = self.live_vcpus - 1;
        check_return(code)
    }

    /// Finishes the call that creates an additional guest address space;
    /// `id` is the space identifier the framework wrote.  On success the
    /// new handle is counted against this VM until `destroy_space` gives
    /// it back.
    pub fn create_space(&mut self, id: u64, code: u32) -> (r: Result<Space, Error>)
        requires
            old(self).spec_live_spaces() < u64::MAX,
        ensures
            r is Ok <==> code == HV_SUCCESS,
            r matches Ok(space) ==> space.spec_id() == id && final(self).spec_live_spaces() == old(
                self,
            ).spec_live_spaces() + 1,
            r is Err ==> final(self).spec_live_spaces() == old(self).spec_live_spaces(),
            r matches Err(e) ==> e == Error::spec_from_code(code),
            final(self).spec_live_vcpus() == old(self).spec_live_vcpus(),
    {
        match check_return(code) {
            Ok(()) => {
                self.live_spaces = self.live_spaces + 1;
                Ok(Space::new(id))
            },
            Err(e) => Err(e),
        }
    }

    /// Finishes the call that destroys the address space `space`,
    /// consuming the handle and releasing its slot on this VM.
    pub fn destroy_space(&mut self, space: Space, code: u32) -> (r: Result<(), Error>)
        requires
            old(self).spec_live_spaces() > 0,
        ensures
            r is Ok <==> code == HV_SUCCESS,
            r matches Err(e) ==> e == Error::spec_from_code(code),
            final(self).spec_live_spaces() == old(self).spec_live_spaces() - 1,
            final(self).spec_live_vcpus() == old(self).spec_live_vcpus(),
    {
        self.live_spaces = self.live_spaces - 1;
        check_return(code)
    }

    /// Finishes the query for the system capability `cap`; `value` is
    /// the out-value the framework wrote.
    pub fn capability(&self, cap: Capability, code: u32, value: u64) -> (r: Result<u64, Error>)
        ensures
            r is Ok <==> code == HV_SUCCESS,
            r matches Ok(v) ==> v == value,
            r matches Err(e) ==> e == Error::spec_from_code(code),
    {
        match check_return(code) {
            Ok(()) => Ok(value),
            Err(e) => Err(e),
        }
    }

    /// Finishes the call that maps the task-virtual region at `uva` to
    /// the guest-physical region at `gpa`, `size` bytes with the
    /// permissions `flags`.  Both addresses must be page aligned and the
    /// host memory must stay valid for the mapping's lifetime; the
    /// framework checks and reports through `code`.
    pub fn map(&self, uva: UVAddr, gpa: GPAddr, size: u64, flags: Memory, code: u32) -> (r: Result<
        (),
        Error,
    >)
        ensures
            r is Ok <==> code == HV_SUCCESS,
            r matches Err(e) ==> e == Error::spec_from_code(code),
    {
        check_return(code)
    }

    /// Finishes the call that unmaps the guest-physical region at `gpa`
    /// of `size` bytes.
    pub fn unmap(&self, gpa: GPAddr, size: u64, code: u32) -> (r: Result<(), Error>)
        ensures
            r is Ok <==> code == HV_SUCCESS,
            r matches Err(e) ==> e == Error::spec_from_code(code),
    {
        check_return(code)
    }

    /// Finishes the call that changes the permissions of the
    /// guest-physical region at `gpa` of `size` bytes to `flags`.
    pub fn protect(&self, gpa: GPAddr, size: u64, flags: Memory, code: u32) -> (r: Result<
        (),
        Error,
    >)
        ensures
            r is Ok <==> code == HV_SUCCESS,
            r matches Err(e) ==> e == Error::spec_from_code(code),
    {
        check_return(code)
    }

    /// Finishes the call that synchronizes the guest timestamp counter
    /// across all vCPUs to `tsc`.
    pub fn sync_tsc(tsc: u64, code: u32) -> (r: Result<(), Error>)
        ensures
            r is Ok <==> code == HV_SUCCESS,
            r matches Err(e) ==> e == Error::spec_from_code(code),
    {
        check_return(code)
    }

    /// Finishes the call that destroys the VM instance, consuming the
    /// handle.  The VM can only be given up once every vCPU and every
    /// address space created from it has been destroyed first: that
    /// ordering is the library's own obligation, stated here as the
    /// precondition.
    pub fn destroy(self, code: u32) -> (r: Result<(), Error>)
        requires
            self.spec_live_vcpus() == 0,
            self.spec_live_spaces() == 0,
        ensures
            r is Ok <==> code == HV_SUCCESS,
            r matches Err(e) ==> e == Error::spec_from_code(code),
    {
        check_return(code)
    }
}

} // verus!
