//! A single virtual CPU.

use vstd::prelude::*;
use crate::check_return;
use crate::Error;
use crate::HV_SUCCESS;

verus! {

/// Represents a single virtual CPU.
///
/// A vCPU belongs to the thread that created it: the shell must issue
/// every framework call for this handle from that thread.  The handle is
/// created by `Vm::create_cpu` and given back with `Vm::destroy_cpu`, so
/// the owning VM cannot be torn down while it is live.
///
/// Each method here finishes one framework call on this vCPU: the shell
/// issues the raw call with the identifiers and masks the library
/// encodes, and hands the returned code (with any out-value) back in.
#[derive(Debug)]
pub struct Vcpu {
    id: u64,
}

impl Vcpu {
    /// The raw vCPU identifier the framework assigned to this handle.
    pub closed spec fn spec_id(self) -> u64 {
        self.id
    }

    pub(crate) fn new(id: u64) -> (r: Vcpu)
        ensures
            r.spec_id() == id,
    {
        Vcpu { id }
    }

    /// The raw vCPU identifier, as the framework calls expect it.
    pub fn id(&self) -> (r: u64)
        ensures
            r == self.spec_id(),
    {
        self.id
    }

    /// Finishes the call that associates this vCPU with the address
    /// space `asid`.
    pub fn set_space(&self, asid: u64, code: u32) -> (r: Result<(), Error>)
        ensures
            r is Ok <==> code == HV_SUCCESS,
            r matches Err(e) ==> e == Error::spec_from_code(code),
    {
        check_return(code)
    }

    /// Finishes the call that flushes the cached state of this vCPU.
    pub fn flush(&self, code: u32) -> (r: Result<(), Error>)
        ensures
            r is Ok <==> code == HV_SUCCESS,
            r matches Err(e) ==> e == Error::spec_from_code(code),
    {
        check_return(code)
    }

    /// Finishes the call that invalidates the TLB of this vCPU.
    pub fn invalidate_tlb(&self, code: u32) -> (r: Result<(), Error>)
        ensures
            r is Ok <==> code == HV_SUCCESS,
            r matches Err(e) ==> e == Error::spec_from_code(code),
    {
        check_return(code)
    }

    /// Finishes the run call, which blocked the calling thread until the
    /// guest exited back to the host.
    pub fn run(&self, code: u32) -> (r: Result<(), Error>)
        ensures
            r is Ok <==> code == HV_SUCCESS,
            r matches Err(e) ==> e == Error::spec_from_code(code),
    {
        check_return(code)
    }

    /// Finishes the run call bounded by the deadline `deadline`.
    pub fn run_until(&self, deadline: u64, code: u32) -> (r: Result<(), Error>)
        ensures
            r is Ok <==> code == HV_SUCCESS,
            r matches Err(e) ==> e == Error::spec_from_code(code),
    {
        check_return(code)
    }

    /// Finishes the query for the cumulative execution time of this
    /// vCPU; `nanos` is the out-value the framework wrote.
    pub fn exec_time(&self, code: u32, nanos: u64) -> (r: Result<u64, Error>)
        ensures
            r is Ok <==> code == HV_SUCCESS,
            r matches Ok(v) ==> v == nanos,
            r matches Err(e) ==> e == Error::spec_from_code(code),
    {
        match check_return(code) {
            Ok(()) => Ok(nanos),
            Err(e) => Err(e),
        }
    }

    /// Finishes the cross-thread call that forces an immediate exit of
    /// this vCPU back to the host.
    pub fn interrupt(&self, code: u32) -> (r: Result<(), Error>)
        ensures
            r is Ok <==> code == HV_SUCCESS,
            r matches Err(e) ==> e == Error::spec_from_code(code),
    {
        check_return(code)
    }

    /// Finishes the call that lets the guest use the MSR `msr` natively.
    pub fn enable_native_msr(&self, msr: u32, enable: bool, code: u32) -> (r: Result<(), Error>)
        ensures
            r is Ok <==> code == HV_SUCCESS,
            r matches Err(e) ==> e == Error::spec_from_code(code),
    {
        check_return(code)
    }

    /// Finishes the read of the MSR `msr`; `value` is the out-value the
    /// framework wrote.
    pub fn read_msr(&self, msr: u32, code: u32, value: u64) -> (r: Result<u64, Error>)
        ensures
            r is Ok <==> code == HV_SUCCESS,
            r matches Ok(v) ==> v == value,
            r matches Err(e) ==> e == Error::spec_from_code(code),
    {
        match check_return(code) {
            Ok(()) => Ok(value),
            Err(e) => Err(e),
        }
    }

    /// Finishes the write of `value` to the MSR `msr`.
    pub fn write_msr(&self, msr: u32, value: u64, code: u32) -> (r: Result<(), Error>)
        ensures
            r is Ok <==> code == HV_SUCCESS,
            r matches Err(e) ==> e == Error::spec_from_code(code),
    {
        check_return(code)
    }
}

} // verus!
