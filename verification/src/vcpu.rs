//! The virtual CPU handle and its lifecycle.
//!
//! The framework assigns every vCPU an opaque 32-bit identifier at creation
//! and expects each identifier to be destroyed exactly once, on the thread
//! that created it. The handle type here makes misuse unrepresentable:
//! a [`vCPU`] comes into existence only when the framework reported a
//! successful creation, and destroying it consumes the handle, so no
//! operation can name the identifier of a destroyed vCPU again.

use vstd::prelude::*;

use crate::status::error_of_code;
use crate::status::match_error_code;
use crate::status::Error;
use crate::status::HV_SUCCESS;

verus! {

/// Default creation flags for a VM instance.
pub const HV_VM_DEFAULT: u64 = 0;
/// Default creation flags for a vCPU instance.
pub const HV_VCPU_DEFAULT: u64 = 0;

/// Virtual CPU handle, owning the identifier the framework assigned at
/// creation.
#[allow(non_camel_case_types)]
#[derive(Debug)]
pub struct vCPU {
    id: u32,
}

impl vCPU {
    /// The identifier this handle owns.
    pub closed spec fn id_spec(&self) -> u32 {
        self.id
    }

    /// Completes a creation call: wraps the identifier the framework
    /// assigned into a live handle exactly when the reported status is
    /// success, and surfaces the mapped error otherwise.
    pub fn new(code: u32, assigned_id: u32) -> (r: Result<vCPU, Error>)
        ensures
            r is Ok <==> code == HV_SUCCESS,
            r is Ok ==> r->Ok_0.id_spec() == assigned_id,
            r is Err ==> r->Err_0 == error_of_code(code),
    {
        match match_error_code(code) {
            Ok(()) => Ok(vCPU { id: assigned_id }),
            Err(e) => Err(e),
        }
    }

    /// Returns the identifier this handle owns, for calls that address the
    /// vCPU by raw identifier.
    pub fn id(&self) -> (r: u32)
        ensures
            r == self.id_spec(),
    {
        self.id
    }

    /// Completes a destruction call: consumes the handle, so nothing can
    /// address this vCPU afterwards, and maps the reported status.
    pub fn destroy(self, code: u32) -> (r: Result<(), Error>)
        ensures
            r is Ok <==> code == HV_SUCCESS,
            r is Err ==> r->Err_0 == error_of_code(code),
    {
        match_error_code(code)
    }
}

} // verus!
