//! The framework's numeric return codes and their total mapping onto the
//! closed error taxonomy.
//!
//! Every entry point of the underlying virtualization framework reports its
//! outcome as one 32-bit status code. This module fixes the seven documented
//! codes as constants and maps an arbitrary code onto exactly one [`Error`]
//! outcome; a code outside the documented set falls back to the generic
//! [`Error::Error`] variant, never to a panic.

use vstd::prelude::*;

verus! {

/// Status code reported on success.
pub const HV_SUCCESS: u32 = 0;
/// Status code for an unspecified failure.
pub const HV_ERROR: u32 = 0xfae94001;
/// Status code reported while the framework is busy.
pub const HV_BUSY: u32 = 0xfae94002;
/// Status code for a malformed argument.
pub const HV_BAD_ARGUMENT: u32 = 0xfae94003;
/// Status code reported when a resource limit is reached.
pub const HV_NO_RESOURCES: u32 = 0xfae94005;
/// Status code reported when the hardware lacks a required feature.
pub const HV_NO_DEVICE: u32 = 0xfae94006;
/// Status code for an unsupported operation.
pub const HV_UNSUPPORTED: u32 = 0xfae9400f;

/// Outcome of a call into the virtualization framework.
#[derive(Clone, Copy, Debug, PartialEq, Eq, Structural)]
pub enum Error {
    /// Success
    Success,
    /// Error
    Error,
    /// Busy
    Busy,
    /// Bad argument
    BadArg,
    /// No resources
    NoRes,
    /// No device
    NoDev,
    /// Unsupported
    Unsupp,
}

/// The outcome that a numeric status code denotes. Total: a code outside the
/// documented set denotes the generic `Error` outcome.
pub open spec fn error_of_code(code: u32) -> Error {
    if code == HV_SUCCESS {
        Error::Success
    } else if code == HV_BUSY {
        Error::Busy
    } else if code == HV_BAD_ARGUMENT {
        Error::BadArg
    } else if code == HV_NO_RESOURCES {
        Error::NoRes
    } else if code == HV_NO_DEVICE {
        Error::NoDev
    } else if code == HV_UNSUPPORTED {
        Error::Unsupp
    } else {
        Error::Error
    }
}

/// Turns a status code reported by a framework call with no payload into the
/// call's result: success becomes `Ok`, any other code becomes the `Err`
/// outcome it denotes.
pub fn match_error_code(code: u32) -> (r: Result<(), Error>)
    ensures
        r is Ok <==> code == HV_SUCCESS,
        r is Err ==> r->Err_0 == error_of_code(code),
{
    match code {
        HV_SUCCESS => Ok(()),
        HV_BUSY => Err(Error::Busy),
        HV_BAD_ARGUMENT => Err(Error::BadArg),
        HV_NO_RESOURCES => Err(Error::NoRes),
        HV_NO_DEVICE => Err(Error::NoDev),
        HV_UNSUPPORTED => Err(Error::Unsupp),
        _ => Err(Error::Error),
    }
}

/// Turns a status code and the 64-bit payload written by a framework call
/// into the call's result: on success the payload is handed through
/// unchanged, any other code becomes the `Err` outcome it denotes.
pub fn match_value_code(code: u32, value: u64) -> (r: Result<u64, Error>)
    ensures
        r is Ok <==> code == HV_SUCCESS,
        r is Ok ==> r->Ok_0 == value,
        r is Err ==> r->Err_0 == error_of_code(code),
{
    match match_error_code(code) {
        Ok(()) => Ok(value),
        Err(e) => Err(e),
    }
}

impl Error {
    /// A short description of the outcome.
    pub fn description(&self) -> (r: &'static str)
        ensures
            *self is Success ==> r@ == "Success"@,
            *self is Error ==> r@ == "Error"@,
            *self is Busy ==> r@ == "Busy"@,
            *self is BadArg ==> r@ == "Bad argument"@,
            *self is NoRes ==> r@ == "No resources"@,
            *self is NoDev ==> r@ == "No device"@,
            *self is Unsupp ==> r@ == "Unsupported"@,
    {
        match *self {
            Error::Success => "Success",
            Error::Error => "Error",
            Error::Busy => "Busy",
            Error::BadArg => "Bad argument",
            Error::NoRes => "No resources",
            Error::NoDev => "No device",
            Error::Unsupp => "Unsupported",
        }
    }
}

/// Law: on the seven documented status codes the mapping yields, in order,
/// `Success`, `Error`, `Busy`, `BadArg`, `NoRes`, `NoDev` and `Unsupp`, and
/// every code outside the documented set yields the generic `Error` outcome.
pub proof fn lemma_error_code_mapping()
    ensures
        error_of_code(HV_SUCCESS) == Error::Success,
        error_of_code(HV_ERROR) == Error::Error,
        error_of_code(HV_BUSY) == Error::Busy,
        error_of_code(HV_BAD_ARGUMENT) == Error::BadArg,
        error_of_code(HV_NO_RESOURCES) == Error::NoRes,
        error_of_code(HV_NO_DEVICE) == Error::NoDev,
        error_of_code(HV_UNSUPPORTED) == Error::Unsupp,
        forall|code: u32|
            code != HV_SUCCESS && code != HV_BUSY && code != HV_BAD_ARGUMENT
                && code != HV_NO_RESOURCES && code != HV_NO_DEVICE && code != HV_UNSUPPORTED
                ==> #[trigger] error_of_code(code) == Error::Error,
{
}

} // verus!
