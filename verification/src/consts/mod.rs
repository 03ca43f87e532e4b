//! The framework's constant tables: VMCS field IDs, VMX capability bits,
//! VMX exit reasons and interrupt-information codes. They are data, kept
//! verbatim; the library does not interpret them.

pub mod irq;
pub mod vmcs;
pub mod vmx_cap;
pub mod vmx_exit;

use vstd::prelude::*;

verus! {

pub const VMX_BASIC_TRUE_CTLS: u64 = 1 << 55;

} // verus!
