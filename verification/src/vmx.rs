//! The VMX capability field enumeration and its numeric identifiers.
//!
//! Before configuring a vCPU a caller queries which VMX controls the host
//! processor supports. The six queryable capability fields carry the fixed
//! numeric identifiers 0, 1, 2, 3, 4 and 32; the packed 64-bit value the
//! framework returns for one is passed through to the caller unchanged.

use vstd::prelude::*;

verus! {

/// VMX capability field
#[allow(non_camel_case_types)]
#[derive(Clone, Copy, Debug, PartialEq, Eq, Structural)]
pub enum VMXCap {
    /// Pin-based VMX capabilities
    PINBASED,
    /// Primary proc-based VMX capabilities
    PROCBASED,
    /// Secondary proc-based VMX capabilities
    PROCBASED2,
    /// VM-entry VMX capabilities
    ENTRY,
    /// VM-exit VMX capabilities
    EXIT,
    /// VMX preemption timer frequency
    PREEMPTION_TIMER,
}

/// The numeric identifier under which the framework addresses a VMX
/// capability field.
pub open spec fn vmx_cap_id(cap: VMXCap) -> u32 {
    match cap {
        VMXCap::PINBASED => 0,
        VMXCap::PROCBASED => 1,
        VMXCap::PROCBASED2 => 2,
        VMXCap::ENTRY => 3,
        VMXCap::EXIT => 4,
        VMXCap::PREEMPTION_TIMER => 32,
    }
}

/// Encodes a VMX capability field as the numeric identifier the framework
/// addresses it by.
#[allow(non_snake_case)]
pub fn match_VMXCap(cap: &VMXCap) -> (r: u32)
    ensures
        r == vmx_cap_id(*cap),
{
    match cap {
        VMXCap::PINBASED => 0,
        VMXCap::PROCBASED => 1,
        VMXCap::PROCBASED2 => 2,
        VMXCap::ENTRY => 3,
        VMXCap::EXIT => 4,
        VMXCap::PREEMPTION_TIMER => 32,
    }
}

impl VMXCap {
    /// A short description of the capability field.
    pub fn description(&self) -> (r: &'static str)
        ensures
            *self is PINBASED ==> r@ == "Pin-based VMX capabilities"@,
            *self is PROCBASED ==> r@ == "Primary proc-based VMX capabilities"@,
            *self is PROCBASED2 ==> r@ == "Secondary proc-based VMX capabilities"@,
            *self is ENTRY ==> r@ == "VM-entry VMX capabilities"@,
            *self is EXIT ==> r@ == "VM-exit VMX capabilities"@,
            *self is PREEMPTION_TIMER ==> r@ == "VMX preemption timer frequency"@,
    {
        match *self {
            VMXCap::PINBASED => "Pin-based VMX capabilities",
            VMXCap::PROCBASED => "Primary proc-based VMX capabilities",
            VMXCap::PROCBASED2 => "Secondary proc-based VMX capabilities",
            VMXCap::ENTRY => "VM-entry VMX capabilities",
            VMXCap::EXIT => "VM-exit VMX capabilities",
            VMXCap::PREEMPTION_TIMER => "VMX preemption timer frequency",
        }
    }
}

/// Law: the six VMX capability fields map, in declaration order, to the
/// documented numeric identifiers 0, 1, 2, 3, 4 and 32, and no two fields
/// share an identifier.
pub proof fn lemma_vmx_cap_ids()
    ensures
        vmx_cap_id(VMXCap::PINBASED) == 0,
        vmx_cap_id(VMXCap::PROCBASED) == 1,
        vmx_cap_id(VMXCap::PROCBASED2) == 2,
        vmx_cap_id(VMXCap::ENTRY) == 3,
        vmx_cap_id(VMXCap::EXIT) == 4,
        vmx_cap_id(VMXCap::PREEMPTION_TIMER) == 32,
        forall|a: VMXCap, b: VMXCap| vmx_cap_id(a) == vmx_cap_id(b) ==> a == b,
{
}

} // verus!
