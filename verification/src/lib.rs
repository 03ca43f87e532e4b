//! A safe, verified translation layer for a hardware-virtualization
//! framework of the host operating system.
//!
//! The framework itself — creating a virtual machine for the current task,
//! running virtual CPUs, mapping guest physical memory — lives in the host
//! kernel and is reached through a fixed set of entry points that report a
//! numeric status code. This crate holds everything of that binding that is
//! plain computation, with its behaviour proved: the closed error taxonomy
//! and the total mapping of status codes onto it, the architectural register
//! and VMX capability enumerations with their numeric identifiers, the
//! memory-permission flag composition, the vCPU handle lifecycle, and the
//! framework's constant tables.

pub mod consts;
pub mod memory;
pub mod register;
pub mod status;
pub mod vcpu;
pub mod vmx;

pub use memory::match_MemPerm;
pub use memory::MemPerm;
pub use memory::HV_MEMORY_EXEC;
pub use memory::HV_MEMORY_READ;
pub use memory::HV_MEMORY_WRITE;
pub use register::match_x86Reg;
pub use register::x86Reg;
pub use status::match_error_code;
pub use status::match_value_code;
pub use status::Error;
pub use status::HV_BAD_ARGUMENT;
pub use status::HV_BUSY;
pub use status::HV_ERROR;
pub use status::HV_NO_DEVICE;
pub use status::HV_NO_RESOURCES;
pub use status::HV_SUCCESS;
pub use status::HV_UNSUPPORTED;
pub use vcpu::vCPU;
pub use vcpu::HV_VCPU_DEFAULT;
pub use vcpu::HV_VM_DEFAULT;
pub use vmx::match_VMXCap;
pub use vmx::VMXCap;
