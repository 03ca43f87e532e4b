//! Interrupt Request (IRQ) Codes

use vstd::prelude::*;

verus! {

pub const IRQ_INFO_EXT_IRQ       : u32 = 0 <<  8;
pub const IRQ_INFO_NMI           : u32 = 2 <<  8;
pub const IRQ_INFO_HARD_EXC      : u32 = 3 <<  8;
pub const IRQ_INFO_SOFT_IRQ      : u32 = 4 <<  8;
pub const IRQ_INFO_PRIV_SOFT_EXC : u32 = 5 <<  8;
pub const IRQ_INFO_SOFT_EXC      : u32 = 6 <<  8;
pub const IRQ_INFO_ERROR_VALID   : u32 = 1 << 11;
pub const IRQ_INFO_VALID         : u32 = 1 << 31;

} // verus!
