//! Guest physical memory permissions.
//!
//! A mapping or protection call hands the framework a bitwise composition of
//! three flags. Callers name their intent with [`MemPerm`]; the composition
//! is fixed here, with write intents always carrying the read flag.

use vstd::prelude::*;

verus! {

/// Flag permitting guest reads of the mapped region.
pub const HV_MEMORY_READ: u64 = 1;
/// Flag permitting guest writes of the mapped region.
pub const HV_MEMORY_WRITE: u64 = 2;
/// Flag permitting guest instruction fetches from the mapped region.
pub const HV_MEMORY_EXEC: u64 = 4;

/// Guest physical memory region permissions
#[derive(Clone, Copy, Debug, PartialEq, Eq, Structural)]
pub enum MemPerm {
    /// Read
    Read,
    /// Write (implies read)
    Write,
    /// Execute
    Exec,
    /// Execute and write (implies read)
    ExecAndWrite,
    /// Execute and read
    ExecAndRead,
}

/// The flag composition that a permission intent denotes.
pub open spec fn perm_flags(perm: MemPerm) -> u64 {
    match perm {
        MemPerm::Read => HV_MEMORY_READ,
        MemPerm::Write => HV_MEMORY_WRITE | HV_MEMORY_READ,
        MemPerm::Exec => HV_MEMORY_EXEC,
        MemPerm::ExecAndWrite => HV_MEMORY_EXEC | HV_MEMORY_WRITE | HV_MEMORY_READ,
        MemPerm::ExecAndRead => HV_MEMORY_EXEC | HV_MEMORY_READ,
    }
}

/// Composes the framework's memory flags for a permission intent.
#[allow(non_snake_case)]
pub fn match_MemPerm(mem_perm: &MemPerm) -> (r: u64)
    ensures
        r == perm_flags(*mem_perm),
{
    match mem_perm {
        MemPerm::Read => HV_MEMORY_READ,
        MemPerm::Write => HV_MEMORY_WRITE | HV_MEMORY_READ,
        MemPerm::Exec => HV_MEMORY_EXEC,
        MemPerm::ExecAndWrite => HV_MEMORY_EXEC | HV_MEMORY_WRITE | HV_MEMORY_READ,
        MemPerm::ExecAndRead => HV_MEMORY_EXEC | HV_MEMORY_READ,
    }
}

/// Law: every write intent carries the read flag, a bare read intent carries
/// neither the write nor the execute flag, and composing an intent's flags
/// with themselves changes nothing.
pub proof fn lemma_perm_flag_composition()
    ensures
        perm_flags(MemPerm::Write) & HV_MEMORY_READ == HV_MEMORY_READ,
        perm_flags(MemPerm::ExecAndWrite) & HV_MEMORY_READ == HV_MEMORY_READ,
        perm_flags(MemPerm::Read) & HV_MEMORY_WRITE == 0,
        perm_flags(MemPerm::Read) & HV_MEMORY_EXEC == 0,
        forall|perm: MemPerm|
            #[trigger] (perm_flags(perm) | perm_flags(perm)) == perm_flags(perm),
{
    assert((2u64 | 1u64) & 1u64 == 1u64) by (bit_vector);
    assert((4u64 | 2u64 | 1u64) & 1u64 == 1u64) by (bit_vector);
    assert(1u64 & 2u64 == 0u64) by (bit_vector);
    assert(1u64 & 4u64 == 0u64) by (bit_vector);
    assert(forall|flags: u64| #[trigger] (flags | flags) == flags) by (bit_vector);
}

} // verus!
