//! The architectural x86 register enumeration and its numeric identifiers.
//!
//! The framework addresses guest registers by small numeric identifiers.
//! [`x86Reg`] gives each addressable register a symbolic name; the mapping
//! onto the framework's identifiers is a bijection, stated by
//! [`lemma_register_id_bijection`] and decodable through [`x86Reg::from_id`].

use vstd::prelude::*;

verus! {

/// x86 architectural register
#[allow(non_camel_case_types)]
#[derive(Clone, Copy, Debug, PartialEq, Eq, Structural)]
pub enum x86Reg {
    RIP,
    RFLAGS,
    RAX,
    RCX,
    RDX,
    RBX,
    RSI,
    RDI,
    RSP,
    RBP,
    R8,
    R9,
    R10,
    R11,
    R12,
    R13,
    R14,
    R15,
    CS,
    SS,
    DS,
    ES,
    FS,
    GS,
    IDT_BASE,
    IDT_LIMIT,
    GDT_BASE,
    GDT_LIMIT,
    LDTR,
    LDT_BASE,
    LDT_LIMIT,
    LDT_AR,
    TR,
    TSS_BASE,
    TSS_LIMIT,
    TSS_AR,
    CR0,
    CR1,
    CR2,
    CR3,
    CR4,
    DR0,
    DR1,
    DR2,
    DR3,
    DR4,
    DR5,
    DR6,
    DR7,
    TPR,
    XCR0,
    REGISTERS_MAX,
}

/// The numeric identifier under which the framework addresses a register.
pub open spec fn reg_id(reg: x86Reg) -> u32 {
    match reg {
        x86Reg::RIP => 0,
        x86Reg::RFLAGS => 1,
        x86Reg::RAX => 2,
        x86Reg::RCX => 3,
        x86Reg::RDX => 4,
        x86Reg::RBX => 5,
        x86Reg::RSI => 6,
        x86Reg::RDI => 7,
        x86Reg::RSP => 8,
        x86Reg::RBP => 9,
        x86Reg::R8 => 10,
        x86Reg::R9 => 11,
        x86Reg::R10 => 12,
        x86Reg::R11 => 13,
        x86Reg::R12 => 14,
        x86Reg::R13 => 15,
        x86Reg::R14 => 16,
        x86Reg::R15 => 17,
        x86Reg::CS => 18,
        x86Reg::SS => 19,
        x86Reg::DS => 20,
        x86Reg::ES => 21,
        x86Reg::FS => 22,
        x86Reg::GS => 23,
        x86Reg::IDT_BASE => 24,
        x86Reg::IDT_LIMIT => 25,
        x86Reg::GDT_BASE => 26,
        x86Reg::GDT_LIMIT => 27,
        x86Reg::LDTR => 28,
        x86Reg::LDT_BASE => 29,
        x86Reg::LDT_LIMIT => 30,
        x86Reg::LDT_AR => 31,
        x86Reg::TR => 32,
        x86Reg::TSS_BASE => 33,
        x86Reg::TSS_LIMIT => 34,
        x86Reg::TSS_AR => 35,
        x86Reg::CR0 => 36,
        x86Reg::CR1 => 37,
        x86Reg::CR2 => 38,
        x86Reg::CR3 => 39,
        x86Reg::CR4 => 40,
        x86Reg::DR0 => 41,
        x86Reg::DR1 => 42,
        x86Reg::DR2 => 43,
        x86Reg::DR3 => 44,
        x86Reg::DR4 => 45,
        x86Reg::DR5 => 46,
        x86Reg::DR6 => 47,
        x86Reg::DR7 => 48,
        x86Reg::TPR => 49,
        x86Reg::XCR0 => 50,
        x86Reg::REGISTERS_MAX => 51,
    }
}

/// The register that a numeric identifier addresses, if any.
pub open spec fn reg_of_id(id: u32) -> Option<x86Reg> {
    match id {
        0u32 => Some(x86Reg::RIP),
        1u32 => Some(x86Reg::RFLAGS),
        2u32 => Some(x86Reg::RAX),
        3u32 => Some(x86Reg::RCX),
        4u32 => Some(x86Reg::RDX),
        5u32 => Some(x86Reg::RBX),
        6u32 => Some(x86Reg::RSI),
        7u32 => Some(x86Reg::RDI),
        8u32 => Some(x86Reg::RSP),
        9u32 => Some(x86Reg::RBP),
        10u32 => Some(x86Reg::R8),
        11u32 => Some(x86Reg::R9),
        12u32 => Some(x86Reg::R10),
        13u32 => Some(x86Reg::R11),
        14u32 => Some(x86Reg::R12),
        15u32 => Some(x86Reg::R13),
        16u32 => Some(x86Reg::R14),
        17u32 => Some(x86Reg::R15),
        18u32 => Some(x86Reg::CS),
        19u32 => Some(x86Reg::SS),
        20u32 => Some(x86Reg::DS),
        21u32 => Some(x86Reg::ES),
        22u32 => Some(x86Reg::FS),
        23u32 => Some(x86Reg::GS),
        24u32 => Some(x86Reg::IDT_BASE),
        25u32 => Some(x86Reg::IDT_LIMIT),
        26u32 => Some(x86Reg::GDT_BASE),
        27u32 => Some(x86Reg::GDT_LIMIT),
        28u32 => Some(x86Reg::LDTR),
        29u32 => Some(x86Reg::LDT_BASE),
        30u32 => Some(x86Reg::LDT_LIMIT),
        31u32 => Some(x86Reg::LDT_AR),
        32u32 => Some(x86Reg::TR),
        33u32 => Some(x86Reg::TSS_BASE),
        34u32 => Some(x86Reg::TSS_LIMIT),
        35u32 => Some(x86Reg::TSS_AR),
        36u32 => Some(x86Reg::CR0),
        37u32 => Some(x86Reg::CR1),
        38u32 => Some(x86Reg::CR2),
        39u32 => Some(x86Reg::CR3),
        40u32 => Some(x86Reg::CR4),
        41u32 => Some(x86Reg::DR0),
        42u32 => Some(x86Reg::DR1),
        43u32 => Some(x86Reg::DR2),
        44u32 => Some(x86Reg::DR3),
        45u32 => Some(x86Reg::DR4),
        46u32 => Some(x86Reg::DR5),
        47u32 => Some(x86Reg::DR6),
        48u32 => Some(x86Reg::DR7),
        49u32 => Some(x86Reg::TPR),
        50u32 => Some(x86Reg::XCR0),
        51u32 => Some(x86Reg::REGISTERS_MAX),
        _ => None,
    }
}

/// Encodes a register as the numeric identifier the framework addresses it
/// by.
#[allow(non_snake_case)]
pub fn match_x86Reg(reg: &x86Reg) -> (r: u32)
    ensures
        r == reg_id(*reg),
{
    match reg {
        x86Reg::RIP => 0,
        x86Reg::RFLAGS => 1,
        x86Reg::RAX => 2,
        x86Reg::RCX => 3,
        x86Reg::RDX => 4,
        x86Reg::RBX => 5,
        x86Reg::RSI => 6,
        x86Reg::RDI => 7,
        x86Reg::RSP => 8,
        x86Reg::RBP => 9,
        x86Reg::R8 => 10,
        x86Reg::R9 => 11,
        x86Reg::R10 => 12,
        x86Reg::R11 => 13,
        x86Reg::R12 => 14,
        x86Reg::R13 => 15,
        x86Reg::R14 => 16,
        x86Reg::R15 => 17,
        x86Reg::CS => 18,
        x86Reg::SS => 19,
        x86Reg::DS => 20,
        x86Reg::ES => 21,
        x86Reg::FS => 22,
        x86Reg::GS => 23,
        x86Reg::IDT_BASE => 24,
        x86Reg::IDT_LIMIT => 25,
        x86Reg::GDT_BASE => 26,
        x86Reg::GDT_LIMIT => 27,
        x86Reg::LDTR => 28,
        x86Reg::LDT_BASE => 29,
        x86Reg::LDT_LIMIT => 30,
        x86Reg::LDT_AR => 31,
        x86Reg::TR => 32,
        x86Reg::TSS_BASE => 33,
        x86Reg::TSS_LIMIT => 34,
        x86Reg::TSS_AR => 35,
        x86Reg::CR0 => 36,
        x86Reg::CR1 => 37,
        x86Reg::CR2 => 38,
        x86Reg::CR3 => 39,
        x86Reg::CR4 => 40,
        x86Reg::DR0 => 41,
        x86Reg::DR1 => 42,
        x86Reg::DR2 => 43,
        x86Reg::DR3 => 44,
        x86Reg::DR4 => 45,
        x86Reg::DR5 => 46,
        x86Reg::DR6 => 47,
        x86Reg::DR7 => 48,
        x86Reg::TPR => 49,
        x86Reg::XCR0 => 50,
        x86Reg::REGISTERS_MAX => 51,
    }
}

impl x86Reg {
    /// Decodes a numeric register identifier back to its symbolic name;
    /// `None` for an identifier outside the enumeration.
    pub fn from_id(id: u32) -> (r: Option<x86Reg>)
        ensures
            r == reg_of_id(id),
    {
        match id {
            0 => Some(x86Reg::RIP),
            1 => Some(x86Reg::RFLAGS),
            2 => Some(x86Reg::RAX),
            3 => Some(x86Reg::RCX),
            4 => Some(x86Reg::RDX),
            5 => Some(x86Reg::RBX),
            6 => Some(x86Reg::RSI),
            7 => Some(x86Reg::RDI),
            8 => Some(x86Reg::RSP),
            9 => Some(x86Reg::RBP),
            10 => Some(x86Reg::R8),
            11 => Some(x86Reg::R9),
            12 => Some(x86Reg::R10),
            13 => Some(x86Reg::R11),
            14 => Some(x86Reg::R12),
            15 => Some(x86Reg::R13),
            16 => Some(x86Reg::R14),
            17 => Some(x86Reg::R15),
            18 => Some(x86Reg::CS),
            19 => Some(x86Reg::SS),
            20 => Some(x86Reg::DS),
            21 => Some(x86Reg::ES),
            22 => Some(x86Reg::FS),
            23 => Some(x86Reg::GS),
            24 => Some(x86Reg::IDT_BASE),
            25 => Some(x86Reg::IDT_LIMIT),
            26 => Some(x86Reg::GDT_BASE),
            27 => Some(x86Reg::GDT_LIMIT),
            28 => Some(x86Reg::LDTR),
            29 => Some(x86Reg::LDT_BASE),
            30 => Some(x86Reg::LDT_LIMIT),
            31 => Some(x86Reg::LDT_AR),
            32 => Some(x86Reg::TR),
            33 => Some(x86Reg::TSS_BASE),
            34 => Some(x86Reg::TSS_LIMIT),
            35 => Some(x86Reg::TSS_AR),
            36 => Some(x86Reg::CR0),
            37 => Some(x86Reg::CR1),
            38 => Some(x86Reg::CR2),
            39 => Some(x86Reg::CR3),
            40 => Some(x86Reg::CR4),
            41 => Some(x86Reg::DR0),
            42 => Some(x86Reg::DR1),
            43 => Some(x86Reg::DR2),
            44 => Some(x86Reg::DR3),
            45 => Some(x86Reg::DR4),
            46 => Some(x86Reg::DR5),
            47 => Some(x86Reg::DR6),
            48 => Some(x86Reg::DR7),
            49 => Some(x86Reg::TPR),
            50 => Some(x86Reg::XCR0),
            51 => Some(x86Reg::REGISTERS_MAX),
            _ => None,
        }
    }
}

/// Law: the register enumeration and the framework's numeric identifiers are
/// in bijection — decoding an encoded register gives the register back, so
/// no two distinct registers share an identifier.
pub proof fn lemma_register_id_bijection()
    ensures
        forall|reg: x86Reg| #[trigger] reg_of_id(reg_id(reg)) == Some(reg),
        forall|a: x86Reg, b: x86Reg| reg_id(a) == reg_id(b) ==> a == b,
{
    assert forall|reg: x86Reg| #[trigger] reg_of_id(reg_id(reg)) == Some(reg) by {
        match reg {
            x86Reg::RIP => assert(reg_of_id(0) == Some(x86Reg::RIP)),
            x86Reg::RFLAGS => assert(reg_of_id(1) == Some(x86Reg::RFLAGS)),
            x86Reg::RAX => assert(reg_of_id(2) == Some(x86Reg::RAX)),
            x86Reg::RCX => assert(reg_of_id(3) == Some(x86Reg::RCX)),
            x86Reg::RDX => assert(reg_of_id(4) == Some(x86Reg::RDX)),
            x86Reg::RBX => assert(reg_of_id(5) == Some(x86Reg::RBX)),
            x86Reg::RSI => assert(reg_of_id(6) == Some(x86Reg::RSI)),
            x86Reg::RDI => assert(reg_of_id(7) == Some(x86Reg::RDI)),
            x86Reg::RSP => assert(reg_of_id(8) == Some(x86Reg::RSP)),
            x86Reg::RBP => assert(reg_of_id(9) == Some(x86Reg::RBP)),
            x86Reg::R8 => assert(reg_of_id(10) == Some(x86Reg::R8)),
            x86Reg::R9 => assert(reg_of_id(11) == Some(x86Reg::R9)),
            x86Reg::R10 => assert(reg_of_id(12) == Some(x86Reg::R10)),
            x86Reg::R11 => assert(reg_of_id(13) == Some(x86Reg::R11)),
            x86Reg::R12 => assert(reg_of_id(14) == Some(x86Reg::R12)),
            x86Reg::R13 => assert(reg_of_id(15) == Some(x86Reg::R13)),
            x86Reg::R14 => assert(reg_of_id(16) == Some(x86Reg::R14)),
            x86Reg::R15 => assert(reg_of_id(17) == Some(x86Reg::R15)),
            x86Reg::CS => assert(reg_of_id(18) == Some(x86Reg::CS)),
            x86Reg::SS => assert(reg_of_id(19) == Some(x86Reg::SS)),
            x86Reg::DS => assert(reg_of_id(20) == Some(x86Reg::DS)),
            x86Reg::ES => assert(reg_of_id(21) == Some(x86Reg::ES)),
            x86Reg::FS => assert(reg_of_id(22) == Some(x86Reg::FS)),
            x86Reg::GS => assert(reg_of_id(23) == Some(x86Reg::GS)),
            x86Reg::IDT_BASE => assert(reg_of_id(24) == Some(x86Reg::IDT_BASE)),
            x86Reg::IDT_LIMIT => assert(reg_of_id(25) == Some(x86Reg::IDT_LIMIT)),
            x86Reg::GDT_BASE => assert(reg_of_id(26) == Some(x86Reg::GDT_BASE)),
            x86Reg::GDT_LIMIT => assert(reg_of_id(27) == Some(x86Reg::GDT_LIMIT)),
            x86Reg::LDTR => assert(reg_of_id(28) == Some(x86Reg::LDTR)),
            x86Reg::LDT_BASE => assert(reg_of_id(29) == Some(x86Reg::LDT_BASE)),
            x86Reg::LDT_LIMIT => assert(reg_of_id(30) == Some(x86Reg::LDT_LIMIT)),
            x86Reg::LDT_AR => assert(reg_of_id(31) == Some(x86Reg::LDT_AR)),
            x86Reg::TR => assert(reg_of_id(32) == Some(x86Reg::TR)),
            x86Reg::TSS_BASE => assert(reg_of_id(33) == Some(x86Reg::TSS_BASE)),
            x86Reg::TSS_LIMIT => assert(reg_of_id(34) == Some(x86Reg::TSS_LIMIT)),
            x86Reg::TSS_AR => assert(reg_of_id(35) == Some(x86Reg::TSS_AR)),
            x86Reg::CR0 => assert(reg_of_id(36) == Some(x86Reg::CR0)),
            x86Reg::CR1 => assert(reg_of_id(37) == Some(x86Reg::CR1)),
            x86Reg::CR2 => assert(reg_of_id(38) == Some(x86Reg::CR2)),
            x86Reg::CR3 => assert(reg_of_id(39) == Some(x86Reg::CR3)),
            x86Reg::CR4 => assert(reg_of_id(40) == Some(x86Reg::CR4)),
            x86Reg::DR0 => assert(reg_of_id(41) == Some(x86Reg::DR0)),
            x86Reg::DR1 => assert(reg_of_id(42) == Some(x86Reg::DR1)),
            x86Reg::DR2 => assert(reg_of_id(43) == Some(x86Reg::DR2)),
            x86Reg::DR3 => assert(reg_of_id(44) == Some(x86Reg::DR3)),
            x86Reg::DR4 => assert(reg_of_id(45) == Some(x86Reg::DR4)),
            x86Reg::DR5 => assert(reg_of_id(46) == Some(x86Reg::DR5)),
            x86Reg::DR6 => assert(reg_of_id(47) == Some(x86Reg::DR6)),
            x86Reg::DR7 => assert(reg_of_id(48) == Some(x86Reg::DR7)),
            x86Reg::TPR => assert(reg_of_id(49) == Some(x86Reg::TPR)),
            x86Reg::XCR0 => assert(reg_of_id(50) == Some(x86Reg::XCR0)),
            x86Reg::REGISTERS_MAX => assert(reg_of_id(51) == Some(x86Reg::REGISTERS_MAX)),
        }
    }
    assert forall|a: x86Reg, b: x86Reg| reg_id(a) == reg_id(b) implies a == b by {
        assert(reg_of_id(reg_id(a)) == Some(a));
        assert(reg_of_id(reg_id(b)) == Some(b));
    }
}

} // verus!
