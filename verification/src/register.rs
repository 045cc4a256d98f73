use vstd::prelude::*;

use crate::error::SsError;

verus! {

/// The sixteen architectural registers, in id order: the zero register,
/// three general-purpose, three floating, three pointer, three 128-bit
/// vector and three 256-bit vector registers.
#[derive(Clone, Copy, Debug, PartialEq, Eq, Structural)]
pub enum Register {
    ZR,
    R0,
    R1,
    R2,
    F0,
    F1,
    F2,
    P0,
    P1,
    P2,
    S0,
    S1,
    S2,
    X0,
    X1,
    X2,
}

/// The 4-bit id of a register.
pub open spec fn reg_id(r: Register) -> u8 {
    match r {
        Register::ZR => 0,
        Register::R0 => 1,
        Register::R1 => 2,
        Register::R2 => 3,
        Register::F0 => 4,
        Register::F1 => 5,
        Register::F2 => 6,
        Register::P0 => 7,
        Register::P1 => 8,
        Register::P2 => 9,
        Register::S0 => 10,
        Register::S1 => 11,
        Register::S2 => 12,
        Register::X0 => 13,
        Register::X1 => 14,
        Register::X2 => 15,
    }
}

/// The register with a given 4-bit id; the inverse of `reg_id`.
pub open spec fn reg_of_id(id: u8) -> Register {
    if id == 0 {
        Register::ZR
    } else if id == 1 {
        Register::R0
    } else if id == 2 {
        Register::R1
    } else if id == 3 {
        Register::R2
    } else if id == 4 {
        Register::F0
    } else if id == 5 {
        Register::F1
    } else if id == 6 {
        Register::F2
    } else if id == 7 {
        Register::P0
    } else if id == 8 {
        Register::P1
    } else if id == 9 {
        Register::P2
    } else if id == 10 {
        Register::S0
    } else if id == 11 {
        Register::S1
    } else if id == 12 {
        Register::S2
    } else if id == 13 {
        Register::X0
    } else if id == 14 {
        Register::X1
    } else {
        Register::X2
    }
}

/// How many 64-bit lanes the register with id `id` stores: one for scalar
/// families, two for the 128-bit vectors, four for the 256-bit vectors.
pub open spec fn width_of_id(id: int) -> int {
    if id < 10 {
        1
    } else if id < 13 {
        2
    } else {
        4
    }
}

/// Whether the register with id `id` belongs to the floating family, whose
/// lanes arithmetic instructions combine as IEEE-754 binary64 values.
pub open spec fn is_float_id(id: int) -> bool {
    4 <= id <= 6
}

/// The text mnemonic of a register.
pub open spec fn reg_name(r: Register) -> Seq<char> {
    match r {
        Register::ZR => "zr"@,
        Register::R0 => "r0"@,
        Register::R1 => "r1"@,
        Register::R2 => "r2"@,
        Register::F0 => "f0"@,
        Register::F1 => "f1"@,
        Register::F2 => "f2"@,
        Register::P0 => "p0"@,
        Register::P1 => "p1"@,
        Register::P2 => "p2"@,
        Register::S0 => "s0"@,
        Register::S1 => "s1"@,
        Register::S2 => "s2"@,
        Register::X0 => "x0"@,
        Register::X1 => "x1"@,
        Register::X2 => "x2"@,
    }
}

/// The register a text mnemonic names, if any.
pub open spec fn reg_of_name(n: Seq<char>) -> Option<Register> {
    if n == "zr"@ {
        Some(Register::ZR)
    } else if n == "r0"@ {
        Some(Register::R0)
    } else if n == "r1"@ {
        Some(Register::R1)
    } else if n == "r2"@ {
        Some(Register::R2)
    } else if n == "f0"@ {
        Some(Register::F0)
    } else if n == "f1"@ {
        Some(Register::F1)
    } else if n == "f2"@ {
        Some(Register::F2)
    } else if n == "p0"@ {
        Some(Register::P0)
    } else if n == "p1"@ {
        Some(Register::P1)
    } else if n == "p2"@ {
        Some(Register::P2)
    } else if n == "s0"@ {
        Some(Register::S0)
    } else if n == "s1"@ {
        Some(Register::S1)
    } else if n == "s2"@ {
        Some(Register::S2)
    } else if n == "x0"@ {
        Some(Register::X0)
    } else if n == "x1"@ {
        Some(Register::X1)
    } else if n == "x2"@ {
        Some(Register::X2)
    } else {
        None
    }
}

impl Register {
    /// The 4-bit id of this register.
    pub fn to_id(self) -> (id: u8)
        ensures
            id == reg_id(self),
            id < 16,
    {
        match self {
            Register::ZR => 0,
            Register::R0 => 1,
            Register::R1 => 2,
            Register::R2 => 3,
            Register::F0 => 4,
            Register::F1 => 5,
            Register::F2 => 6,
            Register::P0 => 7,
            Register::P1 => 8,
            Register::P2 => 9,
            Register::S0 => 10,
            Register::S1 => 11,
            Register::S2 => 12,
            Register::X0 => 13,
            Register::X1 => 14,
            Register::X2 => 15,
        }
    }

    /// The register with a given 4-bit id.
    pub fn from_id(id: u8) -> (r: Register)
        requires
            id < 16,
        ensures
            r == reg_of_id(id),
            reg_id(r) == id,
    {
        if id == 0 {
            Register::ZR
        } else if id == 1 {
            Register::R0
        } else if id == 2 {
            Register::R1
        } else if id == 3 {
            Register::R2
        } else if id == 4 {
            Register::F0
        } else if id == 5 {
            Register::F1
        } else if id == 6 {
            Register::F2
        } else if id == 7 {
            Register::P0
        } else if id == 8 {
            Register::P1
        } else if id == 9 {
            Register::P2
        } else if id == 10 {
            Register::S0
        } else if id == 11 {
            Register::S1
        } else if id == 12 {
            Register::S2
        } else if id == 13 {
            Register::X0
        } else if id == 14 {
            Register::X1
        } else {
            Register::X2
        }
    }
}

/// The ids and the registers are mutual inverses over the sixteen defined ids.
pub proof fn lemma_reg_id_bijection(r: Register, id: u8)
    requires
        id < 16,
    ensures
        reg_of_id(reg_id(r)) == r,
        reg_id(reg_of_id(id)) == id,
{
}

/// The mnemonic of the register with id `id`.
pub fn name_of(id: u8) -> (s: &'static str)
    requires
        id < 16,
    ensures
        s@ == reg_name(reg_of_id(id)),
{
    if id == 0 {
        "zr"
    } else if id == 1 {
        "r0"
    } else if id == 2 {
        "r1"
    } else if id == 3 {
        "r2"
    } else if id == 4 {
        "f0"
    } else if id == 5 {
        "f1"
    } else if id == 6 {
        "f2"
    } else if id == 7 {
        "p0"
    } else if id == 8 {
        "p1"
    } else if id == 9 {
        "p2"
    } else if id == 10 {
        "s0"
    } else if id == 11 {
        "s1"
    } else if id == 12 {
        "s2"
    } else if id == 13 {
        "x0"
    } else if id == 14 {
        "x1"
    } else {
        "x2"
    }
}

/// Whether two text fragments hold the same characters.
pub fn str_eq(a: &str, b: &str) -> (r: bool)
    ensures
        r == (a@ == b@),
{
    let sa = String::from_str(a);
    let sb = String::from_str(b);
    sa == sb
}

/// The 4-bit id of a text mnemonic. An unrecognized mnemonic is an
/// `InvalidMnemonic` error, never an alias for the zero register.
pub fn id_of(name: &str) -> (r: Result<u8, SsError>)
    ensures
        r matches Ok(id) ==> reg_of_name(name@) == Some(reg_of_id(id)) && id < 16,
        r matches Err(e) ==> e == SsError::InvalidMnemonic && reg_of_name(name@) is None,
        (r is Ok) == (reg_of_name(name@) is Some),
{
    if str_eq(name, "zr") {
        Ok(0)
    } else if str_eq(name, "r0") {
        Ok(1)
    } else if str_eq(name, "r1") {
        Ok(2)
    } else if str_eq(name, "r2") {
        Ok(3)
    } else if str_eq(name, "f0") {
        Ok(4)
    } else if str_eq(name, "f1") {
        Ok(5)
    } else if str_eq(name, "f2") {
        Ok(6)
    } else if str_eq(name, "p0") {
        Ok(7)
    } else if str_eq(name, "p1") {
        Ok(8)
    } else if str_eq(name, "p2") {
        Ok(9)
    } else if str_eq(name, "s0") {
        Ok(10)
    } else if str_eq(name, "s1") {
        Ok(11)
    } else if str_eq(name, "s2") {
        Ok(12)
    } else if str_eq(name, "x0") {
        Ok(13)
    } else if str_eq(name, "x1") {
        Ok(14)
    } else if str_eq(name, "x2") {
        Ok(15)
    } else {
        Err(SsError::InvalidMnemonic)
    }
}

} // verus!
