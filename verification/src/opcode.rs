use vstd::prelude::*;

verus! {

/// The defined operations, in tag order.
///
/// Every opcode falls in exactly one of two categories. Either it treats the
/// instruction's `data` field as a literal operand and never branches, or it
/// ignores `data` as an operand and adds it, sign-extended, to the program
/// counter as a relative displacement (`is_branch`). `Dnot` branches: despite
/// its name it never consumes `data` as a value.
#[derive(Clone, Copy, Debug, PartialEq, Eq, Structural)]
pub enum Opcode {
    Nop,
    Set16,
    Get,
    Update,
    Delete,
    Swap,
    And,
    Or,
    Xor,
    Not,
    Shl,
    Shr,
    Dand,
    Dor,
    Dxor,
    Dnot,
    Dshl,
    Dshr,
    Add,
    Sub,
    Mul,
    Div,
    Mod,
    Inc,
    Dec,
    Neg,
    Dadd,
    Dsub,
    Dmul,
    Ddiv,
    Dmod,
    Dinc,
    Ddec,
    Dneg,
}

/// The 8-bit tag of an opcode.
pub open spec fn opcode_tag(op: Opcode) -> u8 {
    match op {
        Opcode::Nop => 0,
        Opcode::Set16 => 1,
        Opcode::Get => 2,
        Opcode::Update => 3,
        Opcode::Delete => 4,
        Opcode::Swap => 5,
        Opcode::And => 6,
        Opcode::Or => 7,
        Opcode::Xor => 8,
        Opcode::Not => 9,
        Opcode::Shl => 10,
        Opcode::Shr => 11,
        Opcode::Dand => 12,
        Opcode::Dor => 13,
        Opcode::Dxor => 14,
        Opcode::Dnot => 15,
        Opcode::Dshl => 16,
        Opcode::Dshr => 17,
        Opcode::Add => 18,
        Opcode::Sub => 19,
        Opcode::Mul => 20,
        Opcode::Div => 21,
        Opcode::Mod => 22,
        Opcode::Inc => 23,
        Opcode::Dec => 24,
        Opcode::Neg => 25,
        Opcode::Dadd => 26,
        Opcode::Dsub => 27,
        Opcode::Dmul => 28,
        Opcode::Ddiv => 29,
        Opcode::Dmod => 30,
        Opcode::Dinc => 31,
        Opcode::Ddec => 32,
        Opcode::Dneg => 33,
    }
}

/// The opcode an 8-bit tag maps to, if any: a tag past the last defined
/// operation maps to nothing.
pub open spec fn opcode_of_tag(t: u8) -> Option<Opcode> {
    if t == 0 {
        Some(Opcode::Nop)
    } else if t == 1 {
        Some(Opcode::Set16)
    } else if t == 2 {
        Some(Opcode::Get)
    } else if t == 3 {
        Some(Opcode::Update)
    } else if t == 4 {
        Some(Opcode::Delete)
    } else if t == 5 {
        Some(Opcode::Swap)
    } else if t == 6 {
        Some(Opcode::And)
    } else if t == 7 {
        Some(Opcode::Or)
    } else if t == 8 {
        Some(Opcode::Xor)
    } else if t == 9 {
        Some(Opcode::Not)
    } else if t == 10 {
        Some(Opcode::Shl)
    } else if t == 11 {
        Some(Opcode::Shr)
    } else if t == 12 {
        Some(Opcode::Dand)
    } else if t == 13 {
        Some(Opcode::Dor)
    } else if t == 14 {
        Some(Opcode::Dxor)
    } else if t == 15 {
        Some(Opcode::Dnot)
    } else if t == 16 {
        Some(Opcode::Dshl)
    } else if t == 17 {
        Some(Opcode::Dshr)
    } else if t == 18 {
        Some(Opcode::Add)
    } else if t == 19 {
        Some(Opcode::Sub)
    } else if t == 20 {
        Some(Opcode::Mul)
    } else if t == 21 {
        Some(Opcode::Div)
    } else if t == 22 {
        Some(Opcode::Mod)
    } else if t == 23 {
        Some(Opcode::Inc)
    } else if t == 24 {
        Some(Opcode::Dec)
    } else if t == 25 {
        Some(Opcode::Neg)
    } else if t == 26 {
        Some(Opcode::Dadd)
    } else if t == 27 {
        Some(Opcode::Dsub)
    } else if t == 28 {
        Some(Opcode::Dmul)
    } else if t == 29 {
        Some(Opcode::Ddiv)
    } else if t == 30 {
        Some(Opcode::Dmod)
    } else if t == 31 {
        Some(Opcode::Dinc)
    } else if t == 32 {
        Some(Opcode::Ddec)
    } else if t == 33 {
        Some(Opcode::Dneg)
    } else {
        None
    }
}

/// Whether the opcode treats `data` as a signed relative branch displacement.
pub open spec fn is_branch(op: Opcode) -> bool {
    match op {
        Opcode::Nop => true,
        Opcode::Get => true,
        Opcode::Update => true,
        Opcode::Delete => true,
        Opcode::Swap => true,
        Opcode::And => true,
        Opcode::Or => true,
        Opcode::Xor => true,
        Opcode::Not => true,
        Opcode::Shl => true,
        Opcode::Shr => true,
        Opcode::Dnot => true,
        Opcode::Add => true,
        Opcode::Sub => true,
        Opcode::Mul => true,
        Opcode::Div => true,
        Opcode::Mod => true,
        Opcode::Inc => true,
        Opcode::Dec => true,
        Opcode::Neg => true,
        _ => false,
    }
}

/// Whether the opcode consumes `data` as a literal operand.
pub open spec fn uses_data(op: Opcode) -> bool {
    match op {
        Opcode::Set16 => true,
        Opcode::Dand => true,
        Opcode::Dor => true,
        Opcode::Dxor => true,
        Opcode::Dshl => true,
        Opcode::Dshr => true,
        Opcode::Dadd => true,
        Opcode::Dsub => true,
        Opcode::Dmul => true,
        Opcode::Ddiv => true,
        Opcode::Dmod => true,
        Opcode::Dinc => true,
        Opcode::Ddec => true,
        Opcode::Dneg => true,
        _ => false,
    }
}

/// `data` is an operand or a displacement, never both: every opcode consumes
/// it in exactly one of the two roles, fixed at opcode definition.
pub proof fn lemma_data_branch_exclusive(op: Opcode)
    ensures
        uses_data(op) <==> !is_branch(op),
{
}

/// The text mnemonic of an opcode.
pub open spec fn opcode_name(op: Opcode) -> Seq<char> {
    match op {
        Opcode::Nop => "nop"@,
        Opcode::Set16 => "set"@,
        Opcode::Get => "get"@,
        Opcode::Update => "update"@,
        Opcode::Delete => "delete"@,
        Opcode::Swap => "swap"@,
        Opcode::And => "and"@,
        Opcode::Or => "or"@,
        Opcode::Xor => "xor"@,
        Opcode::Not => "not"@,
        Opcode::Shl => "shl"@,
        Opcode::Shr => "shr"@,
        Opcode::Dand => "dand"@,
        Opcode::Dor => "dor"@,
        Opcode::Dxor => "dxor"@,
        Opcode::Dnot => "dnot"@,
        Opcode::Dshl => "dshl"@,
        Opcode::Dshr => "dshr"@,
        Opcode::Add => "add"@,
        Opcode::Sub => "sub"@,
        Opcode::Mul => "mul"@,
        Opcode::Div => "div"@,
        Opcode::Mod => "mod"@,
        Opcode::Inc => "inc"@,
        Opcode::Dec => "dec"@,
        Opcode::Neg => "neg"@,
        Opcode::Dadd => "dadd"@,
        Opcode::Dsub => "dsub"@,
        Opcode::Dmul => "dmul"@,
        Opcode::Ddiv => "ddiv"@,
        Opcode::Dmod => "dmod"@,
        Opcode::Dinc => "dinc"@,
        Opcode::Ddec => "ddec"@,
        Opcode::Dneg => "dneg"@,
    }
}

/// The opcode a text mnemonic names, if any.
pub open spec fn opcode_of_name(n: Seq<char>) -> Option<Opcode> {
    if n == "nop"@ {
        Some(Opcode::Nop)
    } else if n == "set"@ {
        Some(Opcode::Set16)
    } else if n == "get"@ {
        Some(Opcode::Get)
    } else if n == "update"@ {
        Some(Opcode::Update)
    } else if n == "delete"@ {
        Some(Opcode::Delete)
    } else if n == "swap"@ {
        Some(Opcode::Swap)
    } else if n == "and"@ {
        Some(Opcode::And)
    } else if n == "or"@ {
        Some(Opcode::Or)
    } else if n == "xor"@ {
        Some(Opcode::Xor)
    } else if n == "not"@ {
        Some(Opcode::Not)
    } else if n == "shl"@ {
        Some(Opcode::Shl)
    } else if n == "shr"@ {
        Some(Opcode::Shr)
    } else if n == "dand"@ {
        Some(Opcode::Dand)
    } else if n == "dor"@ {
        Some(Opcode::Dor)
    } else if n == "dxor"@ {
        Some(Opcode::Dxor)
    } else if n == "dnot"@ {
        Some(Opcode::Dnot)
    } else if n == "dshl"@ {
        Some(Opcode::Dshl)
    } else if n == "dshr"@ {
        Some(Opcode::Dshr)
    } else if n == "add"@ {
        Some(Opcode::Add)
    } else if n == "sub"@ {
        Some(Opcode::Sub)
    } else if n == "mul"@ {
        Some(Opcode::Mul)
    } else if n == "div"@ {
        Some(Opcode::Div)
    } else if n == "mod"@ {
        Some(Opcode::Mod)
    } else if n == "inc"@ {
        Some(Opcode::Inc)
    } else if n == "dec"@ {
        Some(Opcode::Dec)
    } else if n == "neg"@ {
        Some(Opcode::Neg)
    } else if n == "dadd"@ {
        Some(Opcode::Dadd)
    } else if n == "dsub"@ {
        Some(Opcode::Dsub)
    } else if n == "dmul"@ {
        Some(Opcode::Dmul)
    } else if n == "ddiv"@ {
        Some(Opcode::Ddiv)
    } else if n == "dmod"@ {
        Some(Opcode::Dmod)
    } else if n == "dinc"@ {
        Some(Opcode::Dinc)
    } else if n == "ddec"@ {
        Some(Opcode::Ddec)
    } else if n == "dneg"@ {
        Some(Opcode::Dneg)
    } else {
        None
    }
}

impl Opcode {
    /// The 8-bit tag of this opcode.
    pub fn tag(self) -> (t: u8)
        ensures
            t == opcode_tag(self),
            t < 34,
    {
        match self {
            Opcode::Nop => 0,
            Opcode::Set16 => 1,
            Opcode::Get => 2,
            Opcode::Update => 3,
            Opcode::Delete => 4,
            Opcode::Swap => 5,
            Opcode::And => 6,
            Opcode::Or => 7,
            Opcode::Xor => 8,
            Opcode::Not => 9,
            Opcode::Shl => 10,
            Opcode::Shr => 11,
            Opcode::Dand => 12,
            Opcode::Dor => 13,
            Opcode::Dxor => 14,
            Opcode::Dnot => 15,
            Opcode::Dshl => 16,
            Opcode::Dshr => 17,
            Opcode::Add => 18,
            Opcode::Sub => 19,
            Opcode::Mul => 20,
            Opcode::Div => 21,
            Opcode::Mod => 22,
            Opcode::Inc => 23,
            Opcode::Dec => 24,
            Opcode::Neg => 25,
            Opcode::Dadd => 26,
            Opcode::Dsub => 27,
            Opcode::Dmul => 28,
            Opcode::Ddiv => 29,
            Opcode::Dmod => 30,
            Opcode::Dinc => 31,
            Opcode::Ddec => 32,
            Opcode::Dneg => 33,
        }
    }

    /// The opcode with a given 8-bit tag, or nothing for an unmapped tag.
    pub fn from_tag(t: u8) -> (r: Option<Opcode>)
        ensures
            r == opcode_of_tag(t),
    {
        if t >= 34 {
            return None;
        }
        if t == 0 {
            Some(Opcode::Nop)
        } else if t == 1 {
            Some(Opcode::Set16)
        } else if t == 2 {
            Some(Opcode::Get)
        } else if t == 3 {
            Some(Opcode::Update)
        } else if t == 4 {
            Some(Opcode::Delete)
        } else if t == 5 {
            Some(Opcode::Swap)
        } else if t == 6 {
            Some(Opcode::And)
        } else if t == 7 {
            Some(Opcode::Or)
        } else if t == 8 {
            Some(Opcode::Xor)
        } else if t == 9 {
            Some(Opcode::Not)
        } else if t == 10 {
            Some(Opcode::Shl)
        } else if t == 11 {
            Some(Opcode::Shr)
        } else if t == 12 {
            Some(Opcode::Dand)
        } else if t == 13 {
            Some(Opcode::Dor)
        } else if t == 14 {
            Some(Opcode::Dxor)
        } else if t == 15 {
            Some(Opcode::Dnot)
        } else if t == 16 {
            Some(Opcode::Dshl)
        } else if t == 17 {
            Some(Opcode::Dshr)
        } else if t == 18 {
            Some(Opcode::Add)
        } else if t == 19 {
            Some(Opcode::Sub)
        } else if t == 20 {
            Some(Opcode::Mul)
        } else if t == 21 {
            Some(Opcode::Div)
        } else if t == 22 {
            Some(Opcode::Mod)
        } else if t == 23 {
            Some(Opcode::Inc)
        } else if t == 24 {
            Some(Opcode::Dec)
        } else if t == 25 {
            Some(Opcode::Neg)
        } else if t == 26 {
            Some(Opcode::Dadd)
        } else if t == 27 {
            Some(Opcode::Dsub)
        } else if t == 28 {
            Some(Opcode::Dmul)
        } else if t == 29 {
            Some(Opcode::Ddiv)
        } else if t == 30 {
            Some(Opcode::Dmod)
        } else if t == 31 {
            Some(Opcode::Dinc)
        } else if t == 32 {
            Some(Opcode::Ddec)
        } else {
            Some(Opcode::Dneg)
        }
    }

    /// Whether this opcode branches.
    pub fn branches(self) -> (r: bool)
        ensures
            r == is_branch(self),
    {
        match self {
            Opcode::Nop => true,
            Opcode::Get => true,
            Opcode::Update => true,
            Opcode::Delete => true,
            Opcode::Swap => true,
            Opcode::And => true,
            Opcode::Or => true,
            Opcode::Xor => true,
            Opcode::Not => true,
            Opcode::Shl => true,
            Opcode::Shr => true,
            Opcode::Dnot => true,
            Opcode::Add => true,
            Opcode::Sub => true,
            Opcode::Mul => true,
            Opcode::Div => true,
            Opcode::Mod => true,
            Opcode::Inc => true,
            Opcode::Dec => true,
            Opcode::Neg => true,
            _ => false,
        }
    }

    /// The text mnemonic of this opcode.
    pub fn name_str(self) -> (s: &'static str)
        ensures
            s@ == opcode_name(self),
    {
        match self {
            Opcode::Nop => "nop",
            Opcode::Set16 => "set",
            Opcode::Get => "get",
            Opcode::Update => "update",
            Opcode::Delete => "delete",
            Opcode::Swap => "swap",
            Opcode::And => "and",
            Opcode::Or => "or",
            Opcode::Xor => "xor",
            Opcode::Not => "not",
            Opcode::Shl => "shl",
            Opcode::Shr => "shr",
            Opcode::Dand => "dand",
            Opcode::Dor => "dor",
            Opcode::Dxor => "dxor",
            Opcode::Dnot => "dnot",
            Opcode::Dshl => "dshl",
            Opcode::Dshr => "dshr",
            Opcode::Add => "add",
            Opcode::Sub => "sub",
            Opcode::Mul => "mul",
            Opcode::Div => "div",
            Opcode::Mod => "mod",
            Opcode::Inc => "inc",
            Opcode::Dec => "dec",
            Opcode::Neg => "neg",
            Opcode::Dadd => "dadd",
            Opcode::Dsub => "dsub",
            Opcode::Dmul => "dmul",
            Opcode::Ddiv => "ddiv",
            Opcode::Dmod => "dmod",
            Opcode::Dinc => "dinc",
            Opcode::Ddec => "ddec",
            Opcode::Dneg => "dneg",
        }
    }

    /// The opcode a text mnemonic names, or nothing.
    pub fn from_name(name: &str) -> (r: Option<Opcode>)
        ensures
            r == opcode_of_name(name@),
    {
        if crate::register::str_eq(name, "nop") {
            Some(Opcode::Nop)
        } else if crate::register::str_eq(name, "set") {
            Some(Opcode::Set16)
        } else if crate::register::str_eq(name, "get") {
            Some(Opcode::Get)
        } else if crate::register::str_eq(name, "update") {
            Some(Opcode::Update)
        } else if crate::register::str_eq(name, "delete") {
            Some(Opcode::Delete)
        } else if crate::register::str_eq(name, "swap") {
            Some(Opcode::Swap)
        } else if crate::register::str_eq(name, "and") {
            Some(Opcode::And)
        } else if crate::register::str_eq(name, "or") {
            Some(Opcode::Or)
        } else if crate::register::str_eq(name, "xor") {
            Some(Opcode::Xor)
        } else if crate::register::str_eq(name, "not") {
            Some(Opcode::Not)
        } else if crate::register::str_eq(name, "shl") {
            Some(Opcode::Shl)
        } else if crate::register::str_eq(name, "shr") {
            Some(Opcode::Shr)
        } else if crate::register::str_eq(name, "dand") {
            Some(Opcode::Dand)
        } else if crate::register::str_eq(name, "dor") {
            Some(Opcode::Dor)
        } else if crate::register::str_eq(name, "dxor") {
            Some(Opcode::Dxor)
        } else if crate::register::str_eq(name, "dnot") {
            Some(Opcode::Dnot)
        } else if crate::register::str_eq(name, "dshl") {
            Some(Opcode::Dshl)
        } else if crate::register::str_eq(name, "dshr") {
            Some(Opcode::Dshr)
        } else if crate::register::str_eq(name, "add") {
            Some(Opcode::Add)
        } else if crate::register::str_eq(name, "sub") {
            Some(Opcode::Sub)
        } else if crate::register::str_eq(name, "mul") {
            Some(Opcode::Mul)
        } else if crate::register::str_eq(name, "div") {
            Some(Opcode::Div)
        } else if crate::register::str_eq(name, "mod") {
            Some(Opcode::Mod)
        } else if crate::register::str_eq(name, "inc") {
            Some(Opcode::Inc)
        } else if crate::register::str_eq(name, "dec") {
            Some(Opcode::Dec)
        } else if crate::register::str_eq(name, "neg") {
            Some(Opcode::Neg)
        } else if crate::register::str_eq(name, "dadd") {
            Some(Opcode::Dadd)
        } else if crate::register::str_eq(name, "dsub") {
            Some(Opcode::Dsub)
        } else if crate::register::str_eq(name, "dmul") {
            Some(Opcode::Dmul)
        } else if crate::register::str_eq(name, "ddiv") {
            Some(Opcode::Ddiv)
        } else if crate::register::str_eq(name, "dmod") {
            Some(Opcode::Dmod)
        } else if crate::register::str_eq(name, "dinc") {
            Some(Opcode::Dinc)
        } else if crate::register::str_eq(name, "ddec") {
            Some(Opcode::Ddec)
        } else if crate::register::str_eq(name, "dneg") {
            Some(Opcode::Dneg)
        } else {
            None
        }
    }
}

/// Tags and opcodes are mutual inverses over the defined tags.
pub proof fn lemma_opcode_tag_bijection(op: Opcode, t: u8)
    ensures
        opcode_of_tag(opcode_tag(op)) == Some(op),
        opcode_of_tag(t) matches Some(o) ==> opcode_tag(o) == t,
{
}

} // verus!
