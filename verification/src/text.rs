//! The text form of instructions: four whitespace-separated tokens —
//! opcode mnemonic, two register mnemonics, and a signed 16-bit decimal.
//! Missing trailing tokens default to zero values (Nop, zr, 0); an
//! unrecognized mnemonic is an error, never an alias. Printing always emits
//! all four tokens.

use vstd::prelude::*;

use crate::error::SsError;
use crate::instruction::Instruction;
use crate::opcode::{opcode_name, opcode_of_name, opcode_of_tag, opcode_tag, Opcode};
use crate::register::{reg_id, reg_name, reg_of_id, reg_of_name};

verus! {

/// The decimal digit character of a value below ten.
pub open spec fn digit_char(d: int) -> char {
    if d == 0 {
        '0'
    } else if d == 1 {
        '1'
    } else if d == 2 {
        '2'
    } else if d == 3 {
        '3'
    } else if d == 4 {
        '4'
    } else if d == 5 {
        '5'
    } else if d == 6 {
        '6'
    } else if d == 7 {
        '7'
    } else if d == 8 {
        '8'
    } else {
        '9'
    }
}

/// Whether a character is a decimal digit.
pub open spec fn is_digit(c: char) -> bool {
    48 <= c as int <= 57
}

/// The value of a decimal digit character.
pub open spec fn digit_val(c: char) -> int {
    c as int - 48
}

/// The decimal digit string of a value, most significant digit first, with
/// no leading zeros (a single zero for the value zero).
pub open spec fn dec_digits(v: nat) -> Seq<char>
    decreases v,
{
    if v < 10 {
        seq![digit_char(v as int)]
    } else {
        dec_digits(v / 10).push(digit_char((v % 10) as int))
    }
}

/// Whether every character of a text fragment is a decimal digit.
pub open spec fn all_digits(s: Seq<char>) -> bool {
    forall|k: int| 0 <= k < s.len() ==> is_digit(s[k])
}

/// The value of a digit string, read left to right.
pub open spec fn dec_val(s: Seq<char>) -> int
    decreases s.len(),
{
    if s.len() == 0 {
        0
    } else {
        dec_val(s.drop_last()) * 10 + digit_val(s.last())
    }
}

/// The text of the `data` field, printed as a signed 16-bit decimal: values
/// at or above 32768 print as the negative they encode.
pub open spec fn fmt_data(d: u16) -> Seq<char> {
    if d >= 32768 {
        "-"@ + dec_digits((65536 - d) as nat)
    } else {
        dec_digits(d as nat)
    }
}

/// The `data` field a text token denotes: an optional minus sign and
/// decimal digits, within the signed 16-bit range, stored as the unsigned
/// 16-bit value with the same bits. Anything else — empty, stray
/// characters, out of range — lapses to zero, the documented leniency.
pub open spec fn parse_data(t: Seq<char>) -> u16 {
    if t.len() >= 1 && t[0] == '-' {
        let m = t.subrange(1, t.len() as int);
        if m.len() > 0 && all_digits(m) && dec_val(m) <= 32768 {
            ((65536 - dec_val(m)) % 65536) as u16
        } else {
            0
        }
    } else if t.len() > 0 && all_digits(t) && dec_val(t) <= 32767 {
        dec_val(t) as u16
    } else {
        0
    }
}

/// The end of the token that starts at `i`: the first position at or after
/// `i` holding a space, or the end of the text.
pub open spec fn tok_end(s: Seq<char>, i: int) -> int
    decreases s.len() - i,
{
    if i >= s.len() || s[i] == ' ' {
        i
    } else {
        tok_end(s, i + 1)
    }
}

/// A stretch with no space, ending at the text's end or at a space, is one
/// token: `tok_end` finds exactly its end.
proof fn lemma_tok_end(s: Seq<char>, i: int, e: int)
    requires
        0 <= i <= e <= s.len(),
        forall|m: int| i <= m < e ==> s[m] != ' ',
        e == s.len() || s[e] == ' ',
    ensures
        tok_end(s, i) == e,
    decreases e - i,
{
    if i < e {
        lemma_tok_end(s, i + 1, e);
    }
}

/// A digit character carries its value and is a digit.
proof fn lemma_digit_char_val(d: int)
    requires
        0 <= d <= 9,
    ensures
        digit_val(digit_char(d)) == d,
        is_digit(digit_char(d)),
{
}

/// The decimal digit string of a value is nonempty, holds digits only, and
/// reads back as the value.
proof fn lemma_dec_digits(v: nat)
    ensures
        dec_digits(v).len() > 0,
        all_digits(dec_digits(v)),
        dec_val(dec_digits(v)) == v,
    decreases v,
{
    if v < 10 {
        lemma_digit_char_val(v as int);
        let t = dec_digits(v);
        assert(t =~= seq![digit_char(v as int)]);
        assert(t.drop_last() =~= Seq::<char>::empty());
        assert(t.last() == digit_char(v as int));
        assert(dec_val(t) == dec_val(t.drop_last()) * 10 + digit_val(t.last()));
        assert(dec_val(t.drop_last()) == 0);
    } else {
        lemma_dec_digits(v / 10);
        lemma_digit_char_val((v % 10) as int);
        let s = dec_digits(v / 10);
        let c = digit_char((v % 10) as int);
        assert(dec_digits(v) == s.push(c));
        assert(s.push(c).drop_last() =~= s);
        assert(s.push(c).last() == c);
        assert(dec_val(s.push(c)) == dec_val(s) * 10 + digit_val(c));
        assert(v == (v / 10) * 10 + v % 10);
    }
}

/// A digit string is never negative.
proof fn lemma_dec_val_nonneg(s: Seq<char>)
    requires
        all_digits(s),
    ensures
        dec_val(s) >= 0,
    decreases s.len(),
{
    if s.len() > 0 {
        assert(all_digits(s.drop_last()));
        lemma_dec_val_nonneg(s.drop_last());
    }
}

/// Reading more digits never shrinks the value: the whole digit string is
/// at least any of its prefixes.
proof fn lemma_dec_val_prefix(s: Seq<char>, k: int)
    requires
        all_digits(s),
        0 <= k <= s.len(),
    ensures
        dec_val(s) >= dec_val(s.subrange(0, k)),
    decreases s.len() - k,
{
    if k == s.len() {
        assert(s.subrange(0, k) =~= s);
    } else {
        lemma_dec_val_prefix(s, k + 1);
        let p1 = s.subrange(0, k + 1);
        assert(p1.drop_last() =~= s.subrange(0, k));
        assert(all_digits(s.subrange(0, k)));
        lemma_dec_val_nonneg(s.subrange(0, k));
    }
}

} // verus!

verus! {

/// An instruction from its parsed parts: the register selectors packed with
/// reg0 in the low nibble and reg1 in the high nibble.
pub open spec fn built_ins(op: Opcode, id0: u8, id1: u8, d: u16) -> Instruction {
    Instruction { opcode: opcode_tag(op), regs: id0 | (id1 << 4), data: d }
}

/// The instruction a text line denotes. Tokens are separated by single
/// spaces; missing trailing tokens default to zero values (Nop, zr, 0);
/// anything after the fourth token is ignored. An unrecognized opcode or
/// register mnemonic is an `InvalidMnemonic` error, never an alias.
pub open spec fn parse_line_spec(s: Seq<char>) -> Result<Instruction, SsError> {
    let e0 = tok_end(s, 0);
    match opcode_of_name(s.subrange(0, e0)) {
        None => Err(SsError::InvalidMnemonic),
        Some(op) => if e0 == s.len() {
            Ok(built_ins(op, 0, 0, 0))
        } else {
            let e1 = tok_end(s, e0 + 1);
            match reg_of_name(s.subrange(e0 + 1, e1)) {
                None => Err(SsError::InvalidMnemonic),
                Some(ra) => if e1 == s.len() {
                    Ok(built_ins(op, reg_id(ra), 0, 0))
                } else {
                    let e2 = tok_end(s, e1 + 1);
                    match reg_of_name(s.subrange(e1 + 1, e2)) {
                        None => Err(SsError::InvalidMnemonic),
                        Some(rb) => if e2 == s.len() {
                            Ok(built_ins(op, reg_id(ra), reg_id(rb), 0))
                        } else {
                            let e3 = tok_end(s, e2 + 1);
                            Ok(
                                built_ins(
                                    op,
                                    reg_id(ra),
                                    reg_id(rb),
                                    parse_data(s.subrange(e2 + 1, e3)),
                                ),
                            )
                        },
                    }
                },
            }
        },
    }
}

/// The text line of an instruction with a known opcode tag: the four tokens
/// separated by single spaces.
pub open spec fn fmt_line_spec(i: Instruction) -> Seq<char> {
    opcode_name(opcode_of_tag(i.opcode)->Some_0) + " "@ + reg_name(reg_of_id(i.regs & 0x0F)) + " "@
        + reg_name(reg_of_id(i.regs >> 4)) + " "@ + fmt_data(i.data)
}

/// The text of one decimal digit.
fn digit_str(d: u16) -> (s: &'static str)
    requires
        d < 10,
    ensures
        s@ == seq![digit_char(d as int)],
{
    let s: &'static str = if d == 0 {
        "0"
    } else if d == 1 {
        "1"
    } else if d == 2 {
        "2"
    } else if d == 3 {
        "3"
    } else if d == 4 {
        "4"
    } else if d == 5 {
        "5"
    } else if d == 6 {
        "6"
    } else if d == 7 {
        "7"
    } else if d == 8 {
        "8"
    } else {
        "9"
    };
    proof {
        reveal_strlit("0");
        reveal_strlit("1");
        reveal_strlit("2");
        reveal_strlit("3");
        reveal_strlit("4");
        reveal_strlit("5");
        reveal_strlit("6");
        reveal_strlit("7");
        reveal_strlit("8");
        reveal_strlit("9");
        assert(s@ =~= seq![digit_char(d as int)]);
    }
    s
}

/// The decimal digit string of a 16-bit value.
fn fmt_u16_dec(v: u16) -> (s: String)
    ensures
        s@ == dec_digits(v as nat),
    decreases v,
{
    if v < 10 {
        String::from_str(digit_str(v))
    } else {
        let mut s = fmt_u16_dec(v / 10);
        s.append(digit_str(v % 10));
        proof {
            assert(s@ =~= dec_digits(v as nat));
        }
        s
    }
}

/// The text of the `data` field, as a signed 16-bit decimal.
fn format_data(d: u16) -> (s: String)
    ensures
        s@ == fmt_data(d),
{
    if d >= 32768 {
        let mag: u32 = 65536 - (d as u32);
        let mut s = String::from_str("-");
        let digits = fmt_u16_dec(mag as u16);
        s.append(digits.as_str());
        proof {
            assert(s@ =~= fmt_data(d));
        }
        s
    } else {
        fmt_u16_dec(d)
    }
}

/// Prints an instruction as its text line — mnemonic, two register names,
/// signed decimal `data`, separated by single spaces. An unmapped opcode
/// tag has no mnemonic and is an `UnknownOpcode` error.
pub fn format_line(instruction: &Instruction) -> (r: Result<String, SsError>)
    ensures
        opcode_of_tag(instruction.opcode) is None ==> r == Err::<String, SsError>(
            SsError::UnknownOpcode,
        ),
        opcode_of_tag(instruction.opcode) is Some ==> (r matches Ok(s) && s@ == fmt_line_spec(
            *instruction,
        )),
{
    let op = match Opcode::from_tag(instruction.opcode) {
        None => {
            return Err(SsError::UnknownOpcode);
        },
        Some(op) => op,
    };
    let (lo, hi) = instruction.strip_registers();
    let mut s = String::from_str(op.name_str());
    s.append(" ");
    s.append(crate::register::name_of(lo));
    s.append(" ");
    s.append(crate::register::name_of(hi));
    s.append(" ");
    let digits = format_data(instruction.data);
    s.append(digits.as_str());
    proof {
        assert(s@ =~= fmt_line_spec(*instruction));
    }
    Ok(s)
}

} // verus!

verus! {

/// The end of the token starting at `i`: scans forward to the first space
/// or the end of the text.
fn token_end(s: &str, i: usize) -> (e: usize)
    requires
        i as int <= s@.len(),
    ensures
        i <= e,
        e as int <= s@.len(),
        e as int == tok_end(s@, i as int),
{
    let n: usize = s.unicode_len();
    let mut j: usize = i;
    while j < n
        invariant
            i <= j <= n,
            n == s@.len(),
            forall|m: int| i <= m < j ==> s@[m] != ' ',
        decreases n - j,
    {
        if s.get_char(j) == ' ' {
            proof {
                lemma_tok_end(s@, i as int, j as int);
            }
            return j;
        }
        j = j + 1;
    }
    proof {
        lemma_tok_end(s@, i as int, j as int);
    }
    j
}

/// The `data` field a token denotes: an optional minus sign and decimal
/// digits within the signed 16-bit range; anything else lapses to zero.
#[verifier::loop_isolation(false)]
fn data_of_token(t: &str) -> (d: u16)
    ensures
        d == parse_data(t@),
{
    let n: usize = t.unicode_len();
    if n == 0 {
        return 0;
    }
    let neg: bool = t.get_char(0) == '-';
    let start: usize = if neg {
        1
    } else {
        0
    };
    let ghost m = t@.subrange(start as int, n as int);
    if start == n {
        return 0;
    }
    let mut j: usize = start;
    while j < n
        invariant
            start <= j <= n,
            n == t@.len(),
            start == 1 || start == 0,
            forall|k: int| start <= k < j ==> is_digit(t@[k]),
        decreases n - j,
    {
        let cu: u32 = t.get_char(j) as u32;
        if cu < 48 || cu > 57 {
            proof {
                assert(m[j - start] == t@[j as int]);
                assert(!all_digits(m));
            }
            return 0;
        }
        j = j + 1;
    }
    proof {
        assert forall|k: int| 0 <= k < m.len() implies is_digit(m[k]) by {
            assert(m[k] == t@[k + start]);
        }
        assert(all_digits(m));
    }
    let limit: u32 = if neg {
        32768
    } else {
        32767
    };
    let mut acc: u32 = 0;
    let mut k: usize = start;
    while k < n
        invariant
            start <= k <= n,
            n == t@.len(),
            start == 1 || start == 0,
            start <= n,
            m == t@.subrange(start as int, n as int),
            all_digits(m),
            forall|q: int| start <= q < n ==> is_digit(t@[q]),
            acc as int == dec_val(t@.subrange(start as int, k as int)),
            acc <= limit,
            limit == 32767 || limit == 32768,
            neg ==> limit == 32768,
            !neg ==> limit == 32767,
        decreases n - k,
    {
        let cu: u32 = t.get_char(k) as u32;
        proof {
            assert(is_digit(t@[k as int]));
            assert(t@.subrange(start as int, k as int + 1).drop_last() =~= t@.subrange(
                start as int,
                k as int,
            ));
            assert(t@.subrange(start as int, k as int + 1).last() == t@[k as int]);
        }
        acc = acc * 10 + (cu - 48);
        k = k + 1;
        if acc > limit {
            proof {
                let pre = t@.subrange(start as int, k as int);
                assert(pre =~= m.subrange(0, k - start));
                lemma_dec_val_prefix(m, k - start);
                assert(dec_val(m) >= acc);
                if !neg {
                    assert(m =~= t@);
                }
            }
            return 0;
        }
    }
    proof {
        assert(t@.subrange(start as int, n as int) =~= m);
        if !neg {
            assert(m =~= t@);
        }
    }
    if neg {
        if acc == 0 {
            0
        } else {
            (65536 - acc) as u16
        }
    } else {
        acc as u16
    }
}

/// Parses a text line into an instruction: mnemonic, two register names and
/// a signed decimal, separated by single spaces. Missing trailing tokens
/// default to zero values; an unrecognized opcode or register mnemonic is
/// an `InvalidMnemonic` error.
pub fn parse_line(s: &str) -> (r: Result<Instruction, SsError>)
    ensures
        r == parse_line_spec(s@),
{
    let n: usize = s.unicode_len();
    let e0 = token_end(s, 0);
    let t0 = s.substring_char(0, e0);
    let op = match Opcode::from_name(t0) {
        None => {
            return Err(SsError::InvalidMnemonic);
        },
        Some(op) => op,
    };
    if e0 == n {
        return Ok(Instruction::new(op.tag(), Instruction::pack_registers(0, 0), 0));
    }
    let e1 = token_end(s, e0 + 1);
    let t1 = s.substring_char(e0 + 1, e1);
    let id0 = match crate::register::id_of(t1) {
        Err(e) => {
            return Err(e);
        },
        Ok(id) => id,
    };
    proof {
        crate::register::lemma_reg_id_bijection(reg_of_id(id0), id0);
    }
    if e1 == n {
        return Ok(Instruction::new(op.tag(), Instruction::pack_registers(id0, 0), 0));
    }
    let e2 = token_end(s, e1 + 1);
    let t2 = s.substring_char(e1 + 1, e2);
    let id1 = match crate::register::id_of(t2) {
        Err(e) => {
            return Err(e);
        },
        Ok(id) => id,
    };
    proof {
        crate::register::lemma_reg_id_bijection(reg_of_id(id1), id1);
    }
    if e2 == n {
        return Ok(Instruction::new(op.tag(), Instruction::pack_registers(id0, id1), 0));
    }
    let e3 = token_end(s, e2 + 1);
    let t3 = s.substring_char(e2 + 1, e3);
    let d = data_of_token(t3);
    Ok(Instruction::new(op.tag(), Instruction::pack_registers(id0, id1), d))
}

} // verus!

verus! {

/// Every opcode mnemonic is nonempty and space-free.
proof fn lemma_opcode_name_wf(op: Opcode)
    ensures
        opcode_name(op).len() > 0,
        forall|k: int| 0 <= k < opcode_name(op).len() ==> opcode_name(op)[k] != ' ',
{
    reveal_strlit("nop");
    reveal_strlit("set");
    reveal_strlit("get");
    reveal_strlit("update");
    reveal_strlit("delete");
    reveal_strlit("swap");
    reveal_strlit("and");
    reveal_strlit("or");
    reveal_strlit("xor");
    reveal_strlit("not");
    reveal_strlit("shl");
    reveal_strlit("shr");
    reveal_strlit("dand");
    reveal_strlit("dor");
    reveal_strlit("dxor");
    reveal_strlit("dnot");
    reveal_strlit("dshl");
    reveal_strlit("dshr");
    reveal_strlit("add");
    reveal_strlit("sub");
    reveal_strlit("mul");
    reveal_strlit("div");
    reveal_strlit("mod");
    reveal_strlit("inc");
    reveal_strlit("dec");
    reveal_strlit("neg");
    reveal_strlit("dadd");
    reveal_strlit("dsub");
    reveal_strlit("dmul");
    reveal_strlit("ddiv");
    reveal_strlit("dmod");
    reveal_strlit("dinc");
    reveal_strlit("ddec");
    reveal_strlit("dneg");
}

/// Every register mnemonic is nonempty and space-free.
proof fn lemma_reg_name_wf(r: crate::register::Register)
    ensures
        reg_name(r).len() > 0,
        forall|k: int| 0 <= k < reg_name(r).len() ==> reg_name(r)[k] != ' ',
{
    reveal_strlit("zr");
    reveal_strlit("r0");
    reveal_strlit("r1");
    reveal_strlit("r2");
    reveal_strlit("f0");
    reveal_strlit("f1");
    reveal_strlit("f2");
    reveal_strlit("p0");
    reveal_strlit("p1");
    reveal_strlit("p2");
    reveal_strlit("s0");
    reveal_strlit("s1");
    reveal_strlit("s2");
    reveal_strlit("x0");
    reveal_strlit("x1");
    reveal_strlit("x2");
}

/// The printed `data` token is nonempty and space-free.
proof fn lemma_fmt_data_wf(d: u16)
    ensures
        fmt_data(d).len() > 0,
        forall|k: int| 0 <= k < fmt_data(d).len() ==> fmt_data(d)[k] != ' ',
{
    reveal_strlit("-");
    if d >= 32768 {
        lemma_dec_digits((65536 - d) as nat);
        let t = fmt_data(d);
        let digits = dec_digits((65536 - d) as nat);
        assert forall|k: int| 0 <= k < t.len() implies t[k] != ' ' by {
            if k >= 1 {
                assert(t[k] == digits[k - 1]);
                assert(is_digit(digits[k - 1]));
            }
        }
    } else {
        lemma_dec_digits(d as nat);
        let t = fmt_data(d);
        assert forall|k: int| 0 <= k < t.len() implies t[k] != ' ' by {
            assert(is_digit(t[k]));
        }
    }
}

/// Two texts that differ in length or at one position are different.
proof fn lemma_seq_neq(a: Seq<char>, b: Seq<char>, i: int)
    requires
        a.len() != b.len() || (0 <= i < a.len() && i < b.len() && a[i] != b[i]),
    ensures
        a != b,
{
    if a == b {
        assert(a.len() == b.len());
        assert(a[i] == b[i]);
    }
}

/// Looking an opcode's mnemonic back up finds the same opcode.
#[verifier::rlimit(60)]
proof fn lemma_opcode_name_inverse(op: Opcode)
    ensures
        opcode_of_name(opcode_name(op)) == Some(op),
{
    reveal_strlit("nop");
    reveal_strlit("set");
    reveal_strlit("get");
    reveal_strlit("update");
    reveal_strlit("delete");
    reveal_strlit("swap");
    reveal_strlit("and");
    reveal_strlit("or");
    reveal_strlit("xor");
    reveal_strlit("not");
    reveal_strlit("shl");
    reveal_strlit("shr");
    reveal_strlit("dand");
    reveal_strlit("dor");
    reveal_strlit("dxor");
    reveal_strlit("dnot");
    reveal_strlit("dshl");
    reveal_strlit("dshr");
    reveal_strlit("add");
    reveal_strlit("sub");
    reveal_strlit("mul");
    reveal_strlit("div");
    reveal_strlit("mod");
    reveal_strlit("inc");
    reveal_strlit("dec");
    reveal_strlit("neg");
    reveal_strlit("dadd");
    reveal_strlit("dsub");
    reveal_strlit("dmul");
    reveal_strlit("ddiv");
    reveal_strlit("dmod");
    reveal_strlit("dinc");
    reveal_strlit("ddec");
    reveal_strlit("dneg");
    match op {
        Opcode::Nop => {
        },
        Opcode::Set16 => {
            lemma_seq_neq("set"@, "nop"@, 0);
        },
        Opcode::Get => {
            lemma_seq_neq("get"@, "nop"@, 0);
            lemma_seq_neq("get"@, "set"@, 0);
        },
        Opcode::Update => {
            lemma_seq_neq("update"@, "nop"@, 0);
            lemma_seq_neq("update"@, "set"@, 0);
            lemma_seq_neq("update"@, "get"@, 0);
        },
        Opcode::Delete => {
            lemma_seq_neq("delete"@, "nop"@, 0);
            lemma_seq_neq("delete"@, "set"@, 0);
            lemma_seq_neq("delete"@, "get"@, 0);
            lemma_seq_neq("delete"@, "update"@, 0);
        },
        Opcode::Swap => {
            lemma_seq_neq("swap"@, "nop"@, 0);
            lemma_seq_neq("swap"@, "set"@, 1);
            lemma_seq_neq("swap"@, "get"@, 0);
            lemma_seq_neq("swap"@, "update"@, 0);
            lemma_seq_neq("swap"@, "delete"@, 0);
        },
        Opcode::And => {
            lemma_seq_neq("and"@, "nop"@, 0);
            lemma_seq_neq("and"@, "set"@, 0);
            lemma_seq_neq("and"@, "get"@, 0);
            lemma_seq_neq("and"@, "update"@, 0);
            lemma_seq_neq("and"@, "delete"@, 0);
            lemma_seq_neq("and"@, "swap"@, 0);
        },
        Opcode::Or => {
            lemma_seq_neq("or"@, "nop"@, 0);
            lemma_seq_neq("or"@, "set"@, 0);
            lemma_seq_neq("or"@, "get"@, 0);
            lemma_seq_neq("or"@, "update"@, 0);
            lemma_seq_neq("or"@, "delete"@, 0);
            lemma_seq_neq("or"@, "swap"@, 0);
            lemma_seq_neq("or"@, "and"@, 0);
        },
        Opcode::Xor => {
            lemma_seq_neq("xor"@, "nop"@, 0);
            lemma_seq_neq("xor"@, "set"@, 0);
            lemma_seq_neq("xor"@, "get"@, 0);
            lemma_seq_neq("xor"@, "update"@, 0);
            lemma_seq_neq("xor"@, "delete"@, 0);
            lemma_seq_neq("xor"@, "swap"@, 0);
            lemma_seq_neq("xor"@, "and"@, 0);
            lemma_seq_neq("xor"@, "or"@, 0);
        },
        Opcode::Not => {
            lemma_seq_neq("not"@, "nop"@, 2);
            lemma_seq_neq("not"@, "set"@, 0);
            lemma_seq_neq("not"@, "get"@, 0);
            lemma_seq_neq("not"@, "update"@, 0);
            lemma_seq_neq("not"@, "delete"@, 0);
            lemma_seq_neq("not"@, "swap"@, 0);
            lemma_seq_neq("not"@, "and"@, 0);
            lemma_seq_neq("not"@, "or"@, 0);
            lemma_seq_neq("not"@, "xor"@, 0);
        },
        Opcode::Shl => {
            lemma_seq_neq("shl"@, "nop"@, 0);
            lemma_seq_neq("shl"@, "set"@, 1);
            lemma_seq_neq("shl"@, "get"@, 0);
            lemma_seq_neq("shl"@, "update"@, 0);
            lemma_seq_neq("shl"@, "delete"@, 0);
            lemma_seq_neq("shl"@, "swap"@, 1);
            lemma_seq_neq("shl"@, "and"@, 0);
            lemma_seq_neq("shl"@, "or"@, 0);
            lemma_seq_neq("shl"@, "xor"@, 0);
            lemma_seq_neq("shl"@, "not"@, 0);
        },
        Opcode::Shr => {
            lemma_seq_neq("shr"@, "nop"@, 0);
            lemma_seq_neq("shr"@, "set"@, 1);
            lemma_seq_neq("shr"@, "get"@, 0);
            lemma_seq_neq("shr"@, "update"@, 0);
            lemma_seq_neq("shr"@, "delete"@, 0);
            lemma_seq_neq("shr"@, "swap"@, 1);
            lemma_seq_neq("shr"@, "and"@, 0);
            lemma_seq_neq("shr"@, "or"@, 0);
            lemma_seq_neq("shr"@, "xor"@, 0);
            lemma_seq_neq("shr"@, "not"@, 0);
            lemma_seq_neq("shr"@, "shl"@, 2);
        },
        Opcode::Dand => {
            lemma_seq_neq("dand"@, "nop"@, 0);
            lemma_seq_neq("dand"@, "set"@, 0);
            lemma_seq_neq("dand"@, "get"@, 0);
            lemma_seq_neq("dand"@, "update"@, 0);
            lemma_seq_neq("dand"@, "delete"@, 1);
            lemma_seq_neq("dand"@, "swap"@, 0);
            lemma_seq_neq("dand"@, "and"@, 0);
            lemma_seq_neq("dand"@, "or"@, 0);
            lemma_seq_neq("dand"@, "xor"@, 0);
            lemma_seq_neq("dand"@, "not"@, 0);
            lemma_seq_neq("dand"@, "shl"@, 0);
            lemma_seq_neq("dand"@, "shr"@, 0);
        },
        Opcode::Dor => {
            lemma_seq_neq("dor"@, "nop"@, 0);
            lemma_seq_neq("dor"@, "set"@, 0);
            lemma_seq_neq("dor"@, "get"@, 0);
            lemma_seq_neq("dor"@, "update"@, 0);
            lemma_seq_neq("dor"@, "delete"@, 1);
            lemma_seq_neq("dor"@, "swap"@, 0);
            lemma_seq_neq("dor"@, "and"@, 0);
            lemma_seq_neq("dor"@, "or"@, 0);
            lemma_seq_neq("dor"@, "xor"@, 0);
            lemma_seq_neq("dor"@, "not"@, 0);
            lemma_seq_neq("dor"@, "shl"@, 0);
            lemma_seq_neq("dor"@, "shr"@, 0);
            lemma_seq_neq("dor"@, "dand"@, 1);
        },
        Opcode::Dxor => {
            lemma_seq_neq("dxor"@, "nop"@, 0);
            lemma_seq_neq("dxor"@, "set"@, 0);
            lemma_seq_neq("dxor"@, "get"@, 0);
            lemma_seq_neq("dxor"@, "update"@, 0);
            lemma_seq_neq("dxor"@, "delete"@, 1);
            lemma_seq_neq("dxor"@, "swap"@, 0);
            lemma_seq_neq("dxor"@, "and"@, 0);
            lemma_seq_neq("dxor"@, "or"@, 0);
            lemma_seq_neq("dxor"@, "xor"@, 0);
            lemma_seq_neq("dxor"@, "not"@, 0);
            lemma_seq_neq("dxor"@, "shl"@, 0);
            lemma_seq_neq("dxor"@, "shr"@, 0);
            lemma_seq_neq("dxor"@, "dand"@, 1);
            lemma_seq_neq("dxor"@, "dor"@, 1);
        },
        Opcode::Dnot => {
            lemma_seq_neq("dnot"@, "nop"@, 0);
            lemma_seq_neq("dnot"@, "set"@, 0);
            lemma_seq_neq("dnot"@, "get"@, 0);
            lemma_seq_neq("dnot"@, "update"@, 0);
            lemma_seq_neq("dnot"@, "delete"@, 1);
            lemma_seq_neq("dnot"@, "swap"@, 0);
            lemma_seq_neq("dnot"@, "and"@, 0);
            lemma_seq_neq("dnot"@, "or"@, 0);
            lemma_seq_neq("dnot"@, "xor"@, 0);
            lemma_seq_neq("dnot"@, "not"@, 0);
            lemma_seq_neq("dnot"@, "shl"@, 0);
            lemma_seq_neq("dnot"@, "shr"@, 0);
            lemma_seq_neq("dnot"@, "dand"@, 1);
            lemma_seq_neq("dnot"@, "dor"@, 1);
            lemma_seq_neq("dnot"@, "dxor"@, 1);
        },
        Opcode::Dshl => {
            lemma_seq_neq("dshl"@, "nop"@, 0);
            lemma_seq_neq("dshl"@, "set"@, 0);
            lemma_seq_neq("dshl"@, "get"@, 0);
            lemma_seq_neq("dshl"@, "update"@, 0);
            lemma_seq_neq("dshl"@, "delete"@, 1);
            lemma_seq_neq("dshl"@, "swap"@, 0);
            lemma_seq_neq("dshl"@, "and"@, 0);
            lemma_seq_neq("dshl"@, "or"@, 0);
            lemma_seq_neq("dshl"@, "xor"@, 0);
            lemma_seq_neq("dshl"@, "not"@, 0);
            lemma_seq_neq("dshl"@, "shl"@, 0);
            lemma_seq_neq("dshl"@, "shr"@, 0);
            lemma_seq_neq("dshl"@, "dand"@, 1);
            lemma_seq_neq("dshl"@, "dor"@, 1);
            lemma_seq_neq("dshl"@, "dxor"@, 1);
            lemma_seq_neq("dshl"@, "dnot"@, 1);
        },
        Opcode::Dshr => {
            lemma_seq_neq("dshr"@, "nop"@, 0);
            lemma_seq_neq("dshr"@, "set"@, 0);
            lemma_seq_neq("dshr"@, "get"@, 0);
            lemma_seq_neq("dshr"@, "update"@, 0);
            lemma_seq_neq("dshr"@, "delete"@, 1);
            lemma_seq_neq("dshr"@, "swap"@, 0);
            lemma_seq_neq("dshr"@, "and"@, 0);
            lemma_seq_neq("dshr"@, "or"@, 0);
            lemma_seq_neq("dshr"@, "xor"@, 0);
            lemma_seq_neq("dshr"@, "not"@, 0);
            lemma_seq_neq("dshr"@, "shl"@, 0);
            lemma_seq_neq("dshr"@, "shr"@, 0);
            lemma_seq_neq("dshr"@, "dand"@, 1);
            lemma_seq_neq("dshr"@, "dor"@, 1);
            lemma_seq_neq("dshr"@, "dxor"@, 1);
            lemma_seq_neq("dshr"@, "dnot"@, 1);
            lemma_seq_neq("dshr"@, "dshl"@, 3);
        },
        Opcode::Add => {
            lemma_seq_neq("add"@, "nop"@, 0);
            lemma_seq_neq("add"@, "set"@, 0);
            lemma_seq_neq("add"@, "get"@, 0);
            lemma_seq_neq("add"@, "update"@, 0);
            lemma_seq_neq("add"@, "delete"@, 0);
            lemma_seq_neq("add"@, "swap"@, 0);
            lemma_seq_neq("add"@, "and"@, 1);
            lemma_seq_neq("add"@, "or"@, 0);
            lemma_seq_neq("add"@, "xor"@, 0);
            lemma_seq_neq("add"@, "not"@, 0);
            lemma_seq_neq("add"@, "shl"@, 0);
            lemma_seq_neq("add"@, "shr"@, 0);
            lemma_seq_neq("add"@, "dand"@, 0);
            lemma_seq_neq("add"@, "dor"@, 0);
            lemma_seq_neq("add"@, "dxor"@, 0);
            lemma_seq_neq("add"@, "dnot"@, 0);
            lemma_seq_neq("add"@, "dshl"@, 0);
            lemma_seq_neq("add"@, "dshr"@, 0);
        },
        Opcode::Sub => {
            lemma_seq_neq("sub"@, "nop"@, 0);
            lemma_seq_neq("sub"@, "set"@, 1);
            lemma_seq_neq("sub"@, "get"@, 0);
            lemma_seq_neq("sub"@, "update"@, 0);
            lemma_seq_neq("sub"@, "delete"@, 0);
            lemma_seq_neq("sub"@, "swap"@, 1);
            lemma_seq_neq("sub"@, "and"@, 0);
            lemma_seq_neq("sub"@, "or"@, 0);
            lemma_seq_neq("sub"@, "xor"@, 0);
            lemma_seq_neq("sub"@, "not"@, 0);
            lemma_seq_neq("sub"@, "shl"@, 1);
            lemma_seq_neq("sub"@, "shr"@, 1);
            lemma_seq_neq("sub"@, "dand"@, 0);
            lemma_seq_neq("sub"@, "dor"@, 0);
            lemma_seq_neq("sub"@, "dxor"@, 0);
            lemma_seq_neq("sub"@, "dnot"@, 0);
            lemma_seq_neq("sub"@, "dshl"@, 0);
            lemma_seq_neq("sub"@, "dshr"@, 0);
            lemma_seq_neq("sub"@, "add"@, 0);
        },
        Opcode::Mul => {
            lemma_seq_neq("mul"@, "nop"@, 0);
            lemma_seq_neq("mul"@, "set"@, 0);
            lemma_seq_neq("mul"@, "get"@, 0);
            lemma_seq_neq("mul"@, "update"@, 0);
            lemma_seq_neq("mul"@, "delete"@, 0);
            lemma_seq_neq("mul"@, "swap"@, 0);
            lemma_seq_neq("mul"@, "and"@, 0);
            lemma_seq_neq("mul"@, "or"@, 0);
            lemma_seq_neq("mul"@, "xor"@, 0);
            lemma_seq_neq("mul"@, "not"@, 0);
            lemma_seq_neq("mul"@, "shl"@, 0);
            lemma_seq_neq("mul"@, "shr"@, 0);
            lemma_seq_neq("mul"@, "dand"@, 0);
            lemma_seq_neq("mul"@, "dor"@, 0);
            lemma_seq_neq("mul"@, "dxor"@, 0);
            lemma_seq_neq("mul"@, "dnot"@, 0);
            lemma_seq_neq("mul"@, "dshl"@, 0);
            lemma_seq_neq("mul"@, "dshr"@, 0);
            lemma_seq_neq("mul"@, "add"@, 0);
            lemma_seq_neq("mul"@, "sub"@, 0);
        },
        Opcode::Div => {
            lemma_seq_neq("div"@, "nop"@, 0);
            lemma_seq_neq("div"@, "set"@, 0);
            lemma_seq_neq("div"@, "get"@, 0);
            lemma_seq_neq("div"@, "update"@, 0);
            lemma_seq_neq("div"@, "delete"@, 1);
            lemma_seq_neq("div"@, "swap"@, 0);
            lemma_seq_neq("div"@, "and"@, 0);
            lemma_seq_neq("div"@, "or"@, 0);
            lemma_seq_neq("div"@, "xor"@, 0);
            lemma_seq_neq("div"@, "not"@, 0);
            lemma_seq_neq("div"@, "shl"@, 0);
            lemma_seq_neq("div"@, "shr"@, 0);
            lemma_seq_neq("div"@, "dand"@, 1);
            lemma_seq_neq("div"@, "dor"@, 1);
            lemma_seq_neq("div"@, "dxor"@, 1);
            lemma_seq_neq("div"@, "dnot"@, 1);
            lemma_seq_neq("div"@, "dshl"@, 1);
            lemma_seq_neq("div"@, "dshr"@, 1);
            lemma_seq_neq("div"@, "add"@, 0);
            lemma_seq_neq("div"@, "sub"@, 0);
            lemma_seq_neq("div"@, "mul"@, 0);
        },
        Opcode::Mod => {
            lemma_seq_neq("mod"@, "nop"@, 0);
            lemma_seq_neq("mod"@, "set"@, 0);
            lemma_seq_neq("mod"@, "get"@, 0);
            lemma_seq_neq("mod"@, "update"@, 0);
            lemma_seq_neq("mod"@, "delete"@, 0);
            lemma_seq_neq("mod"@, "swap"@, 0);
            lemma_seq_neq("mod"@, "and"@, 0);
            lemma_seq_neq("mod"@, "or"@, 0);
            lemma_seq_neq("mod"@, "xor"@, 0);
            lemma_seq_neq("mod"@, "not"@, 0);
            lemma_seq_neq("mod"@, "shl"@, 0);
            lemma_seq_neq("mod"@, "shr"@, 0);
            lemma_seq_neq("mod"@, "dand"@, 0);
            lemma_seq_neq("mod"@, "dor"@, 0);
            lemma_seq_neq("mod"@, "dxor"@, 0);
            lemma_seq_neq("mod"@, "dnot"@, 0);
            lemma_seq_neq("mod"@, "dshl"@, 0);
            lemma_seq_neq("mod"@, "dshr"@, 0);
            lemma_seq_neq("mod"@, "add"@, 0);
            lemma_seq_neq("mod"@, "sub"@, 0);
            lemma_seq_neq("mod"@, "mul"@, 1);
            lemma_seq_neq("mod"@, "div"@, 0);
        },
        Opcode::Inc => {
            lemma_seq_neq("inc"@, "nop"@, 0);
            lemma_seq_neq("inc"@, "set"@, 0);
            lemma_seq_neq("inc"@, "get"@, 0);
            lemma_seq_neq("inc"@, "update"@, 0);
            lemma_seq_neq("inc"@, "delete"@, 0);
            lemma_seq_neq("inc"@, "swap"@, 0);
            lemma_seq_neq("inc"@, "and"@, 0);
            lemma_seq_neq("inc"@, "or"@, 0);
            lemma_seq_neq("inc"@, "xor"@, 0);
            lemma_seq_neq("inc"@, "not"@, 0);
            lemma_seq_neq("inc"@, "shl"@, 0);
            lemma_seq_neq("inc"@, "shr"@, 0);
            lemma_seq_neq("inc"@, "dand"@, 0);
            lemma_seq_neq("inc"@, "dor"@, 0);
            lemma_seq_neq("inc"@, "dxor"@, 0);
            lemma_seq_neq("inc"@, "dnot"@, 0);
            lemma_seq_neq("inc"@, "dshl"@, 0);
            lemma_seq_neq("inc"@, "dshr"@, 0);
            lemma_seq_neq("inc"@, "add"@, 0);
            lemma_seq_neq("inc"@, "sub"@, 0);
            lemma_seq_neq("inc"@, "mul"@, 0);
            lemma_seq_neq("inc"@, "div"@, 0);
            lemma_seq_neq("inc"@, "mod"@, 0);
        },
        Opcode::Dec => {
            lemma_seq_neq("dec"@, "nop"@, 0);
            lemma_seq_neq("dec"@, "set"@, 0);
            lemma_seq_neq("dec"@, "get"@, 0);
            lemma_seq_neq("dec"@, "update"@, 0);
            lemma_seq_neq("dec"@, "delete"@, 2);
            lemma_seq_neq("dec"@, "swap"@, 0);
            lemma_seq_neq("dec"@, "and"@, 0);
            lemma_seq_neq("dec"@, "or"@, 0);
            lemma_seq_neq("dec"@, "xor"@, 0);
            lemma_seq_neq("dec"@, "not"@, 0);
            lemma_seq_neq("dec"@, "shl"@, 0);
            lemma_seq_neq("dec"@, "shr"@, 0);
            lemma_seq_neq("dec"@, "dand"@, 1);
            lemma_seq_neq("dec"@, "dor"@, 1);
            lemma_seq_neq("dec"@, "dxor"@, 1);
            lemma_seq_neq("dec"@, "dnot"@, 1);
            lemma_seq_neq("dec"@, "dshl"@, 1);
            lemma_seq_neq("dec"@, "dshr"@, 1);
            lemma_seq_neq("dec"@, "add"@, 0);
            lemma_seq_neq("dec"@, "sub"@, 0);
            lemma_seq_neq("dec"@, "mul"@, 0);
            lemma_seq_neq("dec"@, "div"@, 1);
            lemma_seq_neq("dec"@, "mod"@, 0);
            lemma_seq_neq("dec"@, "inc"@, 0);
        },
        Opcode::Neg => {
            lemma_seq_neq("neg"@, "nop"@, 1);
            lemma_seq_neq("neg"@, "set"@, 0);
            lemma_seq_neq("neg"@, "get"@, 0);
            lemma_seq_neq("neg"@, "update"@, 0);
            lemma_seq_neq("neg"@, "delete"@, 0);
            lemma_seq_neq("neg"@, "swap"@, 0);
            lemma_seq_neq("neg"@, "and"@, 0);
            lemma_seq_neq("neg"@, "or"@, 0);
            lemma_seq_neq("neg"@, "xor"@, 0);
            lemma_seq_neq("neg"@, "not"@, 1);
            lemma_seq_neq("neg"@, "shl"@, 0);
            lemma_seq_neq("neg"@, "shr"@, 0);
            lemma_seq_neq("neg"@, "dand"@, 0);
            lemma_seq_neq("neg"@, "dor"@, 0);
            lemma_seq_neq("neg"@, "dxor"@, 0);
            lemma_seq_neq("neg"@, "dnot"@, 0);
            lemma_seq_neq("neg"@, "dshl"@, 0);
            lemma_seq_neq("neg"@, "dshr"@, 0);
            lemma_seq_neq("neg"@, "add"@, 0);
            lemma_seq_neq("neg"@, "sub"@, 0);
            lemma_seq_neq("neg"@, "mul"@, 0);
            lemma_seq_neq("neg"@, "div"@, 0);
            lemma_seq_neq("neg"@, "mod"@, 0);
            lemma_seq_neq("neg"@, "inc"@, 0);
            lemma_seq_neq("neg"@, "dec"@, 0);
        },
        Opcode::Dadd => {
            lemma_seq_neq("dadd"@, "nop"@, 0);
            lemma_seq_neq("dadd"@, "set"@, 0);
            lemma_seq_neq("dadd"@, "get"@, 0);
            lemma_seq_neq("dadd"@, "update"@, 0);
            lemma_seq_neq("dadd"@, "delete"@, 1);
            lemma_seq_neq("dadd"@, "swap"@, 0);
            lemma_seq_neq("dadd"@, "and"@, 0);
            lemma_seq_neq("dadd"@, "or"@, 0);
            lemma_seq_neq("dadd"@, "xor"@, 0);
            lemma_seq_neq("dadd"@, "not"@, 0);
            lemma_seq_neq("dadd"@, "shl"@, 0);
            lemma_seq_neq("dadd"@, "shr"@, 0);
            lemma_seq_neq("dadd"@, "dand"@, 2);
            lemma_seq_neq("dadd"@, "dor"@, 1);
            lemma_seq_neq("dadd"@, "dxor"@, 1);
            lemma_seq_neq("dadd"@, "dnot"@, 1);
            lemma_seq_neq("dadd"@, "dshl"@, 1);
            lemma_seq_neq("dadd"@, "dshr"@, 1);
            lemma_seq_neq("dadd"@, "add"@, 0);
            lemma_seq_neq("dadd"@, "sub"@, 0);
            lemma_seq_neq("dadd"@, "mul"@, 0);
            lemma_seq_neq("dadd"@, "div"@, 1);
            lemma_seq_neq("dadd"@, "mod"@, 0);
            lemma_seq_neq("dadd"@, "inc"@, 0);
            lemma_seq_neq("dadd"@, "dec"@, 1);
            lemma_seq_neq("dadd"@, "neg"@, 0);
        },
        Opcode::Dsub => {
            lemma_seq_neq("dsub"@, "nop"@, 0);
            lemma_seq_neq("dsub"@, "set"@, 0);
            lemma_seq_neq("dsub"@, "get"@, 0);
            lemma_seq_neq("dsub"@, "update"@, 0);
            lemma_seq_neq("dsub"@, "delete"@, 1);
            lemma_seq_neq("dsub"@, "swap"@, 0);
            lemma_seq_neq("dsub"@, "and"@, 0);
            lemma_seq_neq("dsub"@, "or"@, 0);
            lemma_seq_neq("dsub"@, "xor"@, 0);
            lemma_seq_neq("dsub"@, "not"@, 0);
            lemma_seq_neq("dsub"@, "shl"@, 0);
            lemma_seq_neq("dsub"@, "shr"@, 0);
            lemma_seq_neq("dsub"@, "dand"@, 1);
            lemma_seq_neq("dsub"@, "dor"@, 1);
            lemma_seq_neq("dsub"@, "dxor"@, 1);
            lemma_seq_neq("dsub"@, "dnot"@, 1);
            lemma_seq_neq("dsub"@, "dshl"@, 2);
            lemma_seq_neq("dsub"@, "dshr"@, 2);
            lemma_seq_neq("dsub"@, "add"@, 0);
            lemma_seq_neq("dsub"@, "sub"@, 0);
            lemma_seq_neq("dsub"@, "mul"@, 0);
            lemma_seq_neq("dsub"@, "div"@, 1);
            lemma_seq_neq("dsub"@, "mod"@, 0);
            lemma_seq_neq("dsub"@, "inc"@, 0);
            lemma_seq_neq("dsub"@, "dec"@, 1);
            lemma_seq_neq("dsub"@, "neg"@, 0);
            lemma_seq_neq("dsub"@, "dadd"@, 1);
        },
        Opcode::Dmul => {
            lemma_seq_neq("dmul"@, "nop"@, 0);
            lemma_seq_neq("dmul"@, "set"@, 0);
            lemma_seq_neq("dmul"@, "get"@, 0);
            lemma_seq_neq("dmul"@, "update"@, 0);
            lemma_seq_neq("dmul"@, "delete"@, 1);
            lemma_seq_neq("dmul"@, "swap"@, 0);
            lemma_seq_neq("dmul"@, "and"@, 0);
            lemma_seq_neq("dmul"@, "or"@, 0);
            lemma_seq_neq("dmul"@, "xor"@, 0);
            lemma_seq_neq("dmul"@, "not"@, 0);
            lemma_seq_neq("dmul"@, "shl"@, 0);
            lemma_seq_neq("dmul"@, "shr"@, 0);
            lemma_seq_neq("dmul"@, "dand"@, 1);
            lemma_seq_neq("dmul"@, "dor"@, 1);
            lemma_seq_neq("dmul"@, "dxor"@, 1);
            lemma_seq_neq("dmul"@, "dnot"@, 1);
            lemma_seq_neq("dmul"@, "dshl"@, 1);
            lemma_seq_neq("dmul"@, "dshr"@, 1);
            lemma_seq_neq("dmul"@, "add"@, 0);
            lemma_seq_neq("dmul"@, "sub"@, 0);
            lemma_seq_neq("dmul"@, "mul"@, 0);
            lemma_seq_neq("dmul"@, "div"@, 1);
            lemma_seq_neq("dmul"@, "mod"@, 0);
            lemma_seq_neq("dmul"@, "inc"@, 0);
            lemma_seq_neq("dmul"@, "dec"@, 1);
            lemma_seq_neq("dmul"@, "neg"@, 0);
            lemma_seq_neq("dmul"@, "dadd"@, 1);
            lemma_seq_neq("dmul"@, "dsub"@, 1);
        },
        Opcode::Ddiv => {
            lemma_seq_neq("ddiv"@, "nop"@, 0);
            lemma_seq_neq("ddiv"@, "set"@, 0);
            lemma_seq_neq("ddiv"@, "get"@, 0);
            lemma_seq_neq("ddiv"@, "update"@, 0);
            lemma_seq_neq("ddiv"@, "delete"@, 1);
            lemma_seq_neq("ddiv"@, "swap"@, 0);
            lemma_seq_neq("ddiv"@, "and"@, 0);
            lemma_seq_neq("ddiv"@, "or"@, 0);
            lemma_seq_neq("ddiv"@, "xor"@, 0);
            lemma_seq_neq("ddiv"@, "not"@, 0);
            lemma_seq_neq("ddiv"@, "shl"@, 0);
            lemma_seq_neq("ddiv"@, "shr"@, 0);
            lemma_seq_neq("ddiv"@, "dand"@, 1);
            lemma_seq_neq("ddiv"@, "dor"@, 1);
            lemma_seq_neq("ddiv"@, "dxor"@, 1);
            lemma_seq_neq("ddiv"@, "dnot"@, 1);
            lemma_seq_neq("ddiv"@, "dshl"@, 1);
            lemma_seq_neq("ddiv"@, "dshr"@, 1);
            lemma_seq_neq("ddiv"@, "add"@, 0);
            lemma_seq_neq("ddiv"@, "sub"@, 0);
            lemma_seq_neq("ddiv"@, "mul"@, 0);
            lemma_seq_neq("ddiv"@, "div"@, 1);
            lemma_seq_neq("ddiv"@, "mod"@, 0);
            lemma_seq_neq("ddiv"@, "inc"@, 0);
            lemma_seq_neq("ddiv"@, "dec"@, 1);
            lemma_seq_neq("ddiv"@, "neg"@, 0);
            lemma_seq_neq("ddiv"@, "dadd"@, 1);
            lemma_seq_neq("ddiv"@, "dsub"@, 1);
            lemma_seq_neq("ddiv"@, "dmul"@, 1);
        },
        Opcode::Dmod => {
            lemma_seq_neq("dmod"@, "nop"@, 0);
            lemma_seq_neq("dmod"@, "set"@, 0);
            lemma_seq_neq("dmod"@, "get"@, 0);
            lemma_seq_neq("dmod"@, "update"@, 0);
            lemma_seq_neq("dmod"@, "delete"@, 1);
            lemma_seq_neq("dmod"@, "swap"@, 0);
            lemma_seq_neq("dmod"@, "and"@, 0);
            lemma_seq_neq("dmod"@, "or"@, 0);
            lemma_seq_neq("dmod"@, "xor"@, 0);
            lemma_seq_neq("dmod"@, "not"@, 0);
            lemma_seq_neq("dmod"@, "shl"@, 0);
            lemma_seq_neq("dmod"@, "shr"@, 0);
            lemma_seq_neq("dmod"@, "dand"@, 1);
            lemma_seq_neq("dmod"@, "dor"@, 1);
            lemma_seq_neq("dmod"@, "dxor"@, 1);
            lemma_seq_neq("dmod"@, "dnot"@, 1);
            lemma_seq_neq("dmod"@, "dshl"@, 1);
            lemma_seq_neq("dmod"@, "dshr"@, 1);
            lemma_seq_neq("dmod"@, "add"@, 0);
            lemma_seq_neq("dmod"@, "sub"@, 0);
            lemma_seq_neq("dmod"@, "mul"@, 0);
            lemma_seq_neq("dmod"@, "div"@, 1);
            lemma_seq_neq("dmod"@, "mod"@, 0);
            lemma_seq_neq("dmod"@, "inc"@, 0);
            lemma_seq_neq("dmod"@, "dec"@, 1);
            lemma_seq_neq("dmod"@, "neg"@, 0);
            lemma_seq_neq("dmod"@, "dadd"@, 1);
            lemma_seq_neq("dmod"@, "dsub"@, 1);
            lemma_seq_neq("dmod"@, "dmul"@, 2);
            lemma_seq_neq("dmod"@, "ddiv"@, 1);
        },
        Opcode::Dinc => {
            lemma_seq_neq("dinc"@, "nop"@, 0);
            lemma_seq_neq("dinc"@, "set"@, 0);
            lemma_seq_neq("dinc"@, "get"@, 0);
            lemma_seq_neq("dinc"@, "update"@, 0);
            lemma_seq_neq("dinc"@, "delete"@, 1);
            lemma_seq_neq("dinc"@, "swap"@, 0);
            lemma_seq_neq("dinc"@, "and"@, 0);
            lemma_seq_neq("dinc"@, "or"@, 0);
            lemma_seq_neq("dinc"@, "xor"@, 0);
            lemma_seq_neq("dinc"@, "not"@, 0);
            lemma_seq_neq("dinc"@, "shl"@, 0);
            lemma_seq_neq("dinc"@, "shr"@, 0);
            lemma_seq_neq("dinc"@, "dand"@, 1);
            lemma_seq_neq("dinc"@, "dor"@, 1);
            lemma_seq_neq("dinc"@, "dxor"@, 1);
            lemma_seq_neq("dinc"@, "dnot"@, 1);
            lemma_seq_neq("dinc"@, "dshl"@, 1);
            lemma_seq_neq("dinc"@, "dshr"@, 1);
            lemma_seq_neq("dinc"@, "add"@, 0);
            lemma_seq_neq("dinc"@, "sub"@, 0);
            lemma_seq_neq("dinc"@, "mul"@, 0);
            lemma_seq_neq("dinc"@, "div"@, 2);
            lemma_seq_neq("dinc"@, "mod"@, 0);
            lemma_seq_neq("dinc"@, "inc"@, 0);
            lemma_seq_neq("dinc"@, "dec"@, 1);
            lemma_seq_neq("dinc"@, "neg"@, 0);
            lemma_seq_neq("dinc"@, "dadd"@, 1);
            lemma_seq_neq("dinc"@, "dsub"@, 1);
            lemma_seq_neq("dinc"@, "dmul"@, 1);
            lemma_seq_neq("dinc"@, "ddiv"@, 1);
            lemma_seq_neq("dinc"@, "dmod"@, 1);
        },
        Opcode::Ddec => {
            lemma_seq_neq("ddec"@, "nop"@, 0);
            lemma_seq_neq("ddec"@, "set"@, 0);
            lemma_seq_neq("ddec"@, "get"@, 0);
            lemma_seq_neq("ddec"@, "update"@, 0);
            lemma_seq_neq("ddec"@, "delete"@, 1);
            lemma_seq_neq("ddec"@, "swap"@, 0);
            lemma_seq_neq("ddec"@, "and"@, 0);
            lemma_seq_neq("ddec"@, "or"@, 0);
            lemma_seq_neq("ddec"@, "xor"@, 0);
            lemma_seq_neq("ddec"@, "not"@, 0);
            lemma_seq_neq("ddec"@, "shl"@, 0);
            lemma_seq_neq("ddec"@, "shr"@, 0);
            lemma_seq_neq("ddec"@, "dand"@, 1);
            lemma_seq_neq("ddec"@, "dor"@, 1);
            lemma_seq_neq("ddec"@, "dxor"@, 1);
            lemma_seq_neq("ddec"@, "dnot"@, 1);
            lemma_seq_neq("ddec"@, "dshl"@, 1);
            lemma_seq_neq("ddec"@, "dshr"@, 1);
            lemma_seq_neq("ddec"@, "add"@, 0);
            lemma_seq_neq("ddec"@, "sub"@, 0);
            lemma_seq_neq("ddec"@, "mul"@, 0);
            lemma_seq_neq("ddec"@, "div"@, 1);
            lemma_seq_neq("ddec"@, "mod"@, 0);
            lemma_seq_neq("ddec"@, "inc"@, 0);
            lemma_seq_neq("ddec"@, "dec"@, 1);
            lemma_seq_neq("ddec"@, "neg"@, 0);
            lemma_seq_neq("ddec"@, "dadd"@, 1);
            lemma_seq_neq("ddec"@, "dsub"@, 1);
            lemma_seq_neq("ddec"@, "dmul"@, 1);
            lemma_seq_neq("ddec"@, "ddiv"@, 2);
            lemma_seq_neq("ddec"@, "dmod"@, 1);
            lemma_seq_neq("ddec"@, "dinc"@, 1);
        },
        Opcode::Dneg => {
            lemma_seq_neq("dneg"@, "nop"@, 0);
            lemma_seq_neq("dneg"@, "set"@, 0);
            lemma_seq_neq("dneg"@, "get"@, 0);
            lemma_seq_neq("dneg"@, "update"@, 0);
            lemma_seq_neq("dneg"@, "delete"@, 1);
            lemma_seq_neq("dneg"@, "swap"@, 0);
            lemma_seq_neq("dneg"@, "and"@, 0);
            lemma_seq_neq("dneg"@, "or"@, 0);
            lemma_seq_neq("dneg"@, "xor"@, 0);
            lemma_seq_neq("dneg"@, "not"@, 0);
            lemma_seq_neq("dneg"@, "shl"@, 0);
            lemma_seq_neq("dneg"@, "shr"@, 0);
            lemma_seq_neq("dneg"@, "dand"@, 1);
            lemma_seq_neq("dneg"@, "dor"@, 1);
            lemma_seq_neq("dneg"@, "dxor"@, 1);
            lemma_seq_neq("dneg"@, "dnot"@, 2);
            lemma_seq_neq("dneg"@, "dshl"@, 1);
            lemma_seq_neq("dneg"@, "dshr"@, 1);
            lemma_seq_neq("dneg"@, "add"@, 0);
            lemma_seq_neq("dneg"@, "sub"@, 0);
            lemma_seq_neq("dneg"@, "mul"@, 0);
            lemma_seq_neq("dneg"@, "div"@, 1);
            lemma_seq_neq("dneg"@, "mod"@, 0);
            lemma_seq_neq("dneg"@, "inc"@, 0);
            lemma_seq_neq("dneg"@, "dec"@, 1);
            lemma_seq_neq("dneg"@, "neg"@, 0);
            lemma_seq_neq("dneg"@, "dadd"@, 1);
            lemma_seq_neq("dneg"@, "dsub"@, 1);
            lemma_seq_neq("dneg"@, "dmul"@, 1);
            lemma_seq_neq("dneg"@, "ddiv"@, 1);
            lemma_seq_neq("dneg"@, "dmod"@, 1);
            lemma_seq_neq("dneg"@, "dinc"@, 1);
            lemma_seq_neq("dneg"@, "ddec"@, 1);
        },
    }
}

/// Looking a register's mnemonic back up finds the same register.
#[verifier::rlimit(60)]
proof fn lemma_reg_name_inverse(r: crate::register::Register)
    ensures
        reg_of_name(reg_name(r)) == Some(r),
{
    reveal_strlit("zr");
    reveal_strlit("r0");
    reveal_strlit("r1");
    reveal_strlit("r2");
    reveal_strlit("f0");
    reveal_strlit("f1");
    reveal_strlit("f2");
    reveal_strlit("p0");
    reveal_strlit("p1");
    reveal_strlit("p2");
    reveal_strlit("s0");
    reveal_strlit("s1");
    reveal_strlit("s2");
    reveal_strlit("x0");
    reveal_strlit("x1");
    reveal_strlit("x2");
    match r {
        crate::register::Register::ZR => {
        },
        crate::register::Register::R0 => {
            lemma_seq_neq("r0"@, "zr"@, 0);
        },
        crate::register::Register::R1 => {
            lemma_seq_neq("r1"@, "zr"@, 0);
            lemma_seq_neq("r1"@, "r0"@, 1);
        },
        crate::register::Register::R2 => {
            lemma_seq_neq("r2"@, "zr"@, 0);
            lemma_seq_neq("r2"@, "r0"@, 1);
            lemma_seq_neq("r2"@, "r1"@, 1);
        },
        crate::register::Register::F0 => {
            lemma_seq_neq("f0"@, "zr"@, 0);
            lemma_seq_neq("f0"@, "r0"@, 0);
            lemma_seq_neq("f0"@, "r1"@, 0);
            lemma_seq_neq("f0"@, "r2"@, 0);
        },
        crate::register::Register::F1 => {
            lemma_seq_neq("f1"@, "zr"@, 0);
            lemma_seq_neq("f1"@, "r0"@, 0);
            lemma_seq_neq("f1"@, "r1"@, 0);
            lemma_seq_neq("f1"@, "r2"@, 0);
            lemma_seq_neq("f1"@, "f0"@, 1);
        },
        crate::register::Register::F2 => {
            lemma_seq_neq("f2"@, "zr"@, 0);
            lemma_seq_neq("f2"@, "r0"@, 0);
            lemma_seq_neq("f2"@, "r1"@, 0);
            lemma_seq_neq("f2"@, "r2"@, 0);
            lemma_seq_neq("f2"@, "f0"@, 1);
            lemma_seq_neq("f2"@, "f1"@, 1);
        },
        crate::register::Register::P0 => {
            lemma_seq_neq("p0"@, "zr"@, 0);
            lemma_seq_neq("p0"@, "r0"@, 0);
            lemma_seq_neq("p0"@, "r1"@, 0);
            lemma_seq_neq("p0"@, "r2"@, 0);
            lemma_seq_neq("p0"@, "f0"@, 0);
            lemma_seq_neq("p0"@, "f1"@, 0);
            lemma_seq_neq("p0"@, "f2"@, 0);
        },
        crate::register::Register::P1 => {
            lemma_seq_neq("p1"@, "zr"@, 0);
            lemma_seq_neq("p1"@, "r0"@, 0);
            lemma_seq_neq("p1"@, "r1"@, 0);
            lemma_seq_neq("p1"@, "r2"@, 0);
            lemma_seq_neq("p1"@, "f0"@, 0);
            lemma_seq_neq("p1"@, "f1"@, 0);
            lemma_seq_neq("p1"@, "f2"@, 0);
            lemma_seq_neq("p1"@, "p0"@, 1);
        },
        crate::register::Register::P2 => {
            lemma_seq_neq("p2"@, "zr"@, 0);
            lemma_seq_neq("p2"@, "r0"@, 0);
            lemma_seq_neq("p2"@, "r1"@, 0);
            lemma_seq_neq("p2"@, "r2"@, 0);
            lemma_seq_neq("p2"@, "f0"@, 0);
            lemma_seq_neq("p2"@, "f1"@, 0);
            lemma_seq_neq("p2"@, "f2"@, 0);
            lemma_seq_neq("p2"@, "p0"@, 1);
            lemma_seq_neq("p2"@, "p1"@, 1);
        },
        crate::register::Register::S0 => {
            lemma_seq_neq("s0"@, "zr"@, 0);
            lemma_seq_neq("s0"@, "r0"@, 0);
            lemma_seq_neq("s0"@, "r1"@, 0);
            lemma_seq_neq("s0"@, "r2"@, 0);
            lemma_seq_neq("s0"@, "f0"@, 0);
            lemma_seq_neq("s0"@, "f1"@, 0);
            lemma_seq_neq("s0"@, "f2"@, 0);
            lemma_seq_neq("s0"@, "p0"@, 0);
            lemma_seq_neq("s0"@, "p1"@, 0);
            lemma_seq_neq("s0"@, "p2"@, 0);
        },
        crate::register::Register::S1 => {
            lemma_seq_neq("s1"@, "zr"@, 0);
            lemma_seq_neq("s1"@, "r0"@, 0);
            lemma_seq_neq("s1"@, "r1"@, 0);
            lemma_seq_neq("s1"@, "r2"@, 0);
            lemma_seq_neq("s1"@, "f0"@, 0);
            lemma_seq_neq("s1"@, "f1"@, 0);
            lemma_seq_neq("s1"@, "f2"@, 0);
            lemma_seq_neq("s1"@, "p0"@, 0);
            lemma_seq_neq("s1"@, "p1"@, 0);
            lemma_seq_neq("s1"@, "p2"@, 0);
            lemma_seq_neq("s1"@, "s0"@, 1);
        },
        crate::register::Register::S2 => {
            lemma_seq_neq("s2"@, "zr"@, 0);
            lemma_seq_neq("s2"@, "r0"@, 0);
            lemma_seq_neq("s2"@, "r1"@, 0);
            lemma_seq_neq("s2"@, "r2"@, 0);
            lemma_seq_neq("s2"@, "f0"@, 0);
            lemma_seq_neq("s2"@, "f1"@, 0);
            lemma_seq_neq("s2"@, "f2"@, 0);
            lemma_seq_neq("s2"@, "p0"@, 0);
            lemma_seq_neq("s2"@, "p1"@, 0);
            lemma_seq_neq("s2"@, "p2"@, 0);
            lemma_seq_neq("s2"@, "s0"@, 1);
            lemma_seq_neq("s2"@, "s1"@, 1);
        },
        crate::register::Register::X0 => {
            lemma_seq_neq("x0"@, "zr"@, 0);
            lemma_seq_neq("x0"@, "r0"@, 0);
            lemma_seq_neq("x0"@, "r1"@, 0);
            lemma_seq_neq("x0"@, "r2"@, 0);
            lemma_seq_neq("x0"@, "f0"@, 0);
            lemma_seq_neq("x0"@, "f1"@, 0);
            lemma_seq_neq("x0"@, "f2"@, 0);
            lemma_seq_neq("x0"@, "p0"@, 0);
            lemma_seq_neq("x0"@, "p1"@, 0);
            lemma_seq_neq("x0"@, "p2"@, 0);
            lemma_seq_neq("x0"@, "s0"@, 0);
            lemma_seq_neq("x0"@, "s1"@, 0);
            lemma_seq_neq("x0"@, "s2"@, 0);
        },
        crate::register::Register::X1 => {
            lemma_seq_neq("x1"@, "zr"@, 0);
            lemma_seq_neq("x1"@, "r0"@, 0);
            lemma_seq_neq("x1"@, "r1"@, 0);
            lemma_seq_neq("x1"@, "r2"@, 0);
            lemma_seq_neq("x1"@, "f0"@, 0);
            lemma_seq_neq("x1"@, "f1"@, 0);
            lemma_seq_neq("x1"@, "f2"@, 0);
            lemma_seq_neq("x1"@, "p0"@, 0);
            lemma_seq_neq("x1"@, "p1"@, 0);
            lemma_seq_neq("x1"@, "p2"@, 0);
            lemma_seq_neq("x1"@, "s0"@, 0);
            lemma_seq_neq("x1"@, "s1"@, 0);
            lemma_seq_neq("x1"@, "s2"@, 0);
            lemma_seq_neq("x1"@, "x0"@, 1);
        },
        crate::register::Register::X2 => {
            lemma_seq_neq("x2"@, "zr"@, 0);
            lemma_seq_neq("x2"@, "r0"@, 0);
            lemma_seq_neq("x2"@, "r1"@, 0);
            lemma_seq_neq("x2"@, "r2"@, 0);
            lemma_seq_neq("x2"@, "f0"@, 0);
            lemma_seq_neq("x2"@, "f1"@, 0);
            lemma_seq_neq("x2"@, "f2"@, 0);
            lemma_seq_neq("x2"@, "p0"@, 0);
            lemma_seq_neq("x2"@, "p1"@, 0);
            lemma_seq_neq("x2"@, "p2"@, 0);
            lemma_seq_neq("x2"@, "s0"@, 0);
            lemma_seq_neq("x2"@, "s1"@, 0);
            lemma_seq_neq("x2"@, "s2"@, 0);
            lemma_seq_neq("x2"@, "x0"@, 1);
            lemma_seq_neq("x2"@, "x1"@, 1);
        },
    }
}

/// Parsing the printed `data` token gives the field back.
proof fn lemma_data_roundtrip(d: u16)
    ensures
        parse_data(fmt_data(d)) == d,
{
    reveal_strlit("-");
    if d >= 32768 {
        let v = (65536 - d) as nat;
        lemma_dec_digits(v);
        let t = fmt_data(d);
        let m = t.subrange(1, t.len() as int);
        assert(t[0] == '-');
        assert(m =~= dec_digits(v));
    } else {
        lemma_dec_digits(d as nat);
        let t = fmt_data(d);
        assert(is_digit(t[0]));
        assert(t[0] != '-');
    }
}

} // verus!

verus! {

/// A space-free stretch bounded by the text's end or a space is the token
/// found there: `tok_end` stops at its end and the token reads back intact.
proof fn lemma_token_at(s: Seq<char>, start: int, t: Seq<char>)
    requires
        0 <= start,
        start + t.len() <= s.len(),
        forall|m: int| 0 <= m < t.len() ==> s[start + m] == t[m],
        forall|m: int| 0 <= m < t.len() ==> t[m] != ' ',
        start + t.len() == s.len() || s[start + t.len()] == ' ',
    ensures
        tok_end(s, start) == start + t.len(),
        s.subrange(start, start + t.len()) == t,
{
    assert forall|m: int| start <= m < start + t.len() implies s[m] != ' ' by {
        assert(s[m] == t[m - start]);
    }
    lemma_tok_end(s, start, start + t.len());
    assert(s.subrange(start, start + t.len()) =~= t);
}

/// Parsing inverts printing: every instruction with a known opcode survives
/// the trip through its text line unchanged.
pub proof fn lemma_parse_format(i: Instruction)
    requires
        opcode_of_tag(i.opcode) is Some,
    ensures
        parse_line_spec(fmt_line_spec(i)) == Ok::<Instruction, SsError>(i),
{
    let op = opcode_of_tag(i.opcode)->Some_0;
    let rb = i.regs;
    let lo = rb & 0x0F;
    let hi = rb >> 4;
    assert((rb & 0x0F) < 16 && (rb >> 4) < 16 && ((rb & 0x0F) | ((rb >> 4) << 4)) == rb)
        by (bit_vector);
    let ra = reg_of_id(lo);
    let rc = reg_of_id(hi);
    let n0 = opcode_name(op);
    let n1 = reg_name(ra);
    let n2 = reg_name(rc);
    let n3 = fmt_data(i.data);
    let sp = " "@;
    reveal_strlit(" ");
    assert(sp.len() == 1 && sp[0] == ' ');
    let s = fmt_line_spec(i);
    assert(s == n0 + sp + n1 + sp + n2 + sp + n3);
    lemma_opcode_name_wf(op);
    lemma_reg_name_wf(ra);
    lemma_reg_name_wf(rc);
    lemma_fmt_data_wf(i.data);
    let e0 = n0.len() as int;
    let st1 = e0 + 1;
    let e1 = st1 + n1.len();
    let st2 = e1 + 1;
    let e2 = st2 + n2.len();
    let st3 = e2 + 1;
    let e3 = st3 + n3.len();
    assert(s.len() == e3);
    assert forall|m: int| 0 <= m < n0.len() implies s[m] == n0[m] by {}
    assert(s[e0] == ' ');
    lemma_token_at(s, 0, n0);
    lemma_opcode_name_inverse(op);
    assert(tok_end(s, 0) == e0);
    assert(opcode_of_name(s.subrange(0, e0)) == Some(op));
    assert forall|m: int| 0 <= m < n1.len() implies s[st1 + m] == n1[m] by {}
    assert(s[e1] == ' ');
    lemma_token_at(s, st1, n1);
    lemma_reg_name_inverse(ra);
    assert(reg_of_name(s.subrange(st1, e1)) == Some(ra));
    assert forall|m: int| 0 <= m < n2.len() implies s[st2 + m] == n2[m] by {}
    assert(s[e2] == ' ');
    lemma_token_at(s, st2, n2);
    lemma_reg_name_inverse(rc);
    assert(reg_of_name(s.subrange(st2, e2)) == Some(rc));
    assert forall|m: int| 0 <= m < n3.len() implies s[st3 + m] == n3[m] by {}
    lemma_token_at(s, st3, n3);
    lemma_data_roundtrip(i.data);
    assert(parse_data(s.subrange(st3, e3)) == i.data);
    crate::register::lemma_reg_id_bijection(ra, lo);
    crate::register::lemma_reg_id_bijection(rc, hi);
    crate::opcode::lemma_opcode_tag_bijection(op, i.opcode);
    assert(parse_line_spec(s) == Ok::<Instruction, SsError>(built_ins(op, lo, hi, i.data)));
    assert(built_ins(op, lo, hi, i.data) == i);
}

} // verus!
