//! Batch translation between assembly text lines and 32-bit instruction
//! words. Every line is independent of every other, so the batch work is
//! stateless and can fan out across worker threads.

use rayon::iter::{IntoParallelRefIterator, ParallelIterator};
use vstd::prelude::*;

use crate::error::SsError;
use crate::instruction::{decode_spec, encode_spec, Instruction};
use crate::opcode::opcode_of_tag;
use crate::text::{fmt_line_spec, format_line, parse_line, parse_line_spec};

verus! {

/// The word one text line compiles to: the line parsed, then encoded.
pub open spec fn compile_line_spec(s: Seq<char>) -> Result<u32, SsError> {
    match parse_line_spec(s) {
        Ok(i) => Ok(encode_spec(i)),
        Err(e) => Err(e),
    }
}

/// Compiles one assembly line into its 32-bit instruction word.
pub fn compile_line(line: &str) -> (r: Result<u32, SsError>)
    ensures
        r == compile_line_spec(line@),
{
    match parse_line(line) {
        Ok(i) => Ok(i.encode()),
        Err(e) => Err(e),
    }
}

/// Prints one 32-bit instruction word as its assembly line. A word whose
/// opcode tag maps to no operation has no mnemonic and is an
/// `UnknownOpcode` error.
pub fn decompile_line(line: u32) -> (r: Result<String, SsError>)
    ensures
        opcode_of_tag(decode_spec(line).opcode) is None ==> r == Err::<String, SsError>(
            SsError::UnknownOpcode,
        ),
        opcode_of_tag(decode_spec(line).opcode) is Some ==> (r matches Ok(s) && s@
            == fmt_line_spec(decode_spec(line))),
{
    let ins = Instruction::decode(line);
    format_line(&ins)
}

/// Compiles a batch of lines, in order. The result is every line's word, or
/// the error of the first line on which `compile_line` fails.
pub fn compile_lines(lines: &Vec<String>) -> (r: Result<Vec<u32>, SsError>)
    ensures
        r matches Ok(v) ==> v@.len() == lines@.len() && (forall|k: int|
            0 <= k < lines@.len() ==> compile_line_spec(lines@[k]@) == Ok::<u32, SsError>(v@[k])),
        r matches Err(e) ==> exists|k: int|
            0 <= k < lines@.len() && compile_line_spec(#[trigger] lines@[k]@) == Err::<u32, SsError>(
                e,
            ) && (forall|j: int| 0 <= j < k ==> compile_line_spec(#[trigger] lines@[j]@) is Ok),
{
    let mut out: Vec<u32> = Vec::new();
    let mut i: usize = 0;
    while i < lines.len()
        invariant
            i <= lines.len(),
            out@.len() == i,
            forall|k: int|
                0 <= k < i ==> compile_line_spec(#[trigger] lines@[k]@) == Ok::<u32, SsError>(
                    out@[k],
                ),
        decreases lines.len() - i,
    {
        match compile_line(lines[i].as_str()) {
            Ok(w) => {
                out.push(w);
            },
            Err(e) => {
                proof {
                    assert(compile_line_spec(lines@[i as int]@) == Err::<u32, SsError>(e));
                }
                return Err(e);
            },
        }
        i = i + 1;
    }
    Ok(out)
}

/// Relies on rayon's `par_iter`, `map` and `collect`: the closure is applied
/// to every line and the results are collected in input order, so each
/// output slot holds exactly what `compile_line` returns for the same slot.
#[verifier::external_body]
fn compile_lines_rayon(lines: &Vec<String>) -> (r: Vec<Result<u32, SsError>>)
    ensures
        r@.len() == lines@.len(),
        forall|k: int|
            0 <= k < lines@.len() ==> r@[k] == compile_line_spec(#[trigger] lines@[k]@),
{
    lines.par_iter().map(|line| compile_line(line.as_str())).collect()
}

/// Compiles a batch of lines like `compile_lines`, fanning the stateless
/// per-line work out across worker threads; the order of the results is the
/// order of the lines.
pub fn compile_lines_par(lines: &Vec<String>) -> (r: Result<Vec<u32>, SsError>)
    ensures
        r matches Ok(v) ==> v@.len() == lines@.len() && (forall|k: int|
            0 <= k < lines@.len() ==> compile_line_spec(lines@[k]@) == Ok::<u32, SsError>(v@[k])),
        r matches Err(e) ==> exists|k: int|
            0 <= k < lines@.len() && compile_line_spec(#[trigger] lines@[k]@) == Err::<u32, SsError>(
                e,
            ) && (forall|j: int| 0 <= j < k ==> compile_line_spec(#[trigger] lines@[j]@) is Ok),
{
    let words = compile_lines_rayon(lines);
    let mut out: Vec<u32> = Vec::new();
    let mut i: usize = 0;
    while i < words.len()
        invariant
            i <= words.len(),
            out@.len() == i,
            words@.len() == lines@.len(),
            forall|k: int|
                0 <= k < lines@.len() ==> words@[k] == compile_line_spec(#[trigger] lines@[k]@),
            forall|k: int|
                0 <= k < i ==> compile_line_spec(#[trigger] lines@[k]@) == Ok::<u32, SsError>(
                    out@[k],
                ),
        decreases words.len() - i,
    {
        match words[i] {
            Ok(w) => {
                out.push(w);
            },
            Err(e) => {
                proof {
                    assert(compile_line_spec(lines@[i as int]@) == Err::<u32, SsError>(e));
                }
                return Err(e);
            },
        }
        i = i + 1;
    }
    Ok(out)
}

} // verus!
