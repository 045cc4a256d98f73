//! A small register-based virtual machine: a fixed-width binary instruction
//! codec, a four-token text assembler, and an execution engine over a
//! heterogeneous register file with lane-addressable partial writes.

pub mod compiler;
pub mod error;
pub mod fp;
pub mod instruction;
pub mod opcode;
pub mod register;
pub mod s64;
pub mod sfile;
pub mod text;
