//! The program-container header that wraps a compiled instruction stream
//! for distribution: two magic bytes, a file type, a target-architecture
//! tag and a format version. The execution engine itself never reads the
//! container; it consumes the decoded instruction words.

use vstd::prelude::*;

verus! {

/// The two bytes that open every container: ASCII for the letters S and F.
#[derive(Clone, Copy, Debug)]
pub struct Magic(pub [u8; 2]);

impl Default for Magic {
    /// The standard magic bytes.
    fn default() -> (m: Self)
        ensures
            m.0[0] == 0x53,
            m.0[1] == 0x46,
    {
        Magic([0x53, 0x46])
    }
}

/// What the container holds: a runnable program or a shared object.
#[derive(Clone, Copy, Debug, PartialEq, Eq, Structural)]
pub enum FileType {
    Executable,
    Shared,
}

/// The byte tag of a file type.
pub open spec fn filetype_tag(f: FileType) -> u8 {
    match f {
        FileType::Executable => 0,
        FileType::Shared => 1,
    }
}

impl FileType {
    /// The byte tag of this file type.
    pub fn to_u8(self) -> (t: u8)
        ensures
            t == filetype_tag(self),
    {
        match self {
            FileType::Executable => 0,
            FileType::Shared => 1,
        }
    }

    /// The file type a byte tag names; an unassigned tag reads as Shared.
    pub fn from_u8(t: u8) -> (f: FileType)
        ensures
            f == if t == 0 {
                FileType::Executable
            } else {
                FileType::Shared
            },
    {
        if t == 0 {
            FileType::Executable
        } else {
            FileType::Shared
        }
    }
}

/// The target architectures a container can name.
#[derive(Clone, Copy, Debug, PartialEq, Eq, Structural)]
pub enum Arch {
    SS64,
    IA32,
    AMD64,
    ARM32,
    ARM64,
    WASM32,
    WASM64,
}

/// The byte tag of an architecture.
pub open spec fn arch_tag(a: Arch) -> u8 {
    match a {
        Arch::SS64 => 0,
        Arch::IA32 => 1,
        Arch::AMD64 => 2,
        Arch::ARM32 => 3,
        Arch::ARM64 => 4,
        Arch::WASM32 => 5,
        Arch::WASM64 => 6,
    }
}

impl Arch {
    /// The byte tag of this architecture.
    pub fn to_u8(self) -> (t: u8)
        ensures
            t == arch_tag(self),
    {
        match self {
            Arch::SS64 => 0,
            Arch::IA32 => 1,
            Arch::AMD64 => 2,
            Arch::ARM32 => 3,
            Arch::ARM64 => 4,
            Arch::WASM32 => 5,
            Arch::WASM64 => 6,
        }
    }
}

/// The container format versions.
#[derive(Clone, Copy, Debug, PartialEq, Eq, Structural)]
pub enum Version {
    V1,
}

impl Version {
    /// The byte tag of this version.
    pub fn to_u8(self) -> (t: u8)
        ensures
            t == 0,
    {
        match self {
            Version::V1 => 0,
        }
    }

    /// The version a byte tag names; every tag reads as the only version.
    pub fn from_u8(t: u8) -> (v: Version)
        ensures
            v == Version::V1,
    {
        match t {
            _ => Version::V1,
        }
    }
}

/// The five header bytes that precede the flat array of instruction words.
#[derive(Clone, Copy, Debug)]
pub struct SFileHeader {
    pub magic: [u8; 2],
    pub filetype: u8,
    pub arch: u8,
    pub version: u8,
}

impl SFileHeader {
    /// A header from its parts, each packed as its byte tag.
    pub fn new(magic: Magic, filetype: FileType, arch: Arch, version: u8) -> (h: Self)
        ensures
            h.magic == magic.0,
            h.filetype == filetype_tag(filetype),
            h.arch == arch_tag(arch),
            h.version == version,
    {
        SFileHeader {
            magic: magic.0,
            filetype: filetype.to_u8(),
            arch: arch.to_u8(),
            version,
        }
    }
}

} // verus!
