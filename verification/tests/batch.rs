use ss64::compiler::{compile_line, compile_lines, compile_lines_par, decompile_line};
use ss64::error::SsError;
use ss64::sfile::{Arch, FileType, Magic, SFileHeader, Version};

#[test]
fn compile_line_assembles_a_word() {
    assert_eq!(compile_line("dadd r0 r1 3"), Ok(0x0003_211A));
    assert_eq!(compile_line("nop"), Ok(0));
    assert_eq!(compile_line("frob r0 r1 3"), Err(SsError::InvalidMnemonic));
}

#[test]
fn decompile_line_prints_a_word() {
    assert_eq!(decompile_line(0x0003_211A).unwrap(), "dadd r0 r1 3");
    assert_eq!(decompile_line(0x0000_00FF), Err(SsError::UnknownOpcode));
}

#[test]
fn compile_then_decompile_roundtrips() {
    for line in ["nop zr zr 0", "set r0 zr 5", "dadd r0 r0 3", "div x2 s1 -7"] {
        let w = compile_line(line).unwrap();
        assert_eq!(decompile_line(w).unwrap(), line);
    }
}

#[test]
fn compile_lines_keeps_order() {
    let lines = vec![
        String::from("set r0 zr 5"),
        String::from("dadd r0 r0 3"),
        String::from("nop zr zr 2"),
    ];
    let words = compile_lines(&lines).unwrap();
    assert_eq!(words.len(), 3);
    for (k, line) in lines.iter().enumerate() {
        assert_eq!(words[k], compile_line(line.as_str()).unwrap());
    }
}

#[test]
fn compile_lines_surfaces_the_bad_line() {
    let lines = vec![String::from("nop"), String::from("frob r0 r1 3")];
    assert_eq!(compile_lines(&lines), Err(SsError::InvalidMnemonic));
}

#[test]
fn parallel_compilation_matches_sequential() {
    let mut lines: Vec<String> = Vec::new();
    for k in 0..500u32 {
        lines.push(format!("dadd r0 r1 {}", k % 100));
        lines.push(format!("nop zr zr {}", (k % 7) as i32 - 3));
    }
    assert_eq!(compile_lines_par(&lines), compile_lines(&lines));
    lines.push(String::from("frob"));
    assert_eq!(compile_lines_par(&lines), Err(SsError::InvalidMnemonic));
}

#[test]
fn header_packs_its_bytes() {
    let h = SFileHeader::new(Magic::default(), FileType::Executable, Arch::SS64, 0);
    assert_eq!(h.magic, [0x53, 0x46]);
    assert_eq!(h.magic, *b"SF");
    assert_eq!(h.filetype, 0);
    assert_eq!(h.arch, 0);
    assert_eq!(h.version, 0);
    let h2 = SFileHeader::new(Magic::default(), FileType::Shared, Arch::WASM64, 1);
    assert_eq!(h2.filetype, 1);
    assert_eq!(h2.arch, 6);
    assert_eq!(h2.version, 1);
}

#[test]
fn filetype_and_version_tags_roundtrip() {
    assert!(matches!(FileType::from_u8(0), FileType::Executable));
    assert!(matches!(FileType::from_u8(1), FileType::Shared));
    assert!(matches!(FileType::from_u8(9), FileType::Shared));
    assert_eq!(FileType::Executable.to_u8(), 0);
    assert_eq!(FileType::Shared.to_u8(), 1);
    assert!(matches!(Version::from_u8(0), Version::V1));
    assert!(matches!(Version::from_u8(200), Version::V1));
    assert_eq!(Version::V1.to_u8(), 0);
    for (a, t) in [
        (Arch::SS64, 0u8),
        (Arch::IA32, 1),
        (Arch::AMD64, 2),
        (Arch::ARM32, 3),
        (Arch::ARM64, 4),
        (Arch::WASM32, 5),
        (Arch::WASM64, 6),
    ] {
        assert_eq!(a.to_u8(), t);
    }
}
