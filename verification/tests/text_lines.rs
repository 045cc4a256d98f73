use ss64::error::SsError;
use ss64::instruction::Instruction;
use ss64::text::{format_line, parse_line};

#[test]
fn format_prints_all_four_tokens() {
    let i = Instruction::new(0, 0, 0);
    assert_eq!(format_line(&i).unwrap(), "nop zr zr 0");
}

#[test]
fn format_prints_mnemonics_and_signed_data() {
    let i = Instruction::new(26, 0x21, 3);
    assert_eq!(format_line(&i).unwrap(), "dadd r0 r1 3");
    let neg = Instruction::new(0, 0, 0xFFFF);
    assert_eq!(format_line(&neg).unwrap(), "nop zr zr -1");
    let min = Instruction::new(0, 0, 0x8000);
    assert_eq!(format_line(&min).unwrap(), "nop zr zr -32768");
    let max = Instruction::new(0, 0, 32767);
    assert_eq!(format_line(&max).unwrap(), "nop zr zr 32767");
}

#[test]
fn format_rejects_unknown_opcode_tag() {
    let i = Instruction::new(34, 0, 0);
    assert_eq!(format_line(&i), Err(SsError::UnknownOpcode));
}

#[test]
fn parse_reads_four_tokens() {
    assert_eq!(parse_line("dadd r0 r1 3"), Ok(Instruction::new(26, 0x21, 3)));
    assert_eq!(parse_line("set x2 f0 -1"), Ok(Instruction::new(1, 0x4F, 0xFFFF)));
}

#[test]
fn parse_defaults_missing_trailing_tokens() {
    assert_eq!(parse_line("nop"), Ok(Instruction::new(0, 0, 0)));
    assert_eq!(parse_line("add r0"), Ok(Instruction::new(18, 0x01, 0)));
    assert_eq!(parse_line("add r0 r1"), Ok(Instruction::new(18, 0x21, 0)));
}

#[test]
fn parse_ignores_extra_tokens() {
    assert_eq!(parse_line("add r0 r1 7 trailing junk"), Ok(Instruction::new(18, 0x21, 7)));
}

#[test]
fn parse_rejects_unknown_mnemonics() {
    assert_eq!(parse_line("frob r0 r1 0"), Err(SsError::InvalidMnemonic));
    assert_eq!(parse_line(""), Err(SsError::InvalidMnemonic));
    assert_eq!(parse_line("add rx r1 0"), Err(SsError::InvalidMnemonic));
    assert_eq!(parse_line("add r0 zz 0"), Err(SsError::InvalidMnemonic));
}

#[test]
fn parse_lapses_bad_data_tokens_to_zero() {
    assert_eq!(parse_line("add r0 r1 abc"), Ok(Instruction::new(18, 0x21, 0)));
    assert_eq!(parse_line("add r0 r1 32768"), Ok(Instruction::new(18, 0x21, 0)));
    assert_eq!(parse_line("add r0 r1 -32769"), Ok(Instruction::new(18, 0x21, 0)));
    assert_eq!(parse_line("add r0 r1 99999999999999999999"), Ok(Instruction::new(18, 0x21, 0)));
    assert_eq!(parse_line("add r0 r1 -"), Ok(Instruction::new(18, 0x21, 0)));
    assert_eq!(parse_line("add r0 r1 1x"), Ok(Instruction::new(18, 0x21, 0)));
}

#[test]
fn parse_accepts_signed_bounds() {
    assert_eq!(parse_line("nop zr zr -32768"), Ok(Instruction::new(0, 0, 0x8000)));
    assert_eq!(parse_line("nop zr zr 32767"), Ok(Instruction::new(0, 0, 32767)));
    assert_eq!(parse_line("nop zr zr -0"), Ok(Instruction::new(0, 0, 0)));
}

#[test]
fn parse_format_roundtrip_samples() {
    let samples = [
        Instruction::new(0, 0x00, 0),
        Instruction::new(1, 0x4F, 0xFFFF),
        Instruction::new(26, 0x21, 3),
        Instruction::new(33, 0xFF, 0x8000),
        Instruction::new(21, 0x12, 42),
        Instruction::new(15, 0xA5, 1),
    ];
    for i in samples {
        let line = format_line(&i).unwrap();
        assert_eq!(parse_line(line.as_str()), Ok(i));
    }
}

#[test]
fn parse_format_roundtrip_every_opcode() {
    for t in 0u8..34 {
        let i = Instruction::new(t, 0x3C, 1234);
        let line = format_line(&i).unwrap();
        assert_eq!(parse_line(line.as_str()), Ok(i));
    }
}
