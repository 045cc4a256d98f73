use ss64::error::SsError;
use ss64::instruction::Instruction;

#[test]
fn encode_packs_fields_into_disjoint_ranges() {
    let i = Instruction::new(1, 0x21, 5);
    assert_eq!(i.encode(), 0x0005_2101);
}

#[test]
fn decode_unpacks_fields() {
    let i = Instruction::decode(0x0005_2101);
    assert_eq!(i.opcode, 1);
    assert_eq!(i.regs, 0x21);
    assert_eq!(i.data, 5);
}

#[test]
fn decode_encode_roundtrip_samples() {
    let samples = [
        Instruction::new(0, 0, 0),
        Instruction::new(33, 0xFF, 0xFFFF),
        Instruction::new(255, 0x5A, 0x8000),
        Instruction::new(12, 0x10, 1),
    ];
    for i in samples {
        assert_eq!(Instruction::decode(i.encode()), i);
    }
}

#[test]
fn encode_decode_word_roundtrip() {
    for w in [0u32, 0xFFFF_FFFF, 0x1234_5678, 0x0005_2101] {
        assert_eq!(Instruction::decode(w).encode(), w);
    }
}

#[test]
fn strip_registers_splits_nibbles() {
    let i = Instruction::new(0, 0xA3, 0);
    assert_eq!(i.strip_registers(), (3, 10));
}

#[test]
fn pack_registers_is_strip_inverse() {
    let packed = Instruction::pack_registers(3, 10);
    assert_eq!(packed, 0xA3);
    let i = Instruction::new(0, packed, 0);
    assert_eq!(i.strip_registers(), (3, 10));
}

#[test]
fn register_mnemonics_roundtrip() {
    for id in 0u8..16 {
        let name = ss64::register::name_of(id);
        assert_eq!(ss64::register::id_of(name), Ok(id));
    }
}

#[test]
fn unknown_register_mnemonic_is_an_error_not_zr() {
    assert_eq!(ss64::register::id_of("zz"), Err(SsError::InvalidMnemonic));
    assert_eq!(ss64::register::id_of(""), Err(SsError::InvalidMnemonic));
}

#[test]
fn opcode_tags_roundtrip() {
    for t in 0u8..34 {
        let op = ss64::opcode::Opcode::from_tag(t).unwrap();
        assert_eq!(op.tag(), t);
    }
    assert!(ss64::opcode::Opcode::from_tag(34).is_none());
    assert!(ss64::opcode::Opcode::from_tag(255).is_none());
}

#[test]
fn opcode_mnemonics_roundtrip() {
    for t in 0u8..34 {
        let op = ss64::opcode::Opcode::from_tag(t).unwrap();
        assert_eq!(ss64::opcode::Opcode::from_name(op.name_str()), Some(op));
    }
    assert!(ss64::opcode::Opcode::from_name("frob").is_none());
}

#[test]
fn data_and_branch_roles_are_exclusive() {
    // Every opcode either consumes `data` as an operand or branches on it,
    // never both; the split seen through the public classification.
    let data_ops = ["set", "dand", "dor", "dxor", "dshl", "dshr", "dadd", "dsub", "dmul", "ddiv",
        "dmod", "dinc", "ddec", "dneg"];
    for t in 0u8..34 {
        let op = ss64::opcode::Opcode::from_tag(t).unwrap();
        let consumes = data_ops.contains(&op.name_str());
        assert_eq!(op.branches(), !consumes);
    }
}
