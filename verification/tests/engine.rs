use ss64::error::{RunError, RunStatus, SsError};
use ss64::instruction::Instruction;
use ss64::s64::S64;

fn word(line: &str) -> u32 {
    ss64::compiler::compile_line(line).unwrap()
}

#[test]
fn fresh_machine_is_all_zero() {
    let m = S64::new();
    for id in 0u8..16 {
        assert_eq!(m.get_vals(id), (0, 0, 0, 0));
    }
}

#[test]
fn set_then_get_returns_the_written_slice() {
    // Lane write/read inverse on a scalar register.
    let mut m = S64::new();
    m.set(1, 2, 0xABCD);
    m.get(1, 2, 0);
    assert_eq!(m.get_vals(1).0 >> 32 & 0xFFFF, 0xABCD);
}

#[test]
fn set_then_get_returns_the_written_slice_wide() {
    // Lane write/read inverse on a 256-bit register, lane index 9.
    let mut m = S64::new();
    m.set(13, 9, 0x1234);
    assert_eq!(m.get_vals(13).2, 0x1234u64 << 16);
    m.get(13, 9, 0);
    assert_eq!(m.get_vals(1).0 >> 16 & 0xFFFF, 0x1234);
}

#[test]
fn set_out_of_range_index_degrades_to_lane_zero() {
    let mut m = S64::new();
    m.set(1, 9, 7);
    assert_eq!(m.get_vals(1).0, 7);
}

#[test]
fn set_clears_before_or() {
    let mut m = S64::new();
    m.set(1, 0, 0xFFFF);
    m.set(1, 0, 0x0005);
    assert_eq!(m.get_vals(1).0, 5);
}

#[test]
fn writes_to_zero_register_are_discarded() {
    let mut m = S64::new();
    m.dinc(0, 0, 10);
    m.set(0, 0, 99);
    m.update(0, 1, 0);
    assert_eq!(m.get_vals(0), (0, 0, 0, 0));
}

#[test]
fn zero_register_stays_zero_through_a_run() {
    let code = vec![
        word("dinc zr zr 10"),
        word("set zr zr 99"),
        word("not zr zr 0"),
        word("dnot zr zr 0"),
    ];
    let mut m = S64::new();
    assert_eq!(m.execute_code(&code, 100), Ok(RunStatus::Halted));
    assert_eq!(m.get_vals(0), (0, 0, 0, 0));
}

#[test]
fn divide_by_zero_register_leaves_state_unchanged() {
    // Div r0 r1 0 with r1 == 0 faults and changes nothing.
    let mut m = S64::new();
    m.set(1, 0, 7);
    let r = m.execute_instruction(Instruction::new(21, 0x21, 0));
    assert_eq!(r, Err(SsError::DivideFault));
    assert_eq!(m.get_vals(1).0, 7);
}

#[test]
fn divide_fault_skips_and_the_run_continues() {
    let code = vec![word("ddiv r0 r1 0"), word("dinc r0 zr 7")];
    let mut m = S64::new();
    assert_eq!(m.execute_code(&code, 100), Ok(RunStatus::Halted));
    assert_eq!(m.get_vals(1).0, 8);
}

#[test]
fn set_then_dadd_scenario() {
    // Set writes 5 into r0's low 16 bits; Dadd then leaves 8, branching
    // nowhere: both steps advance the counter by one.
    let code = vec![word("set r0 zr 5"), word("dadd r0 r0 3")];
    let mut m = S64::new();
    assert_eq!(m.execute_code(&code, 1), Ok(RunStatus::Exhausted));
    assert_eq!(m.get_vals(1).0 & 0xFFFF, 5);
    assert_eq!(m.execute_code(&code, 1), Ok(RunStatus::Halted));
    assert_eq!(m.get_vals(1).0, 8);
}

#[test]
fn dinc_broadcasts_data_and_its_successor() {
    let code = vec![word("dinc r0 r1 10")];
    let mut m = S64::new();
    assert_eq!(m.execute_code(&code, 10), Ok(RunStatus::Halted));
    assert_eq!(m.get_vals(1), (11, 0, 0, 0));
    assert_eq!(m.get_vals(2), (10, 0, 0, 0));
}

#[test]
fn dinc_broadcasts_to_every_lane_of_a_wide_register() {
    let mut m = S64::new();
    m.dinc(13, 14, 10);
    assert_eq!(m.get_vals(13), (11, 11, 11, 11));
    assert_eq!(m.get_vals(14), (10, 10, 10, 10));
}

#[test]
fn nop_displacement_skips_an_instruction() {
    // Three Nops where the first's data is 2: execution skips index 1.
    let code = vec![word("nop zr zr 2"), word("dinc r0 zr 41"), word("dinc r1 zr 6")];
    let mut m = S64::new();
    assert_eq!(m.execute_code(&code, 1), Ok(RunStatus::Exhausted));
    let r = m.execute_code(&code, 100);
    assert_eq!(r, Ok(RunStatus::Halted));
    assert_eq!(m.get_vals(1).0, 0);
    assert_eq!(m.get_vals(2).0, 7);
}

#[test]
fn branch_before_start_aborts() {
    let code = vec![word("nop zr zr -5")];
    let mut m = S64::new();
    assert_eq!(
        m.execute_code(&code, 10),
        Err(RunError { kind: SsError::ProgramCounterOutOfRange, at: 0 })
    );
}

#[test]
fn branch_past_end_aborts() {
    let code = vec![word("nop zr zr 100")];
    let mut m = S64::new();
    assert_eq!(
        m.execute_code(&code, 10),
        Err(RunError { kind: SsError::ProgramCounterOutOfRange, at: 0 })
    );
}

#[test]
fn branch_to_exact_end_terminates() {
    let code = vec![word("nop zr zr 1")];
    let mut m = S64::new();
    assert_eq!(m.execute_code(&code, 10), Ok(RunStatus::Halted));
}

#[test]
fn unknown_opcode_aborts_with_index() {
    let code = vec![word("nop zr zr 0"), Instruction::new(200, 0, 0).encode()];
    let mut m = S64::new();
    assert_eq!(
        m.execute_code(&code, 10),
        Err(RunError { kind: SsError::UnknownOpcode, at: 1 })
    );
    assert_eq!(
        m.execute_instruction(Instruction::new(34, 0, 0)),
        Err(SsError::UnknownOpcode)
    );
}

#[test]
fn update_copies_and_delete_clears_the_source() {
    let mut m = S64::new();
    m.dinc(2, 0, 4);
    m.update(1, 2, 0);
    assert_eq!(m.get_vals(1).0, 5);
    m.delete(3, 2, 0);
    assert_eq!(m.get_vals(3).0, 5);
    assert_eq!(m.get_vals(2).0, 0);
}

#[test]
fn swap_exchanges_lanes_of_different_widths() {
    let mut m = S64::new();
    m.dinc(1, 0, 4);
    m.dinc(13, 0, 1);
    m.swap(1, 13, 0);
    assert_eq!(m.get_vals(1).0, 2);
    assert_eq!(m.get_vals(13), (5, 0, 0, 0));
}

#[test]
fn bitwise_ops_combine_lane_wise() {
    let mut m = S64::new();
    m.set(1, 0, 0b1100);
    m.set(2, 0, 0b1010);
    m.and(1, 2, 0);
    assert_eq!(m.get_vals(1).0, 0b1000);
    m.or(1, 2, 0);
    assert_eq!(m.get_vals(1).0, 0b1010);
    m.xor(1, 2, 0);
    assert_eq!(m.get_vals(1).0, 0);
    m.dand(1, 2, 0b0110);
    assert_eq!(m.get_vals(1).0, 0b0010);
    m.dor(1, 2, 0b0001);
    assert_eq!(m.get_vals(1).0, 0b1011);
    m.dxor(1, 2, 0b1111);
    assert_eq!(m.get_vals(1).0, 0b0101);
}

#[test]
fn not_complements_both_registers() {
    let mut m = S64::new();
    m.set(1, 0, 1);
    m.not(1, 2, 0);
    assert_eq!(m.get_vals(1).0, !1u64);
    assert_eq!(m.get_vals(2).0, !0u64);
}

#[test]
fn shifts_saturate_at_sixty_four() {
    let mut m = S64::new();
    m.set(1, 0, 5);
    m.set(2, 0, 2);
    m.shl(1, 2, 0);
    assert_eq!(m.get_vals(1).0, 20);
    m.shr(1, 2, 0);
    assert_eq!(m.get_vals(1).0, 5);
    m.dinc(2, 0, 99);
    m.shl(1, 2, 0);
    assert_eq!(m.get_vals(1).0, 0);
    m.set(1, 0, 5);
    m.shr(1, 2, 0);
    assert_eq!(m.get_vals(1).0, 0);
    m.dshl(1, 3, 70);
    assert_eq!(m.get_vals(1).0, 0);
}

#[test]
fn integer_arithmetic_wraps() {
    let mut m = S64::new();
    m.dsub(1, 0, 1);
    assert_eq!(m.get_vals(1).0, u64::MAX);
    m.dinc(2, 0, 1);
    m.add(1, 2, 0);
    assert_eq!(m.get_vals(1).0, 1);
    m.ddec(3, 0, 0);
    assert_eq!(m.get_vals(3).0, u64::MAX);
    m.dneg(1, 0, 1);
    assert_eq!(m.get_vals(1).0, 0xFFFF);
    m.dneg(1, 0, 0);
    assert_eq!(m.get_vals(1).0, 0);
}

#[test]
fn inc_and_dec_touch_both_registers() {
    let mut m = S64::new();
    m.dinc(1, 2, 4);
    m.inc(1, 2, 0);
    assert_eq!(m.get_vals(1).0, 6);
    assert_eq!(m.get_vals(2).0, 5);
    m.dec(1, 2, 0);
    assert_eq!(m.get_vals(1).0, 5);
    assert_eq!(m.get_vals(2).0, 4);
}

#[test]
fn neg_wraps_two_complement() {
    let mut m = S64::new();
    m.set(1, 0, 5);
    m.neg(1, 0, 0);
    assert_eq!(m.get_vals(1).0, 5u64.wrapping_neg());
}

#[test]
fn div_and_mod_work_lane_wise() {
    let mut m = S64::new();
    m.dinc(1, 0, 16);
    m.dinc(2, 0, 4);
    assert_eq!(m.div(1, 2, 0), Ok(()));
    assert_eq!(m.get_vals(1).0, 3);
    m.dinc(1, 0, 16);
    assert_eq!(m.modulo(1, 2, 0), Ok(()));
    assert_eq!(m.get_vals(1).0, 2);
    assert_eq!(m.ddiv(1, 2, 0), Err(SsError::DivideFault));
    assert_eq!(m.dmod(1, 2, 0), Err(SsError::DivideFault));
    m.dinc(2, 0, 6);
    assert_eq!(m.ddiv(1, 2, 2), Ok(()));
    assert_eq!(m.get_vals(1).0, 3);
    assert_eq!(m.dmod(1, 2, 4), Ok(()));
    assert_eq!(m.get_vals(1).0, 3);
}

#[test]
fn wide_divide_faults_on_a_narrow_source() {
    // A four-lane destination divides by four source lanes; a scalar source
    // has zeros past its width, so the whole instruction faults.
    let mut m = S64::new();
    m.dinc(13, 0, 7);
    m.dinc(1, 0, 1);
    assert_eq!(m.div(13, 1, 0), Err(SsError::DivideFault));
    assert_eq!(m.get_vals(13), (8, 8, 8, 8));
}
