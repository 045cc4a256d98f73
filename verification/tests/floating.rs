//! The floating register family combines its lanes as IEEE-754 binary64
//! values reinterpreted from the 64-bit storage. Each case here would fail
//! if the software float unit handed an operand back unchanged.

use ss64::s64::S64;

#[test]
fn dadd_on_a_float_register_adds_as_binary64() {
    let mut m = S64::new();
    // f0 = bits(0.0) + 3.0
    m.dadd(4, 0, 3);
    assert_eq!(m.get_vals(4).0, 3.0f64.to_bits());
}

#[test]
fn dinc_on_float_registers_broadcasts_binary64_values() {
    let mut m = S64::new();
    m.dinc(4, 5, 10);
    assert_eq!(m.get_vals(4).0, 11.0f64.to_bits());
    assert_eq!(m.get_vals(5).0, 10.0f64.to_bits());
}

#[test]
fn ddec_and_dneg_on_float_registers() {
    let mut m = S64::new();
    m.ddec(4, 0, 10);
    assert_eq!(m.get_vals(4).0, 9.0f64.to_bits());
    m.dneg(4, 0, 3);
    // Dneg broadcasts the 16-bit two's complement of data, as a binary64.
    assert_eq!(m.get_vals(4).0, 65533.0f64.to_bits());
}

#[test]
fn dsub_dmul_ddiv_dmod_on_float_registers() {
    let mut m = S64::new();
    m.dinc(5, 5, 5);
    // f1 holds bits(5.0).
    m.dsub(4, 5, 2);
    assert_eq!(m.get_vals(4).0, 3.0f64.to_bits());
    m.dmul(4, 5, 3);
    assert_eq!(m.get_vals(4).0, 15.0f64.to_bits());
    assert_eq!(m.ddiv(4, 5, 2), Ok(()));
    assert_eq!(m.get_vals(4).0, 2.5f64.to_bits());
    assert_eq!(m.dmod(4, 5, 3), Ok(()));
    assert_eq!(m.get_vals(4).0, 2.0f64.to_bits());
}

#[test]
fn register_register_float_arithmetic() {
    let mut m = S64::new();
    m.dinc(4, 5, 2);
    // f0 = bits(3.0), f1 = bits(2.0).
    m.add(4, 5, 0);
    assert_eq!(m.get_vals(4).0, 5.0f64.to_bits());
    m.sub(4, 5, 0);
    assert_eq!(m.get_vals(4).0, 3.0f64.to_bits());
    m.mul(4, 5, 0);
    assert_eq!(m.get_vals(4).0, 6.0f64.to_bits());
    assert_eq!(m.div(4, 5, 0), Ok(()));
    assert_eq!(m.get_vals(4).0, 3.0f64.to_bits());
    m.dinc(4, 4, 7);
    assert_eq!(m.modulo(4, 5, 0), Ok(()));
    assert_eq!(m.get_vals(4).0, 1.0f64.to_bits());
}

#[test]
fn inc_dec_and_neg_on_float_registers() {
    let mut m = S64::new();
    m.dinc(4, 0, 2);
    // f0 = bits(3.0).
    m.inc(4, 0, 0);
    assert_eq!(m.get_vals(4).0, 4.0f64.to_bits());
    m.dec(4, 0, 0);
    assert_eq!(m.get_vals(4).0, 3.0f64.to_bits());
    m.neg(4, 0, 0);
    assert_eq!(m.get_vals(4).0, (-3.0f64).to_bits());
    m.neg(4, 0, 0);
    assert_eq!(m.get_vals(4).0, 3.0f64.to_bits());
}

#[test]
fn float_division_by_zero_bits_faults_like_integers() {
    let mut m = S64::new();
    m.dinc(4, 0, 9);
    // f1 (the divisor) holds all-zero bits: the instruction faults whole.
    assert_eq!(m.div(4, 5, 0), Err(ss64::error::SsError::DivideFault));
    assert_eq!(m.get_vals(4).0, 10.0f64.to_bits());
}
