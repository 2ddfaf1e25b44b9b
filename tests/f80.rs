use strace::f80::f80_to_f64_bits;
use strace::regs::FloatRegisters;

#[test]
fn it_works() {
    println!("sqrt(64) = {}", f64::from_bits(f80_to_f64_bits(302277571763841567555584)));
    assert!((f64::from_bits(f80_to_f64_bits(302277571763841567555584)) - 8.0).abs() < std::f64::EPSILON);
    println!("sqrt(32) = {}", f64::from_bits(f80_to_f64_bits(302262945465556336010372)));
    assert!((f64::from_bits(f80_to_f64_bits(302262945465556336010372)) - 5.65685424949238).abs() < std::f64::EPSILON);
}

fn f80(sign: u128, exp: u128, significand: u128) -> u128 {
    (sign << 79) | (exp << 64) | significand
}

#[test]
fn decodes_one_and_minus_two() {
    assert_eq!(f80_to_f64_bits(f80(0, 16383, 1 << 63)), 1.0f64.to_bits());
    assert_eq!(f80_to_f64_bits(f80(1, 16384, 1 << 63)), (-2.0f64).to_bits());
}

#[test]
fn decodes_half_below_one() {
    assert_eq!(f80_to_f64_bits(f80(0, 16382, 1 << 63)), 0.5f64.to_bits());
}

#[test]
fn zero_and_extended_denormals_become_signed_zero() {
    assert_eq!(f80_to_f64_bits(0), 0);
    assert_eq!(f80_to_f64_bits(f80(1, 0, 12345)), 0x8000_0000_0000_0000);
}

#[test]
fn infinity_and_nan() {
    assert_eq!(f80_to_f64_bits(f80(0, 0x7fff, 1 << 63)), f64::INFINITY.to_bits());
    assert_eq!(f80_to_f64_bits(f80(1, 0x7fff, 1 << 63)), f64::NEG_INFINITY.to_bits());
    assert!(f64::from_bits(f80_to_f64_bits(f80(0, 0x7fff, (1 << 63) | 1))).is_nan());
}

#[test]
fn overflow_truncates_to_largest_finite() {
    assert_eq!(f80_to_f64_bits(f80(0, 16383 + 1024, 1 << 63)), f64::MAX.to_bits());
}

#[test]
fn small_values_become_double_denormals() {
    // 2^-1074, the smallest double denormal.
    assert_eq!(f80_to_f64_bits(f80(0, 16383 - 1074, 1 << 63)), 1);
    // Below it, truncation gives zero.
    assert_eq!(f80_to_f64_bits(f80(0, 16383 - 1075, 1 << 63)), 0);
}

#[test]
fn float_registers_decode_stack_slots() {
    let mut raw = vec![0u8; 416];
    let eight = 302277571763841567555584u128.to_le_bytes();
    raw[32 + 16..32 + 16 + 16].copy_from_slice(&eight);
    let regs = FloatRegisters::from_bytes(&raw).unwrap();
    assert_eq!(regs.st(1), 302277571763841567555584);
    assert_eq!(f64::from_bits(regs.st_f64_bits(1)), 8.0);
    assert_eq!(regs.st_f64_bits(0), 0);
    assert_eq!(regs.as_bytes(), &raw[..]);
}

#[test]
fn float_registers_refuse_short_record() {
    assert!(FloatRegisters::from_bytes(&[0u8; 415]).is_none());
}
