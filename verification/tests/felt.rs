use trace_decoder::Felt;
use trace_decoder::Operation;
use trace_decoder::felt::FIELD_MODULUS;

#[test]
fn new_reduces_into_the_field() {
    assert_eq!(5, Felt::new(5).as_int());
    assert_eq!(0, Felt::new(FIELD_MODULUS).as_int());
    assert_eq!(5, Felt::new(FIELD_MODULUS + 5).as_int());
}

#[test]
fn field_addition() {
    assert_eq!(7, Felt::new(3).add(Felt::new(4)).as_int());
    // wraps around the modulus
    assert_eq!(0, Felt::new(FIELD_MODULUS - 1).add(Felt::new(1)).as_int());
    assert_eq!(3, Felt::new(FIELD_MODULUS - 2).add(Felt::new(5)).as_int());
}

#[test]
fn field_subtraction() {
    assert_eq!(6, Felt::new(10).sub(Felt::new(4)).as_int());
    // wraps around the modulus
    assert_eq!(FIELD_MODULUS - 1, Felt::new(0).sub(Felt::new(1)).as_int());
}

#[test]
fn field_multiplication() {
    assert_eq!(30, Felt::new(5).mul(Felt::new(6)).as_int());
    // 2^64 * 2^64 = 2^128, which is 45 * 2^40 - 1 in the field
    let two_to_64 = Felt::new(1u128 << 64);
    assert_eq!(45 * (1u128 << 40) - 1, two_to_64.mul(two_to_64).as_int());
}

#[test]
fn operation_op_codes() {
    assert_eq!(Some(0), Operation::Noop.op_code());
    assert_eq!(Some(1), Operation::Drop.op_code());
    assert_eq!(Some(2), Operation::Swap.op_code());
    assert_eq!(Some(3), Operation::Dup.op_code());
    assert_eq!(None, Operation::AsmOp.op_code());
    assert!(Operation::AsmOp.is_decorator());
    assert!(!Operation::Noop.is_decorator());
}
