use rjvm::error::ExecError;
use rjvm::jvm::arith::{
    apply_int_op, apply_long_op, apply_long_shift, int_low_eight, long_compare, long_to_int, negate_double,
    negate_float, negate_int, negate_long, IntOp,
};
use rjvm::jvm::heap::{to_low_byte, to_low_char, to_low_short};
use rjvm::jvm::helpers::refeq;
use rjvm::jvm::types::{HeapType, Kind, Type};

#[test]
fn int_sums_and_products_wrap() {
    assert_eq!(apply_int_op(IntOp::Add, i32::MAX, 1), Ok(i32::MIN));
    assert_eq!(apply_int_op(IntOp::Add, 2, 3), Ok(5));
    assert_eq!(apply_int_op(IntOp::Sub, i32::MIN, 1), Ok(i32::MAX));
    assert_eq!(apply_int_op(IntOp::Mul, 65536, 65536), Ok(0));
    assert_eq!(apply_int_op(IntOp::Mul, 65537, 65537), Ok(131073));
    assert_eq!(apply_int_op(IntOp::Mul, -3, 7), Ok(-21));
}

#[test]
fn int_division_rounds_toward_zero() {
    assert_eq!(apply_int_op(IntOp::Div, 7, 2), Ok(3));
    assert_eq!(apply_int_op(IntOp::Div, -7, 2), Ok(-3));
    assert_eq!(apply_int_op(IntOp::Div, 7, -2), Ok(-3));
    assert_eq!(apply_int_op(IntOp::Div, -7, -2), Ok(3));
    assert_eq!(apply_int_op(IntOp::Div, i32::MIN, -1), Ok(i32::MIN));
    assert_eq!(apply_int_op(IntOp::Div, 1, 0), Err(ExecError::DivisionByZero));
    assert_eq!(apply_int_op(IntOp::Rem, 7, 2), Ok(1));
    assert_eq!(apply_int_op(IntOp::Rem, -7, 2), Ok(-1));
    assert_eq!(apply_int_op(IntOp::Rem, 7, -2), Ok(1));
    assert_eq!(apply_int_op(IntOp::Rem, -7, -2), Ok(-1));
    assert_eq!(apply_int_op(IntOp::Rem, i32::MIN, -1), Ok(0));
    assert_eq!(apply_int_op(IntOp::Rem, 1, 0), Err(ExecError::DivisionByZero));
}

#[test]
fn int_bit_operations() {
    assert_eq!(apply_int_op(IntOp::And, 0b1100, 0b1010), Ok(0b1000));
    assert_eq!(apply_int_op(IntOp::Or, 0b1100, 0b1010), Ok(0b1110));
    assert_eq!(apply_int_op(IntOp::Xor, 0b1100, 0b1010), Ok(0b0110));
    assert_eq!(apply_int_op(IntOp::And, -1, 0x7fff_ffff), Ok(0x7fff_ffff));
    assert_eq!(apply_int_op(IntOp::Shl, 1, 31), Ok(i32::MIN));
    assert_eq!(apply_int_op(IntOp::Shl, 1, 32), Ok(1));
    assert_eq!(apply_int_op(IntOp::Shl, 3, -1), Ok(i32::MIN));
    assert_eq!(apply_int_op(IntOp::Shr, -8, 1), Ok(-4));
    assert_eq!(apply_int_op(IntOp::Shr, -8, 33), Ok(-4));
    assert_eq!(apply_int_op(IntOp::Ushr, -8, 1), Ok(0x7fff_fffc));
    assert_eq!(apply_int_op(IntOp::Ushr, -1, 32), Ok(-1));
}

#[test]
fn long_operations() {
    assert_eq!(apply_long_op(IntOp::Add, i64::MAX, 1), Ok(i64::MIN));
    assert_eq!(apply_long_op(IntOp::Sub, 0, i64::MIN), Ok(i64::MIN));
    assert_eq!(apply_long_op(IntOp::Mul, 1 << 32, 1 << 32), Ok(0));
    assert_eq!(apply_long_op(IntOp::Div, -9, 4), Ok(-2));
    assert_eq!(apply_long_op(IntOp::Div, i64::MIN, -1), Ok(i64::MIN));
    assert_eq!(apply_long_op(IntOp::Rem, -9, 4), Ok(-1));
    assert_eq!(apply_long_op(IntOp::Rem, i64::MIN, -1), Ok(0));
    assert_eq!(apply_long_op(IntOp::Div, 1, 0), Err(ExecError::DivisionByZero));
    assert_eq!(apply_long_op(IntOp::Xor, 5, 1), Ok(4));
    assert_eq!(apply_long_op(IntOp::Shl, 1, 1), Err(ExecError::TypeMismatch));
    assert_eq!(apply_long_shift(IntOp::Shl, 1, 63), Ok(i64::MIN));
    assert_eq!(apply_long_shift(IntOp::Shl, 1, 64), Ok(1));
    assert_eq!(apply_long_shift(IntOp::Shr, -16, 2), Ok(-4));
    assert_eq!(apply_long_shift(IntOp::Ushr, -1, 60), Ok(15));
    assert_eq!(apply_long_shift(IntOp::Add, 1, 1), Err(ExecError::TypeMismatch));
}

#[test]
fn negations() {
    assert_eq!(negate_int(5), -5);
    assert_eq!(negate_int(i32::MIN), i32::MIN);
    assert_eq!(negate_long(-5), 5);
    assert_eq!(negate_long(i64::MIN), i64::MIN);
    assert_eq!(negate_float(0), 0x8000_0000);
    assert_eq!(f32::from_bits(negate_float(2.5f32.to_bits())), -2.5);
    assert_eq!(f64::from_bits(negate_double((-0.25f64).to_bits())), 0.25);
}

#[test]
fn narrowing_keeps_the_low_bits() {
    assert_eq!(long_to_int(0x1_0000_0005), 5);
    assert_eq!(long_to_int(-1), -1);
    assert_eq!(long_to_int(0x8000_0000), i32::MIN);
    assert_eq!(long_to_int(i64::MIN), 0);
    assert_eq!(int_low_eight(0x1ff), 0xff);
    assert_eq!(int_low_eight(-256), 0);
    assert_eq!(int_low_eight(-1), 255);
    assert_eq!(to_low_byte(127), 127);
    assert_eq!(to_low_byte(128), -128);
    assert_eq!(to_low_byte(-129), 127);
    assert_eq!(to_low_byte(i32::MIN), 0);
    assert_eq!(to_low_char(65536 + 7), 7);
    assert_eq!(to_low_char(-2), 65534);
    assert_eq!(to_low_short(32768), -32768);
    assert_eq!(to_low_short(-32769), 32767);
    assert_eq!(long_compare(i64::MIN, i64::MAX), -1);
    assert_eq!(long_compare(1, 1), 0);
    assert_eq!(long_compare(2, 1), 1);
}

#[test]
fn refeq_compares_identity() {
    assert!(refeq(None, None));
    assert!(!refeq(None, Some(HeapType::Class(0))));
    assert!(!refeq(Some(HeapType::ArrayI(0)), None));
    assert!(refeq(Some(HeapType::Class(3)), Some(HeapType::Class(3))));
    assert!(!refeq(Some(HeapType::Class(3)), Some(HeapType::Class(4))));
    assert!(!refeq(Some(HeapType::ArrayI(0)), Some(HeapType::ArrayL(0))));
    assert!(!refeq(Some(HeapType::Class(0)), Some(HeapType::ArrayA(0))));
    assert!(!refeq(Some(HeapType::Interface), Some(HeapType::Interface)));
    for make in [
        HeapType::ArrayI as fn(usize) -> HeapType,
        HeapType::ArrayL,
        HeapType::ArrayF,
        HeapType::ArrayD,
        HeapType::ArrayB,
        HeapType::ArrayC,
        HeapType::ArrayS,
        HeapType::ArrayA,
    ] {
        assert!(refeq(Some(make(1)), Some(make(1))));
        assert!(!refeq(Some(make(1)), Some(make(2))));
    }
}

#[test]
fn kinds_of_values() {
    assert_eq!(Type::Int(1).kind(), Kind::Int);
    assert_eq!(Type::Long(1).kind(), Kind::Long);
    assert_eq!(Type::Float(1).kind(), Kind::Float);
    assert_eq!(Type::Double(1).kind(), Kind::Double);
    assert_eq!(Type::ReturnAddress(1).kind(), Kind::ReturnAddress);
    assert_eq!(Type::Reference(None).kind(), Kind::Reference);
    assert!(Type::Int(1).is_kind(Kind::Int));
    assert!(!Type::Int(1).is_kind(Kind::Long));
}
