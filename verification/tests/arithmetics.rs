use arrow_kernels::array::{Array, PrimitiveArray};
use arrow_kernels::compute::arithmetics::{
    add, add_scalar, arithmetic, arithmetic_primitive_scalar, divide, divide_scalar, multiply,
    multiply_scalar, negate, powf_scalar, subtract, subtract_scalar, Operator,
};
use arrow_kernels::datatypes::{DataType, TimeUnit};
use arrow_kernels::error::{ArrowError, InvalidArgument, Unsupported};

fn int32(values: &[Option<i32>]) -> PrimitiveArray<i32> {
    PrimitiveArray::from_options(values, DataType::Int32).unwrap()
}

#[test]
fn test_add() {
    let a = int32(&[None, Some(6), None, Some(6)]);
    let b = int32(&[Some(5), None, None, Some(6)]);
    let result = add(&a, &b).unwrap();
    let expected = int32(&[None, None, None, Some(12)]);
    assert!(result.equals(&expected));
    assert_eq!(result.to_options(), vec![None, None, None, Some(12)]);
}

#[test]
fn test_add_mismatched_length() {
    let a = PrimitiveArray::from_slice(&[5, 6], DataType::Int32).unwrap();
    let b = PrimitiveArray::from_slice(&[5], DataType::Int32).unwrap();
    let error = add(&a, &b)
        .err()
        .expect("should have failed due to different lengths");
    assert_eq!(
        error,
        ArrowError::InvalidArgumentError(InvalidArgument::LengthMismatch)
    );
}

#[test]
fn test_subtract() {
    let a = int32(&[None, Some(6), None, Some(6)]);
    let b = int32(&[Some(5), None, None, Some(6)]);
    let result = subtract(&a, &b).unwrap();
    let expected = int32(&[None, None, None, Some(0)]);
    assert!(result.equals(&expected));
}

#[test]
fn test_multiply() {
    let a = int32(&[None, Some(6), None, Some(6)]);
    let b = int32(&[Some(5), None, None, Some(6)]);
    let result = multiply(&a, &b).unwrap();
    let expected = int32(&[None, None, None, Some(36)]);
    assert!(result.equals(&expected));
}

#[test]
fn test_divide() {
    let a = int32(&[None, Some(6), None, Some(6)]);
    let b = int32(&[Some(5), None, None, Some(6)]);
    let result = divide(&a, &b).unwrap();
    let expected = int32(&[None, None, None, Some(1)]);
    assert!(result.equals(&expected));
}

#[test]
fn test_divide_scalar() {
    let a = int32(&[None, Some(6)]);
    let b = 3i32;
    let result = divide_scalar(&a, &b).unwrap();
    let expected = int32(&[None, Some(2)]);
    assert!(result.equals(&expected));
}

#[test]
fn test_divide_by_zero() {
    let a = int32(&[Some(6)]);
    let b = int32(&[Some(0)]);
    assert_eq!(divide(&a, &b).is_err(), true);
}

#[test]
fn test_divide_by_zero_on_null() {
    let a = int32(&[None]);
    let b = int32(&[Some(0)]);
    assert_eq!(divide(&a, &b).is_err(), false);
}

#[test]
fn test_raise_power_scalar() {
    let a = PrimitiveArray::from_options(&[Some(2u32), None], DataType::UInt32).unwrap();
    let actual = powf_scalar(&a, 2);
    let expected = PrimitiveArray::from_options(&[Some(4u32), None], DataType::UInt32).unwrap();
    assert!(expected.equals(&actual));
}

#[test]
fn divide_by_zero_on_null_gives_null() {
    let a = int32(&[None]);
    let b = int32(&[Some(0)]);
    let result = divide(&a, &b).unwrap();
    assert_eq!(result.to_options(), vec![None]);
    assert_eq!(result.value(0), 0);
}

#[test]
fn divide_by_zero_names_its_error() {
    let a = int32(&[Some(1), Some(6)]);
    let b = int32(&[Some(1), Some(0)]);
    assert_eq!(
        divide(&a, &b).err(),
        Some(ArrowError::InvalidArgumentError(InvalidArgument::DivisionByZero))
    );
    let c = int32(&[Some(1)]);
    assert_eq!(
        divide(&a, &c).err(),
        Some(ArrowError::InvalidArgumentError(InvalidArgument::LengthMismatch))
    );
}

#[test]
fn divide_without_nulls() {
    let a = PrimitiveArray::from_slice(&[7, -7, 7, -7], DataType::Int32).unwrap();
    let b = PrimitiveArray::from_slice(&[2, 2, -2, -2], DataType::Int32).unwrap();
    let result = divide(&a, &b).unwrap();
    assert_eq!(result.to_options(), vec![Some(3), Some(-3), Some(-3), Some(3)]);
    assert!(result.validity().is_none());
}

#[test]
fn divide_rounds_toward_zero_on_every_signed_type() {
    let a = PrimitiveArray::from_slice(&[-7i8], DataType::Int8).unwrap();
    assert_eq!(divide_scalar(&a, &2).unwrap().to_options(), vec![Some(-3)]);
    let a = PrimitiveArray::from_slice(&[-7i16], DataType::Int16).unwrap();
    assert_eq!(divide_scalar(&a, &2).unwrap().to_options(), vec![Some(-3)]);
    let a = PrimitiveArray::from_slice(&[-7i64], DataType::Int64).unwrap();
    assert_eq!(divide_scalar(&a, &-2).unwrap().to_options(), vec![Some(3)]);
    let a = PrimitiveArray::from_slice(&[-7i128], DataType::Decimal(10, 2)).unwrap();
    assert_eq!(divide_scalar(&a, &2).unwrap().to_options(), vec![Some(-3)]);
}

#[test]
fn divide_scalar_by_zero_fails_for_any_array() {
    let zero_divisor = Some(ArrowError::InvalidArgumentError(InvalidArgument::ZeroDivisor));
    assert_eq!(divide_scalar(&int32(&[]), &0).err(), zero_divisor);
    assert_eq!(divide_scalar(&int32(&[None]), &0).err(), zero_divisor);
    assert_eq!(divide_scalar(&int32(&[Some(6), None]), &0).err(), zero_divisor);
}

#[test]
fn zero_is_told_from_other_values_on_every_type() {
    let zero_divisor = Some(ArrowError::InvalidArgumentError(InvalidArgument::ZeroDivisor));
    let a = PrimitiveArray::from_slice(&[6i8], DataType::Int8).unwrap();
    assert_eq!(divide_scalar(&a, &0).err(), zero_divisor);
    assert_eq!(divide_scalar(&a, &3).unwrap().to_options(), vec![Some(2)]);
    let a = PrimitiveArray::from_slice(&[6i16], DataType::Int16).unwrap();
    assert_eq!(divide_scalar(&a, &0).err(), zero_divisor);
    assert_eq!(divide_scalar(&a, &3).unwrap().to_options(), vec![Some(2)]);
    let a = PrimitiveArray::from_slice(&[6i32], DataType::Int32).unwrap();
    assert_eq!(divide_scalar(&a, &0).err(), zero_divisor);
    assert_eq!(divide_scalar(&a, &3).unwrap().to_options(), vec![Some(2)]);
    let a = PrimitiveArray::from_slice(&[6i64], DataType::Int64).unwrap();
    assert_eq!(divide_scalar(&a, &0).err(), zero_divisor);
    assert_eq!(divide_scalar(&a, &3).unwrap().to_options(), vec![Some(2)]);
    let a = PrimitiveArray::from_slice(&[6i128], DataType::Decimal(5, 0)).unwrap();
    assert_eq!(divide_scalar(&a, &0).err(), zero_divisor);
    assert_eq!(divide_scalar(&a, &3).unwrap().to_options(), vec![Some(2)]);
    let a = PrimitiveArray::from_slice(&[6u8], DataType::UInt8).unwrap();
    assert_eq!(divide_scalar(&a, &0).err(), zero_divisor);
    assert_eq!(divide_scalar(&a, &3).unwrap().to_options(), vec![Some(2)]);
    let a = PrimitiveArray::from_slice(&[6u16], DataType::UInt16).unwrap();
    assert_eq!(divide_scalar(&a, &0).err(), zero_divisor);
    assert_eq!(divide_scalar(&a, &3).unwrap().to_options(), vec![Some(2)]);
    let a = PrimitiveArray::from_slice(&[6u32], DataType::UInt32).unwrap();
    assert_eq!(divide_scalar(&a, &0).err(), zero_divisor);
    assert_eq!(divide_scalar(&a, &3).unwrap().to_options(), vec![Some(2)]);
    let a = PrimitiveArray::from_slice(&[6u64], DataType::UInt64).unwrap();
    assert_eq!(divide_scalar(&a, &0).err(), zero_divisor);
    assert_eq!(divide_scalar(&a, &3).unwrap().to_options(), vec![Some(2)]);
}

#[test]
fn powers_on_every_unsigned_type() {
    let a = PrimitiveArray::from_options(&[Some(2u8), None, Some(3)], DataType::UInt8).unwrap();
    assert_eq!(powf_scalar(&a, 3).to_options(), vec![Some(8), None, Some(27)]);
    let a = PrimitiveArray::from_options(&[Some(2u16), None, Some(3)], DataType::UInt16).unwrap();
    assert_eq!(powf_scalar(&a, 3).to_options(), vec![Some(8), None, Some(27)]);
    let a = PrimitiveArray::from_options(&[Some(2u32), None, Some(3)], DataType::UInt32).unwrap();
    assert_eq!(powf_scalar(&a, 3).to_options(), vec![Some(8), None, Some(27)]);
    assert_eq!(powf_scalar(&a, 0).to_options(), vec![Some(1), None, Some(1)]);
}

#[test]
fn scalar_operators() {
    let a = int32(&[None, Some(6), Some(-2)]);
    assert_eq!(add_scalar(&a, &3).to_options(), vec![None, Some(9), Some(1)]);
    assert_eq!(subtract_scalar(&a, &3).to_options(), vec![None, Some(3), Some(-5)]);
    assert_eq!(multiply_scalar(&a, &3).to_options(), vec![None, Some(18), Some(-6)]);
    for (op, expected) in [
        (Operator::Add, vec![None, Some(8), Some(0)]),
        (Operator::Subtract, vec![None, Some(4), Some(-4)]),
        (Operator::Multiply, vec![None, Some(12), Some(-4)]),
        (Operator::Divide, vec![None, Some(3), Some(-1)]),
    ] {
        let result = arithmetic_primitive_scalar(&a, op, &2).unwrap();
        assert_eq!(result.to_options(), expected);
        assert_eq!(*result.data_type(), DataType::Int32);
    }
    assert!(arithmetic_primitive_scalar(&a, Operator::Divide, &0).is_err());
}

#[test]
fn negate_twice_gives_the_array_back() {
    let a = int32(&[Some(5), None, Some(-7), Some(0), Some(i32::MAX)]);
    let once = negate(&a);
    assert_eq!(
        once.to_options(),
        vec![Some(-5), None, Some(7), Some(0), Some(-i32::MAX)]
    );
    let twice = negate(&once);
    assert!(twice.equals(&a));
    assert_eq!(twice.values().as_slice(), a.values().as_slice());
}

#[test]
fn nulls_of_both_operands_are_combined() {
    let with_nulls = int32(&[Some(1), None, Some(3)]);
    let without = PrimitiveArray::from_slice(&[10, 20, 30], DataType::Int32).unwrap();
    let left = add(&with_nulls, &without).unwrap();
    assert_eq!(left.to_options(), vec![Some(11), None, Some(33)]);
    let right = add(&without, &with_nulls).unwrap();
    assert_eq!(right.to_options(), vec![Some(11), None, Some(33)]);
    let neither = add(&without, &without).unwrap();
    assert!(neither.validity().is_none());
    assert_eq!(neither.to_options(), vec![Some(20), Some(40), Some(60)]);
}

#[test]
fn binary_operators_work_on_null_slots_too() {
    let a = int32(&[Some(1), None]);
    let b = PrimitiveArray::from_slice(&[10, 20], DataType::Int32).unwrap();
    let sum = add(&a, &b).unwrap();
    assert_eq!(sum.value(1), 20);
    assert!(sum.is_null(1));
}

#[test]
fn arithmetic_dispatches_on_the_element_type() {
    let a = Array::Int32(int32(&[None, Some(6), None, Some(6)]));
    let b = Array::Int32(int32(&[Some(5), None, None, Some(6)]));
    for (op, last) in [
        (Operator::Add, 12),
        (Operator::Subtract, 0),
        (Operator::Multiply, 36),
        (Operator::Divide, 1),
    ] {
        match arithmetic(&a, op, &b).unwrap() {
            Array::Int32(result) => {
                assert_eq!(result.to_options(), vec![None, None, None, Some(last)]);
                assert_eq!(*result.data_type(), DataType::Int32);
            }
            other => panic!("wrong element type: {:?}", other),
        }
    }
    let a = Array::UInt8(PrimitiveArray::from_slice(&[200u8], DataType::UInt8).unwrap());
    let b = Array::UInt8(PrimitiveArray::from_slice(&[50u8], DataType::UInt8).unwrap());
    match arithmetic(&a, Operator::Add, &b).unwrap() {
        Array::UInt8(result) => assert_eq!(result.to_options(), vec![Some(250)]),
        other => panic!("wrong element type: {:?}", other),
    }
}

#[test]
fn arithmetic_keeps_the_logical_type() {
    let unit = DataType::Duration(TimeUnit::Second);
    let a = Array::Int64(PrimitiveArray::from_slice(&[7i64], unit).unwrap());
    let b = Array::Int64(PrimitiveArray::from_slice(&[8i64], unit).unwrap());
    let result = arithmetic(&a, Operator::Add, &b).unwrap();
    assert_eq!(*result.data_type(), unit);
    assert_eq!(result.len(), 1);
    let a = Array::Int128(PrimitiveArray::from_slice(&[7i128], DataType::Decimal(9, 2)).unwrap());
    let b = Array::Int128(PrimitiveArray::from_slice(&[8i128], DataType::Decimal(9, 2)).unwrap());
    match arithmetic(&a, Operator::Multiply, &b).unwrap() {
        Array::Int128(result) => assert_eq!(result.to_options(), vec![Some(56)]),
        other => panic!("wrong element type: {:?}", other),
    }
}

#[test]
fn arithmetic_rejects_mismatched_and_unsupported_types() {
    let a = Array::Int32(int32(&[Some(1)]));
    let b = Array::Int64(PrimitiveArray::from_slice(&[1i64], DataType::Int64).unwrap());
    assert_eq!(
        arithmetic(&a, Operator::Add, &b).err(),
        Some(ArrowError::NotYetImplemented(Unsupported::MismatchedTypes))
    );
    let c = Array::Int32(PrimitiveArray::from_slice(&[1], DataType::Date32).unwrap());
    assert_eq!(
        arithmetic(&a, Operator::Add, &c).err(),
        Some(ArrowError::NotYetImplemented(Unsupported::MismatchedTypes))
    );
    let d = Array::Int32(PrimitiveArray::from_slice(&[2], DataType::Date32).unwrap());
    assert_eq!(
        arithmetic(&c, Operator::Add, &d).err(),
        Some(ArrowError::NotYetImplemented(Unsupported::Arithmetics(DataType::Date32)))
    );
    let short = Array::Int32(int32(&[]));
    assert_eq!(
        arithmetic(&a, Operator::Subtract, &short).err(),
        Some(ArrowError::InvalidArgumentError(InvalidArgument::LengthMismatch))
    );
}
