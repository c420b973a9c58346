use arrow_kernels::array::PrimitiveArray;
use arrow_kernels::bitmap::{Bitmap, MutableBitmap};
use arrow_kernels::buffer::Buffer;
use arrow_kernels::compute::arity::{binary, unary};
use arrow_kernels::compute::utils::combine_validities;
use arrow_kernels::datatypes::{DataType, IntervalUnit, TimeUnit};
use arrow_kernels::error::{ArrowError, InvalidArgument};
use arrow_kernels::types::NativeType;

fn bits(bitmap: &Bitmap) -> Vec<bool> {
    (0..bitmap.len()).map(|i| bitmap.get_bit(i)).collect()
}

#[test]
fn bitmap_packs_its_bits() {
    let pattern: Vec<bool> = (0..21).map(|i| i % 3 != 0).collect();
    let bitmap = Bitmap::from_bools(&pattern);
    assert_eq!(bitmap.len(), 21);
    assert_eq!(bits(&bitmap), pattern);
    assert_eq!(bitmap.null_count(), 7);
    let shared = bitmap.clone();
    assert_eq!(bits(&shared), pattern);
}

#[test]
fn mutable_bitmap_counts_nulls() {
    let mut bitmap = MutableBitmap::with_capacity(2);
    assert_eq!(bitmap.len(), 0);
    for i in 0..17 {
        bitmap.push(i % 2 == 0);
    }
    assert_eq!(bitmap.len(), 17);
    assert_eq!(bitmap.null_count(), 8);
    let frozen = bitmap.into_bitmap();
    assert_eq!(frozen.null_count(), 8);
    assert!(frozen.get_bit(16));
    assert!(!frozen.get_bit(15));
    assert_eq!(MutableBitmap::new().into_bitmap().len(), 0);
}

#[test]
fn bitmap_and() {
    let a = Bitmap::from_bools(&vec![true, true, false, false, true, true, true, true, true, false]);
    let b = Bitmap::from_bools(&vec![true, false, true, false, true, true, true, true, false, false]);
    let both = a.and(&b);
    assert_eq!(
        bits(&both),
        vec![true, false, false, false, true, true, true, true, false, false]
    );
    assert_eq!(both.null_count(), 5);
}

#[test]
fn combine_validities_follows_the_four_cases() {
    let x = Some(Bitmap::from_bools(&vec![true, false, true]));
    let y = Some(Bitmap::from_bools(&vec![false, false, true]));
    assert!(combine_validities(&None, &None).is_none());
    assert_eq!(bits(&combine_validities(&x, &None).unwrap()), vec![true, false, true]);
    assert_eq!(bits(&combine_validities(&None, &y).unwrap()), vec![false, false, true]);
    assert_eq!(bits(&combine_validities(&x, &y).unwrap()), vec![false, false, true]);
}

#[test]
fn buffer_holds_its_elements() {
    let buffer = Buffer::from_vec(vec![3u16, 1, 2]);
    assert_eq!(buffer.len(), 3);
    assert_eq!(buffer.get(1), 1);
    let shared = buffer.clone();
    assert_eq!(shared.as_slice(), &[3, 1, 2]);
}

#[test]
fn array_constructors_validate() {
    let values = Buffer::from_vec(vec![1i32, 2, 3]);
    let short = Some(Bitmap::from_bools(&vec![true, false]));
    assert_eq!(
        PrimitiveArray::try_new(DataType::Int32, values.clone(), short).err(),
        Some(ArrowError::InvalidArgumentError(InvalidArgument::ValidityLength))
    );
    assert_eq!(
        PrimitiveArray::try_new(DataType::Int64, values.clone(), None).err(),
        Some(ArrowError::InvalidArgumentError(InvalidArgument::ElementType(DataType::Int64)))
    );
    assert_eq!(
        PrimitiveArray::<i32>::from_slice(&[1], DataType::Float32).err(),
        Some(ArrowError::InvalidArgumentError(InvalidArgument::ElementType(DataType::Float32)))
    );
    assert_eq!(
        PrimitiveArray::<u8>::from_options(&[None], DataType::Int8).err(),
        Some(ArrowError::InvalidArgumentError(InvalidArgument::ElementType(DataType::Int8)))
    );
    let validity = Some(Bitmap::from_bools(&vec![true, false, true]));
    let array = PrimitiveArray::try_new(DataType::Date32, values, validity).unwrap();
    assert_eq!(array.len(), 3);
    assert_eq!(array.null_count(), 1);
    assert_eq!(array.to_options(), vec![Some(1), None, Some(3)]);
    assert_eq!(array.get(1), None);
    assert_eq!(array.value(1), 2);
    assert!(array.is_valid(0) && array.is_null(1));
    assert_eq!(array.clone().to_options(), array.to_options());
}

#[test]
fn arrays_of_options_have_a_validity_only_with_nulls() {
    let dense = PrimitiveArray::from_options(&[Some(1i64), Some(2)], DataType::Int64).unwrap();
    assert!(dense.validity().is_none());
    assert_eq!(dense.null_count(), 0);
    let sparse = PrimitiveArray::from_options(&[Some(1i64), None], DataType::Int64).unwrap();
    assert_eq!(sparse.null_count(), 1);
    assert_eq!(sparse.value(1), 0);
}

#[test]
fn equality_ignores_what_null_slots_store() {
    let validity = Some(Bitmap::from_bools(&vec![true, false]));
    let a = PrimitiveArray::try_new(DataType::Int32, Buffer::from_vec(vec![1, 7]), validity.clone())
        .unwrap();
    let b = PrimitiveArray::try_new(DataType::Int32, Buffer::from_vec(vec![1, 9]), validity).unwrap();
    assert!(a.equals(&b));
    let c = PrimitiveArray::from_slice(&[1, 7], DataType::Int32).unwrap();
    assert!(!a.equals(&c));
    let d = PrimitiveArray::from_slice(&[1, 7], DataType::Date32).unwrap();
    assert!(!c.equals(&d));
    let e = PrimitiveArray::from_slice(&[1], DataType::Int32).unwrap();
    assert!(!c.equals(&e));
    assert!(c.equals(&c.clone()));
}

#[test]
fn unary_keeps_the_validity() {
    let a = PrimitiveArray::from_options(&[Some(1i32), None, Some(3)], DataType::Int32).unwrap();
    let doubled = unary(&a, |x| x * 2, &DataType::Date32);
    assert_eq!(doubled.to_options(), vec![Some(2), None, Some(6)]);
    assert_eq!(*doubled.data_type(), DataType::Date32);
}

#[test]
fn binary_rejects_different_lengths() {
    let a = PrimitiveArray::from_slice(&[1i32, 2], DataType::Int32).unwrap();
    let b = PrimitiveArray::from_slice(&[1i32], DataType::Int32).unwrap();
    assert_eq!(
        binary(&a, &b, |x, y| x.max(y)).err(),
        Some(ArrowError::InvalidArgumentError(InvalidArgument::LengthMismatch))
    );
    let c = PrimitiveArray::from_options(&[None, Some(5)], DataType::Int32).unwrap();
    assert_eq!(binary(&a, &c, |x, y| x.max(y)).unwrap().to_options(), vec![None, Some(5)]);
}

#[test]
fn element_types_back_their_logical_types() {
    assert!(i32::is_valid(&DataType::Int32));
    assert!(i32::is_valid(&DataType::Time32(TimeUnit::Millisecond)));
    assert!(i32::is_valid(&DataType::Interval(IntervalUnit::YearMonth)));
    assert!(!i32::is_valid(&DataType::Interval(IntervalUnit::DayTime)));
    assert!(i64::is_valid(&DataType::Timestamp(TimeUnit::Nanosecond)));
    assert!(i64::is_valid(&DataType::Duration(TimeUnit::Second)));
    assert!(i128::is_valid(&DataType::Decimal(3, 1)));
    assert!(!u8::is_valid(&DataType::Boolean));
    assert!(!u64::is_valid(&DataType::Int64));
    assert!(DataType::Duration(TimeUnit::Second).is_numeric());
    assert!(!DataType::Date64.is_numeric());
    assert!(0u16.is_zero() && !7u16.is_zero());
    assert_eq!(i8::default_value(), 0);
    assert!(3i64.is_equal(&3) && !3i64.is_equal(&4));
}
