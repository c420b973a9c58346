use arrow_kernels::array::PrimitiveArray;
use arrow_kernels::compute::take::{maybe_usize, take};
use arrow_kernels::datatypes::DataType;
use arrow_kernels::error::ArrowError;

fn values(values: &[Option<i32>]) -> PrimitiveArray<i32> {
    PrimitiveArray::from_options(values, DataType::Int32).unwrap()
}

fn indices(values: &[Option<i32>]) -> PrimitiveArray<i32> {
    PrimitiveArray::from_options(values, DataType::Int32).unwrap()
}

#[test]
fn take_without_nulls() {
    let v = values(&[Some(10), Some(20), Some(30)]);
    let i = indices(&[Some(2), Some(0), Some(0), Some(1)]);
    let result = take(&v, &i).unwrap();
    assert_eq!(result.to_options(), vec![Some(30), Some(10), Some(10), Some(20)]);
    assert!(result.validity().is_none());
    assert_eq!(*result.data_type(), DataType::Int32);
}

#[test]
fn take_with_null_values() {
    let v = values(&[Some(10), None, Some(30)]);
    let i = indices(&[Some(2), Some(1), Some(0)]);
    let result = take(&v, &i).unwrap();
    assert_eq!(result.to_options(), vec![Some(30), None, Some(10)]);
    let all_valid = take(&v, &indices(&[Some(0), Some(2)])).unwrap();
    assert_eq!(all_valid.to_options(), vec![Some(10), Some(30)]);
    assert!(all_valid.validity().is_some());
}

#[test]
fn take_with_null_indices() {
    let v = values(&[Some(10), Some(20), Some(30)]);
    let i = indices(&[Some(2), None, Some(0)]);
    let result = take(&v, &i).unwrap();
    assert_eq!(result.to_options(), vec![Some(30), None, Some(10)]);
    assert_eq!(result.value(1), 0);
    assert_eq!(result.null_count(), 1);
}

#[test]
fn take_with_nulls_in_both() {
    let v = values(&[Some(10), None, Some(30)]);
    let i = indices(&[Some(1), None, Some(0), Some(2)]);
    let result = take(&v, &i).unwrap();
    assert_eq!(result.to_options(), vec![None, None, Some(10), Some(30)]);
    assert_eq!(result.len(), 4);
}

#[test]
fn take_does_not_read_a_null_index() {
    let v = values(&[Some(10), Some(20)]);
    let stored = arrow_kernels::buffer::Buffer::from_vec(vec![1, 999, -5]);
    let validity = arrow_kernels::bitmap::Bitmap::from_bools(&vec![true, false, false]);
    let i = PrimitiveArray::try_new(DataType::Int32, stored, Some(validity)).unwrap();
    let result = take(&v, &i).unwrap();
    assert_eq!(result.to_options(), vec![Some(20), None, None]);
}

#[test]
fn take_of_no_indices_is_empty() {
    let v = values(&[Some(10), None]);
    let result = take(&v, &indices(&[])).unwrap();
    assert_eq!(result.len(), 0);
}

#[test]
fn take_rejects_an_index_that_denotes_no_position() {
    let v = values(&[Some(10), Some(20)]);
    let i = indices(&[Some(0), Some(-1)]);
    assert_eq!(take(&v, &i).err(), Some(ArrowError::KeyOverflowError));
    let long = PrimitiveArray::from_slice(&[1i64, -3], DataType::Int64).unwrap();
    assert_eq!(take(&v, &long).err(), Some(ArrowError::KeyOverflowError));
    let v = values(&[Some(10), None]);
    let i = indices(&[None, Some(-1)]);
    assert_eq!(take(&v, &i).err(), Some(ArrowError::KeyOverflowError));
}

#[test]
fn take_with_long_indices() {
    let v = PrimitiveArray::from_slice(&[7u8, 8, 9], DataType::UInt8).unwrap();
    let i = PrimitiveArray::from_options(&[Some(2i64), None, Some(1)], DataType::Int64).unwrap();
    let result = take(&v, &i).unwrap();
    assert_eq!(result.to_options(), vec![Some(9), None, Some(8)]);
}

#[test]
fn maybe_usize_converts_what_fits() {
    assert_eq!(maybe_usize(5i32), Ok(5));
    assert_eq!(maybe_usize(0i64), Ok(0));
    assert_eq!(maybe_usize(-1i32), Err(ArrowError::KeyOverflowError));
    assert_eq!(maybe_usize(i64::MIN), Err(ArrowError::KeyOverflowError));
    assert_eq!(maybe_usize(i32::MAX), Ok(i32::MAX as usize));
}
