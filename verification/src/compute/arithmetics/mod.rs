//! Arithmetic on arrays: the four operators between two arrays, or between an
//! array and a scalar, negation and exponentiation.
//!
//! An operator is applied to every stored pair of elements, those of null
//! slots included. The arithmetic is that of `core::ops` on the element type,
//! so the callers keep the operands within the range in which the operator is
//! defined: `add_req`, `sub_req`, `mul_req`, `div_req` and `neg_req` say what
//! that range is. Division alone looks at the nulls first: where the quotient
//! is null, the divisor is not even read.
use crate::array::{
    lemma_same_type_same_variant, result_view, validity_view, validity_wf, Array, ArrayView,
    PrimitiveArray, PrimitiveView,
};
use crate::buffer::Buffer;
use crate::compute::arity::{binary, binary_view, lemma_binary_get, unary, unary_view};
use crate::compute::utils::{combine, combine_validities, lemma_combine};
use crate::error::{ArrowError, InvalidArgument, Unsupported};
use crate::types::{quotient, Integer, NativeType, Pow, Signed};
use core::ops::{Add, Div, Mul, Neg, Sub};
use vstd::prelude::*;
use vstd::std_specs::ops::{AddSpec, DivSpec, MulSpec, NegSpec, SubSpec};

verus! {

/// The arithmetic operators.
#[derive(Debug, Clone, Copy, PartialEq, Eq, Structural, Hash)]
pub enum Operator {
    Add,
    Subtract,
    Multiply,
    Divide,
}

/// The result of an elementwise operator on two arrays: an error where their
/// lengths differ, and else `op` of every pair of elements under the combined
/// validity.
pub open spec fn binary_result<T>(
    lhs: PrimitiveView<T>,
    rhs: PrimitiveView<T>,
    op: spec_fn(T, T) -> T,
) -> Result<PrimitiveView<T>, ArrowError> {
    if lhs.len() != rhs.len() {
        Err(ArrowError::InvalidArgumentError(InvalidArgument::LengthMismatch))
    } else {
        Ok(binary_view(lhs, rhs, op))
    }
}

/// Whether `op` is defined on every pair of elements of two arrays of one
/// length.
pub open spec fn binary_defined<T>(
    lhs: PrimitiveView<T>,
    rhs: PrimitiveView<T>,
    op_req: spec_fn(T, T) -> bool,
) -> bool {
    lhs.len() == rhs.len() ==> forall|i: int|
        0 <= i < lhs.len() ==> op_req(#[trigger] lhs.values[i], rhs.values[i])
}

/// Whether `op` is defined on every element of an array.
pub open spec fn unary_defined<T>(array: PrimitiveView<T>, op_req: spec_fn(T) -> bool) -> bool {
    forall|i: int| 0 <= i < array.len() ==> op_req(#[trigger] array.values[i])
}

/// What a slot of an elementwise result holds: null where either operand is
/// null, and else `op` of the two values.
pub open spec fn binary_slot<T>(lhs: Option<T>, rhs: Option<T>, op: spec_fn(T, T) -> T) -> Option<
    T,
> {
    match (lhs, rhs) {
        (Some(a), Some(b)) => Some(op(a, b)),
        _ => None,
    }
}

/// What a slot of a unary result holds: null where the operand is null, and
/// else `op` of the value.
pub open spec fn unary_slot<T>(slot: Option<T>, op: spec_fn(T) -> T) -> Option<T> {
    match slot {
        Some(a) => Some(op(a)),
        None => None,
    }
}

/// `lhs + rhs`, slot by slot.
pub open spec fn add_result<T: Add<Output = T>>(
    lhs: PrimitiveView<T>,
    rhs: PrimitiveView<T>,
) -> Result<PrimitiveView<T>, ArrowError> {
    binary_result(lhs, rhs, |a: T, b: T| a.add_spec(b))
}

/// Whether every pair of elements has a sum.
pub open spec fn add_defined<T: Add<Output = T>>(
    lhs: PrimitiveView<T>,
    rhs: PrimitiveView<T>,
) -> bool {
    T::obeys_add_spec() && binary_defined(lhs, rhs, |a: T, b: T| a.add_req(b))
}

/// `lhs - rhs`, slot by slot.
pub open spec fn subtract_result<T: Sub<Output = T>>(
    lhs: PrimitiveView<T>,
    rhs: PrimitiveView<T>,
) -> Result<PrimitiveView<T>, ArrowError> {
    binary_result(lhs, rhs, |a: T, b: T| a.sub_spec(b))
}

/// Whether every pair of elements has a difference.
pub open spec fn subtract_defined<T: Sub<Output = T>>(
    lhs: PrimitiveView<T>,
    rhs: PrimitiveView<T>,
) -> bool {
    T::obeys_sub_spec() && binary_defined(lhs, rhs, |a: T, b: T| a.sub_req(b))
}

/// `lhs * rhs`, slot by slot.
pub open spec fn multiply_result<T: Mul<Output = T>>(
    lhs: PrimitiveView<T>,
    rhs: PrimitiveView<T>,
) -> Result<PrimitiveView<T>, ArrowError> {
    binary_result(lhs, rhs, |a: T, b: T| a.mul_spec(b))
}

/// Whether every pair of elements has a product.
pub open spec fn multiply_defined<T: Mul<Output = T>>(
    lhs: PrimitiveView<T>,
    rhs: PrimitiveView<T>,
) -> bool {
    T::obeys_mul_spec() && binary_defined(lhs, rhs, |a: T, b: T| a.mul_req(b))
}

/// Whether slot `i` is valid in both operands and holds a zero divisor.
pub open spec fn zero_divisor_at<T: NativeType>(
    lhs: PrimitiveView<T>,
    rhs: PrimitiveView<T>,
    i: int,
) -> bool {
    lhs.is_valid(i) && rhs.is_valid(i) && rhs.values[i].spec_is_zero()
}

/// Whether some slot is valid in both operands and holds a zero divisor.
pub open spec fn divides_by_zero<T: NativeType>(
    lhs: PrimitiveView<T>,
    rhs: PrimitiveView<T>,
) -> bool {
    exists|i: int| 0 <= i < lhs.len() && #[trigger] zero_divisor_at(lhs, rhs, i)
}

/// The array of quotients: a slot that is valid in both operands stores the
/// quotient, any other slot the default of `T`.
pub open spec fn divide_view<T: NativeType + Div<Output = T>>(
    lhs: PrimitiveView<T>,
    rhs: PrimitiveView<T>,
) -> PrimitiveView<T> {
    PrimitiveView {
        data_type: lhs.data_type,
        values: Seq::new(
            lhs.len(),
            |i: int|
                if lhs.is_valid(i) && rhs.is_valid(i) {
                    lhs.values[i].div_spec(rhs.values[i])
                } else {
                    T::spec_default()
                },
        ),
        validity: combine(lhs.validity, rhs.validity),
    }
}

/// `lhs / rhs`, slot by slot: an error where the lengths differ, an error
/// where a zero divisor meets a value, and else the array of quotients.
pub open spec fn divide_result<T: NativeType + Div<Output = T>>(
    lhs: PrimitiveView<T>,
    rhs: PrimitiveView<T>,
) -> Result<PrimitiveView<T>, ArrowError> {
    if lhs.len() != rhs.len() {
        Err(ArrowError::InvalidArgumentError(InvalidArgument::LengthMismatch))
    } else if divides_by_zero(lhs, rhs) {
        Err(ArrowError::InvalidArgumentError(InvalidArgument::DivisionByZero))
    } else {
        Ok(divide_view(lhs, rhs))
    }
}

/// Whether every pair of values with a divisor other than zero has a
/// quotient. Nothing is asked of a slot that is null in either operand.
pub open spec fn divide_defined<T: NativeType + Div<Output = T>>(
    lhs: PrimitiveView<T>,
    rhs: PrimitiveView<T>,
) -> bool {
    &&& T::obeys_div_spec()
    &&& lhs.len() == rhs.len() ==> forall|i: int|
        0 <= i < lhs.len() && lhs.is_valid(i) && rhs.is_valid(i) && !(#[trigger] rhs.values[i]).spec_is_zero()
            ==> lhs.values[i].div_req(rhs.values[i])
}

/// `array / divisor`, slot by slot: an error where the divisor is zero.
pub open spec fn divide_scalar_result<T: NativeType + Div<Output = T>>(
    array: PrimitiveView<T>,
    divisor: T,
) -> Result<PrimitiveView<T>, ArrowError> {
    if divisor.spec_is_zero() {
        Err(ArrowError::InvalidArgumentError(InvalidArgument::ZeroDivisor))
    } else {
        Ok(unary_view(array, |a: T| a.div_spec(divisor), array.data_type))
    }
}

/// Whether every element has a quotient by a divisor other than zero.
pub open spec fn divide_scalar_defined<T: NativeType + Div<Output = T>>(
    array: PrimitiveView<T>,
    divisor: T,
) -> bool {
    &&& T::obeys_div_spec()
    &&& !divisor.spec_is_zero() ==> unary_defined(array, |a: T| a.div_req(divisor))
}

/// The result of `op` on two arrays of one element type.
pub open spec fn primitive_result<T>(
    lhs: PrimitiveView<T>,
    op: Operator,
    rhs: PrimitiveView<T>,
) -> Result<PrimitiveView<T>, ArrowError> where
    T: NativeType + Div<Output = T> + Add<Output = T> + Sub<Output = T> + Mul<Output = T>,
 {
    match op {
        Operator::Add => add_result(lhs, rhs),
        Operator::Subtract => subtract_result(lhs, rhs),
        Operator::Multiply => multiply_result(lhs, rhs),
        Operator::Divide => divide_result(lhs, rhs),
    }
}

/// Whether `op` is defined on two arrays of one element type.
pub open spec fn primitive_defined<T>(
    lhs: PrimitiveView<T>,
    op: Operator,
    rhs: PrimitiveView<T>,
) -> bool where T: NativeType + Div<Output = T> + Add<Output = T> + Sub<Output = T> + Mul<Output = T> {
    match op {
        Operator::Add => add_defined(lhs, rhs),
        Operator::Subtract => subtract_defined(lhs, rhs),
        Operator::Multiply => multiply_defined(lhs, rhs),
        Operator::Divide => divide_defined(lhs, rhs),
    }
}

/// The result of `op` on an array and a scalar.
pub open spec fn primitive_scalar_result<T>(
    lhs: PrimitiveView<T>,
    op: Operator,
    rhs: T,
) -> Result<PrimitiveView<T>, ArrowError> where
    T: NativeType + Div<Output = T> + Add<Output = T> + Sub<Output = T> + Mul<Output = T>,
 {
    match op {
        Operator::Add => Ok(unary_view(lhs, |a: T| a.add_spec(rhs), lhs.data_type)),
        Operator::Subtract => Ok(unary_view(lhs, |a: T| a.sub_spec(rhs), lhs.data_type)),
        Operator::Multiply => Ok(unary_view(lhs, |a: T| a.mul_spec(rhs), lhs.data_type)),
        Operator::Divide => divide_scalar_result(lhs, rhs),
    }
}

/// Whether `op` is defined on an array and a scalar.
pub open spec fn primitive_scalar_defined<T>(lhs: PrimitiveView<T>, op: Operator, rhs: T) -> bool where
    T: NativeType + Div<Output = T> + Add<Output = T> + Sub<Output = T> + Mul<Output = T>,
 {
    match op {
        Operator::Add => T::obeys_add_spec() && unary_defined(lhs, |a: T| a.add_req(rhs)),
        Operator::Subtract => T::obeys_sub_spec() && unary_defined(lhs, |a: T| a.sub_req(rhs)),
        Operator::Multiply => T::obeys_mul_spec() && unary_defined(lhs, |a: T| a.mul_req(rhs)),
        Operator::Divide => divide_scalar_defined(lhs, rhs),
    }
}

/// What `arithmetic` returned, with the array replaced by what it holds.
pub open spec fn array_result_view(r: Result<Array, ArrowError>) -> Result<ArrayView, ArrowError> {
    match r {
        Ok(array) => Ok(array@),
        Err(e) => Err(e),
    }
}

/// A result on one element type, as a result on arrays of any element type.
pub open spec fn as_array_result<T>(
    r: Result<PrimitiveView<T>, ArrowError>,
    variant: spec_fn(PrimitiveView<T>) -> ArrayView,
) -> Result<ArrayView, ArrowError> {
    match r {
        Ok(array) => Ok(variant(array)),
        Err(e) => Err(e),
    }
}

/// The result of `op` on two arrays of any element type: an error where their
/// logical types differ, an error where the operators are not defined on their
/// logical type, and else the result of `op` on their element type.
pub open spec fn arithmetic_result(lhs: ArrayView, op: Operator, rhs: ArrayView) -> Result<
    ArrayView,
    ArrowError,
> {
    if lhs.data_type() != rhs.data_type() {
        Err(ArrowError::NotYetImplemented(Unsupported::MismatchedTypes))
    } else if !lhs.data_type().spec_is_numeric() {
        Err(ArrowError::NotYetImplemented(Unsupported::Arithmetics(lhs.data_type())))
    } else {
        match (lhs, rhs) {
            (ArrayView::Int8(l), ArrayView::Int8(r)) => as_array_result(
                primitive_result(l, op, r),
                |a: PrimitiveView<i8>| ArrayView::Int8(a),
            ),
            (ArrayView::Int16(l), ArrayView::Int16(r)) => as_array_result(
                primitive_result(l, op, r),
                |a: PrimitiveView<i16>| ArrayView::Int16(a),
            ),
            (ArrayView::Int32(l), ArrayView::Int32(r)) => as_array_result(
                primitive_result(l, op, r),
                |a: PrimitiveView<i32>| ArrayView::Int32(a),
            ),
            (ArrayView::Int64(l), ArrayView::Int64(r)) => as_array_result(
                primitive_result(l, op, r),
                |a: PrimitiveView<i64>| ArrayView::Int64(a),
            ),
            (ArrayView::Int128(l), ArrayView::Int128(r)) => as_array_result(
                primitive_result(l, op, r),
                |a: PrimitiveView<i128>| ArrayView::Int128(a),
            ),
            (ArrayView::UInt8(l), ArrayView::UInt8(r)) => as_array_result(
                primitive_result(l, op, r),
                |a: PrimitiveView<u8>| ArrayView::UInt8(a),
            ),
            (ArrayView::UInt16(l), ArrayView::UInt16(r)) => as_array_result(
                primitive_result(l, op, r),
                |a: PrimitiveView<u16>| ArrayView::UInt16(a),
            ),
            (ArrayView::UInt32(l), ArrayView::UInt32(r)) => as_array_result(
                primitive_result(l, op, r),
                |a: PrimitiveView<u32>| ArrayView::UInt32(a),
            ),
            (ArrayView::UInt64(l), ArrayView::UInt64(r)) => as_array_result(
                primitive_result(l, op, r),
                |a: PrimitiveView<u64>| ArrayView::UInt64(a),
            ),
            _ => Err(ArrowError::NotYetImplemented(Unsupported::MismatchedTypes)),
        }
    }
}

/// Whether `op` is defined on two arrays of any element type, where it is
/// applied at all.
pub open spec fn arithmetic_defined(lhs: ArrayView, op: Operator, rhs: ArrayView) -> bool {
    lhs.data_type() == rhs.data_type() && lhs.data_type().spec_is_numeric() ==> match (lhs, rhs) {
        (ArrayView::Int8(l), ArrayView::Int8(r)) => primitive_defined(l, op, r),
        (ArrayView::Int16(l), ArrayView::Int16(r)) => primitive_defined(l, op, r),
        (ArrayView::Int32(l), ArrayView::Int32(r)) => primitive_defined(l, op, r),
        (ArrayView::Int64(l), ArrayView::Int64(r)) => primitive_defined(l, op, r),
        (ArrayView::Int128(l), ArrayView::Int128(r)) => primitive_defined(l, op, r),
        (ArrayView::UInt8(l), ArrayView::UInt8(r)) => primitive_defined(l, op, r),
        (ArrayView::UInt16(l), ArrayView::UInt16(r)) => primitive_defined(l, op, r),
        (ArrayView::UInt32(l), ArrayView::UInt32(r)) => primitive_defined(l, op, r),
        (ArrayView::UInt64(l), ArrayView::UInt64(r)) => primitive_defined(l, op, r),
        _ => true,
    }
}

/// Applies `op` to two arrays whose element type is known only when the
/// program runs.
///
/// The operands must have one logical type, and the operators must be defined
/// on it. The result has the logical type of the operands. Two well-formed
/// arrays of one logical type have one element type, so the last arm of the
/// dispatch is never taken on them.
pub fn arithmetic(lhs: &Array, op: Operator, rhs: &Array) -> (r: Result<Array, ArrowError>)
    requires
        lhs.wf(),
        rhs.wf(),
        arithmetic_defined(lhs@, op, rhs@),
    ensures
        array_result_view(r) == arithmetic_result(lhs@, op, rhs@),
        r matches Ok(out) ==> out.wf() && out@.data_type() == lhs@.data_type(),
        r == Err::<Array, ArrowError>(ArrowError::NotYetImplemented(Unsupported::MismatchedTypes))
            <==> lhs@.data_type() != rhs@.data_type(),
        lhs@.data_type() == rhs@.data_type() && !lhs@.data_type().spec_is_numeric() ==> r == Err::<
            Array,
            ArrowError,
        >(ArrowError::NotYetImplemented(Unsupported::Arithmetics(lhs@.data_type()))),
{
    let data_type = lhs.data_type();
    proof {
        if lhs@.data_type() == rhs@.data_type() {
            lemma_same_type_same_variant(lhs, rhs);
        }
    }
    if *data_type != *rhs.data_type() {
        return Err(ArrowError::NotYetImplemented(Unsupported::MismatchedTypes));
    }
    if !data_type.is_numeric() {
        return Err(ArrowError::NotYetImplemented(Unsupported::Arithmetics(*data_type)));
    }
    match (lhs, rhs) {
        (Array::Int8(lhs), Array::Int8(rhs)) => match arithmetic_primitive(lhs, op, rhs) {
            Ok(out) => Ok(Array::Int8(out)),
            Err(e) => Err(e),
        },
        (Array::Int16(lhs), Array::Int16(rhs)) => match arithmetic_primitive(lhs, op, rhs) {
            Ok(out) => Ok(Array::Int16(out)),
            Err(e) => Err(e),
        },
        (Array::Int32(lhs), Array::Int32(rhs)) => match arithmetic_primitive(lhs, op, rhs) {
            Ok(out) => Ok(Array::Int32(out)),
            Err(e) => Err(e),
        },
        (Array::Int64(lhs), Array::Int64(rhs)) => match arithmetic_primitive(lhs, op, rhs) {
            Ok(out) => Ok(Array::Int64(out)),
            Err(e) => Err(e),
        },
        (Array::Int128(lhs), Array::Int128(rhs)) => match arithmetic_primitive(lhs, op, rhs) {
            Ok(out) => Ok(Array::Int128(out)),
            Err(e) => Err(e),
        },
        (Array::UInt8(lhs), Array::UInt8(rhs)) => match arithmetic_primitive(lhs, op, rhs) {
            Ok(out) => Ok(Array::UInt8(out)),
            Err(e) => Err(e),
        },
        (Array::UInt16(lhs), Array::UInt16(rhs)) => match arithmetic_primitive(lhs, op, rhs) {
            Ok(out) => Ok(Array::UInt16(out)),
            Err(e) => Err(e),
        },
        (Array::UInt32(lhs), Array::UInt32(rhs)) => match arithmetic_primitive(lhs, op, rhs) {
            Ok(out) => Ok(Array::UInt32(out)),
            Err(e) => Err(e),
        },
        (Array::UInt64(lhs), Array::UInt64(rhs)) => match arithmetic_primitive(lhs, op, rhs) {
            Ok(out) => Ok(Array::UInt64(out)),
            Err(e) => Err(e),
        },
        _ => Err(ArrowError::NotYetImplemented(Unsupported::MismatchedTypes)),
    }
}

fn arithmetic_primitive<T>(lhs: &PrimitiveArray<T>, op: Operator, rhs: &PrimitiveArray<T>) -> (r:
    Result<PrimitiveArray<T>, ArrowError>) where
    T: NativeType + Div<Output = T> + Add<Output = T> + Sub<Output = T> + Mul<Output = T>,

    requires
        lhs.wf(),
        rhs.wf(),
        primitive_defined(lhs@, op, rhs@),
    ensures
        result_view(r) == primitive_result(lhs@, op, rhs@),
        r matches Ok(out) ==> out.wf(),
{
    match op {
        Operator::Add => self::add(lhs, rhs),
        Operator::Subtract => subtract(lhs, rhs),
        Operator::Multiply => multiply(lhs, rhs),
        Operator::Divide => divide(lhs, rhs),
    }
}

/// Applies `op` to an array and a scalar.
pub fn arithmetic_primitive_scalar<T>(lhs: &PrimitiveArray<T>, op: Operator, rhs: &T) -> (r: Result<
    PrimitiveArray<T>,
    ArrowError,
>) where T: NativeType + Div<Output = T> + Add<Output = T> + Sub<Output = T> + Mul<Output = T>
    requires
        lhs.wf(),
        primitive_scalar_defined(lhs@, op, *rhs),
    ensures
        result_view(r) == primitive_scalar_result(lhs@, op, *rhs),
        r matches Ok(out) ==> out.wf(),
{
    match op {
        Operator::Add => Ok(add_scalar(lhs, rhs)),
        Operator::Subtract => Ok(subtract_scalar(lhs, rhs)),
        Operator::Multiply => Ok(multiply_scalar(lhs, rhs)),
        Operator::Divide => divide_scalar(lhs, rhs),
    }
}

/// Divides two arrays slot by slot.
///
/// A divisor is looked at only where both operands hold a value. There a zero
/// divisor fails the whole call; a zero divisor behind a null does not.
pub fn divide<T>(lhs: &PrimitiveArray<T>, rhs: &PrimitiveArray<T>) -> (r: Result<
    PrimitiveArray<T>,
    ArrowError,
>) where T: NativeType + Div<Output = T>
    requires
        lhs.wf(),
        rhs.wf(),
        divide_defined(lhs@, rhs@),
    ensures
        result_view(r) == divide_result(lhs@, rhs@),
        r is Err <==> lhs@.len() != rhs@.len() || divides_by_zero(lhs@, rhs@),
        r matches Ok(out) ==> out.wf() && forall|i: int|
            0 <= i < lhs@.len() ==> #[trigger] out@.get(i) == binary_slot(
                lhs@.get(i),
                rhs@.get(i),
                |a: T, b: T| a.div_spec(b),
            ),
{
    if lhs.len() != rhs.len() {
        return Err(ArrowError::InvalidArgumentError(InvalidArgument::LengthMismatch));
    }
    let validity = combine_validities(lhs.validity(), rhs.validity());
    let n = lhs.len();
    let ghost out_view = divide_view(lhs@, rhs@);
    proof {
        lemma_combine(lhs@, rhs@, out_view);
    }
    let mut values: Vec<T> = Vec::with_capacity(n);
    let mut i: usize = 0;
    while i < n
        invariant
            lhs.wf(),
            rhs.wf(),
            divide_defined(lhs@, rhs@),
            n == lhs@.len(),
            n == rhs@.len(),
            i <= n,
            validity_wf(validity),
            validity_view(validity) == out_view.validity,
            out_view == divide_view(lhs@, rhs@),
            out_view.validity matches Some(bits) ==> bits.len() == n,
            forall|k: int|
                0 <= k < n ==> #[trigger] out_view.is_valid(k) == (lhs@.is_valid(k) && rhs@.is_valid(
                    k,
                )),
            values@ == out_view.values.take(i as int),
            forall|k: int| 0 <= k < i ==> !zero_divisor_at(lhs@, rhs@, k),
        decreases n - i,
    {
        let is_valid = match &validity {
            Some(bits) => bits.get_bit(i),
            None => true,
        };
        assert(is_valid == out_view.is_valid(i as int));
        if is_valid {
            let divisor = rhs.value(i);
            if divisor.is_zero() {
                assert(zero_divisor_at(lhs@, rhs@, i as int));
                return Err(ArrowError::InvalidArgumentError(InvalidArgument::DivisionByZero));
            }
            values.push(lhs.value(i) / divisor);
        } else {
            values.push(T::default_value());
        }
        assert(out_view.values.take(i as int).push(out_view.values[i as int])
            == out_view.values.take(i + 1));
        i += 1;
    }
    assert(out_view.values.take(n as int) == out_view.values);
    assert(!divides_by_zero(lhs@, rhs@));
    let out = PrimitiveArray::from_data(*lhs.data_type(), Buffer::from_vec(values), validity);
    assert(out@ == out_view);
    Ok(out)
}

/// Divides every element of an array by `divisor`. A zero divisor fails the
/// call before any element is read.
pub fn divide_scalar<T>(array: &PrimitiveArray<T>, divisor: &T) -> (r: Result<
    PrimitiveArray<T>,
    ArrowError,
>) where T: NativeType + Div<Output = T>
    requires
        array.wf(),
        divide_scalar_defined(array@, *divisor),
    ensures
        result_view(r) == divide_scalar_result(array@, *divisor),
        divisor.spec_is_zero() <==> r is Err,
        r matches Ok(out) ==> out.wf() && forall|i: int|
            0 <= i < array@.len() ==> #[trigger] out@.get(i) == unary_slot(
                array@.get(i),
                |a: T| a.div_spec(*divisor),
            ),
{
    if divisor.is_zero() {
        return Err(ArrowError::InvalidArgumentError(InvalidArgument::ZeroDivisor));
    }
    let divisor = *divisor;
    let out = unary(
        array,
        |a: T| -> (q: T)
            requires a.div_req(divisor)
            ensures q == a.div_spec(divisor)
        { a / divisor },
        array.data_type(),
    );
    let ghost expected = unary_view(array@, |a: T| a.div_spec(divisor), array@.data_type);
    assert(out@.values =~= expected.values);
    assert(out@ == expected);
    Ok(out)
}

/// Adds two arrays slot by slot.
pub fn add<T>(lhs: &PrimitiveArray<T>, rhs: &PrimitiveArray<T>) -> (r: Result<
    PrimitiveArray<T>,
    ArrowError,
>) where T: NativeType + Add<Output = T>
    requires
        lhs.wf(),
        rhs.wf(),
        add_defined(lhs@, rhs@),
    ensures
        result_view(r) == add_result(lhs@, rhs@),
        r matches Ok(out) ==> out.wf() && forall|i: int|
            0 <= i < lhs@.len() ==> #[trigger] out@.get(i) == binary_slot(
                lhs@.get(i),
                rhs@.get(i),
                |a: T, b: T| a.add_spec(b),
            ),
{
    let r = binary(
        lhs,
        rhs,
        |a: T, b: T| -> (sum: T)
            requires a.add_req(b)
            ensures sum == a.add_spec(b)
        { a + b },
    );
    proof {
        if r is Ok {
            let out = r->Ok_0;
            let expected = binary_view(lhs@, rhs@, |a: T, b: T| a.add_spec(b));
            assert(out@.values =~= expected.values);
            assert(out@ == expected);
        }
    }
    r
}

/// Adds `rhs` to every element of an array.
pub fn add_scalar<T>(lhs: &PrimitiveArray<T>, rhs: &T) -> (r: PrimitiveArray<T>) where
    T: NativeType + Add<Output = T>,

    requires
        lhs.wf(),
        T::obeys_add_spec(),
        unary_defined(lhs@, |a: T| a.add_req(*rhs)),
    ensures
        r.wf(),
        r@ == unary_view(lhs@, |a: T| a.add_spec(*rhs), lhs@.data_type),
{
    let rhs = *rhs;
    let out = unary(
        lhs,
        |a: T| -> (sum: T)
            requires a.add_req(rhs)
            ensures sum == a.add_spec(rhs)
        { a + rhs },
        lhs.data_type(),
    );
    assert(out@.values =~= unary_view(lhs@, |a: T| a.add_spec(rhs), lhs@.data_type).values);
    out
}

/// Subtracts two arrays slot by slot.
pub fn subtract<T>(lhs: &PrimitiveArray<T>, rhs: &PrimitiveArray<T>) -> (r: Result<
    PrimitiveArray<T>,
    ArrowError,
>) where T: NativeType + Sub<Output = T>
    requires
        lhs.wf(),
        rhs.wf(),
        subtract_defined(lhs@, rhs@),
    ensures
        result_view(r) == subtract_result(lhs@, rhs@),
        r matches Ok(out) ==> out.wf() && forall|i: int|
            0 <= i < lhs@.len() ==> #[trigger] out@.get(i) == binary_slot(
                lhs@.get(i),
                rhs@.get(i),
                |a: T, b: T| a.sub_spec(b),
            ),
{
    let r = binary(
        lhs,
        rhs,
        |a: T, b: T| -> (difference: T)
            requires a.sub_req(b)
            ensures difference == a.sub_spec(b)
        { a - b },
    );
    proof {
        if r is Ok {
            let out = r->Ok_0;
            let expected = binary_view(lhs@, rhs@, |a: T, b: T| a.sub_spec(b));
            assert(out@.values =~= expected.values);
            assert(out@ == expected);
        }
    }
    r
}

/// Subtracts `rhs` from every element of an array.
pub fn subtract_scalar<T>(lhs: &PrimitiveArray<T>, rhs: &T) -> (r: PrimitiveArray<T>) where
    T: NativeType + Sub<Output = T>,

    requires
        lhs.wf(),
        T::obeys_sub_spec(),
        unary_defined(lhs@, |a: T| a.sub_req(*rhs)),
    ensures
        r.wf(),
        r@ == unary_view(lhs@, |a: T| a.sub_spec(*rhs), lhs@.data_type),
{
    let rhs = *rhs;
    let out = unary(
        lhs,
        |a: T| -> (difference: T)
            requires a.sub_req(rhs)
            ensures difference == a.sub_spec(rhs)
        { a - rhs },
        lhs.data_type(),
    );
    assert(out@.values =~= unary_view(lhs@, |a: T| a.sub_spec(rhs), lhs@.data_type).values);
    out
}

/// Negates every element of an array.
pub fn negate<T>(array: &PrimitiveArray<T>) -> (r: PrimitiveArray<T>) where
    T: NativeType + Neg<Output = T>,

    requires
        array.wf(),
        T::obeys_neg_spec(),
        unary_defined(array@, |a: T| a.neg_req()),
    ensures
        r.wf(),
        r@ == unary_view(array@, |a: T| a.neg_spec(), array@.data_type),
        forall|i: int|
            0 <= i < array@.len() ==> #[trigger] r@.get(i) == unary_slot(
                array@.get(i),
                |a: T| a.neg_spec(),
            ),
{
    let out = unary(
        array,
        |a: T| -> (negated: T)
            requires a.neg_req()
            ensures negated == a.neg_spec()
        { a.neg() },
        array.data_type(),
    );
    assert(out@.values =~= unary_view(array@, |a: T| a.neg_spec(), array@.data_type).values);
    out
}

/// Raises every element of an array to the power `exponent`.
pub fn powf_scalar<T>(array: &PrimitiveArray<T>, exponent: T) -> (r: PrimitiveArray<T>) where
    T: NativeType + Pow,

    requires
        array.wf(),
        unary_defined(array@, |a: T| a.pow_req(exponent)),
    ensures
        r.wf(),
        r@ == unary_view(array@, |a: T| a.pow_spec(exponent), array@.data_type),
        forall|i: int|
            0 <= i < array@.len() ==> #[trigger] r@.get(i) == unary_slot(
                array@.get(i),
                |a: T| a.pow_spec(exponent),
            ),
{
    let out = unary(
        array,
        |a: T| -> (power: T)
            requires a.pow_req(exponent)
            ensures power == a.pow_spec(exponent)
        { a.pow(exponent) },
        array.data_type(),
    );
    assert(out@.values =~= unary_view(array@, |a: T| a.pow_spec(exponent), array@.data_type).values);
    out
}

/// Multiplies two arrays slot by slot.
pub fn multiply<T>(lhs: &PrimitiveArray<T>, rhs: &PrimitiveArray<T>) -> (r: Result<
    PrimitiveArray<T>,
    ArrowError,
>) where T: NativeType + Mul<Output = T>
    requires
        lhs.wf(),
        rhs.wf(),
        multiply_defined(lhs@, rhs@),
    ensures
        result_view(r) == multiply_result(lhs@, rhs@),
        r matches Ok(out) ==> out.wf() && forall|i: int|
            0 <= i < lhs@.len() ==> #[trigger] out@.get(i) == binary_slot(
                lhs@.get(i),
                rhs@.get(i),
                |a: T, b: T| a.mul_spec(b),
            ),
{
    let r = binary(
        lhs,
        rhs,
        |a: T, b: T| -> (product: T)
            requires a.mul_req(b)
            ensures product == a.mul_spec(b)
        { a * b },
    );
    proof {
        if r is Ok {
            let out = r->Ok_0;
            let expected = binary_view(lhs@, rhs@, |a: T, b: T| a.mul_spec(b));
            assert(out@.values =~= expected.values);
            assert(out@ == expected);
        }
    }
    r
}

/// Multiplies every element of an array by `rhs`.
pub fn multiply_scalar<T>(lhs: &PrimitiveArray<T>, rhs: &T) -> (r: PrimitiveArray<T>) where
    T: NativeType + Mul<Output = T>,

    requires
        lhs.wf(),
        T::obeys_mul_spec(),
        unary_defined(lhs@, |a: T| a.mul_req(*rhs)),
    ensures
        r.wf(),
        r@ == unary_view(lhs@, |a: T| a.mul_spec(*rhs), lhs@.data_type),
{
    let rhs = *rhs;
    let out = unary(
        lhs,
        |a: T| -> (product: T)
            requires a.mul_req(rhs)
            ensures product == a.mul_spec(rhs)
        { a * rhs },
        lhs.data_type(),
    );
    assert(out@.values =~= unary_view(lhs@, |a: T| a.mul_spec(rhs), lhs@.data_type).values);
    out
}

/// On an integer element type, the sum, the difference and the product of two
/// arrays of one length are defined exactly where that of the integers of
/// every pair of elements is in the range of the type.
pub proof fn lemma_defined_integers<T: Integer>(lhs: PrimitiveView<T>, rhs: PrimitiveView<T>)
    requires
        lhs.len() == rhs.len(),
    ensures
        add_defined(lhs, rhs) <==> forall|i: int|
            0 <= i < lhs.len() ==> T::in_range(
                (#[trigger] lhs.values[i]).as_int() + rhs.values[i].as_int(),
            ),
        subtract_defined(lhs, rhs) <==> forall|i: int|
            0 <= i < lhs.len() ==> T::in_range(
                (#[trigger] lhs.values[i]).as_int() - rhs.values[i].as_int(),
            ),
        multiply_defined(lhs, rhs) <==> forall|i: int|
            0 <= i < lhs.len() ==> T::in_range(
                (#[trigger] lhs.values[i]).as_int() * rhs.values[i].as_int(),
            ),
{
    T::lemma_ring(T::spec_default(), T::spec_default());
    assert forall|i: int| 0 <= i < lhs.len() implies {
        let (a, b) = (#[trigger] lhs.values[i], rhs.values[i]);
        &&& a.add_req(b) <==> T::in_range(a.as_int() + b.as_int())
        &&& a.sub_req(b) <==> T::in_range(a.as_int() - b.as_int())
        &&& a.mul_req(b) <==> T::in_range(a.as_int() * b.as_int())
    } by {
        T::lemma_ring(lhs.values[i], rhs.values[i]);
    }
}

/// On an integer element type, a slot of the sum of two arrays is null where
/// either operand's slot is, and holds the integer sum of their values
/// elsewhere.
pub proof fn lemma_add_integers<T: Integer>(lhs: PrimitiveView<T>, rhs: PrimitiveView<T>, i: int)
    requires
        lhs.wf(),
        rhs.wf(),
        lhs.len() == rhs.len(),
        add_defined(lhs, rhs),
        0 <= i < lhs.len(),
    ensures
        add_result(lhs, rhs) matches Ok(out) && match (lhs.get(i), rhs.get(i)) {
            (Some(a), Some(b)) => out.get(i) matches Some(sum) && sum.as_int() == a.as_int()
                + b.as_int(),
            _ => out.get(i) is None,
        },
{
    T::lemma_ring(lhs.values[i], rhs.values[i]);
    lemma_binary_get(lhs, rhs, |a: T, b: T| a.add_spec(b), i);
}

/// On an integer element type, a slot of the difference of two arrays is null
/// where either operand's slot is, and holds the integer difference of their
/// values elsewhere.
pub proof fn lemma_subtract_integers<T: Integer>(
    lhs: PrimitiveView<T>,
    rhs: PrimitiveView<T>,
    i: int,
)
    requires
        lhs.wf(),
        rhs.wf(),
        lhs.len() == rhs.len(),
        subtract_defined(lhs, rhs),
        0 <= i < lhs.len(),
    ensures
        subtract_result(lhs, rhs) matches Ok(out) && match (lhs.get(i), rhs.get(i)) {
            (Some(a), Some(b)) => out.get(i) matches Some(difference) && difference.as_int()
                == a.as_int() - b.as_int(),
            _ => out.get(i) is None,
        },
{
    T::lemma_ring(lhs.values[i], rhs.values[i]);
    lemma_binary_get(lhs, rhs, |a: T, b: T| a.sub_spec(b), i);
}

/// On an integer element type, a slot of the product of two arrays is null
/// where either operand's slot is, and holds the integer product of their
/// values elsewhere.
pub proof fn lemma_multiply_integers<T: Integer>(
    lhs: PrimitiveView<T>,
    rhs: PrimitiveView<T>,
    i: int,
)
    requires
        lhs.wf(),
        rhs.wf(),
        lhs.len() == rhs.len(),
        multiply_defined(lhs, rhs),
        0 <= i < lhs.len(),
    ensures
        multiply_result(lhs, rhs) matches Ok(out) && match (lhs.get(i), rhs.get(i)) {
            (Some(a), Some(b)) => out.get(i) matches Some(product) && product.as_int()
                == a.as_int() * b.as_int(),
            _ => out.get(i) is None,
        },
{
    T::lemma_ring(lhs.values[i], rhs.values[i]);
    lemma_binary_get(lhs, rhs, |a: T, b: T| a.mul_spec(b), i);
}

/// On an integer element type, the division of two arrays of one length fails
/// exactly where a slot holds a value in both and the divisor's is `0`. Where
/// it does not fail, a slot of the result is null where either operand's slot
/// is, and holds the quotient of their values, rounded toward zero, elsewhere.
pub proof fn lemma_divide_integers<T: Integer>(
    lhs: PrimitiveView<T>,
    rhs: PrimitiveView<T>,
    i: int,
)
    requires
        lhs.wf(),
        rhs.wf(),
        lhs.len() == rhs.len(),
        divide_defined(lhs, rhs),
        0 <= i < lhs.len(),
    ensures
        divide_result(lhs, rhs) is Err <==> exists|k: int|
            0 <= k < lhs.len() && (#[trigger] lhs.get(k)) is Some && (rhs.get(k) matches Some(b)
                && b.as_int() == 0),
        divide_result(lhs, rhs) matches Ok(out) ==> match (lhs.get(i), rhs.get(i)) {
            (Some(a), Some(b)) => out.get(i) matches Some(q) && b.as_int() != 0 && q.as_int()
                == quotient(a.as_int(), b.as_int()),
            _ => out.get(i) is None,
        },
{
    assert forall|k: int| 0 <= k < lhs.len() implies (zero_divisor_at(lhs, rhs, k) <==> (
    #[trigger] lhs.get(k)) is Some && (rhs.get(k) matches Some(b) && b.as_int() == 0)) by {
        T::lemma_as_int(rhs.values[k], rhs.values[k]);
    }
    if divides_by_zero(lhs, rhs) {
        let k = choose|k: int| 0 <= k < lhs.len() && #[trigger] zero_divisor_at(lhs, rhs, k);
        assert(lhs.get(k) is Some);
    } else {
        let out = divide_view(lhs, rhs);
        lemma_combine(lhs, rhs, out);
        assert(!zero_divisor_at(lhs, rhs, i));
        T::lemma_as_int(rhs.values[i], rhs.values[i]);
        T::lemma_quotient(lhs.values[i], rhs.values[i]);
    }
}

/// Negating an array of signed integers twice gives the array back, as it is
/// stored: the second negation is defined wherever the first is.
pub proof fn lemma_negate_twice<T: Signed>(array: PrimitiveView<T>)
    requires
        unary_defined(array, |a: T| a.neg_req()),
    ensures
        unary_defined(
            unary_view(array, |a: T| a.neg_spec(), array.data_type),
            |a: T| a.neg_req(),
        ),
        unary_view(
            unary_view(array, |a: T| a.neg_spec(), array.data_type),
            |a: T| a.neg_spec(),
            array.data_type,
        ) == array,
{
    let once = unary_view(array, |a: T| a.neg_spec(), array.data_type);
    let twice = unary_view(once, |a: T| a.neg_spec(), array.data_type);
    assert forall|i: int| 0 <= i < array.len() implies (#[trigger] once.values[i]).neg_req()
        && twice.values[i] == array.values[i] by {
        let a = array.values[i];
        assert(a.neg_req());
        T::lemma_as_int(a, a);
        T::lemma_negation(a);
        T::lemma_negation(a.neg_spec());
        T::lemma_as_int(a.neg_spec().neg_spec(), a);
    }
    assert(twice.values =~= array.values);
}

} // verus!
