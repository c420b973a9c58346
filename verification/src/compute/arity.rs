//! The elementwise kernels that every operator is made of.
use crate::array::{PrimitiveArray, PrimitiveView};
use crate::buffer::Buffer;
use crate::compute::utils::{combine, combine_validities};
use crate::datatypes::DataType;
use crate::error::{ArrowError, InvalidArgument};
use crate::types::NativeType;
use vstd::prelude::*;

verus! {

/// The array that stores `op` of every element of `array`, with the validity
/// of `array` and the logical type `data_type`.
pub open spec fn unary_view<T>(
    array: PrimitiveView<T>,
    op: spec_fn(T) -> T,
    data_type: DataType,
) -> PrimitiveView<T> {
    PrimitiveView {
        data_type,
        values: Seq::new(array.len(), |i: int| op(array.values[i])),
        validity: array.validity,
    }
}

/// The array that stores `op` of every pair of elements of `lhs` and `rhs`,
/// with their combined validity and the logical type of `lhs`.
pub open spec fn binary_view<T>(
    lhs: PrimitiveView<T>,
    rhs: PrimitiveView<T>,
    op: spec_fn(T, T) -> T,
) -> PrimitiveView<T> {
    PrimitiveView {
        data_type: lhs.data_type,
        values: Seq::new(lhs.len(), |i: int| op(lhs.values[i], rhs.values[i])),
        validity: combine(lhs.validity, rhs.validity),
    }
}

/// A slot of a unary result is null where the operand's slot is, and holds
/// `op` of the operand's value elsewhere.
pub proof fn lemma_unary_get<T>(
    array: PrimitiveView<T>,
    op: spec_fn(T) -> T,
    data_type: DataType,
    i: int,
)
    requires
        0 <= i < array.len(),
    ensures
        unary_view(array, op, data_type).get(i) == match array.get(i) {
            Some(a) => Some(op(a)),
            None => None,
        },
{
}

/// A slot of a binary result is null where either operand's slot is, and holds
/// `op` of the operands' values elsewhere.
pub proof fn lemma_binary_get<T>(
    lhs: PrimitiveView<T>,
    rhs: PrimitiveView<T>,
    op: spec_fn(T, T) -> T,
    i: int,
)
    requires
        lhs.len() == rhs.len(),
        lhs.validity matches Some(bits) ==> bits.len() == lhs.len(),
        rhs.validity matches Some(bits) ==> bits.len() == rhs.len(),
        0 <= i < lhs.len(),
    ensures
        binary_view(lhs, rhs, op).get(i) == match (lhs.get(i), rhs.get(i)) {
            (Some(a), Some(b)) => Some(op(a, b)),
            _ => None,
        },
{
}

/// Applies `op` to every stored element, null slots included, and keeps the
/// validity as it is.
pub fn unary<T: NativeType, F: Fn(T) -> T>(
    array: &PrimitiveArray<T>,
    op: F,
    data_type: &DataType,
) -> (r: PrimitiveArray<T>)
    requires
        array.wf(),
        T::spec_is_valid(*data_type),
        forall|i: int| 0 <= i < array@.len() ==> call_requires(op, (#[trigger] array@.values[i],)),
    ensures
        r.wf(),
        r@.data_type == *data_type,
        r@.validity == array@.validity,
        r@.values.len() == array@.len(),
        forall|i: int|
            0 <= i < array@.len() ==> call_ensures(op, (array@.values[i],), #[trigger] r@.values[i]),
{
    let n = array.len();
    let mut values: Vec<T> = Vec::with_capacity(n);
    let mut i: usize = 0;
    while i < n
        invariant
            n == array@.len(),
            i <= n,
            values@.len() == i,
            forall|k: int|
                0 <= k < array@.len() ==> call_requires(op, (#[trigger] array@.values[k],)),
            forall|k: int|
                0 <= k < i ==> call_ensures(op, (array@.values[k],), #[trigger] values@[k]),
        decreases n - i,
    {
        values.push(op(array.value(i)));
        i += 1;
    }
    PrimitiveArray::from_data(*data_type, Buffer::from_vec(values), array.validity().clone())
}

/// Applies `op` to every pair of stored elements, null slots included, and
/// combines the validities. Operands of different lengths are rejected.
pub fn binary<T: NativeType, F: Fn(T, T) -> T>(
    lhs: &PrimitiveArray<T>,
    rhs: &PrimitiveArray<T>,
    op: F,
) -> (r: Result<PrimitiveArray<T>, ArrowError>)
    requires
        lhs.wf(),
        rhs.wf(),
        lhs@.len() == rhs@.len() ==> forall|i: int|
            0 <= i < lhs@.len() ==> call_requires(op, (#[trigger] lhs@.values[i], rhs@.values[i])),
    ensures
        lhs@.len() != rhs@.len() ==> r == Err::<PrimitiveArray<T>, ArrowError>(
            ArrowError::InvalidArgumentError(InvalidArgument::LengthMismatch),
        ),
        lhs@.len() == rhs@.len() ==> r is Ok,
        r matches Ok(out) ==> {
            &&& out.wf()
            &&& out@.data_type == lhs@.data_type
            &&& out@.validity == combine(lhs@.validity, rhs@.validity)
            &&& out@.values.len() == lhs@.len()
            &&& forall|i: int|
                0 <= i < lhs@.len() ==> call_ensures(
                    op,
                    (lhs@.values[i], rhs@.values[i]),
                    #[trigger] out@.values[i],
                )
        },
{
    if lhs.len() != rhs.len() {
        return Err(ArrowError::InvalidArgumentError(InvalidArgument::LengthMismatch));
    }
    let validity = combine_validities(lhs.validity(), rhs.validity());
    let n = lhs.len();
    let mut values: Vec<T> = Vec::with_capacity(n);
    let mut i: usize = 0;
    while i < n
        invariant
            n == lhs@.len(),
            n == rhs@.len(),
            i <= n,
            values@.len() == i,
            forall|k: int|
                0 <= k < lhs@.len() ==> call_requires(
                    op,
                    (#[trigger] lhs@.values[k], rhs@.values[k]),
                ),
            forall|k: int|
                0 <= k < i ==> call_ensures(
                    op,
                    (lhs@.values[k], rhs@.values[k]),
                    #[trigger] values@[k],
                ),
        decreases n - i,
    {
        values.push(op(lhs.value(i), rhs.value(i)));
        i += 1;
    }
    Ok(PrimitiveArray::from_data(*lhs.data_type(), Buffer::from_vec(values), validity))
}

} // verus!
