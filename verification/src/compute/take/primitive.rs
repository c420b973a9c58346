//! Gathering from arrays of fixed-width elements.
//!
//! Whether the values or the indices hold nulls decides how an array is
//! gathered: four passes, one for each combination. A null slot of the indices
//! selects nothing, and the integer stored in it is never read.
use super::{maybe_usize, position};
use crate::array::{
    lemma_null_count, result_view, validity_view, validity_wf, PrimitiveArray, PrimitiveView,
};
use crate::bitmap::{Bitmap, MutableBitmap};
use crate::buffer::Buffer;
use crate::error::ArrowError;
use crate::types::{NativeType, Offset};
use vstd::prelude::*;

verus! {

/// Whether slot `i` is valid under an optional validity.
pub open spec fn slot_valid(validity: Option<Seq<bool>>, i: int) -> bool {
    match validity {
        Some(bits) => bits[i],
        None => true,
    }
}

/// Whether slot `i` of the indices holds an index that denotes no position on
/// this platform.
pub open spec fn overflows_at<I: Offset>(
    indices: Seq<I>,
    validity: Option<Seq<bool>>,
    i: int,
) -> bool {
    slot_valid(validity, i) && indices[i].spec_to_usize() is None
}

/// Whether some valid index denotes no position on this platform.
pub open spec fn overflows<I: Offset>(indices: Seq<I>, validity: Option<Seq<bool>>) -> bool {
    exists|i: int| 0 <= i < indices.len() && #[trigger] overflows_at(indices, validity, i)
}

/// Whether every valid index that denotes a position denotes one below `len`.
pub open spec fn in_bounds<I: Offset>(
    len: nat,
    indices: Seq<I>,
    validity: Option<Seq<bool>>,
) -> bool {
    forall|i: int|
        0 <= i < indices.len() && slot_valid(validity, i) && (
        #[trigger] indices[i]).spec_to_usize() is Some ==> position(indices[i]) < len
}

/// The gathered elements: a valid index selects the element at its position,
/// a null index the default of `T`.
pub open spec fn gather<T: NativeType, I: Offset>(
    values: Seq<T>,
    indices: Seq<I>,
    validity: Option<Seq<bool>>,
) -> Seq<T> {
    Seq::new(
        indices.len(),
        |i: int|
            if slot_valid(validity, i) {
                values[position(indices[i])]
            } else {
                T::spec_default()
            },
    )
}

/// The gathered validity: a slot is valid where the index is valid and
/// selects a valid slot.
pub open spec fn gather_validity<I: Offset>(
    bits: Seq<bool>,
    indices: Seq<I>,
    validity: Option<Seq<bool>>,
) -> Seq<bool> {
    Seq::new(indices.len(), |i: int| slot_valid(validity, i) && bits[position(indices[i])])
}

/// What `take` makes of `values` and `indices`. It has a validity of its own
/// where `values` holds a null, that of `indices` where only they hold one,
/// and none where neither does.
pub open spec fn take_view<T: NativeType, I: Offset>(
    values: PrimitiveView<T>,
    indices: PrimitiveView<I>,
) -> PrimitiveView<T> {
    PrimitiveView {
        data_type: values.data_type,
        values: gather(values.values, indices.values, take_reads(indices)),
        validity: if values.null_count() > 0 {
            Some(gather_validity(values.validity->Some_0, indices.values, take_reads(indices)))
        } else if indices.null_count() > 0 {
            indices.validity
        } else {
            None
        },
    }
}

/// The validity under which `take` reads the indices: theirs where they hold a
/// null, and none where they do not.
pub open spec fn take_reads<I>(indices: PrimitiveView<I>) -> Option<Seq<bool>> {
    if indices.null_count() > 0 {
        indices.validity
    } else {
        None
    }
}

/// The result of `take`: an error where a valid index denotes no position on
/// this platform, and else the gathered array.
pub open spec fn take_result<T: NativeType, I: Offset>(
    values: PrimitiveView<T>,
    indices: PrimitiveView<I>,
) -> Result<PrimitiveView<T>, ArrowError> {
    if overflows(indices.values, take_reads(indices)) {
        Err(ArrowError::KeyOverflowError)
    } else {
        Ok(take_view(values, indices))
    }
}

/// Whether `take` is defined: every valid index that denotes a position
/// denotes one of `values`.
pub open spec fn take_defined<T, I: Offset>(
    values: PrimitiveView<T>,
    indices: PrimitiveView<I>,
) -> bool {
    in_bounds(values.len(), indices.values, take_reads(indices))
}

/// `take` reads a slot of the indices exactly where the slot is valid.
pub proof fn lemma_take_reads<I: NativeType>(indices: PrimitiveView<I>, i: int)
    requires
        indices.wf(),
        0 <= i < indices.len(),
    ensures
        slot_valid(take_reads(indices), i) == indices.is_valid(i),
{
    lemma_null_count(indices);
}

/// A slot of the gathered array is null where the index is null or selects a
/// null, and holds the selected value elsewhere.
pub proof fn lemma_take_get<T: NativeType, I: Offset>(
    values: PrimitiveView<T>,
    indices: PrimitiveView<I>,
    i: int,
)
    requires
        values.wf(),
        indices.wf(),
        take_defined(values, indices),
        !overflows(indices.values, take_reads(indices)),
        0 <= i < indices.len(),
    ensures
        take_view(values, indices).len() == indices.len(),
        take_view(values, indices).get(i) == match indices.get(i) {
            Some(index) => values.get(position(index)),
            None => None,
        },
        indices.get(i) matches Some(index) ==> 0 <= position(index) < values.len(),
{
    lemma_null_count(indices);
    lemma_null_count(values);
    lemma_take_reads(indices, i);
    if indices.is_valid(i) {
        assert(!overflows_at(indices.values, take_reads(indices), i));
        let index = indices.values[i];
        assert(index.spec_to_usize() is Some);
        assert(values.is_valid(position(index)) || values.null_count() > 0);
    }
}

/// Gathers where neither the values nor the indices hold a null.
fn take_no_validity<T: NativeType, I: Offset>(values: &[T], indices: &[I]) -> (r: Result<
    (Buffer<T>, Option<Bitmap>),
    ArrowError,
>)
    requires
        in_bounds(values@.len(), indices@, None),
    ensures
        r is Err <==> overflows(indices@, None),
        r matches Err(e) ==> e == ArrowError::KeyOverflowError,
        r matches Ok((buffer, nulls)) ==> {
            &&& buffer@ == gather(values@, indices@, None)
            &&& nulls is None
        },
{
    let n = indices.len();
    let ghost expected = gather(values@, indices@, None);
    let mut buffer: Vec<T> = Vec::with_capacity(n);
    let mut i: usize = 0;
    while i < n
        invariant
            n == indices@.len(),
            i <= n,
            in_bounds(values@.len(), indices@, None),
            expected == gather(values@, indices@, None),
            buffer@ == expected.take(i as int),
            forall|k: int| 0 <= k < i ==> !overflows_at(indices@, None, k),
        decreases n - i,
    {
        let index = match maybe_usize::<I>(indices[i]) {
            Ok(index) => index,
            Err(e) => {
                assert(overflows_at(indices@, None, i as int));
                return Err(e);
            },
        };
        buffer.push(values[index]);
        assert(expected.take(i as int).push(expected[i as int]) == expected.take(i + 1));
        i += 1;
    }
    assert(expected.take(n as int) == expected);
    Ok((Buffer::from_vec(buffer), None))
}

/// Gathers where only the values hold a null.
fn take_values_validity<T: NativeType, I: Offset>(values: &PrimitiveArray<T>, indices: &[I]) -> (r:
    Result<(Buffer<T>, Option<Bitmap>), ArrowError>)
    requires
        values.wf(),
        values@.validity is Some,
        in_bounds(values@.len(), indices@, None),
    ensures
        r is Err <==> overflows(indices@, None),
        r matches Err(e) ==> e == ArrowError::KeyOverflowError,
        r matches Ok((buffer, nulls)) ==> {
            &&& buffer@ == gather(values@.values, indices@, None)
            &&& validity_wf(nulls)
            &&& validity_view(nulls) == Some(
                gather_validity(values@.validity->Some_0, indices@, None),
            )
        },
{
    let n = indices.len();
    let ghost expected = gather(values@.values, indices@, None);
    let ghost expected_bits = gather_validity(values@.validity->Some_0, indices@, None);
    let mut null = MutableBitmap::with_capacity(n);
    let mut buffer: Vec<T> = Vec::with_capacity(n);
    let mut i: usize = 0;
    while i < n
        invariant
            n == indices@.len(),
            i <= n,
            values.wf(),
            values@.validity is Some,
            in_bounds(values@.len(), indices@, None),
            expected == gather(values@.values, indices@, None),
            expected_bits == gather_validity(values@.validity->Some_0, indices@, None),
            null.wf(),
            null@ == expected_bits.take(i as int),
            buffer@ == expected.take(i as int),
            forall|k: int| 0 <= k < i ==> !overflows_at(indices@, None, k),
        decreases n - i,
    {
        let index = match maybe_usize::<I>(indices[i]) {
            Ok(index) => index,
            Err(e) => {
                assert(overflows_at(indices@, None, i as int));
                return Err(e);
            },
        };
        null.push(values.is_valid(index));
        buffer.push(values.value(index));
        assert(expected.take(i as int).push(expected[i as int]) == expected.take(i + 1));
        assert(expected_bits.take(i as int).push(expected_bits[i as int]) == expected_bits.take(
            i + 1,
        ));
        i += 1;
    }
    assert(expected.take(n as int) == expected);
    assert(expected_bits.take(n as int) == expected_bits);
    Ok((Buffer::from_vec(buffer), Some(null.into_bitmap())))
}

/// Gathers where only the indices hold a null. The validity of the result is
/// that of the indices.
fn take_indices_validity<T: NativeType, I: Offset>(values: &[T], indices: &PrimitiveArray<I>) -> (r:
    Result<(Buffer<T>, Option<Bitmap>), ArrowError>)
    requires
        indices.wf(),
        indices@.validity is Some,
        in_bounds(values@.len(), indices@.values, indices@.validity),
    ensures
        r is Err <==> overflows(indices@.values, indices@.validity),
        r matches Err(e) ==> e == ArrowError::KeyOverflowError,
        r matches Ok((buffer, nulls)) ==> {
            &&& buffer@ == gather(values@, indices@.values, indices@.validity)
            &&& validity_wf(nulls)
            &&& validity_view(nulls) == indices@.validity
        },
{
    let n = indices.len();
    let ghost expected = gather(values@, indices@.values, indices@.validity);
    let mut buffer: Vec<T> = Vec::with_capacity(n);
    let mut i: usize = 0;
    while i < n
        invariant
            n == indices@.len(),
            i <= n,
            indices.wf(),
            in_bounds(values@.len(), indices@.values, indices@.validity),
            expected == gather(values@, indices@.values, indices@.validity),
            buffer@ == expected.take(i as int),
            forall|k: int| 0 <= k < i ==> !overflows_at(indices@.values, indices@.validity, k),
        decreases n - i,
    {
        if indices.is_valid(i) {
            let index = match maybe_usize::<I>(indices.value(i)) {
                Ok(index) => index,
                Err(e) => {
                    assert(overflows_at(indices@.values, indices@.validity, i as int));
                    return Err(e);
                },
            };
            buffer.push(values[index]);
        } else {
            buffer.push(T::default_value());
        }
        assert(expected.take(i as int).push(expected[i as int]) == expected.take(i + 1));
        i += 1;
    }
    assert(expected.take(n as int) == expected);
    let nulls = match indices.validity() {
        Some(bitmap) => Some(bitmap.clone()),
        None => None,
    };
    Ok((Buffer::from_vec(buffer), nulls))
}

/// Gathers where both the values and the indices hold a null.
fn take_values_indices_validity<T: NativeType, I: Offset>(
    values: &PrimitiveArray<T>,
    indices: &PrimitiveArray<I>,
) -> (r: Result<(Buffer<T>, Option<Bitmap>), ArrowError>)
    requires
        values.wf(),
        values@.validity is Some,
        indices.wf(),
        indices@.validity is Some,
        in_bounds(values@.len(), indices@.values, indices@.validity),
    ensures
        r is Err <==> overflows(indices@.values, indices@.validity),
        r matches Err(e) ==> e == ArrowError::KeyOverflowError,
        r matches Ok((buffer, nulls)) ==> {
            &&& buffer@ == gather(values@.values, indices@.values, indices@.validity)
            &&& validity_wf(nulls)
            &&& validity_view(nulls) == Some(
                gather_validity(values@.validity->Some_0, indices@.values, indices@.validity),
            )
        },
{
    let n = indices.len();
    let ghost expected = gather(values@.values, indices@.values, indices@.validity);
    let ghost expected_bits = gather_validity(
        values@.validity->Some_0,
        indices@.values,
        indices@.validity,
    );
    let mut bitmap = MutableBitmap::with_capacity(n);
    let mut buffer: Vec<T> = Vec::with_capacity(n);
    let mut i: usize = 0;
    while i < n
        invariant
            n == indices@.len(),
            i <= n,
            values.wf(),
            values@.validity is Some,
            indices.wf(),
            in_bounds(values@.len(), indices@.values, indices@.validity),
            expected == gather(values@.values, indices@.values, indices@.validity),
            expected_bits == gather_validity(
                values@.validity->Some_0,
                indices@.values,
                indices@.validity,
            ),
            bitmap.wf(),
            bitmap@ == expected_bits.take(i as int),
            buffer@ == expected.take(i as int),
            forall|k: int| 0 <= k < i ==> !overflows_at(indices@.values, indices@.validity, k),
        decreases n - i,
    {
        if indices.is_valid(i) {
            let index = match maybe_usize::<I>(indices.value(i)) {
                Ok(index) => index,
                Err(e) => {
                    assert(overflows_at(indices@.values, indices@.validity, i as int));
                    return Err(e);
                },
            };
            bitmap.push(values.is_valid(index));
            buffer.push(values.value(index));
        } else {
            bitmap.push(false);
            buffer.push(T::default_value());
        }
        assert(expected.take(i as int).push(expected[i as int]) == expected.take(i + 1));
        assert(expected_bits.take(i as int).push(expected_bits[i as int]) == expected_bits.take(
            i + 1,
        ));
        i += 1;
    }
    assert(expected.take(n as int) == expected);
    assert(expected_bits.take(n as int) == expected_bits);
    Ok((Buffer::from_vec(buffer), Some(bitmap.into_bitmap())))
}

/// Gathers the elements of `values` that `indices` selects, in the order of
/// the indices.
///
/// A null index selects a null. A valid index must denote a slot of `values`;
/// one that denotes no position at all on this platform fails the call.
pub fn take<T: NativeType, I: Offset>(values: &PrimitiveArray<T>, indices: &PrimitiveArray<I>) -> (r:
    Result<PrimitiveArray<T>, ArrowError>)
    requires
        values.wf(),
        indices.wf(),
        take_defined(values@, indices@),
    ensures
        result_view(r) == take_result(values@, indices@),
        r matches Ok(out) ==> {
            &&& out.wf()
            &&& out@.len() == indices@.len()
            &&& forall|i: int|
                0 <= i < indices@.len() ==> #[trigger] out@.get(i) == match indices@.get(i) {
                    Some(index) => values@.get(position(index)),
                    None => None,
                }
        },
{
    let indices_has_validity = indices.null_count() > 0;
    let values_has_validity = values.null_count() > 0;
    let taken = match (values_has_validity, indices_has_validity) {
        (false, false) => take_no_validity::<T, I>(values.values().as_slice(), indices.values().as_slice()),
        (true, false) => take_values_validity::<T, I>(values, indices.values().as_slice()),
        (false, true) => take_indices_validity::<T, I>(values.values().as_slice(), indices),
        (true, true) => take_values_indices_validity::<T, I>(values, indices),
    };
    let (buffer, nulls) = match taken {
        Ok(parts) => parts,
        Err(e) => {
            return Err(e);
        },
    };
    let out = PrimitiveArray::<T>::from_data(*values.data_type(), buffer, nulls);
    proof {
        assert(out@ == take_view(values@, indices@));
        assert forall|i: int| 0 <= i < indices@.len() implies #[trigger] out@.get(i)
            == match indices@.get(i) {
            Some(index) => values@.get(position(index)),
            None => None,
        } by {
            lemma_take_get(values@, indices@, i);
        }
    }
    Ok(out)
}

} // verus!
