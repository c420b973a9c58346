//! How the nulls of two operands make the nulls of a result.
use crate::array::{validity_view, validity_wf, PrimitiveView};
use crate::bitmap::{and_bits, Bitmap};
use vstd::prelude::*;

verus! {

/// The validity of an elementwise result: a slot is valid where it is valid in
/// both operands. Where neither operand has a validity, the result has none;
/// where one has, the result has that one.
pub open spec fn combine(lhs: Option<Seq<bool>>, rhs: Option<Seq<bool>>) -> Option<Seq<bool>> {
    match (lhs, rhs) {
        (Some(l), None) => Some(l),
        (None, Some(r)) => Some(r),
        (None, None) => None,
        (Some(l), Some(r)) => Some(and_bits(l, r)),
    }
}

/// A slot of the combined validity is valid exactly where it is valid in both
/// operands, and the combined validity has one bit per slot if the operands'
/// validities have.
pub proof fn lemma_combine<T>(lhs: PrimitiveView<T>, rhs: PrimitiveView<T>, out: PrimitiveView<T>)
    requires
        lhs.len() == rhs.len(),
        lhs.validity matches Some(bits) ==> bits.len() == lhs.len(),
        rhs.validity matches Some(bits) ==> bits.len() == rhs.len(),
        out.validity == combine(lhs.validity, rhs.validity),
    ensures
        out.validity matches Some(bits) ==> bits.len() == lhs.len(),
        forall|i: int|
            0 <= i < lhs.len() ==> #[trigger] out.is_valid(i) == (lhs.is_valid(i) && rhs.is_valid(
                i,
            )),
{
}

/// Combines the validities of two operands of one length.
pub fn combine_validities(lhs: &Option<Bitmap>, rhs: &Option<Bitmap>) -> (r: Option<Bitmap>)
    requires
        validity_wf(*lhs),
        validity_wf(*rhs),
        *lhs matches Some(l) ==> (*rhs matches Some(r) ==> l@.len() == r@.len()),
    ensures
        validity_wf(r),
        validity_view(r) == combine(validity_view(*lhs), validity_view(*rhs)),
{
    match (lhs, rhs) {
        (Some(l), None) => Some(l.clone()),
        (None, Some(r)) => Some(r.clone()),
        (None, None) => None,
        (Some(l), Some(r)) => Some(l.and(r)),
    }
}

} // verus!
