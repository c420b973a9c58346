//! Gathering: the array of the elements that an array of indices selects.
use crate::error::ArrowError;
use crate::types::Offset;
use vstd::prelude::*;

pub mod primitive;

pub use primitive::take;

verus! {

/// The position that a stored index denotes, where it denotes one.
pub open spec fn position<I: Offset>(index: I) -> int {
    index.spec_to_usize()->Some_0 as int
}

/// Converts a stored index to a position, or reports that it denotes none on
/// this platform.
pub fn maybe_usize<I: Offset>(index: I) -> (r: Result<usize, ArrowError>)
    ensures
        match index.spec_to_usize() {
            Some(k) => r == Ok::<usize, ArrowError>(k),
            None => r == Err::<usize, ArrowError>(ArrowError::KeyOverflowError),
        },
{
    match index.to_usize() {
        Some(k) => Ok(k),
        None => Err(ArrowError::KeyOverflowError),
    }
}

} // verus!
