//! Element buffers: immutable, shareable, contiguous storage.
use std::sync::Arc;
use vstd::prelude::*;

verus! {

/// `Arc::clone`: a second handle to the allocation that `handle` points to.
#[verifier::external_body]
pub(crate) fn share<T>(handle: &Arc<T>) -> (r: Arc<T>)
    ensures
        r == *handle,
{
    Arc::clone(handle)
}

/// An immutable sequence of elements. Its length is fixed when it is made, and
/// cloning shares the storage.
#[derive(Debug)]
pub struct Buffer<T> {
    data: Arc<Vec<T>>,
}

impl<T> View for Buffer<T> {
    type V = Seq<T>;

    closed spec fn view(&self) -> Seq<T> {
        self.data@
    }
}

impl<T> Clone for Buffer<T> {
    fn clone(&self) -> (r: Self)
        ensures
            r == *self,
    {
        Buffer { data: share(&self.data) }
    }
}

impl<T: Copy> Buffer<T> {
    /// The buffer that holds the elements of `values`, in order.
    pub fn from_vec(values: Vec<T>) -> (r: Self)
        ensures
            r@ == values@,
    {
        Buffer { data: Arc::new(values) }
    }

    /// The number of elements.
    pub fn len(&self) -> (r: usize)
        ensures
            r == self@.len(),
    {
        self.data.len()
    }

    /// Element `i`.
    pub fn get(&self, i: usize) -> (r: T)
        requires
            i < self@.len(),
        ensures
            r == self@[i as int],
    {
        self.data[i]
    }

    /// The elements, as a slice.
    pub fn as_slice(&self) -> (r: &[T])
        ensures
            r@ == self@,
    {
        self.data.as_slice()
    }
}

} // verus!
