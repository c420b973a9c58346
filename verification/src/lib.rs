//! Null-aware compute kernels over fixed-width typed arrays.
//!
//! An array pairs an immutable buffer of elements with an optional validity
//! bitmap. The kernels in [`compute`] never mutate their operands: each one
//! allocates and returns a new array, and its contract states both the stored
//! values and the validity of the result.
pub mod array;
pub mod bitmap;
pub mod buffer;
pub mod compute;
pub mod datatypes;
pub mod error;
pub mod types;
