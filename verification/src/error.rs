//! The errors the kernels return.
use crate::datatypes::DataType;
use vstd::prelude::*;

verus! {

/// What was wrong with an argument.
#[derive(Debug, Clone, Copy, PartialEq, Eq, Structural, Hash)]
pub enum InvalidArgument {
    /// Two operands of an elementwise operation differ in length.
    LengthMismatch,
    /// A divisor array holds a zero at a position where the quotient is not null.
    DivisionByZero,
    /// A scalar divisor is zero.
    ZeroDivisor,
    /// A validity bitmap does not have one bit per element.
    ValidityLength,
    /// The logical type is not one that the element type can store.
    ElementType(DataType),
}

/// What is not supported.
#[derive(Debug, Clone, Copy, PartialEq, Eq, Structural, Hash)]
pub enum Unsupported {
    /// The two operands of an operator have different logical types.
    MismatchedTypes,
    /// The operator is not defined on this logical type.
    Arithmetics(DataType),
}

/// The error of every fallible function of this crate.
#[derive(Debug, Clone, Copy, PartialEq, Eq, Structural, Hash)]
pub enum ArrowError {
    /// An argument cannot be worked on; the call had no effect.
    InvalidArgumentError(InvalidArgument),
    /// The operation is not defined for these operands.
    NotYetImplemented(Unsupported),
    /// A stored index cannot be represented as an offset on this platform.
    KeyOverflowError,
}

} // verus!
