//! The catalog of logical types an array can be tagged with.
use vstd::prelude::*;

verus! {

/// The resolution of a temporal logical type.
#[derive(Debug, Clone, Copy, PartialEq, Eq, Structural, Hash)]
pub enum TimeUnit {
    Second,
    Millisecond,
    Microsecond,
    Nanosecond,
}

/// The layout of a calendar interval.
#[derive(Debug, Clone, Copy, PartialEq, Eq, Structural, Hash)]
pub enum IntervalUnit {
    /// A number of elapsed whole months.
    YearMonth,
    /// A number of elapsed days and milliseconds.
    DayTime,
}

/// The logical type of an array. Several logical types can share one element
/// type: a `Date32` and an `Int32` array both store `i32` elements.
#[derive(Debug, Clone, Copy, PartialEq, Eq, Structural, Hash)]
pub enum DataType {
    Boolean,
    Int8,
    Int16,
    Int32,
    Int64,
    UInt8,
    UInt16,
    UInt32,
    UInt64,
    Float16,
    Float32,
    Float64,
    /// An instant, counted in the given unit since the UNIX epoch.
    Timestamp(TimeUnit),
    /// Days since the UNIX epoch.
    Date32,
    /// Milliseconds since the UNIX epoch.
    Date64,
    /// Time since midnight, in seconds or milliseconds.
    Time32(TimeUnit),
    /// Time since midnight, in microseconds or nanoseconds.
    Time64(TimeUnit),
    /// An elapsed time in the given unit.
    Duration(TimeUnit),
    Interval(IntervalUnit),
    /// A decimal number with the given precision and scale, stored as a wide integer.
    Decimal(usize, usize),
}

impl DataType {
    /// The logical types on which the arithmetic operators are defined.
    pub open spec fn spec_is_numeric(self) -> bool {
        match self {
            DataType::Int8
            | DataType::Int16
            | DataType::Int32
            | DataType::Int64
            | DataType::UInt8
            | DataType::UInt16
            | DataType::UInt32
            | DataType::UInt64
            | DataType::Float16
            | DataType::Float32
            | DataType::Float64
            | DataType::Duration(_)
            | DataType::Decimal(_, _) => true,
            _ => false,
        }
    }

    /// Whether the arithmetic operators are defined on this logical type.
    pub fn is_numeric(&self) -> (r: bool)
        ensures
            r == self.spec_is_numeric(),
    {
        match self {
            DataType::Int8
            | DataType::Int16
            | DataType::Int32
            | DataType::Int64
            | DataType::UInt8
            | DataType::UInt16
            | DataType::UInt32
            | DataType::UInt64
            | DataType::Float16
            | DataType::Float32
            | DataType::Float64
            | DataType::Duration(_)
            | DataType::Decimal(_, _) => true,
            _ => false,
        }
    }
}

} // verus!
