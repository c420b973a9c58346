//! The kernels: functions from arrays to a new array.
pub mod arithmetics;
pub mod arity;
pub mod take;
pub mod utils;
