//! Wrapping summation over slices of `i32`, stated against the exact
//! mathematical sum of the elements, and a short ownership walk-through
//! built on it: a vector is summed through a shared borrow, handed over to a
//! new owner, and reported on as text.

pub mod decimal;
pub mod math;
pub mod report;
pub mod summation;

pub use summation::sum;
