//! Fallible operations that report failure as an ordinary value.
//!
//! Two small pieces of logic share one pattern: an operation either produces
//! a fully computed value or produces no value at all, paired with an error
//! saying why. [`outcome`] holds the two-variant result type, [`division`]
//! the zero-divisor decision of a checked division, and [`file_read`] the
//! short-circuiting state machine of a whole-file read.

pub mod division;
pub mod file_read;
pub mod outcome;
