//! The failure kinds that the library returns.

use vstd::prelude::*;
use crate::date::Date;
use crate::department::Department;

verus! {

/// Why an operation of this library failed.
#[derive(Debug, Clone, PartialEq, Eq)]
pub enum Error {
    /// A text was not an unsigned decimal number that fits 32 bits.
    NumParse,
    /// The number is not a roll; it is carried along.
    InvalidRoll(u32),
    /// The department offers no course under the code; both are carried along.
    CourseNotFound(Department, String),
    /// A span of several days whose first day lies after its last day.
    InvalidSpan(Date, Date),
}

} // verus!
