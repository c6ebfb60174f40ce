//! The error of this crate.

use vstd::prelude::*;

verus! {

/// Why a time of day could not be built.
#[derive(Debug, PartialEq, Eq)]
pub enum OfficeHoursError {
    /// The parts are not `[hour, minute, second, millisecond]` or a prefix of
    /// it with every part in range. Holds a copy of the parts as given.
    InvalidTimeSlice(Vec<u32>),
}

impl View for OfficeHoursError {
    type V = Seq<u32>;

    /// The parts that were refused.
    open spec fn view(&self) -> Seq<u32> {
        match *self {
            OfficeHoursError::InvalidTimeSlice(parts) => parts@,
        }
    }
}

impl OfficeHoursError {
    /// The parts that were refused, as the caller gave them.
    pub fn time_slice(&self) -> (parts: &Vec<u32>)
        ensures
            parts@ == self@,
    {
        match self {
            OfficeHoursError::InvalidTimeSlice(parts) => parts,
        }
    }
}

} // verus!
