//! Validated times of day and the ways to build one.

use std::cmp::Ordering;
use vstd::prelude::*;
use vstd::std_specs::cmp::PartialOrdSpecImpl;
use vstd::slice::slice_to_vec;
use crate::clock::Clock;
use crate::error::OfficeHoursError;
use crate::model::{part_or_zero, TimeOfDay};

verus! {

/// A time of day without a date or a time zone, to the millisecond.
///
/// Every value is a valid time: the fields are private and each way to build
/// one checks them.
#[derive(Clone, Copy, Debug, PartialEq, Eq, Structural, Hash)]
pub struct NaiveTime {
    hour: u32,
    minute: u32,
    second: u32,
    millisecond: u32,
}

impl View for NaiveTime {
    type V = TimeOfDay;

    closed spec fn view(&self) -> TimeOfDay {
        TimeOfDay {
            hour: self.hour as nat,
            minute: self.minute as nat,
            second: self.second as nat,
            millisecond: self.millisecond as nat,
        }
    }
}

impl NaiveTime {
    /// What holds of every `NaiveTime` that a program can hold.
    #[verifier::type_invariant]
    pub open spec fn is_valid(self) -> bool {
        self@.is_valid()
    }

    /// Two times with the same view are the same time.
    pub proof fn lemma_view_is_injective(a: NaiveTime, b: NaiveTime)
        ensures
            (a@ == b@) == (a == b),
    {
    }

    /// The hour, 0 to 23.
    pub fn hour(&self) -> (hour: u32)
        ensures
            hour == self@.hour,
            hour <= 23,
    {
        proof {
            use_type_invariant(self);
        }
        self.hour
    }

    /// The minute, 0 to 59.
    pub fn minute(&self) -> (minute: u32)
        ensures
            minute == self@.minute,
            minute <= 59,
    {
        proof {
            use_type_invariant(self);
        }
        self.minute
    }

    /// The second, 0 to 59.
    pub fn second(&self) -> (second: u32)
        ensures
            second == self@.second,
            second <= 59,
    {
        proof {
            use_type_invariant(self);
        }
        self.second
    }

    /// The millisecond, 0 to 999.
    pub fn millisecond(&self) -> (millisecond: u32)
        ensures
            millisecond == self@.millisecond,
            millisecond <= 999,
    {
        proof {
            use_type_invariant(self);
        }
        self.millisecond
    }

    /// The time exactly one hour later, for a time before hour 23.
    pub(crate) fn hour_later(&self) -> (later: NaiveTime)
        requires
            self@.hour < 23,
        ensures
            later@ == (TimeOfDay { hour: self@.hour + 1, ..self@ }),
    {
        proof {
            use_type_invariant(self);
        }
        NaiveTime { hour: self.hour + 1, ..*self }
    }
}

impl PartialOrd for NaiveTime {
    /// The order of the day: by hour, then minute, then second, then
    /// millisecond.
    fn partial_cmp(&self, other: &NaiveTime) -> (order: Option<Ordering>) {
        let earlier: bool = if self.hour != other.hour {
            self.hour < other.hour
        } else if self.minute != other.minute {
            self.minute < other.minute
        } else if self.second != other.second {
            self.second < other.second
        } else if self.millisecond != other.millisecond {
            self.millisecond < other.millisecond
        } else {
            return Some(Ordering::Equal);
        };
        if earlier {
            Some(Ordering::Less)
        } else {
            Some(Ordering::Greater)
        }
    }
}

impl PartialOrdSpecImpl for NaiveTime {
    open spec fn obeys_partial_cmp_spec() -> bool {
        true
    }

    open spec fn partial_cmp_spec(&self, other: &NaiveTime) -> Option<Ordering> {
        if self@.lt(other@) {
            Some(Ordering::Less)
        } else if other@.lt(self@) {
            Some(Ordering::Greater)
        } else {
            Some(Ordering::Equal)
        }
    }
}

impl Default for NaiveTime {
    /// Midnight, `00:00:00.000`.
    fn default() -> (time: NaiveTime)
        ensures
            time@ == TimeOfDay::midnight(),
    {
        NaiveTime { hour: 0, minute: 0, second: 0, millisecond: 0 }
    }
}

/// The part of `slice` at position `i`, or 0 where the slice is too short.
fn part_at(slice: &[u32], i: usize) -> (part: u32)
    ensures
        part == part_or_zero(slice@, i as int),
{
    if i < slice.len() {
        slice[i]
    } else {
        0
    }
}

/// Ways to build a [`NaiveTime`].
pub trait FromNaiveTime {
    /// Makes a time out of `[hour, minute, second, millisecond]` or a prefix
    /// of it. A missing part is 0, so the empty slice is midnight.
    ///
    /// Fails when there are more than four parts or a part is out of range:
    /// an hour over 23, a minute or second over 59, a millisecond over 999.
    /// The error holds a copy of the slice.
    fn from_slice_u32(slice: &[u32]) -> (made: Result<NaiveTime, OfficeHoursError>)
        ensures
            match made {
                Ok(time) => TimeOfDay::from_parts(slice@) == Some(time@),
                Err(error) => TimeOfDay::from_parts(slice@) is None && error@ == slice@,
            },
    ;

    /// Makes the time at which the named hour begins. Never fails.
    fn from_time(time: Clock) -> (made: NaiveTime)
        ensures
            made@ == TimeOfDay::on_the_hour(time.hour_number()),
    ;

    /// Makes the time at which hour `hour` begins, or nothing where `hour`
    /// is over 23.
    fn from_time_u32(hour: u32) -> (made: Option<NaiveTime>)
        ensures
            match made {
                Some(time) => hour <= 23 && time@ == TimeOfDay::on_the_hour(hour as nat),
                None => hour > 23,
            },
    ;
}

impl FromNaiveTime for NaiveTime {
    fn from_slice_u32(slice: &[u32]) -> (made: Result<NaiveTime, OfficeHoursError>) {
        let hour: u32 = part_at(slice, 0);
        let minute: u32 = part_at(slice, 1);
        let second: u32 = part_at(slice, 2);
        let millisecond: u32 = part_at(slice, 3);
        if slice.len() <= 4 && hour <= 23 && minute <= 59 && second <= 59 && millisecond <= 999 {
            Ok(NaiveTime { hour, minute, second, millisecond })
        } else {
            Err(OfficeHoursError::InvalidTimeSlice(slice_to_vec(slice)))
        }
    }

    fn from_time(time: Clock) -> (made: NaiveTime) {
        NaiveTime { hour: time.hour(), minute: 0, second: 0, millisecond: 0 }
    }

    fn from_time_u32(hour: u32) -> (made: Option<NaiveTime>) {
        if hour <= 23 {
            Some(NaiveTime { hour, minute: 0, second: 0, millisecond: 0 })
        } else {
            None
        }
    }
}

} // verus!
