//! The daily window and the test whether an instant lies in it.

use vstd::prelude::*;
use crate::clock::Clock;
use crate::error::OfficeHoursError;
use crate::model::{TimeOfDay, Window};
use crate::time::{FromNaiveTime, NaiveTime};

verus! {

/// The start and the finish of the office day.
///
/// `start` is inside the window and `finish` is outside. Where `finish` is
/// earlier than `start` the window crosses midnight.
#[derive(Debug, PartialEq, Eq, Structural)]
pub struct OfficeHours {
    pub start: NaiveTime,
    pub finish: NaiveTime,
}

impl View for OfficeHours {
    type V = Window;

    open spec fn view(&self) -> Window {
        Window { start: self.start@, finish: self.finish@ }
    }
}

impl Default for OfficeHours {
    /// The default office hours are 9am to 5pm.
    fn default() -> (hours: OfficeHours)
        ensures
            hours@ == (Window {
                start: TimeOfDay::on_the_hour(9),
                finish: TimeOfDay::on_the_hour(17),
            }),
    {
        OfficeHours {
            start: NaiveTime::from_time(Clock::NineAm),
            finish: NaiveTime::from_time(Clock::FivePm),
        }
    }
}

impl OfficeHours {
    /// Makes the window from the hour `start` to the hour `finish`.
    pub fn new(start: Clock, finish: Clock) -> (hours: OfficeHours)
        ensures
            hours@ == (Window {
                start: TimeOfDay::on_the_hour(start.hour_number()),
                finish: TimeOfDay::on_the_hour(finish.hour_number()),
            }),
    {
        OfficeHours { start: NaiveTime::from_time(start), finish: NaiveTime::from_time(finish) }
    }

    /// Makes the window from two partial `[hour, minute, second,
    /// millisecond]` slices, `(start, finish)`.
    ///
    /// Fails where either slice denotes no time, with the error of the first
    /// that does not.
    pub fn try_from(office_hours: (&[u32], &[u32])) -> (made: Result<OfficeHours, OfficeHoursError>)
        ensures
            match made {
                Ok(hours) => {
                    &&& TimeOfDay::from_parts(office_hours.0@) == Some(hours@.start)
                    &&& TimeOfDay::from_parts(office_hours.1@) == Some(hours@.finish)
                },
                Err(error) => if TimeOfDay::from_parts(office_hours.0@) is None {
                    error@ == office_hours.0@
                } else {
                    TimeOfDay::from_parts(office_hours.1@) is None && error@ == office_hours.1@
                },
            },
    {
        let (start, finish) = office_hours;
        let start = match NaiveTime::from_slice_u32(start) {
            Ok(time) => time,
            Err(error) => {
                return Err(error);
            },
        };
        let finish = match NaiveTime::from_slice_u32(finish) {
            Ok(time) => time,
            Err(error) => {
                return Err(error);
            },
        };
        Ok(OfficeHours { start, finish })
    }

    /// Whether the instant `now` lies in the window from `start` to `finish`.
    ///
    /// With `start` earlier than `finish`: `start <= now < finish`. With
    /// `start` later than `finish` the window crosses midnight: `now >=
    /// start` or `now < finish`. With `start` equal to `finish` only that one
    /// instant is inside.
    pub fn now_from_time(start: &NaiveTime, finish: &NaiveTime, now: &NaiveTime) -> (inside: bool)
        ensures
            inside == (Window { start: start@, finish: finish@ }).contains(now@),
    {
        proof {
            NaiveTime::lemma_view_is_injective(*start, *finish);
            NaiveTime::lemma_view_is_injective(*start, *now);
        }
        if *start == *finish {
            *start == *now
        } else if *start < *finish {
            *start <= *now && *now < *finish
        } else {
            *now >= *start || *now < *finish
        }
    }

    /// Whether the instant `now` is within these office hours.
    ///
    /// The caller reads the clock and hands the time of day in, so that the
    /// answer is a function of the window and the instant alone.
    pub fn now(&self, now: &NaiveTime) -> (inside: bool)
        ensures
            inside == self@.contains(now@),
    {
        OfficeHours::now_from_time(&self.start, &self.finish, now)
    }
}

} // verus!
