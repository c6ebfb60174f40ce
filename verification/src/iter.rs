//! Hour-by-hour enumeration of a window.
//!
//! A cursor sets out from the window's start and steps until it stands on
//! the window's finish. At each step it yields the hour it stands in and
//! moves on: from hour 23 to midnight, from any other hour by exactly one
//! hour. A window with equal bounds therefore enumerates nothing, although
//! it holds one instant.
//!
//! A cursor stands on `start`'s minute, second and millisecond until it
//! first passes midnight, and on whole hours from then on. Where `finish`
//! is neither, the cursor never meets it and the enumeration has no end:
//! [`Window::is_enumerable`] says when it has one.

use vstd::prelude::*;
use crate::hours::OfficeHours;
use crate::laws::{lemma_empty_enumeration, lemma_enumeration_unfolds};
use crate::model::Window;
use crate::time::{FromNaiveTime, NaiveTime};

verus! {

/// A cursor over the whole hours of an [`OfficeHours`].
///
/// Its view is the window that is left to enumerate: from where the cursor
/// stands to the finish.
pub struct OfficeHoursIter {
    start: NaiveTime,
    finish: NaiveTime,
}

impl View for OfficeHoursIter {
    type V = Window;

    closed spec fn view(&self) -> Window {
        Window { start: self.start@, finish: self.finish@ }
    }
}

impl OfficeHoursIter {
    /// Yields the whole hour in which the cursor stands and steps on, or
    /// yields nothing, and stays, where the cursor stands on the finish.
    pub fn next(&mut self) -> (tick: Option<NaiveTime>)
        ensures
            final(self)@.is_valid(),
            old(self)@.start == old(self)@.finish ==> tick is None && final(self)@ == old(self)@,
            old(self)@.start != old(self)@.finish ==> {
                &&& tick matches Some(time)
                &&& time@ == old(self)@.start.truncated()
                &&& final(self)@ == old(self)@.after_tick()
            },
    {
        proof {
            NaiveTime::lemma_view_is_injective(self.start, self.finish);
            use_type_invariant(&self.start);
            use_type_invariant(&self.finish);
        }
        if self.start == self.finish {
            None
        } else {
            let hour: u32 = self.start.hour();
            let current_hour = NaiveTime::from_time_u32(hour).unwrap();
            self.start = if hour == 23 {
                NaiveTime::default()
            } else {
                self.start.hour_later()
            };
            Some(current_hour)
        }
    }
}

/// A cursor over the hour numbers of an [`OfficeHours`].
pub struct HoursIter {
    ticks: OfficeHoursIter,
}

impl View for HoursIter {
    type V = Window;

    closed spec fn view(&self) -> Window {
        self.ticks@
    }
}

impl HoursIter {
    /// Yields the number of the hour in which the cursor stands and steps
    /// on, or yields nothing, and stays, where the cursor stands on the
    /// finish.
    pub fn next(&mut self) -> (hour: Option<u32>)
        ensures
            final(self)@.is_valid(),
            old(self)@.start == old(self)@.finish ==> hour is None && final(self)@ == old(self)@,
            old(self)@.start != old(self)@.finish ==> {
                &&& hour == Some(old(self)@.start.hour as u32)
                &&& final(self)@ == old(self)@.after_tick()
            },
    {
        match self.ticks.next() {
            Some(time) => Some(time.hour()),
            None => None,
        }
    }
}

impl OfficeHours {
    /// A cursor over the whole hours of this window, set on its start.
    ///
    /// The window itself is not touched: each call gives a new cursor that
    /// begins at the start again.
    pub fn iter(&self) -> (cursor: OfficeHoursIter)
        ensures
            cursor@ == self@,
    {
        OfficeHoursIter { start: self.start, finish: self.finish }
    }

    /// A cursor over the hour numbers of this window, set on its start.
    pub fn hours_iter(&self) -> (cursor: HoursIter)
        ensures
            cursor@ == self@,
    {
        HoursIter { ticks: self.iter() }
    }

    /// Whether the enumeration of this window has an end.
    pub fn is_enumerable(&self) -> (finite: bool)
        ensures
            finite == self@.is_enumerable(),
    {
        let start = &self.start;
        let finish = &self.finish;
        let whole_hour: bool = finish.minute() == 0 && finish.second() == 0
            && finish.millisecond() == 0;
        let same_past_the_hour: bool = start.minute() == finish.minute()
            && start.second() == finish.second()
            && start.millisecond() == finish.millisecond();
        whole_hour || (same_past_the_hour && start.hour() <= finish.hour())
    }

    /// The hour numbers of this window, in order.
    ///
    /// The enumeration must have an end, see [`Window::is_enumerable`]: so
    /// it has for every window made by [`OfficeHours::new`] and by
    /// `default`. [`OfficeHours::checked_hours`] asks nothing.
    pub fn hours(&self) -> (hours: Vec<u32>)
        requires
            self@.is_enumerable(),
        ensures
            hours@ == self@.hours(),
    {
        let mut cursor = self.hours_iter();
        let mut hours: Vec<u32> = Vec::new();
        proof {
            use_type_invariant(&self.start);
            use_type_invariant(&self.finish);
        }
        loop
            invariant
                cursor@.is_valid(),
                cursor@.is_enumerable(),
                hours@ + cursor@.hours() == self@.hours(),
            ensures
                hours@ == self@.hours(),
            decreases cursor@.span(),
        {
            let ghost left = cursor@;
            proof {
                if left.start == left.finish {
                    lemma_empty_enumeration(left);
                } else {
                    lemma_enumeration_unfolds(left);
                }
            }
            match cursor.next() {
                Some(hour) => {
                    hours.push(hour);
                },
                None => {
                    break ;
                },
            }
        }
        hours
    }

    /// The hour numbers of this window, in order, or nothing where the
    /// enumeration has no end.
    pub fn checked_hours(&self) -> (hours: Option<Vec<u32>>)
        ensures
            match hours {
                Some(hours) => self@.is_enumerable() && hours@ == self@.hours(),
                None => !self@.is_enumerable(),
            },
    {
        if self.is_enumerable() {
            Some(self.hours())
        } else {
            None
        }
    }
}

} // verus!
