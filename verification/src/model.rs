//! The mathematical model: times of day and daily windows.
//!
//! Nothing here is executable. The contracts of the executable types are
//! stated over these two types, which are their views.

use vstd::prelude::*;

verus! {

/// A time of day as four numbers: the view of a [`crate::NaiveTime`].
pub struct TimeOfDay {
    pub hour: nat,
    pub minute: nat,
    pub second: nat,
    pub millisecond: nat,
}

/// The greatest value that the part at position `i` of `[hour, minute,
/// second, millisecond]` may have.
pub open spec fn greatest_part(i: int) -> nat {
    if i == 0 {
        23
    } else if i == 3 {
        999
    } else {
        59
    }
}

/// The part at position `i` of a partial `[hour, minute, second,
/// millisecond]` sequence; a missing part counts as 0.
pub open spec fn part_or_zero(parts: Seq<u32>, i: int) -> nat {
    if 0 <= i < parts.len() {
        parts[i] as nat
    } else {
        0
    }
}

impl TimeOfDay {
    /// Each field is in the range of a 24-hour clock with milliseconds.
    pub open spec fn is_valid(self) -> bool {
        &&& self.hour <= 23
        &&& self.minute <= 59
        &&& self.second <= 59
        &&& self.millisecond <= 999
    }

    /// The time `hour:00:00.000`.
    pub open spec fn on_the_hour(hour: nat) -> TimeOfDay {
        TimeOfDay { hour, minute: 0, second: 0, millisecond: 0 }
    }

    /// The time `00:00:00.000`.
    pub open spec fn midnight() -> TimeOfDay {
        TimeOfDay::on_the_hour(0)
    }

    /// The time that a partial sequence of parts denotes, if it denotes one:
    /// at most four parts, each in range, the missing ones taken as 0.
    pub open spec fn from_parts(parts: Seq<u32>) -> Option<TimeOfDay> {
        let time = TimeOfDay {
            hour: part_or_zero(parts, 0),
            minute: part_or_zero(parts, 1),
            second: part_or_zero(parts, 2),
            millisecond: part_or_zero(parts, 3),
        };
        if parts.len() <= 4 && time.is_valid() {
            Some(time)
        } else {
            None
        }
    }

    /// Minute, second and millisecond are all 0.
    pub open spec fn is_whole_hour(self) -> bool {
        self.minute == 0 && self.second == 0 && self.millisecond == 0
    }

    /// The two times are the same distance into their hours.
    pub open spec fn same_past_the_hour(self, other: TimeOfDay) -> bool {
        &&& self.minute == other.minute
        &&& self.second == other.second
        &&& self.millisecond == other.millisecond
    }

    /// The time with minute, second and millisecond set to 0.
    pub open spec fn truncated(self) -> TimeOfDay {
        TimeOfDay::on_the_hour(self.hour)
    }

    /// Strictly earlier in the day: the order of `(hour, minute, second,
    /// millisecond)`, compared field by field from the left.
    pub open spec fn lt(self, other: TimeOfDay) -> bool {
        ||| self.hour < other.hour
        ||| self.hour == other.hour && self.minute < other.minute
        ||| self.hour == other.hour && self.minute == other.minute && self.second < other.second
        ||| self.hour == other.hour && self.minute == other.minute && self.second == other.second
            && self.millisecond < other.millisecond
    }

    /// Earlier in the day or the same time.
    pub open spec fn le(self, other: TimeOfDay) -> bool {
        self == other || self.lt(other)
    }

    /// Milliseconds since `00:00:00.000`.
    pub open spec fn millis_since_midnight(self) -> nat {
        ((self.hour * 60 + self.minute) * 60 + self.second) * 1000 + self.millisecond
    }

    /// Where an hourly cursor stands one step after `self`: a cursor in hour
    /// 23 goes to midnight, any other goes on by exactly one hour.
    pub open spec fn next_tick(self) -> TimeOfDay {
        if self.hour >= 23 {
            TimeOfDay::midnight()
        } else {
            TimeOfDay { hour: self.hour + 1, ..self }
        }
    }

    /// Where an hourly cursor stands `n` steps after `self`.
    pub open spec fn after_ticks(self, n: nat) -> TimeOfDay
        decreases n,
    {
        if n == 0 {
            self
        } else {
            self.next_tick().after_ticks((n - 1) as nat)
        }
    }
}

/// How far round the 24-hour dial it is from `from` to `to`, in
/// milliseconds: to an earlier time the way leads past midnight.
pub open spec fn millis_round_the_dial(from: TimeOfDay, to: TimeOfDay) -> int {
    let ahead = to.millis_since_midnight() - from.millis_since_midnight();
    if ahead >= 0 {
        ahead
    } else {
        ahead + 86_400_000
    }
}

/// A daily window from `start` to `finish`: the view of a
/// [`crate::OfficeHours`], and of a cursor over one.
pub struct Window {
    pub start: TimeOfDay,
    pub finish: TimeOfDay,
}

impl Window {
    /// Both bounds are valid times of day.
    pub open spec fn is_valid(self) -> bool {
        self.start.is_valid() && self.finish.is_valid()
    }

    /// Whether `instant` lies in the window.
    ///
    /// `start` is inside and `finish` is outside. A window whose finish is
    /// earlier than its start crosses midnight. A window whose bounds are
    /// equal holds that one instant and no other.
    pub open spec fn contains(self, instant: TimeOfDay) -> bool {
        if self.start == self.finish {
            instant == self.start
        } else if self.start.lt(self.finish) {
            self.start.le(instant) && instant.lt(self.finish)
        } else {
            self.start.le(instant) || instant.lt(self.finish)
        }
    }

    /// The window that is left once a cursor has stepped past `start`.
    pub open spec fn after_tick(self) -> Window {
        Window { start: self.start.next_tick(), finish: self.finish }
    }

    /// An hourly cursor that sets out from `start` meets `finish`.
    ///
    /// Before midnight the cursor keeps the minute, second and millisecond of
    /// `start`; from midnight on it stands on whole hours. So it meets
    /// `finish` on the way to midnight, or `finish` is a whole hour.
    pub open spec fn is_enumerable(self) -> bool {
        self.meets_before_midnight() || self.finish.is_whole_hour()
    }

    /// The cursor meets `finish` before it first passes midnight.
    pub open spec fn meets_before_midnight(self) -> bool {
        self.start.same_past_the_hour(self.finish) && self.start.hour <= self.finish.hour
    }

    /// The number of steps after which the cursor of an enumerable window
    /// meets `finish`: the number of hours that the window enumerates.
    pub open spec fn span(self) -> nat {
        if self.meets_before_midnight() {
            (self.finish.hour - self.start.hour) as nat
        } else {
            (24 - self.start.hour + self.finish.hour) as nat
        }
    }

    /// What the call number `n`, counted from 0, yields to one who drives a
    /// cursor over this window: the whole hour in which the cursor then
    /// stands, or nothing once it stands on `finish`.
    pub open spec fn nth_tick(self, n: nat) -> Option<TimeOfDay>
        decreases n,
    {
        if self.start == self.finish {
            None
        } else if n == 0 {
            Some(self.start.truncated())
        } else {
            self.after_tick().nth_tick((n - 1) as nat)
        }
    }

    /// The hour number of the enumeration at position `i`.
    pub open spec fn hour_at(self, i: int) -> u32 {
        ((self.start.hour + i) % 24) as u32
    }

    /// The hour numbers that an enumerable window enumerates, in order.
    pub open spec fn hours(self) -> Seq<u32> {
        Seq::new(self.span(), |i: int| self.hour_at(i))
    }

    /// The whole hours that an enumerable window enumerates, in order.
    pub open spec fn ticks(self) -> Seq<TimeOfDay> {
        Seq::new(self.span(), |i: int| TimeOfDay::on_the_hour(self.hour_at(i) as nat))
    }
}

} // verus!
