//! What holds of times, windows and their enumeration, for all of them.

use vstd::prelude::*;
use crate::hours::OfficeHours;
use crate::iter::OfficeHoursIter;
use crate::model::{greatest_part, millis_round_the_dial, part_or_zero, TimeOfDay, Window};

verus! {

/// At most four parts, each in its range, always denote a time: the one
/// whose fields are the parts, with 0 for each part that is missing.
pub proof fn lemma_parts_in_range_denote_a_time(parts: Seq<u32>)
    requires
        parts.len() <= 4,
        forall|i: int| 0 <= i < parts.len() ==> parts[i] <= greatest_part(i),
    ensures
        TimeOfDay::from_parts(parts) == Some(
            TimeOfDay {
                hour: part_or_zero(parts, 0),
                minute: part_or_zero(parts, 1),
                second: part_or_zero(parts, 2),
                millisecond: part_or_zero(parts, 3),
            },
        ),
        TimeOfDay::from_parts(parts)->0.is_valid(),
{
    assert(part_or_zero(parts, 0) <= greatest_part(0));
    assert(part_or_zero(parts, 1) <= greatest_part(1));
    assert(part_or_zero(parts, 2) <= greatest_part(2));
    assert(part_or_zero(parts, 3) <= greatest_part(3));
}

/// Parts of which one is out of its range denote no time.
pub proof fn lemma_part_out_of_range_denotes_no_time(parts: Seq<u32>, i: int)
    requires
        0 <= i < parts.len(),
        i < 4,
        parts[i] > greatest_part(i),
    ensures
        TimeOfDay::from_parts(parts) is None,
{
}

/// More than four parts denote no time.
pub proof fn lemma_too_many_parts_denote_no_time(parts: Seq<u32>)
    requires
        parts.len() > 4,
    ensures
        TimeOfDay::from_parts(parts) is None,
{
}

/// No parts at all denote midnight.
pub proof fn lemma_no_parts_denote_midnight()
    ensures
        TimeOfDay::from_parts(Seq::<u32>::empty()) == Some(TimeOfDay::midnight()),
{
}

/// "Earlier" is a strict total order of the times of day.
pub proof fn lemma_lt_is_a_strict_total_order(a: TimeOfDay, b: TimeOfDay, c: TimeOfDay)
    ensures
        !a.lt(a),
        a.lt(b) && b.lt(c) ==> a.lt(c),
        a.lt(b) || a == b || b.lt(a),
        !(a.lt(b) && b.lt(a)),
{
}

/// Of two valid times, the earlier is the one with fewer milliseconds since
/// midnight.
pub proof fn lemma_lt_counts_milliseconds(a: TimeOfDay, b: TimeOfDay)
    requires
        a.is_valid(),
        b.is_valid(),
    ensures
        a.lt(b) <==> a.millis_since_midnight() < b.millis_since_midnight(),
        a.millis_since_midnight() < 86_400_000,
{
}

/// A window with equal bounds holds exactly one instant: its start.
pub proof fn lemma_window_of_one_instant(w: Window, instant: TimeOfDay)
    requires
        w.start == w.finish,
    ensures
        w.contains(instant) <==> instant == w.start,
{
}

/// The start of a window with distinct bounds is inside it and the finish
/// is outside, whether or not the window crosses midnight.
pub proof fn lemma_start_is_inside_finish_is_outside(w: Window)
    requires
        w.start != w.finish,
    ensures
        w.contains(w.start),
        !w.contains(w.finish),
{
}

/// With distinct bounds, the window from `finish` to `start` holds exactly
/// the instants that the window from `start` to `finish` does not.
pub proof fn lemma_reversed_window_is_the_complement(w: Window, instant: TimeOfDay)
    requires
        w.start != w.finish,
    ensures
        (Window { start: w.finish, finish: w.start }).contains(instant) <==> !w.contains(instant),
{
}

/// The way round the dial is the difference of the two times, taken modulo
/// the milliseconds of a day.
pub proof fn lemma_millis_round_the_dial(from: TimeOfDay, to: TimeOfDay)
    requires
        from.is_valid(),
        to.is_valid(),
    ensures
        0 <= millis_round_the_dial(from, to) < 86_400_000,
        millis_round_the_dial(from, to) == (to.millis_since_midnight()
            - from.millis_since_midnight()) % 86_400_000,
{
    lemma_lt_counts_milliseconds(from, to);
    lemma_lt_counts_milliseconds(to, from);
    let ahead = to.millis_since_midnight() - from.millis_since_midnight();
    if ahead >= 0 {
        assert(ahead % 86_400_000 == ahead) by (nonlinear_arith)
            requires
                0 <= ahead < 86_400_000,
        ;
    } else {
        assert(ahead % 86_400_000 == ahead + 86_400_000) by (nonlinear_arith)
            requires
                -86_400_000 < ahead < 0,
        ;
    }
}

/// A window with distinct bounds is an arc of the 24-hour dial: it holds the
/// instants that come, going round from `start`, before `finish` does.
pub proof fn lemma_window_is_an_arc_of_the_day(w: Window, instant: TimeOfDay)
    requires
        w.is_valid(),
        instant.is_valid(),
        w.start != w.finish,
    ensures
        w.contains(instant) <==> millis_round_the_dial(w.start, instant) < millis_round_the_dial(
            w.start,
            w.finish,
        ),
{
    lemma_lt_counts_milliseconds(w.start, w.finish);
    lemma_lt_counts_milliseconds(w.start, instant);
    lemma_lt_counts_milliseconds(instant, w.finish);
    lemma_lt_is_a_strict_total_order(w.start, w.finish, instant);
}

/// A window with equal bounds enumerates nothing, although it holds one
/// instant.
pub proof fn lemma_empty_enumeration(w: Window)
    requires
        w.start == w.finish,
    ensures
        w.is_enumerable(),
        w.span() == 0,
        w.hours() == Seq::<u32>::empty(),
        w.ticks() == Seq::<TimeOfDay>::empty(),
        forall|n: nat| w.nth_tick(n) is None,
{
    assert(w.hours() =~= Seq::<u32>::empty());
    assert(w.ticks() =~= Seq::<TimeOfDay>::empty());
}

/// The enumeration of a window with distinct bounds is the hour of its
/// start, then the enumeration of what is left after one step.
pub proof fn lemma_enumeration_unfolds(w: Window)
    requires
        w.is_valid(),
        w.is_enumerable(),
        w.start != w.finish,
    ensures
        w.after_tick().is_valid(),
        w.after_tick().is_enumerable(),
        w.after_tick().span() + 1 == w.span(),
        w.hours() == seq![w.start.hour as u32] + w.after_tick().hours(),
        w.ticks() == seq![w.start.truncated()] + w.after_tick().ticks(),
{
    let rest = w.after_tick();
    assert forall|i: int| 0 <= i < rest.span() implies rest.hour_at(i) == w.hour_at(i + 1) by {
    }
    assert(w.hours() =~= seq![w.start.hour as u32] + rest.hours());
    assert(w.ticks() =~= seq![w.start.truncated()] + rest.ticks());
}

/// An enumerable window enumerates at most 47 hours, and at most 23 where
/// its start is a whole hour.
pub proof fn lemma_span_is_bounded(w: Window)
    requires
        w.is_valid(),
        w.is_enumerable(),
    ensures
        w.span() <= 47,
        w.start.is_whole_hour() ==> w.span() <= 23,
        w.hours().len() == w.span(),
        w.ticks().len() == w.span(),
{
}

/// The hour numbers that a window enumerates are the hours of the whole hours
/// that it enumerates.
pub proof fn lemma_hours_are_the_hours_of_ticks(w: Window, i: int)
    requires
        0 <= i < w.span(),
    ensures
        w.hours().len() == w.ticks().len(),
        w.hours()[i] == w.ticks()[i].hour,
        w.ticks()[i].is_whole_hour(),
        w.ticks()[i].is_valid(),
{
}

/// Driving a cursor over an enumerable window yields the whole hours of
/// [`Window::ticks`] one by one, then nothing, however often it is asked
/// again.
pub proof fn lemma_nth_tick_is_the_nth_of_ticks(w: Window, n: nat)
    requires
        w.is_valid(),
        w.is_enumerable(),
    ensures
        w.nth_tick(n) == if n < w.span() {
            Some(w.ticks()[n as int])
        } else {
            None
        },
    decreases n,
{
    if w.start == w.finish {
        lemma_empty_enumeration(w);
    } else {
        lemma_enumeration_unfolds(w);
        if n > 0 {
            lemma_nth_tick_is_the_nth_of_ticks(w.after_tick(), (n - 1) as nat);
        }
    }
}

/// The cursor of an enumerable window stands on the finish after
/// [`Window::span`] steps and not before, and in hour
/// [`Window::hour_at`]`(i)` after `i` of them.
pub proof fn lemma_cursor_meets_finish(w: Window)
    requires
        w.is_valid(),
        w.is_enumerable(),
    ensures
        w.start.after_ticks(w.span()) == w.finish,
        forall|i: nat|
            i < w.span() ==> {
                &&& #[trigger] w.start.after_ticks(i) != w.finish
                &&& w.start.after_ticks(i).hour == w.hour_at(i as int)
            },
    decreases w.span(),
{
    if w.start != w.finish {
        let rest = w.after_tick();
        lemma_enumeration_unfolds(w);
        lemma_cursor_meets_finish(rest);
        assert forall|i: nat| i < w.span() implies {
            &&& #[trigger] w.start.after_ticks(i) != w.finish
            &&& w.start.after_ticks(i).hour == w.hour_at(i as int)
        } by {
            if i > 0 {
                let j = (i - 1) as nat;
                assert(w.start.after_ticks(i) == rest.start.after_ticks(j));
            }
        }
    }
}

/// The cursor of a window that is not enumerable never stands on the
/// finish: its enumeration has no end.
pub proof fn lemma_cursor_never_meets_finish(w: Window, n: nat)
    requires
        w.is_valid(),
        !w.is_enumerable(),
    ensures
        w.start.after_ticks(n) != w.finish,
        w.nth_tick(n) is Some,
    decreases n,
{
    if n > 0 {
        lemma_cursor_never_meets_finish(w.after_tick(), (n - 1) as nat);
    }
}

/// Every hour that a window enumerates lies in the window, where the window
/// starts on a whole hour.
pub proof fn lemma_ticks_lie_in_the_window(w: Window, i: int)
    requires
        w.is_valid(),
        w.is_enumerable(),
        w.start.is_whole_hour(),
        0 <= i < w.span(),
    ensures
        w.contains(w.ticks()[i]),
{
}

/// A window can be enumerated again and again: two cursors over one window
/// yield the same item at every call, whatever has been done with the other
/// in between, and for an enumerable window that item is the one of
/// [`Window::ticks`].
pub proof fn lemma_cursors_over_one_window_agree(
    hours: OfficeHours,
    first: OfficeHoursIter,
    second: OfficeHoursIter,
    n: nat,
)
    requires
        first@ == hours@,
        second@ == hours@,
    ensures
        first@.nth_tick(n) == second@.nth_tick(n),
        hours@.is_valid() && hours@.is_enumerable() ==> first@.nth_tick(n) == if n
            < hours@.span() {
            Some(hours@.ticks()[n as int])
        } else {
            None
        },
{
    if hours@.is_valid() && hours@.is_enumerable() {
        lemma_nth_tick_is_the_nth_of_ticks(hours@, n);
    }
}

} // verus!
