use office_hours::{Clock, FromNaiveTime, NaiveTime, OfficeHours};

fn window(start: &[u32], finish: &[u32]) -> OfficeHours {
    OfficeHours::try_from((start, finish)).unwrap()
}

fn collect_ticks(office_hours: &OfficeHours) -> Vec<NaiveTime> {
    let mut ticks = office_hours.iter();
    let mut seen = Vec::new();
    while let Some(tick) = ticks.next() {
        seen.push(tick);
    }
    assert_eq!(ticks.next(), None);
    seen
}

fn collect_hours(office_hours: &OfficeHours) -> Vec<u32> {
    let mut hours = office_hours.hours_iter();
    let mut seen = Vec::new();
    while let Some(hour) = hours.next() {
        seen.push(hour);
    }
    assert_eq!(hours.next(), None);
    seen
}

#[test]
fn default_window_has_eight_hours() {
    let office_hours = OfficeHours::default();
    assert!(office_hours.is_enumerable());
    assert_eq!(office_hours.hours(), vec![9, 10, 11, 12, 13, 14, 15, 16]);
    assert_eq!(office_hours.checked_hours(), Some(vec![9, 10, 11, 12, 13, 14, 15, 16]));
    assert_eq!(collect_hours(&office_hours), vec![9, 10, 11, 12, 13, 14, 15, 16]);
}

#[test]
fn night_shift_wraps_from_23_to_0() {
    let night_shift = OfficeHours::new(Clock::TenPm, Clock::FiveAm);
    assert!(night_shift.is_enumerable());
    assert_eq!(night_shift.hours(), vec![22, 23, 0, 1, 2, 3, 4]);
    assert_eq!(collect_hours(&night_shift), vec![22, 23, 0, 1, 2, 3, 4]);
}

#[test]
fn ticks_are_whole_hours() {
    let night_shift = OfficeHours::new(Clock::TenPm, Clock::OneAm);
    let expected: Vec<NaiveTime> =
        [22, 23, 0].iter().map(|hour| NaiveTime::from_time_u32(*hour).unwrap()).collect();
    assert_eq!(collect_ticks(&night_shift), expected);

    let off_the_hour = window(&[9, 30, 15, 250], &[11, 30, 15, 250]);
    let expected: Vec<NaiveTime> =
        [9, 10].iter().map(|hour| NaiveTime::from_time_u32(*hour).unwrap()).collect();
    assert_eq!(collect_ticks(&off_the_hour), expected);
}

#[test]
fn equal_bounds_enumerate_nothing() {
    let noon = OfficeHours::new(Clock::TwelvePm, Clock::TwelvePm);
    assert!(noon.is_enumerable());
    assert_eq!(noon.hours(), Vec::<u32>::new());
    assert_eq!(noon.iter().next(), None);
    assert_eq!(noon.hours_iter().next(), None);

    let off_the_hour = window(&[7, 15, 30, 500], &[7, 15, 30, 500]);
    assert_eq!(off_the_hour.checked_hours(), Some(vec![]));
    assert_eq!(off_the_hour.iter().next(), None);
}

#[test]
fn a_window_enumerates_the_same_every_time() {
    let office_hours = OfficeHours::new(Clock::TenPm, Clock::FiveAm);
    let first = collect_ticks(&office_hours);
    let second = collect_ticks(&office_hours);
    assert_eq!(first, second);
    assert_eq!(first.len(), 7);
    assert_eq!(office_hours.hours(), office_hours.hours());
    assert_eq!(office_hours, OfficeHours::new(Clock::TenPm, Clock::FiveAm));
}

#[test]
fn cursors_do_not_share_their_place() {
    let office_hours = OfficeHours::default();
    let mut first = office_hours.iter();
    assert_eq!(first.next(), NaiveTime::from_time_u32(9));
    assert_eq!(first.next(), NaiveTime::from_time_u32(10));
    let mut second = office_hours.iter();
    assert_eq!(second.next(), NaiveTime::from_time_u32(9));
    assert_eq!(first.next(), NaiveTime::from_time_u32(11));
    assert_eq!(second.next(), NaiveTime::from_time_u32(10));
}

#[test]
fn exhausted_cursor_stays_exhausted() {
    let office_hours = OfficeHours::new(Clock::NineAm, Clock::TenAm);
    let mut ticks = office_hours.iter();
    assert_eq!(ticks.next(), NaiveTime::from_time_u32(9));
    assert_eq!(ticks.next(), None);
    assert_eq!(ticks.next(), None);
}

#[test]
fn longest_window_on_whole_hours_has_23_hours() {
    let office_hours = OfficeHours::new(Clock::TwelveAm, Clock::ElevenPm);
    assert_eq!(office_hours.hours(), (0..23).collect::<Vec<u32>>());
    let office_hours = OfficeHours::new(Clock::OneAm, Clock::TwelveAm);
    assert_eq!(office_hours.hours(), (1..24).collect::<Vec<u32>>());
}

#[test]
fn bounds_the_same_way_past_the_hour_meet_before_midnight() {
    let office_hours = window(&[9, 30], &[17, 30]);
    assert!(office_hours.is_enumerable());
    assert_eq!(office_hours.hours(), vec![9, 10, 11, 12, 13, 14, 15, 16]);
}

#[test]
fn cursor_stands_on_whole_hours_after_midnight() {
    let office_hours = window(&[22, 30], &[2]);
    assert!(office_hours.is_enumerable());
    assert_eq!(office_hours.hours(), vec![22, 23, 0, 1]);

    let office_hours = window(&[0, 30], &[23]);
    let mut expected: Vec<u32> = (0..24).collect();
    expected.extend(0..23);
    assert_eq!(expected.len(), 47);
    assert_eq!(office_hours.checked_hours(), Some(expected));
}

#[test]
fn finish_that_the_cursor_never_meets_has_no_enumeration() {
    let across_midnight = window(&[22, 30], &[1, 30]);
    assert!(!across_midnight.is_enumerable());
    assert_eq!(across_midnight.checked_hours(), None);

    let off_the_hour = window(&[9], &[17, 30]);
    assert!(!off_the_hour.is_enumerable());
    assert_eq!(off_the_hour.checked_hours(), None);

    let mut hours = off_the_hour.hours_iter();
    for turn in 0..100u32 {
        assert_eq!(hours.next(), Some((9 + turn) % 24));
    }
}
