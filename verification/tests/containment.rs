use office_hours::{Clock, FromNaiveTime, NaiveTime, OfficeHours};

fn time(parts: &[u32]) -> NaiveTime {
    NaiveTime::from_slice_u32(parts).unwrap()
}

fn inside(office_hours: &OfficeHours, parts: &[u32]) -> bool {
    let now = time(parts);
    let answer = OfficeHours::now_from_time(&office_hours.start, &office_hours.finish, &now);
    assert_eq!(answer, office_hours.now(&now));
    answer
}

#[test]
fn equal_bounds_hold_one_instant() {
    let noon = OfficeHours::new(Clock::TwelvePm, Clock::TwelvePm);
    assert!(inside(&noon, &[12, 0, 0, 0]));
    assert!(!inside(&noon, &[12, 0, 0, 1]));
    assert!(!inside(&noon, &[11, 59, 59, 999]));
    assert!(!inside(&noon, &[0]));
    assert!(!inside(&noon, &[23, 59, 59, 999]));
}

#[test]
fn equal_bounds_off_the_hour_hold_one_instant() {
    let bound: &[u32] = &[7, 15, 30, 500];
    let window = OfficeHours::try_from((bound, bound)).unwrap();
    assert!(inside(&window, &[7, 15, 30, 500]));
    assert!(!inside(&window, &[7, 15, 30, 499]));
    assert!(!inside(&window, &[7, 15, 30, 501]));
    assert!(!inside(&window, &[7, 15, 30]));
}

#[test]
fn nine_to_five_has_its_start_and_not_its_finish() {
    let window = OfficeHours::new(Clock::NineAm, Clock::FivePm);
    assert!(inside(&window, &[9, 0, 0, 0]));
    assert!(inside(&window, &[16, 59, 59, 999]));
    assert!(!inside(&window, &[17, 0, 0, 0]));
    assert!(!inside(&window, &[8, 59, 59, 999]));
    assert!(inside(&window, &[12]));
    assert!(!inside(&window, &[0]));
    assert!(!inside(&window, &[23, 59, 59, 999]));
}

#[test]
fn eight_pm_to_four_am_crosses_midnight() {
    let window = OfficeHours::new(Clock::EightPm, Clock::FourAm);
    assert!(inside(&window, &[23, 0, 0, 0]));
    assert!(inside(&window, &[3, 59, 59, 999]));
    assert!(!inside(&window, &[4, 0, 0, 0]));
    assert!(!inside(&window, &[12, 0, 0, 0]));
    assert!(inside(&window, &[20, 0, 0, 0]));
    assert!(!inside(&window, &[19, 59, 59, 999]));
    assert!(inside(&window, &[23, 59, 59, 999]));
    assert!(inside(&window, &[0, 0, 0, 0]));
}

#[test]
fn bounds_off_the_hour_are_kept_to_the_millisecond() {
    let start: &[u32] = &[9, 30, 0, 500];
    let finish: &[u32] = &[17, 30, 0, 500];
    let window = OfficeHours::try_from((start, finish)).unwrap();
    assert!(inside(&window, &[9, 30, 0, 500]));
    assert!(!inside(&window, &[9, 30, 0, 499]));
    assert!(inside(&window, &[17, 30, 0, 499]));
    assert!(!inside(&window, &[17, 30, 0, 500]));
}

#[test]
fn reversed_window_is_the_complement() {
    let day = OfficeHours::new(Clock::NineAm, Clock::FivePm);
    let night = OfficeHours::new(Clock::FivePm, Clock::NineAm);
    for hour in 0..24 {
        for rest in [[0, 0, 0], [0, 0, 1], [30, 0, 0], [59, 59, 999]] {
            let now = [hour, rest[0], rest[1], rest[2]];
            assert_ne!(inside(&day, &now), inside(&night, &now));
        }
    }
}

#[test]
fn every_enumerated_hour_is_inside() {
    let windows = [
        OfficeHours::default(),
        OfficeHours::new(Clock::TenPm, Clock::FiveAm),
        OfficeHours::new(Clock::TwelveAm, Clock::ElevenPm),
        OfficeHours::new(Clock::ElevenPm, Clock::TwelveAm),
    ];
    for window in windows {
        let mut ticks = window.iter();
        while let Some(tick) = ticks.next() {
            assert!(window.now(&tick));
        }
    }
}
