use ledpulse::time::{civil_from_epoch, epoch_from_civil, CalendarTime};

#[test]
fn build_timestamp_decomposes() {
    let t = civil_from_epoch(1700000000);
    assert_eq!(t.year, 2023);
    assert_eq!(t.month, 11);
    assert_eq!(t.day, 14);
    assert_eq!(t.hour, 22);
    assert_eq!(t.minute, 13);
    assert_eq!(t.second, 20);
}

#[test]
fn epoch_round_trip() {
    let t = civil_from_epoch(1700000000);
    assert_eq!(epoch_from_civil(&t), 1700000000);
}

#[test]
fn calendar_validity() {
    let ok = CalendarTime { year: 2020, month: 2, day: 29, hour: 23, minute: 59, second: 59 };
    assert!(ok.is_valid());
    let bad_leap = CalendarTime { year: 2021, month: 2, day: 29, hour: 0, minute: 0, second: 0 };
    assert!(!bad_leap.is_valid());
    let bad_april = CalendarTime { year: 2023, month: 4, day: 31, hour: 0, minute: 0, second: 0 };
    assert!(!bad_april.is_valid());
    // a century year is only a leap year every fourth century
    let century = CalendarTime { year: 2100, month: 2, day: 29, hour: 0, minute: 0, second: 0 };
    assert!(!century.is_valid());
    let quad_century_ok = CalendarTime { year: 2000, month: 2, day: 29, hour: 0, minute: 0, second: 0 };
    assert!(quad_century_ok.is_valid());
    let early = CalendarTime { year: 1969, month: 12, day: 31, hour: 23, minute: 59, second: 59 };
    assert!(!early.is_valid());
}

#[test]
fn epoch_origin_and_leap_day() {
    let origin = CalendarTime { year: 1970, month: 1, day: 1, hour: 0, minute: 0, second: 0 };
    assert_eq!(epoch_from_civil(&origin), 0);
    let leap = CalendarTime { year: 2020, month: 2, day: 29, hour: 12, minute: 0, second: 0 };
    assert_eq!(epoch_from_civil(&leap), 1582977600);
    let back = civil_from_epoch(1582977600);
    assert_eq!(back, leap);
}
