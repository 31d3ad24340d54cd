use event_delivery::timestamp::{ClockReading, Timestamp};

fn reading() -> ClockReading {
    ClockReading { year: 2026, month: 10, day: 28, hour: 20, minute: 34, second: 7, nanos: 123 }
}

#[test]
fn parts_in_range_make_a_timestamp() {
    let t = Timestamp::from_parts(2026, 10, 28, 20, 34, 7, 123).unwrap();
    assert_eq!(t.parts(), reading());
    assert!(Timestamp::from_parts(0, 1, 1, 0, 0, 0, 0).is_some());
    assert!(Timestamp::from_parts(9999, 12, 31, 23, 59, 59, 999_999_999).is_some());
}

#[test]
fn parts_out_of_range_make_none() {
    assert_eq!(Timestamp::from_parts(10_000, 1, 1, 0, 0, 0, 0), None);
    assert_eq!(Timestamp::from_parts(2026, 0, 1, 0, 0, 0, 0), None);
    assert_eq!(Timestamp::from_parts(2026, 13, 1, 0, 0, 0, 0), None);
    assert_eq!(Timestamp::from_parts(2026, 1, 0, 0, 0, 0, 0), None);
    assert_eq!(Timestamp::from_parts(2026, 1, 32, 0, 0, 0, 0), None);
    assert_eq!(Timestamp::from_parts(2026, 1, 1, 24, 0, 0, 0), None);
    assert_eq!(Timestamp::from_parts(2026, 1, 1, 0, 60, 0, 0), None);
    assert_eq!(Timestamp::from_parts(2026, 1, 1, 0, 0, 60, 0), None);
    assert_eq!(Timestamp::from_parts(2026, 1, 1, 0, 0, 0, 1_000_000_000), None);
}

#[test]
fn days_follow_the_calendar() {
    for (month, days) in
        [(1, 31), (3, 31), (4, 30), (5, 31), (6, 30), (7, 31), (8, 31), (9, 30), (10, 31), (11, 30), (12, 31)]
    {
        assert!(Timestamp::from_parts(2026, month, days, 0, 0, 0, 0).is_some());
        assert_eq!(Timestamp::from_parts(2026, month, days + 1, 0, 0, 0, 0), None);
    }
    // February has 29 days in the years 2024, 2000 and 0, and 28 in 2026, 1900 and 2100.
    for year in [2024, 2000, 0, 1600, 9996] {
        assert!(Timestamp::from_parts(year, 2, 29, 0, 0, 0, 0).is_some());
        assert_eq!(Timestamp::from_parts(year, 2, 30, 0, 0, 0, 0), None);
    }
    for year in [2026, 1900, 2100, 9999, 1] {
        assert!(Timestamp::from_parts(year, 2, 28, 0, 0, 0, 0).is_some());
        assert_eq!(Timestamp::from_parts(year, 2, 29, 0, 0, 0, 0), None);
    }
}

#[test]
fn unix_epoch_is_the_start_of_1970() {
    assert_eq!(Timestamp::unix_epoch(), Timestamp::from_parts(1970, 1, 1, 0, 0, 0, 0).unwrap());
}

#[test]
fn reading_in_range_is_taken_as_it_is() {
    assert_eq!(Timestamp::from_reading(reading()).parts(), reading());
}

#[test]
fn reading_out_of_range_gives_the_epoch() {
    for broken in [
        ClockReading { year: 10_000, ..reading() },
        ClockReading { year: -1, ..reading() },
        ClockReading { year: 70_000, ..reading() },
        ClockReading { month: 0, ..reading() },
        ClockReading { month: 256 + 5, ..reading() },
        ClockReading { day: 32, ..reading() },
        ClockReading { day: 0, ..reading() },
        ClockReading { month: 2, day: 29, ..reading() },
        ClockReading { month: 11, day: 31, ..reading() },
        ClockReading { hour: 24, ..reading() },
        ClockReading { minute: 60, ..reading() },
        ClockReading { second: 60, ..reading() },
        ClockReading { nanos: 1_500_000_000, ..reading() },
    ] {
        assert_eq!(Timestamp::from_reading(broken), Timestamp::unix_epoch());
    }
}

#[test]
fn iso_form_of_a_timestamp() {
    let t = Timestamp::from_parts(2026, 10, 28, 20, 34, 7, 123).unwrap();
    assert_eq!(t.to_iso8601(), b"2026-10-28T20:34:07.000000123Z");
    assert_eq!(Timestamp::unix_epoch().to_iso8601(), b"1970-01-01T00:00:00.000000000Z");
    let last = Timestamp::from_parts(9999, 12, 31, 23, 59, 59, 999_999_999).unwrap();
    assert_eq!(last.to_iso8601(), b"9999-12-31T23:59:59.999999999Z");
    let first = Timestamp::from_parts(0, 1, 1, 0, 0, 0, 0).unwrap();
    assert_eq!(first.to_iso8601(), b"0000-01-01T00:00:00.000000000Z");
}

#[test]
fn iso_form_reads_back() {
    for t in [
        Timestamp::from_parts(2026, 10, 28, 20, 34, 7, 123).unwrap(),
        Timestamp::from_parts(0, 1, 1, 0, 0, 0, 0).unwrap(),
        Timestamp::from_parts(9999, 12, 31, 23, 59, 59, 999_999_999).unwrap(),
        Timestamp::from_parts(1999, 2, 28, 12, 0, 30, 500_000_000).unwrap(),
    ] {
        assert_eq!(Timestamp::from_iso8601(&t.to_iso8601()), Some(t));
    }
    assert_eq!(
        Timestamp::from_iso8601(b"2026-10-28T20:34:07.000000123Z"),
        Timestamp::from_parts(2026, 10, 28, 20, 34, 7, 123)
    );
}

#[test]
fn other_text_is_no_timestamp() {
    for text in [
        &b""[..],
        b"2026-10-28T20:34:07Z",
        b"2026-10-28T20:34:07.000000123",
        b"2026-10-28T20:34:07.000000123ZZ",
        b"2026-10-28 20:34:07.000000123Z",
        b"2026/10/28T20:34:07.000000123Z",
        b"2026-10-28T20.34.07.000000123Z",
        b"2026-10-28T20:34:07,000000123Z",
        b"2026-10-28T20:34:07.000000123z",
        b"2026-10-28t20:34:07.000000123Z",
        b"202a-10-28T20:34:07.000000123Z",
        b"2026-1x-28T20:34:07.000000123Z",
        b"2026-10-28T20:34:07.00000012 Z",
        b"+026-10-28T20:34:07.000000123Z",
        b"2026-13-28T20:34:07.000000123Z",
        b"2026-00-28T20:34:07.000000123Z",
        b"2026-10-00T20:34:07.000000123Z",
        b"2026-10-32T20:34:07.000000123Z",
        b"2026-02-29T20:34:07.000000123Z",
        b"2026-04-31T20:34:07.000000123Z",
        b"2026-10-28T24:34:07.000000123Z",
        b"2026-10-28T20:60:07.000000123Z",
        b"2026-10-28T20:34:60.000000123Z",
    ] {
        assert_eq!(Timestamp::from_iso8601(text), None);
    }
}

#[test]
fn timestamps_are_ordered_by_time() {
    let a = Timestamp::from_parts(2026, 10, 28, 20, 34, 7, 123).unwrap();
    let b = Timestamp::from_parts(2026, 10, 28, 20, 34, 7, 124).unwrap();
    let c = Timestamp::from_parts(2026, 10, 28, 20, 35, 0, 0).unwrap();
    let d = Timestamp::from_parts(2027, 1, 1, 0, 0, 0, 0).unwrap();
    assert!(a < b && b < c && c < d);
    assert!(a.to_iso8601() < b.to_iso8601());
    assert!(c.to_iso8601() < d.to_iso8601());
}
