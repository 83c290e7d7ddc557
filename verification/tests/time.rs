use crater_ohos::time::{Timestamp, MAX_SECS, MIN_SECS};
use crater_ohos::Error;

#[test]
fn instants_are_in_range() {
    assert!(Timestamp::new(0, 0).is_some());
    assert!(Timestamp::new(MIN_SECS, 0).is_some());
    assert!(Timestamp::new(MAX_SECS, 999_999_999).is_some());
    assert!(Timestamp::new(MIN_SECS - 1, 0).is_none());
    assert!(Timestamp::new(MAX_SECS + 1, 0).is_none());
    assert!(Timestamp::new(0, 1_000_000_000).is_none());
    assert!(Timestamp::new(i64::MAX, u32::MAX).is_none());
    let t = Timestamp::new(-5, 7).unwrap();
    assert_eq!((t.secs(), t.nanos()), (-5, 7));
}

#[test]
fn instants_are_ordered_by_their_nanoseconds() {
    let t = |s, n| Timestamp::new(s, n).unwrap();
    assert!(t(1, 0).is_before(&t(1, 1)));
    assert!(t(1, 999_999_999).is_before(&t(2, 0)));
    assert!(t(-1, 999_999_999).is_before(&t(0, 0)));
    assert!(!t(1, 5).is_before(&t(1, 5)));
    assert!(!t(1, 5).is_after(&t(1, 5)));
    assert!(t(2, 0).is_after(&t(1, 999_999_999)));
    assert!(!t(2, 0).is_before(&t(1, 999_999_999)));
}

#[test]
fn whole_seconds_between_instants() {
    let t = |s, n| Timestamp::new(s, n).unwrap();
    assert_eq!(t(10, 0).seconds_since(&t(4, 0)), 6);
    assert_eq!(t(10, 0).seconds_since(&t(4, 1)), 5);
    assert_eq!(t(10, 5).seconds_since(&t(4, 5)), 6);
    assert_eq!(t(4, 0).seconds_since(&t(10, 0)), -6);
    assert_eq!(t(4, 1).seconds_since(&t(10, 0)), -5);
    assert_eq!(t(4, 0).seconds_since(&t(10, 1)), -6);
    assert_eq!(t(4, 0).seconds_since(&t(4, 999_999_999)), 0);
    assert_eq!(t(4, 999_999_999).seconds_since(&t(4, 0)), 0);
    assert_eq!(t(MAX_SECS, 0).seconds_since(&t(MIN_SECS, 0)), MAX_SECS - MIN_SECS);
    assert!(t(10, 1).is_more_than_after(0, &t(10, 0)));
    assert!(!t(10, 0).is_more_than_after(0, &t(10, 0)));
    assert!(!t(20, 0).is_more_than_after(10, &t(10, 0)));
    assert!(t(20, 1).is_more_than_after(10, &t(10, 0)));
    assert!(t(0, 0).is_more_than_after(i64::MIN, &t(MAX_SECS, 0)));
    assert!(!t(MAX_SECS, 0).is_more_than_after(i64::MAX, &t(MIN_SECS, 0)));
}

#[test]
fn texts_of_instants() {
    let t = Timestamp::new(1_700_000_000, 123_456_789).unwrap();
    assert_eq!(t.to_rfc3339(), Some("2023-11-14T22:13:20.123456789+00:00".to_string()));
    assert_eq!(Timestamp::parse_from_rfc3339("2023-11-14T22:13:20.123456789+00:00"), Ok(t));
    assert_eq!(Timestamp::parse_from_rfc3339("2023-11-15T00:13:20.123456789+02:00"), Ok(t));
    assert_eq!(
        Timestamp::parse_from_rfc3339("1970-01-01T00:00:00Z"),
        Ok(Timestamp::new(0, 0).unwrap())
    );
    assert_eq!(Timestamp::new(0, 0).unwrap().to_rfc3339(), Some("1970-01-01T00:00:00+00:00".to_string()));
    for bad in ["", "yesterday", "2024-01-01", "2024-01-01 00:00:00", "2024-13-01T00:00:00Z"] {
        assert_eq!(Timestamp::parse_from_rfc3339(bad), Err(Error::BadRequest), "{:?}", bad);
    }
    // A leap second has no instant.
    assert_eq!(
        Timestamp::parse_from_rfc3339("2016-12-31T23:59:60Z"),
        Err(Error::BadRequest)
    );
    for t in [
        Timestamp::new(MIN_SECS, 0).unwrap(),
        Timestamp::new(MAX_SECS, 999_999_999).unwrap(),
        Timestamp::new(-1, 500_000_000).unwrap(),
    ] {
        let text = t.to_rfc3339().unwrap();
        assert_eq!(Timestamp::parse_from_rfc3339(&text), Ok(t), "{}", text);
    }
}

#[test]
fn the_clock_shows_an_instant() {
    let a = Timestamp::now().unwrap();
    let b = Timestamp::now().unwrap();
    assert!(!b.is_before(&a));
    assert!(a.secs() > 1_600_000_000);
}
