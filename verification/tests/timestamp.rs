use operation_log::timestamp::{Timestamp, MAX_TIMESTAMP_SECS, MIN_TIMESTAMP_SECS};

#[test]
fn timestamp_new_accepts_ordinary_instants() {
    let t = Timestamp::new(1_700_000_000, 123_456_789).unwrap();
    assert_eq!(t.secs, 1_700_000_000);
    assert_eq!(t.nanos, 123_456_789);
    assert!(Timestamp::new(0, 0).is_some());
    assert!(Timestamp::new(-1, 999_999_999).is_some());
}

#[test]
fn timestamp_new_range_edges() {
    assert!(Timestamp::new(MIN_TIMESTAMP_SECS, 0).is_some());
    assert!(Timestamp::new(MAX_TIMESTAMP_SECS, 999_999_999).is_some());
    assert!(Timestamp::new(MIN_TIMESTAMP_SECS - 1, 0).is_none());
    assert!(Timestamp::new(MAX_TIMESTAMP_SECS + 1, 0).is_none());
    assert!(Timestamp::new(i64::MIN, 0).is_none());
    assert!(Timestamp::new(i64::MAX, 0).is_none());
}

#[test]
fn timestamp_new_leap_second_only_after_second_59() {
    // 23:59:59 on 2016-12-31 is 1483228799.
    assert!(Timestamp::new(1_483_228_799, 1_500_000_000).is_some());
    assert!(Timestamp::new(1_483_228_798, 1_500_000_000).is_none());
    assert!(Timestamp::new(1_483_228_799, 2_000_000_000).is_none());
    // Negative seconds: -1 is 23:59:59 of 1969-12-31.
    assert!(Timestamp::new(-1, 1_000_000_000).is_some());
    assert!(Timestamp::new(-2, 1_000_000_000).is_none());
}
