use dts_developer_challenge::{Timestamp, ZonedTimestamp};

fn ts(secs: i64, nanos: u32) -> Timestamp {
    Timestamp { secs, nanos }
}

#[test]
fn zoned_east_offset_normalizes() {
    // 2030-01-01T02:00:00+02:00 is 2030-01-01T00:00:00Z
    let z = ZonedTimestamp::new(ts(1_893_463_200, 5), 7_200).unwrap();
    assert_eq!(z.to_utc(), ts(1_893_456_000, 5));
    assert_eq!(z.local(), ts(1_893_463_200, 5));
    assert_eq!(z.offset_secs(), 7_200);
}

#[test]
fn zoned_west_offset_normalizes() {
    let z = ZonedTimestamp::new(ts(100, 0), -3_600).unwrap();
    assert_eq!(z.to_utc(), ts(3_700, 0));
}

#[test]
fn zoned_offset_out_of_range() {
    assert!(ZonedTimestamp::new(ts(0, 0), 86_400).is_none());
    assert!(ZonedTimestamp::new(ts(0, 0), -86_400).is_none());
    assert!(ZonedTimestamp::new(ts(0, 0), 86_399).is_some());
}

#[test]
fn zoned_instant_out_of_range() {
    assert!(ZonedTimestamp::new(ts(i64::MIN, 0), 1).is_none());
    assert!(ZonedTimestamp::new(ts(i64::MAX, 0), -1).is_none());
    assert!(ZonedTimestamp::new(ts(i64::MIN, 0), -1).is_some());
}

#[test]
fn normalize_idempotent() {
    let once = ZonedTimestamp::new(ts(1_000, 7), -18_000).unwrap().to_utc();
    let twice = ZonedTimestamp::from_utc(once).to_utc();
    assert_eq!(once, twice);
    assert_eq!(once, ts(19_000, 7));
}

#[test]
fn timestamp_order() {
    assert!(ts(1, 0).before(&ts(2, 0)));
    assert!(ts(1, 5).before(&ts(1, 6)));
    assert!(!ts(1, 6).before(&ts(1, 6)));
    assert!(!ts(2, 0).before(&ts(1, 999_999_999)));
}
