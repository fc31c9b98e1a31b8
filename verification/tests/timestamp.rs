use chrono::{DateTime, Utc};
use osv::timestamp::Timestamp;

fn from_chrono(dt: DateTime<Utc>) -> Timestamp {
    Timestamp::new(dt.timestamp(), dt.timestamp_subsec_nanos())
}

#[test]
fn nanos_roundtrip_matches_chrono() {
    for n in [
        0i64,
        1,
        -1,
        1_662_921_288_000_000_000,
        -2_208_936_075_000_000_000,
        i64::MAX,
        i64::MIN,
        i64::MIN + 1,
        999_999_999,
        -1_000_000_000,
    ] {
        let t = Timestamp::from_timestamp_nanos(n);
        assert_eq!(t, from_chrono(DateTime::<Utc>::from_timestamp_nanos(n)));
        assert_eq!(t.timestamp_nanos_opt(), Some(n));
    }
}

#[test]
fn nanos_out_of_range() {
    let chrono_min = DateTime::<Utc>::MIN_UTC;
    assert_eq!(Timestamp::min_utc(), from_chrono(chrono_min));
    assert_eq!(Timestamp::min_utc().timestamp_nanos_opt(), None);
    assert_eq!(chrono_min.timestamp_nanos_opt(), None);
    // 2262-04-11T23:47:16.854775808Z is one nanosecond past the last representable instant.
    let past: DateTime<Utc> = "2262-04-11T23:47:16.854775808Z".parse().unwrap();
    assert_eq!(from_chrono(past).timestamp_nanos_opt(), None);
    let last: DateTime<Utc> = "2262-04-11T23:47:16.854775807Z".parse().unwrap();
    assert_eq!(from_chrono(last).timestamp_nanos_opt(), Some(i64::MAX));
}

#[test]
fn order_and_max() {
    let a = Timestamp::new(10, 5);
    let b = Timestamp::new(10, 6);
    let c = Timestamp::new(11, 0);
    assert!(a.le(&a));
    assert!(a.le(&b));
    assert!(!b.le(&a));
    assert!(b.le(&c));
    assert_eq!(a.max(c), c);
    assert_eq!(c.max(a), c);
    assert_eq!(Timestamp::new(-1, 999_999_999).max(Timestamp::new(0, 0)), Timestamp::new(0, 0));
}
