use chrono::{DateTime, Utc};
use yinmo_bot::timestamp::{Timestamp, MAX_TIMESTAMP_SECS, MIN_TIMESTAMP_SECS};

fn at(secs: i64, nanos: u32) -> Timestamp {
    Timestamp::from_parts(secs, nanos).expect("instant in range")
}

fn chrono_millis(from: (i64, u32), to: (i64, u32)) -> i64 {
    let a = DateTime::from_timestamp(from.0, from.1).expect("chrono accepts the start");
    let b = DateTime::from_timestamp(to.0, to.1).expect("chrono accepts the end");
    (b - a).num_milliseconds()
}

#[test]
fn parts_round_trip() {
    let t = at(1_431_648_000, 123_456_789);
    assert_eq!(t.secs(), 1_431_648_000);
    assert_eq!(t.subsec_nanos(), 123_456_789);
    let before_epoch = at(-1, 999_999_999);
    assert_eq!(before_epoch.secs(), -1);
    assert_eq!(before_epoch.subsec_nanos(), 999_999_999);
}

#[test]
fn a_full_second_of_nanos_is_refused() {
    assert!(Timestamp::from_parts(0, 1_000_000_000).is_none());
    assert!(Timestamp::from_parts(0, u32::MAX).is_none());
    assert!(Timestamp::from_parts(0, 999_999_999).is_some());
}

#[test]
fn seconds_out_of_range_are_refused() {
    assert!(Timestamp::from_parts(MAX_TIMESTAMP_SECS, 999_999_999).is_some());
    assert!(Timestamp::from_parts(MAX_TIMESTAMP_SECS + 1, 0).is_none());
    assert!(Timestamp::from_parts(MIN_TIMESTAMP_SECS, 0).is_some());
    assert!(Timestamp::from_parts(MIN_TIMESTAMP_SECS - 1, 0).is_none());
    assert!(Timestamp::from_parts(i64::MAX, 0).is_none());
    assert!(Timestamp::from_parts(i64::MIN, 0).is_none());
}

#[test]
fn range_is_that_of_utc_date_times() {
    assert_eq!(DateTime::<Utc>::MAX_UTC.timestamp(), MAX_TIMESTAMP_SECS);
    assert_eq!(DateTime::<Utc>::MIN_UTC.timestamp(), MIN_TIMESTAMP_SECS);
    assert!(DateTime::from_timestamp(MAX_TIMESTAMP_SECS + 1, 0).is_none());
    assert!(DateTime::from_timestamp(MIN_TIMESTAMP_SECS - 1, 0).is_none());
}

#[test]
fn millis_between_two_instants() {
    assert_eq!(at(10, 0).millis_until(&at(12, 500_000_000)), 2500);
    assert_eq!(at(12, 500_000_000).millis_until(&at(10, 0)), -2500);
    assert_eq!(at(5, 0).millis_until(&at(5, 0)), 0);
    assert_eq!(at(0, 0).millis_until(&at(0, 150_000_000)), 150);
}

#[test]
fn millis_round_towards_zero() {
    assert_eq!(at(0, 0).millis_until(&at(0, 999_999)), 0);
    assert_eq!(at(0, 999_999).millis_until(&at(0, 0)), 0);
    assert_eq!(at(0, 0).millis_until(&at(0, 1_999_999)), 1);
    assert_eq!(at(0, 1_999_999).millis_until(&at(0, 0)), -1);
    // 0.9 ms apart, though the two instants lie in different milliseconds
    assert_eq!(at(0, 999_500_000).millis_until(&at(1, 400_000)), 0);
    assert_eq!(at(1, 400_000).millis_until(&at(0, 999_500_000)), 0);
}

#[test]
fn millis_across_the_whole_range() {
    let first = at(MIN_TIMESTAMP_SECS, 0);
    let last = at(MAX_TIMESTAMP_SECS, 999_999_999);
    assert_eq!(first.millis_until(&last), 16_544_868_105_599_999);
    assert_eq!(last.millis_until(&first), -16_544_868_105_599_999);
}

#[test]
fn millis_agree_with_chrono() {
    let instants: [(i64, u32); 9] = [
        (0, 0),
        (0, 1),
        (0, 999_999_999),
        (1, 400_000),
        (-1, 999_500_000),
        (-86_400, 5),
        (1_700_000_000, 123_456_789),
        (MIN_TIMESTAMP_SECS, 0),
        (MAX_TIMESTAMP_SECS, 999_999_999),
    ];
    for from in instants {
        for to in instants {
            assert_eq!(
                at(from.0, from.1).millis_until(&at(to.0, to.1)),
                chrono_millis(from, to),
                "from {:?} to {:?}",
                from,
                to
            );
        }
    }
}

#[test]
fn now_reads_the_clock() {
    let before = Utc::now().timestamp();
    let now = Timestamp::now();
    let after = Utc::now().timestamp();
    assert!(before <= now.secs() && now.secs() <= after);
    assert!(now.subsec_nanos() < 1_000_000_000);
    assert!(now.secs() > 1_600_000_000);
}

#[test]
fn now_does_not_run_backwards_by_much() {
    let first = Timestamp::now();
    let second = Timestamp::now();
    assert!(first.millis_until(&second) >= -1000);
    assert!(first.millis_until(&second) < 60_000);
}

#[test]
fn timestamps_compare_by_value() {
    assert_eq!(at(3, 4), at(3, 4));
    assert_ne!(at(3, 4), at(3, 5));
    let copy = at(3, 4);
    let same = copy;
    assert_eq!(copy, same);
}
