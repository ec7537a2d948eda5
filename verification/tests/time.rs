use leethack_backend::Timestamp;

fn chrono_exceeds(now: Timestamp, earlier: Timestamp, minutes: i64) -> bool {
    let a = chrono::DateTime::from_timestamp(now.secs, now.nanos).unwrap();
    let b = chrono::DateTime::from_timestamp(earlier.secs, earlier.nanos).unwrap();
    a.signed_duration_since(b) > chrono::TimeDelta::try_minutes(minutes).unwrap()
}

#[test]
fn a_span_is_compared_to_the_nanosecond() {
    let t = |secs: i64, nanos: u32| Timestamp { secs, nanos };
    assert!(!t(0, 0).is_later_by_more_than(&t(0, 0), 0));
    assert!(t(0, 1).is_later_by_more_than(&t(0, 0), 0));
    assert!(!t(1800, 0).is_later_by_more_than(&t(0, 0), 30));
    assert!(t(1800, 1).is_later_by_more_than(&t(0, 0), 30));
    assert!(t(1859, 0).is_later_by_more_than(&t(0, 0), 30));
    assert!(t(1860, 0).is_later_by_more_than(&t(0, 0), 30));
    assert!(!t(1799, 999_999_999).is_later_by_more_than(&t(0, 0), 30));
    assert!(!t(60, 5).is_later_by_more_than(&t(0, 5), 1));
    assert!(t(60, 6).is_later_by_more_than(&t(0, 5), 1));
}

#[test]
fn a_span_against_a_negative_threshold() {
    let t = |secs: i64, nanos: u32| Timestamp { secs, nanos };
    assert!(t(0, 0).is_later_by_more_than(&t(0, 0), -1));
    assert!(t(0, 0).is_later_by_more_than(&t(59, 999_999_999), -1));
    assert!(!t(0, 0).is_later_by_more_than(&t(60, 0), -1));
    assert!(!t(0, 0).is_later_by_more_than(&t(120, 0), -1));
    assert!(!t(0, 0).is_later_by_more_than(&t(0, 1), 0));
}

#[test]
fn a_span_at_the_ends_of_the_range() {
    let low = Timestamp { secs: i64::MIN, nanos: 0 };
    let high = Timestamp { secs: i64::MAX, nanos: u32::MAX };
    // The widest span is 307445734561825860 minutes and a part of one.
    assert!(high.is_later_by_more_than(&low, 307_445_734_561_825_860));
    assert!(!high.is_later_by_more_than(&low, 307_445_734_561_825_861));
    assert!(!high.is_later_by_more_than(&low, i64::MAX));
    assert!(high.is_later_by_more_than(&low, i64::MIN));
    assert!(!low.is_later_by_more_than(&high, -307_445_734_561_825_860));
    assert!(low.is_later_by_more_than(&high, -307_445_734_561_825_861));
    assert!(low.is_later_by_more_than(&high, i64::MIN));
    assert!(!low.is_later_by_more_than(&high, i64::MAX));
    assert!(!high.is_later_by_more_than(&high, 0));
}

#[test]
fn a_span_is_compared_as_chrono_compares_durations() {
    let points = [
        Timestamp { secs: 0, nanos: 0 },
        Timestamp { secs: 0, nanos: 1 },
        Timestamp { secs: 59, nanos: 999_999_999 },
        Timestamp { secs: 60, nanos: 0 },
        Timestamp { secs: 61, nanos: 500_000_000 },
        Timestamp { secs: 1_700_000_000, nanos: 123_456_789 },
        Timestamp { secs: 1_700_001_800, nanos: 123_456_789 },
        Timestamp { secs: 1_700_001_800, nanos: 123_456_790 },
        Timestamp { secs: 1_700_001_859, nanos: 123_456_788 },
        Timestamp { secs: 1_700_001_860, nanos: 123_456_789 },
        Timestamp { secs: -1, nanos: 999_999_999 },
        Timestamp { secs: -86_400, nanos: 0 },
        Timestamp { secs: 4_102_444_800, nanos: 999_999_999 },
    ];
    for a in points {
        for b in points {
            for minutes in [-31, -30, -1, 0, 1, 30, 31, 1440, 28_333_363] {
                assert_eq!(
                    a.is_later_by_more_than(&b, minutes),
                    chrono_exceeds(a, b, minutes),
                    "{:?} {:?} {}",
                    a,
                    b,
                    minutes
                );
            }
        }
    }
}

#[test]
fn elapsed_milliseconds() {
    let t = |secs: i64, nanos: u32| Timestamp { secs, nanos };
    assert_eq!(t(10, 0).millis_since(&t(10, 0)), 0);
    assert_eq!(t(10, 999_999).millis_since(&t(10, 0)), 0);
    assert_eq!(t(10, 1_000_000).millis_since(&t(10, 0)), 1);
    assert_eq!(t(12, 500_000_000).millis_since(&t(10, 0)), 2500);
    assert_eq!(t(10, 0).millis_since(&t(12, 0)), 0);
    assert_eq!(t(i64::MAX, 0).millis_since(&t(i64::MIN, 0)), u64::MAX);
    assert_eq!(t(30, 0).millis_since(&t(0, 0)), 30_000);
}
