use price_feed::data::UnixTime;

#[test]
fn moment_is_after_the_start_of_an_earlier_second() {
    let moment = UnixTime { secs: 100, nanos: 0 };
    assert!(moment.after(99));
    assert!(!moment.after(100));
    assert!(!moment.after(101));
    assert!(moment.after(0));
    assert!(moment.after(-1));
    assert!(moment.after(i64::MIN));
    assert!(!moment.after(i64::MAX));
}

#[test]
fn nanoseconds_decide_within_the_second() {
    assert!(UnixTime { secs: 100, nanos: 1 }.after(100));
    assert!(UnixTime { secs: 100, nanos: 999_999_999 }.after(100));
    assert!(!UnixTime { secs: 100, nanos: 999_999_999 }.after(101));
    assert!(!UnixTime { secs: 0, nanos: 0 }.after(0));
    assert!(UnixTime { secs: 0, nanos: 1 }.after(0));
    assert!(UnixTime { secs: 0, nanos: 0 }.after(-1));
}

#[test]
fn seconds_beyond_the_signed_range_are_after_every_bound() {
    let far = UnixTime { secs: u64::MAX, nanos: 0 };
    assert!(far.after(i64::MAX));
    let edge = UnixTime { secs: i64::MAX as u64, nanos: 0 };
    assert!(!edge.after(i64::MAX));
    assert!(UnixTime { secs: i64::MAX as u64, nanos: 1 }.after(i64::MAX));
    assert!(UnixTime { secs: i64::MAX as u64 + 1, nanos: 0 }.after(i64::MAX));
}
