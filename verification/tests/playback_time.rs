use audio_cutter::playback_time::{PlaybackTime, NANOS_PER_SECOND, SECONDS_PER_MINUTE};

#[test]
fn zero_is_the_start_of_a_track() {
    let start = PlaybackTime::zero();
    assert_eq!(start.nanos, 0);
    assert_eq!(start.minutes(), 0);
    assert_eq!(start.seconds(), 0);
}

#[test]
fn minutes_and_seconds_split_the_clock() {
    // 3 min 7.5 s
    let time = PlaybackTime { nanos: 187_500_000_000 };
    assert_eq!(time.minutes(), 3);
    assert_eq!(time.seconds(), 7);
    // fractions of a second are dropped
    let fraction = PlaybackTime { nanos: 1_999_999_999 };
    assert_eq!(fraction.minutes(), 0);
    assert_eq!(fraction.seconds(), 1);
    // one nanosecond short of a minute
    let almost = PlaybackTime { nanos: 59_999_999_999 };
    assert_eq!(almost.minutes(), 0);
    assert_eq!(almost.seconds(), 59);
    // exactly one hour and one second
    let hour = PlaybackTime { nanos: 3_601_000_000_000 };
    assert_eq!(hour.minutes(), 60);
    assert_eq!(hour.seconds(), 1);
}

#[test]
fn the_largest_time_still_splits() {
    let time = PlaybackTime { nanos: u128::MAX };
    assert_eq!(time.minutes(), u128::MAX / 60_000_000_000);
    assert!(time.seconds() < 60);
}

#[test]
fn the_units_are_what_they_say() {
    assert_eq!(NANOS_PER_SECOND, 1_000_000_000);
    assert_eq!(SECONDS_PER_MINUTE, 60);
}

#[test]
fn times_compare_by_value() {
    assert_eq!(PlaybackTime { nanos: 42 }, PlaybackTime { nanos: 42 });
    assert_ne!(PlaybackTime { nanos: 42 }, PlaybackTime { nanos: 43 });
}
