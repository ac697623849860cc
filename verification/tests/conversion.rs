use std::time::{Duration, UNIX_EPOCH};

use mediary_core::data::conversion::{
    system_time_to_unix_timestamp, unix_timestamp_to_system_time, SystemTime,
};

#[test]
fn system_time_to_unix_timestamp_using_now_is_greater_than_zero() {
    // setup
    let sys_time = SystemTime::now();

    // invoke
    let unix_time = system_time_to_unix_timestamp(sys_time).unwrap();

    // check
    assert!(unix_time > 0);
}

#[test]
fn system_time_to_unix_timestamp_converts_epoch_to_zero() {
    // setup
    let sys_time = SystemTime::unix_epoch();

    // invoke
    let unix_time = system_time_to_unix_timestamp(sys_time).unwrap();

    // check
    assert_eq!(unix_time, 0);
}

#[test]
fn unix_timestamp_to_system_time_using_now_is_ok() {
    // setup
    let sys_time = SystemTime::now();

    // invoke
    let unix_time = system_time_to_unix_timestamp(sys_time).unwrap();
    let result = unix_timestamp_to_system_time(unix_time).unwrap();

    // check
    assert_eq!(result, sys_time);
}

#[test]
fn unix_timestamp_to_system_time_converts_zero_to_epoch() {
    // invoke
    let result = unix_timestamp_to_system_time(0);

    // check
    assert_eq!(result.unwrap(), SystemTime::unix_epoch());
}

#[test]
fn unix_timestamp_to_system_time_errors_on_negative_timestamp() {
    // invoke
    let result = unix_timestamp_to_system_time(-1);

    // check
    assert!(result.is_err());
}

#[test]
fn system_time_to_unix_timestamp_roundtrip_preserves_seconds() {
    // setup
    let sys_time = SystemTime::now();

    // invoke
    let unix_time = system_time_to_unix_timestamp(sys_time).unwrap();
    let sys_time_from_unix = unix_timestamp_to_system_time(unix_time).unwrap();
    let unix_time_from_sys = system_time_to_unix_timestamp(sys_time_from_unix).unwrap();

    // check
    assert_eq!(unix_time, unix_time_from_sys);
}

#[test]
fn negative_timestamp_error_message() {
    let result = unix_timestamp_to_system_time(-5);
    assert_eq!(result.unwrap_err(), "Unix timestamp cannot be negative");
}

#[test]
fn timestamp_round_trip_on_concrete_values() {
    for ts in [0i64, 1, 59, 1_700_000_000, i64::MAX] {
        let t = unix_timestamp_to_system_time(ts).unwrap();
        assert_eq!(t.unix_secs(), ts);
        assert_eq!(system_time_to_unix_timestamp(t).unwrap(), ts);
    }
}

#[test]
fn time_after_epoch_keeps_whole_seconds() {
    let t = SystemTime::from_epoch_offset(false, 1_700_000_000, 123_456_789);
    assert_eq!(t.unix_secs(), 1_700_000_000);
    assert_eq!(t, SystemTime::from_epoch_offset(false, 1_700_000_000, 0));
    let ts = system_time_to_unix_timestamp(t).unwrap();
    assert_eq!(ts, 1_700_000_000);
    let back = unix_timestamp_to_system_time(ts).unwrap();
    assert_eq!(back, t);
}

#[test]
fn time_before_epoch_is_refused_with_distance() {
    let t = SystemTime::from_epoch_offset(true, 2, 250_000_000);
    assert_eq!(t.unix_secs(), -3);
    let e = system_time_to_unix_timestamp(t).unwrap_err();
    assert_eq!(e.secs, 3);
    assert_eq!(e.to_string(), "second time provided was later than self");

    let whole = SystemTime::from_epoch_offset(true, 7, 0);
    assert_eq!(whole.unix_secs(), -7);
    let e = system_time_to_unix_timestamp(whole).unwrap_err();
    assert_eq!(e.secs, 7);
}

#[test]
fn epoch_offsets_saturate_at_the_ends() {
    let late = SystemTime::from_epoch_offset(false, u64::MAX, 5);
    assert_eq!(late.unix_secs(), i64::MAX);
    let early = SystemTime::from_epoch_offset(true, u64::MAX, 5);
    assert_eq!(early.unix_secs(), i64::MIN);
    let min = SystemTime::from_epoch_offset(true, 1u64 << 63, 0);
    assert_eq!(min.unix_secs(), i64::MIN);
    let e = system_time_to_unix_timestamp(min).unwrap_err();
    assert_eq!(e.secs, 1u64 << 63);
}

#[test]
fn system_time_from_std_on_both_sides_of_the_epoch() {
    let after = SystemTime::from_std(&(UNIX_EPOCH + Duration::new(5, 7)));
    assert_eq!(after.unix_secs(), 5);
    let before = SystemTime::from_std(&(UNIX_EPOCH - Duration::new(2, 250_000_000)));
    assert_eq!(before.unix_secs(), -3);
    assert_eq!(SystemTime::from_std(&UNIX_EPOCH), SystemTime::unix_epoch());
}
