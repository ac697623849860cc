//! Points in time, and their conversion to and from Unix timestamps (whole
//! seconds since the Unix epoch).

use vstd::prelude::*;

verus! {

/// Nanoseconds in one second.
pub const NANOS_PER_SEC: u32 = 1_000_000_000;

/// A point in time on the system clock, to the whole second: the seconds since
/// the Unix epoch, negative before it. Its view is that number of seconds.
///
/// A time is kept to the second, the resolution of the Unix timestamps that
/// mediary stores, so that a time converted to a timestamp and back comes back
/// equal.
#[derive(Debug, Clone, Copy, PartialEq, Eq, Structural)]
pub struct SystemTime {
    secs: i64,
}

/// The error of a point in time that lies before the Unix epoch: how many
/// whole seconds before it lies.
#[derive(Debug, Clone, Copy, PartialEq, Eq, Structural)]
pub struct SystemTimeError {
    pub secs: u64,
}

impl View for SystemTime {
    type V = int;

    closed spec fn view(&self) -> int {
        self.secs as int
    }
}

/// The signed distance from the epoch, in nanoseconds, of an offset given as a
/// direction, whole seconds and nanoseconds.
pub open spec fn offset_nanos(before_epoch: bool, secs: int, nanos: int) -> int {
    if before_epoch {
        -(secs * 1_000_000_000 + nanos)
    } else {
        secs * 1_000_000_000 + nanos
    }
}

/// The whole second, rounded down and kept within the range of `i64`, in
/// which a distance from the epoch given in nanoseconds falls.
pub open spec fn whole_second_of(total_nanos: int) -> int {
    let s = total_nanos / 1_000_000_000;
    if s < i64::MIN {
        i64::MIN as int
    } else if s > i64::MAX {
        i64::MAX as int
    } else {
        s
    }
}

/// The Unix timestamp of a point in time: its seconds since the epoch, or
/// `None` when it lies before the epoch.
pub open spec fn unix_timestamp_of(t: int) -> Option<int> {
    if t >= 0 {
        Some(t)
    } else {
        None
    }
}

/// The point in time of a Unix timestamp, or `None` when it is negative.
pub open spec fn time_of_unix_timestamp(ts: int) -> Option<int> {
    if ts < 0 {
        None
    } else {
        Some(ts)
    }
}

/// The view of two points in time is the same exactly when they are equal.
pub proof fn lemma_time_view_injective(a: SystemTime, b: SystemTime)
    ensures
        a@ == b@ <==> a == b,
{
}

/// Every view of a point in time lies in the range of `i64`.
pub proof fn lemma_time_view_in_range(t: SystemTime)
    ensures
        i64::MIN <= t@ <= i64::MAX,
{
}

#[verifier::external_type_specification]
#[verifier::external_body]
pub struct ExStdSystemTime(std::time::SystemTime);

#[verifier::external_type_specification]
#[verifier::external_body]
pub struct ExStdSystemTimeError(std::time::SystemTimeError);

/// `std::time::SystemTime::now`: the current reading of the system clock. It
/// depends on the clock; nothing is promised of it.
#[verifier::external_body]
fn std_system_time_now() -> std::time::SystemTime {
    std::time::SystemTime::now()
}

/// `std::time::SystemTime::duration_since`, measured from
/// `std::time::UNIX_EPOCH`: how far after the epoch a time lies, or an error
/// when it lies before. The time is opaque here; nothing is promised of the
/// outcome.
#[verifier::external_body]
fn std_duration_since_epoch(t: &std::time::SystemTime) -> Result<std::time::Duration, std::time::SystemTimeError> {
    t.duration_since(std::time::UNIX_EPOCH)
}

/// `std::time::SystemTimeError::duration`: how far the later time lies past
/// the earlier one. The error is opaque here; nothing is promised of it.
#[verifier::external_body]
fn std_system_time_error_duration(e: &std::time::SystemTimeError) -> std::time::Duration {
    e.duration()
}

/// `std::time::Duration::as_secs`: the whole seconds of a duration. The
/// duration is opaque here; nothing is promised of them.
#[verifier::external_body]
fn std_duration_as_secs(d: &std::time::Duration) -> u64 {
    d.as_secs()
}

/// `std::time::Duration::subsec_nanos`: the nanoseconds past the whole
/// seconds of a duration. The contract claims what its documentation states:
/// they are below one billion.
#[verifier::external_body]
fn std_duration_subsec_nanos(d: &std::time::Duration) -> (n: u32)
    ensures
        n < NANOS_PER_SEC,
{
    d.subsec_nanos()
}

impl SystemTime {
    /// The Unix epoch itself.
    pub fn unix_epoch() -> (t: SystemTime)
        ensures
            t@ == 0,
    {
        SystemTime { secs: 0 }
    }

    /// The seconds since the epoch (negative before it).
    pub fn unix_secs(&self) -> (s: i64)
        ensures
            s == self@,
    {
        self.secs
    }

    /// The point in time at an offset from the epoch, given as a direction,
    /// whole seconds and the nanoseconds past them: the whole second in which
    /// it falls (rounded down). An offset beyond what a `SystemTime` holds
    /// gives the nearest end of its range.
    pub fn from_epoch_offset(before_epoch: bool, secs: u64, nanos: u32) -> (t: SystemTime)
        requires
            nanos < NANOS_PER_SEC,
        ensures
            t@ == whole_second_of(offset_nanos(before_epoch, secs as int, nanos as int)),
    {
        let ghost total = offset_nanos(before_epoch, secs as int, nanos as int);
        if !before_epoch {
            proof {
                vstd::arithmetic::div_mod::lemma_fundamental_div_mod_converse(
                    total, 1_000_000_000, secs as int, nanos as int);
            }
            if secs <= i64::MAX as u64 {
                SystemTime { secs: secs as i64 }
            } else {
                SystemTime { secs: i64::MAX }
            }
        } else if nanos == 0 {
            proof {
                vstd::arithmetic::div_mod::lemma_fundamental_div_mod_converse(
                    total, 1_000_000_000, -(secs as int), 0);
            }
            if secs < 0x8000_0000_0000_0000u64 {
                SystemTime { secs: -(secs as i64) }
            } else {
                SystemTime { secs: i64::MIN }
            }
        } else {
            proof {
                vstd::arithmetic::div_mod::lemma_fundamental_div_mod_converse(
                    total, 1_000_000_000, -(secs as int) - 1, 1_000_000_000 - nanos as int);
            }
            if secs < 0x8000_0000_0000_0000u64 {
                SystemTime { secs: -(secs as i64) - 1 }
            } else {
                SystemTime { secs: i64::MIN }
            }
        }
    }

    /// The point in time of a `std::time::SystemTime`, to the whole second:
    /// its distance from the epoch, as `std` splits it into whole seconds and
    /// nanoseconds, placed as `from_epoch_offset` places it.
    pub fn from_std(time: &std::time::SystemTime) -> (t: SystemTime) {
        match std_duration_since_epoch(time) {
            Ok(d) => SystemTime::from_epoch_offset(false, std_duration_as_secs(&d), std_duration_subsec_nanos(&d)),
            Err(e) => {
                let d = std_system_time_error_duration(&e);
                SystemTime::from_epoch_offset(true, std_duration_as_secs(&d), std_duration_subsec_nanos(&d))
            },
        }
    }

    /// The current time of the system clock, to the whole second.
    pub fn now() -> (t: SystemTime) {
        SystemTime::from_std(&std_system_time_now())
    }
}

/// The message of a `SystemTimeError`, as `std::time::SystemTimeError`
/// displays itself.
pub open spec fn system_time_error_message() -> Seq<char> {
    "second time provided was later than self"@
}

impl SystemTimeError {
    /// The message of this error: "second time provided was later than self".
    pub fn to_string(&self) -> (s: String)
        ensures
            s@ == system_time_error_message(),
    {
        String::from_str("second time provided was later than self")
    }
}

/// Convert a system time to a Unix timestamp: its seconds since the epoch, or
/// an error that tells how far before the epoch it lies.
pub fn system_time_to_unix_timestamp(time: SystemTime) -> (r: Result<i64, SystemTimeError>)
    ensures
        match unix_timestamp_of(time@) {
            Some(ts) => r matches Ok(v) && v == ts,
            None => r matches Err(e) && e.secs == -time@,
        },
{
    if time.secs >= 0 {
        Ok(time.secs)
    } else {
        let back: u64 = (-(time.secs + 1)) as u64 + 1;
        Err(SystemTimeError { secs: back })
    }
}

/// Convert a Unix timestamp to a system time; a negative timestamp is refused
/// with the message "Unix timestamp cannot be negative".
pub fn unix_timestamp_to_system_time(timestamp: i64) -> (r: Result<SystemTime, String>)
    ensures
        match time_of_unix_timestamp(timestamp as int) {
            Some(t) => r matches Ok(st) && st@ == t,
            None => r matches Err(msg) && msg@ == negative_timestamp_message(),
        },
{
    if timestamp < 0 {
        Err(negative_timestamp_error())
    } else {
        Ok(SystemTime { secs: timestamp })
    }
}

/// The message of the error for a negative Unix timestamp.
pub open spec fn negative_timestamp_message() -> Seq<char> {
    "Unix timestamp cannot be negative"@
}

fn negative_timestamp_error() -> (s: String)
    ensures
        s@ == negative_timestamp_message(),
{
    String::from_str("Unix timestamp cannot be negative")
}

/// A non-negative Unix timestamp survives the trip to a system time and back.
pub proof fn lemma_timestamp_round_trip(ts: i64)
    requires
        ts >= 0,
    ensures
        time_of_unix_timestamp(ts as int) matches Some(t)
            && unix_timestamp_of(t) == Some(ts as int),
{
}

/// A system time at or after the epoch survives the trip to a Unix timestamp
/// and back unchanged.
pub proof fn lemma_system_time_round_trip(t: int)
    requires
        t >= 0,
    ensures
        unix_timestamp_of(t) matches Some(ts) && time_of_unix_timestamp(ts) == Some(t),
{
}

/// A Unix timestamp is refused exactly when it is negative, and a system time
/// fails to convert exactly when it lies before the epoch.
pub proof fn lemma_conversion_failures(ts: int, t: int)
    ensures
        time_of_unix_timestamp(ts) is None <==> ts < 0,
        unix_timestamp_of(t) is None <==> t < 0,
{
}

} // verus!
