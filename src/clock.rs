use vstd::prelude::*;
use std::time::{Duration, SystemTime, SystemTimeError};

verus! {

/// `std::time::SystemTime`, carried as an opaque value.
#[verifier::external_type_specification]
#[verifier::external_body]
pub struct ExSystemTime(SystemTime);

/// `std::time::SystemTimeError`, carried as an opaque value.
#[verifier::external_type_specification]
#[verifier::external_body]
pub struct ExSystemTimeError(SystemTimeError);

/// Relies on `SystemTime::now`: reads the system clock, so nothing is known of the value.
pub assume_specification[ SystemTime::now ]() -> SystemTime;

/// Relies on `SystemTime::duration_since`: the time elapsed since `earlier`, or an
/// error when `earlier` is later than `self`.
pub assume_specification[ SystemTime::duration_since ](
    t: &SystemTime,
    earlier: SystemTime,
) -> Result<Duration, SystemTimeError>;

/// Relies on `Duration::as_secs`: the whole seconds of a duration.
pub assume_specification[ Duration::as_secs ](d: &Duration) -> u64;

/// Relies on `Duration::subsec_nanos`: the fractional part of a duration in
/// nanoseconds, which its documentation gives as always less than one billion.
pub assume_specification[ Duration::subsec_nanos ](d: &Duration) -> (r: u32)
    ensures
        r < 1_000_000_000,
;

/// Relies on `std::time::UNIX_EPOCH`: the instant 1970-01-01 00:00:00 UTC.
#[verifier::external_body]
fn unix_epoch() -> SystemTime {
    std::time::UNIX_EPOCH
}

/// The whole milliseconds of a duration of `secs` seconds and `nanos`
/// nanoseconds.
pub fn millis_of_parts(secs: u64, nanos: u32) -> (r: u128)
    requires
        nanos < 1_000_000_000,
    ensures
        r == secs as int * 1000 + nanos as int / 1_000_000,
{
    assert(secs as int * 1000 <= u64::MAX as int * 1000) by (nonlinear_arith);
    (secs as u128) * 1000 + (nanos / 1_000_000) as u128
}

/// The milliseconds of the time elapsed since the Unix epoch, given as seconds
/// and nanoseconds; `None` (a clock that stands before the epoch) gives 0.
pub fn millis_since_epoch(elapsed: Option<(u64, u32)>) -> (r: u128)
    requires
        elapsed matches Some(p) ==> p.1 < 1_000_000_000,
    ensures
        elapsed is None ==> r == 0,
        elapsed matches Some(p) ==> r == p.0 as int * 1000 + p.1 as int / 1_000_000,
{
    match elapsed {
        Some((secs, nanos)) => millis_of_parts(secs, nanos),
        None => 0,
    }
}

/// Milliseconds elapsed since the Unix epoch by the system clock, or 0 where the
/// clock stands before the epoch.
pub fn current_timestamp_millis() -> (r: u128)
    ensures
        r <= u64::MAX as int * 1000 + 999,
{
    let elapsed = match SystemTime::now().duration_since(unix_epoch()) {
        Ok(d) => Some((d.as_secs(), d.subsec_nanos())),
        Err(_) => None,
    };
    millis_since_epoch(elapsed)
}

} // verus!
