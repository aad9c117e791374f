//! The wall clock, read through `std::time`.

use vstd::prelude::*;
use std::time::{Duration, SystemTime, SystemTimeError};

verus! {

/// `std::time::SystemTime`, a point on the system's clock.
#[verifier::external_type_specification]
#[verifier::external_body]
pub struct ExSystemTime(SystemTime);

/// `std::time::SystemTimeError`, the answer when a time lies before the
/// one it is measured from.
#[verifier::external_type_specification]
#[verifier::external_body]
pub struct ExSystemTimeError(SystemTimeError);

/// `SystemTime::now` reads the clock; nothing is known of what it shows.
pub assume_specification[ SystemTime::now ]() -> SystemTime;

/// `SystemTime::duration_since` measures from `earlier`, and fails if the
/// clock stood before it.
pub assume_specification[ SystemTime::duration_since ](
    t: &SystemTime,
    earlier: SystemTime,
) -> Result<Duration, SystemTimeError>;

/// The number of whole seconds in a duration.
pub uninterp spec fn whole_seconds(d: Duration) -> u64;

/// `Duration::as_secs` is the number of whole seconds.
pub assume_specification[ Duration::as_secs ](d: &Duration) -> (secs: u64)
    ensures
        secs == whole_seconds(*d),
;

/// `SystemTime::UNIX_EPOCH`, the start of 1970 in UTC.
#[verifier::external_body]
fn unix_epoch() -> SystemTime {
    SystemTime::UNIX_EPOCH
}

/// What a measurement from the Unix epoch comes to in seconds: the whole
/// seconds that were measured, and 0 for a clock that stood before the
/// epoch.
pub open spec fn epoch_seconds(measured: Result<Duration, SystemTimeError>) -> u64 {
    match measured {
        Ok(elapsed) => whole_seconds(elapsed),
        Err(_) => 0,
    }
}

/// The seconds that a measurement from the Unix epoch comes to. A time
/// before the epoch counts as the epoch itself.
pub fn seconds_since_epoch(measured: Result<Duration, SystemTimeError>) -> (secs: u64)
    ensures
        secs == epoch_seconds(measured),
{
    match measured {
        Ok(elapsed) => elapsed.as_secs(),
        Err(_) => 0,
    }
}

/// The seconds since the Unix epoch as the system clock has them now, or 0
/// if the clock stands before the epoch. The clock decides: two calls may
/// give any two numbers. What is made of the clock's answer is
/// [`seconds_since_epoch`]'s to say.
pub fn unix_seconds_now() -> u64 {
    let now = SystemTime::now();
    seconds_since_epoch(now.duration_since(unix_epoch()))
}

} // verus!
