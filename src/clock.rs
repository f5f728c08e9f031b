//! Wall-clock timestamps for event logs.
use std::time::{Duration, SystemTime, SystemTimeError};
use vstd::prelude::*;

verus! {

#[verifier::external_type_specification]
#[verifier::external_body]
pub struct ExSystemTime(SystemTime);

#[verifier::external_type_specification]
#[verifier::external_body]
pub struct ExSystemTimeError(SystemTimeError);

/// Relies on `SystemTime::now`: a reading of the system clock, of which
/// nothing is known.
pub assume_specification[ SystemTime::now ]() -> SystemTime;

/// Relies on `SystemTime::duration_since`: the time elapsed since `earlier`,
/// or an error when `earlier` is later.
pub assume_specification[ SystemTime::duration_since ](
    this: &SystemTime,
    earlier: SystemTime,
) -> Result<Duration, SystemTimeError>;

/// Relies on `Duration::as_millis`: the whole milliseconds of a duration.
pub assume_specification[ Duration::as_millis ](this: &Duration) -> u128;

/// Relies on `SystemTime::UNIX_EPOCH`: the instant the clock counts from.
#[verifier::external_body]
fn unix_epoch() -> SystemTime {
    SystemTime::UNIX_EPOCH
}

/// Milliseconds since the Unix epoch, or `None` when the system clock reads
/// an earlier time.
pub fn current_millis() -> (r: Option<u128>) {
    let now = SystemTime::now();
    match now.duration_since(unix_epoch()) {
        Ok(d) => Some(d.as_millis()),
        Err(_) => None,
    }
}

} // verus!
