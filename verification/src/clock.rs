//! The server's clock.

use std::time::Duration;
use std::time::SystemTime;
use std::time::SystemTimeError;
use vstd::prelude::*;

verus! {

/// `std::time::SystemTime`: a reading of the system clock, opaque here.
#[verifier::external_type_specification]
#[verifier::external_body]
pub struct ExSystemTime(SystemTime);

/// `std::time::SystemTimeError`: what `SystemTime::duration_since` gives when
/// the second reading is the later one, opaque here.
#[verifier::external_type_specification]
#[verifier::external_body]
pub struct ExSystemTimeError(SystemTimeError);

/// The time that passed from the Unix epoch to `reading`, as
/// `SystemTime::duration_since` gives it; `None` for a reading before the
/// epoch.
pub uninterp spec fn elapsed_since_epoch(reading: SystemTime) -> Option<Duration>;

/// The whole seconds of `elapsed`, as `Duration::as_secs` gives them.
pub uninterp spec fn whole_seconds(elapsed: Duration) -> u64;

/// The timestamp of `reading`: the whole seconds that passed from the Unix
/// epoch to it, and 0 for a reading before the epoch.
pub open spec fn epoch_seconds(reading: SystemTime) -> u64 {
    match elapsed_since_epoch(reading) {
        Some(elapsed) => whole_seconds(elapsed),
        None => 0,
    }
}

/// `SystemTime::now` reads the system clock; nothing is claimed of the
/// reading.
pub assume_specification[ SystemTime::now ]() -> (now: SystemTime)
;

/// `SystemTime::duration_since`, asked for the time that passed from the Unix
/// epoch to `reading`: that time where there is one, and an error exactly
/// when `reading` lies before the epoch.
#[verifier::external_body]
fn since_epoch(reading: &SystemTime) -> (elapsed: Result<Duration, SystemTimeError>)
    ensures
        match elapsed {
            Ok(passed) => elapsed_since_epoch(*reading) == Some(passed),
            Err(_) => elapsed_since_epoch(*reading) is None,
        },
{
    reading.duration_since(SystemTime::UNIX_EPOCH)
}

/// `Duration::as_secs` gives the whole seconds of a duration.
pub assume_specification[ Duration::as_secs ](elapsed: &Duration) -> (seconds: u64)
    ensures
        seconds == whole_seconds(*elapsed),
;

/// Whole seconds from the Unix epoch to the present reading of the system
/// clock. A clock that reads earlier than the epoch counts as the epoch: 0.
pub fn timestamp() -> (seconds: u64)
    ensures
        exists|reading: SystemTime| seconds == #[trigger] epoch_seconds(reading),
{
    let now = SystemTime::now();
    let elapsed = match since_epoch(&now) {
        Ok(elapsed) => Some(elapsed.as_secs()),
        Err(_) => None,
    };
    let seconds = seconds_or_epoch(elapsed);
    assert(seconds == epoch_seconds(now));
    seconds
}

/// The timestamp for a clock that read `elapsed` whole seconds after the
/// Unix epoch, or, with `None`, a time before the epoch: the seconds as they
/// are, and 0 for a time before the epoch.
pub fn seconds_or_epoch(elapsed: Option<u64>) -> (seconds: u64)
    ensures
        seconds == match elapsed {
            Some(whole) => whole,
            None => 0,
        },
{
    match elapsed {
        Some(whole) => whole,
        None => 0,
    }
}

} // verus!
