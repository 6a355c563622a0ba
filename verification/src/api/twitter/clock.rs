//! The time of day, in seconds since the Unix epoch.
use vstd::prelude::*;

verus! {

/// `std::time::SystemTime`, a point in time as the system's clock has it.
#[verifier::external_type_specification]
#[verifier::external_body]
pub struct ExSystemTime(std::time::SystemTime);

/// `std::time::SystemTime`, a point in time as the system's clock has it.
/// `std::time::SystemTimeError`, what `duration_since` gives where the second
/// time is the later one.
#[verifier::external_type_specification]
#[verifier::external_body]
pub struct ExSystemTimeError(std::time::SystemTimeError);

/// `SystemTime::now` of the standard library reads the system's clock:
/// nothing is promised of what it gives.
pub assume_specification[ std::time::SystemTime::now ]() -> (now: std::time::SystemTime)
;

/// `SystemTime::duration_since` of the standard library gives the time that
/// passed since `earlier`, or an error where `earlier` is the later of the
/// two. Nothing is promised of either.
pub assume_specification[ std::time::SystemTime::duration_since ](
    time: &std::time::SystemTime,
    earlier: std::time::SystemTime,
) -> (passed: Result<std::time::Duration, std::time::SystemTimeError>)
;

/// `SystemTimeError::duration` of the standard library gives how far the
/// second time lay after the first.
pub assume_specification[ std::time::SystemTimeError::duration ](
    error: &std::time::SystemTimeError,
) -> (distance: std::time::Duration)
;

/// `Duration::as_secs` of the standard library gives the whole seconds of a
/// duration.
pub assume_specification[ std::time::Duration::as_secs ](duration: &std::time::Duration) -> (secs:
    u64)
;

/// The constant `std::time::UNIX_EPOCH`.
#[verifier::external_body]
fn unix_epoch() -> (epoch: std::time::SystemTime) {
    std::time::UNIX_EPOCH
}

/// The seconds between now and the Unix epoch, whichever of the two the
/// system's clock puts first.
pub(crate) fn unix_seconds() -> (secs: u64) {
    match std::time::SystemTime::now().duration_since(unix_epoch()) {
        Ok(passed) => passed.as_secs(),
        Err(error) => error.duration().as_secs(),
    }
}

} // verus!
