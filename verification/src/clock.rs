//! The wall clock, read through `std::time`.

use vstd::prelude::*;

verus! {

#[verifier::external_type_specification]
#[verifier::external_body]
pub struct ExSystemTime(std::time::SystemTime);

/// `SystemTime::now`: the current wall-clock time.  Nothing is known of it.
#[verifier::external_body]
pub(crate) fn system_time_now() -> std::time::SystemTime {
    std::time::SystemTime::now()
}

/// `SystemTime::duration_since(UNIX_EPOCH)` in whole seconds; when the time
/// lies before the epoch, the display text of the `SystemTimeError`.  Nothing
/// is known of the value.
#[verifier::external_body]
pub(crate) fn seconds_since_unix_epoch(time: std::time::SystemTime) -> Result<u64, String> {
    time.duration_since(std::time::UNIX_EPOCH).map(|duration| duration.as_secs()).map_err(
        |error| error.to_string(),
    )
}

/// The current unix time in seconds, `None` when the clock reads before
/// 1970.
pub fn unix_timestamp() -> Option<u64> {
    match seconds_since_unix_epoch(system_time_now()) {
        Ok(seconds) => Some(seconds),
        Err(_) => None,
    }
}

} // verus!
