//! The wall clock, in milliseconds since the Unix epoch.
use vstd::prelude::*;

verus! {

#[verifier::external_type_specification]
#[verifier::external_body]
pub struct ExSystemTime(std::time::SystemTime);

/// Why the clock cannot be read as a time since the epoch.
#[derive(Debug, Clone, Copy, PartialEq, Eq, Structural)]
pub enum ClockError {
    /// The system time lies before the Unix epoch.
    BeforeUnixEpoch,
}

/// `SystemTime::now`: the current system time. What it is depends on the
/// clock, so nothing is stated of it.
#[verifier::external_body]
fn system_time_now() -> std::time::SystemTime {
    std::time::SystemTime::now()
}

/// `SystemTime::duration_since(UNIX_EPOCH)`: the time elapsed since the
/// epoch, or `None` where the time lies before it. Nothing is stated of the
/// duration, which this library cannot look into.
#[verifier::external_body]
fn since_unix_epoch(t: std::time::SystemTime) -> Option<std::time::Duration> {
    t.duration_since(std::time::UNIX_EPOCH).ok()
}

/// `Duration::as_millis`: the whole milliseconds of a duration. The
/// duration is opaque here, so nothing is stated of the result.
#[verifier::external_body]
fn duration_as_millis(d: std::time::Duration) -> u128 {
    d.as_millis()
}

/// Milliseconds as a `u64`, with `u64::MAX` for anything larger.
pub fn saturating_millis(ms: u128) -> (r: u64)
    ensures
        r == (if ms > u64::MAX as u128 {
            u64::MAX
        } else {
            ms as u64
        }),
{
    if ms > u64::MAX as u128 {
        u64::MAX
    } else {
        ms as u64
    }
}

/// The current time in milliseconds since the Unix epoch, saturated to
/// `u64`; an error where the clock lies before the epoch. Which time comes
/// back depends on the clock.
pub fn now_millis() -> (r: Result<u64, ClockError>) {
    match since_unix_epoch(system_time_now()) {
        None => Err(ClockError::BeforeUnixEpoch),
        Some(d) => Ok(saturating_millis(duration_as_millis(d))),
    }
}

} // verus!
