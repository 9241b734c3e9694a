//! Wall-clock timestamps in milliseconds and the debounce gate built on them.

use std::time::{Duration, SystemTime, SystemTimeError};
use vstd::prelude::*;

verus! {

#[verifier::external_type_specification]
#[verifier::external_body]
pub struct ExSystemTime(SystemTime);

#[verifier::external_type_specification]
#[verifier::external_body]
pub struct ExSystemTimeError(SystemTimeError);

/// Two triggers closer together than this many milliseconds count as one.
pub const DEBOUNCE_MILLIS: u128 = 300;

/// `std::time::SystemTime::now`: the wall clock's reading. Nothing is claimed
/// of it: it differs from call to call and may even run backwards.
#[verifier::external_body]
fn wall_clock() -> SystemTime {
    SystemTime::now()
}

/// `std::time::SystemTime::duration_since`, measured from `UNIX_EPOCH`. It
/// fails when the reading lies before the epoch. Nothing is claimed of the
/// result.
#[verifier::external_body]
fn since_epoch(reading: &SystemTime) -> Result<Duration, SystemTimeError> {
    reading.duration_since(std::time::UNIX_EPOCH)
}

/// `std::time::Duration::as_millis`: the whole milliseconds in a duration.
/// Nothing is claimed of the result.
#[verifier::external_body]
fn whole_millis(span: &Duration) -> u128 {
    span.as_millis()
}

/// The timestamp that goes with a reading of the clock: the milliseconds
/// that have passed since the Unix epoch, or zero where the reading lies
/// before the epoch and no such number exists.
pub fn timestamp_of(elapsed: Option<u128>) -> (millis: u128)
    ensures
        millis == (match elapsed {
            Some(passed) => passed,
            None => 0,
        }),
{
    match elapsed {
        Some(passed) => passed,
        None => 0,
    }
}

/// The timestamp of the wall clock's present reading. The value depends on
/// the clock alone, so the contract is silent on it; `timestamp_of` says how
/// it follows from the reading.
pub fn now_millis() -> u128 {
    let reading = wall_clock();
    let elapsed = match since_epoch(&reading) {
        Ok(span) => Some(whole_millis(&span)),
        Err(_) => None,
    };
    timestamp_of(elapsed)
}

/// Whether a trigger at `now` falls inside the debounce window that opened at
/// `last`. The difference is taken over the integers, so a clock that ran
/// backwards (`now < last`) is inside the window.
pub open spec fn within_debounce(now: u128, last: u128) -> bool {
    now - last < DEBOUNCE_MILLIS
}

/// Decides whether a trigger at `now` is to be discarded.
pub fn is_debounced(now: u128, last: u128) -> (discard: bool)
    ensures
        discard == within_debounce(now, last),
{
    now < last || now - last < DEBOUNCE_MILLIS
}

} // verus!
