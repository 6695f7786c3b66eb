//! The persisted running session.
//!
//! The process may be killed while in the background, and the timer's state lives in
//! memory only. So the run state is saved together with the wall-clock second at which
//! it was recorded (the anchor). At the next launch, `now - anchor` seconds are handed
//! to one tick, which brings the session to where it would be had the process kept
//! running (see `Timer::restore_for_launch`).

use vstd::prelude::*;

use std::time::{Duration, SystemTime, SystemTimeError};

use crate::timer::{Timer, TimerState};

verus! {

#[verifier::external_type_specification]
#[verifier::external_body]
pub struct ExSystemTime(SystemTime);

#[verifier::external_type_specification]
#[verifier::external_body]
pub struct ExSystemTimeError(SystemTimeError);

/// `std::time::SystemTime::now`. Nothing is stated of the result: it is the machine's
/// wall clock.
#[verifier::external_body]
fn system_time_now() -> SystemTime {
    SystemTime::now()
}

/// `SystemTime::duration_since` with `UNIX_EPOCH` as the earlier time. Nothing is stated
/// of the result: it depends on the wall-clock value held by `t`.
#[verifier::external_body]
fn duration_since_unix_epoch(t: &SystemTime) -> Result<Duration, SystemTimeError> {
    t.duration_since(std::time::UNIX_EPOCH)
}

/// `Duration::as_secs`. Nothing is stated of the result: `Duration` is opaque here.
#[verifier::external_body]
fn duration_as_secs(d: &Duration) -> u64 {
    d.as_secs()
}

/// The wall clock in whole UNIX seconds, or 0 when the clock reads before the epoch.
/// Nothing is stated of the value: it is the time. A 0 is never persisted as an anchor
/// (see `session_to_persist`).
pub fn now_unix_secs() -> u64 {
    let now = system_time_now();
    match duration_since_unix_epoch(&now) {
        Ok(d) => duration_as_secs(&d),
        Err(_) => 0,
    }
}

/// A running session as persisted: the run state and the wall-clock second it was
/// recorded at.
#[derive(Debug, Clone, Copy, PartialEq, Eq, Structural)]
pub struct PersistedSession {
    /// The timer's run state when recorded.
    pub state: TimerState,
    /// Wall clock (UNIX seconds) when the state was recorded.
    pub anchor_unix_secs: u64,
}

/// The record to persist for `timer` at wall-clock second `anchor_unix_secs`, or `None`
/// when the anchor is 0 (the clock could not be read): an anchor of 0 would turn into a
/// huge elapsed time at the next launch.
pub fn session_to_persist(timer: &Timer, anchor_unix_secs: u64) -> (r: Option<PersistedSession>)
    ensures
        r == (if anchor_unix_secs == 0 {
            None
        } else {
            Some(PersistedSession { state: timer.model_state(), anchor_unix_secs })
        }),
{
    if anchor_unix_secs == 0 {
        None
    } else {
        Some(PersistedSession { state: timer.state(), anchor_unix_secs })
    }
}

} // verus!
