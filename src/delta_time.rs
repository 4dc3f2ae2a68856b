//! Time between updates of a host loop. The clock itself is read through
//! `std::time::Instant`; what is decided from it is verified here.
use vstd::prelude::*;

use std::time::{Duration, Instant};

verus! {

#[verifier::external_type_specification]
#[verifier::external_body]
pub struct ExInstant(Instant);

/// Relies on `Instant::now`: reads the monotonic clock. Nothing is known of
/// the value it returns.
#[verifier::external_body]
fn clock_now() -> Instant {
    Instant::now()
}

/// Relies on `Instant::duration_since`: the time from `earlier` to `later`
/// (zero when `earlier` is the later one). Nothing is known of its value.
#[verifier::external_body]
fn time_between(later: Instant, earlier: Instant) -> Duration {
    later.duration_since(earlier)
}

/// Why a time difference could not be taken.
#[derive(Debug, Clone, Copy, PartialEq, Eq, Structural)]
pub enum DeltaTimeError {
    /// No start time was recorded.
    NoStartTime,
}

/// Measures the time since the last update.
pub struct DeltaTime {
    last_time: Option<Instant>,
}

impl DeltaTime {
    /// Whether a start time is recorded.
    pub closed spec fn started(&self) -> bool {
        self.last_time is Some
    }

    pub fn new() -> (r: DeltaTime)
        ensures
            !r.started(),
    {
        DeltaTime { last_time: None }
    }

    /// Records the current time as the start.
    pub fn update(&mut self)
        ensures
            final(self).started(),
    {
        self.last_time = Some(clock_now());
    }

    /// Forgets the start time.
    pub fn reset(&mut self)
        ensures
            !final(self).started(),
    {
        self.last_time = None;
    }

    /// Whether a start time is recorded.
    pub fn is_started(&self) -> (r: bool)
        ensures
            r == self.started(),
    {
        self.last_time.is_some()
    }

    /// The time since the last update; an error when no start time is recorded.
    pub fn diff(&self) -> (r: Result<Duration, DeltaTimeError>)
        ensures
            r is Ok <==> self.started(),
            r is Err ==> r == Err::<Duration, DeltaTimeError>(DeltaTimeError::NoStartTime),
    {
        match self.last_time {
            Some(last_time) => Ok(time_between(clock_now(), last_time)),
            None => Err(DeltaTimeError::NoStartTime),
        }
    }
}

} // verus!
