//! The system's clocks.

use vstd::prelude::*;

use crate::duration::Duration;

verus! {

/// `std::time::SystemTime`, carried unread.
#[verifier::external_type_specification]
#[verifier::external_body]
pub struct ExSystemTime(std::time::SystemTime);

/// `std::time::Instant`, carried unread.
#[verifier::external_type_specification]
#[verifier::external_body]
pub struct ExInstant(std::time::Instant);

/// Calls `SystemTime::now`. Nothing is said of the result.
#[verifier::external_body]
fn system_time_now() -> (time: std::time::SystemTime)
{
    std::time::SystemTime::now()
}

/// Calls `SystemTime::duration_since` with the Unix epoch, and gives the span as seconds and
/// nanoseconds, or `None` where `time` lies before the epoch. Of the span only this is said: the
/// nanoseconds are below one second.
#[verifier::external_body]
fn since_unix_epoch(time: std::time::SystemTime) -> (parts: Option<(u64, u32)>)
    ensures
        parts matches Some(p) ==> p.1 < 1_000_000_000,
{
    match time.duration_since(std::time::UNIX_EPOCH) {
        Ok(span) => Some((span.as_secs(), span.subsec_nanos())),
        Err(_) => None,
    }
}

/// Calls `Instant::now`. Nothing is said of the result.
#[verifier::external_body]
fn instant_now() -> (instant: std::time::Instant)
{
    std::time::Instant::now()
}

/// Calls `Instant::elapsed`, and gives the span as seconds and nanoseconds. Of the span only this
/// is said: the nanoseconds are below one second.
#[verifier::external_body]
fn instant_elapsed(instant: &std::time::Instant) -> (parts: (u64, u32))
    ensures
        parts.1 < 1_000_000_000,
{
    let span = instant.elapsed();
    (span.as_secs(), span.subsec_nanos())
}

/// The nanoseconds of a span that is given as seconds and nanoseconds.
pub open spec fn nanos_of(parts: (u64, u32)) -> nat {
    (parts.0 * 1_000_000_000 + parts.1) as nat
}

/// The span that a clock gives as seconds, and nanoseconds below one second.
pub fn span_of(parts: (u64, u32)) -> (span: Duration)
    requires
        parts.1 < 1_000_000_000,
    ensures
        span@ == nanos_of(parts),
        span@ < crate::duration::duration_limit(),
{
    match Duration::from_parts(parts.0, parts.1) {
        Some(span) => span,
        None => Duration::zero(),
    }
}

/// The reading that the system's clock gives as seconds and nanoseconds since the Unix epoch, or
/// as `None` where it is set before the epoch.
pub fn reading_of(parts: Option<(u64, u32)>) -> (reading: Option<Duration>)
    requires
        parts matches Some(since) ==> since.1 < 1_000_000_000,
    ensures
        reading.deep_view() == match parts {
            Some(since) => Some(nanos_of(since)),
            None => None,
        },
        is_reading(reading.deep_view()),
{
    match parts {
        Some(since) => Some(span_of(since)),
        None => None,
    }
}

/// A reading of the system's clock that can come back: none, or one that a span can hold.
pub open spec fn is_reading(reading: Option<nat>) -> bool {
    reading matches Some(time) ==> time < crate::duration::duration_limit()
}

/// The time since the Unix epoch, or `None` where the system's clock is set before it. Any such
/// reading may come back; [`reading_of`] says what is made of it.
pub fn unix_time() -> (time: Option<Duration>)
    ensures
        is_reading(time.deep_view()),
{
    reading_of(since_unix_epoch(system_time_now()))
}

/// The time since the Unix epoch that a reading of the clock stands for: a clock that is set
/// before the epoch stands for the epoch.
pub open spec fn epoch_nanos(reading: Option<nat>) -> nat {
    match reading {
        Some(time) => time,
        None => 0,
    }
}

/// The time since the Unix epoch that a reading of the clock stands for.
pub fn time_of(reading: Option<Duration>) -> (time: Duration)
    ensures
        time@ == epoch_nanos(reading.deep_view()),
{
    match reading {
        Some(time) => time,
        None => Duration::zero(),
    }
}

/// A clock that only moves forward and counts from its own start.
pub struct MonotonicClock {
    origin: std::time::Instant,
}

impl MonotonicClock {
    /// Starts a clock, at whatever instant the system is at.
    pub fn start() -> (clock: MonotonicClock) {
        MonotonicClock { origin: instant_now() }
    }

    /// The time since the clock was started. Any span may come back; [`span_of`] says what is made
    /// of it.
    pub fn now(&self) -> (time: Duration)
        ensures
            time@ < crate::duration::duration_limit(),
    {
        span_of(instant_elapsed(&self.origin))
    }
}

/// A span that a clock gives as seconds and nanoseconds is that many of each; a clock before the
/// epoch is at the epoch.
pub proof fn law_clock_readings(secs: u64, nanos: u32, time: nat)
    ensures
        nanos_of((secs, nanos)) == secs * 1_000_000_000 + nanos,
        epoch_nanos(Some(time)) == time,
        epoch_nanos(None) == 0,
        is_reading(None),
        is_reading(Some(time)) <==> time < 0x1_0000_0000_0000_0000 * 1_000_000_000,
{
}

} // verus!
