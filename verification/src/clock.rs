//! The wall clock.

use std::time::{Duration, SystemTime, SystemTimeError};
use vstd::prelude::*;

verus! {

/// A point in time of the system clock. Nothing is claimed of what it holds.
#[verifier::external_type_specification]
#[verifier::external_body]
pub struct ExSystemTime(SystemTime);

/// The error for a span that would be negative. Nothing is claimed of what it
/// holds.
#[verifier::external_type_specification]
#[verifier::external_body]
pub struct ExSystemTimeError(SystemTimeError);

/// `SystemTime::now` of the standard library: the current time. Nothing is
/// claimed of it.
pub assume_specification[ SystemTime::now ]() -> (r: SystemTime)
;

/// `Duration::as_secs` of the standard library: the whole seconds of a span.
/// Nothing is claimed of them.
pub assume_specification[ Duration::as_secs ](span: &Duration) -> (r: u64)
;

/// `SystemTime::duration_since` of the standard library, counted from the Unix
/// epoch. Nothing is claimed of its outcome.
#[verifier::external_body]
fn since_epoch(t: SystemTime) -> (r: Result<Duration, SystemTimeError>) {
    t.duration_since(std::time::UNIX_EPOCH)
}

/// A number of seconds as a signed one, and 0 where none is known.
pub fn epoch_secs(since: Option<u64>) -> (r: i64)
    ensures
        r == (match since {
            Some(s) => s as i64,
            None => 0i64,
        }),
{
    match since {
        Some(s) => s as i64,
        None => 0,
    }
}

/// `since` is what the system clock may give as the span since the epoch.
pub closed spec fn clock_may_give(since: Result<Duration, SystemTimeError>) -> bool {
    exists|t: SystemTime| #[trigger]
        call_ensures(SystemTime::now, (), t) && call_ensures(since_epoch, (t,), since)
}

/// `r` is the signed number of seconds of a span since the epoch; 0 for a time
/// before the epoch.
pub open spec fn seconds_of(since: Result<Duration, SystemTimeError>, r: i64) -> bool {
    match since {
        Ok(span) => exists|s: u64| #[trigger]
            call_ensures(Duration::as_secs, (&span,), s) && r == s as i64,
        Err(_) => r == 0,
    }
}

/// `r` is what the system clock may give as the time in seconds.
pub open spec fn clock_reads(r: i64) -> bool {
    exists|since: Result<Duration, SystemTimeError>| #[trigger]
        clock_may_give(since) && seconds_of(since, r)
}

/// The current time in seconds since the Unix epoch, and 0 for a clock that
/// stands before it. Which time it is stays open; that it was read from the
/// clock, and how it is made a number, does not.
pub fn now_epoch_secs() -> (r: i64)
    ensures
        clock_reads(r),
{
    let t = SystemTime::now();
    let since = since_epoch(t);
    assert(call_ensures(SystemTime::now, (), t));
    assert(clock_may_give(since));
    match since {
        Ok(span) => {
            let s: u64 = span.as_secs();
            assert(call_ensures(Duration::as_secs, (&span,), s));
            epoch_secs(Some(s))
        },
        Err(_) => epoch_secs(None),
    }
}

/// A reading of the clock is the number of whole seconds of a span since the
/// epoch that the system clock gave, and 0 only for that number or for a time
/// before the epoch.
pub proof fn reading_comes_from_the_clock(r: i64)
    requires
        clock_reads(r),
    ensures
        exists|since: Result<Duration, SystemTimeError>| #[trigger]
            clock_may_give(since) && match since {
                Ok(span) => exists|s: u64| #[trigger]
                    call_ensures(Duration::as_secs, (&span,), s) && r == s as i64,
                Err(_) => r == 0,
            },
{
}

} // verus!
