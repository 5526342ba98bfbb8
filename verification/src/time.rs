//! Spans of time, counted in nanoseconds, and points in time, counted from the
//! Unix epoch.
use std::time::Duration;
use std::time::SystemTime;

use vstd::prelude::*;

verus! {

/// A point in time.
#[verifier::external_type_specification]
#[verifier::external_body]
pub struct ExSystemTime(SystemTime);

/// How many nanoseconds a span of time holds: what `Duration::as_nanos` returns.
pub uninterp spec fn nanos(span: Duration) -> u128;

/// `Duration::as_nanos` returns the whole span in nanoseconds.
pub assume_specification[ Duration::as_nanos ](span: &Duration) -> (r: u128)
    ensures
        r == nanos(*span),
;

/// `Duration::from_millis` makes a span of so many milliseconds.
pub assume_specification[ Duration::from_millis ](millis: u64) -> (r: Duration)
    ensures
        nanos(r) == millis * 1_000_000,
;

/// `Duration::from_secs` makes a span of so many seconds.
pub assume_specification[ Duration::from_secs ](secs: u64) -> (r: Duration)
    ensures
        nanos(r) == secs * 1_000_000_000,
;

/// `Duration::saturating_sub` takes one span off another; nothing is left if it is
/// longer.
pub assume_specification[ Duration::saturating_sub ](span: Duration, other: Duration) -> (r:
    Duration)
    ensures
        nanos(r) == if nanos(span) >= nanos(other) {
            nanos(span) - nanos(other)
        } else {
            0
        },
;

/// The longer of two spans.
pub fn longer(a: Duration, b: Duration) -> (r: Duration)
    ensures
        nanos(r) == if nanos(a) >= nanos(b) {
            nanos(a)
        } else {
            nanos(b)
        },
{
    if a.as_nanos() >= b.as_nanos() {
        a
    } else {
        b
    }
}

/// How many nanoseconds a span holds, where there is one.
pub open spec fn optional_nanos(span: Option<Duration>) -> Option<u128> {
    match span {
        Some(span) => Some(nanos(span)),
        None => None,
    }
}

/// The whole milliseconds of a span.
pub open spec fn millis(span: Duration) -> nat {
    (nanos(span) / 1_000_000) as nat
}

/// The whole milliseconds of a span of time.
pub fn whole_millis(span: Duration) -> (r: u128)
    ensures
        r == millis(span),
{
    span.as_nanos() / 1_000_000
}

/// How many nanoseconds a point in time lies after the Unix epoch, or before it
/// if negative: what `SystemTime::duration_since` says of it.
pub uninterp spec fn epoch_nanos(at: SystemTime) -> int;

/// `SystemTime::duration_since` with the Unix epoch: whether the point lies at or
/// after the epoch, and how far from it.
#[verifier::external_body]
pub(crate) fn from_epoch(at: SystemTime) -> (r: (bool, Duration))
    ensures
        r.0 ==> epoch_nanos(at) == nanos(r.1),
        !r.0 ==> epoch_nanos(at) == -nanos(r.1),
{
    match at.duration_since(SystemTime::UNIX_EPOCH) {
        Ok(span) => (true, span),
        Err(error) => (false, error.duration()),
    }
}

/// Whether some point in time lies so many nanoseconds from the Unix epoch. How far
/// points in time reach is a matter of the machine.
pub open spec fn has_point(distance: int) -> bool {
    exists|at: SystemTime| #[trigger] epoch_nanos(at) == distance
}

/// `SystemTime::checked_add` to the Unix epoch: the point in time that lies so far
/// after it, and none only if there is no such point. Points in time may be as coarse
/// as 100 nanoseconds, so spans are of whole milliseconds.
#[verifier::external_body]
pub(crate) fn after_epoch(span: Duration) -> (r: Option<SystemTime>)
    requires
        nanos(span) % 1_000_000 == 0,
    ensures
        match r {
            Some(at) => epoch_nanos(at) == nanos(span),
            None => !has_point(nanos(span) as int),
        },
{
    SystemTime::UNIX_EPOCH.checked_add(span)
}

/// `SystemTime::checked_sub` from the Unix epoch: the point in time that lies so far
/// before it, and none only if there is no such point. Points in time may be as coarse
/// as 100 nanoseconds, so spans are of whole milliseconds.
#[verifier::external_body]
pub(crate) fn before_epoch(span: Duration) -> (r: Option<SystemTime>)
    requires
        nanos(span) % 1_000_000 == 0,
    ensures
        match r {
            Some(at) => epoch_nanos(at) == -nanos(span),
            None => !has_point(-nanos(span)),
        },
{
    SystemTime::UNIX_EPOCH.checked_sub(span)
}

/// The whole milliseconds from the Unix epoch to a point in time, so many as fit
/// into an `i64`. Parts of a millisecond are left out on both sides of it.
pub open spec fn epoch_millis(at: SystemTime) -> Option<i64> {
    let n = epoch_nanos(at);
    if n >= 0 {
        if n / 1_000_000 <= i64::MAX {
            Some((n / 1_000_000) as i64)
        } else {
            None
        }
    } else if (-n) / 1_000_000 <= i64::MAX {
        Some((-((-n) / 1_000_000)) as i64)
    } else {
        None
    }
}

/// The whole milliseconds from the Unix epoch to a point in time.
pub fn unix_millis(at: SystemTime) -> (r: Option<i64>)
    ensures
        r == epoch_millis(at),
{
    let (after, span) = from_epoch(at);
    let millis: u128 = whole_millis(span);
    if millis > i64::MAX as u128 {
        return None;
    }
    if after {
        Some(millis as i64)
    } else {
        Some(-(millis as i64))
    }
}

/// The point in time so many milliseconds from the Unix epoch; none only if there is
/// no such point.
pub fn system_time_from_unix_millis(millis: i64) -> (r: Option<SystemTime>)
    ensures
        match r {
            Some(at) => epoch_nanos(at) == millis * 1_000_000,
            None => !has_point(millis * 1_000_000),
        },
{
    if millis >= 0 {
        after_epoch(Duration::from_millis(millis as u64))
    } else {
        let distance: u64 = if millis == i64::MIN {
            9_223_372_036_854_775_808
        } else {
            (-millis) as u64
        };
        before_epoch(Duration::from_millis(distance))
    }
}

/// A point in time that is so many milliseconds from the Unix epoch has so many.
/// The lowest of all numbers is left out: there are not as many above zero.
pub proof fn lemma_unix_millis_round_trip(millis: i64, at: SystemTime)
    requires
        epoch_nanos(at) == millis * 1_000_000,
        millis > i64::MIN,
    ensures
        epoch_millis(at) == Some(millis),
{
}

} // verus!
