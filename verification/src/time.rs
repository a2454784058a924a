//! Wall-clock instants at the C boundary, carried as Unix milliseconds.
//!
//! An instant is held as whole seconds relative to the Unix epoch plus a
//! nanosecond fraction, the representation of a POSIX system time.

use vstd::prelude::*;

use crate::status::LuminateStatus;

verus! {

/// A point in time: `secs` whole seconds after (or, when negative, before)
/// the Unix epoch plus `nanos` nanoseconds.
#[derive(Debug, Clone, Copy, PartialEq, Eq, Structural)]
pub struct UnixTime {
    pub secs: i64,
    pub nanos: u32,
}

pub const NANOS_PER_SEC: u32 = 1_000_000_000;

impl UnixTime {
    /// Well-formed: the nanosecond fraction is below one second.
    pub open spec fn valid(self) -> bool {
        self.nanos < NANOS_PER_SEC
    }

    /// The instant in milliseconds since the epoch, rounded toward the past
    /// within the second.
    pub open spec fn spec_millis(self) -> int {
        self.secs * 1000 + self.nanos / 1_000_000
    }

    /// The Unix epoch.
    pub fn epoch() -> (t: UnixTime)
        ensures
            t.valid(),
            t.secs == 0 && t.nanos == 0,
    {
        UnixTime { secs: 0, nanos: 0 }
    }
}

/// The instant `ms` milliseconds after the epoch.
pub open spec fn spec_from_unix_millis(ms: u64) -> UnixTime {
    UnixTime { secs: (ms / 1000) as i64, nanos: ((ms % 1000) * 1_000_000) as u32 }
}

/// The epoch advanced by `ms` milliseconds.
pub fn from_unix_millis(ms: u64) -> (t: UnixTime)
    ensures
        t == spec_from_unix_millis(ms),
        t.valid(),
        t.spec_millis() == ms,
{
    let secs = ms / 1000;
    let rem = ms % 1000;
    assert(secs <= 18_446_744_073_709_551u64);
    let nanos = (rem * 1_000_000) as u32;
    let t = UnixTime { secs: secs as i64, nanos };
    assert(t.nanos / 1_000_000 == rem) by (nonlinear_arith)
        requires t.nanos == rem * 1_000_000, rem < 1000;
    assert(t.secs * 1000 + rem == ms) by (nonlinear_arith)
        requires t.secs == ms / 1000, rem == ms % 1000;
    t
}

/// Optional expiry as received from C: absent when `has_expiry` is false,
/// otherwise the epoch advanced by `unix_ms` milliseconds.
pub open spec fn optional_expiry_outcome(has_expiry: bool, unix_ms: u64) -> Result<Option<UnixTime>, LuminateStatus> {
    if has_expiry {
        Ok(Some(spec_from_unix_millis(unix_ms)))
    } else {
        Ok(None)
    }
}

/// Converts a C optional expiry into an instant. Every millisecond count
/// representable in `u64` lies within the representable range, so the
/// conversion never fails.
pub fn optional_expiry(has_expiry: bool, unix_ms: u64) -> (result: Result<Option<UnixTime>, LuminateStatus>)
    ensures
        result == optional_expiry_outcome(has_expiry, unix_ms),
        result matches Ok(Some(t)) ==> t.valid() && t.spec_millis() == unix_ms,
{
    if !has_expiry {
        return Ok(None);
    }
    Ok(Some(from_unix_millis(unix_ms)))
}

/// Milliseconds since the epoch of an instant, when it is not before the
/// epoch and the count fits in `u64`.
pub open spec fn unix_millis_outcome(t: UnixTime) -> Option<u64> {
    if t.secs < 0 || t.spec_millis() > u64::MAX {
        None
    } else {
        Some(t.spec_millis() as u64)
    }
}

/// Converts an instant to Unix milliseconds; `None` for instants before the
/// epoch or beyond the `u64` millisecond range.
pub fn system_time_unix_ms(t: UnixTime) -> (ms: Option<u64>)
    requires
        t.valid(),
    ensures
        ms == unix_millis_outcome(t),
{
    if t.secs < 0 {
        return None;
    }
    let secs = t.secs as u128;
    let millis: u128 = secs * 1000 + (t.nanos / 1_000_000) as u128;
    if millis > u64::MAX as u128 {
        None
    } else {
        Some(millis as u64)
    }
}

/// An expiry converted from C milliseconds reads back as the same
/// milliseconds.
pub proof fn lemma_expiry_round_trip(unix_ms: u64)
    ensures
        unix_millis_outcome(spec_from_unix_millis(unix_ms)) == Some(unix_ms),
{
    let t = spec_from_unix_millis(unix_ms);
    let rem = unix_ms % 1000;
    assert((rem * 1_000_000) / 1_000_000 == rem) by (nonlinear_arith)
        requires rem < 1000;
    assert((unix_ms / 1000) * 1000 + rem == unix_ms) by (nonlinear_arith)
        requires rem == unix_ms % 1000;
    assert(t.secs == unix_ms / 1000);
    assert(t.nanos == rem * 1_000_000);
}

} // verus!
