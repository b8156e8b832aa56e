//! Instants and durations for token expiration.
//!
//! An instant is a count of milliseconds since an epoch start; a duration
//! is a signed count of milliseconds. Comparisons against "now" use `<=`
//! semantics: a token whose expiration equals the current instant is
//! already expired.

use vstd::prelude::*;

verus! {

/// Milliseconds in one second.
pub const MILLIS_PER_SECOND: i64 = 1000;

/// Milliseconds in one day.
pub const MILLIS_PER_DAY: i64 = 86400000;

/// An absolute instant: milliseconds since the epoch start.
#[derive(Clone, Copy, Debug, PartialEq, Eq, Structural, Hash)]
pub struct ExpirationTime {
    /// Milliseconds since the epoch start.
    pub millis: u64,
}

/// A signed span of time in milliseconds. It exists only between a
/// token's issuance and the computation of its absolute expiration.
#[derive(Clone, Copy, Debug, PartialEq, Eq, Structural, Hash)]
pub struct Duration {
    /// The span in milliseconds; negative spans lie in the past.
    pub millis: i64,
}

impl Duration {
    /// A duration of `ms` milliseconds.
    pub fn milliseconds(ms: i64) -> (r: Duration)
        ensures
            r.millis == ms,
    {
        Duration { millis: ms }
    }

    /// A duration of `s` seconds.
    pub fn seconds(s: i64) -> (r: Duration)
        requires
            i64::MIN <= s * MILLIS_PER_SECOND <= i64::MAX,
        ensures
            r.millis == s * MILLIS_PER_SECOND,
    {
        Duration { millis: s * MILLIS_PER_SECOND }
    }

    /// A duration of `d` days.
    pub fn days(d: i64) -> (r: Duration)
        requires
            i64::MIN <= d * MILLIS_PER_DAY <= i64::MAX,
        ensures
            r.millis == d * MILLIS_PER_DAY,
    {
        Duration { millis: d * MILLIS_PER_DAY }
    }
}

/// The instant `start + span`, clamped into the representable range.
pub open spec fn spec_add_duration(start: u64, span: i64) -> u64 {
    if start + span < 0 {
        0u64
    } else if start + span > u64::MAX {
        u64::MAX
    } else {
        (start + span) as u64
    }
}

impl ExpirationTime {
    /// Relies on chrono's conversion from the system clock for the
    /// current instant; that conversion handles a clock reading before
    /// the epoch start without panicking, and the clamp below maps such a
    /// reading to the epoch start. Nothing is promised of a clock reading
    /// except that it fits the signed millisecond range.
    #[verifier::external_body]
    pub fn now() -> (r: ExpirationTime)
        ensures
            r.millis <= i64::MAX as u64,
    {
        let instant = chrono::DateTime::<chrono::Utc>::from(std::time::SystemTime::now());
        let ms = instant.timestamp_millis();
        ExpirationTime { millis: if ms < 0 { 0 } else { ms as u64 } }
    }

    /// The instant `ms` milliseconds after the epoch start.
    pub fn from_millis(ms: u64) -> (r: ExpirationTime)
        ensures
            r.millis == ms,
    {
        ExpirationTime { millis: ms }
    }

    /// Milliseconds since the epoch start.
    pub fn timestamp_millis(&self) -> (r: u64)
        ensures
            r == self.millis,
    {
        self.millis
    }

    /// This instant shifted by `span`, clamped into the representable
    /// range at both ends.
    pub fn add_duration(&self, span: Duration) -> (r: ExpirationTime)
        ensures
            r.millis == spec_add_duration(self.millis, span.millis),
    {
        match self.millis.checked_add_signed(span.millis) {
            Some(v) => ExpirationTime { millis: v },
            None => {
                if span.millis < 0 {
                    ExpirationTime { millis: 0 }
                } else {
                    ExpirationTime { millis: u64::MAX }
                }
            },
        }
    }

    /// Whether this instant has passed at `now` (`<=` semantics: an
    /// expiration equal to `now` counts as passed).
    pub fn has_passed(&self, now: ExpirationTime) -> (r: bool)
        ensures
            r == (self.millis <= now.millis),
    {
        self.millis <= now.millis
    }
}

} // verus!
