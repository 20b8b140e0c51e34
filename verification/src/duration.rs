use vstd::prelude::*;

verus! {

/// A non-negative span of time, counted in whole milliseconds.
///
/// Recency windows from the configuration are carried in this type. The
/// sub-millisecond part of a parsed duration is discarded: file modification
/// times and the current time are compared at millisecond granularity.
#[derive(Clone, Copy, Debug, PartialEq, Eq, Structural)]
pub struct Duration {
    pub millis: i64,
}

impl Duration {
    pub fn milliseconds(n: i64) -> (d: Duration)
        requires
            0 <= n,
        ensures
            d.millis == n,
    {
        Duration { millis: n }
    }

    pub fn seconds(n: i64) -> (d: Duration)
        requires
            0 <= n,
            n * 1000 <= i64::MAX,
        ensures
            d.millis == n * 1000,
    {
        Duration { millis: n * 1000 }
    }

    pub fn minutes(n: i64) -> (d: Duration)
        requires
            0 <= n,
            n * 60000 <= i64::MAX,
        ensures
            d.millis == n * 60000,
    {
        Duration { millis: n * 60000 }
    }

    pub fn hours(n: i64) -> (d: Duration)
        requires
            0 <= n,
            n * 3600000 <= i64::MAX,
        ensures
            d.millis == n * 3600000,
    {
        Duration { millis: n * 3600000 }
    }

    pub fn days(n: i64) -> (d: Duration)
        requires
            0 <= n,
            n * 86400000 <= i64::MAX,
        ensures
            d.millis == n * 86400000,
    {
        Duration { millis: n * 86400000 }
    }

    pub fn weeks(n: i64) -> (d: Duration)
        requires
            0 <= n,
            n * 604800000 <= i64::MAX,
        ensures
            d.millis == n * 604800000,
    {
        Duration { millis: n * 604800000 }
    }

    /// The sum of two spans.
    pub fn plus(self, other: Duration) -> (d: Duration)
        requires
            i64::MIN <= self.millis + other.millis <= i64::MAX,
        ensures
            d.millis == self.millis + other.millis,
    {
        Duration { millis: self.millis + other.millis }
    }
}

} // verus!
