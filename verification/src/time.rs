//! Wall-clock timestamps as plain seconds-and-nanoseconds pairs.

use vstd::prelude::*;

verus! {

/// A point in time: seconds since the Unix epoch plus nanoseconds within the
/// second. During a leap second the nanosecond field may run up to but not
/// including two billion.
#[derive(Clone, Copy, Debug, PartialEq, Eq, Structural)]
pub struct Timestamp {
    pub secs: i64,
    pub nanos: u32,
}

impl Timestamp {
    /// The nanosecond field stays below two billion (the extra second of
    /// headroom represents a leap second).
    pub open spec fn wf(self) -> bool {
        self.nanos < 2_000_000_000
    }

    /// Lexicographic order on (seconds, nanoseconds).
    pub open spec fn le(self, other: Timestamp) -> bool {
        self.secs < other.secs || (self.secs == other.secs && self.nanos <= other.nanos)
    }

    /// Relies on chrono's `Utc::now`, `DateTime::timestamp` and
    /// `DateTime::timestamp_subsec_nanos`: the subsecond part is below two
    /// billion nanoseconds. Nothing else can be promised of the clock.
    #[verifier::external_body]
    pub fn now() -> (t: Timestamp)
        ensures
            t.wf(),
    {
        let instant = chrono::Utc::now();
        Timestamp { secs: instant.timestamp(), nanos: instant.timestamp_subsec_nanos() }
    }

    /// Whether `self` is at or before `other`.
    pub fn is_at_or_before(&self, other: &Timestamp) -> (r: bool)
        ensures
            r == self.le(*other),
    {
        self.secs < other.secs || (self.secs == other.secs && self.nanos <= other.nanos)
    }

    /// The later of two timestamps.
    pub fn latest(self, other: Timestamp) -> (r: Timestamp)
        ensures
            r == if self.le(other) {
                other
            } else {
                self
            },
            self.le(r) && other.le(r),
    {
        if self.is_at_or_before(&other) {
            other
        } else {
            self
        }
    }
}

/// The order on timestamps is total: two timestamps always compare one way
/// or the other.
pub proof fn lemma_timestamp_order_total(a: Timestamp, b: Timestamp)
    ensures
        a.le(b) || b.le(a),
        a.le(b) && b.le(a) ==> a == b,
{
}

} // verus!
