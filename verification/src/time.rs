//! Spans of time as whole seconds plus nanoseconds.

use vstd::prelude::*;

verus! {

/// Nanoseconds in one second.
pub const NANOS_PER_SEC: u32 = 1_000_000_000;

/// A non-negative span of time.
///
/// Ordering compares seconds first, then the sub-second part.
#[derive(Debug, Clone, Copy, PartialEq, Eq, PartialOrd, Ord, Hash)]
pub struct Duration {
    secs: u64,
    nanos: u32,
}

impl Duration {
    #[verifier::type_invariant]
    spec fn normalized(self) -> bool {
        self.nanos < NANOS_PER_SEC
    }

    /// Whole seconds of the span.
    pub closed spec fn whole_secs(self) -> nat {
        self.secs as nat
    }

    /// Part of the span below one second, in nanoseconds.
    pub closed spec fn subsec_nanos(self) -> nat {
        self.nanos as nat
    }

    /// The span in whole milliseconds.
    pub open spec fn total_millis(self) -> nat {
        self.whole_secs() * 1000 + self.subsec_nanos() / 1_000_000
    }

    /// The span of `secs` seconds.
    pub closed spec fn spec_from_secs(secs: u64) -> Duration {
        Duration { secs, nanos: 0 }
    }

    /// A span of `secs` seconds.
    pub fn from_secs(secs: u64) -> (d: Duration)
        ensures
            d == Duration::spec_from_secs(secs),
            d.whole_secs() == secs,
            d.subsec_nanos() == 0,
    {
        Duration { secs, nanos: 0 }
    }

    /// The span of `millis` milliseconds.
    pub closed spec fn spec_from_millis(millis: u64) -> Duration {
        Duration { secs: millis / 1000, nanos: ((millis % 1000) * 1_000_000) as u32 }
    }

    /// A span of `millis` milliseconds.
    pub fn from_millis(millis: u64) -> (d: Duration)
        ensures
            d == Duration::spec_from_millis(millis),
            d.whole_secs() == millis / 1000,
            d.subsec_nanos() == (millis % 1000) * 1_000_000,
            d.total_millis() == millis,
    {
        let sub: u32 = (millis % 1000) as u32;
        Duration { secs: millis / 1000, nanos: sub * 1_000_000 }
    }

    /// The span in nanoseconds.
    pub open spec fn total_nanos(self) -> nat {
        self.whole_secs() * 1_000_000_000 + self.subsec_nanos()
    }

    /// Whether this span is longer than `other`.
    pub fn exceeds(&self, other: &Duration) -> (b: bool)
        ensures
            b == (self.total_nanos() > other.total_nanos()),
    {
        proof {
            use_type_invariant(self);
            use_type_invariant(other);
        }
        self.secs > other.secs || (self.secs == other.secs && self.nanos > other.nanos)
    }

    /// Whole seconds of the span.
    pub fn as_secs(&self) -> (s: u64)
        ensures
            s == self.whole_secs(),
    {
        self.secs
    }

    /// The span in whole milliseconds.
    pub fn as_millis(&self) -> (ms: u128)
        ensures
            ms == self.total_millis(),
    {
        proof {
            use_type_invariant(self);
        }
        (self.secs as u128) * 1000 + (self.nanos / 1_000_000) as u128
    }
}

/// The span of `secs` seconds has `secs` whole seconds and nothing below.
pub proof fn lemma_from_secs(secs: u64)
    ensures
        Duration::spec_from_secs(secs).whole_secs() == secs,
        Duration::spec_from_secs(secs).subsec_nanos() == 0,
{
}

/// The span of `millis` milliseconds has `millis / 1000` whole seconds and
/// the rest as nanoseconds; the span of a thousand times `secs` milliseconds
/// is the span of `secs` seconds.
pub proof fn lemma_from_millis(millis: u64)
    ensures
        Duration::spec_from_millis(millis).whole_secs() == millis / 1000,
        Duration::spec_from_millis(millis).subsec_nanos() == (millis % 1000) * 1_000_000,
        Duration::spec_from_millis(millis).total_millis() == millis,
        millis % 1000 == 0 ==> Duration::spec_from_millis(millis) == Duration::spec_from_secs(
            millis / 1000,
        ),
{
}

} // verus!
