//! Spans of time.

use vstd::prelude::*;

verus! {

/// A span of time in whole seconds and nanoseconds.
#[derive(Clone, Copy, Debug, PartialEq, Eq, Structural)]
pub struct Duration {
    /// Whole seconds.
    pub secs: u64,
    /// The nanoseconds beyond them.
    pub nanos: u32,
}

impl View for Duration {
    type V = nat;

    /// The span in nanoseconds.
    open spec fn view(&self) -> nat {
        self.secs as nat * 1_000_000_000 + self.nanos as nat
    }
}

impl Duration {
    /// Whether the nanoseconds make no whole second.
    pub open spec fn normal(self) -> bool {
        self.nanos < 1_000_000_000
    }

    /// The span of this many milliseconds.
    pub fn from_millis(millis: u64) -> (span: Self)
        ensures
            span@ == millis as nat * 1_000_000,
            span.normal(),
    {
        Duration { secs: millis / 1000, nanos: ((millis % 1000) as u32) * 1_000_000 }
    }

    /// The span of this many seconds.
    pub fn from_secs(secs: u64) -> (span: Self)
        ensures
            span@ == secs as nat * 1_000_000_000,
            span.normal(),
    {
        Duration { secs, nanos: 0 }
    }

    /// Tests whether the span is empty.
    pub fn is_zero(&self) -> (zero: bool)
        ensures
            zero == (self@ == 0),
    {
        self.secs == 0 && self.nanos == 0
    }

    /// The shorter of two spans.
    pub fn min(self, other: Duration) -> (span: Duration)
        requires
            self.normal(),
            other.normal(),
        ensures
            span == (if other@ < self@ {
                other
            } else {
                self
            }),
    {
        if other.secs < self.secs || (other.secs == self.secs && other.nanos < self.nanos) {
            other
        } else {
            self
        }
    }
}

/// A span counts its seconds and the nanoseconds beyond them; spans whose nanoseconds make no whole
/// second are equal exactly where they are as long as one another.
pub proof fn law_spans_are_counted_in_nanoseconds(a: Duration, b: Duration)
    ensures
        a@ == a.secs * 1_000_000_000 + a.nanos,
        a.normal() <==> a.nanos < 1_000_000_000,
        a.normal() && b.normal() ==> (a@ == b@ <==> a == b),
{
}

} // verus!
