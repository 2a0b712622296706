//! Spans of time with nanosecond precision.

use vstd::prelude::*;


verus! {

/// The nanoseconds in a second.
pub const NANOS_PER_SEC: u32 = 1_000_000_000;

/// A span of time: whole seconds, and nanoseconds below one second.
///
/// Its view is the number of nanoseconds that it spans.
#[derive(Clone, Copy, Debug, PartialEq, Eq)]
pub struct Duration {
    secs: u64,
    nanos: u32,
}

impl View for Duration {
    type V = nat;

    closed spec fn view(&self) -> nat {
        (self.secs * 1_000_000_000 + self.nanos) as nat
    }
}

impl DeepView for Duration {
    type V = nat;

    open spec fn deep_view(&self) -> nat {
        self@
    }
}

/// The first number of nanoseconds that a `Duration` cannot span.
pub open spec fn duration_limit() -> nat {
    0x1_0000_0000_0000_0000 * 1_000_000_000
}

/// What the standard library's `Debug` prints for a span of `secs` seconds and `nanos`
/// nanoseconds.
pub uninterp spec fn duration_debug_text(secs: u64, nanos: u32) -> Seq<char>;

/// What `Debug` prints for a span of `nanos` nanoseconds.
pub open spec fn debug_text(nanos: nat) -> Seq<char> {
    duration_debug_text((nanos / 1_000_000_000) as u64, (nanos % 1_000_000_000) as u32)
}

/// Calls `Debug` of `std::time::Duration`: the result is named, and nothing else is said of it.
#[verifier::external_body]
fn std_duration_debug(secs: u64, nanos: u32) -> (text: String)
    requires
        nanos < 1_000_000_000,
    ensures
        text@ == duration_debug_text(secs, nanos),
{
    format!("{:?}", std::time::Duration::new(secs, nanos))
}

impl Duration {
    #[verifier::type_invariant]
    spec fn well_formed(self) -> bool {
        self.nanos < 1_000_000_000
    }

    /// A span of `secs` seconds and `nanos` nanoseconds, if `nanos` is below one second.
    pub fn from_parts(secs: u64, nanos: u32) -> (r: Option<Duration>)
        ensures
            r is Some <==> nanos < 1_000_000_000,
            r matches Some(span) ==> span@ == secs * 1_000_000_000 + nanos,
    {
        if nanos < NANOS_PER_SEC {
            Some(Duration { secs, nanos })
        } else {
            None
        }
    }

    /// The empty span.
    pub fn zero() -> (r: Duration)
        ensures
            r@ == 0,
    {
        Duration { secs: 0, nanos: 0 }
    }

    /// A span of `secs` seconds.
    pub fn from_secs(secs: u64) -> (r: Duration)
        ensures
            r@ == secs * 1_000_000_000,
    {
        Duration { secs, nanos: 0 }
    }

    /// A span of `millis` milliseconds.
    pub fn from_millis(millis: u64) -> (r: Duration)
        ensures
            r@ == millis * 1_000_000,
    {
        Duration { secs: millis / 1000, nanos: ((millis % 1000) as u32) * 1_000_000 }
    }

    /// The whole seconds of the span.
    pub fn as_secs(&self) -> (r: u64)
        ensures
            r == self@ / 1_000_000_000,
    {
        proof {
            use_type_invariant(self);
        }
        self.secs
    }

    /// The nanoseconds that the whole seconds leave over.
    pub fn subsec_nanos(&self) -> (r: u32)
        ensures
            r == self@ % 1_000_000_000,
    {
        proof {
            use_type_invariant(self);
        }
        self.nanos
    }

    /// The whole milliseconds of the span.
    pub fn as_millis(&self) -> (r: u128)
        ensures
            r == self@ / 1_000_000,
    {
        proof {
            use_type_invariant(self);
        }
        self.secs as u128 * 1000 + (self.nanos / 1_000_000) as u128
    }

    /// Tests whether the span is empty.
    pub fn is_zero(&self) -> (r: bool)
        ensures
            r == (self@ == 0),
    {
        self.secs == 0 && self.nanos == 0
    }

    /// The sum of two spans, if it is a span.
    pub fn checked_add(&self, other: &Duration) -> (r: Option<Duration>)
        ensures
            r is Some <==> self@ + other@ < duration_limit(),
            r matches Some(sum) ==> sum@ == self@ + other@,
    {
        proof {
            use_type_invariant(self);
            use_type_invariant(other);
        }
        let nanos: u32 = self.nanos + other.nanos;
        let secs: u128 = self.secs as u128 + other.secs as u128 + (nanos / NANOS_PER_SEC) as u128;
        if secs <= u64::MAX as u128 {
            Some(Duration { secs: secs as u64, nanos: nanos % NANOS_PER_SEC })
        } else {
            None
        }
    }

    /// The part of the span beyond `other`, which is empty where `other` is at least as long.
    pub fn saturating_sub(&self, other: &Duration) -> (r: Duration)
        ensures
            r@ == if self@ >= other@ {
                (self@ - other@) as nat
            } else {
                0
            },
    {
        proof {
            use_type_invariant(self);
            use_type_invariant(other);
        }
        if self.secs < other.secs || (self.secs == other.secs && self.nanos <= other.nanos) {
            Duration { secs: 0, nanos: 0 }
        } else if self.nanos >= other.nanos {
            Duration { secs: self.secs - other.secs, nanos: self.nanos - other.nanos }
        } else {
            Duration {
                secs: self.secs - other.secs - 1,
                nanos: NANOS_PER_SEC - (other.nanos - self.nanos),
            }
        }
    }

    /// What the standard library's `Debug` prints for the span.
    pub fn debug_string(&self) -> (r: String)
        ensures
            r@ == debug_text(self@),
    {
        proof {
            use_type_invariant(self);
        }
        std_duration_debug(self.secs, self.nanos)
    }
}

impl Default for Duration {
    /// The empty span.
    fn default() -> (r: Duration)
        ensures
            r@ == 0,
    {
        Duration::zero()
    }
}

/// A span is printed as its whole seconds and the nanoseconds below one second.
pub proof fn law_spans_are_printed_by_their_parts(secs: u64, nanos: u32)
    requires
        nanos < 1_000_000_000,
    ensures
        debug_text((secs * 1_000_000_000 + nanos) as nat) == duration_debug_text(secs, nanos),
{
    let span = (secs * 1_000_000_000 + nanos) as nat;
    assert(span / 1_000_000_000 == secs);
    assert(span % 1_000_000_000 == nanos);
}

} // verus!
