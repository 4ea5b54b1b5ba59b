use vstd::prelude::*;

verus! {

/// Nanoseconds in one second.
pub const NANOS_PER_SEC: u128 = 1_000_000_000;

/// The largest span a `Duration` holds, in nanoseconds: `u64::MAX` whole
/// seconds and `999_999_999` nanoseconds, as with the standard library's span.
pub const MAX_NANOS: u128 = 18_446_744_073_709_551_615_999_999_999;

/// A span of time with nanosecond precision.
///
/// Its view is the number of nanoseconds it spans.
#[derive(Clone, Copy, Debug, PartialEq, Eq, Structural)]
pub struct Duration {
    nanos: u128,
}

impl View for Duration {
    type V = nat;

    closed spec fn view(&self) -> nat {
        self.nanos as nat
    }
}

/// The largest span, in nanoseconds.
pub open spec fn max_nanos() -> nat {
    MAX_NANOS as nat
}

impl Duration {
    /// No span exceeds the largest one.
    #[verifier::type_invariant]
    pub open spec fn bounded(self) -> bool {
        self@ <= max_nanos()
    }

    /// The empty span.
    pub fn zero() -> (d: Duration)
        ensures
            d@ == 0,
    {
        Duration { nanos: 0 }
    }

    /// A span of the given whole seconds and extra nanoseconds; the extra
    /// nanoseconds may exceed one second and carry into the seconds.
    pub fn new(secs: u64, nanos: u32) -> (d: Duration)
        requires
            secs as int * NANOS_PER_SEC + nanos as int <= max_nanos(),
        ensures
            d@ == secs as int * NANOS_PER_SEC + nanos as int,
    {
        Duration { nanos: secs as u128 * NANOS_PER_SEC + nanos as u128 }
    }

    /// A span of whole seconds.
    pub fn from_secs(secs: u64) -> (d: Duration)
        ensures
            d@ == secs as int * NANOS_PER_SEC,
    {
        Duration { nanos: secs as u128 * NANOS_PER_SEC }
    }

    /// A span of whole milliseconds.
    pub fn from_millis(millis: u64) -> (d: Duration)
        ensures
            d@ == millis as int * 1_000_000,
    {
        Duration { nanos: millis as u128 * 1_000_000 }
    }

    /// A span of whole microseconds.
    pub fn from_micros(micros: u64) -> (d: Duration)
        ensures
            d@ == micros as int * 1_000,
    {
        Duration { nanos: micros as u128 * 1_000 }
    }

    /// A span of nanoseconds.
    pub fn from_nanos(nanos: u64) -> (d: Duration)
        ensures
            d@ == nanos as int,
    {
        Duration { nanos: nanos as u128 }
    }

    /// The whole span in nanoseconds.
    pub fn as_nanos(&self) -> (n: u128)
        ensures
            n == self@,
    {
        self.nanos
    }

    /// The whole seconds of the span.
    pub fn as_secs(&self) -> (s: u64)
        ensures
            s == self@ / (NANOS_PER_SEC as nat),
    {
        proof {
            use_type_invariant(self);
        }
        (self.nanos / NANOS_PER_SEC) as u64
    }

    /// The nanoseconds of the span beyond its whole seconds.
    pub fn subsec_nanos(&self) -> (n: u32)
        ensures
            n == self@ % (NANOS_PER_SEC as nat),
    {
        (self.nanos % NANOS_PER_SEC) as u32
    }

    /// Whether the span is empty.
    pub fn is_zero(&self) -> (b: bool)
        ensures
            b == (self@ == 0),
    {
        self.nanos == 0
    }

    /// The sum of two spans, or `None` where it exceeds the largest span.
    pub fn checked_add(self, rhs: Duration) -> (r: Option<Duration>)
        ensures
            r is Some <==> self@ + rhs@ <= max_nanos(),
            r matches Some(d) ==> d@ == self@ + rhs@,
    {
        proof {
            use_type_invariant(&self);
            use_type_invariant(&rhs);
        }
        if self.nanos <= MAX_NANOS - rhs.nanos {
            Some(Duration { nanos: self.nanos + rhs.nanos })
        } else {
            None
        }
    }

    /// The sum of two spans, which must not exceed the largest span.
    pub fn plus(self, rhs: Duration) -> (r: Duration)
        requires
            self@ + rhs@ <= max_nanos(),
        ensures
            r@ == self@ + rhs@,
    {
        Duration { nanos: self.nanos + rhs.nanos }
    }

    /// The difference of two spans, or `None` where `rhs` is the longer one.
    pub fn checked_sub(self, rhs: Duration) -> (r: Option<Duration>)
        ensures
            r is Some <==> rhs@ <= self@,
            r matches Some(d) ==> d@ == self@ - rhs@,
    {
        proof {
            use_type_invariant(&self);
        }
        if rhs.nanos <= self.nanos {
            Some(Duration { nanos: self.nanos - rhs.nanos })
        } else {
            None
        }
    }

    /// The difference of two spans, or the empty span where `rhs` is the
    /// longer one.
    pub fn saturating_sub(self, rhs: Duration) -> (r: Duration)
        ensures
            r@ == if rhs@ <= self@ { self@ - rhs@ } else { 0 },
    {
        proof {
            use_type_invariant(&self);
        }
        if rhs.nanos <= self.nanos {
            Duration { nanos: self.nanos - rhs.nanos }
        } else {
            Duration { nanos: 0 }
        }
    }

    /// The difference of two spans, where `rhs` is not the longer one.
    pub fn minus(self, rhs: Duration) -> (r: Duration)
        requires
            rhs@ <= self@,
        ensures
            r@ == self@ - rhs@,
    {
        proof {
            use_type_invariant(&self);
        }
        Duration { nanos: self.nanos - rhs.nanos }
    }

    /// Two spans with the same view are the same span.
    pub proof fn lemma_view_injective(a: Duration, b: Duration)
        requires
            a@ == b@,
        ensures
            a == b,
    {
    }
}

} // verus!
