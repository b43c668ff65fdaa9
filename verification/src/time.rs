//! Monotonic time values used by the TASS state machines.
//!
//! An [`Instant`] is a nanosecond count from an arbitrary fixed origin
//! chosen by the caller (the shell uses process start); only differences
//! between instants carry meaning. A [`Duration`] spans the same range as
//! the standard library's: up to `u64::MAX` seconds plus a sub-second
//! part, kept as one nanosecond count.

use vstd::prelude::*;

verus! {

/// Nanoseconds in one second.
pub const NANOS_PER_SEC: u64 = 1_000_000_000;

/// Nanoseconds in one millisecond.
pub const NANOS_PER_MILLI: u64 = 1_000_000;

/// Longest representable span: `u64::MAX` seconds and 999 999 999 ns.
pub open spec fn max_duration_nanos() -> nat {
    u64::MAX as nat * NANOS_PER_SEC as nat + (NANOS_PER_SEC - 1) as nat
}

/// A span of time, in nanoseconds.
#[derive(Clone, Copy, Debug, PartialEq, Eq, Structural, Hash, PartialOrd, Ord)]
pub struct Duration {
    nanos: u128,
}

/// A point on the monotonic clock, in nanoseconds since the caller's origin.
#[derive(Clone, Copy, Debug, PartialEq, Eq, Structural, Hash, PartialOrd, Ord)]
pub struct Instant {
    pub nanos: u64,
}

/// Length of time from `earlier` to `later`, or zero when `later` precedes
/// `earlier`.
pub open spec fn spec_elapsed(earlier: Instant, later: Instant) -> nat {
    if later.nanos >= earlier.nanos {
        (later.nanos - earlier.nanos) as nat
    } else {
        0
    }
}

impl View for Duration {
    type V = nat;

    /// The span in nanoseconds.
    closed spec fn view(&self) -> nat {
        self.nanos as nat
    }
}

impl Duration {
    #[verifier::type_invariant]
    spec fn inv(self) -> bool {
        self.nanos <= max_duration_nanos()
    }

    /// The empty span.
    pub fn zero() -> (d: Duration)
        ensures
            d@ == 0,
    {
        Duration { nanos: 0 }
    }

    /// `secs` whole seconds.
    pub fn from_secs(secs: u64) -> (d: Duration)
        ensures
            d@ == secs * NANOS_PER_SEC,
    {
        assert(secs as u128 * 1_000_000_000u128 <= max_duration_nanos()) by (nonlinear_arith)
            requires
                secs <= u64::MAX,
        ;
        Duration { nanos: secs as u128 * NANOS_PER_SEC as u128 }
    }

    /// `secs` seconds plus `nanos` nanoseconds; nanoseconds beyond a whole
    /// second carry into the seconds.
    pub fn new(secs: u64, nanos: u32) -> (d: Duration)
        requires
            secs + (nanos as nat) / (NANOS_PER_SEC as nat) <= u64::MAX,
        ensures
            d@ == secs * NANOS_PER_SEC + nanos,
    {
        assert(secs as u128 * 1_000_000_000u128 + nanos as u128 <= max_duration_nanos()) by (nonlinear_arith)
            requires
                secs + (nanos as nat) / 1_000_000_000nat <= u64::MAX,
                nanos <= u32::MAX,
        ;
        Duration { nanos: secs as u128 * NANOS_PER_SEC as u128 + nanos as u128 }
    }

    /// `nanos` nanoseconds.
    pub fn from_nanos(nanos: u64) -> (d: Duration)
        ensures
            d@ == nanos,
    {
        Duration { nanos: nanos as u128 }
    }

    /// `millis` whole milliseconds.
    pub fn from_millis(millis: u64) -> (d: Duration)
        ensures
            d@ == millis * NANOS_PER_MILLI,
    {
        assert(millis as u128 * 1_000_000u128 <= max_duration_nanos()) by (nonlinear_arith)
            requires
                millis <= u64::MAX,
        ;
        Duration { nanos: millis as u128 * NANOS_PER_MILLI as u128 }
    }

    /// Whole seconds in this span (the sub-second part is dropped).
    pub fn as_secs(&self) -> (s: u64)
        ensures
            s == self@ / NANOS_PER_SEC as nat,
    {
        proof {
            use_type_invariant(self);
        }
        (self.nanos / NANOS_PER_SEC as u128) as u64
    }

    /// The span in nanoseconds.
    pub fn as_nanos(&self) -> (n: u128)
        ensures
            n == self@,
    {
        self.nanos
    }

    /// Sum of two spans, or `None` when it is longer than the longest
    /// representable span.
    pub fn checked_add(self, other: Duration) -> (r: Option<Duration>)
        ensures
            r matches Some(d) ==> d@ == self@ + other@,
            r is None <==> self@ + other@ > max_duration_nanos(),
    {
        proof {
            use_type_invariant(self);
            use_type_invariant(other);
        }
        let total = self.nanos + other.nanos;
        if total <= u64::MAX as u128 * NANOS_PER_SEC as u128 + (NANOS_PER_SEC - 1) as u128 {
            Some(Duration { nanos: total })
        } else {
            None
        }
    }

    /// This span repeated `factor` times, or `None` when that is longer
    /// than the longest representable span.
    pub fn checked_mul(self, factor: u32) -> (r: Option<Duration>)
        ensures
            r matches Some(d) ==> d@ == self@ * factor,
            r is None <==> self@ * factor > max_duration_nanos(),
    {
        proof {
            use_type_invariant(self);
        }
        assert(self.nanos * (factor as u128) <= u128::MAX) by (nonlinear_arith)
            requires
                self.nanos <= max_duration_nanos(),
                factor <= u32::MAX,
        ;
        let total = self.nanos * factor as u128;
        if total <= u64::MAX as u128 * NANOS_PER_SEC as u128 + (NANOS_PER_SEC - 1) as u128 {
            Some(Duration { nanos: total })
        } else {
            None
        }
    }
}

impl Instant {
    /// Time elapsed from `earlier` to `self`, zero when `earlier` is later.
    pub fn saturating_duration_since(self, earlier: Instant) -> (d: Duration)
        ensures
            d@ == spec_elapsed(earlier, self),
    {
        if self.nanos >= earlier.nanos {
            Duration { nanos: (self.nanos - earlier.nanos) as u128 }
        } else {
            Duration { nanos: 0 }
        }
    }

    /// The instant `d` after `self`, or `None` when it does not fit.
    pub fn checked_add(self, d: Duration) -> (r: Option<Instant>)
        ensures
            r matches Some(i) ==> i.nanos == self.nanos + d@,
            r is None <==> self.nanos + d@ > u64::MAX,
    {
        proof {
            use_type_invariant(d);
        }
        let total = self.nanos as u128 + d.nanos;
        if total <= u64::MAX as u128 {
            Some(Instant { nanos: total as u64 })
        } else {
            None
        }
    }
}

} // verus!
