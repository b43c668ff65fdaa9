use vstd::prelude::*;

use super::freshness::Freshness;
use crate::time::{spec_elapsed, Duration, Instant};

verus! {

/// Observation of a sensor entity (no target). Used directly for
/// read-only entities and as the actual half of an [`super::Actuated`].
#[derive(Clone, Copy, Debug, PartialEq, Eq)]
pub struct Actual<V> {
    pub value: Option<V>,
    pub freshness: Freshness,
    /// Instant at which the current `(value, freshness)` pair became
    /// current.
    pub since: Instant,
}

impl<V> Actual<V> {
    /// An observation holds a value exactly when it is not `Unknown`.
    /// Every operation below keeps this.
    pub open spec fn wf(self) -> bool {
        (self.freshness is Unknown) <==> self.value.is_none()
    }

    pub open spec fn spec_unknown(now: Instant) -> Self {
        Actual { value: None, freshness: Freshness::Unknown, since: now }
    }

    pub open spec fn spec_on_reading(self, value: V, now: Instant) -> Self {
        Actual { value: Some(value), freshness: Freshness::Fresh, since: now }
    }

    pub open spec fn spec_deprecate(self, now: Instant) -> Self {
        if self.freshness is Fresh || self.freshness is Stale {
            Actual { freshness: Freshness::Deprecated, since: now, ..self }
        } else {
            self
        }
    }

    /// Decay against a threshold given in nanoseconds.
    pub open spec fn spec_tick_after(self, now: Instant, threshold_nanos: nat) -> Self {
        if self.freshness is Fresh && spec_elapsed(self.since, now) > threshold_nanos {
            Actual { freshness: Freshness::Stale, ..self }
        } else {
            self
        }
    }

    pub open spec fn spec_tick(self, now: Instant, threshold: Duration) -> Self {
        self.spec_tick_after(now, threshold@)
    }

    pub open spec fn spec_is_usable(self) -> bool {
        self.freshness is Fresh && self.value.is_some()
    }

    /// Decay only ever takes a `Fresh` reading to `Stale`, once it is
    /// older than the threshold: an `Unknown`, `Stale` or `Deprecated`
    /// observation is left exactly as it was, a reading within the
    /// threshold stays `Fresh`, and the value and its instant never change.
    pub proof fn lemma_tick_only_ages_fresh(self, now: Instant, threshold_nanos: nat)
        ensures
            !(self.freshness is Fresh) ==> self.spec_tick_after(now, threshold_nanos) == self,
            self.freshness is Fresh && spec_elapsed(self.since, now) <= threshold_nanos ==> self.spec_tick_after(
                now,
                threshold_nanos,
            ) == self,
            self.freshness is Fresh && spec_elapsed(self.since, now) > threshold_nanos ==> {
                let b = self.spec_tick_after(now, threshold_nanos);
                &&& b.freshness is Stale
                &&& b.value == self.value
                &&& b.since == self.since
            },
    {
    }

    /// Fresh-from-boot state: no reading yet, freshness `Unknown`.
    pub fn unknown(now: Instant) -> (r: Self)
        ensures
            r == Self::spec_unknown(now),
            r.wf(),
    {
        Actual { value: None, freshness: Freshness::Unknown, since: now }
    }

    /// Record a reading. Freshness becomes `Fresh`; `since` resets. Valid
    /// from any current freshness.
    pub fn on_reading(&mut self, value: V, now: Instant)
        ensures
            final(self).value == Some(value),
            final(self).freshness is Fresh,
            final(self).since == now,
            *final(self) == old(self).spec_on_reading(value, now),
            final(self).wf(),
    {
        self.value = Some(value);
        self.freshness = Freshness::Fresh;
        self.since = now;
    }

    /// Mark the current reading `Deprecated` (the corresponding target
    /// changed). No-op on `Unknown` and on `Deprecated`.
    pub fn deprecate(&mut self, now: Instant)
        ensures
            (old(self).freshness is Fresh || old(self).freshness is Stale) ==> {
                &&& final(self).freshness is Deprecated
                &&& final(self).since == now
                &&& final(self).value == old(self).value
            },
            (old(self).freshness is Unknown || old(self).freshness is Deprecated) ==> *final(self) == *old(self),
            *final(self) == old(self).spec_deprecate(now),
            old(self).wf() ==> final(self).wf(),
            final(self).freshness is Fresh ==> old(self).freshness is Fresh,
    {
        match self.freshness {
            Freshness::Fresh | Freshness::Stale => {
                self.freshness = Freshness::Deprecated;
                self.since = now;
            },
            _ => {},
        }
    }

    /// Decay `Fresh → Stale` once the reading is older than `threshold`.
    /// No-op on `Unknown` / `Stale` / `Deprecated`.
    pub fn tick(&mut self, now: Instant, threshold: Duration)
        ensures
            !(old(self).freshness is Fresh) ==> *final(self) == *old(self),
            final(self).value == old(self).value,
            final(self).since == old(self).since,
            old(self).freshness is Fresh ==> (final(self).freshness is Stale <==> spec_elapsed(old(self).since, now)
                > threshold@),
            old(self).freshness is Fresh ==> (final(self).freshness is Fresh <==> spec_elapsed(old(self).since, now)
                <= threshold@),
            *final(self) == old(self).spec_tick(now, threshold),
            old(self).wf() ==> final(self).wf(),
            final(self).freshness is Fresh ==> old(self).freshness is Fresh,
    {
        let is_fresh = match self.freshness {
            Freshness::Fresh => true,
            _ => false,
        };
        if is_fresh && now.saturating_duration_since(self.since).as_nanos() > threshold.as_nanos() {
            self.freshness = Freshness::Stale;
        }
    }

    /// True when `freshness == Fresh` and a value is present.
    pub fn is_usable(&self) -> (r: bool)
        ensures
            r == self.spec_is_usable(),
    {
        match self.freshness {
            Freshness::Fresh => self.value.is_some(),
            _ => false,
        }
    }
}

} // verus!
