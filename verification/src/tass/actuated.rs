use vstd::prelude::*;
use vstd::laws_eq::obeys_concrete_eq;
use vstd::std_specs::cmp::PartialEqSpec;

use super::actual::Actual;
use super::phase::{phase_step_allowed, TargetPhase};
use crate::owner::Owner;
use crate::time::{Duration, Instant};

verus! {

/// The target half of an actuated entity.
#[derive(Clone, Copy, Debug, PartialEq, Eq)]
pub struct Target<V> {
    pub value: Option<V>,
    pub owner: Owner,
    pub phase: TargetPhase,
    /// Instant at which the current `(value, owner, phase)` tuple became
    /// current.
    pub since: Instant,
}

impl<V> Target<V> {
    /// A target carries a value exactly when it has left `Unset`.
    pub open spec fn wf(self) -> bool {
        (self.phase is Unset) <==> self.value.is_none()
    }

    pub open spec fn spec_unset(now: Instant) -> Self {
        Target { value: None, owner: Owner::Unset, phase: TargetPhase::Unset, since: now }
    }

    pub fn unset(now: Instant) -> (r: Self)
        ensures
            r == Self::spec_unset(now),
            r.wf(),
    {
        Target { value: None, owner: Owner::Unset, phase: TargetPhase::Unset, since: now }
    }
}

/// An actuated entity: a target (what we want) and an actual (what we
/// last observed).
#[derive(Clone, Copy, Debug, PartialEq, Eq)]
pub struct Actuated<V> {
    pub target: Target<V>,
    pub actual: Actual<V>,
}

impl<V> Actuated<V> {
    pub open spec fn wf(self) -> bool {
        self.target.wf() && self.actual.wf()
    }

    pub open spec fn spec_new(now: Instant) -> Self {
        Actuated { target: Target::spec_unset(now), actual: Actual::spec_unknown(now) }
    }

    pub open spec fn spec_mark_commanded(self, now: Instant) -> Self {
        if self.target.phase is Pending {
            Actuated {
                target: Target { phase: TargetPhase::Commanded, since: now, ..self.target },
                ..self
            }
        } else {
            self
        }
    }

    pub open spec fn spec_on_reading(self, value: V, now: Instant) -> Self {
        Actuated { actual: self.actual.spec_on_reading(value, now), ..self }
    }

    /// Decay of the actual side against a threshold given in nanoseconds.
    pub open spec fn spec_tick_after(self, now: Instant, threshold_nanos: nat) -> Self {
        Actuated { actual: self.actual.spec_tick_after(now, threshold_nanos), ..self }
    }

    pub open spec fn spec_tick(self, now: Instant, threshold: Duration) -> Self {
        self.spec_tick_after(now, threshold@)
    }

    /// `confirm_if` consults its predicate only in this state: a commanded
    /// target and a recorded actual value.
    pub open spec fn spec_confirm_applies(self) -> bool {
        &&& self.target.phase is Commanded
        &&& self.target.value.is_some()
        &&& self.actual.value.is_some()
    }

    pub open spec fn spec_confirmed(self, now: Instant) -> Self {
        Actuated {
            target: Target { phase: TargetPhase::Confirmed, since: now, ..self.target },
            ..self
        }
    }

    /// The state after a proposal that is applied: a `Pending` target with
    /// the new value and owner, and the old reading deprecated.
    pub open spec fn spec_retarget(self, value: V, owner: Owner, now: Instant) -> Self {
        Actuated {
            target: Target {
                value: Some(value),
                owner,
                phase: TargetPhase::Pending,
                since: now,
            },
            actual: self.actual.spec_deprecate(now),
        }
    }

    /// Fresh-from-boot state.
    pub fn new(now: Instant) -> (r: Self)
        ensures
            r == Self::spec_new(now),
            r.wf(),
    {
        Actuated { target: Target::unset(now), actual: Actual::unknown(now) }
    }

    /// Transition `Pending → Commanded`. Idempotent no-op outside `Pending`.
    pub fn mark_commanded(&mut self, now: Instant)
        ensures
            old(self).target.phase is Pending ==> {
                &&& final(self).target.phase is Commanded
                &&& final(self).target.since == now
                &&& final(self).target.value == old(self).target.value
                &&& final(self).target.owner == old(self).target.owner
            },
            !(old(self).target.phase is Pending) ==> *final(self) == *old(self),
            *final(self) == old(self).spec_mark_commanded(now),
            old(self).wf() ==> final(self).wf(),
            phase_step_allowed(old(self).target.phase, final(self).target.phase),
            final(self).actual == old(self).actual,
    {
        match self.target.phase {
            TargetPhase::Pending => {
                self.target.phase = TargetPhase::Commanded;
                self.target.since = now;
            },
            _ => {},
        }
    }

    /// Record an actual reading. Does not confirm the target; call
    /// [`Self::confirm_if`] afterwards to attempt confirmation.
    pub fn on_reading(&mut self, value: V, now: Instant)
        ensures
            final(self).actual.value == Some(value),
            final(self).actual.freshness is Fresh,
            final(self).actual.since == now,
            *final(self) == old(self).spec_on_reading(value, now),
            old(self).wf() ==> final(self).wf(),
            final(self).target == old(self).target,
    {
        self.actual.on_reading(value, now);
    }

    /// Attempt `Commanded → Confirmed` using `close(&target, &actual)`,
    /// which says whether the reading is close enough to the target.
    /// Returns `true` if the phase transitioned.
    pub fn confirm_if<F: FnOnce(&V, &V) -> bool>(&mut self, close: F, now: Instant) -> (r: bool)
        requires
            old(self).spec_confirm_applies() ==> close.requires(
                (&old(self).target.value->0, &old(self).actual.value->0),
            ),
        ensures
            !old(self).spec_confirm_applies() ==> !r,
            old(self).spec_confirm_applies() ==> close.ensures(
                (&old(self).target.value->0, &old(self).actual.value->0),
                r,
            ),
            r ==> *final(self) == old(self).spec_confirmed(now),
            r ==> {
                &&& old(self).target.phase is Commanded
                &&& old(self).target.value is Some
                &&& old(self).actual.value is Some
                &&& final(self).target.phase is Confirmed
                &&& final(self).target.since == now
                &&& final(self).target.value == old(self).target.value
                &&& final(self).target.owner == old(self).target.owner
            },
            !r ==> *final(self) == *old(self),
            old(self).wf() ==> final(self).wf(),
            phase_step_allowed(old(self).target.phase, final(self).target.phase),
            final(self).actual == old(self).actual,
    {
        let commanded = match self.target.phase {
            TargetPhase::Commanded => true,
            _ => false,
        };
        if !commanded {
            return false;
        }
        let holds = match (&self.target.value, &self.actual.value) {
            (Some(target), Some(actual)) => close(target, actual),
            _ => false,
        };
        if holds {
            self.target.phase = TargetPhase::Confirmed;
            self.target.since = now;
        }
        holds
    }

    /// Drop the target back to `Unset` at `now`, keeping the actual side.
    /// This is how the kill switch's off→on edge forces every controller
    /// to propose afresh.
    pub fn reset_to_unset(&mut self, now: Instant)
        ensures
            final(self).target == Target::<V>::spec_unset(now),
            final(self).actual == old(self).actual,
            old(self).wf() ==> final(self).wf(),
    {
        self.target = Target::unset(now);
    }

    /// Decay `Fresh → Stale` on the actual side once the reading is older
    /// than `threshold`. The target is untouched.
    pub fn tick(&mut self, now: Instant, threshold: Duration)
        ensures
            !(old(self).actual.freshness is Fresh) ==> *final(self) == *old(self),
            *final(self) == old(self).spec_tick(now, threshold),
            old(self).wf() ==> final(self).wf(),
            final(self).target == old(self).target,
            final(self).actual.freshness is Fresh ==> old(self).actual.freshness is Fresh,
    {
        self.actual.tick(now, threshold);
    }
}

impl<V: PartialEq> Actuated<V> {
    /// A proposal of `(value, owner)` repeats the current target: same
    /// value, same owner, and the phase has left `Unset`.
    pub open spec fn spec_same_target(self, value: V, owner: Owner) -> bool {
        &&& match self.target.value {
            Some(current) => current.eq_spec(&value),
            None => false,
        }
        &&& self.target.owner == owner
        &&& !(self.target.phase is Unset)
    }

    /// Set a new target.
    ///
    /// A proposal that repeats the current target is a no-op and returns
    /// `false`. Otherwise the target becomes `(value, owner)` in phase
    /// `Pending` (from any phase, superseding a `Commanded` one), any
    /// `Fresh`/`Stale` actual is deprecated, and `true` is returned.
    ///
    /// Dead-band filtering and owner priority are the caller's concern and
    /// happen before this call.
    pub fn propose_target(&mut self, value: V, owner: Owner, now: Instant) -> (changed: bool)
        ensures
            ({
                &&& V::obeys_eq_spec()
                &&& old(self).target.value is Some
                &&& old(self).target.value->0.eq_spec(&value)
                &&& old(self).target.owner == owner
                &&& (old(self).target.phase is Pending || old(self).target.phase is Commanded
                    || old(self).target.phase is Confirmed)
            }) ==> !changed && *final(self) == *old(self),
            old(self).target.phase is Unset ==> changed,
            changed ==> {
                &&& final(self).target.value == Some(value)
                &&& final(self).target.owner == owner
                &&& final(self).target.phase is Pending
                &&& final(self).target.since == now
            },
            V::obeys_eq_spec() ==> (changed <==> !old(self).spec_same_target(value, owner)),
            changed ==> *final(self) == old(self).spec_retarget(value, owner, now),
            !changed ==> *final(self) == *old(self),
            old(self).wf() ==> final(self).wf(),
            phase_step_allowed(old(self).target.phase, final(self).target.phase),
            final(self).actual.freshness is Fresh ==> old(self).actual.freshness is Fresh,
    {
        let same_value = match &self.target.value {
            Some(current) => current.eq(&value),
            None => false,
        };
        let same_owner = self.target.owner == owner;
        let unset = match self.target.phase {
            TargetPhase::Unset => true,
            _ => false,
        };
        if same_value && same_owner && !unset {
            return false;
        }
        self.target.value = Some(value);
        self.target.owner = owner;
        self.target.phase = TargetPhase::Pending;
        self.target.since = now;
        self.actual.deprecate(now);
        true
    }
}

/// A repeated proposal is a no-op in every phase but `Unset`: once a
/// target holds `(value, owner)` as `Pending`, `Commanded` or `Confirmed`,
/// proposing the same pair again changes nothing; while `Unset`, any
/// proposal takes effect.
pub proof fn lemma_same_target_in_every_set_phase<V: PartialEq>(a: Actuated<V>, value: V, owner: Owner)
    requires
        obeys_concrete_eq::<V>(),
    ensures
        (a.target.value == Some(value) && a.target.owner == owner && (a.target.phase is Pending
            || a.target.phase is Commanded || a.target.phase is Confirmed)) ==> a.spec_same_target(value, owner),
        a.target.phase is Unset ==> !a.spec_same_target(value, owner),
        a.spec_same_target(value, owner) ==> a.target.value == Some(value) && a.target.owner == owner,
{
    reveal(obeys_concrete_eq);
}

/// Proposing, commanding and proposing the same pair again: the second
/// proposal finds the same target and leaves the commanded entity alone.
pub proof fn lemma_repeat_after_command_is_noop<V: PartialEq>(
    a: Actuated<V>,
    value: V,
    owner: Owner,
    t1: Instant,
    t2: Instant,
)
    requires
        obeys_concrete_eq::<V>(),
    ensures
        ({
            let b = a.spec_retarget(value, owner, t1).spec_mark_commanded(t2);
            &&& b.target.phase is Commanded
            &&& b.target.since == t2
            &&& b.spec_same_target(value, owner)
        }),
{
    reveal(obeys_concrete_eq);
}

/// Proposing the target that was just applied is a no-op: the second
/// proposal of the same `(value, owner)` reports no change and leaves the
/// entity as it is, whenever it happens.
pub proof fn lemma_repeated_proposal_is_noop<V: PartialEq>(
    a: Actuated<V>,
    value: V,
    owner: Owner,
    now: Instant,
)
    requires
        obeys_concrete_eq::<V>(),
    ensures
        a.spec_retarget(value, owner, now).spec_same_target(value, owner),
{
    reveal(obeys_concrete_eq);
}


/// One operation on an actuated entity, as its effect on the state. A
/// `Confirm` carries the answer the caller's closeness predicate gives.
pub enum ActuatedOp<V> {
    Propose { value: V, owner: Owner, now: Instant },
    MarkCommanded { now: Instant },
    Reading { value: V, now: Instant },
    Confirm { close: bool, now: Instant },
    Tick { now: Instant, threshold: Duration },
}

impl<V: PartialEq> Actuated<V> {
    /// The state after `op`, as the operation's own contract gives it
    /// (for a proposal, with the value type's `==` taken as its spec).
    pub open spec fn spec_step(self, op: ActuatedOp<V>) -> Self {
        match op {
            ActuatedOp::Propose { value, owner, now } => if self.spec_same_target(value, owner) {
                self
            } else {
                self.spec_retarget(value, owner, now)
            },
            ActuatedOp::MarkCommanded { now } => self.spec_mark_commanded(now),
            ActuatedOp::Reading { value, now } => self.spec_on_reading(value, now),
            ActuatedOp::Confirm { close, now } => if self.spec_confirm_applies() && close {
                self.spec_confirmed(now)
            } else {
                self
            },
            ActuatedOp::Tick { now, threshold } => self.spec_tick(now, threshold),
        }
    }

    /// Whether `op` is a proposal that takes effect (`propose_target`
    /// returns `true`).
    pub open spec fn spec_applies_proposal(self, op: ActuatedOp<V>) -> bool {
        op matches ActuatedOp::Propose { value, owner, .. } && !self.spec_same_target(value, owner)
    }

    /// The state after running `ops` in order.
    pub open spec fn spec_run(self, ops: Seq<ActuatedOp<V>>) -> Self
        decreases ops.len(),
    {
        if ops.len() == 0 {
            self
        } else {
            self.spec_run(ops.drop_last()).spec_step(ops.last())
        }
    }

    /// Whether some proposal in `ops` takes effect.
    pub open spec fn spec_some_proposal_applied(self, ops: Seq<ActuatedOp<V>>) -> bool
        decreases ops.len(),
    {
        if ops.len() == 0 {
            false
        } else {
            self.spec_some_proposal_applied(ops.drop_last()) || self.spec_run(ops.drop_last()).spec_applies_proposal(
                ops.last(),
            )
        }
    }
}

/// Each operation moves the phase only along an allowed step, and only a
/// proposal that takes effect leaves `Unset`.
pub proof fn lemma_step_phase<V: PartialEq>(a: Actuated<V>, op: ActuatedOp<V>)
    ensures
        phase_step_allowed(a.target.phase, a.spec_step(op).target.phase),
        (a.spec_step(op).target.phase is Unset) <==> (a.target.phase is Unset && !a.spec_applies_proposal(op)),
{
}

/// Running `ops` from any state that is not `Unset` never returns to
/// `Unset`; from `Unset` it stays there exactly until a proposal takes
/// effect.
proof fn lemma_run_unset<V: PartialEq>(a: Actuated<V>, ops: Seq<ActuatedOp<V>>)
    ensures
        (a.spec_run(ops).target.phase is Unset) <==> (a.target.phase is Unset
            && !a.spec_some_proposal_applied(ops)),
    decreases ops.len(),
{
    if ops.len() > 0 {
        lemma_run_unset(a, ops.drop_last());
        lemma_step_phase(a.spec_run(ops.drop_last()), ops.last());
    }
}

/// Every operation in `ops` moves the phase along an allowed step.
proof fn lemma_run_steps<V: PartialEq>(a: Actuated<V>, ops: Seq<ActuatedOp<V>>)
    ensures
        forall|i: int|
            0 <= i < ops.len() ==> phase_step_allowed(
                #[trigger] a.spec_run(ops.take(i)).target.phase,
                a.spec_run(ops.take(i + 1)).target.phase,
            ),
{
    assert forall|i: int| 0 <= i < ops.len() implies phase_step_allowed(
        #[trigger] a.spec_run(ops.take(i)).target.phase,
        a.spec_run(ops.take(i + 1)).target.phase,
    ) by {
        assert(ops.take(i + 1).drop_last() =~= ops.take(i));
        assert(ops.take(i + 1).last() == ops[i]);
        lemma_step_phase(a.spec_run(ops.take(i)), ops[i]);
    }
}

/// The phase sequence of an entity fresh from boot: whatever operations
/// of [`ActuatedOp`] follow (the kill switch's reset aside), the target is still `Unset` exactly when no proposal has taken
/// effect, and every step of the way the phase moved only along an allowed
/// transition (so no step is skipped and `Unset` is never re-entered).
pub proof fn lemma_phase_sequence<V: PartialEq>(t0: Instant, ops: Seq<ActuatedOp<V>>)
    ensures
        (Actuated::<V>::spec_new(t0).spec_run(ops).target.phase is Unset) <==> !Actuated::<V>::spec_new(
            t0,
        ).spec_some_proposal_applied(ops),
        forall|i: int|
            0 <= i < ops.len() ==> phase_step_allowed(
                #[trigger] Actuated::<V>::spec_new(t0).spec_run(ops.take(i)).target.phase,
                Actuated::<V>::spec_new(t0).spec_run(ops.take(i + 1)).target.phase,
            ),
{
    lemma_run_unset(Actuated::<V>::spec_new(t0), ops);
    lemma_run_steps(Actuated::<V>::spec_new(t0), ops);
}

} // verus!
