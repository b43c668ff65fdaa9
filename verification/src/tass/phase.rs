//! Phase of a target value's lifecycle.
//!
//! ```text
//! Unset ──set_target──> Pending ──mark_commanded──> Commanded ──confirm──> Confirmed
//!                          ↑                                                   │
//!                          └──set_target [new target]──────────────────────────┘
//! ```

use vstd::prelude::*;

verus! {

#[derive(Clone, Copy, Debug, PartialEq, Eq, Structural, Hash)]
pub enum TargetPhase {
    /// No target value has been set.
    Unset,
    /// A target was set but the command has not been emitted yet.
    Pending,
    /// The command was emitted; awaiting an actual reading that matches.
    Commanded,
    /// An actual reading confirmed the target within tolerance.
    Confirmed,
}

impl TargetPhase {
    /// True when the phase still needs action (emit the command) or
    /// verification (await the actual).
    pub fn is_outstanding(self) -> (r: bool)
        ensures
            r <==> (self is Pending || self is Commanded),
    {
        match self {
            TargetPhase::Pending | TargetPhase::Commanded => true,
            _ => false,
        }
    }
}

/// The phase transitions an operation may perform: staying put, one step
/// along `Pending → Commanded → Confirmed`, or going back to `Pending`
/// from anywhere (a new target). Nothing ever returns to `Unset`.
pub open spec fn phase_step_allowed(from: TargetPhase, to: TargetPhase) -> bool {
    ||| to == from
    ||| to is Pending
    ||| (from is Pending && to is Commanded)
    ||| (from is Commanded && to is Confirmed)
}

} // verus!
