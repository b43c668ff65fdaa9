//! Who proposed an actuated entity's current target.

use vstd::prelude::*;

verus! {

/// Originator of a target proposal. `Unset` marks a target that nobody
/// has proposed yet.
#[derive(Clone, Copy, Debug, PartialEq, Eq, Structural, Hash)]
pub enum Owner {
    Unset,
    System,
    Dashboard,
    HaMqtt,
    SetpointController,
    CurrentLimitController,
    ScheduleController,
    ZappiController,
    EddiController,
}

} // verus!
