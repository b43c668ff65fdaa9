//! Wire form of a bookkeeping value: an ISO timestamp, a flag, or the
//! explicit "cleared" marker.

use vstd::prelude::*;

verus! {

/// A local date-time carried as its ISO-8601 text.
#[derive(Clone, Debug, PartialEq, Eq, PartialOrd, Ord)]
pub struct IsoDateTime {
    pub iso: String,
}

#[derive(Clone, Copy, Debug, PartialEq, Eq, Structural, PartialOrd, Ord)]
pub struct Bool {
    pub value: bool,
}

/// Marker for a field that was explicitly cleared.
#[derive(Clone, Copy, Debug, PartialEq, Eq, Structural, PartialOrd, Ord)]
pub struct Cleared {}

#[derive(Clone, Debug, PartialEq, Eq, PartialOrd, Ord)]
pub enum BookkeepingValue {
    NaiveDateTime(IsoDateTime),
    Bool(Bool),
    Cleared(Cleared),
}

} // verus!
