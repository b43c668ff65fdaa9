//! Wire form of the per-core observability snapshot.

use vstd::prelude::*;

verus! {

/// Name/value pair in a core's input or output list.
#[derive(Clone, Debug, PartialEq, Eq, PartialOrd, Ord)]
pub struct CoreFactor {
    pub id: String,
    pub value: String,
}

#[derive(Clone, Debug, PartialEq, Eq, PartialOrd, Ord)]
pub struct CoreState {
    pub id: String,
    pub depends_on: Vec<String>,
    pub last_run_outcome: String,
    pub last_payload: Option<String>,
    pub last_inputs: Vec<CoreFactor>,
    pub last_outputs: Vec<CoreFactor>,
}

} // verus!
