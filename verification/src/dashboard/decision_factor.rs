//! Wire form of one factor in a controller decision.

use vstd::prelude::*;

verus! {

#[derive(Clone, Debug, PartialEq, Eq, PartialOrd, Ord)]
pub struct DecisionFactor {
    pub name: String,
    pub value: String,
}

} // verus!
