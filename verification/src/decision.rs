//! Human-readable explanation of a controller's decision.

use vstd::prelude::*;

verus! {

/// One-line summary plus the key factors that drove a controller's
/// decision. Every controller produces one each time it evaluates, even
/// when the output is "no change", so the dashboard can always show why a
/// target has its current value.
#[derive(Clone, Debug, PartialEq)]
pub struct Decision {
    pub summary: String,
    pub factors: Vec<DecisionFactor>,
}

#[derive(Clone, Debug, PartialEq, Eq)]
pub struct DecisionFactor {
    pub name: String,
    pub value: String,
}

impl Decision {
    /// A decision with the given summary and no factors yet.
    pub fn new(summary: String) -> (r: Self)
        ensures
            r.summary == summary,
            r.factors@ == Seq::<DecisionFactor>::empty(),
    {
        Decision { summary, factors: Vec::new() }
    }

    /// The same decision with one more factor appended after the existing
    /// ones.
    pub fn with_factor(self, name: String, value: String) -> (r: Self)
        ensures
            r.summary == self.summary,
            r.factors@ == self.factors@.push(DecisionFactor { name, value }),
    {
        let mut d = self;
        d.factors.push(DecisionFactor { name, value });
        d
    }
}

} // verus!
