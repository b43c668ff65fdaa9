//! The 0.2.0 revisions of the dashboard wire types that later
//! revisions convert from.

use vstd::prelude::*;

verus! {

#[derive(Clone, Copy, Debug, PartialEq, Eq, Structural, Hash, PartialOrd, Ord)]
pub enum BookkeepingKey {
    NextFullCharge,
    AboveSocDate,
    PrevEssState,
    ChargeToFullRequired,
}

pub open spec fn spec_bookkeeping_key_name(x: BookkeepingKey) -> Seq<char> {
    match x {
        BookkeepingKey::NextFullCharge => "NextFullCharge"@,
        BookkeepingKey::AboveSocDate => "AboveSocDate"@,
        BookkeepingKey::PrevEssState => "PrevEssState"@,
        BookkeepingKey::ChargeToFullRequired => "ChargeToFullRequired"@,
    }
}

impl BookkeepingKey {
    /// Wire name of this variant.
    pub fn wire_name(&self) -> (s: &'static str)
        ensures
            s@ == spec_bookkeeping_key_name(*self),
    {
        match self {
            BookkeepingKey::NextFullCharge => "NextFullCharge",
            BookkeepingKey::AboveSocDate => "AboveSocDate",
            BookkeepingKey::PrevEssState => "PrevEssState",
            BookkeepingKey::ChargeToFullRequired => "ChargeToFullRequired",
        }
    }
}

#[derive(Clone, Copy, Debug, PartialEq, Eq, Structural, PartialOrd, Ord)]
pub struct SetKillSwitch {
    pub value: bool,
}

#[derive(Clone, Debug, PartialEq, Eq, PartialOrd, Ord)]
pub struct SetUintKnob {
    pub knob_name: String,
    pub value: i32,
}

} // verus!
