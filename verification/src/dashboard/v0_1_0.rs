//! The 0.1.0 revisions of the dashboard wire types that later
//! revisions convert from.

use vstd::prelude::*;

verus! {

#[derive(Clone, Copy, Debug, PartialEq, Eq, Structural, Hash, PartialOrd, Ord)]
pub enum Freshness {
    Unknown,
    Fresh,
    Stale,
    Deprecated,
}

pub open spec fn spec_freshness_name(x: Freshness) -> Seq<char> {
    match x {
        Freshness::Unknown => "Unknown"@,
        Freshness::Fresh => "Fresh"@,
        Freshness::Stale => "Stale"@,
        Freshness::Deprecated => "Deprecated"@,
    }
}

impl Freshness {
    /// Wire name of this variant.
    pub fn wire_name(&self) -> (s: &'static str)
        ensures
            s@ == spec_freshness_name(*self),
    {
        match self {
            Freshness::Unknown => "Unknown",
            Freshness::Fresh => "Fresh",
            Freshness::Stale => "Stale",
            Freshness::Deprecated => "Deprecated",
        }
    }
}

#[derive(Clone, Copy, Debug, PartialEq, Eq, Structural, Hash, PartialOrd, Ord)]
pub enum ChargeBatteryExtendedMode {
    Auto,
    Forced,
    Disabled,
}

pub open spec fn spec_charge_battery_extended_mode_name(x: ChargeBatteryExtendedMode) -> Seq<char> {
    match x {
        ChargeBatteryExtendedMode::Auto => "Auto"@,
        ChargeBatteryExtendedMode::Forced => "Forced"@,
        ChargeBatteryExtendedMode::Disabled => "Disabled"@,
    }
}

impl ChargeBatteryExtendedMode {
    /// Wire name of this variant.
    pub fn wire_name(&self) -> (s: &'static str)
        ensures
            s@ == spec_charge_battery_extended_mode_name(*self),
    {
        match self {
            ChargeBatteryExtendedMode::Auto => "Auto",
            ChargeBatteryExtendedMode::Forced => "Forced",
            ChargeBatteryExtendedMode::Disabled => "Disabled",
        }
    }
}

#[derive(Clone, Debug, PartialEq, Eq, PartialOrd, Ord)]
pub struct SetBoolKnob {
    pub knob_name: String,
    pub value: bool,
}

#[derive(Clone, Debug, PartialEq, Eq, PartialOrd, Ord)]
pub struct DecisionFactor {
    pub name: String,
    pub value: String,
}

} // verus!
