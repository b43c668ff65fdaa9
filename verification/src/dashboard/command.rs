//! Wire form of the commands the dashboard sends.

use vstd::prelude::*;

use super::charge_battery_extended_mode::ChargeBatteryExtendedMode;

verus! {

#[derive(Clone, Debug, PartialEq, Eq, PartialOrd, Ord)]
pub struct SetBoolKnob {
    pub knob_name: String,
    pub value: bool,
}

#[derive(Clone, Debug, PartialEq, Eq, PartialOrd, Ord)]
pub struct SetUintKnob {
    pub knob_name: String,
    pub value: i32,
}

#[derive(Clone, Copy, Debug, PartialEq, Eq, Structural, PartialOrd, Ord)]
pub struct SetChargeBatteryExtendedMode {
    pub value: ChargeBatteryExtendedMode,
}

#[derive(Clone, Copy, Debug, PartialEq, Eq, Structural, PartialOrd, Ord)]
pub struct SetKillSwitch {
    pub value: bool,
}

} // verus!
