//! Converters from earlier revisions of the dashboard wire types.

#![allow(non_snake_case)]

use vstd::prelude::*;

use super::bookkeeping_key::{
    lemma_bookkeeping_key_name_round_trip, lemma_bookkeeping_key_parse_only_names,
    spec_bookkeeping_key_name, BookkeepingKey,
};
use super::charge_battery_extended_mode::{
    lemma_charge_battery_extended_mode_name_round_trip,
    lemma_charge_battery_extended_mode_parse_only_names, spec_charge_battery_extended_mode_name,
    ChargeBatteryExtendedMode,
};
use super::command::{SetBoolKnob, SetKillSwitch, SetUintKnob};
use super::decision_factor::DecisionFactor;
use super::freshness::{
    lemma_freshness_name_round_trip, lemma_freshness_parse_only_names, spec_freshness_name,
    Freshness,
};
use super::v0_1_0;
use super::v0_2_0;

verus! {

/// Carry a 0.1.0 `Freshness` over by its wire name.
pub fn convert__freshness__from__0_1_0(from: &v0_1_0::Freshness) -> (r: Freshness)
    ensures
        spec_freshness_name(r) == v0_1_0::spec_freshness_name(*from),
{
    let name = from.wire_name();
    match Freshness::parse(name) {
        Ok(v) => {
            proof {
                lemma_freshness_parse_only_names(name@);
            }
            v
        },
        Err(_) => {
            proof {
                match *from {
                v0_1_0::Freshness::Unknown => lemma_freshness_name_round_trip(Freshness::Unknown),
                v0_1_0::Freshness::Fresh => lemma_freshness_name_round_trip(Freshness::Fresh),
                v0_1_0::Freshness::Stale => lemma_freshness_name_round_trip(Freshness::Stale),
                v0_1_0::Freshness::Deprecated => lemma_freshness_name_round_trip(Freshness::Deprecated),
                }
            }
            Freshness::Unknown
        },
    }
}

/// Carry a 0.1.0 `ChargeBatteryExtendedMode` over by its wire name.
pub fn convert__charge_battery_extended_mode__from__0_1_0(from: &v0_1_0::ChargeBatteryExtendedMode) -> (r: ChargeBatteryExtendedMode)
    ensures
        spec_charge_battery_extended_mode_name(r) == v0_1_0::spec_charge_battery_extended_mode_name(*from),
{
    let name = from.wire_name();
    match ChargeBatteryExtendedMode::parse(name) {
        Ok(v) => {
            proof {
                lemma_charge_battery_extended_mode_parse_only_names(name@);
            }
            v
        },
        Err(_) => {
            proof {
                match *from {
                v0_1_0::ChargeBatteryExtendedMode::Auto => lemma_charge_battery_extended_mode_name_round_trip(ChargeBatteryExtendedMode::Auto),
                v0_1_0::ChargeBatteryExtendedMode::Forced => lemma_charge_battery_extended_mode_name_round_trip(ChargeBatteryExtendedMode::Forced),
                v0_1_0::ChargeBatteryExtendedMode::Disabled => lemma_charge_battery_extended_mode_name_round_trip(ChargeBatteryExtendedMode::Disabled),
                }
            }
            ChargeBatteryExtendedMode::Auto
        },
    }
}

/// Carry a 0.2.0 `BookkeepingKey` over by its wire name.
pub fn convert__bookkeeping_key__from__0_2_0(from: &v0_2_0::BookkeepingKey) -> (r: BookkeepingKey)
    ensures
        spec_bookkeeping_key_name(r) == v0_2_0::spec_bookkeeping_key_name(*from),
{
    let name = from.wire_name();
    match BookkeepingKey::parse(name) {
        Ok(v) => {
            proof {
                lemma_bookkeeping_key_parse_only_names(name@);
            }
            v
        },
        Err(_) => {
            proof {
                match *from {
                v0_2_0::BookkeepingKey::NextFullCharge => lemma_bookkeeping_key_name_round_trip(BookkeepingKey::NextFullCharge),
                v0_2_0::BookkeepingKey::AboveSocDate => lemma_bookkeeping_key_name_round_trip(BookkeepingKey::AboveSocDate),
                v0_2_0::BookkeepingKey::PrevEssState => lemma_bookkeeping_key_name_round_trip(BookkeepingKey::PrevEssState),
                v0_2_0::BookkeepingKey::ChargeToFullRequired => lemma_bookkeeping_key_name_round_trip(BookkeepingKey::ChargeToFullRequired),
                }
            }
            BookkeepingKey::NextFullCharge
        },
    }
}

/// Field-for-field copy of a 0.1.0 `SetBoolKnob`.
pub fn convert__command__set_bool_knob__from__0_1_0(from: &v0_1_0::SetBoolKnob) -> (r: SetBoolKnob)
    ensures
        r.knob_name@ == from.knob_name@,
        r.value == from.value,
{
    SetBoolKnob { knob_name: from.knob_name.clone(), value: from.value }
}

/// Field-for-field copy of a 0.1.0 `DecisionFactor`.
pub fn convert__decision_factor__from__0_1_0(from: &v0_1_0::DecisionFactor) -> (r: DecisionFactor)
    ensures
        r.name@ == from.name@,
        r.value@ == from.value@,
{
    DecisionFactor { name: from.name.clone(), value: from.value.clone() }
}

/// Field-for-field copy of a 0.2.0 `SetKillSwitch`.
pub fn convert__command__set_kill_switch__from__0_2_0(from: &v0_2_0::SetKillSwitch) -> (r: SetKillSwitch)
    ensures
        r.value == from.value,
{
    SetKillSwitch { value: from.value }
}

/// Field-for-field copy of a 0.2.0 `SetUintKnob`.
pub fn convert__command__set_uint_knob__from__0_2_0(from: &v0_2_0::SetUintKnob) -> (r: SetUintKnob)
    ensures
        r.knob_name@ == from.knob_name@,
        r.value == from.value,
{
    SetUintKnob { knob_name: from.knob_name.clone(), value: from.value }
}

} // verus!
