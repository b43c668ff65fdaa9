use victron_controller_core::dashboard::bookkeeping_key::BookkeepingKey;
use victron_controller_core::dashboard::charge_battery_extended_mode::ChargeBatteryExtendedMode;
use victron_controller_core::dashboard::command::{SetBoolKnob, SetKillSwitch, SetUintKnob};
use victron_controller_core::dashboard::convert::{
    convert__bookkeeping_key__from__0_2_0, convert__charge_battery_extended_mode__from__0_1_0,
    convert__command__set_bool_knob__from__0_1_0, convert__command__set_kill_switch__from__0_2_0,
    convert__command__set_uint_knob__from__0_2_0, convert__decision_factor__from__0_1_0,
    convert__freshness__from__0_1_0,
};
use victron_controller_core::dashboard::freshness::Freshness;
use victron_controller_core::dashboard::ueba::UebaError;
use victron_controller_core::dashboard::{v0_1_0, v0_2_0};

#[test]
fn freshness_parse_and_names() {
    for f in Freshness::all() {
        assert_eq!(Freshness::parse(f.wire_name()), Ok(f));
        assert_eq!(f.wire_name().parse::<Freshness>(), Ok(f));
    }
    assert_eq!(Freshness::all().len(), 4);
    assert_eq!(Freshness::Stale.wire_name(), "Stale");
    assert_eq!(Freshness::parse("stale"), Err("Unknown variant: stale".to_string()));
    assert_eq!(Freshness::parse(""), Err("Unknown variant: ".to_string()));
}

#[test]
fn bookkeeping_key_parse_and_names() {
    assert_eq!(
        BookkeepingKey::all(),
        vec![
            BookkeepingKey::NextFullCharge,
            BookkeepingKey::AboveSocDate,
            BookkeepingKey::PrevEssState,
            BookkeepingKey::ChargeToFullRequired,
        ]
    );
    for k in BookkeepingKey::all() {
        assert_eq!(BookkeepingKey::parse(k.wire_name()), Ok(k));
    }
    assert_eq!(
        BookkeepingKey::parse("NextFull"),
        Err("Unknown variant: NextFull".to_string())
    );
}

#[test]
fn charge_battery_extended_mode_parse_and_names() {
    for m in ChargeBatteryExtendedMode::all() {
        assert_eq!(ChargeBatteryExtendedMode::parse(m.wire_name()), Ok(m));
    }
    assert_eq!(ChargeBatteryExtendedMode::Forced.wire_name(), "Forced");
    assert!(ChargeBatteryExtendedMode::parse("forced").is_err());
}

#[test]
fn enum_tags_encode_and_decode() {
    let mut out = vec![0xAA];
    Freshness::Deprecated.encode_ueba(&mut out);
    BookkeepingKey::PrevEssState.encode_ueba(&mut out);
    ChargeBatteryExtendedMode::Disabled.encode_ueba(&mut out);
    assert_eq!(out, vec![0xAA, 3, 2, 2]);
    assert_eq!(Freshness::decode_ueba(&out, 1), Ok((Freshness::Deprecated, 2)));
    assert_eq!(BookkeepingKey::decode_ueba(&out, 2), Ok((BookkeepingKey::PrevEssState, 3)));
    assert_eq!(
        ChargeBatteryExtendedMode::decode_ueba(&out, 3),
        Ok((ChargeBatteryExtendedMode::Disabled, 4))
    );
    assert_eq!(Freshness::decode_ueba(&out, 4), Err(UebaError::UnexpectedEnd));
    assert_eq!(Freshness::decode_ueba(&out, 0), Err(UebaError::UnknownEnumTag(0xAA)));
    assert_eq!(
        ChargeBatteryExtendedMode::decode_ueba(&[3], 0),
        Err(UebaError::UnknownEnumTag(3))
    );
    assert_eq!(Freshness::index_elements_count(), 0);
    for f in Freshness::all() {
        let mut bytes = Vec::new();
        f.encode_ueba(&mut bytes);
        assert_eq!(Freshness::decode_ueba(&bytes, 0), Ok((f, 1)));
    }
}

#[test]
fn enum_converters_keep_the_variant_name() {
    assert_eq!(convert__freshness__from__0_1_0(&v0_1_0::Freshness::Stale), Freshness::Stale);
    assert_eq!(
        convert__charge_battery_extended_mode__from__0_1_0(&v0_1_0::ChargeBatteryExtendedMode::Auto),
        ChargeBatteryExtendedMode::Auto
    );
    assert_eq!(
        convert__bookkeeping_key__from__0_2_0(&v0_2_0::BookkeepingKey::ChargeToFullRequired),
        BookkeepingKey::ChargeToFullRequired
    );
}

#[test]
fn struct_converters_copy_fields() {
    let old = v0_1_0::SetBoolKnob { knob_name: "charge_car_boost".to_string(), value: true };
    assert_eq!(
        convert__command__set_bool_knob__from__0_1_0(&old),
        SetBoolKnob { knob_name: "charge_car_boost".to_string(), value: true }
    );
    let old = v0_2_0::SetUintKnob { knob_name: "eddi_dwell_s".to_string(), value: 60 };
    assert_eq!(
        convert__command__set_uint_knob__from__0_2_0(&old),
        SetUintKnob { knob_name: "eddi_dwell_s".to_string(), value: 60 }
    );
    assert_eq!(
        convert__command__set_kill_switch__from__0_2_0(&v0_2_0::SetKillSwitch { value: false }),
        SetKillSwitch { value: false }
    );
    let f = convert__decision_factor__from__0_1_0(&v0_1_0::DecisionFactor {
        name: "soc".to_string(),
        value: "75".to_string(),
    });
    assert_eq!(f.name, "soc");
    assert_eq!(f.value, "75");
}
