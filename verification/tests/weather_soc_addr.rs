use victron_controller_core::weather_soc_addr::{CellField, EnergyBucket, TempCol};

#[test]
fn energy_bucket_kebab_round_trip() {
    for b in EnergyBucket::all() {
        assert_eq!(EnergyBucket::from_kebab(b.kebab()), Some(b));
    }
    assert_eq!(EnergyBucket::from_kebab("nope"), None);
}

#[test]
fn temp_col_kebab_round_trip() {
    for t in TempCol::all() {
        assert_eq!(TempCol::from_kebab(t.kebab()), Some(t));
    }
    assert_eq!(TempCol::from_kebab("nope"), None);
}

#[test]
fn cell_field_kebab_round_trip() {
    for f in CellField::all() {
        assert_eq!(CellField::from_kebab(f.kebab()), Some(f));
    }
    assert_eq!(CellField::from_kebab("nope"), None);
}

#[test]
fn cell_field_is_float_matches_kind() {
    assert!(CellField::ExportSocThreshold.is_float());
    assert!(CellField::BatterySocTarget.is_float());
    assert!(CellField::DischargeSocTarget.is_float());
    assert!(!CellField::Extended.is_float());
}

#[test]
fn cartesian_product_is_48() {
    let total = EnergyBucket::all().len() * TempCol::all().len() * CellField::all().len();
    assert_eq!(total, 48);
}

#[test]
fn bucket_labels_and_tokens() {
    assert_eq!(EnergyBucket::VerySunny.label(), "VerySunny");
    assert_eq!(EnergyBucket::VeryDim.kebab(), "very-dim");
    assert_eq!(EnergyBucket::from_kebab("very-sunny"), Some(EnergyBucket::VerySunny));
    assert_eq!(EnergyBucket::from_kebab("Sunny"), None);
    assert_eq!(EnergyBucket::from_kebab(""), None);
    assert_eq!(TempCol::from_kebab("cold"), Some(TempCol::Cold));
    assert_eq!(CellField::from_kebab("extended"), Some(CellField::Extended));
    assert_eq!(CellField::from_kebab("extended "), None);
}
