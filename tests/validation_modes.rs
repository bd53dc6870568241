use uasset::validation::{parse_validation_mode, Validation, ValidationMode, ValidationModeError};

#[test]
fn all_selects_every_validation() {
    let mode = parse_validation_mode("All").unwrap();
    assert!(matches!(mode, ValidationMode::All));
    assert!(mode.includes(&Validation::HasEngineVersion));
    assert!(mode.includes(&Validation::AssetReferencesExist));
}

#[test]
fn listed_validations_are_selected() {
    let mode = parse_validation_mode("HasEngineVersion").unwrap();
    assert!(mode.includes(&Validation::HasEngineVersion));
    assert!(!mode.includes(&Validation::AssetReferencesExist));
    let mode = parse_validation_mode("HasEngineVersion,HasEngineVersion").unwrap();
    match mode {
        ValidationMode::Individual(v) => assert_eq!(v, vec![Validation::HasEngineVersion; 2]),
        ValidationMode::All => panic!("expected a list"),
    }
}

#[test]
fn unknown_validations_are_refused() {
    match parse_validation_mode("HasEngineVersion,Bogus") {
        Err(ValidationModeError::Unrecognized(name)) => assert_eq!(name, "Bogus"),
        other => panic!("unexpected {:?}", other),
    }
    match parse_validation_mode("") {
        Err(ValidationModeError::Unrecognized(name)) => assert_eq!(name, ""),
        other => panic!("unexpected {:?}", other),
    }
    match parse_validation_mode("AssetReferencesExist,Bogus") {
        Err(ValidationModeError::Unimplemented(name)) => assert_eq!(name, "AssetReferencesExist"),
        other => panic!("unexpected {:?}", other),
    }
    assert!(parse_validation_mode("all").is_err());
}
