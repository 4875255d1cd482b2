use filament_catalog::diameter::FilamentDiameter;
use filament_catalog::material::FilamentMaterial;
use filament_catalog::retailer::Retailer;

#[test]
fn material_known_variants_round_trip() {
    let canonical = [
        "PLA",
        "PLAPlus",
        "ABS",
        "PETG",
        "TPU",
        "Nylon",
        "PC",
        "ASA",
        "Unspecified",
    ];
    for raw in canonical {
        let decoded = FilamentMaterial::from_str(raw);
        assert!(!matches!(decoded, FilamentMaterial::Other(_)));
        // encode(decode(raw)) == raw
        assert_eq!(decoded.encode(), raw);
        // decode(encode(v)) == v
        assert_eq!(FilamentMaterial::from_str(&decoded.encode()), decoded);
    }
}

#[test]
fn material_each_canonical_form_is_its_own_variant() {
    assert!(matches!(FilamentMaterial::from_str("PLA"), FilamentMaterial::PLA));
    assert!(matches!(FilamentMaterial::from_str("PLAPlus"), FilamentMaterial::PLAPlus));
    assert!(matches!(FilamentMaterial::from_str("ABS"), FilamentMaterial::ABS));
    assert!(matches!(FilamentMaterial::from_str("PETG"), FilamentMaterial::PETG));
    assert!(matches!(FilamentMaterial::from_str("TPU"), FilamentMaterial::TPU));
    assert!(matches!(FilamentMaterial::from_str("Nylon"), FilamentMaterial::Nylon));
    assert!(matches!(FilamentMaterial::from_str("PC"), FilamentMaterial::PC));
    assert!(matches!(FilamentMaterial::from_str("ASA"), FilamentMaterial::ASA));
    assert!(matches!(
        FilamentMaterial::from_str("Unspecified"),
        FilamentMaterial::Unspecified
    ));
}

#[test]
fn material_unknown_raw_round_trips_losslessly() {
    let decoded = FilamentMaterial::from_str("Carbon-Fiber-PLA");
    match &decoded {
        FilamentMaterial::Other(s) => assert_eq!(s, "Carbon-Fiber-PLA"),
        _ => panic!("an unrecognized raw string must decode into the catch-all"),
    }
    assert_eq!(decoded.encode(), "Carbon-Fiber-PLA");
    // decode(encode(v)) == v for the catch-all as well
    assert_eq!(FilamentMaterial::from_str(&decoded.encode()), decoded);
    // case matters: a near-miss of a canonical form is still unknown
    let near_miss = FilamentMaterial::from_str("pla");
    assert!(matches!(near_miss, FilamentMaterial::Other(_)));
    assert_eq!(near_miss.encode(), "pla");
}

#[test]
fn retailer_round_trips() {
    assert!(matches!(Retailer::from_str("Amazon"), Retailer::Amazon));
    assert_eq!(Retailer::from_str("Amazon").encode(), "Amazon");
    let unknown = Retailer::from_str("BigBoxCo");
    match &unknown {
        Retailer::Other(s) => assert_eq!(s, "BigBoxCo"),
        _ => panic!("an unrecognized raw string must decode into the catch-all"),
    }
    assert_eq!(unknown.encode(), "BigBoxCo");
    // decode(encode(v)) == v on both sides of the open set
    assert_eq!(Retailer::from_str(&unknown.encode()), unknown);
    assert_eq!(Retailer::from_str(&Retailer::Amazon.encode()), Retailer::Amazon);
}

#[test]
fn diameter_round_trips() {
    assert_eq!(FilamentDiameter::try_from(175), Ok(FilamentDiameter::D175));
    assert_eq!(FilamentDiameter::try_from(285), Ok(FilamentDiameter::D285));
    assert_eq!(FilamentDiameter::try_from(300), Ok(FilamentDiameter::Other(300)));
    assert_eq!(FilamentDiameter::D175.encode(), 175);
    assert_eq!(FilamentDiameter::D285.encode(), 285);
    assert_eq!(FilamentDiameter::Other(300).encode(), 300);
    // encode(decode(raw)) == raw, for canonical and unknown raw values alike
    for raw in [175u16, 285, 0, 300, 65535] {
        assert_eq!(FilamentDiameter::try_from(raw).unwrap().encode(), raw);
    }
    // decode(encode(v)) == v for every reachable value
    for d in [
        FilamentDiameter::D175,
        FilamentDiameter::D285,
        FilamentDiameter::Other(300),
    ] {
        assert_eq!(FilamentDiameter::try_from(d.encode()), Ok(d));
    }
}
