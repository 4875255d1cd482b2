use filament_catalog::diameter::FilamentDiameter;
use filament_catalog::hook::compute_price_per_kg;
use filament_catalog::material::FilamentMaterial;
use filament_catalog::measure::{Cents, Grams};
use filament_catalog::product::{Product, ProductRequest};
use filament_catalog::retailer::Retailer;

fn sample_request() -> ProductRequest {
    ProductRequest {
        name: "Sample Spool".to_owned(),
        price: Cents(2000),
        url: "https://example.com/spool".to_owned(),
        material: FilamentMaterial::from_str("PETG"),
        diameter: FilamentDiameter::try_from(175).unwrap(),
        weight: Grams(1000),
        retailer: Retailer::from_str("Amazon"),
        retailer_product_id: "B000TEST".to_owned(),
        color: "Galaxy Black".to_owned(),
    }
}

#[test]
fn derived_field_exact() {
    assert_eq!(compute_price_per_kg(Cents(2000), Grams(1000)), Cents(2000));
}

#[test]
fn derived_field_rounding() {
    // no rounding needed
    assert_eq!(compute_price_per_kg(Cents(2999), Grams(1000)), Cents(2999));
    // 1 / 3 * 1000 = 333.33..., rounded to the nearest integer
    assert_eq!(compute_price_per_kg(Cents(1), Grams(3)), Cents(333));
    // a tie rounds half away from zero
    assert_eq!(compute_price_per_kg(Cents(1), Grams(2000)), Cents(1));
}

#[test]
fn derived_field_zero_weight_sentinel() {
    assert_eq!(compute_price_per_kg(Cents(2000), Grams(0)), Cents(0));
    assert_eq!(compute_price_per_kg(Cents(0), Grams(0)), Cents(0));
    assert_eq!(compute_price_per_kg(Cents(u32::MAX), Grams(0)), Cents(0));
}

#[test]
fn creation_forces_derived_field_to_zero() {
    let product = Product::from_request(sample_request());
    assert_eq!(product.price_per_kg, Cents(0));
    // every caller-supplied field is copied verbatim
    assert_eq!(product.name, "Sample Spool");
    assert_eq!(product.price, Cents(2000));
    assert_eq!(product.url, "https://example.com/spool");
    assert!(matches!(product.material, FilamentMaterial::PETG));
    assert_eq!(product.diameter, FilamentDiameter::D175);
    assert_eq!(product.weight, Grams(1000));
    assert!(matches!(product.retailer, Retailer::Amazon));
    assert_eq!(product.retailer_product_id, "B000TEST");
    assert_eq!(product.color, "Galaxy Black");
}

#[test]
fn minted_identities_are_canonical_and_distinct() {
    let a = Product::from_request(sample_request());
    let b = Product::from_request(sample_request());
    let ida = a.uuid.to_uuid_string();
    let idb = b.uuid.to_uuid_string();
    assert_eq!(ida.len(), 36);
    assert_eq!(idb.len(), 36);
    assert_ne!(ida, idb);
}

#[test]
fn identity_stable_across_projections() {
    let product = Product::from_request(sample_request());
    let first = product.to_response();
    let second = product.to_response();
    assert_eq!(first.uuid, second.uuid);
    assert_eq!(first.uuid, product.uuid.to_uuid_string());
}

#[test]
fn response_passes_every_field_through() {
    let mut product = Product::from_request(sample_request());
    product.price_per_kg = Cents(2000);
    let response = product.to_response();
    assert_eq!(response.name, "Sample Spool");
    assert_eq!(response.price, Cents(2000));
    assert_eq!(response.price_per_kg, Cents(2000));
    assert_eq!(response.url, "https://example.com/spool");
    assert!(matches!(response.material, FilamentMaterial::PETG));
    assert_eq!(response.diameter, FilamentDiameter::D175);
    assert_eq!(response.weight, Grams(1000));
    assert!(matches!(response.retailer, Retailer::Amazon));
    assert_eq!(response.retailer_product_id, "B000TEST");
    assert_eq!(response.color, "Galaxy Black");
}

#[test]
fn unknown_material_survives_end_to_end() {
    let mut request = sample_request();
    request.material = FilamentMaterial::from_str("Carbon-Fiber-PLA");
    let product = Product::from_request(request);
    match &product.material {
        FilamentMaterial::Other(s) => assert_eq!(s, "Carbon-Fiber-PLA"),
        _ => panic!("the unknown raw string must be preserved in the record"),
    }
    let response = product.to_response();
    assert_eq!(response.material.encode(), "Carbon-Fiber-PLA");
    // and the wire form still decodes back to the same catch-all value
    let redecoded = FilamentMaterial::from_str(&response.material.encode());
    match redecoded {
        FilamentMaterial::Other(s) => assert_eq!(s, "Carbon-Fiber-PLA"),
        _ => panic!("the unknown raw string must decode into the catch-all again"),
    }
}

#[test]
fn record_equality_is_structural() {
    let product = Product::from_request(sample_request());
    let copy = product.clone();
    assert_eq!(product, copy);
    let mut patched = product.clone();
    patched.price_per_kg = Cents(2000);
    assert_ne!(product, patched);
}
