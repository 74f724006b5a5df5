use chrono::{DateTime, Utc};
use ore_dock_cmms_lambda::models::asset_type::{AssetType, AssetTypeCategory};
use ore_dock_cmms_lambda::time::Timestamp;
use ore_dock_cmms_lambda::AppError;

fn dt(t: &Timestamp) -> DateTime<Utc> {
    DateTime::from_timestamp(t.secs, t.nanos).unwrap()
}

fn create_valid_asset_type() -> AssetType {
    AssetType::new(
        "type-123".to_string(),
        "Industrial Pump".to_string(),
        "High-pressure industrial water pump".to_string(),
        "garage".to_string(),
    )
    .unwrap()
}

#[test]
fn test_new_asset_type() {
    let asset_type = AssetType::new(
        "type-456".to_string(),
        "HVAC System".to_string(),
        "Commercial heating and cooling system".to_string(),
        "garage".to_string(),
    )
    .unwrap();
    assert_eq!(asset_type.id, "type-456");
    assert_eq!(asset_type.name, "HVAC System");
    assert_eq!(asset_type.description, "Commercial heating and cooling system");
    assert!(dt(&asset_type.created_at) <= Utc::now());
    assert!(dt(&asset_type.updated_at) <= Utc::now());
    assert_eq!(asset_type.created_at, asset_type.updated_at);
}

#[test]
fn test_new_asset_type_timestamps_are_current() {
    let before = Utc::now();
    let asset_type = create_valid_asset_type();
    let after = Utc::now();
    assert!(dt(&asset_type.created_at) >= before);
    assert!(dt(&asset_type.created_at) <= after);
    assert!(dt(&asset_type.updated_at) >= before);
    assert!(dt(&asset_type.updated_at) <= after);
}

#[test]
fn test_validate_valid_asset_type() {
    let asset_type = create_valid_asset_type();
    let result = asset_type.validate();
    assert!(result.is_ok());
}

#[test]
fn test_validate_empty_name() {
    let mut asset_type = create_valid_asset_type();
    asset_type.name = "".to_string();
    let result = asset_type.validate();
    assert!(result.is_err());
    assert_eq!(result.unwrap_err(), "Name and Description cannot be empty");
}

#[test]
fn test_validate_whitespace_only_name() {
    let mut asset_type = create_valid_asset_type();
    asset_type.name = "   ".to_string();
    let result = asset_type.validate();
    assert!(result.is_err());
    assert_eq!(result.unwrap_err(), "Name and Description cannot be empty");
}

#[test]
fn test_validate_empty_description() {
    let mut asset_type = create_valid_asset_type();
    asset_type.description = "".to_string();
    let result = asset_type.validate();
    assert!(result.is_err());
    assert_eq!(result.unwrap_err(), "Name and Description cannot be empty");
}

#[test]
fn test_validate_whitespace_only_description() {
    let mut asset_type = create_valid_asset_type();
    asset_type.description = "   ".to_string();
    let result = asset_type.validate();
    assert!(result.is_err());
    assert_eq!(result.unwrap_err(), "Name and Description cannot be empty");
}

#[test]
fn test_validate_both_empty() {
    let mut asset_type = create_valid_asset_type();
    asset_type.name = "".to_string();
    asset_type.description = "".to_string();
    let result = asset_type.validate();
    assert!(result.is_err());
    assert_eq!(result.unwrap_err(), "Name and Description cannot be empty");
}

#[test]
fn asset_type_test_clone() {
    let asset_type = create_valid_asset_type();
    let cloned = asset_type.clone();
    assert_eq!(asset_type.id, cloned.id);
    assert_eq!(asset_type.name, cloned.name);
    assert_eq!(asset_type.description, cloned.description);
    assert_eq!(asset_type.created_at, cloned.created_at);
    assert_eq!(asset_type.updated_at, cloned.updated_at);
}

#[test]
fn test_debug_format() {
    let asset_type = create_valid_asset_type();
    let debug_str = format!("{:?}", asset_type);
    assert!(debug_str.contains("type-123"));
    assert!(debug_str.contains("Industrial Pump"));
    assert!(debug_str.contains("High-pressure industrial water pump"));
}

#[test]
fn test_asset_type_category_from_string_invalid() {
    let result = AssetTypeCategory::from_string("invalid-category");
    assert!(result.is_err());
    let err = result.unwrap_err();
    match err {
        AppError::DatabaseError(msg) => assert!(msg.contains("Invalid category string")),
        _ => panic!("Unexpected error type"),
    }
}

#[test]
fn test_asset_type_category_round_trip() {
    for cat in [
        AssetTypeCategory::FoodProduction,
        AssetTypeCategory::BeverageProduction,
        AssetTypeCategory::Bar,
        AssetTypeCategory::Refrigeration,
        AssetTypeCategory::Storage,
        AssetTypeCategory::Office,
        AssetTypeCategory::Garage,
        AssetTypeCategory::Entertainment,
        AssetTypeCategory::Infrastructure,
        AssetTypeCategory::Utilities,
        AssetTypeCategory::Lab,
        AssetTypeCategory::Miscellaneous,
    ] {
        let s = cat.to_string();
        let parsed = AssetTypeCategory::from_string(&s).unwrap();
        assert_eq!(cat, parsed);
    }
}

#[test]
fn test_dynamodb_entity_table_name() {
    assert_eq!(AssetType::table_name(), "AssetTypes");
}

#[test]
fn test_dynamodb_entity_primary_key() {
    let asset_type = create_valid_asset_type();
    assert_eq!(asset_type.primary_key(), asset_type.id);
}

#[test]
fn test_dynamodb_entity_to_item_and_from_item() {
    let asset_type = create_valid_asset_type();
    let item = asset_type.to_item();
    let parsed = AssetType::from_item(&item).unwrap();
    assert_eq!(asset_type.id, parsed.id);
    assert_eq!(asset_type.name, parsed.name);
    assert_eq!(asset_type.description, parsed.description);
    assert_eq!(asset_type.category, parsed.category);
    assert_eq!(asset_type.created_at, parsed.created_at);
    assert_eq!(asset_type.updated_at, parsed.updated_at);
}

#[test]
fn new_asset_type_lowercases_category() {
    let t = AssetType::new("t".to_string(), "n".to_string(), "d".to_string(), "GARAGE".to_string()).unwrap();
    assert_eq!(t.category, AssetTypeCategory::Garage);
    let bad = AssetType::new("t".to_string(), "n".to_string(), "d".to_string(), "shed".to_string());
    match bad {
        Err(AppError::DatabaseError(m)) => assert_eq!(m, "Invalid category string string for asset type"),
        _ => panic!("expected a database error"),
    }
}
