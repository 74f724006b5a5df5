use ore_dock_cmms_lambda::models::address::{Address, AddressInput};

fn create_valid_address() -> Address {
    Address::new(
        "123 Main St".to_string(),
        Some("Apt 4B".to_string()),
        "Springfield".to_string(),
        "IL".to_string(),
        "United States".to_string(),
        "62701".to_string(),
    )
}

#[test]
fn test_new_address_with_unit() {
    let address = Address::new(
        "123 Main St".to_string(),
        Some("Apt 4B".to_string()),
        "Springfield".to_string(),
        "IL".to_string(),
        "United States".to_string(),
        "62701".to_string(),
    );
    assert_eq!(address.street, "123 Main St");
    assert_eq!(address.unit, Some("Apt 4B".to_string()));
    assert_eq!(address.city, "Springfield");
    assert_eq!(address.state, "IL");
    assert_eq!(address.country, "United States");
    assert_eq!(address.zip, "62701");
}

#[test]
fn test_new_address_without_unit() {
    let address = Address::new(
        "456 Oak Avenue".to_string(),
        None,
        "Chicago".to_string(),
        "IL".to_string(),
        "United States".to_string(),
        "60601".to_string(),
    );
    assert_eq!(address.street, "456 Oak Avenue");
    assert_eq!(address.unit, None);
    assert_eq!(address.city, "Chicago");
}

#[test]
fn test_validate_empty_street() {
    let mut address = create_valid_address();
    address.street = "".to_string();
    let result = address.validate();
    assert!(result.is_err());
    assert_eq!(result.unwrap_err(), "Street field cannot be empty");
}

#[test]
fn test_validate_whitespace_only_street() {
    let mut address = create_valid_address();
    address.street = "   ".to_string();
    let result = address.validate();
    assert!(result.is_err());
    assert_eq!(result.unwrap_err(), "Street field cannot be empty");
}

#[test]
fn test_validate_empty_city() {
    let mut address = create_valid_address();
    address.city = "".to_string();
    let result = address.validate();
    assert!(result.is_err());
    assert_eq!(result.unwrap_err(), "City field cannot be empty");
}

#[test]
fn test_validate_empty_state() {
    let mut address = create_valid_address();
    address.state = "".to_string();
    let result = address.validate();
    assert!(result.is_err());
    assert_eq!(result.unwrap_err(), "State field cannot be empty");
}

#[test]
fn test_validate_empty_country() {
    let mut address = create_valid_address();
    address.country = "".to_string();
    let result = address.validate();
    assert!(result.is_err());
    assert_eq!(result.unwrap_err(), "Country field cannot be empty");
}

#[test]
fn test_validate_empty_zip() {
    let mut address = create_valid_address();
    address.zip = "".to_string();
    let result = address.validate();
    assert!(result.is_err());
    assert_eq!(result.unwrap_err(), "Zip field cannot be empty");
}

#[test]
fn address_test_clone() {
    let address = create_valid_address();
    let cloned = address.clone();
    assert_eq!(address.street, cloned.street);
    assert_eq!(address.unit, cloned.unit);
    assert_eq!(address.city, cloned.city);
}

#[test]
fn validate_accepts_street_address_and_po_box() {
    let address = create_valid_address();
    assert_eq!(address.validate(), Ok(()));
    let mut po = create_valid_address();
    po.street = "  P.O. Box 123 ".to_string();
    assert_eq!(po.validate(), Ok(()));
    let mut post = create_valid_address();
    post.street = "post office box 9".to_string();
    assert_eq!(post.validate(), Ok(()));
}

#[test]
fn validate_refuses_street_without_number() {
    let mut address = create_valid_address();
    address.street = "Main Street".to_string();
    assert_eq!(address.validate(), Err("Street value invalid".to_string()));
}

#[test]
fn address_value_roundtrip() {
    let address = create_valid_address();
    let value = address.to_item();
    let back = Address::from_item(&value).unwrap();
    assert_eq!(back.street, address.street);
    assert_eq!(back.unit, address.unit);
    assert_eq!(back.city, address.city);
    assert_eq!(back.state, address.state);
    assert_eq!(back.country, address.country);
    assert_eq!(back.zip, address.zip);
    let mut no_unit = create_valid_address();
    no_unit.unit = None;
    let back = Address::from_item(&no_unit.to_item()).unwrap();
    assert_eq!(back.unit, None);
}

#[test]
fn address_input_conversions_keep_fields() {
    let input = AddressInput::from(create_valid_address());
    assert_eq!(input.street, "123 Main St");
    assert_eq!(input.unit, Some("Apt 4B".to_string()));
    let back = Address::from(input);
    assert_eq!(back.zip, "62701");
    assert_eq!(back.country, "United States");
}
