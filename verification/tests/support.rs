use chrono::{DateTime, TimeZone, Utc};
use ore_dock_cmms_lambda::config::Config;
use ore_dock_cmms_lambda::decimal::DecimalNumber;
use ore_dock_cmms_lambda::fields::{read_timestamp, write_timestamp};
use ore_dock_cmms_lambda::item::Item;
use ore_dock_cmms_lambda::ieee::{above, at_least, at_most, below, below_zero};
use ore_dock_cmms_lambda::json::read_json_or_empty_object;
use ore_dock_cmms_lambda::models::asset::Asset;
use ore_dock_cmms_lambda::numeric::{format_i32, parse_i32};
use ore_dock_cmms_lambda::strlist::{add_unique, holds, remove_first};
use ore_dock_cmms_lambda::tables::{
    all_tables, attribute_context, creation_failure, index_context, index_key_context, key_context, needs_creation,
    AttrType, BillingMode, KeyRole, ProjectionKind,
};
use ore_dock_cmms_lambda::store::{create_failure, delete_failure, get_failure, scan_failure, update_failure};
use ore_dock_cmms_lambda::text::{contains_text, is_blank, join_text, trim};
use ore_dock_cmms_lambda::time::{TimeOfDay, Timestamp};
use ore_dock_cmms_lambda::{build, AppError};

#[test]
fn text_helpers() {
    assert_eq!(trim("  a b \t\n"), "a b");
    assert_eq!(trim("\u{3000}x\u{a0}"), "x");
    assert_eq!(trim("   "), "");
    assert!(is_blank(" \t"));
    assert!(!is_blank(" x "));
    assert_eq!(join_text("ab", "cd"), "abcd");
}

#[test]
fn i32_text() {
    assert_eq!(format_i32(-2147483648), "-2147483648");
    assert_eq!(format_i32(0), "0");
    assert_eq!(parse_i32("+42"), Some(42));
    assert_eq!(parse_i32("-0"), Some(0));
    assert_eq!(parse_i32("2147483648"), None);
    assert_eq!(parse_i32(""), None);
    assert_eq!(parse_i32("1_000"), None);
    for n in [i32::MIN, -7, 0, 9, i32::MAX] {
        assert_eq!(parse_i32(&format_i32(n)), Some(n));
    }
}

#[test]
fn datetime_text_roundtrip() {
    let d = Utc.with_ymd_and_hms(2024, 2, 29, 23, 59, 58).unwrap() + chrono::Duration::nanoseconds(123_456_789);
    let t = Timestamp { secs: d.timestamp(), nanos: d.timestamp_subsec_nanos() };
    let mut item = Item::new();
    write_timestamp(&mut item, "at", &t);
    assert_eq!(item.get_s("at").unwrap(), &d.to_string());
    assert_eq!(read_timestamp(&item, "at"), Some(t));
    item.insert_s("bad", "not a date".to_string());
    assert_eq!(read_timestamp(&item, "bad"), None);
    assert_eq!(read_timestamp(&item, "missing"), None);
    let back: DateTime<Utc> = DateTime::from_timestamp(t.secs, t.nanos).unwrap();
    assert_eq!(back, d);
}

#[test]
fn timestamp_order_and_arithmetic() {
    let a = Timestamp { secs: 10, nanos: 5 };
    let b = Timestamp { secs: 10, nanos: 6 };
    assert!(a.is_before(&b) && b.is_after(&a) && !a.is_before(&a));
    assert_eq!(a.plus_seconds(60), Timestamp { secs: 70, nanos: 5 });
    assert!(Timestamp::from_unix(i64::MAX, 0).is_none());
    assert!(TimeOfDay::from_hms(24, 0, 0).is_none());
    assert_eq!(Timestamp { secs: 86_400 + 3_661, nanos: 0 }.time_of_day(), TimeOfDay::from_hms(1, 1, 1).unwrap());
    assert_eq!(Timestamp { secs: -1, nanos: 0 }.time_of_day(), TimeOfDay::from_hms(23, 59, 59).unwrap());
}

#[test]
fn json_is_canonical() {
    let mut item = Item::new();
    item.insert_s("doc", "{ \"b\" : [1, 2], \"a\": null }".to_string());
    item.insert_s("bad", "{oops".to_string());
    assert_eq!(read_json_or_empty_object(&item, "doc"), "{\"a\":null,\"b\":[1,2]}");
    assert_eq!(read_json_or_empty_object(&item, "bad"), "{}");
    assert_eq!(read_json_or_empty_object(&item, "missing"), "{}");
}

#[test]
fn decimal_text() {
    let now = Timestamp { secs: 1_700_000_000, nanos: 0 };
    let mut a = Asset::new(
        "a1".to_string(), "Pump".to_string(), "t".to_string(), "SN".to_string(), "MN".to_string(),
        now, now, "loc".to_string(), "man".to_string(), "monthly".to_string(), None, None,
    )
    .unwrap();
    a.total_downtime_hours = DecimalNumber { mantissa: 1250, scale: 2 };
    let mut item = a.to_item();
    assert_eq!(item.get_s("total_downtime_hours").unwrap(), "12.50");
    let back = Asset::from_item(&item).unwrap();
    assert_eq!(back.total_downtime_hours, DecimalNumber { mantissa: 1250, scale: 2 });
    item.insert_s("total_downtime_hours", "-0.0".to_string());
    let back = Asset::from_item(&item).unwrap();
    // rust_decimal reads a negative zero as zero.
    assert_eq!(back.total_downtime_hours, DecimalNumber { mantissa: 0, scale: 1 });
    assert_eq!(back.to_item().get_s("total_downtime_hours").unwrap(), "0.0");
    item.insert_s("total_downtime_hours", "-3.25".to_string());
    let back = Asset::from_item(&item).unwrap();
    assert_eq!(back.total_downtime_hours, DecimalNumber { mantissa: -325, scale: 2 });
    assert_eq!(back.to_item().get_s("total_downtime_hours").unwrap(), "-3.25");
    item.insert_s("total_downtime_hours", "twelve".to_string());
    assert_eq!(Asset::from_item(&item).unwrap().total_downtime_hours, DecimalNumber::zero());
}

#[test]
fn ieee_comparisons_match_f64() {
    let values = [0.0f64, -0.0, 0.5, 0.49, 1.0, 3.0, 3.01, -2.0, f64::INFINITY, f64::NEG_INFINITY, f64::NAN, 5.0, 5.0001];
    for &x in &values {
        let b = x.to_bits();
        assert_eq!(below_zero(b), x < 0.0, "{x}");
        assert_eq!(above(b, 5.0f64.to_bits()), x > 5.0, "{x}");
        assert_eq!(below(b, 0.5f64.to_bits()), x < 0.5, "{x}");
        assert_eq!(at_least(b, 0.5f64.to_bits()), x >= 0.5, "{x}");
        assert_eq!(at_most(b, 3.0f64.to_bits()), x <= 3.0, "{x}");
    }
}

#[test]
fn string_lists() {
    let mut v = vec!["a".to_string(), "b".to_string(), "a".to_string()];
    assert!(holds(&v, "b"));
    assert!(!add_unique(&mut v, "b".to_string()));
    assert!(add_unique(&mut v, "c".to_string()));
    assert!(remove_first(&mut v, "a"));
    assert_eq!(v, vec!["b".to_string(), "a".to_string(), "c".to_string()]);
    assert!(!remove_first(&mut v, "z"));
}

#[test]
fn table_definitions() {
    let tables = all_tables();
    assert_eq!(tables.len(), 21);
    assert_eq!(tables[0].name, "Assets");
    assert_eq!(tables[0].indexes.len(), 5);
    assert!(tables.iter().all(|t| t.billing == BillingMode::PayPerRequest));
    assert!(tables.iter().all(|t| t.indexes.iter().all(|i| i.projection == ProjectionKind::All)));
    let status = &tables[0].indexes[3];
    assert_eq!(status.name, "StatusIndex");
    assert_eq!(index_key_context(status), "Failed to build Status GSI PK");
    assert_eq!(index_context(status), "Failed to build StatusIndex GSI");
    assert_eq!(attribute_context(&tables[0].attributes[1]), "Failed to build type_id attribute definition");
    assert_eq!(key_context(&tables[0].keys[0]), "Failed to build id key schema");
    let unp = tables.iter().find(|t| t.name == "UserNotificationPreferences").unwrap();
    assert_eq!(unp.keys.len(), 2);
    assert_eq!(unp.keys[1].role, KeyRole::Range);
    let vendors = tables.iter().find(|t| t.name == "Vendors").unwrap();
    assert!(vendors.attributes.iter().any(|a| a.name == "rating" && a.attr_type == AttrType::N));
    let existing = vec!["Assets".to_string()];
    assert!(!needs_creation(&existing, "Assets"));
    assert!(needs_creation(&existing, "Roles"));
    match creation_failure("Roles", "boom") {
        AppError::DatabaseError(m) => assert_eq!(m, "Failed to create Roles table: \"boom\""),
        _ => panic!("expected a database error"),
    }
}

#[test]
fn errors_and_config() {
    let e = AppError::NotFound("asset 7".to_string());
    assert_eq!(e.to_string(), "Not found: asset 7");
    assert_eq!(e.code(), "NOT_FOUND");
    match build::<u8>(Err("missing \"name\"".to_string()), "Failed to build id") {
        Err(AppError::DatabaseError(m)) => assert_eq!(m, "Failed to build id: \"missing \\\"name\\\"\""),
        _ => panic!("expected a database error"),
    }
    assert_eq!(build(Ok::<u8, String>(3), "ctx").unwrap(), 3);
    let mut c = Config::default();
    assert_eq!(c.allowed_origins(), vec!["".to_string()]);
    c.allow_origins = "https://a.example,https://b.example,".to_string();
    assert_eq!(c.allowed_origins(), vec!["https://a.example".to_string(), "https://b.example".to_string(), "".to_string()]);
    assert_eq!(c.database.endpoint, Some("http://localhost:8000".to_string()));
    assert_eq!(c.auth.token_expiry, 3600);
    match Config::load_failure("missing field `environment`") {
        AppError::ConfigError(m) => assert_eq!(m, "Failed to load config from environment: missing field `environment`"),
        _ => panic!("expected a configuration error"),
    }
}

#[test]
fn store_failures() {
    match create_failure("ConditionalCheckFailedException: The conditional request failed") {
        AppError::ValidationError(m) => assert_eq!(m, "Entity with this ID already exists"),
        other => panic!("expected a validation error, got {:?}", other),
    }
    match create_failure("service error") {
        AppError::DatabaseError(m) => assert_eq!(m, "Failed to create entity: service error"),
        other => panic!("expected a database error, got {:?}", other),
    }
    assert_eq!(update_failure("x").to_string(), "Database error: Failed to update entity: x");
    assert_eq!(delete_failure("x").to_string(), "Database error: Failed to delete entity: x");
    assert_eq!(scan_failure("x").to_string(), "Database error: Failed to scan table: x");
    assert_eq!(get_failure("x").to_string(), "Database error: Failed to get item: x");
}

#[test]
fn text_search() {
    assert!(contains_text("abcabd", "abd"));
    assert!(contains_text("abc", ""));
    assert!(!contains_text("ab", "abc"));
    assert!(!contains_text("abcabc", "abd"));
    assert!(contains_text("héllo wörld", "ö"));
}

#[test]
fn datetime_text_roundtrip_beyond_four_digit_years_and_leap_seconds() {
    let far = Utc.with_ymd_and_hms(12000, 6, 1, 8, 0, 0).unwrap();
    let leap = Timestamp { secs: Utc.with_ymd_and_hms(2016, 12, 31, 23, 59, 59).unwrap().timestamp(), nanos: 1_500_000_000 };
    let early = Utc.with_ymd_and_hms(-44, 3, 15, 12, 0, 0).unwrap();
    for t in [Timestamp { secs: far.timestamp(), nanos: 0 }, leap, Timestamp { secs: early.timestamp(), nanos: 7 }] {
        let mut item = Item::new();
        write_timestamp(&mut item, "at", &t);
        assert_eq!(read_timestamp(&item, "at"), Some(t), "{:?}", item.get_s("at"));
    }
}
