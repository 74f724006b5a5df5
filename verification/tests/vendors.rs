use chrono::{TimeZone, Utc};
use ore_dock_cmms_lambda::models::vendor::{Vendor, VendorStatus, VendorTier};
use ore_dock_cmms_lambda::models::vendor_category::{CategoryStatus, CategoryType, VendorCategory};
use ore_dock_cmms_lambda::time::Timestamp;
use ore_dock_cmms_lambda::AppError;

fn ts(y: i32, m: u32, d: u32) -> Timestamp {
    let t = Utc.with_ymd_and_hms(y, m, d, 0, 0, 0).unwrap();
    Timestamp { secs: t.timestamp(), nanos: 0 }
}

fn validation(r: Result<impl std::fmt::Debug, AppError>) -> String {
    match r {
        Err(AppError::ValidationError(m)) => m,
        other => panic!("expected a validation error, got {:?}", other),
    }
}

fn vendor(credit: Option<f64>, start: Option<Timestamp>, end: Option<Timestamp>, status: &str) -> Result<Vendor, AppError> {
    Vendor::new(
        "v1".to_string(),
        "Acme".to_string(),
        None,
        None,
        "cat".to_string(),
        status.to_string(),
        "standard".to_string(),
        "555-0100".to_string(),
        None,
        "sales@acme.com".to_string(),
        None,
        None,
        "TAX1".to_string(),
        None,
        "net30".to_string(),
        "USD".to_string(),
        credit.map(|c| c.to_bits()),
        "Wile".to_string(),
        "Buyer".to_string(),
        Some("wile@acme.com".to_string()),
        None,
        Some("{\"zip\":\"1\"}".to_string()),
        None,
        vec!["iso9001".to_string()],
        "ok".to_string(),
        None,
        start,
        end,
        None,
        "email".to_string(),
        None,
        None,
        vec![],
        None,
        vec![],
        &true,
        None,
        Some("n".to_string()),
        None,
    )
}

#[test]
fn vendor_new_checks() {
    let v = vendor(Some(1000.0), None, None, "active").unwrap();
    assert_eq!(v.tier, VendorTier::Standard);
    assert_eq!(v.total_spent, 0.0f64.to_bits());
    assert_eq!(validation(vendor(Some(-1.0), None, None, "active")), "Credit limit cannot be negative");
    assert!(vendor(Some(-0.0), None, None, "active").is_ok());
    assert_eq!(validation(vendor(None, Some(ts(2024, 2, 1)), Some(ts(2024, 1, 1)), "active")), "Contract end date must be after start date");
    assert_eq!(validation(vendor(None, Some(ts(2024, 1, 1)), Some(ts(2024, 1, 1)), "active")), "Contract end date must be after start date");
    assert_eq!(validation(vendor(None, None, None, "shady")), "Invalid vendor status");
}

#[test]
fn vendor_orders_and_rating() {
    let mut v = vendor(None, Some(ts(2024, 1, 1)), Some(ts(2025, 1, 1)), "active").unwrap();
    assert!(v.can_place_orders_at(&ts(2024, 6, 1)));
    assert!(!v.can_place_orders_at(&ts(2025, 6, 1)));
    let amount = 250.5f64;
    let total = f64::from_bits(v.total_spent) + amount;
    assert!(v.record_order(amount.to_bits(), total.to_bits()).is_ok());
    assert_eq!(v.total_orders, 1);
    assert_eq!(f64::from_bits(v.total_spent), 250.5);
    assert_eq!(validation(v.record_order((-1.0f64).to_bits(), 0)), "Order amount cannot be negative");
    assert!(v.update_rating(4.5f64.to_bits()).is_ok());
    assert_eq!(validation(v.update_rating(5.5f64.to_bits())), "Rating must be between 0.0 and 5.0");
    assert_eq!(validation(v.update_rating((-0.5f64).to_bits())), "Rating must be between 0.0 and 5.0");
    assert!(v.update_rating(5.0f64.to_bits()).is_ok());
    assert!(v.update_rating(f64::NAN.to_bits()).is_ok());
}

#[test]
fn vendor_lists_and_status() {
    let mut v = vendor(None, None, None, "inactive").unwrap();
    v.add_tag("fast".to_string());
    v.add_tag("fast".to_string());
    assert_eq!(v.tags, vec!["fast".to_string()]);
    v.remove_certification("iso9001");
    assert!(!v.has_certification("iso9001"));
    assert!(v.suspend(None).is_ok());
    assert_eq!(v.status, VendorStatus::Suspended);
    assert!(v.reactivate().is_ok());
    v.status = VendorStatus::Blacklisted;
    assert_eq!(validation(v.suspend(Some("x".to_string()))), "Cannot suspend terminated or blacklisted vendor");
}

#[test]
fn vendor_item_roundtrip() {
    let v = vendor(Some(10.0), Some(ts(2024, 1, 1)), None, "pending").unwrap();
    let back = Vendor::from_item(&v.to_item(), v.credit_limit, v.total_spent, v.average_rating, v.auto_approval_limit).unwrap();
    assert_eq!(back.name, v.name);
    assert_eq!(back.status, VendorStatus::Pending);
    assert_eq!(back.certifications, v.certifications);
    assert_eq!(back.billing_address, v.billing_address);
    assert_eq!(back.contract_start_date, v.contract_start_date);
    assert_eq!(back.credit_limit, Some(10.0f64.to_bits()));
}

fn category(level: i32, risk: &str) -> Result<VendorCategory, AppError> {
    VendorCategory::new("c".to_string(), "Plumbing".to_string(), None, "contractor".to_string(), "active".to_string(), None, level, 0, None, None, None, vec![], None, vec![], None, risk.to_string(), None, true, None)
}

#[test]
fn category_checks_and_counts() {
    let mut c = category(0, "high").unwrap();
    assert_eq!(c.category_type, CategoryType::Contractor);
    assert!(c.is_root_category());
    assert_eq!(validation(category(-1, "high")), "Level cannot be negative");
    assert_eq!(validation(category(0, "extreme")), "Risk level must be one of: low, medium, high, critical");
    c.increment_vendor_count();
    c.increment_vendor_count();
    c.decrement_vendor_count();
    assert_eq!(c.vendor_count, 1);
    c.decrement_vendor_count();
    c.decrement_vendor_count();
    assert_eq!(c.vendor_count, 0);
    assert_eq!(validation(c.update_vendor_count(-3)), "Vendor count cannot be negative");
    c.archive();
    assert!(!c.is_usable());
    assert_eq!(validation(c.reactivate()), "Cannot reactivate archived category");
    assert!(c.update_status("deprecated".to_string()).is_ok());
    assert!(c.reactivate().is_ok());
    assert_eq!(c.status, CategoryStatus::Active);
    assert!(c.is_usable());
    let back = VendorCategory::from_item(&c.to_item(), None).unwrap();
    assert_eq!(back.risk_level, "high");
}
