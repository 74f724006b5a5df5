use chrono::{DateTime, TimeZone, Utc};
use ore_dock_cmms_lambda::models::asset::{Asset, AssetCurrentStatusOptions, MaintenanceFrequencyOptions};
use ore_dock_cmms_lambda::time::Timestamp;
use ore_dock_cmms_lambda::AppError;
use rust_decimal::Decimal;

fn ts(d: DateTime<Utc>) -> Timestamp {
    Timestamp { secs: d.timestamp(), nanos: d.timestamp_subsec_nanos() }
}

fn now_ts() -> Timestamp {
    ts(Utc::now())
}

fn dt(t: &Timestamp) -> DateTime<Utc> {
    DateTime::from_timestamp(t.secs, t.nanos).unwrap()
}

fn create_valid_asset() -> Result<Asset, AppError> {
    Asset::new(
        "asset-123".to_string(),
        "Test Pump".to_string(),
        "type-456".to_string(),
        "SN12345".to_string(),
        "Model-ABC".to_string(),
        now_ts(),
        now_ts(),
        "loc-789".to_string(),
        "mfg-101".to_string(),
        "monthly".to_string(),
        None,
        Some(now_ts()),
    )
}

fn create_minimal_asset() -> Result<Asset, AppError> {
    Asset::new(
        "asset-minimal".to_string(),
        "Minimal Asset".to_string(),
        "type-minimal".to_string(),
        "SN00000".to_string(),
        "Model-MIN".to_string(),
        now_ts(),
        now_ts(),
        "loc-minimal".to_string(),
        "mfg-minimal".to_string(),
        "as-needed".to_string(),
        None,
        None,
    )
}

fn decimal(d: &ore_dock_cmms_lambda::decimal::DecimalNumber) -> Decimal {
    Decimal::try_from_i128_with_scale(d.mantissa, d.scale).unwrap()
}

#[test]
fn test_maintenance_frequency_to_string() {
    assert_eq!(MaintenanceFrequencyOptions::OneTime.to_string(), "one-time");
    assert_eq!(MaintenanceFrequencyOptions::Monthly.to_string(), "monthly");
    assert_eq!(MaintenanceFrequencyOptions::Quarterly.to_string(), "quarterly");
    assert_eq!(MaintenanceFrequencyOptions::Annually.to_string(), "annually");
    assert_eq!(MaintenanceFrequencyOptions::AsNeeded.to_string(), "as-needed");
}

#[test]
fn test_maintenance_frequency_to_str() {
    assert_eq!(MaintenanceFrequencyOptions::OneTime.to_str(), "one-time");
    assert_eq!(MaintenanceFrequencyOptions::Monthly.to_str(), "monthly");
    assert_eq!(MaintenanceFrequencyOptions::Quarterly.to_str(), "quarterly");
    assert_eq!(MaintenanceFrequencyOptions::Annually.to_str(), "annually");
    assert_eq!(MaintenanceFrequencyOptions::AsNeeded.to_str(), "as-needed");
}

#[test]
fn test_maintenance_frequency_from_string_valid() {
    assert!(matches!(MaintenanceFrequencyOptions::from_string("one-time").unwrap(), MaintenanceFrequencyOptions::OneTime));
    assert!(matches!(MaintenanceFrequencyOptions::from_string("monthly").unwrap(), MaintenanceFrequencyOptions::Monthly));
    assert!(matches!(MaintenanceFrequencyOptions::from_string("quarterly").unwrap(), MaintenanceFrequencyOptions::Quarterly));
    assert!(matches!(MaintenanceFrequencyOptions::from_string("annually").unwrap(), MaintenanceFrequencyOptions::Annually));
    assert!(matches!(MaintenanceFrequencyOptions::from_string("as-needed").unwrap(), MaintenanceFrequencyOptions::AsNeeded));
}

#[test]
fn test_maintenance_frequency_from_string_invalid() {
    let result = MaintenanceFrequencyOptions::from_string("invalid");
    assert!(result.is_err());
    assert!(matches!(result.unwrap_err(), AppError::DatabaseError(_)));
}

#[test]
fn test_maintenance_frequency_to_days() {
    assert_eq!(MaintenanceFrequencyOptions::to_days(&MaintenanceFrequencyOptions::OneTime).unwrap(), 0);
    assert_eq!(MaintenanceFrequencyOptions::to_days(&MaintenanceFrequencyOptions::Monthly).unwrap(), 30);
    assert_eq!(MaintenanceFrequencyOptions::to_days(&MaintenanceFrequencyOptions::Quarterly).unwrap(), 90);
    assert_eq!(MaintenanceFrequencyOptions::to_days(&MaintenanceFrequencyOptions::Annually).unwrap(), 365);
    assert_eq!(MaintenanceFrequencyOptions::to_days(&MaintenanceFrequencyOptions::AsNeeded).unwrap(), 0);
}

#[test]
fn test_asset_status_to_string() {
    assert_eq!(AssetCurrentStatusOptions::Operational.to_string(), "operational");
    assert_eq!(AssetCurrentStatusOptions::Down.to_string(), "down");
    assert_eq!(AssetCurrentStatusOptions::Maintenance.to_string(), "maintenance");
    assert_eq!(AssetCurrentStatusOptions::Retired.to_string(), "retired");
    assert_eq!(AssetCurrentStatusOptions::NeedsAttention.to_string(), "needs-attention");
}

#[test]
fn test_asset_status_to_str() {
    assert_eq!(AssetCurrentStatusOptions::Operational.to_str(), "operational");
    assert_eq!(AssetCurrentStatusOptions::Down.to_str(), "down");
    assert_eq!(AssetCurrentStatusOptions::Maintenance.to_str(), "maintenance");
    assert_eq!(AssetCurrentStatusOptions::Retired.to_str(), "retired");
    assert_eq!(AssetCurrentStatusOptions::NeedsAttention.to_str(), "needs-attention");
}

#[test]
fn test_asset_status_from_string_valid() {
    assert!(matches!(AssetCurrentStatusOptions::from_string("operational").unwrap(), AssetCurrentStatusOptions::Operational));
    assert!(matches!(AssetCurrentStatusOptions::from_string("down").unwrap(), AssetCurrentStatusOptions::Down));
    assert!(matches!(AssetCurrentStatusOptions::from_string("maintenance").unwrap(), AssetCurrentStatusOptions::Maintenance));
    assert!(matches!(AssetCurrentStatusOptions::from_string("retired").unwrap(), AssetCurrentStatusOptions::Retired));
    assert!(matches!(AssetCurrentStatusOptions::from_string("needs-attention").unwrap(), AssetCurrentStatusOptions::NeedsAttention));
}

#[test]
fn test_asset_status_from_string_invalid() {
    let result = AssetCurrentStatusOptions::from_string("invalid-status");
    assert!(result.is_err());
    assert!(matches!(result.unwrap_err(), AppError::DatabaseError(_)));
}

#[test]
fn test_asset_new_with_valid_data() {
    let asset = create_valid_asset().unwrap();
    assert_eq!(asset.id, "asset-123");
    assert_eq!(asset.name, "Test Pump");
    assert_eq!(asset.asset_type_id, "type-456");
    assert_eq!(asset.serial_number, "SN12345");
    assert_eq!(asset.model_number, "Model-ABC");
    assert_eq!(asset.location_id, "loc-789");
    assert_eq!(asset.manufacturer_id, "mfg-101");
    assert_eq!(asset.current_status.to_str(), "operational");
    assert!(matches!(asset.maintenance_frequency, MaintenanceFrequencyOptions::Monthly));
    assert_eq!(asset.interval_days, 30);
    assert_eq!(asset.documentation_keys.len(), 0);
    assert_eq!(asset.work_order_ids.len(), 0);
    assert_eq!(decimal(&asset.total_downtime_hours), Decimal::new(0, 0));
    let unix_epoch = Utc.timestamp_opt(0, 0).single().unwrap();
    assert_eq!(dt(&asset.last_downtime_date), unix_epoch);
    assert!(dt(&asset.created_at) <= Utc::now());
    assert!(dt(&asset.updated_at) <= Utc::now());
    assert_eq!(asset.created_at, asset.updated_at);
}

#[test]
fn test_asset_new_with_minimal_data() {
    let asset = create_minimal_asset().unwrap();
    assert_eq!(asset.id, "asset-minimal");
    assert_eq!(asset.name, "Minimal Asset");
    assert_eq!(asset.current_status.to_str(), "operational");
    assert!(matches!(asset.maintenance_frequency, MaintenanceFrequencyOptions::AsNeeded));
    assert_eq!(asset.interval_days, 0);
    assert_eq!(asset.warranty_start_date, None);
    assert_eq!(asset.warranty_end_date, None);
    let unix_epoch = Utc.timestamp_opt(0, 0).single().unwrap();
    assert_eq!(dt(&asset.last_downtime_date), unix_epoch);
}

#[test]
fn test_asset_new_with_invalid_maintenance_frequency() {
    let result = Asset::new(
        "asset-invalid".to_string(),
        "Invalid Asset".to_string(),
        "type-invalid".to_string(),
        "SN-INVALID".to_string(),
        "Model-Invalid".to_string(),
        now_ts(),
        now_ts(),
        "loc-invalid".to_string(),
        "mfg-invalid".to_string(),
        "invalid-frequency".to_string(),
        None,
        None,
    );
    assert!(result.is_err());
    assert!(matches!(result.unwrap_err(), AppError::DatabaseError(_)));
}

#[test]
fn test_asset_default_values() {
    let asset = create_valid_asset().unwrap();
    assert!(asset.documentation_keys.is_empty());
    assert!(asset.work_order_ids.is_empty());
    assert_eq!(decimal(&asset.total_downtime_hours), Decimal::new(0, 0));
    assert_eq!(asset.current_status.to_str(), "operational");
    let unix_epoch = Utc.timestamp_opt(0, 0).single().unwrap();
    assert_eq!(dt(&asset.last_downtime_date), unix_epoch);
}

#[test]
fn test_asset_timestamps_consistency() {
    let before = Utc::now();
    let asset = create_valid_asset().unwrap();
    let after = Utc::now();
    assert!(dt(&asset.created_at) >= before);
    assert!(dt(&asset.created_at) <= after);
    assert!(dt(&asset.updated_at) >= before);
    assert!(dt(&asset.updated_at) <= after);
    assert_eq!(asset.created_at, asset.updated_at);
}

#[test]
fn test_asset_clone() {
    let asset = create_valid_asset().unwrap();
    let cloned = asset.clone();
    assert_eq!(asset.id, cloned.id);
    assert_eq!(asset.name, cloned.name);
    assert_eq!(asset.asset_type_id, cloned.asset_type_id);
    assert_eq!(asset.serial_number, cloned.serial_number);
    assert_eq!(asset.model_number, cloned.model_number);
    assert_eq!(asset.purchase_date, cloned.purchase_date);
    assert_eq!(asset.installation_date, cloned.installation_date);
    assert_eq!(asset.current_status, cloned.current_status);
    assert_eq!(asset.location_id, cloned.location_id);
    assert_eq!(asset.manufacturer_id, cloned.manufacturer_id);
    assert_eq!(asset.interval_days, cloned.interval_days);
    assert_eq!(asset.documentation_keys, cloned.documentation_keys);
    assert_eq!(asset.work_order_ids, cloned.work_order_ids);
    assert_eq!(asset.warranty_start_date, cloned.warranty_start_date);
    assert_eq!(asset.warranty_end_date, cloned.warranty_end_date);
    assert_eq!(asset.total_downtime_hours, cloned.total_downtime_hours);
    assert_eq!(asset.last_downtime_date, cloned.last_downtime_date);
    assert_eq!(asset.created_at, cloned.created_at);
    assert_eq!(asset.updated_at, cloned.updated_at);
}

#[test]
fn test_maintenance_frequency_enum_consistency() {
    let frequencies = vec![
        MaintenanceFrequencyOptions::OneTime,
        MaintenanceFrequencyOptions::Monthly,
        MaintenanceFrequencyOptions::Quarterly,
        MaintenanceFrequencyOptions::Annually,
        MaintenanceFrequencyOptions::AsNeeded,
    ];
    for freq in frequencies {
        let to_string_result = freq.to_string();
        let to_str_result = freq.to_str();
        assert_eq!(to_string_result, to_str_result);
        let parsed = MaintenanceFrequencyOptions::from_string(&to_string_result).unwrap();
        assert_eq!(freq.to_str(), parsed.to_str());
    }
}

#[test]
fn test_asset_status_enum_consistency() {
    let statuses = vec![
        AssetCurrentStatusOptions::Operational,
        AssetCurrentStatusOptions::Down,
        AssetCurrentStatusOptions::Maintenance,
        AssetCurrentStatusOptions::Retired,
        AssetCurrentStatusOptions::NeedsAttention,
    ];
    for status in statuses {
        let to_string_result = status.to_string();
        let to_str_result = status.to_str();
        assert_eq!(to_string_result, to_str_result);
        let parsed = AssetCurrentStatusOptions::from_string(&to_string_result).unwrap();
        assert_eq!(status.to_str(), parsed.to_str());
    }
}

#[test]
fn asset_item_roundtrip_keeps_schedule() {
    let mut asset = create_valid_asset().unwrap();
    let item = asset.to_item();
    let back = Asset::from_item(&item).unwrap();
    assert_eq!(back.id, asset.id);
    assert_eq!(back.purchase_date, asset.purchase_date);
    assert_eq!(back.last_downtime_date, asset.last_downtime_date);
    assert_eq!(back.total_downtime_hours, asset.total_downtime_hours);
    assert_eq!(back.warranty_end_date, asset.warranty_end_date);
    assert_eq!(back.maintenance_schedule_id, None);
    asset.maintenance_schedule_id = Some("ms-1".to_string());
    let item = asset.to_item();
    assert_eq!(item.get_s("maintenance_schedule_id").unwrap(), "ms-1");
    let back = Asset::from_item(&item).unwrap();
    assert_eq!(back.maintenance_schedule_id, Some("ms-1".to_string()));
}

#[test]
fn test_asset_new_with_custom_last_downtime_date() {
    let custom_downtime = ts(Utc::now() - chrono::Duration::days(5));
    let asset = Asset::new(
        "asset-custom".to_string(),
        "Custom Asset".to_string(),
        "type-custom".to_string(),
        "SN-CUSTOM".to_string(),
        "Model-Custom".to_string(),
        now_ts(),
        now_ts(),
        "loc-custom".to_string(),
        "mfg-custom".to_string(),
        "monthly".to_string(),
        Some(custom_downtime),
        None,
    )
    .unwrap();
    assert_eq!(asset.last_downtime_date, custom_downtime);
}

#[test]
fn test_asset_new_with_warranty_dates() {
    let start = Utc::now();
    let warranty_start = ts(start);
    let warranty_end = ts(start + chrono::Duration::days(365));
    let asset = Asset::new(
        "asset-warranty".to_string(),
        "Warranty Asset".to_string(),
        "type-warranty".to_string(),
        "SN-WARRANTY".to_string(),
        "Model-Warranty".to_string(),
        now_ts(),
        now_ts(),
        "loc-warranty".to_string(),
        "mfg-warranty".to_string(),
        "annually".to_string(),
        None,
        Some(warranty_start),
    )
    .unwrap();
    assert_eq!(asset.warranty_start_date, Some(warranty_start));
    assert_eq!(asset.warranty_end_date, Some(warranty_end));
    assert_eq!(asset.interval_days, 365);
}

#[test]
fn next_maintenance_counts_from_installation_then_downtime() {
    let mut asset = create_valid_asset().unwrap();
    let install = Utc.with_ymd_and_hms(2024, 1, 1, 0, 0, 0).unwrap();
    asset.installation_date = ts(install);
    let due = asset.next_maintenance_due();
    assert_eq!(dt(&due), Utc.with_ymd_and_hms(2024, 1, 31, 0, 0, 0).unwrap());
    asset.last_downtime_date = ts(Utc.with_ymd_and_hms(2024, 3, 1, 12, 0, 0).unwrap());
    let due = asset.next_maintenance_due();
    assert_eq!(dt(&due), Utc.with_ymd_and_hms(2024, 3, 31, 12, 0, 0).unwrap());
    let later = ts(Utc.with_ymd_and_hms(2024, 4, 1, 0, 0, 0).unwrap());
    assert!(asset.is_maintenance_overdue_at(&later));
    let earlier = ts(Utc.with_ymd_and_hms(2024, 3, 21, 12, 0, 0).unwrap());
    assert!(!asset.is_maintenance_overdue_at(&earlier));
    assert_eq!(asset.days_until_maintenance_at(&earlier), 10);
    assert_eq!(asset.days_until_maintenance_at(&later), -1);
}

#[test]
fn days_until_maintenance_is_negative_once_overdue() {
    let mut asset = create_valid_asset().unwrap();
    asset.installation_date = ts(Utc.with_ymd_and_hms(2024, 1, 1, 0, 0, 0).unwrap());
    let due = Utc.with_ymd_and_hms(2024, 1, 31, 0, 0, 0).unwrap();
    let half_day_late = ts(due + chrono::Duration::hours(12));
    assert!(asset.is_maintenance_overdue_at(&half_day_late));
    assert_eq!(asset.days_until_maintenance_at(&half_day_late), -1);
    let one_second_late = ts(due + chrono::Duration::seconds(1));
    assert_eq!(asset.days_until_maintenance_at(&one_second_late), -1);
    let day_and_half_late = ts(due + chrono::Duration::hours(36));
    assert_eq!(asset.days_until_maintenance_at(&day_and_half_late), -2);
    assert_eq!(asset.days_until_maintenance_at(&ts(due)), 0);
    let half_day_early = ts(due - chrono::Duration::hours(12));
    assert_eq!(asset.days_until_maintenance_at(&half_day_early), 0);
    let two_days_early = ts(due - chrono::Duration::hours(48));
    assert_eq!(asset.days_until_maintenance_at(&two_days_early), 2);
}
