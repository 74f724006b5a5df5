use ore_dock_cmms_lambda::models::maintenance_schedule::{CadenceUnit, MaintenanceCadence, MaintenanceSchedule};
use ore_dock_cmms_lambda::models::manufacturer::Manufacturer;
use ore_dock_cmms_lambda::models::address::Address;
use ore_dock_cmms_lambda::time::Timestamp;
use ore_dock_cmms_lambda::AppError;

fn validation(r: Result<impl std::fmt::Debug, AppError>) -> String {
    match r {
        Err(AppError::ValidationError(m)) => m,
        other => panic!("expected a validation error, got {:?}", other),
    }
}

#[test]
fn cadence_text_roundtrip() {
    let c = MaintenanceCadence { interval: 30, unit: CadenceUnit::Days };
    assert_eq!(c.to_string(), "30_days");
    assert_eq!(MaintenanceCadence::from_string("30_days").unwrap(), c);
    let neg = MaintenanceCadence { interval: -2, unit: CadenceUnit::Weeks };
    assert_eq!(MaintenanceCadence::from_string(&neg.to_string()).unwrap(), neg);
}

#[test]
fn cadence_text_errors() {
    assert_eq!(validation(MaintenanceCadence::from_string("30days")), "Invalid cadence format");
    assert_eq!(validation(MaintenanceCadence::from_string("x_days")), "Invalid interval");
    assert_eq!(validation(MaintenanceCadence::from_string("30_fortnights")), "Invalid cadence unit");
    // The run-hours unit has a `_` of its own, so its text does not read back.
    let c = MaintenanceCadence { interval: 100, unit: CadenceUnit::RunHours };
    assert_eq!(c.to_string(), "100_run_hours");
    assert_eq!(validation(MaintenanceCadence::from_string(&c.to_string())), "Invalid cadence format");
}

#[test]
fn cadence_days() {
    assert_eq!(MaintenanceCadence { interval: 49, unit: CadenceUnit::Hours }.to_days().unwrap(), 2);
    assert_eq!(MaintenanceCadence { interval: -49, unit: CadenceUnit::Hours }.to_days().unwrap(), -2);
    assert_eq!(MaintenanceCadence { interval: 2, unit: CadenceUnit::Weeks }.to_days().unwrap(), 14);
    assert_eq!(MaintenanceCadence { interval: 2, unit: CadenceUnit::Months }.to_days().unwrap(), 60);
    assert_eq!(MaintenanceCadence { interval: 1, unit: CadenceUnit::Years }.to_days().unwrap(), 365);
    assert_eq!(validation(MaintenanceCadence { interval: 1, unit: CadenceUnit::Cycles }.to_days()), "Cannot convert runtime-based cadence to days");
}

#[test]
fn schedule_needs_cadence_and_roundtrips() {
    let t = Timestamp { secs: 1_700_000_000, nanos: 0 };
    assert_eq!(validation(MaintenanceSchedule::new("s".to_string(), "a".to_string(), vec![], None, None, t, None, true, true)), "At least one cadence is required");
    let cadences = vec![
        MaintenanceCadence { interval: 30, unit: CadenceUnit::Days },
        MaintenanceCadence { interval: 500, unit: CadenceUnit::RunHours },
    ];
    let s = MaintenanceSchedule::new("s".to_string(), "a".to_string(), cadences.clone(), None, Some("u".to_string()), t, Some(90), true, true).unwrap();
    let back = MaintenanceSchedule::from_item(&s.to_item()).unwrap();
    assert_eq!(back.cadences, cadences);
    assert_eq!(back.next_due_at, t);
    assert_eq!(back.duration_estimate, Some(90));
}

#[test]
fn manufacturer_checks_and_roundtrip() {
    let address = Address::new("1 Industrial Way".to_string(), None, "Dayton".to_string(), "OH".to_string(), "US".to_string(), "45402".to_string());
    assert_eq!(validation(Manufacturer::new("m".to_string(), "".to_string(), "p".to_string(), "e@x.com".to_string(), None, None, address.clone(), None, None, true)), "Manufacturer name cannot be empty");
    let m = Manufacturer::new("m".to_string(), "Pumps Inc".to_string(), "p".to_string(), "e@x.com".to_string(), Some("x.com".to_string()), None, address, None, None, false).unwrap();
    let back = Manufacturer::from_item(&m.to_item()).unwrap();
    assert_eq!(back.address.street, "1 Industrial Way");
    assert_eq!(back.address.unit, None);
    assert!(!back.active);
    assert_eq!(back.website, Some("x.com".to_string()));
}
