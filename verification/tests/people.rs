use chrono::{TimeZone, Utc};
use ore_dock_cmms_lambda::models::user::{User, UserStatus, UserType};
use ore_dock_cmms_lambda::models::user_preferences::{
    PreferenceUpdate, ThemeOptions, UserPreferences, DEFAULT_DASHBOARD, HALF_BITS, ONE_BITS, THREE_BITS,
};
use ore_dock_cmms_lambda::time::{TimeOfDay, Timestamp};
use ore_dock_cmms_lambda::AppError;

fn ts(y: i32, m: u32, d: u32, h: u32) -> Timestamp {
    let t = Utc.with_ymd_and_hms(y, m, d, h, 0, 0).unwrap();
    Timestamp { secs: t.timestamp(), nanos: 0 }
}

fn validation(r: Result<impl std::fmt::Debug, AppError>) -> String {
    match r {
        Err(AppError::ValidationError(m)) => m,
        other => panic!("expected a validation error, got {:?}", other),
    }
}

fn user_with(email: &str, secondary: Option<&str>, status: &str) -> Result<User, AppError> {
    User::new(
        "u1".to_string(),
        "jdoe".to_string(),
        email.to_string(),
        "Jane".to_string(),
        "Doe".to_string(),
        None,
        "employee".to_string(),
        status.to_string(),
        None,
        None,
        None,
        None,
        None,
        secondary.map(|s| s.to_string()),
        None,
        "{\"hvac\":2}".to_string(),
        None,
        None,
        None,
        None,
        Some("{\"city\":\"Springfield\"}".to_string()),
        None,
        None,
        None,
        Some("first".to_string()),
        None,
        None,
    )
}

#[test]
fn user_new_checks_emails() {
    let u = user_with("jane@example.com", None, "active").unwrap();
    assert_eq!(u.user_type, UserType::Employee);
    assert_eq!(u.password_changed_at, Some(u.created_at));
    assert_eq!(validation(user_with("jane.example.com", None, "active")), "Invalid email format");
    assert_eq!(validation(user_with("jane@example.com", Some("nope"), "active")), "Invalid secondary email format");
    assert!(user_with("jane@example.com", Some("   "), "active").is_ok());
    assert_eq!(validation(user_with("jane@example.com", None, "zombie")), "Invalid user status");
    assert_eq!(validation(user_with(" ", None, "active")), "Email cannot be empty");
}

#[test]
fn user_names() {
    let mut u = user_with("jane@example.com", None, "active").unwrap();
    assert_eq!(u.full_name(), "Jane Doe");
    assert_eq!(u.effective_display_name(), "Jane Doe");
    u.display_name = Some("JD".to_string());
    assert_eq!(u.effective_display_name(), "JD");
}

#[test]
fn user_lockout_after_failed_logins() {
    let mut u = user_with("jane@example.com", None, "active").unwrap();
    let t = ts(2024, 6, 1, 12);
    assert!(u.record_failed_login_at(&t, 3, 30));
    assert!(u.record_failed_login_at(&t, 3, 30));
    assert!(!u.is_account_locked_at(&t));
    assert!(u.record_failed_login_at(&t, 3, 30));
    assert_eq!(u.failed_login_attempts, 3);
    assert_eq!(u.account_locked_until, Some(Timestamp { secs: t.secs + 1800, nanos: 0 }));
    assert!(u.is_account_locked_at(&t));
    assert!(!u.is_active_at(&t));
    assert!(u.is_active_at(&ts(2024, 6, 1, 13)));
    u.record_login();
    assert_eq!(u.failed_login_attempts, 0);
    assert!(!u.is_account_locked_at(&t));
    assert!(u.record_failed_login(1, 5));
    assert!(u.is_account_locked());
    u.unlock_account();
    assert!(!u.is_account_locked());
    let before = u.failed_login_attempts;
    assert!(!u.record_failed_login_at(&t, 1, i64::MAX));
    assert_eq!(u.failed_login_attempts, before);
    assert!(u.record_failed_login_at(&t, 1, 0));
    assert_eq!(u.account_locked_until, Some(t));
}

#[test]
fn user_suspension_and_termination() {
    let mut u = user_with("jane@example.com", None, "active").unwrap();
    assert!(u.suspend(Some("late".to_string())).is_ok());
    assert_eq!(u.status, UserStatus::Suspended);
    assert_eq!(u.notes, Some("first; SUSPENDED: late".to_string()));
    assert!(u.reactivate().is_ok());
    assert_eq!(validation(u.reactivate()), "Only suspended or inactive users can be reactivated");
    assert!(u.terminate(None).is_ok());
    assert!(u.is_terminated());
    assert!(u.termination_date.is_some());
    assert_eq!(validation(u.suspend(None)), "Cannot suspend terminated user");
    assert_eq!(validation(u.terminate(None)), "User is already terminated");
}

#[test]
fn user_item_roundtrip() {
    let mut u = user_with("jane@example.com", Some("j@x.io"), "pending").unwrap();
    u.hire_date = Some(ts(2020, 2, 29, 8));
    let back = User::from_item(&u.to_item()).unwrap();
    assert_eq!(back.username, u.username);
    assert_eq!(back.secondary_email, u.secondary_email);
    assert_eq!(back.status, UserStatus::Pending);
    assert_eq!(back.hire_date, u.hire_date);
    assert_eq!(back.certification_levels, "{\"hvac\":2}");
    assert_eq!(back.address, Some("{\"city\":\"Springfield\"}".to_string()));
    assert_eq!(back.created_at, u.created_at);
    assert_eq!(back.password_changed_at, u.password_changed_at);
}

#[test]
fn preferences_default_dashboard_is_serde_json_text() {
    let widget = |kind: &str, x: i64, y: i64, w: i64, h: i64| {
        let mut position = serde_json::Map::new();
        position.insert("x".to_string(), serde_json::Value::from(x));
        position.insert("y".to_string(), serde_json::Value::from(y));
        position.insert("w".to_string(), serde_json::Value::from(w));
        position.insert("h".to_string(), serde_json::Value::from(h));
        let mut widget = serde_json::Map::new();
        widget.insert("type".to_string(), serde_json::Value::from(kind));
        widget.insert("position".to_string(), serde_json::Value::Object(position));
        serde_json::Value::Object(widget)
    };
    let mut value = serde_json::Map::new();
    value.insert(
        "widgets".to_string(),
        serde_json::Value::Array(vec![
            widget("asset_summary", 0, 0, 6, 4),
            widget("maintenance_schedule", 6, 0, 6, 4),
            widget("recent_notifications", 0, 4, 12, 3),
        ]),
    );
    value.insert("layout".to_string(), serde_json::Value::from("grid"));
    let value = serde_json::Value::Object(value);
    assert_eq!(serde_json::to_string(&value).unwrap(), DEFAULT_DASHBOARD);
    assert_eq!(HALF_BITS, 0.5f64.to_bits());
    assert_eq!(ONE_BITS, 1.0f64.to_bits());
    assert_eq!(THREE_BITS, 3.0f64.to_bits());
}

#[test]
fn preferences_default_and_checks() {
    let p = UserPreferences::create_default("u9".to_string()).unwrap();
    assert_eq!(p.id, "pref_u9");
    assert_eq!(p.theme, ThemeOptions::Auto);
    assert_eq!(f64::from_bits(p.font_size_multiplier), 1.0);
    assert_eq!(p.default_page_size, 25);
    assert_eq!(validation(UserPreferences::create_default(" ".to_string())), "User ID cannot be empty");
    let bad = UserPreferences::new("p".to_string(), "u".to_string(), "en".to_string(), "dark".to_string(), "UTC".to_string(), "24h".to_string(), "d".to_string(), "{}".to_string(), true, true, true, None, 30, false, false, 3.5f64.to_bits(), false, true, 25, None);
    assert_eq!(validation(bad), "Font size multiplier must be between 0.5 and 3.0");
    let bad = UserPreferences::new("p".to_string(), "u".to_string(), "en".to_string(), "dark".to_string(), "UTC".to_string(), "24h".to_string(), "d".to_string(), "{}".to_string(), true, true, true, None, 30, false, false, (-1.0f64).to_bits(), false, true, 25, None);
    assert_eq!(validation(bad), "Font size multiplier must be between 0.5 and 3.0");
    let bad = UserPreferences::new("p".to_string(), "u".to_string(), "en".to_string(), "dark".to_string(), "UTC".to_string(), "24h".to_string(), "d".to_string(), "{}".to_string(), true, true, true, None, 30, false, false, 1.0f64.to_bits(), false, true, 501, None);
    assert_eq!(validation(bad), "Default page size must be between 5 and 500");
    let bad = UserPreferences::new("p".to_string(), "u".to_string(), "xx".to_string(), "dark".to_string(), "UTC".to_string(), "24h".to_string(), "d".to_string(), "{}".to_string(), true, true, true, None, 30, false, false, 1.0f64.to_bits(), false, true, 25, None);
    assert_eq!(validation(bad), "Invalid language option");
}

fn update(key: &str, text: Option<&str>, integer: Option<i64>, number: Option<f64>) -> PreferenceUpdate {
    PreferenceUpdate {
        key: key.to_string(),
        text: text.map(|s| s.to_string()),
        integer,
        number: number.map(|n| n.to_bits()),
        json: "null".to_string(),
    }
}

#[test]
fn preferences_updates_stop_at_first_error() {
    let mut p = UserPreferences::create_default("u".to_string()).unwrap();
    let r = p.update_preferences(vec![
        update("timezone", Some("Europe/Paris"), None, None),
        update("default_page_size", None, Some(4), None),
        update("font_size_multiplier", None, None, Some(2.0)),
        update("auto_refresh_interval", None, Some(4_294_967_296 + 7), None),
        update("unknown", Some("x"), None, None),
    ]);
    assert!(r.is_ok());
    assert_eq!(p.timezone, "Europe/Paris");
    assert_eq!(p.default_page_size, 25);
    assert_eq!(f64::from_bits(p.font_size_multiplier), 2.0);
    assert_eq!(p.auto_refresh_interval, 7);
    let r = p.update_preferences(vec![
        update("theme", Some("dark"), None, None),
        update("language", Some("klingon"), None, None),
        update("timezone", Some("UTC"), None, None),
    ]);
    assert_eq!(validation(r), "Invalid language option");
    assert_eq!(p.theme, ThemeOptions::Dark);
    assert_eq!(p.timezone, "Europe/Paris");
}

#[test]
fn preferences_effective_theme() {
    let p = UserPreferences::create_default("u".to_string()).unwrap();
    assert!(p.is_auto_refresh_enabled());
    assert_eq!(p.effective_theme_at(&TimeOfDay::from_hms(20, 0, 0).unwrap()), "dark");
    assert_eq!(p.effective_theme_at(&TimeOfDay::from_hms(9, 0, 0).unwrap()), "light");
    assert_eq!(p.effective_theme_at(&TimeOfDay::from_hms(12, 30, 0).unwrap()), "light");
    assert_eq!(p.effective_theme_at(&TimeOfDay::from_hms(0, 30, 0).unwrap()), "dark");
    assert_eq!(p.effective_theme_at(&TimeOfDay::from_hms(18, 0, 0).unwrap()), "dark");
    assert_eq!(p.effective_theme_at(&TimeOfDay::from_hms(5, 59, 59).unwrap()), "dark");
    assert_eq!(p.effective_theme_at(&TimeOfDay::from_hms(6, 0, 0).unwrap()), "light");
    assert_eq!(p.effective_theme_at(&TimeOfDay::from_hms(17, 59, 59).unwrap()), "light");
    let back = UserPreferences::from_item(&p.to_item(), p.font_size_multiplier).unwrap();
    assert_eq!(back.dashboard_layout, DEFAULT_DASHBOARD);
    assert_eq!(back.time_format, p.time_format);
}
