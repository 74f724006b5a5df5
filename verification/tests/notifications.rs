use chrono::{TimeZone, Utc};
use ore_dock_cmms_lambda::item::AttrValue;
use ore_dock_cmms_lambda::models::notification::{Notification, NotificationChannels, NotificationStatus, SeverityLevel};
use ore_dock_cmms_lambda::models::notification_delivery_log::{DeliveryStatus, NotificationDeliveryLog};
use ore_dock_cmms_lambda::models::notification_template::{NotificationTemplate, NotificationType, TemplateVariable};
use ore_dock_cmms_lambda::models::user_notification_preferences::UserNotificationPreferences;
use ore_dock_cmms_lambda::time::{TimeOfDay, Timestamp};
use ore_dock_cmms_lambda::AppError;

fn ts(y: i32, m: u32, d: u32) -> Timestamp {
    let t = Utc.with_ymd_and_hms(y, m, d, 0, 0, 0).unwrap();
    Timestamp { secs: t.timestamp(), nanos: 0 }
}

fn validation(r: Result<impl std::fmt::Debug, AppError>) -> String {
    match r {
        Err(AppError::ValidationError(m)) => m,
        other => panic!("expected a validation error, got {:?}", other),
    }
}

fn hms(h: u32, m: u32, s: u32) -> TimeOfDay {
    TimeOfDay::from_hms(h, m, s).unwrap()
}

fn prefs(preferred: Vec<&str>, blocked: Vec<&str>, min: Option<&str>) -> UserNotificationPreferences {
    UserNotificationPreferences::new(
        "p".to_string(),
        "u".to_string(),
        "global".to_string(),
        None,
        true,
        preferred.into_iter().map(|s| s.to_string()).collect(),
        blocked.into_iter().map(|s| s.to_string()).collect(),
        false,
        Some(hms(22, 0, 0)),
        Some(hms(6, 0, 0)),
        Some("UTC".to_string()),
        min.map(|s| s.to_string()),
        10,
        false,
        24,
        false,
        15,
        true,
    )
    .unwrap()
}

#[test]
fn notification_starts_as_draft_and_roundtrips() {
    let mut n = Notification::new("n".to_string(), "t".to_string(), "u".to_string(), "Hi".to_string(), "Body".to_string(), Some("[1,2]".to_string()), "critical".to_string(), ts(2024, 5, 1), None).unwrap();
    assert_eq!(n.status, NotificationStatus::Draft);
    assert_eq!(n.severity, SeverityLevel::Critical);
    n.delivered_channels = vec![NotificationChannels::Email, NotificationChannels::InApp];
    let back = Notification::from_item(&n.to_item()).unwrap();
    assert_eq!(back.delivered_channels, n.delivered_channels);
    assert_eq!(back.failed_channels, vec![]);
    assert_eq!(back.context, Some("[1,2]".to_string()));
    assert_eq!(back.scheduled_at, n.scheduled_at);
    assert_eq!(validation(Notification::new("n".to_string(), "t".to_string(), "u".to_string(), "Hi".to_string(), " ".to_string(), None, "low".to_string(), ts(2024, 5, 1), None)), "Message cannot be empty");
    assert_eq!(validation(Notification::new("n".to_string(), "t".to_string(), "u".to_string(), "Hi".to_string(), "b".to_string(), None, "dire".to_string(), ts(2024, 5, 1), None)), "Invalid severity level");
}

#[test]
fn delivery_log_checks_channel_first() {
    assert_eq!(validation(NotificationDeliveryLog::new("d".to_string(), "".to_string(), "fax".to_string(), "sent".to_string(), ts(2024, 1, 1), None, None, 0, None)), "Invalid notification channel");
    assert_eq!(validation(NotificationDeliveryLog::new("d".to_string(), "".to_string(), "sms".to_string(), "pending".to_string(), ts(2024, 1, 1), None, None, 0, None)), "Notification ID cannot be empty");
    let d = NotificationDeliveryLog::new("d".to_string(), "n".to_string(), "in_app".to_string(), "retrying".to_string(), ts(2024, 1, 1), None, Some("timeout".to_string()), 2, None).unwrap();
    assert_eq!(d.channel, NotificationChannels::InApp);
    assert_eq!(d.delivery_status, DeliveryStatus::Retrying);
    assert_eq!(NotificationDeliveryLog::table_name(), "NotificationDeliveryLogs");
    let back = NotificationDeliveryLog::from_item(&d.to_item()).unwrap();
    assert_eq!(back.retry_count, 2);
    assert_eq!(back.error_message, Some("timeout".to_string()));
}

#[test]
fn template_variables_roundtrip() {
    let vars = vec![
        TemplateVariable { name: "asset".to_string(), description: "Asset name".to_string(), variable_type: "string".to_string(), required: true, default_value: None },
        TemplateVariable { name: "due".to_string(), description: "Due date".to_string(), variable_type: "datetime".to_string(), required: false, default_value: Some("soon".to_string()) },
    ];
    let t = NotificationTemplate::new("t".to_string(), "Due".to_string(), "reminder".to_string(), "{{asset}}".to_string(), "{{asset}} is due {{due}}".to_string(), "medium".to_string(), vec!["email".to_string(), "push".to_string()], vars, "handlebars".to_string(), true, 3, None).unwrap();
    assert_eq!(t.notification_type, NotificationType::Reminder);
    let item = t.to_item();
    let back = NotificationTemplate::from_item(&item).unwrap();
    assert_eq!(back.variables.len(), 2);
    assert_eq!(back.variables[1].default_value, Some("soon".to_string()));
    assert!(back.variables[0].required);
    assert_eq!(back.supported_channels, vec![NotificationChannels::Email, NotificationChannels::Push]);
    assert_eq!(back.version, 3);
    // Values of the list that are not maps holding a variable are skipped.
    let list = vec![AttrValue::S("x".to_string()), AttrValue::M(t.variables[0].to_item())];
    let read = TemplateVariable::read_list(&list);
    assert_eq!(read.len(), 1);
    assert_eq!(validation(NotificationTemplate::new("t".to_string(), "Due".to_string(), "reminder".to_string(), "s".to_string(), "m".to_string(), "medium".to_string(), vec!["email".to_string(), "pigeon".to_string()], vec![], "simple".to_string(), true, 1, None)), "Invalid notification channel");
}

#[test]
fn preferences_channels() {
    let p = prefs(vec!["email", "sms"], vec!["sms"], None);
    assert!(p.is_channel_allowed(&NotificationChannels::Email));
    assert!(!p.is_channel_allowed(&NotificationChannels::Sms));
    assert!(!p.is_channel_allowed(&NotificationChannels::Push));
    let open = prefs(vec![], vec!["slack"], None);
    assert!(open.is_channel_allowed(&NotificationChannels::Push));
    assert!(!open.is_channel_allowed(&NotificationChannels::Slack));
}

#[test]
fn preferences_severity() {
    let p = prefs(vec![], vec![], Some("high"));
    assert!(p.is_severity_allowed(&SeverityLevel::Critical));
    assert!(p.is_severity_allowed(&SeverityLevel::High));
    assert!(!p.is_severity_allowed(&SeverityLevel::Medium));
    assert!(!p.is_severity_allowed(&SeverityLevel::Informational));
    let none = prefs(vec![], vec![], None);
    assert!(none.is_severity_allowed(&SeverityLevel::Informational));
    let err = UserNotificationPreferences::new("p".to_string(), "u".to_string(), "global".to_string(), None, true, vec![], vec![], false, None, None, None, Some("huge".to_string()), 0, false, 24, false, 15, true);
    assert_eq!(validation(err), "Invalid severity level");
}

#[test]
fn preferences_quiet_hours_span_midnight() {
    let mut p = prefs(vec![], vec![], None);
    assert!(!p.is_notification_allowed_at(&hms(23, 0, 0)));
    assert!(!p.is_notification_allowed_at(&hms(5, 59, 59)));
    assert!(!p.is_notification_allowed_at(&hms(6, 0, 0)));
    assert!(p.is_notification_allowed_at(&hms(12, 0, 0)));
    p.quiet_hours_start = Some(hms(9, 0, 0));
    p.quiet_hours_end = Some(hms(17, 0, 0));
    assert!(!p.is_notification_allowed_at(&hms(12, 0, 0)));
    assert!(p.is_notification_allowed_at(&hms(18, 0, 0)));
    p.do_not_disturb = true;
    assert!(!p.is_notification_allowed_at(&hms(18, 0, 0)));
}

#[test]
fn preferences_item_roundtrip() {
    let p = prefs(vec!["email"], vec!["sms"], Some("low"));
    let mut item = p.to_item();
    assert_eq!(item.get_s("quiet_hours_start").unwrap(), "22:00:00");
    assert_eq!(item.get_s("quiet_hours_end").unwrap(), "06:00:00");
    let back = UserNotificationPreferences::from_item(&item).unwrap();
    assert_eq!(back.quiet_hours_start, p.quiet_hours_start);
    assert_eq!(back.quiet_hours_end, p.quiet_hours_end);
    assert_eq!(back.min_severity_level, Some(SeverityLevel::Low));
    assert_eq!(back.blocked_channels, vec![NotificationChannels::Sms]);
    assert_eq!(back.digest_frequency_hours, 24);
    item.insert_s("quiet_hours_end", "6 o'clock".to_string());
    assert_eq!(UserNotificationPreferences::from_item(&item).unwrap().quiet_hours_end, None);
}

#[test]
fn preferences_named_checks() {
    let p = prefs(vec!["email"], vec![], Some("medium"));
    assert!(p.check_is_channel_allowed("email".to_string()));
    assert!(!p.check_is_channel_allowed("push".to_string()));
    assert!(!p.check_is_channel_allowed("carrier_pigeon".to_string()));
    assert!(p.check_is_severity_allowed("high".to_string()));
    assert!(!p.check_is_severity_allowed("low".to_string()));
    assert!(!p.check_is_severity_allowed("apocalyptic".to_string()));
}
