use chrono::{TimeZone, Utc};
use ore_dock_cmms_lambda::models::permission::{Permission, PermissionScope};
use ore_dock_cmms_lambda::models::permission_log::{PermissionAction, PermissionLog, ResourceType};
use ore_dock_cmms_lambda::models::role::{Role, RoleType};
use ore_dock_cmms_lambda::models::role_hierarchy::{HierarchyType, RoleHierarchy};
use ore_dock_cmms_lambda::models::temp_role_elevation::{ElevationStatus, TempRoleElevation};
use ore_dock_cmms_lambda::models::user_role::{RoleAssignmentStatus, UserRole};
use ore_dock_cmms_lambda::time::Timestamp;
use ore_dock_cmms_lambda::AppError;

fn ts(y: i32, m: u32, d: u32) -> Timestamp {
    let t = Utc.with_ymd_and_hms(y, m, d, 0, 0, 0).unwrap();
    Timestamp { secs: t.timestamp(), nanos: 0 }
}

fn validation(r: Result<impl std::fmt::Debug, AppError>) -> String {
    match r {
        Err(AppError::ValidationError(m)) => m,
        other => panic!("expected a validation error, got {:?}", other),
    }
}

fn role() -> Role {
    Role::new(
        "r1".to_string(),
        "Technician".to_string(),
        None,
        "custom".to_string(),
        false,
        vec!["p1".to_string()],
        None,
        5,
        true,
        Some(ts(2030, 1, 1)),
        Some(10),
        Some("admin".to_string()),
    )
    .unwrap()
}

#[test]
fn role_new_checks() {
    let r = role();
    assert_eq!(r.role_type, RoleType::Custom);
    let err = Role::new("r".to_string(), "  ".to_string(), None, "custom".to_string(), false, vec![], None, 0, true, None, None, None);
    assert_eq!(validation(err), "Role name cannot be empty");
    let err = Role::new("r".to_string(), "x".to_string(), None, "boss".to_string(), false, vec![], None, 0, true, None, None, None);
    assert_eq!(validation(err), "Invalid role type");
    let err = Role::new("r".to_string(), "x".to_string(), None, "custom".to_string(), true, vec![], None, 0, true, None, None, None);
    assert_eq!(validation(err), "System roles must have System type");
}

#[test]
fn role_permissions_add_remove() {
    let mut r = role();
    r.add_permission("p2".to_string());
    r.add_permission("p2".to_string());
    assert_eq!(r.permission_ids, vec!["p1".to_string(), "p2".to_string()]);
    assert!(r.has_permission("p2"));
    r.remove_permission("p2");
    assert!(!r.has_permission("p2"));
    assert_eq!(r.permission_ids, vec!["p1".to_string()]);
    r.remove_permission("missing");
    assert_eq!(r.permission_ids, vec!["p1".to_string()]);
}

#[test]
fn role_expiry_and_use() {
    let r = role();
    assert!(!r.is_expired_at(&ts(2029, 12, 31)));
    assert!(r.is_expired_at(&ts(2030, 1, 2)));
    assert!(r.is_usable_at(&ts(2029, 1, 1)));
    assert!(!r.is_usable_at(&ts(2031, 1, 1)));
}

#[test]
fn role_item_roundtrip() {
    let r = role();
    let back = Role::from_item(&r.to_item()).unwrap();
    assert_eq!(back.id, r.id);
    assert_eq!(back.permission_ids, r.permission_ids);
    assert_eq!(back.priority, 5);
    assert_eq!(back.expires_at, r.expires_at);
    assert_eq!(back.max_users, Some(10));
    assert_eq!(back.created_at, r.created_at);
}

#[test]
fn hierarchy_refuses_self_parent() {
    let err = RoleHierarchy::new("h".to_string(), "a".to_string(), "a".to_string(), "direct".to_string(), true, vec![], 1, true, 0, None, None, "me".to_string());
    assert_eq!(validation(err), "Parent and child role cannot be the same");
    let mut h = RoleHierarchy::new("h".to_string(), "a".to_string(), "b".to_string(), "delegated".to_string(), true, vec![], 1, true, 0, None, Some(ts(2020, 1, 1)), "me".to_string()).unwrap();
    assert_eq!(h.hierarchy_type, HierarchyType::Delegated);
    assert!(h.is_expired_at(&ts(2021, 1, 1)));
    assert!(!h.is_effective_at(&ts(2021, 1, 1)));
    h.add_permission_override("x".to_string());
    assert!(h.has_permission_override("x"));
    let back = RoleHierarchy::from_item(&h.to_item()).unwrap();
    assert_eq!(back.permission_overrides, vec!["x".to_string()]);
    assert_eq!(back.delegation_expires_at, h.delegation_expires_at);
}

#[test]
fn permission_checks_and_actions() {
    let p = Permission::new(
        "p".to_string(),
        "r".to_string(),
        "asset".to_string(),
        vec!["read".to_string(), "update".to_string()],
        "global".to_string(),
        Some("{\"a\":1}".to_string()),
        None,
        true,
        Some(ts(2030, 1, 1)),
        "me".to_string(),
    )
    .unwrap();
    assert_eq!(p.actions, vec![PermissionAction::Read, PermissionAction::Update]);
    assert_eq!(p.scope, PermissionScope::Global);
    assert!(p.allows_action_at(&PermissionAction::Read, &ts(2029, 1, 1)));
    assert!(!p.allows_action_at(&PermissionAction::Delete, &ts(2029, 1, 1)));
    assert!(!p.allows_action_at(&PermissionAction::Read, &ts(2031, 1, 1)));
    assert!(p.applies_to_resource(&ResourceType::Asset, "anything"));
    assert!(!p.applies_to_resource(&ResourceType::Role, "anything"));
    let err = Permission::new("p".to_string(), "r".to_string(), "asset".to_string(), vec![], "global".to_string(), None, None, true, None, "me".to_string());
    assert_eq!(validation(err), "At least one action is required");
    let err = Permission::new("p".to_string(), "r".to_string(), "asset".to_string(), vec!["read".to_string(), "fly".to_string()], "global".to_string(), None, None, true, None, "me".to_string());
    assert_eq!(validation(err), "Invalid permission action");
    let err = Permission::new("p".to_string(), "r".to_string(), "asset".to_string(), vec!["read".to_string()], "galaxy".to_string(), None, None, true, None, "me".to_string());
    assert_eq!(validation(err), "Invalid permission scope");
}

#[test]
fn permission_item_canonical_json_and_skipped_actions() {
    let p = Permission::new("p".to_string(), "r".to_string(), "report".to_string(), vec!["export".to_string()], "own".to_string(), Some("{\"b\":2,\"a\":1}".to_string()), None, true, None, "me".to_string()).unwrap();
    let back = Permission::from_item(&p.to_item()).unwrap();
    assert_eq!(back.actions, vec![PermissionAction::Export]);
    // The conditions are read back as serde_json writes them.
    assert_eq!(back.conditions, Some("{\"a\":1,\"b\":2}".to_string()));
}

#[test]
fn permission_log_new_checks() {
    let l = PermissionLog::new("l".to_string(), "u".to_string(), "work_order".to_string(), "w1".to_string(), "approve".to_string(), "denied".to_string(), ts(2024, 1, 1), None, Some("no".to_string()), "1.2.3.4".to_string(), "ua".to_string(), None, None).unwrap();
    assert_eq!(l.resource_type, ResourceType::WorkOrder);
    let back = PermissionLog::from_item(&l.to_item()).unwrap();
    assert_eq!(back.attempted_at, l.attempted_at);
    assert_eq!(back.denied_reason, Some("no".to_string()));
    let err = PermissionLog::new("l".to_string(), "u".to_string(), "work_order".to_string(), " ".to_string(), "approve".to_string(), "denied".to_string(), ts(2024, 1, 1), None, None, "ip".to_string(), "ua".to_string(), None, None);
    assert_eq!(validation(err), "Resource ID cannot be empty");
    let err = PermissionLog::new("l".to_string(), "u".to_string(), "work_order".to_string(), "w".to_string(), "approve".to_string(), "maybe".to_string(), ts(2024, 1, 1), None, None, "ip".to_string(), "ua".to_string(), None, None);
    assert_eq!(validation(err), "Invalid permission status");
}

#[test]
fn user_role_lifecycle() {
    let mut r = UserRole::new("ur".to_string(), "u".to_string(), "r".to_string(), "manual".to_string(), true, None, ts(2020, 1, 1), Some(ts(2030, 1, 1)), None, None, None).unwrap();
    assert_eq!(r.status, RoleAssignmentStatus::Active);
    assert!(r.is_effective_at(&ts(2025, 1, 1)));
    assert!(!r.is_effective_at(&ts(2031, 1, 1)));
    assert!(r.suspend("boss".to_string(), Some("audit".to_string())).is_ok());
    assert!(!r.is_effective_at(&ts(2025, 1, 1)));
    assert_eq!(validation(r.suspend("boss".to_string(), None)), "Only active role assignments can be suspended");
    assert!(r.reactivate().is_ok());
    assert_eq!(r.revoked_by_user_id, None);
    assert!(r.revoke("boss".to_string(), None).is_ok());
    assert_eq!(validation(r.revoke("boss".to_string(), None)), "Role assignment is already revoked");
    let mut ext = UserRole::new("ue".to_string(), "u".to_string(), "r".to_string(), "manual".to_string(), true, None, ts(2020, 1, 1), Some(ts(2030, 1, 1)), None, None, None).unwrap();
    let kept = ext.clone();
    assert_eq!(validation(ext.extend_expiration_at(ts(2024, 1, 1), &ts(2024, 1, 1))), "New expiration must be in the future");
    assert_eq!(ext.expires_at, kept.expires_at);
    assert!(ext.extend_expiration_at(ts(2031, 1, 1), &ts(2024, 1, 1)).is_ok());
    assert_eq!(ext.expires_at, Some(ts(2031, 1, 1)));
    assert_eq!(ext.updated_at, ts(2024, 1, 1));
    assert!(ext.extend_expiration(ts(2999, 1, 1)).is_ok());
    assert!(ext.extend_expiration(ts(2000, 1, 1)).is_err());
    let future = UserRole::new("ur".to_string(), "u".to_string(), "r".to_string(), "import".to_string(), false, None, ts(2999, 1, 1), None, None, None, None).unwrap();
    assert_eq!(future.status, RoleAssignmentStatus::Pending);
    let back = UserRole::from_item(&future.to_item()).unwrap();
    assert_eq!(back.effective_from, future.effective_from);
    assert_eq!(back.status, RoleAssignmentStatus::Pending);
}

#[test]
fn elevation_workflow() {
    let mut e = TempRoleElevation::new("e".to_string(), "u".to_string(), "r1".to_string(), "r2".to_string(), None, None, "req".to_string(), ts(2024, 1, 1), ts(2024, 1, 2), "high".to_string(), true, true, None).unwrap();
    assert_eq!(e.status, ElevationStatus::Pending);
    assert_eq!(validation(e.activate()), "Elevation must be approved before activation");
    assert!(e.approve("boss".to_string()).is_ok());
    assert!(e.activate().is_ok());
    assert!(e.is_active_at(&Timestamp { secs: ts(2024, 1, 1).secs + 3600, nanos: 0 }));
    assert!(e.is_expired_at(&ts(2024, 1, 3)));
    assert!(e.revoke("boss".to_string(), Some("done".to_string())).is_ok());
    assert_eq!(validation(e.revoke("boss".to_string(), None)), "Elevation is already expired or revoked");
    let err = TempRoleElevation::new("e".to_string(), "u".to_string(), "r1".to_string(), "r2".to_string(), None, None, "req".to_string(), ts(2024, 1, 2), ts(2024, 1, 1), "high".to_string(), true, true, None);
    assert_eq!(validation(err), "End time must be after start time");
    let auto = TempRoleElevation::new("e".to_string(), "u".to_string(), "r1".to_string(), "r2".to_string(), None, None, "req".to_string(), ts(2024, 1, 1), ts(2024, 1, 2), "low".to_string(), true, false, None).unwrap();
    assert_eq!(auto.status, ElevationStatus::Approved);
}

#[test]
fn permission_named_action_check() {
    let p = Permission::new("p".to_string(), "r".to_string(), "asset".to_string(), vec!["read".to_string()], "global".to_string(), None, None, true, None, "me".to_string()).unwrap();
    assert!(p.check_allows_action("read".to_string()));
    assert!(!p.check_allows_action("delete".to_string()));
    assert!(!p.check_allows_action("reed".to_string()));
}
